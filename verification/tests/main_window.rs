use quartz::app::{quartz as Window, AppEffect, AppMessage, Effect, Message, Screen, State};
use quartz::command::{command_failure_text, command_output_text};
use quartz::theme::{input_border, primary_button_background, secondary_button_background, tab_label_background, toggle_background, ButtonStatus, InputStatus, Rgb, TabStatus};
use quartz::{build_tab, new, profiles, setup};

#[test]
fn new_window_defaults() {
    let w = Window::new("/usr/bin/geode".to_string());
    assert_eq!(w.geode_path, "/usr/bin/geode");
    assert_eq!(w.selected_tab, 0);
    assert_eq!(w.tty_output, "");
    assert!(!w.tty_expanded);
    assert_eq!(w.screen(), Screen::Profiles);
    assert_eq!(w.tty_arrow(), ">");
}

#[test]
fn terminal_log_collects_output() {
    let mut w = Window::new("g".to_string());
    w.update(AppMessage::CommandOutput("geode 4.0".to_string()));
    w.update(AppMessage::Profiles(profiles::Message::Loaded("* a [path=/a]".to_string())));
    w.update(AppMessage::New(new::Message::ProjectCreated("made".to_string())));
    w.update(AppMessage::Build(build_tab::Message::BuildLine("line".to_string())));
    w.update(AppMessage::Build(build_tab::Message::BuildFinished));
    assert_eq!(w.tty_output, "geode 4.0\n* a [path=/a]\nmade\nline\n");
    assert_eq!(w.profiles.profiles.len(), 1);
    assert_eq!(w.build.latest_line, "line");
}

#[test]
fn tabs_and_terminal_toggle() {
    let mut w = Window::new("g".to_string());
    w.update(AppMessage::TabSelected(2));
    assert_eq!(w.screen(), Screen::Build);
    w.update(AppMessage::TabSelected(1));
    assert_eq!(w.screen(), Screen::New);
    w.update(AppMessage::TabSelected(7));
    assert_eq!(w.screen(), Screen::Unknown);
    w.update(AppMessage::ToggleTty);
    assert!(w.tty_expanded);
    assert_eq!(w.tty_arrow(), "\u{2304}");
    match w.update(AppMessage::RunGeodeVersion) {
        AppEffect::Version(c) => {
            assert_eq!(c.program, "g");
            assert_eq!(c.args, vec!["--version".to_string()]);
        }
        _ => panic!("expected the version command"),
    }
}

#[test]
fn state_starts_from_saved_path() {
    assert!(matches!(State::from_saved_path(None), State::Setup(_)));
    match State::from_saved_path(Some("/g".to_string())) {
        State::Main(w) => assert_eq!(w.geode_path, "/g"),
        _ => panic!("expected the main window"),
    }
}

#[test]
fn state_continue_needs_a_path() {
    let mut s = State::from_saved_path(None);
    assert!(matches!(s.update(Message::Setup(setup::Message::Continue)), Effect::Idle));
    assert!(matches!(s, State::Setup(_)));
    assert!(matches!(s.update(Message::App(AppMessage::ToggleTty)), Effect::Idle));
    let e = s.update(Message::Setup(setup::Message::UseSystemDefault));
    assert!(matches!(e, Effect::Setup(setup::Effect::SavePath(_))));
    s.update(Message::Setup(setup::Message::Continue));
    match &s {
        State::Main(w) => assert_eq!(w.geode_path, "/usr/bin/geode"),
        _ => panic!("expected the main window"),
    }
    assert!(matches!(s.update(Message::Setup(setup::Message::Browse)), Effect::Idle));
    assert!(matches!(s, State::Main(_)));
    let e = s.update(Message::App(AppMessage::Profiles(profiles::Message::Refresh)));
    assert!(matches!(e, Effect::App(AppEffect::Profiles(profiles::Effect::ListProfiles(_)))));
}

#[test]
fn command_output_joins_streams() {
    assert_eq!(command_output_text(b"out\n", b"err\n"), "out\nerr\n");
    assert_eq!(command_output_text(b"a\xffb", b""), "a\u{FFFD}b");
    assert_eq!(command_output_text("✓".as_bytes(), b""), "✓");
    assert_eq!(command_failure_text("not found"), "command failed: not found");
}

#[test]
fn theme_colours() {
    assert_eq!(primary_button_background(ButtonStatus::Hovered), Rgb { r: 0x8A, g: 0x7C, b: 0xC0 });
    assert_eq!(primary_button_background(ButtonStatus::Disabled), Rgb { r: 0x74, g: 0x66, b: 0xB0 });
    assert_eq!(secondary_button_background(ButtonStatus::Pressed), Rgb { r: 0x1A, g: 0x14, b: 0x24 });
    assert_eq!(toggle_background(ButtonStatus::Pressed), Rgb { r: 0x22, g: 0x1A, b: 0x2E });
    assert_eq!(input_border(InputStatus::Focused), Rgb { r: 0x74, g: 0x66, b: 0xB0 });
    assert_eq!(input_border(InputStatus::Hovered), Rgb { r: 0x3A, g: 0x30, b: 0x48 });
    assert_eq!(tab_label_background(TabStatus::Inactive), Rgb { r: 0x5A, g: 0x51, b: 0x68 });
}
