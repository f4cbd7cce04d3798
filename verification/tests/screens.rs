use quartz::build_tab::{self, build_failure_line, message_for, BuildEvent};
use quartz::new::{self, Template};
use quartz::setup::{self, parse_saved_path, saved_path_contents, settings_file_name, Setup};

#[test]
fn template_order_and_presses() {
    let all = Template::all();
    assert_eq!(all, [Template::Default, Template::Minimal]);
    for t in all {
        assert_eq!(all[t.down_presses()], t);
    }
    assert_eq!(Template::Default.label(), "Default");
    assert_eq!(Template::Minimal.label(), "Minimal");
}

#[test]
fn new_tab_create_needs_template() {
    let mut tab = new::Tab::default();
    tab.update("geode", new::Message::ModNameChanged("my-mod".to_string()));
    assert!(!tab.can_create());
    let e = tab.update("geode", new::Message::CreateProject);
    assert!(matches!(e, new::Effect::Idle));
    assert!(!tab.creating);
    assert_eq!(tab.create_label(), "Create Project");
}

#[test]
fn new_tab_create_with_template() {
    let mut tab = new::Tab::default();
    tab.update("g", new::Message::ModNameChanged("m".to_string()));
    tab.update("g", new::Message::VersionChanged("v1.0.0".to_string()));
    tab.update("g", new::Message::DeveloperChanged("dev".to_string()));
    tab.update("g", new::Message::DescriptionChanged("desc".to_string()));
    tab.update("g", new::Message::TargetDirChanged("/x".to_string()));
    tab.update("g", new::Message::TargetDirPicked(None));
    assert_eq!(tab.target_directory, "/x");
    tab.update("g", new::Message::TargetDirPicked(Some("/y".to_string())));
    tab.update("g", new::Message::StripCommentsToggled(true));
    tab.update("g", new::Message::TemplateSelected(Template::Minimal));
    assert!(tab.can_create());
    match tab.update("/bin/geode", new::Message::CreateProject) {
        new::Effect::CreateProject(r) => {
            assert_eq!(r.geode_path, "/bin/geode");
            assert_eq!(r.mod_name, "m");
            assert_eq!(r.version, "v1.0.0");
            assert_eq!(r.developer, "dev");
            assert_eq!(r.description, "desc");
            assert_eq!(r.target_directory, "/y");
            assert!(r.strip_comments);
            assert_eq!(r.template, Template::Minimal);
        }
        _ => panic!("expected a request"),
    }
    assert!(tab.creating);
    assert!(!tab.can_create());
    assert_eq!(tab.create_label(), "Creating project, please wait");
    tab.update("g", new::Message::ProjectCreated("out".to_string()));
    assert!(!tab.creating);
    assert!(matches!(tab.update("g", new::Message::BrowseTargetDir), new::Effect::PickTargetDir));
}

#[test]
fn build_tab_start_needs_folder() {
    let mut tab = build_tab::Tab::default();
    assert!(matches!(tab.update("g", build_tab::Message::StartBuild), build_tab::Effect::Idle));
    assert!(!tab.building);
    assert!(!tab.can_build());
    assert_eq!(tab.build_label(), "Build");
}

#[test]
fn build_tab_runs_and_finishes() {
    let mut tab = build_tab::Tab::default();
    tab.update("g", build_tab::Message::ProjectDirChanged("/proj".to_string()));
    tab.update("g", build_tab::Message::BuildLine("old".to_string()));
    match tab.update("/bin/geode", build_tab::Message::StartBuild) {
        build_tab::Effect::Build(r) => {
            assert_eq!(r.program, "/bin/geode");
            assert_eq!(r.project_dir, "/proj");
        }
        _ => panic!("expected a build"),
    }
    assert!(tab.building);
    assert_eq!(tab.latest_line, "");
    assert!(!tab.shows_status_line());
    assert_eq!(tab.build_label(), "Building project, please wait");
    tab.update("g", build_tab::Message::BuildLine("compiling".to_string()));
    assert_eq!(tab.latest_line, "compiling");
    assert!(tab.shows_status_line());
    tab.update("g", build_tab::Message::BuildFinished);
    assert!(!tab.building);
    assert!(tab.can_build());
    tab.update("g", build_tab::Message::ProjectDirPicked(Some("/other".to_string())));
    assert_eq!(tab.project_directory, "/other");
}

#[test]
fn build_events_become_messages() {
    assert!(matches!(message_for(BuildEvent::Line("l".to_string())), build_tab::Message::BuildLine(ref l) if l == "l"));
    assert!(matches!(message_for(BuildEvent::Done), build_tab::Message::BuildFinished));
    assert_eq!(build_failure_line("no such file"), "build failed: no such file");
    assert_eq!(build_tab::build_argument(), "build");
}

#[test]
fn saved_path_is_trimmed_and_read_back() {
    assert_eq!(settings_file_name(), "geode_path.txt");
    assert_eq!(parse_saved_path("  /usr/bin/geode \n"), Some("/usr/bin/geode".to_string()));
    assert_eq!(parse_saved_path("   \n\t"), None);
    assert_eq!(parse_saved_path(""), None);
    let saved = saved_path_contents("  /opt/geode/geode\n");
    assert_eq!(saved, "/opt/geode/geode");
    assert_eq!(parse_saved_path(&saved), Some("/opt/geode/geode".to_string()));
    assert_eq!(parse_saved_path(&saved_path_contents(" \n ")), None);
}

#[test]
fn setup_screen_choices() {
    let mut s = Setup::default();
    assert!(!s.can_continue());
    assert_eq!(s.path_label(), "No path selected");
    assert!(matches!(s.update(setup::Message::Browse), setup::Effect::PickGeodePath));
    assert!(matches!(s.update(setup::Message::PathPicked(None)), setup::Effect::Idle));
    assert!(s.geode_path.is_none());
    match s.update(setup::Message::UseSystemDefault) {
        setup::Effect::SavePath(c) => assert_eq!(c, "/usr/bin/geode"),
        _ => panic!("expected a save"),
    }
    assert_eq!(s.geode_path.as_deref(), Some("/usr/bin/geode"));
    match s.update(setup::Message::PathPicked(Some(" /home/me/geode ".to_string()))) {
        setup::Effect::SavePath(c) => assert_eq!(c, "/home/me/geode"),
        _ => panic!("expected a save"),
    }
    assert_eq!(s.geode_path.as_deref(), Some(" /home/me/geode "));
    assert!(matches!(s.update(setup::Message::Continue), setup::Effect::Idle));
    assert!(matches!(s.update(setup::Message::PathPicked(None)), setup::Effect::Idle));
    assert!(s.can_continue());
    assert_eq!(s.path_label(), " /home/me/geode ");
}
