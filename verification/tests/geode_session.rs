use quartz::geode_new::{
    failure_report, geode_new_command, poll_for, start, terminal_type, Await, Event, Outcome, Poll,
    PtyFailure, PtyOp, Stage, Step, PROMPT_TIMEOUT_MS,
};
use quartz::new::{NewProjectRequest, Template};

fn request(template: Template, strip: bool) -> NewProjectRequest {
    NewProjectRequest {
        geode_path: "/usr/bin/geode".to_string(),
        mod_name: "Cool Mod".to_string(),
        version: "v1.0.0".to_string(),
        developer: "me".to_string(),
        description: "does things".to_string(),
        target_directory: "/home/me/mods".to_string(),
        strip_comments: strip,
        template,
    }
}

fn describe(op: &PtyOp) -> String {
    match op {
        PtyOp::Sleep(ms) => format!("sleep {ms}"),
        PtyOp::Type(t) => format!("type {t:?}"),
        PtyOp::Erase(n) => format!("erase {n}"),
        PtyOp::Kill => "kill".to_string(),
    }
}

fn ops_of(step: &Step) -> Vec<String> {
    match step {
        Step::Continue(ops, _) => ops.iter().map(describe).collect(),
        _ => panic!("expected a step that continues"),
    }
}

fn prompt_of(step: &Step) -> Option<(String, u64)> {
    match step {
        Step::Continue(_, Await::Prompt(t, ms)) => Some((t.clone(), *ms)),
        _ => None,
    }
}

#[test]
fn opening_selects_template() {
    let (s, step) = start(request(Template::Default, false));
    assert_eq!(s.stage, Stage::Field(0));
    assert_eq!(ops_of(&step), vec!["sleep 150", "type \"\\r\""]);
    assert_eq!(prompt_of(&step), Some(("Name:".to_string(), PROMPT_TIMEOUT_MS)));
    let (_, step) = start(request(Template::Minimal, false));
    assert_eq!(ops_of(&step), vec!["sleep 150", "type \"\\u{1b}[B\"", "sleep 60", "type \"\\r\""]);
}

#[test]
fn full_conversation_answers_in_order() {
    let (mut s, _) = start(request(Template::Default, true));
    let answers = ["Cool Mod\n", "v1.0.0\n", "me\n", "does things\n", "/home/me/mods\n"];
    let next = ["Version:", "Developer:", "Description", "Location:", "remove comments"];
    for i in 0..5 {
        let step = s.advance(Event::Seen);
        assert_eq!(ops_of(&step), vec!["sleep 80".to_string(), "erase 200".to_string(), format!("type {:?}", answers[i])]);
        assert_eq!(prompt_of(&step), Some((next[i].to_string(), 6000)));
    }
    assert_eq!(s.stage, Stage::StripPrompt);
    let step = s.advance(Event::Seen);
    assert_eq!(ops_of(&step), vec!["type \"y\\n\""]);
    assert_eq!(prompt_of(&step), Some(("Are you sure you want to proceed".to_string(), 3000)));
    let step = s.advance(Event::Seen);
    assert_eq!(ops_of(&step), vec!["type \"y\\n\""]);
    assert!(matches!(step, Step::Continue(_, Await::Exit(15000))));
    let step = s.advance(Event::Seen);
    assert_eq!(ops_of(&step), vec!["sleep 100"]);
    assert!(matches!(step, Step::Continue(_, Await::Capture)));
    assert_eq!(s.stage, Stage::Collecting(Outcome::Completed));
    match s.advance(Event::Captured("\x1b[32mCreated!\x1b[0m".to_string())) {
        Step::Finish(r) => assert_eq!(r, "Created!"),
        _ => panic!("expected the report"),
    }
    assert_eq!(s.stage, Stage::Done);
    assert!(matches!(s.advance(Event::Seen), Step::Ignored));
    assert_eq!(s.stage, Stage::Done);
}

#[test]
fn missing_prompt_kills_and_reports() {
    let (mut s, _) = start(request(Template::Default, false));
    s.advance(Event::Seen);
    s.advance(Event::Seen);
    let step = s.advance(Event::TimedOut);
    assert_eq!(ops_of(&step), vec!["kill"]);
    assert!(matches!(step, Step::Continue(_, Await::Capture)));
    assert_eq!(s.stage, Stage::Collecting(Outcome::PromptMissed(2)));
    assert!(matches!(s.advance(Event::Seen), Step::Ignored));
    match s.advance(Event::Captured("\x1b[1mout".to_string())) {
        Step::Finish(r) => assert_eq!(r, "out\n\n[Quartz] timed out waiting for 'Developer:'."),
        _ => panic!("expected the report"),
    }
}

#[test]
fn missing_strip_prompt_and_no_exit() {
    let (mut s, _) = start(request(Template::Default, false));
    for _ in 0..5 {
        s.advance(Event::Seen);
    }
    s.advance(Event::TimedOut);
    match s.advance(Event::Captured("x".to_string())) {
        Step::Finish(r) => assert_eq!(r, "x\n\n[Quartz] timed out waiting for the strip comments prompt"),
        _ => panic!("expected the report"),
    }
    let (mut s, _) = start(request(Template::Default, false));
    for _ in 0..5 {
        s.advance(Event::Seen);
    }
    let step = s.advance(Event::Seen);
    assert_eq!(ops_of(&step), vec!["type \"n\\n\""]);
    let step = s.advance(Event::TimedOut);
    assert!(ops_of(&step).is_empty());
    assert!(matches!(step, Step::Continue(_, Await::Exit(15000))));
    let step = s.advance(Event::TimedOut);
    assert!(ops_of(&step).is_empty());
    match s.advance(Event::Captured("y".to_string())) {
        Step::Finish(r) => assert_eq!(r, "y\n\n[Quartz] geode did not exit after all answers were sent."),
        _ => panic!("expected the report"),
    }
}

#[test]
fn captured_too_early_is_ignored() {
    let (mut s, _) = start(request(Template::Default, false));
    assert!(matches!(s.advance(Event::Captured("x".to_string())), Step::Ignored));
    assert_eq!(s.stage, Stage::Field(0));
}

#[test]
fn poll_decides() {
    assert_eq!(poll_for("? Name: ", "Name:", 0, 6000), Poll::Found);
    assert_eq!(poll_for("? Name: ", "Name:", 9000, 6000), Poll::Found);
    assert_eq!(poll_for("loading", "Name:", 6001, 6000), Poll::TimedOut);
    assert_eq!(poll_for("loading", "Name:", 6000, 6000), Poll::Retry);
}

#[test]
fn setup_failures_and_command() {
    assert_eq!(failure_report(PtyFailure::OpenPty, "e"), "opening PTY failed: e");
    assert_eq!(failure_report(PtyFailure::Spawn, "e"), "geode failed: e");
    assert_eq!(failure_report(PtyFailure::CloneReader, "e"), "cloning PTY reader fialed: e");
    assert_eq!(failure_report(PtyFailure::TakeWriter, "e"), "taking PTY writer failed: e");
    let c = geode_new_command("/bin/geode");
    assert_eq!(c.program, "/bin/geode");
    assert_eq!(c.args, vec!["new".to_string()]);
    assert_eq!(terminal_type(), "xterm-256color");
}
