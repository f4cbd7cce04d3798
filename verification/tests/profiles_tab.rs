use quartz::profiles::{listing_has_malformed_line, parse_profiles, Effect, Message, Profile, Tab};

fn triple(p: &Profile) -> (&str, &str, bool) {
    (p.name.as_str(), p.path.as_str(), p.active)
}

#[test]
fn parse_profiles_reads_listing() {
    let out = "* default [ path = /home/u/.local/share/GD ]\n  other [path=/tmp/x]\n\nbroken line\n";
    let ps = parse_profiles(out);
    assert_eq!(ps.len(), 2);
    assert_eq!(triple(&ps[0]), ("default", "/home/u/.local/share/GD", true));
    assert_eq!(triple(&ps[1]), ("other", "/tmp/x", false));
}

#[test]
fn parse_profiles_needs_path_key() {
    assert_eq!(parse_profiles("name [ notpath = x ]").len(), 0);
    assert_eq!(parse_profiles("name path = x").len(), 0);
    assert_eq!(parse_profiles("name [ path = x").len(), 0);
}

#[test]
fn parse_profiles_edge_cases() {
    let ps = parse_profiles("a [path]");
    assert_eq!(triple(&ps[0]), ("a", "", false));
    let ps = parse_profiles("**x [path == y]");
    assert_eq!(triple(&ps[0]), ("x", "y", true));
    let ps = parse_profiles("name [path = a [b] ]");
    assert_eq!(triple(&ps[0]), ("name", "a [b]", false));
    let ps = parse_profiles("a [path=b]\r\nc [path=d]");
    assert_eq!(ps.len(), 2);
    assert_eq!(triple(&ps[1]), ("c", "d", false));
    assert_eq!(parse_profiles("").len(), 0);
}

#[test]
fn malformed_listing_is_detected() {
    assert!(listing_has_malformed_line("ok [path=a]\na ] b [\n"));
    assert!(!listing_has_malformed_line("ok [path=a]\nno brackets\n"));
    assert!(!listing_has_malformed_line(""));
}

#[test]
fn profile_label_marks_active() {
    let p = Profile { name: "main".to_string(), path: "/p".to_string(), active: true };
    assert_eq!(p.label(), "* main");
    let q = Profile { name: "alt".to_string(), path: "/q".to_string(), active: false };
    assert_eq!(q.label(), " alt");
}

#[test]
fn tab_refresh_and_select_commands() {
    let mut tab = Tab::default();
    match tab.update("/usr/bin/geode", Message::Refresh) {
        Effect::ListProfiles(c) => {
            assert_eq!(c.program, "/usr/bin/geode");
            assert_eq!(c.args, vec!["profile".to_string(), "list".to_string()]);
        }
        _ => panic!("expected a listing command"),
    }
    match tab.update("geode", Message::Select("alt".to_string())) {
        Effect::SelectProfile(c, name) => {
            assert_eq!(c.args, vec!["profile".to_string(), "select".to_string(), "alt".to_string()]);
            assert_eq!(name, "alt");
        }
        _ => panic!("expected a select command"),
    }
}

#[test]
fn tab_loaded_then_selected() {
    let mut tab = Tab::default();
    let e = tab.update("geode", Message::Loaded("* a [path=/a]\nb [path=/b]\n".to_string()));
    assert!(matches!(e, Effect::Idle));
    assert_eq!(tab.profiles.len(), 2);
    let e = tab.update("geode", Message::Selected("b".to_string()));
    assert!(matches!(e, Effect::Idle));
    assert_eq!(triple(&tab.profiles[0]), ("a", "/a", false));
    assert_eq!(triple(&tab.profiles[1]), ("b", "/b", true));
    tab.update("geode", Message::Selected("zzz".to_string()));
    assert!(tab.profiles.iter().all(|p| !p.active));
}
