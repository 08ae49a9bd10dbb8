use niri_float::rules::{satisfied, Rule};
use niri_float::window::WindowSnapshot;

#[test]
fn satisfied_all_cases() {
    assert!(satisfied(&vec![Some(true), None, None]));
    assert!(satisfied(&vec![Some(true), Some(true), None]));
    assert!(satisfied(&vec![Some(true), Some(true), Some(true)]));

    assert!(!satisfied(&vec![]));
    assert!(!satisfied(&vec![None]));
    assert!(!satisfied(&vec![None, None, None]));
    assert!(!satisfied(&vec![Some(false), None, None]));
    assert!(!satisfied(&vec![Some(false), Some(false), None]));
    assert!(!satisfied(&vec![Some(true), Some(false), None]));
}

#[test]
fn satisfied_rejects_false_before_true() {
    assert!(!satisfied(&vec![Some(false), Some(true)]));
    assert!(!satisfied(&vec![None, Some(false), Some(true)]));
}

fn window(id: u64, title: Option<&str>, app_id: Option<&str>) -> WindowSnapshot {
    WindowSnapshot::new(id, title.map(str::to_string), app_id.map(str::to_string))
}

#[test]
fn invalid_pattern_fails_to_compile() {
    let rule = Rule::new(Some("foo(bar".to_string()), None);
    assert!(rule.try_compile().is_err());
}

#[test]
fn rule_without_pattern_always_compiles() {
    assert!(Rule::new(None, Some("firefox".to_string())).try_compile().is_ok());
    assert!(Rule::new(None, None).try_compile().is_ok());
}

#[test]
fn title_rule_matches_by_regex() {
    let rule = Rule::new(Some("^KeePass.*".to_string()), None).try_compile().unwrap();
    assert!(rule.matches(&window(1, Some("KeePassXC - Browser Access Request"), None)));
    assert!(rule.matches(&window(1, Some("KeePassXC"), Some("anything"))));
    assert!(!rule.matches(&window(1, Some("A KeePass window"), None)));
    assert!(!rule.matches(&window(1, Some("Terminal"), None)));
}

#[test]
fn title_rule_does_not_match_window_without_title() {
    let rule = Rule::new(Some(".*".to_string()), None).try_compile().unwrap();
    assert!(!rule.matches(&window(1, None, Some("firefox"))));
}

#[test]
fn app_id_only_rule_matches_exactly_that_app_id() {
    let rule = Rule::new(None, Some("org.keepassxc.KeePassXC".to_string()))
        .try_compile()
        .unwrap();
    assert!(rule.matches(&window(1, None, Some("org.keepassxc.KeePassXC"))));
    assert!(rule.matches(&window(1, Some("whatever title"), Some("org.keepassxc.KeePassXC"))));
    assert!(!rule.matches(&window(1, None, Some("org.mozilla.firefox"))));
    assert!(!rule.matches(&window(1, Some("KeePassXC"), None)));
}

#[test]
fn both_predicates_must_hold_when_both_present() {
    let rule = Rule::new(Some("^Popup$".to_string()), Some("app".to_string()))
        .try_compile()
        .unwrap();
    assert!(rule.matches(&window(1, Some("Popup"), Some("app"))));
    assert!(!rule.matches(&window(1, Some("Popup"), Some("other"))));
    assert!(!rule.matches(&window(1, Some("Main"), Some("app"))));
    // a missing window field leaves that predicate undecided; the other
    // satisfied predicate carries the match
    assert!(rule.matches(&window(1, None, Some("app"))));
    assert!(rule.matches(&window(1, Some("Popup"), None)));
}

#[test]
fn vacuous_rule_matches_nothing() {
    let rule = Rule::new(None, None).try_compile().unwrap();
    assert!(!rule.matches(&window(1, Some("anything"), Some("anything"))));
    assert!(!rule.matches(&window(1, None, None)));
}

#[test]
fn rules_keep_their_order() {
    let rules = niri_float::rules::Rules::new(vec![
        Rule::new(Some("^a$".to_string()), None),
        Rule::new(None, Some("b".to_string())),
    ]);
    let list = rules.into_iter();
    assert_eq!(list.len(), 2);
    assert_eq!(list[0].title.as_deref(), Some("^a$"));
    assert_eq!(list[1].app_id.as_deref(), Some("b"));
}
