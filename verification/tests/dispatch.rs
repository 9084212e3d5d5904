use nocelium::dispatch::{glob_match, DispatchAction, DispatchRule, Dispatcher};

#[test]
fn test_glob_match_exact() {
    assert!(glob_match("telegram:message:-1001234", "telegram:message:-1001234"));
    assert!(!glob_match("telegram:message:-1001234", "telegram:message:-9999"));
}

#[test]
fn test_glob_match_star() {
    assert!(glob_match("telegram:message:*", "telegram:message:-1001234"));
    assert!(!glob_match("telegram:message:*", "telegram:message:-1001234:42"));
}

#[test]
fn test_glob_match_star_middle() {
    assert!(glob_match("telegram:*:direct", "telegram:message:direct"));
    assert!(!glob_match("telegram:*:direct", "telegram:message:group"));
}

#[test]
fn test_glob_match_doublestar() {
    assert!(glob_match("telegram:**", "telegram:message:-1001234:42"));
    assert!(glob_match("telegram:**", "telegram:callback:approve"));
}

#[test]
fn test_glob_match_catchall() {
    assert!(glob_match("*", "telegram:message:-1001234"));
    assert!(glob_match("*", "cron:heartbeat"));
    assert!(glob_match("*", "anything"));
}

#[test]
fn test_glob_no_match_different_length() {
    assert!(!glob_match("telegram:message", "telegram:message:-1001234"));
    assert!(!glob_match("telegram:message:*:*", "telegram:message:-1001234"));
}

#[test]
fn test_dispatcher_first_match_wins() {
    let d = Dispatcher::new(vec![
        DispatchRule {
            pattern: "telegram:message:direct:*".into(),
            action: DispatchAction::Handler { name: "dm_handler".into() },
            prompt_config: None,
        },
        DispatchRule {
            pattern: "telegram:message:*".into(),
            action: DispatchAction::AgentTurn,
            prompt_config: None,
        },
    ]);

    match &d.match_rule("telegram:message:direct:60996061").action {
        DispatchAction::Handler { name } => assert_eq!(name, "dm_handler"),
        _ => panic!("Expected handler"),
    }

    match &d.match_rule("telegram:message:-1001234").action {
        DispatchAction::AgentTurn => {}
        _ => panic!("Expected agent turn"),
    }
}

#[test]
fn doc_examples_of_trailing_star() {
    // `telegram:*` matches `telegram:message` but not `telegram:message:123`
    assert!(glob_match("telegram:*", "telegram:message"));
    assert!(!glob_match("telegram:*", "telegram:message:123"));
}

#[test]
fn doublestar_needs_at_least_one_remaining_segment() {
    assert!(!glob_match("telegram:**", "telegram"));
    assert!(glob_match("**", "anything:at:all"));
}

#[test]
fn pattern_matches_itself() {
    for p in ["a:b:c", "telegram:*:x", "**", "x::y", ""] {
        assert!(glob_match(p, p));
    }
}

#[test]
fn literal_pattern_matches_only_equal_key() {
    assert!(glob_match("cron:heartbeat", "cron:heartbeat"));
    assert!(!glob_match("cron:heartbeat", "cron:heartbeat2"));
    assert!(!glob_match("cron:heartbeat", "cron"));
    assert!(!glob_match("a*b", "axb"));
}

#[test]
fn new_appends_catch_all_when_missing() {
    let d = Dispatcher::new(vec![DispatchRule {
        pattern: "cron:*".into(),
        action: DispatchAction::Drop,
        prompt_config: None,
    }]);
    let r = d.match_rule("webhook:x");
    assert_eq!(r.pattern, "*");
    assert!(matches!(r.action, DispatchAction::AgentTurn));
    let r = d.match_rule("cron:tick");
    assert!(matches!(r.action, DispatchAction::Drop));
}

#[test]
fn new_keeps_given_catch_all() {
    let d = Dispatcher::new(vec![DispatchRule {
        pattern: "*".into(),
        action: DispatchAction::Drop,
        prompt_config: Some("quiet".into()),
    }]);
    let r = d.match_rule("anything");
    assert!(matches!(r.action, DispatchAction::Drop));
    assert_eq!(r.prompt_config.as_deref(), Some("quiet"));
}

#[test]
fn default_agent_turn_routes_everything() {
    let d = Dispatcher::default_agent_turn();
    for k in ["telegram:message:1", "cron:x", ""] {
        assert!(matches!(d.match_rule(k).action, DispatchAction::AgentTurn));
    }
}
