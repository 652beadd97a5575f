use hupasiya::models::ActivityType;
use hupasiya::models::AgentType;
use hupasiya::models::Session;
use hupasiya::models::SessionMetrics;
use hupasiya::models::SessionStatus;

fn make_session(name: &str, agent_type: AgentType) -> Session {
    Session::new(
        name.to_string(),
        agent_type,
        name.to_string(),
        format!("/tmp/{}", name),
        "main".to_string(),
        "main".to_string(),
        "repo".to_string(),
        "git".to_string(),
    )
}

#[test]
fn test_agent_type_from_str() {
    assert_eq!(AgentType::from_str("feature").unwrap(), AgentType::Feature);
    assert_eq!(AgentType::from_str("BUGFIX").unwrap(), AgentType::Bugfix);
    assert_eq!(AgentType::from_str("test").unwrap(), AgentType::Test);

    // Custom type
    let custom = AgentType::from_str("my-custom-type").unwrap();
    assert_eq!(custom, AgentType::Custom("my-custom-type".to_string()));
}

#[test]
fn test_agent_type_default_template() {
    assert_eq!(AgentType::Feature.default_template(), "feature");
    assert_eq!(AgentType::Bugfix.default_template(), "bugfix");
    assert_eq!(AgentType::Test.default_template(), "test");

    let custom = AgentType::Custom("mytype".to_string());
    assert_eq!(custom.default_template(), "mytype");
}

#[test]
fn test_agent_type_as_str() {
    assert_eq!(AgentType::Feature.as_str(), "feature");
    assert_eq!(AgentType::Shepherd.as_str(), "shepherd");
}

#[test]
fn test_session_creation() {
    let session = Session::new(
        "test-session".to_string(),
        AgentType::Feature,
        "test-wb".to_string(),
        "/tmp/test".to_string(),
        "feature/test".to_string(),
        "main".to_string(),
        "myrepo".to_string(),
        "git".to_string(),
    );

    assert_eq!(session.name, "test-session");
    assert_eq!(session.agent_type, AgentType::Feature);
    assert_eq!(session.status, SessionStatus::Active);
    assert_eq!(session.workbox_name, "test-wb");
    assert_eq!(session.branch, "feature/test");
    assert_eq!(session.base_branch, "main");
    assert_eq!(session.repo_name, "myrepo");
    assert_eq!(session.vcs_type, "git");
    assert!(session.parent.is_none());
    assert!(session.children.is_empty());
    assert!(!session.is_locked());
}

#[test]
fn test_session_context_dir() {
    let session = make_session("s1", AgentType::Feature);
    assert_eq!(session.context_dir, ".hp/contexts/repo/s1");
}

#[test]
fn test_session_fresh_identifier_shape() {
    // the identifier comes from the external generator; its hyphenated
    // form is 36 characters
    let session = make_session("id-check", AgentType::Feature);
    assert_eq!(session.id.chars().count(), 36);
}

#[test]
fn test_session_locking() {
    let mut session = make_session("test", AgentType::Feature);

    assert!(!session.is_locked());

    session.locked_by = Some("alice@laptop".to_string());
    assert!(session.is_locked());

    session.locked_by = None;
    assert!(!session.is_locked());
}

#[test]
fn test_session_add_child() {
    let mut parent = make_session("parent", AgentType::Feature);

    parent.add_child("child1".to_string());
    assert_eq!(parent.children.len(), 1);
    assert_eq!(parent.children[0], "child1");

    parent.add_child("child2".to_string());
    assert_eq!(parent.children.len(), 2);

    // Adding duplicate should not increase count
    parent.add_child("child1".to_string());
    assert_eq!(parent.children.len(), 2);
}

#[test]
fn test_session_remove_child() {
    let mut parent = make_session("parent", AgentType::Feature);

    parent.add_child("child1".to_string());
    parent.add_child("child2".to_string());
    assert_eq!(parent.children.len(), 2);

    parent.remove_child("child1");
    assert_eq!(parent.children.len(), 1);
    assert_eq!(parent.children[0], "child2");
}

#[test]
fn test_session_log_activity() {
    let mut session = make_session("test", AgentType::Feature);

    session.log_activity(ActivityType::CommitMade, "Initial commit".to_string());
    assert_eq!(session.activity_log.len(), 1);
    assert_eq!(session.activity_log[0].event_type, ActivityType::CommitMade);
    assert_eq!(session.activity_log[0].details, "Initial commit");
}

#[test]
fn test_session_metrics() {
    let mut metrics = SessionMetrics::default();
    assert_eq!(metrics.commits, 0);
    assert_eq!(metrics.lines_added, 0);

    metrics.update_from_git_stats(100, 50, 5);
    assert_eq!(metrics.lines_added, 100);
    assert_eq!(metrics.lines_removed, 50);
    assert_eq!(metrics.files_changed, 5);

    metrics.record_ai_interaction(1234);
    assert_eq!(metrics.ai_interactions, 1);
    assert_eq!(metrics.tokens_used, 1234);

    metrics.increment_commits();
    assert_eq!(metrics.commits, 1);

    metrics.add_time(3600);
    assert_eq!(metrics.total_time_secs, 3600);
}

#[test]
fn test_decimal_rendering() {
    assert_eq!(hupasiya::text::u64_to_string(0), "0");
    assert_eq!(hupasiya::text::u64_to_string(7), "7");
    assert_eq!(hupasiya::text::u64_to_string(42), "42");
    assert_eq!(hupasiya::text::u64_to_string(1234567890), "1234567890");
}

#[test]
fn test_substring_search() {
    assert!(hupasiya::text::str_contains_sub("abcdef", "cde"));
    assert!(hupasiya::text::str_contains_sub("abcdef", ""));
    assert!(!hupasiya::text::str_contains_sub("abcdef", "ce"));
    assert!(!hupasiya::text::str_contains_sub("ab", "abc"));
    assert!(hupasiya::text::str_contains_sub("abc", "abc"));
}
