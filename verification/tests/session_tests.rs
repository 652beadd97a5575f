use hupasiya::config::Config;
use hupasiya::error::Error;
use hupasiya::models::AgentType;
use hupasiya::models::Session;
use hupasiya::models::SessionStatus;
use hupasiya::models::WorkboxInfo;
use hupasiya::session::SessionManager;

fn create_test_manager() -> SessionManager {
    SessionManager::new(Config::default())
}

fn test_session(name: &str, agent_type: AgentType) -> Session {
    Session::new(
        name.to_string(),
        agent_type,
        name.to_string(),
        format!("/tmp/{}", name),
        "main".to_string(),
        "main".to_string(),
        "repo".to_string(),
        "git".to_string(),
    )
}

fn test_workbox(name: &str) -> WorkboxInfo {
    WorkboxInfo {
        name: name.to_string(),
        path: format!("/tmp/{}", name),
        branch: format!("feature/{}", name),
        base_branch: "main".to_string(),
        vcs_type: "git".to_string(),
        commit: "abc123".to_string(),
    }
}

#[test]
fn test_validate_session_name() {
    let manager = create_test_manager();

    assert!(manager.validate_session_name("valid-name").is_ok());
    assert!(manager.validate_session_name("valid_name").is_ok());
    assert!(manager.validate_session_name("valid123").is_ok());

    assert!(manager.validate_session_name("").is_err());
    assert!(manager.validate_session_name("invalid/name").is_err());
    assert!(manager.validate_session_name("invalid\\name").is_err());
}

#[test]
fn test_session_exists() {
    let mut manager = create_test_manager();

    assert!(!manager.session_exists("nonexistent"));

    let session = test_session("test", AgentType::Feature);
    manager.save_session(&session);
    assert!(manager.session_exists("test"));
}

#[test]
fn test_save_and_load_session() {
    let mut manager = create_test_manager();

    let session = test_session("test-session", AgentType::Feature);
    manager.save_session(&session);

    let loaded = manager.load_session("test-session").unwrap();

    assert_eq!(loaded.name, session.name);
    assert_eq!(loaded.id, session.id);
    assert_eq!(loaded.agent_type, session.agent_type);
}

#[test]
fn test_load_missing_session() {
    let manager = create_test_manager();
    match manager.load_session("ghost") {
        Err(Error::SessionNotFound(n)) => assert_eq!(n, "ghost"),
        _ => panic!("expected SessionNotFound"),
    }
}

#[test]
fn test_list_sessions() {
    let mut manager = create_test_manager();

    for i in 0..3 {
        let session = test_session(&format!("session-{}", i), AgentType::Feature);
        manager.save_session(&session);
    }

    let sessions = manager.list_sessions();
    assert_eq!(sessions.len(), 3);
}

#[test]
fn test_list_sessions_by_status() {
    let mut manager = create_test_manager();

    let mut session1 = test_session("active", AgentType::Feature);
    session1.status = SessionStatus::Active;

    let mut session2 = test_session("paused", AgentType::Feature);
    session2.status = SessionStatus::Paused;

    manager.save_session(&session1);
    manager.save_session(&session2);

    let active_sessions = manager.list_sessions_by_status(SessionStatus::Active);
    assert_eq!(active_sessions.len(), 1);
    assert_eq!(active_sessions[0].name, "active");
}

#[test]
fn test_list_by_status_sorted() {
    // two active and one archived; the two active come back, most
    // recently active first
    let mut manager = create_test_manager();

    let mut a = test_session("a", AgentType::Feature);
    a.status = SessionStatus::Active;
    a.last_active = 5;
    let mut b = test_session("b", AgentType::Feature);
    b.status = SessionStatus::Active;
    b.last_active = 10;
    let mut c = test_session("c", AgentType::Feature);
    c.status = SessionStatus::Archived;
    c.last_active = 20;

    manager.save_session(&a);
    manager.save_session(&b);
    manager.save_session(&c);

    let active = manager.list_sessions_by_status(SessionStatus::Active);
    assert_eq!(active.len(), 2);
    assert_eq!(active[0].name, "b");
    assert_eq!(active[1].name, "a");
}

#[test]
fn test_list_sessions_by_type() {
    let mut manager = create_test_manager();

    let s1 = test_session("f1", AgentType::Feature);
    let s2 = test_session("d1", AgentType::Docs);
    manager.save_session(&s1);
    manager.save_session(&s2);

    let docs = manager.list_sessions_by_type(AgentType::Docs);
    assert_eq!(docs.len(), 1);
    assert_eq!(docs[0].name, "d1");
}

#[test]
fn test_link_parent_child() {
    let mut manager = create_test_manager();

    let parent = test_session("parent", AgentType::Feature);
    let child = test_session("child", AgentType::Test);

    manager.save_session(&parent);
    manager.save_session(&child);

    manager.link_parent_child("parent", "child").unwrap();

    let parent = manager.load_session("parent").unwrap();
    let child = manager.load_session("child").unwrap();

    assert_eq!(parent.children.len(), 1);
    assert_eq!(parent.children[0], "child");
    assert_eq!(child.parent, Some("parent".to_string()));
}

#[test]
fn test_link_idempotent() {
    // linking the same child twice leaves it in the child list once
    let mut manager = create_test_manager();
    manager.save_session(&test_session("parent", AgentType::Feature));
    manager.save_session(&test_session("child", AgentType::Test));

    manager.link_parent_child("parent", "child").unwrap();
    manager.link_parent_child("parent", "child").unwrap();

    let parent = manager.load_session("parent").unwrap();
    let count = parent.children.iter().filter(|c| c.as_str() == "child").count();
    assert_eq!(count, 1);
    assert_eq!(parent.children.len(), 1);
}

#[test]
fn test_unlink_parent_child() {
    let mut manager = create_test_manager();
    manager.save_session(&test_session("parent", AgentType::Feature));
    manager.save_session(&test_session("child", AgentType::Test));
    manager.link_parent_child("parent", "child").unwrap();

    manager.unlink_parent_child("child").unwrap();

    let parent = manager.load_session("parent").unwrap();
    let child = manager.load_session("child").unwrap();
    assert!(child.parent.is_none());
    assert!(!parent.children.iter().any(|c| c.as_str() == "child"));
}

#[test]
fn test_get_children() {
    let mut manager = create_test_manager();

    manager.save_session(&test_session("parent", AgentType::Feature));
    manager.save_session(&test_session("child1", AgentType::Test));
    manager.save_session(&test_session("child2", AgentType::Docs));

    manager.link_parent_child("parent", "child1").unwrap();
    manager.link_parent_child("parent", "child2").unwrap();

    let children = manager.get_children("parent").unwrap();
    assert_eq!(children.len(), 2);
}

#[test]
fn test_get_children_lenient() {
    // a child name without a record is skipped, not an error
    let mut manager = create_test_manager();
    let mut parent = test_session("parent", AgentType::Feature);
    parent.children.push("gone".to_string());
    manager.save_session(&parent);

    let children = manager.get_children("parent").unwrap();
    assert_eq!(children.len(), 0);
}

#[test]
fn test_get_parent() {
    let mut manager = create_test_manager();
    manager.save_session(&test_session("parent", AgentType::Feature));
    manager.save_session(&test_session("child", AgentType::Test));
    manager.link_parent_child("parent", "child").unwrap();

    let p = manager.get_parent("child").unwrap();
    assert_eq!(p.unwrap().name, "parent");
    let none = manager.get_parent("parent").unwrap();
    assert!(none.is_none());
}

#[test]
fn test_get_session_tree() {
    let mut manager = create_test_manager();
    manager.save_session(&test_session("root", AgentType::Feature));
    manager.save_session(&test_session("mid", AgentType::Test));
    manager.save_session(&test_session("leaf", AgentType::Docs));
    manager.link_parent_child("root", "mid").unwrap();
    manager.link_parent_child("mid", "leaf").unwrap();

    let tree = manager.get_session_tree("root").unwrap();
    assert_eq!(tree.len(), 3);
    assert_eq!(tree[0].name, "root");
    assert_eq!(tree[1].name, "mid");
    assert_eq!(tree[2].name, "leaf");
}

#[test]
fn test_delete_session() {
    let mut manager = create_test_manager();

    let session = test_session("delete-me", AgentType::Feature);
    manager.save_session(&session);
    assert!(manager.session_exists("delete-me"));

    manager.delete_session("delete-me").unwrap();
    assert!(!manager.session_exists("delete-me"));
}

#[test]
fn test_create_session() {
    let mut manager = create_test_manager();
    let wb = test_workbox("new-wb");
    let session = manager
        .create_session("fresh", AgentType::Feature, &wb, "repo")
        .unwrap();
    assert_eq!(session.name, "fresh");
    assert_eq!(session.workbox_name, "new-wb");
    assert_eq!(session.branch, "feature/new-wb");
    assert_eq!(session.id.chars().count(), 36);
    assert_eq!(session.activity_log.len(), 1);
    assert_eq!(session.activity_log[0].details, "Created session 'fresh'");
    assert!(manager.session_exists("fresh"));
}

#[test]
fn test_create_duplicate_fails() {
    // no two persisted sessions ever share a name
    let mut manager = create_test_manager();
    let wb = test_workbox("wb");
    manager
        .create_session("dup", AgentType::Feature, &wb, "repo")
        .unwrap();
    match manager.create_session("dup", AgentType::Feature, &wb, "repo") {
        Err(Error::SessionAlreadyExists(n)) => assert_eq!(n, "dup"),
        _ => panic!("expected SessionAlreadyExists"),
    }
    assert_eq!(manager.list_sessions().len(), 1);
}

#[test]
fn test_create_invalid_name_fails() {
    let mut manager = create_test_manager();
    let wb = test_workbox("wb");
    match manager.create_session("bad/name", AgentType::Feature, &wb, "repo") {
        Err(Error::InvalidSessionName(n, _)) => assert_eq!(n, "bad/name"),
        _ => panic!("expected InvalidSessionName"),
    }
    assert!(!manager.session_exists("bad/name"));
}

#[test]
fn test_save_load_save_roundtrip() {
    // save(load(save(session))) is field-for-field the same record
    let mut manager = create_test_manager();
    let mut session = test_session("round", AgentType::Feature);
    session.tags.push("t1".to_string());
    session.notes = "note".to_string();
    session.last_active = 77;

    manager.save_session(&session);
    let loaded = manager.load_session("round").unwrap();
    assert_eq!(loaded.id, session.id);
    assert_eq!(loaded.name, session.name);
    assert_eq!(loaded.created, session.created);
    assert_eq!(loaded.last_active, session.last_active);
    assert_eq!(loaded.tags, session.tags);
    assert_eq!(loaded.notes, session.notes);

    manager.save_session(&loaded);
    let again = manager.load_session("round").unwrap();
    assert_eq!(again.id, session.id);
    assert_eq!(again.last_active, session.last_active);
    assert_eq!(manager.list_sessions().len(), 1);
}

#[test]
fn test_close_session() {
    let mut manager = create_test_manager();
    manager.save_session(&test_session("closing", AgentType::Feature));

    manager
        .close_session("closing", SessionStatus::Integrated)
        .unwrap();
    let s = manager.load_session("closing").unwrap();
    assert_eq!(s.status, SessionStatus::Integrated);
    assert_eq!(
        s.activity_log.last().unwrap().details,
        "Session closed with status: Integrated"
    );
}

#[test]
fn test_clone_session_resets_relationships() {
    let mut manager = create_test_manager();
    let mut original = test_session("orig", AgentType::Feature);
    original.children.push("kid".to_string());
    original.parent = Some("boss".to_string());
    original.notes = "kept".to_string();
    manager.save_session(&original);

    let wb = test_workbox("clone-wb");
    let cloned = manager
        .clone_session("orig", "copy", None, &wb)
        .unwrap();
    assert_eq!(cloned.name, "copy");
    assert!(cloned.parent.is_none());
    assert!(cloned.children.is_empty());
    assert_eq!(cloned.activity_log.len(), 1);
    assert_eq!(cloned.activity_log[0].details, "Cloned from session 'orig'");
    assert_eq!(cloned.notes, "kept");
    assert_eq!(cloned.workbox_name, "clone-wb");
    assert_ne!(cloned.id, original.id);
}
