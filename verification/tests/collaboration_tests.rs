use hupasiya::collaboration::CollaborationManager;
use hupasiya::collaboration::MergeNeed;
use hupasiya::config::Config;
use hupasiya::models::ActivityType;
use hupasiya::models::AgentType;
use hupasiya::models::Session;
use hupasiya::models::SessionStatus;
use hupasiya::models::WorkboxInfo;
use hupasiya::orchestration::ChildStatus;

fn collab_session(name: &str, branch: &str) -> Session {
    Session::new(
        name.to_string(),
        AgentType::Feature,
        format!("wb-{}", name),
        format!("/tmp/{}", name),
        branch.to_string(),
        "main".to_string(),
        "repo".to_string(),
        "git".to_string(),
    )
}

fn collab_workbox(name: &str) -> WorkboxInfo {
    WorkboxInfo {
        name: name.to_string(),
        path: format!("/tmp/{}", name),
        branch: format!("branch/{}", name),
        base_branch: "main".to_string(),
        vcs_type: "git".to_string(),
        commit: "abc123".to_string(),
    }
}

#[test]
fn test_handoff_pauses_and_notes() {
    let mut cm = CollaborationManager::new(Config::default()).unwrap();
    cm.session_mgr.save_session(&collab_session("work", "main"));

    cm.handoff("work", "alice").unwrap();

    let s = cm.session_mgr.load_session("work").unwrap();
    assert_eq!(s.status, SessionStatus::Paused);
    assert_eq!(s.notes, "Handed off to alice");
    assert_eq!(s.activity_log.last().unwrap().event_type, ActivityType::StatusChanged);
    assert_eq!(s.activity_log.last().unwrap().details, "Handed off to alice");
}

#[test]
fn test_clone_request_names_workbox() {
    let mut cm = CollaborationManager::new(Config::default()).unwrap();
    cm.session_mgr.save_session(&collab_session("src", "feature/src"));
    let (wb_name, from_branch) = cm.clone_request("src", "twin").unwrap();
    assert_eq!(wb_name, "hp-twin");
    assert_eq!(from_branch, "feature/src");
}

#[test]
fn test_clone_linked_keeps_parent() {
    let mut cm = CollaborationManager::new(Config::default()).unwrap();
    cm.session_mgr.save_session(&collab_session("src", "feature/src"));
    let wb = collab_workbox("hp-twin");
    let cloned = cm.clone_session("src", "twin", false, &wb).unwrap();
    assert_eq!(cloned.name, "twin");
    assert_eq!(cloned.parent, Some("src".to_string()));
    assert_eq!(cloned.branch, "feature/src");
    assert_eq!(cloned.activity_log[0].details, "Cloned from src");
}

#[test]
fn test_clone_diverging_branch_name() {
    let mut cm = CollaborationManager::new(Config::default()).unwrap();
    cm.session_mgr.save_session(&collab_session("src", "feature/src"));
    let wb = collab_workbox("hp-twin");
    let cloned = cm.clone_session("src", "twin", true, &wb).unwrap();
    assert!(cloned.parent.is_none());
    assert_eq!(cloned.branch, "feature/src-twin");
}

#[test]
fn test_merge_sessions_drops_merged_sources() {
    // a source whose merge ran leaves the target's child list, whatever
    // the conflict outcome; a failed command leaves it linked
    let mut cm = CollaborationManager::new(Config::default()).unwrap();
    cm.session_mgr.save_session(&collab_session("target", "main"));
    for name in ["s1", "s2", "s3"] {
        cm.session_mgr.save_session(&collab_session(name, "b"));
        cm.session_mgr.link_parent_child("target", name).unwrap();
    }

    let sources = vec!["s1".to_string(), "s2".to_string(), "s3".to_string()];
    let (mut run, mut need) = cm.merge_sessions("target", sources, "default").unwrap();
    let mut step = 0;
    loop {
        need = match need {
            MergeNeed::RunMerge { workbox_name, command } => {
                assert_eq!(workbox_name, "wb-target");
                assert_eq!(command, "git merge b");
                let outcome = match step {
                    0 => Ok("clean".to_string()),
                    1 => Err("boom".to_string()),
                    _ => Ok("CONFLICT here".to_string()),
                };
                step += 1;
                let (status, need) = cm.merge_step(&mut run, outcome).unwrap();
                match step {
                    1 => assert!(matches!(status, ChildStatus::Merged)),
                    2 => assert!(matches!(status, ChildStatus::Skipped { .. })),
                    _ => assert!(matches!(status, ChildStatus::Conflicted)),
                }
                need
            },
            MergeNeed::Finished => break,
        };
    }
    let target = cm.session_mgr.load_session("target").unwrap();
    // s1 merged cleanly and s3 with conflicts: both dropped; s2 failed:
    // still linked
    assert_eq!(target.children, vec!["s2".to_string()]);
    let last = target.activity_log.last().unwrap();
    assert_eq!(last.event_type, ActivityType::Integrated);
    assert_eq!(last.details, "Merged 3 sessions");
}

#[test]
fn test_merge_sessions_squash_command() {
    let mut cm = CollaborationManager::new(Config::default()).unwrap();
    cm.session_mgr.save_session(&collab_session("target", "main"));
    cm.session_mgr.save_session(&collab_session("s1", "b"));
    let (_run, need) = cm
        .merge_sessions("target", vec!["s1".to_string()], "squash")
        .unwrap();
    match need {
        MergeNeed::RunMerge { command, .. } => assert_eq!(command, "git merge --squash b"),
        MergeNeed::Finished => panic!("expected a merge command"),
    }
}
