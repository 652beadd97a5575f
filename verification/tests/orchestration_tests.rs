use hupasiya::config::Config;
use hupasiya::models::ActivityType;
use hupasiya::models::AgentType;
use hupasiya::models::Session;
use hupasiya::models::WorkboxInfo;
use hupasiya::orchestration::output_has_conflict;
use hupasiya::orchestration::ChildStatus;
use hupasiya::orchestration::Orchestrator;
use hupasiya::orchestration::SyncEvent;
use hupasiya::orchestration::SyncNeed;

fn session(name: &str, branch: &str) -> Session {
    Session::new(
        name.to_string(),
        AgentType::Feature,
        format!("wb-{}", name),
        format!("/tmp/{}", name),
        branch.to_string(),
        "main".to_string(),
        "repo".to_string(),
        "git".to_string(),
    )
}

fn workbox(name: &str, branch: &str, vcs: &str) -> WorkboxInfo {
    WorkboxInfo {
        name: name.to_string(),
        path: format!("/tmp/{}", name),
        branch: branch.to_string(),
        base_branch: "main".to_string(),
        vcs_type: vcs.to_string(),
        commit: "abc123".to_string(),
    }
}

fn orchestrator_with_tree() -> Orchestrator {
    let mut orch = Orchestrator::new(Config::default()).unwrap();
    orch.session_mgr.save_session(&session("root", "main"));
    orch.session_mgr.save_session(&session("child", "feature/child"));
    orch.session_mgr.link_parent_child("root", "child").unwrap();
    orch
}

fn cascaded_entries(s: &Session) -> usize {
    s.activity_log
        .iter()
        .filter(|e| e.event_type == ActivityType::Cascaded)
        .count()
}

#[test]
fn test_conflict_classification() {
    assert!(output_has_conflict("CONFLICT (content): merge conflict in a.rs"));
    assert!(output_has_conflict("there is a conflict here"));
    assert!(!output_has_conflict("Already up to date."));
    assert!(!output_has_conflict("Conflict"));
}

#[test]
fn test_cascade_clean_merge() {
    // one child, clean merge output: one Cascaded entry, 1 cascaded and
    // 0 skipped
    let mut orch = orchestrator_with_tree();
    let (mut run, need) = orch.cascade("root", false).unwrap();
    match need {
        SyncNeed::FetchWorkbox { workbox_name } => assert_eq!(workbox_name, "wb-child"),
        _ => panic!("expected a workbox fetch"),
    }
    let wb = workbox("wb-child", "feature/child", "git");
    let (status, need) = orch.cascade_step(&mut run, SyncEvent::Workbox(Some(wb)));
    assert!(status.is_none());
    let command = match need {
        SyncNeed::RunMerge { workbox_name, command, snapshot } => {
            assert_eq!(workbox_name, "wb-child");
            assert!(snapshot.is_none());
            command
        },
        _ => panic!("expected a merge command"),
    };
    assert_eq!(command, "git merge main");
    let (status, need) = orch.cascade_step(
        &mut run,
        SyncEvent::Merge(Ok("Updating abc..def\nFast-forward".to_string())),
    );
    assert!(matches!(status, Some(ChildStatus::Merged)));
    match need {
        SyncNeed::Finished { done, skipped } => {
            assert_eq!(done, 1);
            assert_eq!(skipped, 0);
        },
        _ => panic!("expected the run to finish"),
    }
    let child = orch.session_mgr.load_session("child").unwrap();
    assert_eq!(cascaded_entries(&child), 1);
    assert_eq!(
        child.activity_log.last().unwrap().details,
        "Cascaded changes from parent 'root'"
    );
}

#[test]
fn test_cascade_conflicted_merge() {
    // conflicted output still counts as cascaded and still appends the
    // activity entry, but the step reports the conflict
    let mut orch = orchestrator_with_tree();
    let (mut run, _need) = orch.cascade("root", false).unwrap();
    let wb = workbox("wb-child", "feature/child", "git");
    let (_status, _need) = orch.cascade_step(&mut run, SyncEvent::Workbox(Some(wb)));
    let (status, need) = orch.cascade_step(
        &mut run,
        SyncEvent::Merge(Ok("Auto-merging a.rs\nCONFLICT (content): fix by hand".to_string())),
    );
    assert!(matches!(status, Some(ChildStatus::Conflicted)));
    match need {
        SyncNeed::Finished { done, skipped } => {
            assert_eq!(done, 1);
            assert_eq!(skipped, 0);
        },
        _ => panic!("expected the run to finish"),
    }
    let child = orch.session_mgr.load_session("child").unwrap();
    assert_eq!(cascaded_entries(&child), 1);
}

#[test]
fn test_cascade_fault_isolation() {
    // three children, the middle one's workbox lookup fails: two cascade,
    // one is skipped, and nothing aborts
    let mut orch = Orchestrator::new(Config::default()).unwrap();
    orch.session_mgr.save_session(&session("root", "main"));
    for name in ["c1", "c2", "c3"] {
        orch.session_mgr.save_session(&session(name, "b"));
        orch.session_mgr.link_parent_child("root", name).unwrap();
    }
    let (mut run, mut need) = orch.cascade("root", false).unwrap();
    let mut fail_next = false;
    let mut done = 0u64;
    let mut skipped = 0u64;
    let mut pumped = 0;
    loop {
        pumped += 1;
        assert!(pumped < 20, "the run should finish");
        need = match need {
            SyncNeed::FetchWorkbox { workbox_name } => {
                if workbox_name == "wb-c2" {
                    fail_next = true;
                    orch.cascade_step(&mut run, SyncEvent::Workbox(None)).1
                } else {
                    fail_next = false;
                    let wb = workbox(&workbox_name, "b", "git");
                    orch.cascade_step(&mut run, SyncEvent::Workbox(Some(wb))).1
                }
            },
            SyncNeed::RunMerge { .. } => {
                assert!(!fail_next);
                orch.cascade_step(&mut run, SyncEvent::Merge(Ok("ok".to_string()))).1
            },
            SyncNeed::Finished { done: d, skipped: s } => {
                done = d;
                skipped = s;
                break;
            },
        };
    }
    assert_eq!(done, 2);
    assert_eq!(skipped, 1);
    assert_eq!(cascaded_entries(&orch.session_mgr.load_session("c1").unwrap()), 1);
    assert_eq!(cascaded_entries(&orch.session_mgr.load_session("c2").unwrap()), 0);
    assert_eq!(cascaded_entries(&orch.session_mgr.load_session("c3").unwrap()), 1);
}

#[test]
fn test_cascade_dry_run_changes_nothing() {
    // a dry run reports the command it would run, counts the child as
    // skipped, and no record's activity log grows
    let mut orch = orchestrator_with_tree();
    let before = orch.session_mgr.load_session("child").unwrap().activity_log.len();
    let (mut run, _need) = orch.cascade("root", true).unwrap();
    let wb = workbox("wb-child", "feature/child", "git");
    let (status, need) = orch.cascade_step(&mut run, SyncEvent::Workbox(Some(wb)));
    match status {
        Some(ChildStatus::WouldRun { command }) => assert_eq!(command, "git merge main"),
        _ => panic!("expected a dry-run report"),
    }
    match need {
        SyncNeed::Finished { done, skipped } => {
            assert_eq!(done, 0);
            assert_eq!(skipped, 1);
        },
        _ => panic!("expected the run to finish"),
    }
    let after = orch.session_mgr.load_session("child").unwrap().activity_log.len();
    assert_eq!(before, after);
}

#[test]
fn test_cascade_unknown_vcs() {
    let mut orch = orchestrator_with_tree();
    let (mut run, _need) = orch.cascade("root", false).unwrap();
    let wb = workbox("wb-child", "feature/child", "svn");
    let (status, need) = orch.cascade_step(&mut run, SyncEvent::Workbox(Some(wb)));
    match status {
        Some(ChildStatus::Skipped { reason }) => {
            assert_eq!(reason, "Unknown VCS type: svn");
        },
        _ => panic!("expected a skip"),
    }
    assert!(matches!(need, SyncNeed::Finished { done: 0, skipped: 1 }));
}

#[test]
fn test_cascade_no_children() {
    let mut orch = Orchestrator::new(Config::default()).unwrap();
    orch.session_mgr.save_session(&session("lonely", "main"));
    let (_run, need) = orch.cascade("lonely", false).unwrap();
    assert!(matches!(need, SyncNeed::Finished { done: 0, skipped: 0 }));
}

#[test]
fn test_gather_logs_parent() {
    // gather merges the child branch in the parent workbox and appends
    // one Gathered entry to the parent
    let mut orch = orchestrator_with_tree();
    let (mut run, need) = orch.gather("root", false).unwrap();
    match need {
        SyncNeed::FetchWorkbox { workbox_name } => assert_eq!(workbox_name, "wb-root"),
        _ => panic!("expected a workbox fetch"),
    }
    let wb = workbox("wb-root", "main", "git");
    let (_status, need) = orch.gather_step(&mut run, SyncEvent::Workbox(Some(wb)));
    let command = match need {
        SyncNeed::RunMerge { workbox_name, command, snapshot } => {
            assert_eq!(workbox_name, "wb-root");
            assert!(snapshot.is_none());
            command
        },
        _ => panic!("expected a merge command"),
    };
    assert_eq!(command, "git merge feature/child");
    let (status, need) = orch.gather_step(&mut run, SyncEvent::Merge(Ok("ok".to_string())));
    assert!(matches!(status, Some(ChildStatus::Merged)));
    assert!(matches!(need, SyncNeed::Finished { done: 1, skipped: 0 }));
    let root = orch.session_mgr.load_session("root").unwrap();
    let last = root.activity_log.last().unwrap();
    assert_eq!(last.event_type, ActivityType::Gathered);
    assert_eq!(last.details, "Gathered 1 children");
    // gather does not unlink the child
    assert_eq!(root.children, vec!["child".to_string()]);
}

#[test]
fn test_gather_jj_rebase_command() {
    let mut orch = orchestrator_with_tree();
    let (mut run, _need) = orch.gather("root", false).unwrap();
    let wb = workbox("wb-root", "main", "jj");
    let (_status, need) = orch.gather_step(&mut run, SyncEvent::Workbox(Some(wb)));
    match need {
        SyncNeed::RunMerge { command, .. } => {
            assert_eq!(command, "jj rebase -s feature/child -d main");
        },
        _ => panic!("expected a merge command"),
    }
}

#[test]
fn test_gather_dry_run_changes_nothing() {
    let mut orch = orchestrator_with_tree();
    let before = orch.session_mgr.load_session("root").unwrap().activity_log.len();
    let (mut run, _need) = orch.gather("root", true).unwrap();
    let wb = workbox("wb-root", "main", "git");
    let (status, need) = orch.gather_step(&mut run, SyncEvent::Workbox(Some(wb)));
    assert!(matches!(status, Some(ChildStatus::WouldRun { .. })));
    assert!(matches!(need, SyncNeed::Finished { done: 0, skipped: 1 }));
    let after = orch.session_mgr.load_session("root").unwrap().activity_log.len();
    assert_eq!(before, after);
}

#[test]
fn test_show_tree_named_root() {
    let mut orch = orchestrator_with_tree();
    orch.session_mgr.save_session(&session("leaf", "b"));
    orch.session_mgr.link_parent_child("child", "leaf").unwrap();
    let lines = orch.show_tree(Some("root".to_string())).unwrap();
    assert_eq!(lines.len(), 3);
    assert_eq!(lines[0].depth, 0);
    assert_eq!(lines[0].session.name, "root");
    assert_eq!(lines[1].depth, 1);
    assert_eq!(lines[1].session.name, "child");
    assert_eq!(lines[2].depth, 2);
    assert_eq!(lines[2].session.name, "leaf");
}

#[test]
fn test_show_tree_all_roots() {
    let mut orch = orchestrator_with_tree();
    orch.session_mgr.save_session(&session("island", "b"));
    let lines = orch.show_tree(None).unwrap();
    // roots are "root" and "island"; "child" appears only inside the tree
    let depth0: Vec<&str> = lines
        .iter()
        .filter(|l| l.depth == 0)
        .map(|l| l.session.name.as_str())
        .collect();
    assert_eq!(depth0.len(), 2);
    assert!(depth0.contains(&"root"));
    assert!(depth0.contains(&"island"));
    assert_eq!(lines.len(), 3);
}

#[test]
fn test_auto_snapshot_decisions() {
    // with auto-snapshot on, cascade asks for a snapshot of each child
    // before its merge, and gather asks for one of the parent up front
    let mut config = Config::default();
    config.hp.sessions.auto_snapshot = true;
    let mut orch = Orchestrator::new(config).unwrap();
    orch.session_mgr.save_session(&session("root", "main"));
    orch.session_mgr.save_session(&session("child", "feature/child"));
    orch.session_mgr.link_parent_child("root", "child").unwrap();

    let (mut run, _need) = orch.cascade("root", false).unwrap();
    let wb = workbox("wb-child", "feature/child", "git");
    let (_status, need) = orch.cascade_step(&mut run, SyncEvent::Workbox(Some(wb)));
    match need {
        SyncNeed::RunMerge { snapshot, .. } => {
            assert_eq!(snapshot, Some("child".to_string()));
        },
        _ => panic!("expected a merge command"),
    }

    let (grun, _need) = orch.gather("root", false).unwrap();
    assert!(grun.snapshot_parent);
    let (grun_dry, _need) = orch.gather("root", true).unwrap();
    assert!(!grun_dry.snapshot_parent);
}
