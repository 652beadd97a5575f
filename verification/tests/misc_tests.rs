use hupasiya::activity::ActivityManager;
use hupasiya::ai_tool::AiTool;
use hupasiya::cli;
use hupasiya::config::Config;
use hupasiya::error::Error;
use hupasiya::models::ActivityType;
use hupasiya::models::AgentType;
use hupasiya::models::Session;
use hupasiya::models::SessionStatus;
use hupasiya::models::WorkboxOptions;
use hupasiya::profiles::ProfileManager;
use hupasiya::shepherd::Shepherd;
use hupasiya::templates::TemplateMetadata;
use hupasiya::tutorial::Tutorial;
use hupasiya::utilities::UtilitiesManager;

fn plain_session(name: &str) -> Session {
    Session::new(
        name.to_string(),
        AgentType::Feature,
        format!("wb-{}", name),
        format!("/tmp/{}", name),
        "main".to_string(),
        "main".to_string(),
        "repo".to_string(),
        "git".to_string(),
    )
}

#[test]
fn test_default_config() {
    let config = Config::default();
    assert_eq!(config.hp.default_agent, AgentType::Feature);
    assert_eq!(config.hp.hn.command, "hn");
    assert_eq!(config.hp.active_profile, "default");
}

#[test]
fn test_workbox_options_default() {
    let opts = WorkboxOptions::default();
    assert!(opts.from.is_none());
    assert!(opts.vcs.is_none());
    assert!(!opts.no_branch);
    assert!(opts.sparse.is_none());
    assert!(opts.extra_options.is_empty());
}

#[test]
fn test_workbox_options_builder() {
    let mut opts = WorkboxOptions::default();
    opts.from = Some("main".to_string());
    opts.vcs = Some("git".to_string());
    opts.no_branch = true;

    assert_eq!(opts.from, Some("main".to_string()));
    assert_eq!(opts.vcs, Some("git".to_string()));
    assert!(opts.no_branch);
}

#[test]
fn test_resolve_session_name_with_explicit_name() {
    let session_name = Some("test-session".to_string());
    assert_eq!(session_name.unwrap(), "test-session");
}

#[test]
fn test_resolve_session_name_order() {
    let tool = AiTool::new(Config::default()).unwrap();
    let explicit = tool
        .resolve_session_name(Some("a".to_string()), Some("b".to_string()))
        .unwrap();
    assert_eq!(explicit, "a");
    let ambient = tool.resolve_session_name(None, Some("b".to_string())).unwrap();
    assert_eq!(ambient, "b");
    assert!(matches!(
        tool.resolve_session_name(None, None),
        Err(Error::NoCurrentSession)
    ));
}

#[test]
fn test_profile_manager_creation() {
    let config = Config::default();
    let result = ProfileManager::new(config);
    assert!(result.is_ok());
}

#[test]
fn test_profile_show_missing() {
    let pm = ProfileManager::new(Config::default()).unwrap();
    assert!(matches!(pm.show("ghost"), Err(Error::ProfileNotFound(_))));
}

#[test]
fn test_tutorial_creation() {
    let t = Tutorial::new(Config::default());
    assert!(t.is_ok());
}

#[test]
fn test_builtin_templates() {
    assert!(hupasiya::context::get_builtin_template(&AgentType::Feature).contains("Feature"));
    assert!(hupasiya::context::get_builtin_template(&AgentType::Bugfix).contains("Bug"));
    assert!(hupasiya::context::get_builtin_template(&AgentType::Test).contains("Test"));
    assert!(hupasiya::context::get_builtin_template(&AgentType::Docs).contains("Documentation"));
}

#[test]
fn test_template_list() {
    let list = cli::cmd_template_list();
    assert_eq!(list.len(), 8);
    assert_eq!(list[0].0, "feature");
    assert_eq!(list[7].0, "shepherd");
}

#[test]
fn test_template_search_matching() {
    let meta = TemplateMetadata {
        name: "Python-Test".to_string(),
        author: "someone".to_string(),
        version: "1.0.0".to_string(),
        description: "For writing tests".to_string(),
        tags: vec!["language".to_string()],
        agent_types: vec![],
    };
    assert!(hupasiya::templates::search_matches(&meta, "python"));
    assert!(hupasiya::templates::search_matches(&meta, "WRITING"));
    assert!(hupasiya::templates::search_matches(&meta, "LANG"));
    assert!(!hupasiya::templates::search_matches(&meta, "golang"));
}

#[test]
fn test_stats_aggregation() {
    let mut mgr = ActivityManager::new(Config::default()).unwrap();
    let mut s1 = plain_session("s1");
    s1.metrics.ai_interactions = 5;
    s1.metrics.commits = 3;
    s1.metrics.lines_added = 100;
    let mut s2 = plain_session("s2");
    s2.metrics.ai_interactions = 10;
    s2.metrics.commits = 7;
    s2.metrics.lines_added = 250;
    s2.status = SessionStatus::Integrated;
    mgr.session_mgr.save_session(&s1);
    mgr.session_mgr.save_session(&s2);

    let stats = cli::cmd_stats(&mgr);
    assert_eq!(stats.total, 2);
    assert_eq!(stats.active, 1);
    assert_eq!(stats.integrated, 1);
    assert_eq!(stats.ai_interactions, 15);
    assert_eq!(stats.commits, 10);
    assert_eq!(stats.lines_added, 350);
}

#[test]
fn test_activity_listing_newest_first() {
    let mut mgr = ActivityManager::new(Config::default()).unwrap();
    let mut s = plain_session("busy");
    s.log_activity(ActivityType::SessionCreated, "first".to_string());
    s.log_activity(ActivityType::CommitMade, "second".to_string());
    s.log_activity(ActivityType::Cascaded, "third".to_string());
    mgr.session_mgr.save_session(&s);

    let all = cli::cmd_activity(&mgr, "busy", None).unwrap();
    assert_eq!(all.len(), 3);
    assert_eq!(all[0].details, "third");
    assert_eq!(all[2].details, "first");

    let limited = cli::cmd_activity(&mgr, "busy", Some(2)).unwrap();
    assert_eq!(limited.len(), 2);
    assert_eq!(limited[0].details, "third");
    assert_eq!(limited[1].details, "second");
}

#[test]
fn test_clean_dry_run() {
    let mut um = UtilitiesManager::new(Config::default()).unwrap();
    let mut old = plain_session("old-session");
    old.status = SessionStatus::Archived;
    old.last_active = 1_000;
    um.session_mgr.save_session(&old);

    let now: i64 = 1_000 + 60 * 86_400_000;
    let report = cli::cmd_clean(&mut um, 30, true, false, now);
    assert_eq!(report.candidates, vec!["old-session".to_string()]);
    assert_eq!(report.deleted, 0);
    assert!(um.session_mgr.session_exists("old-session"));
}

#[test]
fn test_clean_force_deletes() {
    let mut um = UtilitiesManager::new(Config::default()).unwrap();
    let mut old = plain_session("stale");
    old.status = SessionStatus::Integrated;
    old.last_active = 0;
    let mut fresh = plain_session("fresh");
    fresh.status = SessionStatus::Archived;
    fresh.last_active = 9_000_000_000_000;
    um.session_mgr.save_session(&old);
    um.session_mgr.save_session(&fresh);

    let now: i64 = 9_000_000_000_000;
    let report = cli::cmd_clean(&mut um, 30, false, true, now);
    assert_eq!(report.candidates, vec!["stale".to_string()]);
    assert_eq!(report.deleted, 1);
    assert!(!um.session_mgr.session_exists("stale"));
    assert!(um.session_mgr.session_exists("fresh"));
}

#[test]
fn test_leave_with_pause() {
    let mut um = UtilitiesManager::new(Config::default()).unwrap();
    um.session_mgr.save_session(&plain_session("leave-test"));

    um.leave("leave-test", false).unwrap();

    let updated = um.session_mgr.load_session("leave-test").unwrap();
    assert!(matches!(updated.status, SessionStatus::Paused));
}

#[test]
fn test_leave_with_archive() {
    let mut um = UtilitiesManager::new(Config::default()).unwrap();
    um.session_mgr.save_session(&plain_session("archive-test"));

    um.leave("archive-test", true).unwrap();

    let updated = um.session_mgr.load_session("archive-test").unwrap();
    assert!(matches!(updated.status, SessionStatus::Archived));
}

#[test]
fn test_shepherd_batch() {
    let mut sh = Shepherd::new(Config::default()).unwrap();
    let mut s = plain_session("review-me");
    let mut c1 = hupasiya::models::ReviewComment {
        id: 1,
        path: "a.rs".to_string(),
        line: Some(3),
        body: "Please fix this TYPO".to_string(),
        author: "alice".to_string(),
        created_at: 0,
        resolved: false,
        diff_hunk: None,
    };
    let mut c2 = hupasiya::models::ReviewComment {
        id: 2,
        path: "b.rs".to_string(),
        line: None,
        body: "Deep architectural concern".to_string(),
        author: "bob".to_string(),
        created_at: 0,
        resolved: false,
        diff_hunk: None,
    };
    c1.resolved = false;
    c2.resolved = false;
    s.unresolved_comments.push(c1);
    s.unresolved_comments.push(c2);
    mgr_save(&mut sh, &s);

    let (fixed, deferred) = sh.run_batch("review-me", true).unwrap();
    assert_eq!(fixed, 1);
    assert_eq!(deferred, 1);
    let after = sh.session_mgr.load_session("review-me").unwrap();
    assert!(after.unresolved_comments[0].resolved);
    assert!(!after.unresolved_comments[1].resolved);
    assert_eq!(
        after.activity_log.last().unwrap().details,
        "Batch processed: 1 fixed, 1 deferred"
    );
    let (resolved, pending) = sh.show_status("review-me").unwrap();
    assert_eq!(resolved, 1);
    assert_eq!(pending, 1);
}

fn mgr_save(sh: &mut Shepherd, s: &Session) {
    sh.session_mgr.save_session(s);
}

#[test]
fn test_parse_github_url_https() {
    // Test parsing logic without creating PrManager
    let url = "https://github.com/owner/repo.git";
    let parts: Vec<&str> = url
        .trim_start_matches("https://github.com/")
        .trim_end_matches(".git")
        .split('/')
        .collect();
    assert_eq!(parts, vec!["owner", "repo"]);
}

#[test]
fn test_parse_github_url_ssh() {
    // Test parsing logic without creating PrManager
    let url = "git@github.com:owner/repo.git";
    let parts: Vec<&str> = url
        .trim_start_matches("git@github.com:")
        .trim_end_matches(".git")
        .split('/')
        .collect();
    assert_eq!(parts, vec!["owner", "repo"]);
}

#[test]
fn test_error_variants_carry_names() {
    match Error::SessionNotFound("x".to_string()) {
        Error::SessionNotFound(n) => assert_eq!(n, "x"),
        _ => unreachable!(),
    }
    assert!(matches!(Error::HnNotFound, Error::HnNotFound));
    assert!(matches!(
        Error::SessionLocked("s".to_string(), "alice".to_string()),
        Error::SessionLocked(_, _)
    ));
}

#[test]
fn test_template_substitution() {
    let cm = hupasiya::context::ContextManager::new(Config::default()).unwrap();
    let session = Session::new(
        "test-session".to_string(),
        AgentType::Feature,
        "test-wb".to_string(),
        "/tmp/test".to_string(),
        "feature/test".to_string(),
        "main".to_string(),
        "myrepo".to_string(),
        "git".to_string(),
    );

    let template = "Session: {{session_name}}, Branch: {{branch}}";
    let result = cm.substitute_variables(template, &session);

    assert!(result.contains("test-session"));
    assert!(result.contains("feature/test"));
    assert_eq!(result, "Session: test-session, Branch: feature/test");
}

#[test]
fn test_replace_all_nonoverlapping() {
    assert_eq!(hupasiya::text::replace_all("aaa", "aa", "b"), "ba");
    assert_eq!(hupasiya::text::replace_all("x{{k}}y{{k}}", "{{k}}", "v"), "xvyv");
    assert_eq!(hupasiya::text::replace_all("none here", "{{k}}", "v"), "none here");
    assert_eq!(hupasiya::text::replace_all("abc", "", "v"), "abc");
}
