//! The command layer: the computing half of each user-facing command.
//! Argument parsing, printing and the delegated workspace calls stay in the
//! embedding program; each command here takes the manager it works on and
//! returns the data to display.

use vstd::prelude::*;
use vstd::string::StringExecFns;
use crate::activity::ActivityManager;
use crate::activity::GlobalStats;
use crate::collaboration::CollaborationManager;
use crate::config::ProfileConfig;
use crate::error::Error;
use crate::models::ActivityEvent;
use crate::models::Session;
use crate::models::SessionMetrics;
use crate::models::SessionStatus;
use crate::models::SessionV;
use crate::models::WorkboxInfo;
use crate::orchestration::tree_lines;
use crate::orchestration::roots_lines;
use crate::orchestration::Orchestrator;
use crate::orchestration::TreeLine;
use crate::profiles::ProfileManager;
use crate::session::has_name;
use crate::session::record_of;
use crate::session::with_status;
use crate::shepherd::Shepherd;
use crate::templates::filter_templates;
use crate::templates::query_pred;
use crate::templates::TemplateMetadata;
use crate::utilities::is_stale;
use crate::utilities::left_session;
use crate::utilities::UtilitiesManager;

verus! {

/// The session tree, as display lines: from the named root, or from every
/// parent-less session in most-recently-active order.
pub fn cmd_tree(orch: &Orchestrator, session_name: Option<String>) -> (r: Result<
    Vec<TreeLine>,
    Error,
>)
    requires
        orch.session_mgr.wf(),
    ensures
        session_name matches Some(name) ==> {
            &&& r is Ok <==> has_name(orch.session_mgr@, name@)
            &&& (r matches Ok(v) ==> v.deep_view() == tree_lines(
                orch.session_mgr@,
                name@,
                0,
                orch.session_mgr@.len() as nat,
            ))
            &&& (r matches Err(e) ==> e matches Error::SessionNotFound(n) && n@ == name@)
        },
        session_name is None ==> (r matches Ok(v) && exists|ord: Seq<SessionV>|
            {
                &&& #[trigger] ord.to_multiset() == orch.session_mgr@.to_multiset()
                &&& crate::session::sorted_by_last_active_desc(ord)
                &&& v.deep_view() == roots_lines(
                    orch.session_mgr@,
                    ord,
                    orch.session_mgr@.len() as nat,
                )
            }),
{
    orch.show_tree(session_name)
}

/// A session's activity log, newest first, capped at `limit` entries.
pub fn cmd_activity(mgr: &ActivityManager, session_name: &str, limit: Option<usize>) -> (r: Result<
    Vec<ActivityEvent>,
    Error,
>)
    requires
        mgr.session_mgr.wf(),
    ensures
        r is Ok <==> has_name(mgr.session_mgr@, session_name@),
        r matches Err(e) ==> e matches Error::SessionNotFound(n) && n@ == session_name@,
        r matches Ok(v) ==> ({
            let log = record_of(mgr.session_mgr@, session_name@).activity_log;
            let k = match limit {
                Some(l) => if l < log.len() {
                    l as int
                } else {
                    log.len() as int
                },
                None => log.len() as int,
            };
            &&& v.deep_view().len() == k
            &&& forall|t: int| 0 <= t < k ==> v.deep_view()[t] == log[log.len() - 1 - t]
        }),
{
    let session = match mgr.session_mgr.load_session(session_name) {
        Ok(s) => s,
        Err(e) => {
            return Err(e);
        },
    };
    let n = session.activity_log.len();
    let cap = match limit {
        Some(l) => if l < n {
            l
        } else {
            n
        },
        None => n,
    };
    let mut out: Vec<ActivityEvent> = Vec::new();
    let mut t: usize = 0;
    while t < cap
        invariant
            t <= cap,
            cap <= n,
            n == session.activity_log@.len(),
            out.deep_view().len() == t,
            forall|j: int|
                0 <= j < t ==> out.deep_view()[j] == session@.activity_log[n - 1 - j],
        decreases cap - t,
    {
        let ghost out0 = out.deep_view();
        out.push(session.activity_log[n - 1 - t].clone());
        proof {
            assert(out.deep_view() =~= out0.push(session@.activity_log[n - 1 - t]));
        }
        t = t + 1;
    }
    Ok(out)
}

/// A session's metrics.
pub fn cmd_metrics(mgr: &ActivityManager, session_name: &str) -> (r: Result<
    SessionMetrics,
    Error,
>)
    requires
        mgr.session_mgr.wf(),
    ensures
        r is Ok <==> has_name(mgr.session_mgr@, session_name@),
        r matches Ok(m) ==> m == record_of(mgr.session_mgr@, session_name@).metrics,
        r matches Err(e) ==> e matches Error::SessionNotFound(n) && n@ == session_name@,
{
    match mgr.session_mgr.load_session(session_name) {
        Ok(s) => Ok(s.metrics),
        Err(e) => Err(e),
    }
}

/// AI interactions across the whole store.
pub open spec fn sum_ai(s: Seq<SessionV>) -> int
    decreases s.len(),
{
    if s.len() == 0 {
        0
    } else {
        sum_ai(s.drop_last()) + s.last().metrics.ai_interactions
    }
}

/// Commits across the whole store.
pub open spec fn sum_commits(s: Seq<SessionV>) -> int
    decreases s.len(),
{
    if s.len() == 0 {
        0
    } else {
        sum_commits(s.drop_last()) + s.last().metrics.commits
    }
}

/// Lines added across the whole store.
pub open spec fn sum_lines_added(s: Seq<SessionV>) -> int
    decreases s.len(),
{
    if s.len() == 0 {
        0
    } else {
        sum_lines_added(s.drop_last()) + s.last().metrics.lines_added
    }
}

/// Aggregate statistics across every session: totals by status and summed
/// counters.
pub fn cmd_stats(mgr: &ActivityManager) -> (r: GlobalStats)
    requires
        mgr.session_mgr@.len() <= 0xffff_ffff,
    ensures
        r.total == mgr.session_mgr@.len(),
        r.active == mgr.session_mgr@.filter(with_status(SessionStatus::Active)).len(),
        r.paused == mgr.session_mgr@.filter(with_status(SessionStatus::Paused)).len(),
        r.integrated == mgr.session_mgr@.filter(with_status(SessionStatus::Integrated)).len(),
        r.ai_interactions == sum_ai(mgr.session_mgr@),
        r.commits == sum_commits(mgr.session_mgr@),
        r.lines_added == sum_lines_added(mgr.session_mgr@),
{
    let all = mgr.session_mgr.records();
    let ghost store = mgr.session_mgr@;
    let n = all.len();
    let mut active: u64 = 0;
    let mut paused: u64 = 0;
    let mut integrated: u64 = 0;
    let mut ai: u64 = 0;
    let mut commits: u64 = 0;
    let mut lines: u64 = 0;
    let mut i: usize = 0;
    while i < n
        invariant
            i <= n,
            n == store.len(),
            store == all.deep_view(),
            n <= 0xffff_ffff,
            active == store.subrange(0, i as int).filter(with_status(SessionStatus::Active)).len(),
            paused == store.subrange(0, i as int).filter(with_status(SessionStatus::Paused)).len(),
            integrated == store.subrange(0, i as int).filter(
                with_status(SessionStatus::Integrated),
            ).len(),
            ai == sum_ai(store.subrange(0, i as int)),
            commits == sum_commits(store.subrange(0, i as int)),
            lines == sum_lines_added(store.subrange(0, i as int)),
            ai <= i * 0xffff_ffff,
            commits <= i * 0xffff_ffff,
            lines <= i * 0xffff_ffff,
        decreases n - i,
    {
        let ghost prefix = store.subrange(0, i as int);
        proof {
            prefix.lemma_filter_len(with_status(SessionStatus::Active));
            prefix.lemma_filter_len(with_status(SessionStatus::Paused));
            prefix.lemma_filter_len(with_status(SessionStatus::Integrated));
            assert(store.subrange(0, i + 1 as int) =~= prefix.push(store[i as int]));
            crate::models::lemma_filter_push(
                prefix,
                with_status(SessionStatus::Active),
                store[i as int],
            );
            crate::models::lemma_filter_push(
                prefix,
                with_status(SessionStatus::Paused),
                store[i as int],
            );
            crate::models::lemma_filter_push(
                prefix,
                with_status(SessionStatus::Integrated),
                store[i as int],
            );
            assert(store.subrange(0, i + 1 as int).drop_last() =~= prefix);
            assert((i + 1) * 0xffff_ffff <= 0xffff_ffff * 0xffff_ffff) by (nonlinear_arith)
                requires
                    0 <= i,
                    i + 1 <= 0xffff_ffff,
            ;
            assert(i * 0xffff_ffff + 0xffff_ffff == (i + 1) * 0xffff_ffff) by (nonlinear_arith);
        }
        match all[i].status {
            SessionStatus::Active => {
                active = active + 1;
            },
            SessionStatus::Paused => {
                paused = paused + 1;
            },
            SessionStatus::Integrated => {
                integrated = integrated + 1;
            },
            _ => {},
        }
        ai = ai + (all[i].metrics.ai_interactions as u64);
        commits = commits + (all[i].metrics.commits as u64);
        lines = lines + (all[i].metrics.lines_added as u64);
        i = i + 1;
    }
    proof {
        assert(store.subrange(0, n as int) =~= store);
    }
    GlobalStats {
        total: n as u64,
        active,
        paused,
        integrated,
        ai_interactions: ai,
        commits,
        lines_added: lines,
    }
}

/// The dashboard data: every session, most recently active first.
pub fn cmd_monitor(um: &UtilitiesManager) -> (r: Vec<Session>)
    ensures
        r.deep_view().to_multiset() == um.session_mgr@.to_multiset(),
        crate::session::sorted_by_last_active_desc(r.deep_view()),
{
    um.session_mgr.list_sessions()
}

/// The cleanup report: which stale sessions were found, and how many were
/// deleted.
#[derive(Debug)]
pub struct CleanReport {
    /// Names of the stale sessions, in store order.
    pub candidates: Vec<String>,
    /// How many were deleted; zero on a dry run or without force.
    pub deleted: u64,
}

/// Clean up old sessions: every archived or integrated session whose last
/// activity lies before the threshold is a candidate; with neither dry run
/// nor missing force, the candidates are deleted and every other record is
/// kept untouched.
pub fn cmd_clean(
    um: &mut UtilitiesManager,
    older_than_days: u64,
    dry_run: bool,
    force: bool,
    now_ms: i64,
) -> (r: CleanReport)
    requires
        old(um).session_mgr.wf(),
        older_than_days * 86400000 <= i64::MAX,
        i64::MIN <= now_ms - older_than_days * 86400000,
    ensures
        final(um).session_mgr.wf(),
        ({
            let threshold = (now_ms - older_than_days * 86400000) as i64;
            &&& r.candidates.deep_view() == old(um).session_mgr@.filter(stale_pred(threshold)).map_values(
                name_of(),
            )
            &&& (dry_run || !force ==> final(um).session_mgr@ == old(um).session_mgr@ && r.deleted
                == 0)
            &&& (!dry_run && force ==> final(um).session_mgr@ == old(um).session_mgr@.filter(
                keep_fresh(threshold),
            ) && r.deleted == r.candidates@.len())
        }),
{
    let threshold = now_ms - (older_than_days as i64) * 86400000;
    let ghost store0 = um.session_mgr@;
    let n = um.session_mgr.store_len();
    let mut candidates: Vec<String> = Vec::new();
    let mut stale_flags: Vec<bool> = Vec::new();
    let mut names: Vec<String> = Vec::new();
    let mut i: usize = 0;
    while i < n
        invariant
            i <= n,
            n == store0.len(),
            um.session_mgr@ == store0,
            um.session_mgr.wf(),
            names@.len() == i,
            stale_flags@.len() == i,
            forall|j: int| 0 <= j < i ==> names@[j]@ == store0[j].name,
            forall|j: int|
                0 <= j < i ==> stale_flags@[j] == is_stale(store0[j], threshold),
            candidates.deep_view() =~= store0.subrange(0, i as int).filter(
                stale_pred(threshold),
            ).map_values(name_of()),
        decreases n - i,
    {
        let ghost prefix = store0.subrange(0, i as int);
        let recs = um.session_mgr.records();
        let stale = (match recs[i].status {
            SessionStatus::Archived => true,
            SessionStatus::Integrated => true,
            _ => false,
        }) && recs[i].last_active < threshold;
        names.push(recs[i].name.clone());
        stale_flags.push(stale);
        if stale {
            candidates.push(recs[i].name.clone());
        }
        proof {
            assert(store0.subrange(0, i + 1 as int) =~= prefix.push(store0[i as int]));
            crate::models::lemma_filter_push(prefix, stale_pred(threshold), store0[i as int]);
            if is_stale(store0[i as int], threshold) {
                assert((prefix.filter(stale_pred(threshold)).push(store0[i as int])).map_values(
                    name_of(),
                ) =~= prefix.filter(stale_pred(threshold)).map_values(name_of()).push(
                    store0[i as int].name,
                ));
            }
        }
        i = i + 1;
    }
    proof {
        assert(store0.subrange(0, n as int) =~= store0);
    }
    if dry_run || !force {
        return CleanReport { candidates, deleted: 0 };
    }
    let mut deleted: u64 = 0;
    let mut j: usize = 0;
    while j < n
        invariant
            j <= n,
            n == store0.len(),
            um.session_mgr.wf(),
            names@.len() == n,
            stale_flags@.len() == n,
            forall|k: int| 0 <= k < n ==> names@[k]@ == store0[k].name,
            forall|k: int|
                0 <= k < n ==> stale_flags@[k] == is_stale(store0[k], threshold),
            um.session_mgr@ =~= store0.subrange(0, j as int).filter(keep_fresh(threshold))
                + store0.subrange(j as int, n as int),
            deleted == store0.subrange(0, j as int).filter(stale_pred(threshold)).len(),
        decreases n - j,
    {
        let ghost prefix = store0.subrange(0, j as int);
        let ghost cur = um.session_mgr@;
        let ghost kept = prefix.filter(keep_fresh(threshold));
        proof {
            prefix.lemma_filter_len(keep_fresh(threshold));
            prefix.lemma_filter_len(stale_pred(threshold));
            assert(cur[kept.len() as int] == store0[j as int]);
        }
        if stale_flags[j] {
            proof {
                crate::session::lemma_index_unique(
                    cur,
                    store0[j as int].name,
                    kept.len() as int,
                );
            }
            let _ = um.session_mgr.delete_session(names[j].as_str());
            proof {
                assert(um.session_mgr@ =~= cur.remove(kept.len() as int));
            }
            deleted = deleted + 1;
        }
        proof {
            assert(store0.subrange(0, j + 1 as int) =~= prefix.push(store0[j as int]));
            crate::models::lemma_filter_push(prefix, keep_fresh(threshold), store0[j as int]);
            crate::models::lemma_filter_push(prefix, stale_pred(threshold), store0[j as int]);
            assert(um.session_mgr@ =~= store0.subrange(0, j + 1 as int).filter(
                keep_fresh(threshold),
            ) + store0.subrange(j + 1 as int, n as int));
        }
        j = j + 1;
    }
    proof {
        assert(store0.subrange(n as int, n as int) =~= Seq::<SessionV>::empty());
        assert(um.session_mgr@ =~= store0.filter(keep_fresh(threshold)));
        assert(store0.subrange(0, n as int) =~= store0);
    }
    CleanReport { candidates, deleted }
}

/// The sessions a cleanup removes.
pub open spec fn stale_pred(threshold: i64) -> spec_fn(SessionV) -> bool {
    |s: SessionV| is_stale(s, threshold)
}

/// The sessions a cleanup keeps.
pub open spec fn keep_fresh(threshold: i64) -> spec_fn(SessionV) -> bool {
    |s: SessionV| !is_stale(s, threshold)
}

/// A record's name.
pub open spec fn name_of() -> spec_fn(SessionV) -> Seq<char> {
    |s: SessionV| s.name
}

/// Leave a session: pause it, or archive it, with one `StatusChanged`
/// entry.
pub fn cmd_leave(um: &mut UtilitiesManager, session_name: &str, archive: bool) -> (r: Result<
    (),
    Error,
>)
    requires
        old(um).session_mgr.wf(),
    ensures
        final(um).session_mgr.wf(),
        r is Ok <==> has_name(old(um).session_mgr@, session_name@),
        r matches Err(e) ==> final(um).session_mgr@ == old(um).session_mgr@ && (
        e matches Error::SessionNotFound(n) && n@ == session_name@),
        r is Ok ==> final(um).session_mgr@ == crate::session::spec_save(
            old(um).session_mgr@,
            left_session(
                record_of(old(um).session_mgr@, session_name@),
                archive,
                record_of(final(um).session_mgr@, session_name@).last_active,
            ),
        ),
{
    um.leave(session_name, archive)
}

/// Hand a session off to another operator.
pub fn cmd_handoff(cm: &mut CollaborationManager, session_name: &str, to_user: &str) -> (r: Result<
    (),
    Error,
>)
    requires
        old(cm).session_mgr.wf(),
    ensures
        final(cm).session_mgr.wf(),
        r is Ok <==> has_name(old(cm).session_mgr@, session_name@),
        r matches Err(e) ==> final(cm).session_mgr@ == old(cm).session_mgr@ && (
        e matches Error::SessionNotFound(n) && n@ == session_name@),
        r is Ok ==> final(cm).session_mgr@ == crate::session::spec_save(
            old(cm).session_mgr@,
            crate::collaboration::handed_off(
                record_of(old(cm).session_mgr@, session_name@),
                to_user@,
                record_of(final(cm).session_mgr@, session_name@).last_active,
            ),
        ),
{
    cm.handoff(session_name, to_user)
}

/// Clone a session for parallel work over a freshly provisioned workbox.
pub fn cmd_clone(
    cm: &mut CollaborationManager,
    source_name: &str,
    new_name: &str,
    diverge: bool,
    workbox: &WorkboxInfo,
) -> (r: Result<Session, Error>)
    requires
        old(cm).session_mgr.wf(),
    ensures
        final(cm).session_mgr.wf(),
        r is Ok <==> has_name(old(cm).session_mgr@, source_name@) && !has_name(
            old(cm).session_mgr@,
            new_name@,
        ),
        r is Err ==> final(cm).session_mgr@ == old(cm).session_mgr@,
        r matches Ok(s) ==> s@.name == new_name@ && final(cm).session_mgr@
            == crate::session::spec_save(old(cm).session_mgr@, s@),
{
    cm.clone_session(source_name, new_name, diverge, workbox)
}

/// Process a session's review comments in batch mode.
pub fn cmd_shepherd(sh: &mut Shepherd, session_name: &str, auto_fix: bool) -> (r: Result<
    (u64, u64),
    Error,
>)
    requires
        old(sh).session_mgr.wf(),
    ensures
        final(sh).session_mgr.wf(),
        r is Ok <==> has_name(old(sh).session_mgr@, session_name@),
        r matches Ok(counts) ==> ({
            let rec = record_of(old(sh).session_mgr@, session_name@);
            &&& counts.0 == rec.unresolved_comments.filter(
                crate::shepherd::batch_fix_pred(auto_fix),
            ).len()
            &&& counts.0 + counts.1 == rec.unresolved_comments.len()
        }),
{
    sh.run_batch(session_name, auto_fix)
}

/// The configured profiles, in order.
pub fn cmd_profile_list(pm: &ProfileManager) -> (r: &Vec<(String, ProfileConfig)>)
    ensures
        r == &pm.config.hp.profiles,
{
    pm.list()
}

/// One profile, by name.
pub fn cmd_profile_show<'a>(pm: &'a ProfileManager, profile_name: &str) -> (r: Result<
    &'a ProfileConfig,
    Error,
>)
    ensures
        r is Ok <==> exists|i: int|
            0 <= i < pm.config.hp.profiles@.len() && #[trigger] pm.config.hp.profiles@[i].0@
                == profile_name@,
        r matches Err(e) ==> e matches Error::ProfileNotFound(n) && n@ == profile_name@,
{
    pm.show(profile_name)
}

/// The built-in templates, as name and description pairs.
pub fn cmd_template_list() -> (r: Vec<(String, String)>)
    ensures
        r.deep_view() =~= seq![
            ("feature"@, "New feature development"@),
            ("bugfix"@, "Bug fix workflow"@),
            ("review"@, "Code review"@),
            ("research"@, "Investigation/spike"@),
            ("refactor"@, "Code refactoring"@),
            ("test"@, "Test writing"@),
            ("docs"@, "Documentation"@),
            ("shepherd"@, "PR comment resolution"@),
        ],
{
    let mut r: Vec<(String, String)> = Vec::new();
    r.push(("feature".to_owned(), "New feature development".to_owned()));
    r.push(("bugfix".to_owned(), "Bug fix workflow".to_owned()));
    r.push(("review".to_owned(), "Code review".to_owned()));
    r.push(("research".to_owned(), "Investigation/spike".to_owned()));
    r.push(("refactor".to_owned(), "Code refactoring".to_owned()));
    r.push(("test".to_owned(), "Test writing".to_owned()));
    r.push(("docs".to_owned(), "Documentation".to_owned()));
    r.push(("shepherd".to_owned(), "PR comment resolution".to_owned()));
    proof {
        assert(r.deep_view() =~= seq![
            ("feature"@, "New feature development"@),
            ("bugfix"@, "Bug fix workflow"@),
            ("review"@, "Code review"@),
            ("research"@, "Investigation/spike"@),
            ("refactor"@, "Code refactoring"@),
            ("test"@, "Test writing"@),
            ("docs"@, "Documentation"@),
            ("shepherd"@, "PR comment resolution"@),
        ]);
    }
    r
}

/// The local templates a query matches, in order.
pub fn cmd_template_search(query: &str, local: Vec<TemplateMetadata>) -> (r: Vec<
    TemplateMetadata,
>)
    ensures
        r@ == local@.filter(query_pred(query@)),
{
    filter_templates(local, query)
}

} // verus!
