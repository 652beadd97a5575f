//! Multi-agent orchestration: the cascade and gather tree-synchronization
//! algorithms, and the session-tree display.
//!
//! Cascade pushes a parent's changes down to each child; gather pulls each
//! child's changes up into the parent. One branch merge runs per edge,
//! inside a workbox that only the external workspace client can touch, so
//! both algorithms are driven as step machines: the machine decides, the
//! embedding program performs the delegated call and hands back the
//! outcome. Every decision, every count and every record update is
//! verified; children are processed in stored order, one child's failure
//! never aborts the rest, and a dry run never touches the store.

use vstd::prelude::*;
use vstd::string::StringExecFns;
use crate::config::Config;
use crate::error::Error;
use crate::models::ActivityType;
use crate::models::Session;
use crate::models::SessionV;
use crate::models::WorkboxInfo;
use crate::session::has_name;
use crate::session::record_of;
use crate::session::spec_save;
use crate::session::with_activity;
use crate::session::SessionManager;
use crate::text;

verus! {

/// The merge command cascade runs inside a child's workbox, selected by the
/// version-control-system tag; an unknown tag selects nothing.
pub open spec fn cascade_cmd(vcs: Seq<char>, parent_branch: Seq<char>) -> Option<Seq<char>> {
    if vcs == "git"@ {
        Some("git merge "@ + parent_branch)
    } else if vcs == "hg"@ {
        Some("hg merge "@ + parent_branch)
    } else if vcs == "jj"@ {
        Some("jj rebase -d "@ + parent_branch)
    } else {
        None
    }
}

/// The merge command gather runs inside the parent's workbox.
pub open spec fn gather_cmd(
    vcs: Seq<char>,
    child_branch: Seq<char>,
    parent_branch: Seq<char>,
) -> Option<Seq<char>> {
    if vcs == "git"@ {
        Some("git merge "@ + child_branch)
    } else if vcs == "hg"@ {
        Some("hg merge "@ + child_branch)
    } else if vcs == "jj"@ {
        Some("jj rebase -s "@ + child_branch + " -d "@ + parent_branch)
    } else {
        None
    }
}

/// Whether merge output reports a conflict: it contains the marker
/// substring in either case the tools use.
pub open spec fn spec_conflicted(out: Seq<char>) -> bool {
    text::contains_seq(out, "conflict"@) || text::contains_seq(out, "CONFLICT"@)
}

/// Classify merge output: conflicted when a conflict marker occurs.
pub fn output_has_conflict(out: &str) -> (r: bool)
    ensures
        r == spec_conflicted(out@),
{
    text::str_contains_sub(out, "conflict") || text::str_contains_sub(out, "CONFLICT")
}

/// The activity text recorded on a child that was cascaded to.
pub open spec fn cascaded_details(parent: Seq<char>) -> Seq<char> {
    "Cascaded changes from parent '"@ + parent + "'"@
}

/// The activity text recorded on a parent after a gather.
pub open spec fn gathered_details(gathered: int) -> Seq<char> {
    "Gathered "@ + text::spec_decimal(gathered) + " children"@
}

/// A child record after a cascade reached it.
pub open spec fn cascaded_child(c: SessionV, parent: Seq<char>, t: i64) -> SessionV {
    with_activity(c, t, ActivityType::Cascaded, cascaded_details(parent))
}


/// Select a merge command by version-control tag: the branch given merges
/// into the current workbox.
fn merge_command_for(vcs: &String, branch: &String) -> (r: Option<String>)
    ensures
        r.deep_view() == cascade_cmd(vcs@, branch@),
{
    if text::str_eq(vcs.as_str(), "git") {
        let mut c = "git merge ".to_owned();
        c.append(branch.as_str());
        Some(c)
    } else if text::str_eq(vcs.as_str(), "hg") {
        let mut c = "hg merge ".to_owned();
        c.append(branch.as_str());
        Some(c)
    } else if text::str_eq(vcs.as_str(), "jj") {
        let mut c = "jj rebase -d ".to_owned();
        c.append(branch.as_str());
        Some(c)
    } else {
        None
    }
}

/// What the embedding program must do next to drive a cascade or gather.
#[derive(Debug)]
pub enum SyncNeed {
    /// Ask the workspace client for this workbox's information.
    FetchWorkbox { workbox_name: String },
    /// Run this shell command inside this workbox; where `snapshot` names a
    /// session, snapshot its context first, best-effort.
    RunMerge { workbox_name: String, command: String, snapshot: Option<String> },
    /// Nothing: the run is complete, with these counts.
    Finished { done: u64, skipped: u64 },
}

/// What the workspace client answered.
#[derive(Debug)]
pub enum SyncEvent {
    /// The workbox lookup: its information, or nothing when it failed.
    Workbox(Option<WorkboxInfo>),
    /// The merge command's captured output, or the failure text.
    Merge(Result<String, String>),
}

/// How one child's step ended, for reporting.
#[derive(Debug)]
pub enum ChildStatus {
    /// The child merged cleanly.
    Merged,
    /// The merge ran but its output reports conflicts to resolve by hand.
    Conflicted,
    /// Dry run: this command would have run.
    WouldRun { command: String },
    /// The child was skipped; the text says why.
    Skipped { reason: String },
}

/// An in-progress cascade: children of the parent are visited in stored
/// order; for each, the child's workbox is resolved, a merge command is
/// selected by its version-control tag, the merge runs, and one `Cascaded`
/// activity entry is appended to the child's record.
pub struct CascadeRun {
    /// The parent record, as loaded when the run began.
    pub parent: Session,
    /// Position of the child currently being processed.
    pub idx: usize,
    /// Children reached by a merge command so far.
    pub cascaded: u64,
    /// Children skipped so far (missing, unknown tag, failed, or dry run).
    pub skipped: u64,
    /// A dry run selects and reports commands but runs nothing and changes
    /// nothing.
    pub dry_run: bool,
    /// Whether the machine is waiting for a merge outcome.
    pub awaiting_merge: bool,
    /// The workbox of the child being processed.
    pub current_workbox: String,
}

impl CascadeRun {
    /// The machine invariant: counts cover exactly the children before
    /// `idx`.
    pub open spec fn inv(&self) -> bool {
        &&& self.parent@.children.len() <= usize::MAX
        &&& self.idx <= self.parent@.children.len()
        &&& self.cascaded + self.skipped == self.idx
        &&& self.awaiting_merge ==> self.idx < self.parent@.children.len() && !self.dry_run
    }
}

/// Orchestration engine for multi-agent coordination. It owns the session
/// store; the embedding program performs the delegated workspace calls.
pub struct Orchestrator {
    /// The configuration the orchestrator was created with.
    pub config: Config,
    /// The session store the orchestrator works on.
    pub session_mgr: SessionManager,
}

impl Orchestrator {
    /// Create a new orchestrator with an empty store.
    pub fn new(config: Config) -> (r: Result<Self, Error>)
        ensures
            r matches Ok(o) && o.session_mgr.wf() && o.session_mgr@.len() == 0,
    {
        let session_mgr = SessionManager::new(Config { hp: config.hp.clone() });
        Ok(Orchestrator { config, session_mgr })
    }

    /// Move past children whose records cannot be loaded, counting each as
    /// skipped, and emit the next need.
    fn cascade_advance(&self, run: &mut CascadeRun) -> (need: SyncNeed)
        requires
            self.session_mgr.wf(),
            old(run).inv(),
            !old(run).awaiting_merge,
        ensures
            final(run).inv(),
            !final(run).awaiting_merge,
            final(run).parent == old(run).parent,
            final(run).dry_run == old(run).dry_run,
            final(run).cascaded == old(run).cascaded,
            final(run).idx >= old(run).idx,
            final(run).skipped - old(run).skipped == final(run).idx - old(run).idx,
            forall|k: int|
                old(run).idx <= k < final(run).idx ==> !has_name(
                    self.session_mgr@,
                    #[trigger] final(run).parent@.children[k],
                ),
            match need {
                SyncNeed::FetchWorkbox { workbox_name } => {
                    &&& final(run).idx < final(run).parent@.children.len()
                    &&& has_name(
                        self.session_mgr@,
                        final(run).parent@.children[final(run).idx as int],
                    )
                    &&& workbox_name@ == record_of(
                        self.session_mgr@,
                        final(run).parent@.children[final(run).idx as int],
                    ).workbox_name
                    &&& final(run).current_workbox@ == workbox_name@
                },
                SyncNeed::RunMerge { .. } => false,
                SyncNeed::Finished { done, skipped } => {
                    &&& final(run).idx == final(run).parent@.children.len()
                    &&& done == final(run).cascaded
                    &&& skipped == final(run).skipped
                },
            },
    {
        let n = run.parent.children.len();
        while run.idx < n
            invariant
                self.session_mgr.wf(),
                run.inv(),
                !run.awaiting_merge,
                n == run.parent@.children.len(),
                run.parent == old(run).parent,
                run.dry_run == old(run).dry_run,
                run.cascaded == old(run).cascaded,
                run.idx >= old(run).idx,
                run.skipped - old(run).skipped == run.idx - old(run).idx,
                forall|k: int|
                    old(run).idx <= k < run.idx ==> !has_name(
                        self.session_mgr@,
                        #[trigger] run.parent@.children[k],
                    ),
            decreases n - run.idx,
        {
            match self.session_mgr.load_session(run.parent.children[run.idx].as_str()) {
                Ok(child) => {
                    run.current_workbox = child.workbox_name.clone();
                    return SyncNeed::FetchWorkbox { workbox_name: child.workbox_name };
                },
                Err(_) => {
                    run.skipped = run.skipped + 1;
                    run.idx = run.idx + 1;
                },
            }
        }
        SyncNeed::Finished { done: run.cascaded, skipped: run.skipped }
    }

    /// Begin a cascade from this parent. The returned need drives the run;
    /// a parent without children finishes immediately.
    pub fn cascade(&self, parent_name: &str, dry_run: bool) -> (r: Result<
        (CascadeRun, SyncNeed),
        Error,
    >)
        requires
            self.session_mgr.wf(),
        ensures
            r is Ok <==> has_name(self.session_mgr@, parent_name@),
            r matches Err(e) ==> e matches Error::SessionNotFound(n) && n@ == parent_name@,
            r matches Ok(p) ==> ({
                let run = p.0;
                &&& run.inv()
                &&& !run.awaiting_merge
                &&& run.parent@ == record_of(self.session_mgr@, parent_name@)
                &&& run.dry_run == dry_run
                &&& run.cascaded == 0
                &&& run.skipped == run.idx
                &&& forall|k: int|
                    0 <= k < run.idx ==> !has_name(
                        self.session_mgr@,
                        #[trigger] run.parent@.children[k],
                    )
                &&& match p.1 {
                    SyncNeed::FetchWorkbox { workbox_name } => {
                        &&& run.idx < run.parent@.children.len()
                        &&& has_name(
                            self.session_mgr@,
                            run.parent@.children[run.idx as int],
                        )
                        &&& workbox_name@ == record_of(
                            self.session_mgr@,
                            run.parent@.children[run.idx as int],
                        ).workbox_name
                        &&& run.current_workbox@ == workbox_name@
                    },
                    SyncNeed::RunMerge { .. } => false,
                    SyncNeed::Finished { done, skipped } => {
                        &&& run.idx == run.parent@.children.len()
                        &&& done == 0
                        &&& skipped == run.skipped
                    },
                }
            }),
    {
        let parent = match self.session_mgr.load_session(parent_name) {
            Ok(p) => p,
            Err(e) => {
                return Err(e);
            },
        };
        let n = parent.children.len();
        proof {
            assert(parent@.children.len() == n);
        }
        let mut run = CascadeRun {
            parent,
            idx: 0,
            cascaded: 0,
            skipped: 0,
            dry_run,
            awaiting_merge: false,
            current_workbox: String::new(),
        };
        let need = self.cascade_advance(&mut run);
        Ok((run, need))
    }

    /// Drive the cascade by one answer from the workspace client. Counts
    /// and the store change exactly as the event dictates: a fault skips
    /// only the current child, a merge outcome appends one `Cascaded` entry
    /// to the child's record, and a dry run never touches the store.
    pub fn cascade_step(&mut self, run: &mut CascadeRun, event: SyncEvent) -> (r: (
        Option<ChildStatus>,
        SyncNeed,
    ))
        requires
            old(self).session_mgr.wf(),
            old(run).inv(),
            old(run).idx < old(run).parent@.children.len(),
            old(run).awaiting_merge <==> event is Merge,
            !old(run).awaiting_merge ==> has_name(
                old(self).session_mgr@,
                old(run).parent@.children[old(run).idx as int],
            ),
        ensures
            final(self).session_mgr.wf(),
            final(run).inv(),
            final(run).parent == old(run).parent,
            final(run).dry_run == old(run).dry_run,
            old(run).dry_run ==> final(self).session_mgr@ == old(self).session_mgr@ && !(
            r.1 is RunMerge),
            final(run).awaiting_merge <==> r.1 is RunMerge,
            ({
                let child_name = old(run).parent@.children[old(run).idx as int];
                match event {
                    SyncEvent::Workbox(wbo) => match wbo {
                        None => {
                            &&& final(self).session_mgr@ == old(self).session_mgr@
                            &&& final(run).cascaded == old(run).cascaded
                            &&& final(run).idx > old(run).idx
                            &&& (r.0 matches Some(st) && (st matches ChildStatus::Skipped {
                                reason,
                            } && reason@ == "workbox not found"@))
                        },
                        Some(wb) => match cascade_cmd(wb@.vcs_type, old(run).parent@.branch) {
                            None => {
                                &&& final(self).session_mgr@ == old(self).session_mgr@
                                &&& final(run).cascaded == old(run).cascaded
                                &&& final(run).idx > old(run).idx
                                &&& (r.0 matches Some(st) && (st matches ChildStatus::Skipped {
                                    reason,
                                } && reason@ == "Unknown VCS type: "@ + wb@.vcs_type))
                            },
                            Some(cmd) => {
                                if old(run).dry_run {
                                    &&& final(run).cascaded == old(run).cascaded
                                    &&& final(run).idx > old(run).idx
                                    &&& (r.0 matches Some(st) && (
                                    st matches ChildStatus::WouldRun { command } && command@
                                        == cmd))
                                } else {
                                    &&& final(self).session_mgr@ == old(self).session_mgr@
                                    &&& final(run).idx == old(run).idx
                                    &&& final(run).cascaded == old(run).cascaded
                                    &&& final(run).skipped == old(run).skipped
                                    &&& final(run).awaiting_merge
                                    &&& r.0 is None
                                    &&& (r.1 matches SyncNeed::RunMerge {
                                        workbox_name,
                                        command,
                                        snapshot,
                                    } && workbox_name@ == old(run).current_workbox@ && command@
                                        == cmd && snapshot.deep_view() == (
                                    if old(self).config.hp.sessions.auto_snapshot {
                                        Some(old(run).parent@.children[old(run).idx as int])
                                    } else {
                                        Option::<Seq<char>>::None
                                    }))
                                }
                            },
                        },
                    },
                    SyncEvent::Merge(res) => match res {
                        Ok(output) => {
                            &&& final(run).cascaded == old(run).cascaded + 1
                            &&& final(run).idx > old(run).idx
                            &&& (has_name(old(self).session_mgr@, child_name)
                                ==> final(self).session_mgr@ == spec_save(
                                old(self).session_mgr@,
                                cascaded_child(
                                    record_of(old(self).session_mgr@, child_name),
                                    old(run).parent@.name,
                                    record_of(final(self).session_mgr@, child_name).last_active,
                                ),
                            ))
                            &&& (!has_name(old(self).session_mgr@, child_name)
                                ==> final(self).session_mgr@ == old(self).session_mgr@)
                            &&& (r.0 matches Some(st) && st == (if spec_conflicted(output@) {
                                ChildStatus::Conflicted
                            } else {
                                ChildStatus::Merged
                            }))
                        },
                        Err(msg) => {
                            &&& final(self).session_mgr@ == old(self).session_mgr@
                            &&& final(run).cascaded == old(run).cascaded
                            &&& final(run).idx > old(run).idx
                            &&& (r.0 matches Some(st) && (st matches ChildStatus::Skipped {
                                reason,
                            } && reason@ == "Merge failed: "@ + msg@))
                        },
                    },
                }
            }),
            forall|k: int|
                old(run).idx < k < final(run).idx ==> !has_name(
                    final(self).session_mgr@,
                    #[trigger] final(run).parent@.children[k],
                ),
            match r.1 {
                SyncNeed::FetchWorkbox { workbox_name } => {
                    &&& final(run).idx < final(run).parent@.children.len()
                    &&& has_name(
                        final(self).session_mgr@,
                        final(run).parent@.children[final(run).idx as int],
                    )
                    &&& workbox_name@ == record_of(
                        final(self).session_mgr@,
                        final(run).parent@.children[final(run).idx as int],
                    ).workbox_name
                },
                SyncNeed::RunMerge { .. } => true,
                SyncNeed::Finished { done, skipped } => {
                    &&& final(run).idx == final(run).parent@.children.len()
                    &&& done == final(run).cascaded
                    &&& skipped == final(run).skipped
                },
            },
    {
        match event {
            SyncEvent::Workbox(opt) => match opt {
                None => {
                    run.skipped = run.skipped + 1;
                    run.idx = run.idx + 1;
                    let need = self.cascade_advance(run);
                    (
                        Some(
                            ChildStatus::Skipped { reason: "workbox not found".to_owned() },
                        ),
                        need,
                    )
                },
                Some(wb) => {
                    let cmd_opt = merge_command_for(&wb.vcs_type, &run.parent.branch);
                    match cmd_opt {
                        None => {
                            run.skipped = run.skipped + 1;
                            run.idx = run.idx + 1;
                            let need = self.cascade_advance(run);
                            let mut reason = "Unknown VCS type: ".to_owned();
                            reason.append(wb.vcs_type.as_str());
                            (Some(ChildStatus::Skipped { reason }), need)
                        },
                        Some(cmd) => {
                            if run.dry_run {
                                run.skipped = run.skipped + 1;
                                run.idx = run.idx + 1;
                                let need = self.cascade_advance(run);
                                (Some(ChildStatus::WouldRun { command: cmd }), need)
                            } else {
                                run.awaiting_merge = true;
                                let wn = run.current_workbox.clone();
                                let snapshot = if self.config.hp.sessions.auto_snapshot {
                                    Some(run.parent.children[run.idx].clone())
                                } else {
                                    None
                                };
                                (
                                    None,
                                    SyncNeed::RunMerge {
                                        workbox_name: wn,
                                        command: cmd,
                                        snapshot,
                                    },
                                )
                            }
                        },
                    }
                },
            },
            SyncEvent::Merge(res) => {
                run.awaiting_merge = false;
                match res {
                    Ok(output) => {
                        let conflicted = output_has_conflict(output.as_str());
                        match self.session_mgr.load_session(
                            run.parent.children[run.idx].as_str(),
                        ) {
                            Ok(child) => {
                                let mut child = child;
                                let mut d = "Cascaded changes from parent '".to_owned();
                                d.append(run.parent.name.as_str());
                                d.append("'");
                                proof {
                                    assert(d@ =~= cascaded_details(run.parent@.name));
                                }
                                child.log_activity(ActivityType::Cascaded, d);
                                self.session_mgr.save_session(&child);
                            },
                            Err(_) => {},
                        }
                        run.cascaded = run.cascaded + 1;
                        run.idx = run.idx + 1;
                        let need = self.cascade_advance(run);
                        if conflicted {
                            (Some(ChildStatus::Conflicted), need)
                        } else {
                            (Some(ChildStatus::Merged), need)
                        }
                    },
                    Err(msg) => {
                        run.skipped = run.skipped + 1;
                        run.idx = run.idx + 1;
                        let need = self.cascade_advance(run);
                        let mut reason = "Merge failed: ".to_owned();
                        reason.append(msg.as_str());
                        (Some(ChildStatus::Skipped { reason }), need)
                    },
                }
            },
        }
    }

}


/// An in-progress gather: children of the parent are visited in stored
/// order; for each, the parent's workbox is resolved, a merge command for
/// the child's branch is selected by the parent workbox's version-control
/// tag, and the merge runs inside the parent's workbox. The store is
/// untouched per child; one `Gathered` entry lands on the parent when the
/// run completes, unless it was a dry run or there were no children.
pub struct GatherRun {
    /// The parent record, as loaded when the run began.
    pub parent: Session,
    /// Position of the child currently being processed.
    pub idx: usize,
    /// Children gathered by a merge command so far.
    pub gathered: u64,
    /// Children skipped so far (missing, unknown tag, failed, or dry run).
    pub skipped: u64,
    /// A dry run selects and reports commands but runs nothing and changes
    /// nothing.
    pub dry_run: bool,
    /// Whether the machine is waiting for a merge outcome.
    pub awaiting_merge: bool,
    /// The branch of the child being processed.
    pub current_branch: String,
    /// Whether the final `Gathered` entry has been recorded.
    pub logged: bool,
    /// Whether the caller should snapshot the parent's context,
    /// best-effort, before driving the run.
    pub snapshot_parent: bool,
}

impl GatherRun {
    /// The machine invariant: counts cover exactly the children before
    /// `idx`.
    pub open spec fn inv(&self) -> bool {
        &&& self.parent@.children.len() <= usize::MAX
        &&& self.idx <= self.parent@.children.len()
        &&& self.gathered + self.skipped == self.idx
        &&& self.awaiting_merge ==> self.idx < self.parent@.children.len() && !self.dry_run
        &&& self.logged ==> self.idx == self.parent@.children.len()
    }
}

/// How the store may change when a gather completes: not at all for a dry
/// run or a childless parent; otherwise the parent record the run started
/// from is stored back with one `Gathered` entry appended.
pub open spec fn gather_finish_store(
    pre: Seq<SessionV>,
    post: Seq<SessionV>,
    run: GatherRun,
) -> bool {
    if run.dry_run || run.parent@.children.len() == 0 {
        post == pre
    } else {
        post == spec_save(
            pre,
            with_activity(
                run.parent@,
                record_of(post, run.parent@.name).last_active,
                ActivityType::Gathered,
                gathered_details(run.gathered as int),
            ),
        )
    }
}

/// Select the gather merge command by the parent workbox's
/// version-control tag.
fn gather_command_for(vcs: &String, child_branch: &String, parent_branch: &String) -> (r: Option<
    String,
>)
    ensures
        r.deep_view() == gather_cmd(vcs@, child_branch@, parent_branch@),
{
    if text::str_eq(vcs.as_str(), "git") {
        let mut c = "git merge ".to_owned();
        c.append(child_branch.as_str());
        Some(c)
    } else if text::str_eq(vcs.as_str(), "hg") {
        let mut c = "hg merge ".to_owned();
        c.append(child_branch.as_str());
        Some(c)
    } else if text::str_eq(vcs.as_str(), "jj") {
        let mut c = "jj rebase -s ".to_owned();
        c.append(child_branch.as_str());
        c.append(" -d ");
        c.append(parent_branch.as_str());
        Some(c)
    } else {
        None
    }
}

impl Orchestrator {
    /// Move past children whose records cannot be loaded, counting each as
    /// skipped; record the final `Gathered` entry when the run completes;
    /// and emit the next need.
    fn gather_advance(&mut self, run: &mut GatherRun) -> (need: SyncNeed)
        requires
            old(self).session_mgr.wf(),
            old(run).inv(),
            !old(run).awaiting_merge,
            !old(run).logged,
        ensures
            final(self).session_mgr.wf(),
            final(run).inv(),
            !final(run).awaiting_merge,
            final(run).parent == old(run).parent,
            final(run).dry_run == old(run).dry_run,
            final(run).snapshot_parent == old(run).snapshot_parent,
            final(run).gathered == old(run).gathered,
            final(run).idx >= old(run).idx,
            final(run).skipped - old(run).skipped == final(run).idx - old(run).idx,
            forall|k: int|
                old(run).idx <= k < final(run).idx ==> !has_name(
                    old(self).session_mgr@,
                    #[trigger] final(run).parent@.children[k],
                ),
            need is Finished ==> gather_finish_store(
                old(self).session_mgr@,
                final(self).session_mgr@,
                *final(run),
            ),
            !(need is Finished) ==> final(self).session_mgr@ == old(self).session_mgr@,
            match need {
                SyncNeed::FetchWorkbox { workbox_name } => {
                    &&& final(run).idx < final(run).parent@.children.len()
                    &&& has_name(
                        final(self).session_mgr@,
                        final(run).parent@.children[final(run).idx as int],
                    )
                    &&& workbox_name@ == final(run).parent@.workbox_name
                    &&& final(run).current_branch@ == record_of(
                        final(self).session_mgr@,
                        final(run).parent@.children[final(run).idx as int],
                    ).branch
                },
                SyncNeed::RunMerge { .. } => false,
                SyncNeed::Finished { done, skipped } => {
                    &&& final(run).idx == final(run).parent@.children.len()
                    &&& done == final(run).gathered
                    &&& skipped == final(run).skipped
                },
            },
    {
        let n = run.parent.children.len();
        while run.idx < n
            invariant
                self.session_mgr.wf(),
                self.session_mgr@ == old(self).session_mgr@,
                run.inv(),
                !run.awaiting_merge,
                !run.logged,
                n == run.parent@.children.len(),
                run.parent == old(run).parent,
                run.dry_run == old(run).dry_run,
                run.snapshot_parent == old(run).snapshot_parent,
                run.gathered == old(run).gathered,
                run.idx >= old(run).idx,
                run.skipped - old(run).skipped == run.idx - old(run).idx,
                forall|k: int|
                    old(run).idx <= k < run.idx ==> !has_name(
                        self.session_mgr@,
                        #[trigger] run.parent@.children[k],
                    ),
            decreases n - run.idx,
        {
            match self.session_mgr.load_session(run.parent.children[run.idx].as_str()) {
                Ok(child) => {
                    run.current_branch = child.branch;
                    return SyncNeed::FetchWorkbox {
                        workbox_name: run.parent.workbox_name.clone(),
                    };
                },
                Err(_) => {
                    run.skipped = run.skipped + 1;
                    run.idx = run.idx + 1;
                },
            }
        }
        if !run.dry_run && run.parent.children.len() > 0 {
            let mut parent = run.parent.clone();
            let count = run.gathered;
            let mut d = "Gathered ".to_owned();
            let num = text::u64_to_string(count);
            d.append(num.as_str());
            d.append(" children");
            proof {
                assert(d@ =~= gathered_details(run.gathered as int));
            }
            parent.log_activity(ActivityType::Gathered, d);
            let ghost t = parent@.last_active;
            proof {
                assert(parent@ == with_activity(
                    run.parent@,
                    t,
                    ActivityType::Gathered,
                    gathered_details(run.gathered as int),
                ));
            }
            self.session_mgr.save_session(&parent);
            proof {
                crate::session::lemma_save_wf(old(self).session_mgr@, parent@);
                assert(record_of(self.session_mgr@, run.parent@.name).last_active == t);
            }
            run.logged = true;
        }
        SyncNeed::Finished { done: run.gathered, skipped: run.skipped }
    }

    /// Begin a gather into this parent. The returned need drives the run; a
    /// parent without children finishes immediately, and a parent whose
    /// children are all missing finishes with its `Gathered` entry already
    /// recorded.
    pub fn gather(&mut self, parent_name: &str, dry_run: bool) -> (r: Result<
        (GatherRun, SyncNeed),
        Error,
    >)
        requires
            old(self).session_mgr.wf(),
        ensures
            final(self).session_mgr.wf(),
            r is Ok <==> has_name(old(self).session_mgr@, parent_name@),
            r matches Err(e) ==> final(self).session_mgr@ == old(self).session_mgr@ && (
            e matches Error::SessionNotFound(n) && n@ == parent_name@),
            r matches Ok(p) ==> ({
                let run = p.0;
                &&& run.inv()
                &&& run.parent@ == record_of(old(self).session_mgr@, parent_name@)
                &&& run.dry_run == dry_run
                &&& run.gathered == 0
                &&& run.snapshot_parent == (!dry_run && run.parent@.children.len() > 0 && old(
                    self,
                ).config.hp.sessions.auto_snapshot)
                &&& run.skipped == run.idx
                &&& forall|k: int|
                    0 <= k < run.idx ==> !has_name(
                        old(self).session_mgr@,
                        #[trigger] run.parent@.children[k],
                    )
                &&& match p.1 {
                    SyncNeed::FetchWorkbox { workbox_name } => {
                        &&& final(self).session_mgr@ == old(self).session_mgr@
                        &&& !run.awaiting_merge
                        &&& run.idx < run.parent@.children.len()
                        &&& has_name(
                            old(self).session_mgr@,
                            run.parent@.children[run.idx as int],
                        )
                        &&& workbox_name@ == run.parent@.workbox_name
                        &&& run.current_branch@ == record_of(
                            old(self).session_mgr@,
                            run.parent@.children[run.idx as int],
                        ).branch
                    },
                    SyncNeed::RunMerge { .. } => false,
                    SyncNeed::Finished { done, skipped } => {
                        &&& run.idx == run.parent@.children.len()
                        &&& done == 0
                        &&& skipped == run.skipped
                        &&& gather_finish_store(
                            old(self).session_mgr@,
                            final(self).session_mgr@,
                            run,
                        )
                    },
                }
            }),
    {
        let parent = match self.session_mgr.load_session(parent_name) {
            Ok(p) => p,
            Err(e) => {
                return Err(e);
            },
        };
        let n = parent.children.len();
        proof {
            assert(parent@.children.len() == n);
        }
        let snapshot_parent = !dry_run && n > 0 && self.config.hp.sessions.auto_snapshot;
        let mut run = GatherRun {
            parent,
            idx: 0,
            gathered: 0,
            skipped: 0,
            dry_run,
            awaiting_merge: false,
            current_branch: String::new(),
            logged: false,
            snapshot_parent,
        };
        let need = self.gather_advance(&mut run);
        Ok((run, need))
    }

    /// Drive the gather by one answer from the workspace client. Counts
    /// change exactly as the event dictates; the store changes only when
    /// the run completes, and never on a dry run.
    pub fn gather_step(&mut self, run: &mut GatherRun, event: SyncEvent) -> (r: (
        Option<ChildStatus>,
        SyncNeed,
    ))
        requires
            old(self).session_mgr.wf(),
            old(run).inv(),
            !old(run).logged,
            old(run).idx < old(run).parent@.children.len(),
            old(run).awaiting_merge <==> event is Merge,
        ensures
            final(self).session_mgr.wf(),
            final(run).inv(),
            final(run).parent == old(run).parent,
            final(run).dry_run == old(run).dry_run,
            old(run).dry_run ==> final(self).session_mgr@ == old(self).session_mgr@ && !(
            r.1 is RunMerge),
            final(run).awaiting_merge <==> r.1 is RunMerge,
            r.1 is Finished ==> gather_finish_store(
                old(self).session_mgr@,
                final(self).session_mgr@,
                *final(run),
            ),
            !(r.1 is Finished) ==> final(self).session_mgr@ == old(self).session_mgr@,
            ({
                match event {
                    SyncEvent::Workbox(wbo) => match wbo {
                        None => {
                            &&& final(run).gathered == old(run).gathered
                            &&& final(run).idx > old(run).idx
                            &&& (r.0 matches Some(st) && (st matches ChildStatus::Skipped {
                                reason,
                            } && reason@ == "workbox not found"@))
                        },
                        Some(wb) => match gather_cmd(
                            wb@.vcs_type,
                            old(run).current_branch@,
                            old(run).parent@.branch,
                        ) {
                            None => {
                                &&& final(run).gathered == old(run).gathered
                                &&& final(run).idx > old(run).idx
                                &&& (r.0 matches Some(st) && (st matches ChildStatus::Skipped {
                                    reason,
                                } && reason@ == "Unknown VCS type: "@ + wb@.vcs_type))
                            },
                            Some(cmd) => {
                                if old(run).dry_run {
                                    &&& final(run).gathered == old(run).gathered
                                    &&& final(run).idx > old(run).idx
                                    &&& (r.0 matches Some(st) && (
                                    st matches ChildStatus::WouldRun { command } && command@
                                        == cmd))
                                } else {
                                    &&& final(run).idx == old(run).idx
                                    &&& final(run).gathered == old(run).gathered
                                    &&& final(run).skipped == old(run).skipped
                                    &&& final(run).awaiting_merge
                                    &&& r.0 is None
                                    &&& (r.1 matches SyncNeed::RunMerge {
                                        workbox_name,
                                        command,
                                        snapshot,
                                    } && workbox_name@ == old(run).parent@.workbox_name
                                        && command@ == cmd && snapshot is None)
                                }
                            },
                        },
                    },
                    SyncEvent::Merge(res) => match res {
                        Ok(output) => {
                            &&& final(run).gathered == old(run).gathered + 1
                            &&& final(run).idx > old(run).idx
                            &&& (r.0 matches Some(st) && st == (if spec_conflicted(output@) {
                                ChildStatus::Conflicted
                            } else {
                                ChildStatus::Merged
                            }))
                        },
                        Err(msg) => {
                            &&& final(run).gathered == old(run).gathered
                            &&& final(run).idx > old(run).idx
                            &&& (r.0 matches Some(st) && (st matches ChildStatus::Skipped {
                                reason,
                            } && reason@ == "Merge failed: "@ + msg@))
                        },
                    },
                }
            }),
            match r.1 {
                SyncNeed::FetchWorkbox { workbox_name } => {
                    &&& final(run).idx < final(run).parent@.children.len()
                    &&& has_name(
                        final(self).session_mgr@,
                        final(run).parent@.children[final(run).idx as int],
                    )
                    &&& workbox_name@ == final(run).parent@.workbox_name
                },
                SyncNeed::RunMerge { .. } => true,
                SyncNeed::Finished { done, skipped } => {
                    &&& final(run).idx == final(run).parent@.children.len()
                    &&& done == final(run).gathered
                    &&& skipped == final(run).skipped
                },
            },
    {
        match event {
            SyncEvent::Workbox(opt) => match opt {
                None => {
                    run.skipped = run.skipped + 1;
                    run.idx = run.idx + 1;
                    let need = self.gather_advance(run);
                    (
                        Some(
                            ChildStatus::Skipped { reason: "workbox not found".to_owned() },
                        ),
                        need,
                    )
                },
                Some(wb) => {
                    let cmd_opt = gather_command_for(
                        &wb.vcs_type,
                        &run.current_branch,
                        &run.parent.branch,
                    );
                    match cmd_opt {
                        None => {
                            run.skipped = run.skipped + 1;
                            run.idx = run.idx + 1;
                            let need = self.gather_advance(run);
                            let mut reason = "Unknown VCS type: ".to_owned();
                            reason.append(wb.vcs_type.as_str());
                            (Some(ChildStatus::Skipped { reason }), need)
                        },
                        Some(cmd) => {
                            if run.dry_run {
                                run.skipped = run.skipped + 1;
                                run.idx = run.idx + 1;
                                let need = self.gather_advance(run);
                                (Some(ChildStatus::WouldRun { command: cmd }), need)
                            } else {
                                run.awaiting_merge = true;
                                let wn = run.parent.workbox_name.clone();
                                (
                                    None,
                                    SyncNeed::RunMerge {
                                        workbox_name: wn,
                                        command: cmd,
                                        snapshot: None,
                                    },
                                )
                            }
                        },
                    }
                },
            },
            SyncEvent::Merge(res) => {
                run.awaiting_merge = false;
                match res {
                    Ok(output) => {
                        let conflicted = output_has_conflict(output.as_str());
                        run.gathered = run.gathered + 1;
                        run.idx = run.idx + 1;
                        let need = self.gather_advance(run);
                        if conflicted {
                            (Some(ChildStatus::Conflicted), need)
                        } else {
                            (Some(ChildStatus::Merged), need)
                        }
                    },
                    Err(msg) => {
                        run.skipped = run.skipped + 1;
                        run.idx = run.idx + 1;
                        let need = self.gather_advance(run);
                        let mut reason = "Merge failed: ".to_owned();
                        reason.append(msg.as_str());
                        (Some(ChildStatus::Skipped { reason }), need)
                    },
                }
            },
        }
    }
}


/// One line of the session-tree display: a session at its depth in the
/// tree.
#[derive(Debug)]
pub struct TreeLine {
    /// Depth below the displayed root.
    pub depth: usize,
    /// The session shown on this line.
    pub session: Session,
}

/// Specification-level mirror of [`TreeLine`].
pub ghost struct TreeLineV {
    pub depth: int,
    pub session: SessionV,
}

impl View for TreeLine {
    type V = TreeLineV;

    open spec fn view(&self) -> TreeLineV {
        TreeLineV { depth: self.depth as int, session: self.session@ }
    }
}

impl DeepView for TreeLine {
    type V = TreeLineV;

    open spec fn deep_view(&self) -> TreeLineV {
        self.view()
    }
}

/// The display lines of the tree rooted at `name`, depth-first in stored
/// child order, names without a record skipped, depth-bounded by `fuel`.
pub open spec fn tree_lines(
    store: Seq<SessionV>,
    name: Seq<char>,
    depth: int,
    fuel: nat,
) -> Seq<TreeLineV>
    decreases fuel, 0int,
{
    if fuel == 0 || !has_name(store, name) {
        Seq::empty()
    } else {
        seq![TreeLineV { depth, session: record_of(store, name) }] + forest_lines(
            store,
            record_of(store, name).children,
            depth + 1,
            (fuel - 1) as nat,
        )
    }
}

/// The concatenated display lines rooted at each of `names`.
pub open spec fn forest_lines(
    store: Seq<SessionV>,
    names: Seq<Seq<char>>,
    depth: int,
    fuel: nat,
) -> Seq<TreeLineV>
    decreases fuel, names.len() + 1,
{
    if names.len() == 0 {
        Seq::empty()
    } else {
        tree_lines(store, names.first(), depth, fuel) + forest_lines(
            store,
            names.drop_first(),
            depth,
            fuel,
        )
    }
}

/// Displaying one more root appends its lines.
pub proof fn lemma_forest_lines_snoc(
    store: Seq<SessionV>,
    names: Seq<Seq<char>>,
    c: Seq<char>,
    depth: int,
    fuel: nat,
)
    ensures
        forest_lines(store, names.push(c), depth, fuel) == forest_lines(store, names, depth, fuel)
            + tree_lines(store, c, depth, fuel),
    decreases names.len(),
{
    if names.len() == 0 {
        assert(names.push(c).first() == c);
        assert(names.push(c).drop_first() =~= Seq::<Seq<char>>::empty());
        assert(forest_lines(store, names.push(c), depth, fuel) == tree_lines(
            store,
            c,
            depth,
            fuel,
        ) + forest_lines(store, names.push(c).drop_first(), depth, fuel));
        assert(forest_lines(store, names.push(c).drop_first(), depth, fuel)
            == Seq::<TreeLineV>::empty());
        assert(forest_lines(store, names, depth, fuel) == Seq::<TreeLineV>::empty());
        assert(forest_lines(store, names.push(c), depth, fuel) =~= forest_lines(
            store,
            names,
            depth,
            fuel,
        ) + tree_lines(store, c, depth, fuel));
    } else {
        assert(names.push(c).first() == names.first());
        assert(names.push(c).drop_first() =~= names.drop_first().push(c));
        lemma_forest_lines_snoc(store, names.drop_first(), c, depth, fuel);
        assert(forest_lines(store, names.push(c), depth, fuel) == tree_lines(
            store,
            names.first(),
            depth,
            fuel,
        ) + forest_lines(store, names.drop_first().push(c), depth, fuel));
        assert(forest_lines(store, names.drop_first().push(c), depth, fuel) == forest_lines(
            store,
            names.drop_first(),
            depth,
            fuel,
        ) + tree_lines(store, c, depth, fuel));
        assert(forest_lines(store, names, depth, fuel) == tree_lines(
            store,
            names.first(),
            depth,
            fuel,
        ) + forest_lines(store, names.drop_first(), depth, fuel));
        assert(forest_lines(store, names.push(c), depth, fuel) =~= forest_lines(
            store,
            names,
            depth,
            fuel,
        ) + tree_lines(store, c, depth, fuel));
    }
}

/// The display lines for every parent-less session of `ord`, in order.
pub open spec fn roots_lines(store: Seq<SessionV>, ord: Seq<SessionV>, fuel: nat) -> Seq<
    TreeLineV,
>
    decreases ord.len(),
{
    if ord.len() == 0 {
        Seq::empty()
    } else {
        (if ord.first().parent is None {
            tree_lines(store, ord.first().name, 0, fuel)
        } else {
            Seq::empty()
        }) + roots_lines(store, ord.drop_first(), fuel)
    }
}

/// Displaying one more session appends its lines when it is a root.
pub proof fn lemma_roots_lines_snoc(
    store: Seq<SessionV>,
    ord: Seq<SessionV>,
    s: SessionV,
    fuel: nat,
)
    ensures
        roots_lines(store, ord.push(s), fuel) == roots_lines(store, ord, fuel) + (
        if s.parent is None {
            tree_lines(store, s.name, 0, fuel)
        } else {
            Seq::<TreeLineV>::empty()
        }),
    decreases ord.len(),
{
    let tail = if s.parent is None {
        tree_lines(store, s.name, 0, fuel)
    } else {
        Seq::<TreeLineV>::empty()
    };
    if ord.len() == 0 {
        assert(ord.push(s).first() == s);
        assert(ord.push(s).drop_first() =~= Seq::<SessionV>::empty());
        assert(roots_lines(store, ord.push(s).drop_first(), fuel) == Seq::<TreeLineV>::empty());
        assert(roots_lines(store, ord, fuel) == Seq::<TreeLineV>::empty());
        assert(roots_lines(store, ord.push(s), fuel) =~= roots_lines(store, ord, fuel) + tail);
    } else {
        assert(ord.push(s).first() == ord.first());
        assert(ord.push(s).drop_first() =~= ord.drop_first().push(s));
        lemma_roots_lines_snoc(store, ord.drop_first(), s, fuel);
        assert(roots_lines(store, ord.push(s), fuel) =~= roots_lines(store, ord, fuel) + tail);
    }
}

impl Orchestrator {
    /// Collect the display lines rooted at `name`.
    fn collect_lines(&self, name: &str, depth: usize, fuel: usize) -> (r: Vec<TreeLine>)
        requires
            self.session_mgr.wf(),
            depth + fuel <= usize::MAX,
        ensures
            r.deep_view() == tree_lines(self.session_mgr@, name@, depth as int, fuel as nat),
        decreases fuel,
    {
        let mut out: Vec<TreeLine> = Vec::new();
        if fuel == 0 {
            proof {
                assert(out.deep_view() =~= tree_lines(
                    self.session_mgr@,
                    name@,
                    depth as int,
                    fuel as nat,
                ));
            }
            return out;
        }
        let root = match self.session_mgr.load_session(name) {
            Ok(s) => s,
            Err(_) => {
                proof {
                    assert(out.deep_view() =~= tree_lines(
                        self.session_mgr@,
                        name@,
                        depth as int,
                        fuel as nat,
                    ));
                }
                return out;
            },
        };
        out.push(TreeLine { depth, session: root.clone() });
        proof {
            assert(out.deep_view() =~= seq![
                TreeLineV { depth: depth as int, session: record_of(self.session_mgr@, name@) },
            ] + forest_lines(
                self.session_mgr@,
                root@.children.subrange(0, 0),
                depth + 1,
                (fuel - 1) as nat,
            ));
        }
        let n = root.children.len();
        let mut k: usize = 0;
        while k < n
            invariant
                self.session_mgr.wf(),
                k <= n,
                n == root.children@.len(),
                root@ == record_of(self.session_mgr@, name@),
                fuel >= 1,
                depth + fuel <= usize::MAX,
                out.deep_view() =~= seq![
                    TreeLineV {
                        depth: depth as int,
                        session: record_of(self.session_mgr@, name@),
                    },
                ] + forest_lines(
                    self.session_mgr@,
                    root@.children.subrange(0, k as int),
                    depth + 1,
                    (fuel - 1) as nat,
                ),
            decreases n - k,
        {
            let ghost out0 = out.deep_view();
            let mut sub = self.collect_lines(root.children[k].as_str(), depth + 1, fuel - 1);
            out.append(&mut sub);
            proof {
                assert(out.deep_view() =~= out0 + tree_lines(
                    self.session_mgr@,
                    root@.children[k as int],
                    depth + 1,
                    (fuel - 1) as nat,
                ));
                assert(root@.children.subrange(0, k + 1 as int) =~= root@.children.subrange(
                    0,
                    k as int,
                ).push(root@.children[k as int]));
                lemma_forest_lines_snoc(
                    self.session_mgr@,
                    root@.children.subrange(0, k as int),
                    root@.children[k as int],
                    depth + 1,
                    (fuel - 1) as nat,
                );
            }
            k = k + 1;
        }
        proof {
            assert(root@.children.subrange(0, n as int) =~= root@.children);
            assert(out.deep_view() =~= tree_lines(
                self.session_mgr@,
                name@,
                depth as int,
                fuel as nat,
            ));
        }
        out
    }

    /// The session-tree display: the lines of the tree rooted at the named
    /// session, or — with no root given — of every parent-less session, in
    /// most-recently-active order.
    pub fn show_tree(&self, root_name: Option<String>) -> (r: Result<Vec<TreeLine>, Error>)
        requires
            self.session_mgr.wf(),
        ensures
            root_name matches Some(name) ==> {
                &&& r is Ok <==> has_name(self.session_mgr@, name@)
                &&& (r matches Ok(v) ==> v.deep_view() == tree_lines(
                    self.session_mgr@,
                    name@,
                    0,
                    self.session_mgr@.len() as nat,
                ))
                &&& (r matches Err(e) ==> e matches Error::SessionNotFound(n) && n@ == name@)
            },
            root_name is None ==> (r matches Ok(v) && exists|ord: Seq<SessionV>|
                {
                    &&& #[trigger] ord.to_multiset() == self.session_mgr@.to_multiset()
                    &&& crate::session::sorted_by_last_active_desc(ord)
                    &&& v.deep_view() == roots_lines(
                        self.session_mgr@,
                        ord,
                        self.session_mgr@.len() as nat,
                    )
                }),
    {
        let fuel = self.session_mgr.store_len();
        match root_name {
            Some(name) => {
                if !self.session_mgr.session_exists(name.as_str()) {
                    return Err(Error::SessionNotFound(name));
                }
                Ok(self.collect_lines(name.as_str(), 0, fuel))
            },
            None => {
                let all = self.session_mgr.list_sessions();
                let ghost ord = all.deep_view();
                let n = all.len();
                let mut out: Vec<TreeLine> = Vec::new();
                let mut i: usize = 0;
                proof {
                    assert(out.deep_view() =~= roots_lines(
                        self.session_mgr@,
                        ord.subrange(0, 0),
                        fuel as nat,
                    ));
                }
                while i < n
                    invariant
                        self.session_mgr.wf(),
                        i <= n,
                        n == all@.len(),
                        ord == all.deep_view(),
                        fuel + 0 <= usize::MAX,
                        out.deep_view() =~= roots_lines(
                            self.session_mgr@,
                            ord.subrange(0, i as int),
                            fuel as nat,
                        ),
                    decreases n - i,
                {
                    let ghost prefix = ord.subrange(0, i as int);
                    let ghost out0 = out.deep_view();
                    if all[i].parent.is_none() {
                        let mut sub = self.collect_lines(all[i].name.as_str(), 0, fuel);
                        out.append(&mut sub);
                        proof {
                            assert(out.deep_view() =~= out0 + tree_lines(
                                self.session_mgr@,
                                ord[i as int].name,
                                0,
                                fuel as nat,
                            ));
                        }
                    }
                    proof {
                        assert(ord.subrange(0, i + 1 as int) =~= prefix.push(ord[i as int]));
                        lemma_roots_lines_snoc(
                            self.session_mgr@,
                            prefix,
                            ord[i as int],
                            fuel as nat,
                        );
                    }
                    i = i + 1;
                }
                proof {
                    assert(ord.subrange(0, n as int) =~= ord);
                }
                Ok(out)
            },
        }
    }
}

} // verus!
