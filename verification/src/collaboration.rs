//! Session collaboration: handoff, cloning for parallel work, and the
//! collaboration-merge that converges several sessions into one target.
//!
//! The merge runs one version-control command per source inside the
//! target's workbox, so it is driven as a step machine like cascade and
//! gather. Unlike gather, a source whose merge ran is dropped from the
//! target's child list, whatever the conflict outcome; and a source whose
//! record cannot be loaded aborts the whole operation with nothing stored.

use vstd::prelude::*;
use vstd::string::StringExecFns;
use crate::config::Config;
use crate::error::Error;
use crate::models::keeps_other;
use crate::models::ActivityType;
use crate::models::Session;
use crate::models::SessionStatus;
use crate::models::SessionV;
use crate::models::WorkboxInfo;
use crate::orchestration::output_has_conflict;
use crate::orchestration::spec_conflicted;
use crate::orchestration::ChildStatus;
use crate::session::has_name;
use crate::session::record_of;
use crate::session::spec_save;
use crate::session::with_activity;
use crate::session::SessionManager;
use crate::text;

verus! {

/// The activity and note text recorded on a handoff.
pub open spec fn handoff_details(user: Seq<char>) -> Seq<char> {
    "Handed off to "@ + user
}

/// The activity text recorded on a collaboration clone.
pub open spec fn collab_cloned_details(source: Seq<char>) -> Seq<char> {
    "Cloned from "@ + source
}

/// The activity text recorded on the target of a collaboration merge.
pub open spec fn integrated_details(sources: int) -> Seq<char> {
    "Merged "@ + text::spec_decimal(sources) + " sessions"@
}

/// The merge command for one source branch under the given strategy; any
/// unrecognised strategy falls back to a plain merge.
pub open spec fn strategy_cmd(strategy: Seq<char>, branch: Seq<char>) -> Seq<char> {
    if strategy == "squash"@ {
        "git merge --squash "@ + branch
    } else if strategy == "no-ff"@ {
        "git merge --no-ff "@ + branch
    } else {
        "git merge "@ + branch
    }
}

/// A session record after a handoff: paused, with a note naming the new
/// owner and a `StatusChanged` entry.
pub open spec fn handed_off(s: SessionV, user: Seq<char>, t: i64) -> SessionV {
    with_activity(
        SessionV { status: SessionStatus::Paused, notes: handoff_details(user), ..s },
        t,
        ActivityType::StatusChanged,
        handoff_details(user),
    )
}

/// What the embedding program must do next to drive a collaboration merge.
#[derive(Debug)]
pub enum MergeNeed {
    /// Run this shell command inside this workbox.
    RunMerge { workbox_name: String, command: String },
    /// Nothing: the merge is complete.
    Finished,
}

/// An in-progress collaboration merge: each named source session's branch
/// merges into the target's workbox in turn; a source whose merge ran is
/// dropped from the target's child list; and the target is stored once, at
/// the end, with one `Integrated` entry.
pub struct MergeRun {
    /// The target record as it evolves in memory; stored only at the end.
    pub target: Session,
    /// The source session names, merged in order.
    pub sources: Vec<String>,
    /// The merge strategy tag.
    pub strategy: String,
    /// Position of the source currently being processed.
    pub idx: usize,
    /// Whether the final `Integrated` entry has been recorded.
    pub logged: bool,
}

impl MergeRun {
    /// The machine invariant.
    pub open spec fn inv(&self) -> bool {
        &&& self.sources@.len() <= usize::MAX
        &&& self.idx <= self.sources@.len()
        &&& self.logged ==> self.idx == self.sources@.len()
    }
}

/// Collaboration manager: handoff, clone, and the collaboration merge.
pub struct CollaborationManager {
    /// The configuration the manager was created with.
    pub config: Config,
    /// The session store the manager works on.
    pub session_mgr: SessionManager,
}

impl CollaborationManager {
    /// Create a new collaboration manager with an empty store.
    pub fn new(config: Config) -> (r: Result<Self, Error>)
        ensures
            r matches Ok(m) && m.session_mgr.wf() && m.session_mgr@.len() == 0,
    {
        let session_mgr = SessionManager::new(Config { hp: config.hp.clone() });
        Ok(CollaborationManager { config, session_mgr })
    }

    /// Hand a session off to another operator: the session is paused, its
    /// notes name the new owner, one `StatusChanged` entry is appended, and
    /// the record is stored. The handoff notes file is the caller's step,
    /// taken before this one.
    pub fn handoff(&mut self, session_name: &str, to_user: &str) -> (r: Result<(), Error>)
        requires
            old(self).session_mgr.wf(),
        ensures
            final(self).session_mgr.wf(),
            r is Ok <==> has_name(old(self).session_mgr@, session_name@),
            r matches Err(e) ==> final(self).session_mgr@ == old(self).session_mgr@ && (
            e matches Error::SessionNotFound(n) && n@ == session_name@),
            r is Ok ==> final(self).session_mgr@ == spec_save(
                old(self).session_mgr@,
                handed_off(
                    record_of(old(self).session_mgr@, session_name@),
                    to_user@,
                    record_of(final(self).session_mgr@, session_name@).last_active,
                ),
            ),
    {
        let mut session = match self.session_mgr.load_session(session_name) {
            Ok(s) => s,
            Err(e) => {
                return Err(e);
            },
        };
        session.status = SessionStatus::Paused;
        let mut note = "Handed off to ".to_owned();
        note.append(to_user);
        proof {
            assert(note@ =~= handoff_details(to_user@));
        }
        let mut d = "Handed off to ".to_owned();
        d.append(to_user);
        proof {
            assert(d@ =~= handoff_details(to_user@));
        }
        session.notes = note;
        session.log_activity(ActivityType::StatusChanged, d);
        let ghost t = session@.last_active;
        self.session_mgr.save_session(&session);
        proof {
            crate::session::lemma_save_wf(old(self).session_mgr@, session@);
            assert(record_of(final(self).session_mgr@, session_name@).last_active == t);
        }
        Ok(())
    }

    /// Check a clone request and say which workbox to provision: the source
    /// must exist, the new name must be free, and the new workbox is the
    /// new name prefixed with `hp-`, created from the source's branch.
    pub fn clone_request(&self, source_name: &str, new_name: &str) -> (r: Result<
        (String, String),
        Error,
    >)
        requires
            self.session_mgr.wf(),
        ensures
            r is Ok <==> has_name(self.session_mgr@, source_name@) && !has_name(
                self.session_mgr@,
                new_name@,
            ),
            !has_name(self.session_mgr@, source_name@) ==> (r matches Err(e) && (
            e matches Error::SessionNotFound(n) && n@ == source_name@)),
            has_name(self.session_mgr@, source_name@) && has_name(self.session_mgr@, new_name@)
                ==> (r matches Err(e) && (e matches Error::SessionAlreadyExists(n) && n@
                == new_name@)),
            r matches Ok(p) ==> p.0@ == "hp-"@ + new_name@ && p.1@ == record_of(
                self.session_mgr@,
                source_name@,
            ).branch,
    {
        let source = match self.session_mgr.load_session(source_name) {
            Ok(s) => s,
            Err(e) => {
                return Err(e);
            },
        };
        if self.session_mgr.session_exists(new_name) {
            return Err(Error::SessionAlreadyExists(new_name.to_owned()));
        }
        let mut wb = "hp-".to_owned();
        wb.append(new_name);
        Ok((wb, source.branch))
    }

    /// Clone a session for parallel work over a freshly provisioned
    /// workbox: a new record copies the source's agent type and base
    /// settings, starts with a fresh identifier, timestamps and activity
    /// log, and — unless it diverges — names the source as its parent. A
    /// diverging clone's branch is the source branch with the new name
    /// appended.
    pub fn clone_session(
        &mut self,
        source_name: &str,
        new_name: &str,
        diverge: bool,
        workbox: &WorkboxInfo,
    ) -> (r: Result<Session, Error>)
        requires
            old(self).session_mgr.wf(),
        ensures
            final(self).session_mgr.wf(),
            r is Ok <==> has_name(old(self).session_mgr@, source_name@) && !has_name(
                old(self).session_mgr@,
                new_name@,
            ),
            r is Err ==> final(self).session_mgr@ == old(self).session_mgr@,
            !has_name(old(self).session_mgr@, source_name@) ==> (r matches Err(e) && (
            e matches Error::SessionNotFound(n) && n@ == source_name@)),
            has_name(old(self).session_mgr@, source_name@) && has_name(
                old(self).session_mgr@,
                new_name@,
            ) ==> (r matches Err(e) && (e matches Error::SessionAlreadyExists(n) && n@
                == new_name@)),
            r matches Ok(s) ==> ({
                let src = record_of(old(self).session_mgr@, source_name@);
                &&& s@.name == new_name@
                &&& s@.agent_type == src.agent_type
                &&& s@.workbox_name == workbox@.name
                &&& s@.workbox_path == workbox@.path
                &&& s@.branch == (if diverge {
                    src.branch + "-"@ + new_name@
                } else {
                    src.branch
                })
                &&& s@.base_branch == src.base_branch
                &&& s@.repo_name == src.repo_name
                &&& s@.vcs_type == workbox@.vcs_type
                &&& s@.status == SessionStatus::Active
                &&& s@.parent == (if diverge {
                    Option::<Seq<char>>::None
                } else {
                    Some(source_name@)
                })
                &&& s@.children.len() == 0
                &&& s@.activity_log.len() == 1
                &&& s@.activity_log[0].event_type == ActivityType::SessionCreated
                &&& s@.activity_log[0].details == collab_cloned_details(source_name@)
                &&& s@.id.len() == 36
                &&& final(self).session_mgr@ == spec_save(old(self).session_mgr@, s@)
            }),
    {
        let source = match self.session_mgr.load_session(source_name) {
            Ok(s) => s,
            Err(e) => {
                return Err(e);
            },
        };
        if self.session_mgr.session_exists(new_name) {
            return Err(Error::SessionAlreadyExists(new_name.to_owned()));
        }
        let new_branch = if diverge {
            let mut b = source.branch.clone();
            b.append("-");
            b.append(new_name);
            b
        } else {
            source.branch.clone()
        };
        let mut session = Session::new(
            new_name.to_owned(),
            source.agent_type.clone(),
            workbox.name.clone(),
            workbox.path.clone(),
            new_branch,
            source.base_branch.clone(),
            source.repo_name.clone(),
            workbox.vcs_type.clone(),
        );
        if !diverge {
            session.parent = Some(source_name.to_owned());
        }
        let mut d = "Cloned from ".to_owned();
        d.append(source_name);
        proof {
            assert(d@ =~= collab_cloned_details(source_name@));
        }
        session.log_activity(ActivityType::SessionCreated, d);
        self.session_mgr.save_session(&session);
        Ok(session)
    }

    /// Record the final `Integrated` entry and store the target, then say
    /// the run is finished; or emit the next merge command. A source whose
    /// record cannot be loaded aborts the whole run with nothing stored.
    fn merge_advance(&mut self, run: &mut MergeRun) -> (r: Result<MergeNeed, Error>)
        requires
            old(self).session_mgr.wf(),
            old(run).inv(),
            !old(run).logged,
        ensures
            final(self).session_mgr.wf(),
            final(run).inv(),
            final(run).target == old(run).target,
            final(run).sources == old(run).sources,
            final(run).strategy == old(run).strategy,
            final(run).idx == old(run).idx,
            r is Err <==> old(run).idx < old(run).sources@.len() && !has_name(
                old(self).session_mgr@,
                old(run).sources@[old(run).idx as int].deep_view(),
            ),
            r matches Err(e) ==> final(self).session_mgr@ == old(self).session_mgr@ && (
            e matches Error::SessionNotFound(n) && n@ == old(run).sources@[old(
                run,
            ).idx as int].deep_view()) && old(run).idx < old(run).sources@.len(),
            r matches Ok(need) ==> match need {
                MergeNeed::RunMerge { workbox_name, command } => {
                    &&& final(self).session_mgr@ == old(self).session_mgr@
                    &&& !final(run).logged
                    &&& final(run).idx < final(run).sources@.len()
                    &&& workbox_name@ == final(run).target@.workbox_name
                    &&& command@ == strategy_cmd(
                        final(run).strategy@,
                        record_of(
                            old(self).session_mgr@,
                            final(run).sources@[final(run).idx as int].deep_view(),
                        ).branch,
                    )
                },
                MergeNeed::Finished => {
                    &&& final(run).idx == final(run).sources@.len()
                    &&& final(run).logged
                    &&& final(self).session_mgr@ == spec_save(
                        old(self).session_mgr@,
                        with_activity(
                            old(run).target@,
                            record_of(
                                final(self).session_mgr@,
                                old(run).target@.name,
                            ).last_active,
                            ActivityType::Integrated,
                            integrated_details(old(run).sources@.len() as int),
                        ),
                    )
                },
            },
    {
        if run.idx < run.sources.len() {
            let source = match self.session_mgr.load_session(run.sources[run.idx].as_str()) {
                Ok(s) => s,
                Err(e) => {
                    return Err(e);
                },
            };
            let command = strategy_command_for(&run.strategy, &source.branch);
            Ok(
                MergeNeed::RunMerge {
                    workbox_name: run.target.workbox_name.clone(),
                    command,
                },
            )
        } else {
            let mut target = run.target.clone();
            let count = run.sources.len() as u64;
            let mut d = "Merged ".to_owned();
            let num = text::u64_to_string(count);
            d.append(num.as_str());
            d.append(" sessions");
            proof {
                assert(d@ =~= integrated_details(run.sources@.len() as int));
            }
            target.log_activity(ActivityType::Integrated, d);
            let ghost t = target@.last_active;
            self.session_mgr.save_session(&target);
            proof {
                crate::session::lemma_save_wf(old(self).session_mgr@, target@);
                assert(record_of(final(self).session_mgr@, run.target@.name).last_active == t);
            }
            run.logged = true;
            Ok(MergeNeed::Finished)
        }
    }

    /// Begin a collaboration merge of the named sources into the target.
    /// The returned need drives the run; no sources means the target is
    /// stored at once with its `Integrated` entry.
    pub fn merge_sessions(&mut self, target: &str, sources: Vec<String>, strategy: &str) -> (r:
        Result<(MergeRun, MergeNeed), Error>)
        requires
            old(self).session_mgr.wf(),
        ensures
            final(self).session_mgr.wf(),
            r is Ok <==> has_name(old(self).session_mgr@, target@) && (sources@.len() == 0
                || has_name(old(self).session_mgr@, sources@[0].deep_view())),
            !has_name(old(self).session_mgr@, target@) ==> (r matches Err(e) && (
            e matches Error::SessionNotFound(n) && n@ == target@) && final(self).session_mgr@
                == old(self).session_mgr@),
            (has_name(old(self).session_mgr@, target@) && sources@.len() > 0 && !has_name(
                old(self).session_mgr@,
                sources@[0].deep_view(),
            )) ==> (r matches Err(e) && (e matches Error::SessionNotFound(n) && n@ == sources@[
                0
            ].deep_view()) && final(self).session_mgr@ == old(self).session_mgr@),
            r matches Ok(p) ==> ({
                let run = p.0;
                &&& run.inv()
                &&& run.target@ == record_of(old(self).session_mgr@, target@)
                &&& run.strategy@ == strategy@
                &&& run.sources@ == sources@
                &&& run.idx == 0
                &&& match p.1 {
                    MergeNeed::RunMerge { workbox_name, command } => {
                        &&& sources@.len() > 0
                        &&& !run.logged
                        &&& final(self).session_mgr@ == old(self).session_mgr@
                        &&& workbox_name@ == record_of(old(self).session_mgr@, target@).workbox_name
                        &&& command@ == strategy_cmd(
                            strategy@,
                            record_of(old(self).session_mgr@, sources@[0].deep_view()).branch,
                        )
                    },
                    MergeNeed::Finished => {
                        &&& sources@.len() == 0
                        &&& run.logged
                        &&& final(self).session_mgr@ == spec_save(
                            old(self).session_mgr@,
                            with_activity(
                                record_of(old(self).session_mgr@, target@),
                                record_of(final(self).session_mgr@, target@).last_active,
                                ActivityType::Integrated,
                                integrated_details(sources@.len() as int),
                            ),
                        )
                    },
                }
            }),
    {
        let tgt = match self.session_mgr.load_session(target) {
            Ok(t) => t,
            Err(e) => {
                return Err(e);
            },
        };
        let n = sources.len();
        let mut run = MergeRun {
            target: tgt,
            sources,
            strategy: strategy.to_owned(),
            idx: 0,
            logged: false,
        };
        proof {
            assert(run.sources@.len() == n);
        }
        let need = match self.merge_advance(&mut run) {
            Ok(need) => need,
            Err(e) => {
                return Err(e);
            },
        };
        Ok((run, need))
    }

    /// Drive the merge by one command outcome. A merge that ran — cleanly
    /// or with conflicts — drops the source from the target's child list; a
    /// failed command leaves the list alone. Either way the run moves to
    /// the next source.
    pub fn merge_step(&mut self, run: &mut MergeRun, outcome: Result<String, String>) -> (r:
        Result<(ChildStatus, MergeNeed), Error>)
        requires
            old(self).session_mgr.wf(),
            old(run).inv(),
            !old(run).logged,
            old(run).idx < old(run).sources@.len(),
        ensures
            final(self).session_mgr.wf(),
            final(run).inv(),
            final(run).sources == old(run).sources,
            final(run).strategy == old(run).strategy,
            ({
                let src_name = old(run).sources@[old(run).idx as int].deep_view();
                match outcome {
                    Ok(output) => {
                        &&& final(run).target@ == (SessionV {
                            children: old(run).target@.children.filter(keeps_other(src_name)),
                            ..old(run).target@
                        })
                        &&& (r matches Ok(p) ==> p.0 == (if spec_conflicted(output@) {
                            ChildStatus::Conflicted
                        } else {
                            ChildStatus::Merged
                        }))
                    },
                    Err(msg) => {
                        &&& final(run).target == old(run).target
                        &&& (r matches Ok(p) ==> (p.0 matches ChildStatus::Skipped { reason }
                            && reason@ == "Merge failed: "@ + msg@))
                    },
                }
            }),
            final(run).idx == old(run).idx + 1,
            r is Ok <==> old(run).idx + 1 == old(run).sources@.len() || has_name(
                old(self).session_mgr@,
                old(run).sources@[old(run).idx + 1].deep_view(),
            ),
            r matches Err(e) ==> final(self).session_mgr@ == old(self).session_mgr@ && (
            e matches Error::SessionNotFound(n) && n@ == old(run).sources@[old(run).idx
                + 1].deep_view()),
            r matches Ok(p) ==> match p.1 {
                MergeNeed::RunMerge { workbox_name, command } => {
                    &&& final(self).session_mgr@ == old(self).session_mgr@
                    &&& !final(run).logged
                    &&& final(run).idx < final(run).sources@.len()
                    &&& workbox_name@ == final(run).target@.workbox_name
                    &&& command@ == strategy_cmd(
                        final(run).strategy@,
                        record_of(
                            old(self).session_mgr@,
                            final(run).sources@[final(run).idx as int].deep_view(),
                        ).branch,
                    )
                },
                MergeNeed::Finished => {
                    &&& final(run).idx == final(run).sources@.len()
                    &&& final(self).session_mgr@ == spec_save(
                        old(self).session_mgr@,
                        with_activity(
                            final(run).target@,
                            record_of(
                                final(self).session_mgr@,
                                final(run).target@.name,
                            ).last_active,
                            ActivityType::Integrated,
                            integrated_details(final(run).sources@.len() as int),
                        ),
                    )
                },
            },
    {
        let status = match outcome {
            Ok(output) => {
                let conflicted = output_has_conflict(output.as_str());
                run.target.remove_child(run.sources[run.idx].as_str());
                if conflicted {
                    ChildStatus::Conflicted
                } else {
                    ChildStatus::Merged
                }
            },
            Err(msg) => {
                let mut reason = "Merge failed: ".to_owned();
                reason.append(msg.as_str());
                ChildStatus::Skipped { reason }
            },
        };
        run.idx = run.idx + 1;
        match self.merge_advance(run) {
            Ok(need) => Ok((status, need)),
            Err(e) => Err(e),
        }
    }
}

/// Select the merge command for one source branch under the given
/// strategy.
fn strategy_command_for(strategy: &String, branch: &String) -> (r: String)
    ensures
        r@ == strategy_cmd(strategy@, branch@),
{
    if text::str_eq(strategy.as_str(), "squash") {
        let mut c = "git merge --squash ".to_owned();
        c.append(branch.as_str());
        c
    } else if text::str_eq(strategy.as_str(), "no-ff") {
        let mut c = "git merge --no-ff ".to_owned();
        c.append(branch.as_str());
        c
    } else {
        let mut c = "git merge ".to_owned();
        c.append(branch.as_str());
        c
    }
}

} // verus!
