//! The shepherd workflow: resolving PR review comments. The interactive
//! walk and the analysis file live in the embedding program; the batch
//! heuristic and the comment bookkeeping are decided here.

use vstd::prelude::*;
use vstd::string::StringExecFns;
use crate::config::Config;
use crate::error::Error;
use crate::external;
use crate::models::ActivityType;
use crate::models::ReviewComment;
use crate::models::ReviewCommentV;
use crate::models::SessionV;
use crate::session::has_name;
use crate::session::record_of;
use crate::session::spec_save;
use crate::session::SessionManager;
use crate::text;

verus! {

/// The batch heuristic: with automatic fixing on, a comment whose
/// case-folded body mentions a typo, naming or formatting is marked for a
/// fix; every other comment is deferred.
pub open spec fn batch_fix(c: ReviewCommentV, auto_fix: bool) -> bool {
    auto_fix && (text::contains_seq(external::lower_of(c.body), "typo"@) || text::contains_seq(
        external::lower_of(c.body),
        "naming"@,
    ) || text::contains_seq(external::lower_of(c.body), "formatting"@))
}

/// A comment after the batch pass: fixed comments count as resolved,
/// deferred ones as unresolved.
pub open spec fn batch_comment(auto_fix: bool) -> spec_fn(ReviewCommentV) -> ReviewCommentV {
    |c: ReviewCommentV| ReviewCommentV { resolved: batch_fix(c, auto_fix), ..c }
}

/// The comments the batch pass marks for a fix.
pub open spec fn batch_fix_pred(auto_fix: bool) -> spec_fn(ReviewCommentV) -> bool {
    |c: ReviewCommentV| batch_fix(c, auto_fix)
}

/// The activity text recorded after a batch pass.
pub open spec fn batch_details(fixed: int, deferred: int) -> Seq<char> {
    "Batch processed: "@ + text::spec_decimal(fixed) + " fixed, "@ + text::spec_decimal(deferred)
        + " deferred"@
}

/// Shepherd workflow manager.
pub struct Shepherd {
    /// The configuration the manager was created with.
    pub config: Config,
    /// The session store the manager works on.
    pub session_mgr: SessionManager,
}

impl Shepherd {
    /// Create a new shepherd manager with an empty store.
    pub fn new(config: Config) -> (r: Result<Self, Error>)
        ensures
            r matches Ok(m) && m.session_mgr.wf() && m.session_mgr@.len() == 0,
    {
        let session_mgr = SessionManager::new(Config { hp: config.hp.clone() });
        Ok(Shepherd { config, session_mgr })
    }

    /// Process every unresolved comment in batch mode: each is marked fixed
    /// or deferred by the heuristic, one `ShepherdRun` entry is appended,
    /// and the record is stored. A session without comments is left as it
    /// is. Returns how many comments were fixed and deferred.
    pub fn run_batch(&mut self, session_name: &str, auto_fix: bool) -> (r: Result<
        (u64, u64),
        Error,
    >)
        requires
            old(self).session_mgr.wf(),
        ensures
            final(self).session_mgr.wf(),
            r is Ok <==> has_name(old(self).session_mgr@, session_name@),
            r matches Err(e) ==> final(self).session_mgr@ == old(self).session_mgr@ && (
            e matches Error::SessionNotFound(n) && n@ == session_name@),
            r matches Ok(counts) ==> ({
                let rec = record_of(old(self).session_mgr@, session_name@);
                let fixed = rec.unresolved_comments.filter(batch_fix_pred(auto_fix)).len() as int;
                let deferred = rec.unresolved_comments.len() - fixed;
                &&& counts.0 == fixed
                &&& counts.1 == deferred
                &&& (rec.unresolved_comments.len() == 0 ==> final(self).session_mgr@ == old(
                    self,
                ).session_mgr@)
                &&& (rec.unresolved_comments.len() > 0 ==> final(self).session_mgr@ == spec_save(
                    old(self).session_mgr@,
                    (SessionV {
                        unresolved_comments: rec.unresolved_comments.map_values(
                            batch_comment(auto_fix),
                        ),
                        last_active: record_of(
                            final(self).session_mgr@,
                            session_name@,
                        ).last_active,
                        activity_log: rec.activity_log.push(
                            crate::models::ActivityEventV {
                                timestamp: record_of(
                                    final(self).session_mgr@,
                                    session_name@,
                                ).last_active,
                                event_type: ActivityType::ShepherdRun,
                                details: batch_details(fixed, deferred),
                            },
                        ),
                        ..rec
                    }),
                ))
            }),
    {
        let mut session = match self.session_mgr.load_session(session_name) {
            Ok(s) => s,
            Err(e) => {
                return Err(e);
            },
        };
        let n = session.unresolved_comments.len();
        if n == 0 {
            proof {
                assert(record_of(old(self).session_mgr@, session_name@).unresolved_comments.filter(
                    batch_fix_pred(auto_fix),
                ) =~= Seq::<ReviewCommentV>::empty()) by {
                    reveal(Seq::filter);
                }
            }
            return Ok((0, 0));
        }
        let ghost comments0 = session@.unresolved_comments;
        let mut updated: Vec<ReviewComment> = Vec::new();
        let mut fixed: u64 = 0;
        let mut i: usize = 0;
        while i < n
            invariant
                i <= n,
                n == session.unresolved_comments@.len(),
                comments0 == session@.unresolved_comments,
                updated.deep_view() =~= comments0.subrange(0, i as int).map_values(
                    batch_comment(auto_fix),
                ),
                fixed == comments0.subrange(0, i as int).filter(batch_fix_pred(auto_fix)).len(),
            decreases n - i,
        {
            let ghost prefix = comments0.subrange(0, i as int);
            let mut c = session.unresolved_comments[i].clone();
            let body_low = external::to_lowercase(c.body.as_str());
            let should_fix = auto_fix && (text::str_contains_sub(body_low.as_str(), "typo")
                || text::str_contains_sub(body_low.as_str(), "naming") || text::str_contains_sub(
                body_low.as_str(),
                "formatting",
            ));
            c.resolved = should_fix;
            if should_fix {
                fixed = fixed + 1;
            }
            updated.push(c);
            proof {
                assert(comments0.subrange(0, i + 1 as int) =~= prefix.push(
                    comments0[i as int],
                ));
                crate::models::lemma_filter_push(
                    prefix,
                    batch_fix_pred(auto_fix),
                    comments0[i as int],
                );
                assert((prefix.push(comments0[i as int])).map_values(batch_comment(auto_fix))
                    =~= prefix.map_values(batch_comment(auto_fix)).push(
                    batch_comment(auto_fix)(comments0[i as int]),
                ));
                assert(c@ == batch_comment(auto_fix)(comments0[i as int]));
            }
            i = i + 1;
        }
        proof {
            assert(comments0.subrange(0, n as int) =~= comments0);
            comments0.lemma_filter_len(batch_fix_pred(auto_fix));
        }
        let deferred = (n as u64) - fixed;
        session.unresolved_comments = updated;
        let mut d = "Batch processed: ".to_owned();
        let fs = text::u64_to_string(fixed);
        d.append(fs.as_str());
        d.append(" fixed, ");
        let ds = text::u64_to_string(deferred);
        d.append(ds.as_str());
        d.append(" deferred");
        proof {
            assert(d@ =~= batch_details(fixed as int, deferred as int));
        }
        session.log_activity(ActivityType::ShepherdRun, d);
        let ghost t = session@.last_active;
        self.session_mgr.save_session(&session);
        proof {
            crate::session::lemma_save_wf(old(self).session_mgr@, session@);
            assert(record_of(final(self).session_mgr@, session_name@).last_active == t);
        }
        Ok((fixed, deferred))
    }

    /// Count a session's resolved and pending comments.
    pub fn show_status(&self, session_name: &str) -> (r: Result<(u64, u64), Error>)
        requires
            self.session_mgr.wf(),
        ensures
            r is Ok <==> has_name(self.session_mgr@, session_name@),
            r matches Ok(counts) ==> ({
                let rec = record_of(self.session_mgr@, session_name@);
                &&& counts.0 == rec.unresolved_comments.filter(resolved_pred()).len()
                &&& counts.0 + counts.1 == rec.unresolved_comments.len()
            }),
            r matches Err(e) ==> e matches Error::SessionNotFound(n) && n@ == session_name@,
    {
        let session = match self.session_mgr.load_session(session_name) {
            Ok(s) => s,
            Err(e) => {
                return Err(e);
            },
        };
        let n = session.unresolved_comments.len();
        let ghost comments = session@.unresolved_comments;
        let mut resolved: u64 = 0;
        let mut i: usize = 0;
        while i < n
            invariant
                i <= n,
                n == session.unresolved_comments@.len(),
                comments == session@.unresolved_comments,
                resolved == comments.subrange(0, i as int).filter(resolved_pred()).len(),
            decreases n - i,
        {
            let ghost prefix = comments.subrange(0, i as int);
            if session.unresolved_comments[i].resolved {
                resolved = resolved + 1;
            }
            proof {
                assert(comments.subrange(0, i + 1 as int) =~= prefix.push(comments[i as int]));
                crate::models::lemma_filter_push(prefix, resolved_pred(), comments[i as int]);
            }
            i = i + 1;
        }
        proof {
            assert(comments.subrange(0, n as int) =~= comments);
            comments.lemma_filter_len(resolved_pred());
        }
        Ok((resolved, (n as u64) - resolved))
    }
}

/// The comments that count as resolved.
pub open spec fn resolved_pred() -> spec_fn(ReviewCommentV) -> bool {
    |c: ReviewCommentV| c.resolved
}

} // verus!
