//! Utility operations: the session dashboard, cleanup of old sessions, and
//! leaving a session.

use vstd::prelude::*;
use vstd::string::StringExecFns;
use crate::config::Config;
use crate::error::Error;
use crate::models::ActivityType;
use crate::models::SessionStatus;
use crate::models::SessionV;
use crate::session::has_name;
use crate::session::record_of;
use crate::session::spec_save;
use crate::session::with_activity;
use crate::session::SessionManager;

verus! {

/// Utilities manager.
pub struct UtilitiesManager {
    /// The configuration the manager was created with.
    pub config: Config,
    /// The session store the manager works on.
    pub session_mgr: SessionManager,
}

/// A session counts as stale when it is archived or integrated and has not
/// been active since the threshold.
pub open spec fn is_stale(s: SessionV, threshold: i64) -> bool {
    (s.status == SessionStatus::Archived || s.status == SessionStatus::Integrated)
        && s.last_active < threshold
}

/// The record after a leave: paused or archived, with a one-word
/// `StatusChanged` entry.
pub open spec fn left_session(s: SessionV, archive: bool, t: i64) -> SessionV {
    if archive {
        with_activity(
            SessionV { status: SessionStatus::Archived, ..s },
            t,
            ActivityType::StatusChanged,
            "Archived"@,
        )
    } else {
        with_activity(
            SessionV { status: SessionStatus::Paused, ..s },
            t,
            ActivityType::StatusChanged,
            "Paused"@,
        )
    }
}

impl UtilitiesManager {
    /// Create a new utilities manager with an empty store.
    pub fn new(config: Config) -> (r: Result<Self, Error>)
        ensures
            r matches Ok(m) && m.session_mgr.wf() && m.session_mgr@.len() == 0,
    {
        let session_mgr = SessionManager::new(Config { hp: config.hp.clone() });
        Ok(UtilitiesManager { config, session_mgr })
    }

    /// Leave a session: pause it, or archive it, with one `StatusChanged`
    /// entry, and store the record.
    pub fn leave(&mut self, session_name: &str, archive: bool) -> (r: Result<(), Error>)
        requires
            old(self).session_mgr.wf(),
        ensures
            final(self).session_mgr.wf(),
            r is Ok <==> has_name(old(self).session_mgr@, session_name@),
            r matches Err(e) ==> final(self).session_mgr@ == old(self).session_mgr@ && (
            e matches Error::SessionNotFound(n) && n@ == session_name@),
            r is Ok ==> final(self).session_mgr@ == spec_save(
                old(self).session_mgr@,
                left_session(
                    record_of(old(self).session_mgr@, session_name@),
                    archive,
                    record_of(final(self).session_mgr@, session_name@).last_active,
                ),
            ),
    {
        let mut session = match self.session_mgr.load_session(session_name) {
            Ok(s) => s,
            Err(e) => {
                return Err(e);
            },
        };
        if archive {
            session.status = SessionStatus::Archived;
            session.log_activity(ActivityType::StatusChanged, "Archived".to_owned());
        } else {
            session.status = SessionStatus::Paused;
            session.log_activity(ActivityType::StatusChanged, "Paused".to_owned());
        }
        let ghost t = session@.last_active;
        self.session_mgr.save_session(&session);
        proof {
            crate::session::lemma_save_wf(old(self).session_mgr@, session@);
            assert(record_of(final(self).session_mgr@, session_name@).last_active == t);
        }
        Ok(())
    }
}

} // verus!
