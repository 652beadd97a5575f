//! Activity tracking and metrics aggregation.

use vstd::prelude::*;
use crate::config::Config;
use crate::error::Error;
use crate::session::SessionManager;

verus! {

/// Aggregated statistics over every session in the store.
#[derive(Debug, Clone, Copy, PartialEq, Eq, Structural)]
pub struct GlobalStats {
    /// Number of sessions.
    pub total: u64,
    /// Sessions currently active.
    pub active: u64,
    /// Sessions currently paused.
    pub paused: u64,
    /// Sessions whose work was integrated.
    pub integrated: u64,
    /// AI interactions across all sessions.
    pub ai_interactions: u64,
    /// Commits across all sessions.
    pub commits: u64,
    /// Lines added across all sessions.
    pub lines_added: u64,
}

/// Activity and metrics manager.
pub struct ActivityManager {
    /// The configuration the manager was created with.
    pub config: Config,
    /// The session store the manager works on.
    pub session_mgr: SessionManager,
}

impl ActivityManager {
    /// Create a new activity manager with an empty store.
    pub fn new(config: Config) -> (r: Result<Self, Error>)
        ensures
            r matches Ok(m) && m.session_mgr.wf() && m.session_mgr@.len() == 0,
    {
        let session_mgr = SessionManager::new(Config { hp: config.hp.clone() });
        Ok(ActivityManager { config, session_mgr })
    }
}

} // verus!
