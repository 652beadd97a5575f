//! PR integration state. The GitHub calls themselves are delegated to the
//! embedding program; the session-record side of PR bookkeeping lives on
//! the session store.

use vstd::prelude::*;
use crate::config::Config;
use crate::error::Error;
use crate::session::SessionManager;

verus! {

/// PR manager.
pub struct PrManager {
    /// The configuration the manager was created with.
    pub config: Config,
    /// The session store the manager works on.
    pub session_mgr: SessionManager,
}

impl PrManager {
    /// Create a new PR manager with an empty store.
    pub fn new(config: Config) -> (r: Result<Self, Error>)
        ensures
            r matches Ok(m) && m.session_mgr.wf() && m.session_mgr@.len() == 0,
    {
        let session_mgr = SessionManager::new(Config { hp: config.hp.clone() });
        Ok(PrManager { config, session_mgr })
    }
}

} // verus!
