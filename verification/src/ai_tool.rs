//! AI tool integration state. Launching processes is the embedding
//! program's step; session-name resolution is decided here.

use vstd::prelude::*;
use crate::config::Config;
use crate::error::Error;
use crate::session::SessionManager;

verus! {

/// AI tool launcher.
pub struct AiTool {
    /// The configuration the launcher was created with.
    pub config: Config,
    /// The session store the launcher works on.
    pub session_mgr: SessionManager,
}

impl AiTool {
    /// Create a new AI tool launcher with an empty store.
    pub fn new(config: Config) -> (r: Result<Self, Error>)
        ensures
            r matches Ok(m) && m.session_mgr.wf() && m.session_mgr@.len() == 0,
    {
        let session_mgr = SessionManager::new(Config { hp: config.hp.clone() });
        Ok(AiTool { config, session_mgr })
    }

    /// Resolve the session to operate on: an explicit name wins, then the
    /// ambient current session the caller read from its environment, else
    /// `NoCurrentSession`.
    pub fn resolve_session_name(
        &self,
        session_name: Option<String>,
        current: Option<String>,
    ) -> (r: Result<String, Error>)
        ensures
            session_name matches Some(n) ==> (r matches Ok(out) && out@ == n@),
            (session_name is None && current is Some) ==> (r matches Ok(out) && out@
                == current->Some_0@),
            session_name is None && current is None ==> (r matches Err(e)
                && e is NoCurrentSession),
    {
        match session_name {
            Some(n) => Ok(n),
            None => match current {
                Some(c) => Ok(c),
                None => Err(Error::NoCurrentSession),
            },
        }
    }
}

} // verus!
