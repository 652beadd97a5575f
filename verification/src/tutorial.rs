//! The interactive tutorial's state; its prompts and text run in the
//! embedding program.

use vstd::prelude::*;
use crate::config::Config;
use crate::error::Error;

verus! {

/// Tutorial manager.
pub struct Tutorial {
    /// The configuration the tutorial was created with.
    pub config: Config,
}

impl Tutorial {
    /// Create a new tutorial manager.
    pub fn new(config: Config) -> (r: Result<Self, Error>)
        ensures
            r matches Ok(t) && t.config.hp == config.hp,
    {
        Ok(Tutorial { config })
    }
}

} // verus!
