//! Configuration profile management.

use vstd::prelude::*;
use crate::config::Config;
use crate::config::ProfileConfig;
use crate::error::Error;
use crate::text;

verus! {

/// Profile manager.
pub struct ProfileManager {
    /// The configuration the manager reads profiles from.
    pub config: Config,
}

impl ProfileManager {
    /// Create a new profile manager.
    pub fn new(config: Config) -> (r: Result<Self, Error>)
        ensures
            r matches Ok(m) && m.config.hp == config.hp,
    {
        Ok(ProfileManager { config })
    }

    /// Look a profile up by name: the first entry carrying it, or
    /// `ProfileNotFound`.
    pub fn show(&self, profile_name: &str) -> (r: Result<&ProfileConfig, Error>)
        ensures
            r is Ok <==> exists|i: int|
                0 <= i < self.config.hp.profiles@.len()
                    && #[trigger] self.config.hp.profiles@[i].0@ == profile_name@,
            r matches Ok(p) ==> exists|i: int|
                {
                    &&& 0 <= i < self.config.hp.profiles@.len()
                    &&& #[trigger] self.config.hp.profiles@[i].0@ == profile_name@
                    &&& *p == self.config.hp.profiles@[i].1
                    &&& forall|j: int|
                        0 <= j < i ==> #[trigger] self.config.hp.profiles@[j].0@ != profile_name@
                },
            r matches Err(e) ==> e matches Error::ProfileNotFound(n) && n@ == profile_name@,
    {
        let n = self.config.hp.profiles.len();
        let mut i: usize = 0;
        while i < n
            invariant
                i <= n,
                n == self.config.hp.profiles@.len(),
                forall|j: int|
                    0 <= j < i ==> #[trigger] self.config.hp.profiles@[j].0@ != profile_name@,
            decreases n - i,
        {
            if text::str_eq(self.config.hp.profiles[i].0.as_str(), profile_name) {
                return Ok(&self.config.hp.profiles[i].1);
            }
            i = i + 1;
        }
        Err(Error::ProfileNotFound(profile_name.to_owned()))
    }

    /// The configured profiles, in order.
    pub fn list(&self) -> (r: &Vec<(String, ProfileConfig)>)
        ensures
            r == &self.config.hp.profiles,
    {
        &self.config.hp.profiles
    }

    /// Check that a profile exists before the caller switches to it.
    pub fn use_profile(&self, profile_name: &str) -> (r: Result<(), Error>)
        ensures
            r is Ok <==> exists|i: int|
                0 <= i < self.config.hp.profiles@.len()
                    && #[trigger] self.config.hp.profiles@[i].0@ == profile_name@,
            r matches Err(e) ==> e matches Error::ProfileNotFound(n) && n@ == profile_name@,
    {
        match self.show(profile_name) {
            Ok(_) => Ok(()),
            Err(e) => Err(e),
        }
    }
}

} // verus!
