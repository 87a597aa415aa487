//! Process-wide configuration: where the user directory lives and the secret
//! that signs identity tokens. Both are read at startup, outside this crate,
//! and are immutable afterwards.

use vstd::prelude::*;

verus! {

/// Startup configuration. The signing secret is passed by reference into the
/// token service; it is never embedded as a literal and never logged.
pub struct Config {
    pub database_url: String,
    pub jwt_secret: String,
}

impl Config {
    pub fn new(database_url: String, jwt_secret: String) -> (config: Config)
        ensures
            config.database_url@ == database_url@,
            config.jwt_secret@ == jwt_secret@,
    {
        Config { database_url, jwt_secret }
    }
}

} // verus!
