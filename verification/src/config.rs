//! Configuration consumed from outside the core: where to listen and how
//! long a cached snapshot stays fresh.

use vstd::prelude::*;

verus! {

/// Server configuration.
#[derive(Debug, Clone)]
pub struct Config {
    /// Address the server binds to.
    pub bind_address: String,
    /// Port the server listens on.
    pub port: u16,
    /// Cache time-to-live in seconds.
    pub cache_ttl_seconds: u64,
}

impl Default for Config {
    fn default() -> (c: Self)
        ensures
            c.bind_address@ == "0.0.0.0"@,
            c.port == 8080,
            c.cache_ttl_seconds == 10,
    {
        Config { bind_address: "0.0.0.0".to_owned(), port: 8080, cache_ttl_seconds: 10 }
    }
}

} // verus!
