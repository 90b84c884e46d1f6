//! Settings of the service.

use vstd::prelude::*;

verus! {

/// Public base address used when none is configured.
pub const DEFAULT_HOST_URL: &'static str = "http://localhost:8080";

/// Log verbosity used when none is configured.
pub const DEFAULT_LOG_LEVEL: &'static str = "info";

/// Where the store is, where the service is reached, and how much it logs.
#[derive(Clone, Debug, PartialEq, Eq)]
pub struct Config {
    pub redis_url: String,
    pub host_url: String,
    pub log_level: String,
}

impl Config {
    /// Settings from the given values, with the defaults for those missing.
    pub fn from_values(
        redis_url: String,
        host_url: Option<String>,
        log_level: Option<String>,
    ) -> (r: Config)
        ensures
            r.redis_url@ == redis_url@,
            r.host_url@ == match host_url {
                Some(h) => h@,
                None => DEFAULT_HOST_URL@,
            },
            r.log_level@ == match log_level {
                Some(l) => l@,
                None => DEFAULT_LOG_LEVEL@,
            },
    {
        let host_url = match host_url {
            Some(h) => h,
            None => DEFAULT_HOST_URL.to_owned(),
        };
        let log_level = match log_level {
            Some(l) => l,
            None => DEFAULT_LOG_LEVEL.to_owned(),
        };
        Config { redis_url, host_url, log_level }
    }
}

} // verus!
