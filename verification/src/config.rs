use vstd::prelude::*;

use crate::timespan::{TimeSpan, NANOS_PER_SEC};

verus! {

/// Default limit on one exchange: 30 seconds.
pub const DEFAULT_TIMEOUT_SECS: u64 = 30;

/// Default limit on closing a connection: 5 seconds.
pub const DEFAULT_CLOSE_TIMEOUT_SECS: u64 = 5;

/// Settings that every transport shares.
#[derive(Debug, Clone)]
pub struct TransportConfig {
    /// Limit on a connect or on one request/response exchange.
    pub timeout: TimeSpan,
    /// Limit on closing the connection.
    pub close_timeout: TimeSpan,
}

impl Default for TransportConfig {
    fn default() -> (c: Self)
        ensures
            c.timeout@ == DEFAULT_TIMEOUT_SECS * NANOS_PER_SEC,
            c.close_timeout@ == DEFAULT_CLOSE_TIMEOUT_SECS * NANOS_PER_SEC,
    {
        TransportConfig {
            timeout: TimeSpan::from_secs(DEFAULT_TIMEOUT_SECS),
            close_timeout: TimeSpan::from_secs(DEFAULT_CLOSE_TIMEOUT_SECS),
        }
    }
}

} // verus!
