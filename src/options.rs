//! How a client is set up: where the daemon is, how to log in, and how fast
//! requests may go.
use crate::error::joined;
use crate::rate_gate::RateGate;
use vstd::prelude::*;

verus! {

/// Requests per window when the options set none.
pub const DEFAULT_RATE_LIMIT_COUNT: u64 = 10;

/// Window length in milliseconds when the options set none.
pub const DEFAULT_RATE_LIMIT_DURATION: u64 = 1000;

#[derive(Debug, Clone, Default, PartialEq)]
pub struct DelugeClientOptions {
    /// Deluge Web API host including port but without protocol or password
    ///
    /// # Examples
    /// - `localhost`
    /// - `example.com`
    /// - `example.com:3000`
    /// - `127.0.0.1`
    pub host: String,
    /// Deluge Web API password
    pub password: String,
    /// User agent
    pub user_agent: Option<String>,
    /// Number of requests permitted per `rate_limit_duration`
    pub rate_limit_count: Option<usize>,
    /// Milliseconds before the rate limit is reset
    pub rate_limit_duration: Option<usize>,
    /// A torrent to inspect when checking a connection
    pub torrent_id: Option<String>,
}

/// The value that an optional setting stands for: the default where it is
/// unset, and never less than one.
pub open spec fn setting(v: Option<usize>, default: u64) -> u64 {
    match v {
        Some(n) => if n == 0 { 1 } else { n as u64 },
        None => default,
    }
}

fn setting_value(v: Option<usize>, default: u64) -> (r: u64)
    ensures
        r == setting(v, default),
{
    match v {
        Some(n) => if n == 0 {
            1
        } else {
            n as u64
        },
        None => default,
    }
}

impl DelugeClientOptions {
    /// The JSON-RPC endpoint: `http://{host}/json`.
    pub fn api_url(&self) -> (r: String)
        ensures
            r@ == "http://"@ + self.host@ + "/json"@,
    {
        joined("http://", self.host.as_str(), "/json")
    }

    /// A rate gate for the configured quota and window; an unset count is
    /// [`DEFAULT_RATE_LIMIT_COUNT`], an unset window
    /// [`DEFAULT_RATE_LIMIT_DURATION`], and a zero counts as one.
    pub fn rate_gate(&self) -> (r: RateGate)
        ensures
            r.wf(),
            r == RateGate::new_spec(
                setting(self.rate_limit_count, DEFAULT_RATE_LIMIT_COUNT),
                setting(self.rate_limit_duration, DEFAULT_RATE_LIMIT_DURATION),
            ),
    {
        RateGate::new(
            setting_value(self.rate_limit_count, DEFAULT_RATE_LIMIT_COUNT),
            setting_value(self.rate_limit_duration, DEFAULT_RATE_LIMIT_DURATION),
        )
    }
}

} // verus!
