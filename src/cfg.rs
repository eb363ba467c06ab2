use vstd::prelude::*;

verus! {

/// Number of attempts an origin may make when no other limit is configured.
pub const DEFAULT_RATE_LIMIT: u8 = 25;

/// Startup settings of the relay.
#[derive(Debug, Clone, Copy, PartialEq, Eq, Structural)]
pub struct Config {
    rate_limit: u8,
}

impl Config {
    /// The configured per-origin attempt limit.
    pub closed spec fn limit(&self) -> u8 {
        self.rate_limit
    }

    /// Settings with the given per-origin attempt limit.
    pub fn new(rate_limit: u8) -> (r: Config)
        ensures
            r.limit() == rate_limit,
    {
        Config { rate_limit }
    }

    /// How many attempts one origin may make over the process lifetime.
    pub fn rate_limit(&self) -> (r: u8)
        ensures
            r == self.limit(),
    {
        self.rate_limit
    }
}

impl Default for Config {
    fn default() -> (r: Config)
        ensures
            r.limit() == DEFAULT_RATE_LIMIT,
    {
        Config { rate_limit: DEFAULT_RATE_LIMIT }
    }
}

} // verus!
