use vstd::prelude::*;

verus! {

/// Number of pooled database connections used when the configuration names none.
pub const DEFAULT_MAX_CONNECTIONS: u32 = 10;

/// The fallback for `DatabaseConfig::max_connections`.
pub fn default_max_connections() -> (r: u32)
    ensures
        r == DEFAULT_MAX_CONNECTIONS,
{
    DEFAULT_MAX_CONNECTIONS
}

/// Where the durable stores live, and how many connections may be opened to them.
#[derive(Debug, Clone)]
pub struct DatabaseConfig {
    pub url: String,
    pub max_connections: u32,
}

} // verus!
