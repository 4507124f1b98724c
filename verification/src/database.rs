//! Settings of the database connection pool.

use vstd::prelude::*;

verus! {

/// Connection-pool limits. The timeouts are whole seconds, turned into
/// durations where the pool is built.
#[derive(Debug, Clone)]
pub struct DatabaseConfig {
    pub max_connections: u32,
    pub min_connections: u32,
    pub acquire_timeout_secs: u64,
    pub idle_timeout_secs: u64,
}

impl Default for DatabaseConfig {
    /// Between 2 and 10 connections, 30 seconds to acquire one, and 600
    /// seconds before an idle one closes.
    fn default() -> (r: DatabaseConfig)
        ensures
            r.max_connections == 10,
            r.min_connections == 2,
            r.acquire_timeout_secs == 30,
            r.idle_timeout_secs == 600,
    {
        DatabaseConfig {
            max_connections: 10,
            min_connections: 2,
            acquire_timeout_secs: 30,
            idle_timeout_secs: 600,
        }
    }
}

/// The parameter list of an SQL `IN (...)` over `n` values: `n` question
/// marks separated by commas.
pub open spec fn placeholders_spec(n: nat) -> Seq<char>
    decreases n,
{
    if n == 0 {
        seq![]
    } else if n == 1 {
        seq!['?']
    } else {
        placeholders_spec((n - 1) as nat) + seq![',', '?']
    }
}

/// The parameter list of an SQL `IN (...)` over `n` values.
pub fn in_list_placeholders(n: usize) -> (r: String)
    ensures
        r@ == placeholders_spec(n as nat),
{
    let mut r = String::new();
    let mut i: usize = 0;
    while i < n
        invariant
            i <= n,
            r@ == placeholders_spec(i as nat),
        decreases n - i,
    {
        if i > 0 {
            r.push(',');
        }
        r.push('?');
        i = i + 1;
        assert(r@ =~= placeholders_spec(i as nat));
    }
    r
}

} // verus!
