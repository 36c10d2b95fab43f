//! Options of the outbound HTTP client: its per-request timeout and its
//! concurrency limit, the two backpressure controls of the front end.

use vstd::prelude::*;

verus! {

/// How the outbound HTTP client bounds its work: a per-request timeout,
/// and a cap on concurrently outstanding requests.
#[derive(Clone, Copy, PartialEq, Eq, Structural, Debug)]
pub struct HttpClientOptions {
    /// How long one request may stay outstanding, in milliseconds.
    pub timeout_millis: u64,
    /// How many requests may be outstanding at once.
    pub concurrency_limit: usize,
}

impl Default for HttpClientOptions {
    /// Three seconds per request, five requests at once.
    fn default() -> (r: Self)
        ensures
            r == (HttpClientOptions { timeout_millis: 3000, concurrency_limit: 5 }),
    {
        HttpClientOptions { timeout_millis: 3000, concurrency_limit: 5 }
    }
}

} // verus!
