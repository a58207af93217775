//! Content integrity checks against whatever primal announces the `content`
//! capability (a content-addressable store).
//!
//! The protector holds where the store is reached; its calls run outside the
//! library. What the replies mean (existence, integrity, and the tally of a
//! full sweep) is decided here.

use crate::integrations::rpc::RpcError;
use crate::reconnaissance::opt_view;
use crate::text;
use vstd::prelude::*;

verus! {

/// Capability domain socket name for content.
pub const CONTENT_CAPABILITY: &'static str = "content";

/// Default IPC timeout for content operations, in milliseconds.
pub const CONTENT_TIMEOUT_MS: u64 = 5000;

/// Content integrity verification client.
#[derive(Debug, Clone)]
pub struct ContentProtector {
    uds_path: Option<String>,
    tcp_endpoint: Option<String>,
    timeout_ms: u64,
}

/// Result of a full integrity sweep of the store.
#[derive(Debug)]
pub struct IntegritySweepResult {
    /// Total content addresses checked.
    pub total_checked: usize,
    /// Number of integrity violations found.
    pub violations_found: usize,
    /// Addresses that failed integrity checks.
    pub violation_addresses: Vec<String>,
}

/// The view of an optional owned string.
pub open spec fn opt_string_view(v: Option<String>) -> Option<Seq<char>> {
    match v {
        Some(s) => Some(s@),
        None => None,
    }
}

impl ContentProtector {
    /// The socket path, if the capability socket was found.
    pub closed spec fn spec_uds_path(&self) -> Option<Seq<char>> {
        opt_string_view(self.uds_path)
    }

    /// The TCP endpoint, if one was given.
    pub closed spec fn spec_tcp_endpoint(&self) -> Option<Seq<char>> {
        opt_string_view(self.tcp_endpoint)
    }

    /// The request timeout in milliseconds.
    pub closed spec fn spec_timeout_ms(&self) -> u64 {
        self.timeout_ms
    }

    /// A protector from what the environment holds: the `NESTGATE_ENDPOINT`
    /// value, and the content capability socket path with whether it exists
    /// (it is used only when present).
    pub fn from_env(tcp_env: Option<&str>, uds_path: &str, uds_exists: bool) -> (r: Self)
        ensures
            r.spec_tcp_endpoint() == opt_view(tcp_env),
            r.spec_uds_path() == (if uds_exists {
                Some(uds_path@)
            } else {
                None
            }),
            r.spec_timeout_ms() == CONTENT_TIMEOUT_MS,
    {
        ContentProtector {
            uds_path: if uds_exists {
                Some(text::owned(uds_path))
            } else {
                None
            },
            tcp_endpoint: match tcp_env {
                Some(e) => Some(text::owned(e)),
                None => None,
            },
            timeout_ms: CONTENT_TIMEOUT_MS,
        }
    }

    /// A protector targeting a TCP endpoint.
    pub fn new(endpoint: String) -> (r: Self)
        ensures
            r.spec_tcp_endpoint() == Some(endpoint@),
            r.spec_uds_path() is None,
            r.spec_timeout_ms() == CONTENT_TIMEOUT_MS,
    {
        ContentProtector { uds_path: None, tcp_endpoint: Some(endpoint), timeout_ms: CONTENT_TIMEOUT_MS }
    }

    /// The socket path, if the capability socket was found.
    pub fn uds_path(&self) -> (r: Option<&str>)
        ensures
            opt_view(r) == self.spec_uds_path(),
    {
        match &self.uds_path {
            Some(p) => Some(p.as_str()),
            None => None,
        }
    }

    /// The TCP endpoint, if one was given.
    pub fn tcp_endpoint(&self) -> (r: Option<&str>)
        ensures
            opt_view(r) == self.spec_tcp_endpoint(),
    {
        match &self.tcp_endpoint {
            Some(p) => Some(p.as_str()),
            None => None,
        }
    }

    /// The request timeout in milliseconds.
    pub fn timeout_ms(&self) -> (r: u64)
        ensures
            r == self.spec_timeout_ms(),
    {
        self.timeout_ms
    }

    /// Whether content exists, from the reply to `content.exists`: its
    /// `exists` flag (absent counts as no); a failed call stays an error.
    pub fn exists_outcome(reply: Result<Option<bool>, RpcError>) -> (r: Result<bool, RpcError>)
        ensures
            match reply {
                Ok(Some(b)) => r == Ok::<bool, RpcError>(b),
                Ok(None) => r == Ok::<bool, RpcError>(false),
                Err(e) => r == Err::<bool, RpcError>(e),
            },
    {
        match reply {
            Ok(Some(b)) => Ok(b),
            Ok(None) => Ok(false),
            Err(e) => Err(e),
        }
    }

    /// Whether content is intact, from the reply to `content.get`: the
    /// stored hash (empty when absent) equals the expected hash; a failed
    /// call stays an error.
    pub fn integrity_outcome(reply: Result<Option<String>, RpcError>, expected_hash: &str) -> (r: Result<bool, RpcError>)
        ensures
            match reply {
                Ok(Some(h)) => r == Ok::<bool, RpcError>(h@ == expected_hash@),
                Ok(None) => r == Ok::<bool, RpcError>(expected_hash@.len() == 0),
                Err(e) => r == Err::<bool, RpcError>(e),
            },
    {
        match reply {
            Ok(Some(h)) => Ok(text::str_eq(h.as_str(), expected_hash)),
            Ok(None) => Ok(expected_hash.unicode_len() == 0),
            Err(e) => Err(e),
        }
    }
}

/// Whether one sweep reply marks its address as a violation: the entry was
/// retrieved but carries no stored hash. A failed retrieval is counted as
/// an error, not a violation.
pub open spec fn is_violation(reply: Result<Option<String>, RpcError>) -> bool {
    match reply {
        Ok(Some(h)) => h@.len() == 0,
        Ok(None) => true,
        Err(_) => false,
    }
}

/// The addresses whose replies mark a violation, in order.
pub open spec fn violations_spec(addresses: Seq<String>, replies: Seq<Result<Option<String>, RpcError>>) -> Seq<Seq<char>>
    decreases addresses.len(),
{
    if addresses.len() == 0 || replies.len() < addresses.len() {
        Seq::empty()
    } else {
        let n = (addresses.len() - 1) as int;
        let rest = violations_spec(addresses.drop_last(), replies.take(n));
        if is_violation(replies[n]) {
            rest.push(addresses[n]@)
        } else {
            rest
        }
    }
}

/// The number of replies that are failed retrievals.
pub open spec fn errors_spec(replies: Seq<Result<Option<String>, RpcError>>) -> nat
    decreases replies.len(),
{
    if replies.len() == 0 {
        0
    } else {
        errors_spec(replies.drop_last()) + if replies.last() is Err {
            1nat
        } else {
            0nat
        }
    }
}

/// Tallies a full sweep from the listed addresses and, for each in order,
/// the reply to its `content.get` (the stored hash, if any): every address
/// is checked; the violations are those retrieved without a stored hash.
/// Also returns how many retrievals failed.
pub fn tally_sweep(addresses: &Vec<String>, replies: &Vec<Result<Option<String>, RpcError>>) -> (r: (IntegritySweepResult, usize))
    requires
        replies@.len() == addresses@.len(),
    ensures
        r.0.total_checked == addresses@.len(),
        text::texts(r.0.violation_addresses@) == violations_spec(addresses@, replies@),
        r.0.violations_found == r.0.violation_addresses@.len(),
        r.0.violations_found <= r.0.total_checked,
        r.1 == errors_spec(replies@),
{
    let mut violations: Vec<String> = Vec::new();
    let mut errors: usize = 0;
    let mut i: usize = 0;
    while i < addresses.len()
        invariant
            i <= addresses@.len(),
            replies@.len() == addresses@.len(),
            text::texts(violations@) == violations_spec(addresses@.take(i as int), replies@.take(i as int)),
            violations@.len() <= i,
            errors == errors_spec(replies@.take(i as int)),
            errors <= i,
        decreases addresses@.len() - i,
    {
        proof {
            assert(addresses@.take(i + 1).drop_last() =~= addresses@.take(i as int));
            assert(replies@.take(i + 1).take(i as int) =~= replies@.take(i as int));
            assert(replies@.take(i + 1).drop_last() =~= replies@.take(i as int));
        }
        match &replies[i] {
            Ok(Some(h)) => {
                if h.unicode_len() == 0 {
                    let ghost before = violations@;
                    violations.push(addresses[i].clone());
                    assert(text::texts(violations@) =~= text::texts(before).push(addresses@[i as int]@));
                }
            },
            Ok(None) => {
                let ghost before = violations@;
                violations.push(addresses[i].clone());
                assert(text::texts(violations@) =~= text::texts(before).push(addresses@[i as int]@));
            },
            Err(_) => {
                errors = errors + 1;
            },
        }
        i = i + 1;
    }
    proof {
        assert(addresses@.take(addresses@.len() as int) =~= addresses@);
        assert(replies@.take(replies@.len() as int) =~= replies@);
    }
    let found = violations.len();
    (IntegritySweepResult { total_checked: addresses.len(), violations_found: found, violation_addresses: violations }, errors)
}

} // verus!
