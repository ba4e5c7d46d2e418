//! Fixed-window rate limiting: who a request is counted for, and which
//! requests of a window pass. The counter itself lives in Redis.
use vstd::prelude::*;
use vstd::string::*;
use crate::text::{chars_of, concat2, copy_str, find, find_exec, string_of, sub_vec, trim, trim_vec};

verus! {

broadcast use vstd::string::group_string_axioms;

/// The limit and the window length of the rate limiter.
#[derive(Clone, Debug)]
pub struct RateLimitState {
    pub limit: u32,
    pub window_seconds: u64,
}

/// The client a request is counted for: the first address of
/// `X-Forwarded-For` (the text before the first comma, trimmed), or `unknown`
/// without that header.
pub open spec fn client_identifier(forwarded_for: Option<Seq<char>>) -> Seq<char> {
    match forwarded_for {
        Some(h) => match find(h, seq![',']) {
            Some(i) => trim(h.subrange(0, i)),
            None => trim(h),
        },
        None => "unknown"@,
    }
}

/// The Redis key that counts a client's requests.
pub open spec fn rate_limit_key(identifier: Seq<char>) -> Seq<char> {
    "rate_limit:"@ + identifier
}

/// Whether the `count`-th request of a window passes a limit of `limit`.
pub open spec fn admitted(limit: u32, count: u32) -> bool {
    count <= limit
}

/// How many of the first `n` requests of a window pass.
pub open spec fn admitted_count(limit: u32, n: nat) -> nat
    decreases n,
{
    if n == 0 {
        0
    } else {
        admitted_count(limit, (n - 1) as nat) + if n <= limit {
            1nat
        } else {
            0nat
        }
    }
}

/// What to do with a request once its count is known.
#[derive(Debug, Clone, Copy)]
pub struct RateDecision {
    /// The counter was just created: give it the window's expiry.
    pub set_expiry: bool,
    /// The request passes.
    pub allowed: bool,
}

impl RateLimitState {
    /// A limiter allowing `limit` requests per window of `window_seconds`.
    pub fn new(limit: u32, window_seconds: u64) -> (s: Self)
        ensures
            s.limit == limit,
            s.window_seconds == window_seconds,
    {
        RateLimitState { limit, window_seconds }
    }

    /// The client a request is counted for.
    pub fn client_identifier(forwarded_for: Option<&str>) -> (r: String)
        ensures
            r@ == client_identifier(
                match forwarded_for {
                    Some(h) => Some(h@),
                    None => None,
                },
            ),
    {
        match forwarded_for {
            Some(h) => {
                let v = chars_of(h);
                let comma = vec![','];
                assert(comma@ =~= seq![',']);
                match find_exec(&v, &comma) {
                    Some(i) => {
                        proof {
                            crate::text::lemma_find_bounds(v@, comma@, 0);
                        }
                        let first = sub_vec(&v, 0, i);
                        let t = trim_vec(&first);
                        string_of(&t)
                    },
                    None => {
                        let t = trim_vec(&v);
                        string_of(&t)
                    },
                }
            },
            None => copy_str("unknown"),
        }
    }

    /// The Redis key that counts a client's requests.
    pub fn key_for(identifier: &str) -> (r: String)
        ensures
            r@ == rate_limit_key(identifier@),
    {
        concat2("rate_limit:", identifier)
    }

    /// What to do with the request counted `count` in its window: the first
    /// request starts the window's expiry, and requests pass up to the limit.
    pub fn decide(&self, count: u32) -> (d: RateDecision)
        ensures
            d.set_expiry == (count == 1),
            d.allowed == admitted(self.limit, count),
            d.allowed == (count <= self.limit),
    {
        RateDecision { set_expiry: count == 1, allowed: count <= self.limit }
    }

    /// Whether a request passes given what counting it gave: when the counter
    /// cannot be reached, the request passes.
    pub fn allows(&self, counted: Result<u32, String>) -> (b: bool)
        ensures
            match counted {
                Ok(count) => b == admitted(self.limit, count) && b == (count <= self.limit),
                Err(_) => b,
            },
    {
        match counted {
            Ok(count) => count <= self.limit,
            Err(_) => true,
        }
    }
}

/// Of the first `n` requests of a window, exactly `min(n, limit)` pass: the
/// first `limit` of them, and none after.
pub proof fn lemma_window_admits_limit(limit: u32, n: nat)
    ensures
        admitted_count(limit, n) == if n <= limit {
            n
        } else {
            limit as nat
        },
    decreases n,
{
    if n > 0 {
        lemma_window_admits_limit(limit, (n - 1) as nat);
    }
}

/// A request passes exactly when its count in the window is within the limit:
/// every one of the first `limit` requests passes, and every request after
/// them is refused, however far past the limit it comes.
pub proof fn lemma_admitted_iff_within_limit(limit: u32, count: u32)
    ensures
        count <= limit ==> admitted(limit, count),
        count > limit ==> !admitted(limit, count),
{
}

/// Once a request of a window is refused, every later request of that window
/// is refused too; once one passes, every earlier one passed.
pub proof fn lemma_refusal_is_final(limit: u32, earlier: u32, later: u32)
    requires
        earlier <= later,
    ensures
        !admitted(limit, earlier) ==> !admitted(limit, later),
        admitted(limit, later) ==> admitted(limit, earlier),
{
}

/// Counting a window request by request, the requests that pass are exactly
/// those `admitted` lets through: the `n`-th adds one passed request when it
/// is admitted, and none otherwise.
pub proof fn lemma_window_counts_admitted(limit: u32, n: u32)
    requires
        n >= 1,
    ensures
        admitted_count(limit, n as nat) == admitted_count(limit, (n - 1) as nat) + if admitted(
            limit,
            n,
        ) {
            1nat
        } else {
            0nat
        },
{
}

} // verus!
