//! Decisions taken around market-data requests: how a response status is
//! read, when a cached quote may be served, and which option expiries enter
//! a volatility surface.
use vstd::prelude::*;

verus! {

/// Seconds for which a cached quote is served without asking the provider.
pub const QUOTE_CACHE_TTL_SECONDS: i64 = 300;

/// Status code with which a provider reports too many requests.
pub const TOO_MANY_REQUESTS: u16 = 429;

/// How a provider's HTTP status is handled.
#[derive(Clone, Copy, Debug, PartialEq, Eq, Structural)]
pub enum StatusClass {
    /// A 2xx status: the body is read.
    Success,
    /// Status 429: the provider asks the caller to slow down.
    RateLimited,
    /// Any other status: reported as a provider error.
    Failed,
}

/// Classifies a response status: 429 is rate limiting, 200 to 299 success,
/// anything else a failure.
pub fn classify_status(code: u16) -> (r: StatusClass)
    ensures
        r == StatusClass::RateLimited <==> code == TOO_MANY_REQUESTS,
        r == StatusClass::Success <==> 200 <= code <= 299,
        r == StatusClass::Failed <==> (code != TOO_MANY_REQUESTS && !(200 <= code <= 299)),
{
    if code == TOO_MANY_REQUESTS {
        StatusClass::RateLimited
    } else if 200 <= code && code <= 299 {
        StatusClass::Success
    } else {
        StatusClass::Failed
    }
}

/// Whether a cached quote is served: there is one, and fewer than
/// `ttl_seconds` whole seconds have passed since it was stored.
pub fn use_cached_quote(elapsed_seconds: Option<i64>, ttl_seconds: i64) -> (r: bool)
    ensures
        r <==> (elapsed_seconds matches Some(e) && e < ttl_seconds),
{
    match elapsed_seconds {
        Some(e) => e < ttl_seconds,
        None => false,
    }
}

/// Days to expiry under which an option enters a volatility surface: only
/// contracts that expire after today, with a day count that fits an `i32`.
pub fn surface_expiry_days(days_to_expiry: i64) -> (r: Option<i32>)
    ensures
        r is Some <==> 0 < days_to_expiry <= i32::MAX,
        r matches Some(d) ==> d == days_to_expiry,
{
    if 0 < days_to_expiry && days_to_expiry <= i32::MAX as i64 {
        Some(days_to_expiry as i32)
    } else {
        None
    }
}

} // verus!
