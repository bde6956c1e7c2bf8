//! The retry policy: which failures are transient, and how long to wait
//! between attempts.  Request dispatch is wrapped in bounded exponential
//! backoff; only connection errors and server-side (5xx) statuses are
//! retried, client errors (4xx) never are.  The attempt counting itself
//! lives in the executor, which allows at most `retries + 1` attempts.

use vstd::prelude::*;

verus! {

/// Statuses that are worth retrying: the server-side error range.
pub open spec fn spec_transient_status(status: u16) -> bool {
    500 <= status <= 599
}

/// Statuses that end the request unsuccessfully (client or server error).
pub open spec fn spec_error_status(status: u16) -> bool {
    400 <= status <= 599
}

/// Whether the HTTP status is a transient (server-side, 5xx) failure,
/// which the policy retries while attempts remain.
#[verifier::when_used_as_spec(spec_transient_status)]
pub fn is_transient_status(status: u16) -> (r: bool)
    ensures
        r == spec_transient_status(status),
{
    500 <= status && status <= 599
}

/// Whether the HTTP status is an error (4xx or 5xx).  A client error is
/// never retried: it is returned at once for the executor to classify.
#[verifier::when_used_as_spec(spec_error_status)]
pub fn is_error_status(status: u16) -> (r: bool)
    ensures
        r == spec_error_status(status),
{
    400 <= status && status <= 599
}

/// The delay before retry number `attempt`, growing exponentially and
/// capped: doubling `base_ms` once per prior attempt, never past `cap_ms`.
pub open spec fn spec_backoff(base_ms: u64, attempt: u32, cap_ms: u64) -> int
    decreases attempt,
{
    if base_ms >= cap_ms {
        cap_ms as int
    } else if attempt == 0 {
        base_ms as int
    } else {
        let prev = spec_backoff(base_ms, (attempt - 1) as u32, cap_ms);
        if prev * 2 >= cap_ms {
            cap_ms as int
        } else {
            prev * 2
        }
    }
}

/// How long to wait before retry number `attempt` (the first retry is
/// attempt 0): an exponentially growing delay, capped at `cap_ms` so that
/// many transfers failing together do not wait unboundedly long.
pub fn backoff_delay_ms(base_ms: u64, attempt: u32, cap_ms: u64) -> (r: u64)
    ensures
        r == spec_backoff(base_ms, attempt, cap_ms),
        r <= cap_ms,
{
    if base_ms >= cap_ms {
        return cap_ms;
    }
    let mut delay: u64 = base_ms;
    let mut i: u32 = 0;
    while i < attempt
        invariant
            i <= attempt,
            base_ms < cap_ms,
            delay == spec_backoff(base_ms, i, cap_ms),
            delay <= cap_ms,
        decreases attempt - i,
    {
        if delay >= cap_ms / 2 + 1 {
            delay = cap_ms;
        } else {
            delay = delay * 2;
            if delay >= cap_ms {
                delay = cap_ms;
            }
        }
        i = i + 1;
    }
    delay
}

} // verus!
