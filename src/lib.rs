//! Latency hedging: a call whose response is slower than a tracked percentile
//! of recent latencies gets one speculative duplicate, and whichever attempt
//! finishes first answers the call.
use vstd::prelude::*;

pub mod call;
pub mod rotating;

verus! {

/// Fewest samples a completed window must hold before a hedge deadline is
/// taken from it.
pub const MIN_SAMPLES: u64 = 10;

/// A "retry policy" to classify if a request should be pre-emptively retried.
pub trait Policy<Request>: Sized {
    fn can_retry(&self, req: &Request) -> bool;

    fn clone_request(&self, req: &Request) -> Option<Request>;
}

/// Milliseconds from `start_ms` to `now_ms`; a clock read earlier than the
/// start gives zero.
pub fn elapsed_ms(start_ms: u64, now_ms: u64) -> (r: u64)
    ensures
        r == (if now_ms >= start_ms { now_ms - start_ms } else { 0 }),
{
    if now_ms >= start_ms {
        now_ms - start_ms
    } else {
        0
    }
}

/// The instant at which a call started at `start_ms` becomes eligible for a
/// hedge, when the tracker supplied a threshold; without one the call is never
/// hedged.  An instant past the clock's range is held at its end.
pub fn hedge_deadline(start_ms: u64, threshold_ms: Option<u64>) -> (r: Option<u64>)
    ensures
        threshold_ms.is_none() ==> r.is_none(),
        threshold_ms.is_some() ==> r == Some(
            (if start_ms + threshold_ms.unwrap() <= u64::MAX {
                (start_ms + threshold_ms.unwrap()) as u64
            } else {
                u64::MAX
            }),
        ),
{
    match threshold_ms {
        Some(t) => Some(start_ms.saturating_add(t)),
        None => None,
    }
}

} // verus!
