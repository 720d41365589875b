//! Points in time and spans of time, in nanoseconds.
//!
//! Both are counts in an `i64`. The ends of its range stand for the infinities:
//! something that never happened lies at [`NEG_INFINITY`], and a limit that is
//! never reached is [`INFINITY`].

use crate::fixed::clamp_wide;
use vstd::prelude::*;

verus! {

/// A count of nanoseconds.
pub type Nanos = i64;

/// Later than any point in time, longer than any span.
pub const INFINITY: Nanos = 9_223_372_036_854_775_807;

/// Earlier than any point in time.
pub const NEG_INFINITY: Nanos = -9_223_372_036_854_775_808;

/// The nanoseconds in a second.
pub const SECOND: Nanos = 1_000_000_000;

pub open spec fn spec_elapsed(now: Nanos, then: Nanos) -> Nanos {
    if then == NEG_INFINITY {
        INFINITY
    } else {
        crate::fixed::clamp(now - then)
    }
}

/// The span from `then` to `now`, infinite if `then` never was.
#[verifier::when_used_as_spec(spec_elapsed)]
pub fn elapsed(now: Nanos, then: Nanos) -> (r: Nanos)
    ensures
        r == spec_elapsed(now, then),
{
    if then == NEG_INFINITY {
        INFINITY
    } else {
        clamp_wide(now as i128 - then as i128)
    }
}

pub open spec fn spec_later(start: Nanos, span: Nanos) -> Nanos {
    crate::fixed::clamp(start + span)
}

/// The point in time that lies `span` after `start`.
#[verifier::when_used_as_spec(spec_later)]
pub fn later(start: Nanos, span: Nanos) -> (r: Nanos)
    ensures
        r == spec_later(start, span),
{
    clamp_wide(start as i128 + span as i128)
}

} // verus!
