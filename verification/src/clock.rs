//! The monotonic clock that times waits: how long a story has been selected, and how
//! long an operation has been in progress.
use vstd::prelude::*;
use std::time::Instant;

verus! {

/// A moment of the monotonic clock (`std::time::Instant`), carried through opaquely.
#[verifier::external_type_specification]
#[verifier::external_body]
pub struct ExInstant(std::time::Instant);

/// Calls `Instant::now`. Nothing is claimed of the value: it is the moment of the call.
#[verifier::external_body]
pub(crate) fn clock_now() -> Instant {
    Instant::now()
}

/// Calls `Instant::elapsed` and gives the whole seconds since `t`. Nothing is claimed of
/// the value: it depends on when the call is made.
#[verifier::external_body]
pub(crate) fn secs_since(t: &Instant) -> u64 {
    t.elapsed().as_secs()
}

/// Calls `Instant::checked_sub` to give the moment `secs` seconds before `t`, or `t` itself
/// where the clock cannot go back that far. Nothing is claimed of the value: what an
/// `Instant` holds is not visible here.
#[verifier::external_body]
pub(crate) fn secs_before(t: &Instant, secs: u64) -> Instant {
    match t.checked_sub(std::time::Duration::from_secs(secs)) {
        Some(e) => e,
        None => *t,
    }
}

} // verus!
