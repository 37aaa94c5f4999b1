use std::time::Instant;

use vstd::prelude::*;

verus! {

#[verifier::external_type_specification]
#[verifier::external_body]
pub struct ExInstant(Instant);

/// Calls `std::time::Instant::now`.  Nothing is claimed of the result: it is
/// the time of the call.
#[verifier::external_body]
pub(crate) fn clock_start() -> Instant {
    Instant::now()
}

/// Calls `std::time::Instant::elapsed` on `start` and converts the duration to
/// whole milliseconds.  Nothing is claimed of the result: it depends on the
/// time of the call.
#[verifier::external_body]
pub(crate) fn clock_millis(start: &Instant) -> u64 {
    start.elapsed().as_millis() as u64
}

/// Whether `ms` is a reading of the whole milliseconds elapsed since
/// `start`: a result that `clock_millis` gave for it.
pub closed spec fn measured_since(start: Instant, ms: u64) -> bool {
    call_ensures(clock_millis, (&start,), ms)
}

/// What a call of `clock_millis` on `start` gave is a reading of the time
/// elapsed since `start`.
pub(crate) proof fn lemma_measured(start: &Instant, ms: u64)
    requires
        call_ensures(clock_millis, (start,), ms),
    ensures
        measured_since(*start, ms),
{
}

} // verus!
