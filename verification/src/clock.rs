//! Sources of the current time.

use std::time::Instant;
use vstd::prelude::*;

verus! {

/// `std::time::Instant`, a point on a monotonic clock. Nothing inside an
/// instant is visible to contracts: they only tell two instants apart.
#[verifier::external_type_specification]
#[verifier::external_body]
pub struct ExInstant(Instant);

/// Reads the system's monotonic clock with `std::time::Instant::now`.
///
/// Nothing is claimed of the instant that comes back: two readings may
/// differ, and no contract may rest on which one was returned. The call is
/// taken to return without unwinding, as `Instant::now` documents no panic.
#[verifier::external_body]
fn system_reading() -> (reading: Instant)
    opens_invariants none
    no_unwind
{
    Instant::now()
}

/// Provides the current time. Passing the source explicitly keeps code that
/// accounts for time deterministic under a clock that is advanced by hand.
///
/// A source is read while a guard is being dropped, so `now` has to return
/// without unwinding. Successive readings are expected, not required, to be
/// non-decreasing; nothing here depends on the order of two readings.
pub trait Now {
    /// The current instant. Unless a source says otherwise, this is the
    /// reading of the system's monotonic clock.
    fn now(&self) -> (reading: Instant)
        opens_invariants none
        no_unwind
    {
        system_reading()
    }
}

/// The default source of time: the system's monotonic clock.
impl Now for () {}

} // verus!
