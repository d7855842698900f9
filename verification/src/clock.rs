//! The monotonic clock of the standard library, as far as the governor
//! reads it. Nothing is claimed of any reading: the governor's contracts
//! hold for whatever the clock says.

use vstd::prelude::*;

verus! {

/// `std::time::Instant`, carried through as an opaque value.
#[verifier::external_type_specification]
#[verifier::external_body]
pub struct ExInstant(std::time::Instant);

/// `Instant::now` reads the clock; nothing is claimed of the instant read.
pub assume_specification[ std::time::Instant::now ]() -> (now: std::time::Instant);

/// `Instant::elapsed` gives the time gone by since the instant was read;
/// nothing is claimed of it.
pub assume_specification[ std::time::Instant::elapsed ](origin: &std::time::Instant) -> (gone: std::time::Duration);

/// `Duration::as_nanos` gives a duration's whole nanoseconds; durations are
/// opaque here, so nothing is claimed of the number.
pub assume_specification[ std::time::Duration::as_nanos ](span: &std::time::Duration) -> (nanos: u128);

} // verus!
