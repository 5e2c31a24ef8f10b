//! Wall-clock readings for the timing harness, taken from the monotonic
//! clock of `std::time::Instant`.

use vstd::prelude::*;

verus! {

#[verifier::external_type_specification]
#[verifier::external_body]
pub struct ExInstant(std::time::Instant);

/// A reading source whose values never decrease: every reading is the number
/// of nanoseconds since the clock was created, taken from `std::time::Instant`.
pub struct MonotoneClock {
    origin: std::time::Instant,
    last: u64,
}

impl MonotoneClock {
    /// The most recent reading this clock has handed out, 0 before the first.
    pub closed spec fn last(&self) -> u64 {
        self.last
    }

    /// Relies on `std::time::Instant::now` for the origin of the readings.
    #[verifier::external_body]
    pub fn new() -> (c: MonotoneClock)
        ensures
            c.last() == 0,
    {
        MonotoneClock { origin: std::time::Instant::now(), last: 0 }
    }

    /// Relies on `std::time::Instant::elapsed`: instants are monotonically
    /// non-decreasing, so successive readings from the one origin never
    /// decrease (`Duration::as_nanos` only converts the result; readings
    /// beyond `u64`'s range are pinned to its maximum).
    #[verifier::external_body]
    pub fn tick(&mut self) -> (r: u64)
        ensures
            r >= old(self).last(),
            final(self).last() == r,
    {
        let nanos = self.origin.elapsed().as_nanos();
        let reading = u64::try_from(nanos).unwrap_or(u64::MAX);
        self.last = reading;
        reading
    }
}

} // verus!
