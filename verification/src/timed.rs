//! Cycle-time accounting: a count of elapsed CPU cycles paired with the clock
//! frequency they were counted at, and the capability of receiving such
//! elapsed-time notifications.

use vstd::prelude::*;

verus! {

/// A number of elapsed clock cycles together with the clock frequency (in
/// Hz) they were counted at, convertible to elapsed real time.
#[derive(Clone, Copy, PartialEq, Eq, Structural, Debug)]
pub struct CycleTime {
    /// Number of cycles passed.
    num: u32,
    /// Frequency in Hz.
    frequency: u32,
}

/// The elapsed time in microseconds for `cycles` cycles at `frequency` Hz:
/// `1_000_000 * cycles / frequency`, rounded to the nearest microsecond
/// (halves round up). Meaningful only for a frequency of at least 1 Hz.
pub open spec fn micros_spec(frequency: u32, cycles: u32) -> int {
    (2 * 1000000 * cycles + frequency) / (2 * frequency)
}

impl CycleTime {
    /// The cycle count this value carries.
    pub closed spec fn cycles(&self) -> u32 {
        self.num
    }

    /// The clock frequency (Hz) this value carries.
    pub closed spec fn freq(&self) -> u32 {
        self.frequency
    }

    /// The `CycleTime` value that `new(frequency, cycles)` constructs.
    pub closed spec fn spec_new(frequency: u32, cycles: u32) -> CycleTime {
        CycleTime { num: cycles, frequency }
    }

    pub fn new(frequency: u32, cycles: u32) -> (r: Self)
        ensures
            r == CycleTime::spec_new(frequency, cycles),
            r.freq() == frequency,
            r.cycles() == cycles,
    {
        CycleTime { num: cycles, frequency }
    }

    /// The elapsed time in microseconds, rounded to the nearest microsecond.
    pub fn micros(&self) -> (r: u64)
        requires
            self.freq() >= 1,
        ensures
            r == micros_spec(self.freq(), self.cycles()),
    {
        let numerator: u64 = 2_000_000 * (self.num as u64) + (self.frequency as u64);
        let denominator: u64 = 2 * (self.frequency as u64);
        numerator / denominator
    }
}

/// The conversion from cycles to microseconds is a function of the frequency
/// and the cycle count alone: two cycle-time values built from the same
/// inputs convert to the same number of microseconds.
pub proof fn lemma_micros_deterministic(a: CycleTime, b: CycleTime)
    requires
        a.freq() == b.freq(),
        a.cycles() == b.cycles(),
    ensures
        micros_spec(a.freq(), a.cycles()) == micros_spec(b.freq(), b.cycles()),
{
}

/// The capability of receiving a "cycles elapsed" notification so a device
/// can advance its internal state independent of the CPU's instruction
/// cadence. Advancing time is a deterministic state transition, modeled by
/// [`advanced`](Timed::advanced).
pub trait Timed: Sized {
    /// The device state after `time` has elapsed.
    spec fn advanced(self, time: CycleTime) -> Self;

    /// Progresses the device's internal timing by `time`.
    fn catchup(&mut self, time: CycleTime)
        ensures
            *final(self) == old(self).advanced(time),
    ;
}

} // verus!
