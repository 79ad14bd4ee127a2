//! Measured values: encoding speed and progress.

use vstd::prelude::*;

verus! {

/// A number of frames per second, as the bits of an IEEE 754 double.
#[derive(Clone, Copy, Debug, PartialEq, Eq, Structural)]
pub struct Fps {
    pub bits: u64,
}

/// The bits of positive infinity, the greatest number above zero.
pub const INFINITE_BITS: u64 = 0x7ff0_0000_0000_0000;

impl Fps {
    /// The number is greater than zero: its sign bit is clear, it is not zero,
    /// and it is a number.
    pub open spec fn is_positive(self) -> bool {
        0 < self.bits <= INFINITE_BITS
    }

    /// Zero: nothing was measured yet.
    pub fn zero() -> (r: Self)
        ensures
            r.bits == 0,
            !r.is_positive(),
    {
        Fps { bits: 0 }
    }

    /// Whether the number is greater than zero.
    pub fn positive(self) -> (r: bool)
        ensures
            r == self.is_positive(),
    {
        0 < self.bits && self.bits <= INFINITE_BITS
    }
}

/// How far a job is, as the share `done` of `total`; in percent it is
/// `done / total * 100`.
#[derive(Clone, Copy, Debug, PartialEq, Eq, Structural)]
pub struct Progress {
    pub done: usize,
    pub total: usize,
}

impl Progress {
    /// Zero percent.
    pub open spec fn spec_none() -> Progress {
        Progress { done: 0, total: 1 }
    }

    /// A hundred percent.
    pub open spec fn spec_full() -> Progress {
        Progress { done: 1, total: 1 }
    }

    /// Zero percent.
    pub fn none() -> (r: Self)
        ensures
            r == Progress::spec_none(),
    {
        Progress { done: 0, total: 1 }
    }

    /// A hundred percent.
    pub fn full() -> (r: Self)
        ensures
            r == Progress::spec_full(),
    {
        Progress { done: 1, total: 1 }
    }
}

} // verus!
