//! Typed fixed-point wrappers for the measured resource quantities, plus the
//! per-function health-score bundle.
//!
//! Each quantity has one fixed unit: energy in millijoules, carbon in
//! micrograms of CO2-equivalent, duration in microseconds, memory in bytes,
//! and scores in tenths of a point on a 0-100 scale. Values of the same kind
//! support addition; there is no implicit cross-unit conversion.

use vstd::prelude::*;

verus! {

/// An amount of energy, in millijoules.
#[derive(Clone, Copy, PartialEq, Eq, Structural, Debug)]
pub struct Energy {
    pub millijoules: u64,
}

/// A mass of emitted CO2-equivalent, in micrograms.
#[derive(Clone, Copy, PartialEq, Eq, Structural, Debug)]
pub struct Carbon {
    pub micrograms: u64,
}

/// A span of estimated execution time, in microseconds.
#[derive(Clone, Copy, PartialEq, Eq, Structural, Debug)]
pub struct Duration {
    pub microseconds: u64,
}

/// An amount of memory, in bytes.
#[derive(Clone, Copy, PartialEq, Eq, Structural, Debug)]
pub struct Memory {
    pub bytes: u64,
}

impl Energy {
    /// Construct an energy value from whole millijoules.
    pub fn millijoules(mj: u64) -> (r: Energy)
        ensures
            r.millijoules == mj,
    {
        Energy { millijoules: mj }
    }

    /// Sum of two energies; the caller must keep the sum within range.
    pub fn add(self, other: Energy) -> (r: Energy)
        requires
            self.millijoules + other.millijoules <= u64::MAX,
        ensures
            r.millijoules == self.millijoules + other.millijoules,
    {
        Energy { millijoules: self.millijoules + other.millijoules }
    }
}

impl Carbon {
    /// Construct a carbon value from whole micrograms of CO2-equivalent.
    pub fn micrograms(ug: u64) -> (r: Carbon)
        ensures
            r.micrograms == ug,
    {
        Carbon { micrograms: ug }
    }

    /// Sum of two carbon masses; the caller must keep the sum within range.
    pub fn add(self, other: Carbon) -> (r: Carbon)
        requires
            self.micrograms + other.micrograms <= u64::MAX,
        ensures
            r.micrograms == self.micrograms + other.micrograms,
    {
        Carbon { micrograms: self.micrograms + other.micrograms }
    }
}

impl Duration {
    /// Construct a duration from whole microseconds.
    pub fn microseconds(us: u64) -> (r: Duration)
        ensures
            r.microseconds == us,
    {
        Duration { microseconds: us }
    }
}

impl Memory {
    /// Construct a memory amount from whole bytes.
    pub fn bytes(b: u64) -> (r: Memory)
        ensures
            r.bytes == b,
    {
        Memory { bytes: b }
    }
}

/// The four resource figures measured for one function.
#[derive(Clone, Copy, PartialEq, Eq, Structural, Debug)]
pub struct ResourceUsage {
    pub energy: Energy,
    pub duration: Duration,
    pub carbon: Carbon,
    pub memory: Memory,
}

/// The bounded health scores of one function, each in tenths of a point on a
/// 0-100 scale (so 0 to 1000 tenths). The bundle is produced upstream and
/// only consumed here; `overall` already combines the other three and is
/// never recomputed by this crate.
#[derive(Clone, Copy, PartialEq, Eq, Structural, Debug)]
pub struct HealthScores {
    pub eco_tenths: u32,
    pub econ_tenths: u32,
    pub quality_tenths: u32,
    pub overall_tenths: u32,
}

} // verus!
