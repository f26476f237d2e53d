//! System clock configurations.
//!
//! This module constrains the System Clock Generator (SCG) peripheral.
//! Clock rates are carried as plain integer hertz values.

use vstd::prelude::*;

verus! {

/// Frozen clock frequencies, in hertz.
pub struct Clocks {}

impl Clocks {
    /// Returns the frequency of the System OSC clock.
    pub fn sysosc(&self) -> (r: u32)
        ensures
            r == 72_000_000u32,
    {
        72_000_000
    }

    /// Returns the frequency of the Slow IRC clock.
    pub fn sirc(&self) -> (r: u32)
        ensures
            r == 0u32,
    {
        0
    }

    /// Returns the frequency of the Fast IRC clock.
    pub fn hirc(&self) -> (r: u32)
        ensures
            r == 0u32,
    {
        0
    }

    /// Returns the frequency of the Low Power FLL clock.
    pub fn lpfll(&self) -> (r: u32)
        ensures
            r == 0u32,
    {
        0
    }

    /// The frequency of each selectable source.
    pub open spec fn spec_of_source(&self, source: Source) -> u32 {
        match source {
            Source::SysOsc => 72_000_000u32,
            Source::Sirc => 0u32,
            Source::Hirc => 0u32,
            Source::LpFll => 0u32,
        }
    }

    /// Returns the frequency of the given clock source.
    pub fn of_source(&self, source: Source) -> (r: u32)
        ensures
            r == self.spec_of_source(source),
    {
        match source {
            Source::SysOsc => self.sysosc(),
            Source::Sirc => self.sirc(),
            Source::Hirc => self.hirc(),
            Source::LpFll => self.lpfll(),
        }
    }
}

/// Clock source.
#[derive(Debug, Copy, Clone, Eq, PartialEq, Structural)]
pub enum Source {
    SysOsc,
    Sirc,
    Hirc,
    LpFll,
}

/// Precise clock configurator.
pub struct Precise {}

/// Strict clock configurator.
pub struct Strict {}

} // verus!
