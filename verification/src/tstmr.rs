//! Time Stamp Timer Module (TSTMR).
//!
//! The Time Stamp Timer Module is a 56-bit clock cycle counter, reset by
//! system reset.  Each set of TSTMR registers can be accessed from the
//! processor it is associated with.
//!
//! Ref: Reference Manual, Chapter 52.2

use vstd::prelude::*;

verus! {

/// The TSTMR register pair: the low and high words of the counter.  The
/// counter is 56 bits wide, so the high 8 bits of the high word always
/// read zero.
#[derive(Clone, Copy, Debug, PartialEq, Eq, Structural)]
pub struct TstmrRegs {
    /// Counter bits 32 to 55.
    pub high: u32,
    /// Counter bits 0 to 31.
    pub low: u32,
}

impl TstmrRegs {
    /// The register pair is well formed: the counter is 56 bits wide.
    pub open spec fn wf(&self) -> bool {
        self.high < 0x100_0000
    }
}

/// Reads the 56-bit timestamp value from the TSTMRA registers: the high
/// word shifted up beside the low word.  The high 8 bits of the result
/// are always zero.
pub fn timestamp(tstmra: &TstmrRegs) -> (r: u64)
    requires
        tstmra.wf(),
    ensures
        r == (tstmra.high as u64) * 0x1_0000_0000 + tstmra.low,
        r < 0x100_0000_0000_0000,
{
    let high = tstmra.high;
    let low = tstmra.low;
    proof {
        assert((((high as u64) << 32) | (low as u64)) == (high as u64) * 0x1_0000_0000u64 + (low
            as u64) && (((high as u64) << 32) | (low as u64)) < 0x100_0000_0000_0000u64)
            by (bit_vector)
            requires
                high < 0x100_0000u32,
        ;
    }
    ((high as u64) << 32) | (low as u64)
}

} // verus!
