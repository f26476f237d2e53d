//! Peripheral Clock Controller (PCC).
//!
//! Each clock-gated peripheral has one gate-control register holding three
//! bits of interest: a read-only presence bit (the peripheral variant is
//! fabricated on this chip instance), a read-only in-use bit (software on
//! another core has already claimed the peripheral), and a writable
//! clock-gate-enable bit.  A [`ClockGate`] token owns the software-visible
//! image of one such register; holding the token is the permission to toggle
//! that peripheral's clock.

use vstd::prelude::*;

verus! {

/// Presence bit: the peripheral exists on this chip instance (read-only).
pub const PCC_PR: u32 = 0x8000_0000;

/// Clock-gate-control bit: the peripheral clock is enabled (writable).
pub const PCC_CGC: u32 = 0x4000_0000;

/// In-use bit: another core has already configured this peripheral (read-only).
pub const PCC_INUSE: u32 = 0x2000_0000;

/// The presence bit of a gate-control register value.
pub open spec fn pcc_present(reg: u32) -> bool {
    reg & PCC_PR != 0
}

/// The in-use bit of a gate-control register value.
pub open spec fn pcc_in_use(reg: u32) -> bool {
    reg & PCC_INUSE != 0
}

/// The clock-gate-enable bit of a gate-control register value.
pub open spec fn pcc_enabled(reg: u32) -> bool {
    reg & PCC_CGC != 0
}

/// The register value after a whole-register write of the enable bit:
/// the read-only status bits keep their hardware-driven values, every
/// writable bit takes the written value.
pub open spec fn pcc_write_cgc(reg: u32, cgc: bool) -> u32 {
    if cgc {
        (reg & (PCC_PR | PCC_INUSE)) | PCC_CGC
    } else {
        reg & (PCC_PR | PCC_INUSE)
    }
}

/// Error that may occur when enabling a peripheral clock.
#[derive(Clone, Copy, Debug, PartialEq, Eq, Structural)]
pub enum EnableError {
    /// The peripheral is not present on this device.
    Absent,
    /// The peripheral is being used by another core.
    InUse,
}

/// Exclusive permission to toggle one peripheral's clock-enable bit.
pub struct ClockGate {
    pub(crate) reg: u32,
}

impl ClockGate {
    /// The clock-control register image this token owns.
    pub closed spec fn reg_spec(&self) -> u32 {
        self.reg
    }

    /// Whether the peripheral is present on this chip instance.
    pub open spec fn present_spec(&self) -> bool {
        pcc_present(self.reg_spec())
    }

    /// Whether another core has already claimed the peripheral.
    pub open spec fn in_use_spec(&self) -> bool {
        pcc_in_use(self.reg_spec())
    }

    /// Whether the peripheral clock is currently gated on.
    pub open spec fn enabled_spec(&self) -> bool {
        pcc_enabled(self.reg_spec())
    }

    /// Reads the presence bit.
    pub fn is_present(&self) -> (r: bool)
        ensures
            r == self.present_spec(),
    {
        self.reg & PCC_PR != 0
    }

    /// Reads the in-use bit.
    pub fn is_in_use(&self) -> (r: bool)
        ensures
            r == self.in_use_spec(),
    {
        self.reg & PCC_INUSE != 0
    }

    /// Reads the clock-gate-enable bit.
    pub fn is_enabled(&self) -> (r: bool)
        ensures
            r == self.enabled_spec(),
    {
        self.reg & PCC_CGC != 0
    }

    /// Enables the peripheral clock.
    ///
    /// Fails with `Absent` when the presence bit is clear — never with
    /// `InUse`, and never successfully.  Fails with `InUse` when the
    /// peripheral is present but already claimed by another core.  Only
    /// when the peripheral is present and unclaimed is its enable bit
    /// written; the register is untouched on either error.
    pub fn try_enable(&mut self) -> (r: Result<(), EnableError>)
        ensures
            !old(self).present_spec() ==> r == Err::<(), EnableError>(EnableError::Absent)
                && *final(self) == *old(self),
            old(self).present_spec() && old(self).in_use_spec() ==> r == Err::<(), EnableError>(
                EnableError::InUse,
            ) && *final(self) == *old(self),
            old(self).present_spec() && !old(self).in_use_spec() ==> r == Ok::<(), EnableError>(())
                && final(self).reg_spec() == pcc_write_cgc(old(self).reg_spec(), true),
    {
        if self.reg & PCC_PR == 0 {
            return Err(EnableError::Absent);
        }
        if self.reg & PCC_INUSE != 0 {
            return Err(EnableError::InUse);
        }
        self.reg = (self.reg & (PCC_PR | PCC_INUSE)) | PCC_CGC;
        Ok(())
    }

    /// Disables the peripheral clock.  Cannot fail: the enable bit is
    /// unconditionally cleared, and the read-only status bits keep their
    /// values.
    pub fn disable(&mut self)
        ensures
            final(self).reg_spec() == pcc_write_cgc(old(self).reg_spec(), false),
            !final(self).enabled_spec(),
            final(self).present_spec() == old(self).present_spec(),
            final(self).in_use_spec() == old(self).in_use_spec(),
    {
        self.reg = self.reg & (PCC_PR | PCC_INUSE);
        proof {
            lemma_pcc_write_cgc_bits(old(self).reg_spec(), false);
        }
    }
}

/// How a whole-register write of the enable bit reads back: the status
/// bits are unchanged and the enable bit holds exactly the written value.
pub proof fn lemma_pcc_write_cgc_bits(reg: u32, cgc: bool)
    ensures
        pcc_present(pcc_write_cgc(reg, cgc)) == pcc_present(reg),
        pcc_in_use(pcc_write_cgc(reg, cgc)) == pcc_in_use(reg),
        pcc_enabled(pcc_write_cgc(reg, cgc)) == cgc,
{
    assert(((reg & (PCC_PR | PCC_INUSE)) | PCC_CGC) & PCC_PR == reg & PCC_PR) by (bit_vector);
    assert((reg & (PCC_PR | PCC_INUSE)) & PCC_PR == reg & PCC_PR) by (bit_vector);
    assert(((reg & (PCC_PR | PCC_INUSE)) | PCC_CGC) & PCC_INUSE == reg & PCC_INUSE)
        by (bit_vector);
    assert((reg & (PCC_PR | PCC_INUSE)) & PCC_INUSE == reg & PCC_INUSE) by (bit_vector);
    assert(((reg & (PCC_PR | PCC_INUSE)) | PCC_CGC) & PCC_CGC != 0) by (bit_vector);
    assert((reg & (PCC_PR | PCC_INUSE)) & PCC_CGC == 0) by (bit_vector);
}

/// The raw register block of the peripheral clock controller: one
/// gate-control register image per clock-gated peripheral this layer
/// manages.
#[derive(Clone, Copy, Debug, PartialEq, Eq, Structural)]
pub struct Pcc0 {
    pub lpuart0: u32,
    pub porta: u32,
    pub portb: u32,
    pub portc: u32,
    pub portd: u32,
}

/// The clock controller split into independent per-peripheral gate tokens.
pub struct Pcc {
    /// Low-power UART clock gate.
    pub lpuart0: ClockGate,
    /// Port A clock gate.
    pub porta: ClockGate,
    /// Port B clock gate.
    pub portb: ClockGate,
    /// Port C clock gate.
    pub portc: ClockGate,
    /// Port D clock gate.
    pub portd: ClockGate,
}

/// Extension trait to split the clock-controller register block into
/// per-peripheral clock-gate tokens.
pub trait PccExt: Sized {
    /// Relates the register block to the bundle of gate tokens it splits
    /// into.
    spec fn constrain_post(&self, r: Pcc) -> bool;

    /// Splits the block, consuming it so no token can be duplicated.
    fn constrain(self) -> (r: Pcc)
        ensures
            self.constrain_post(r),
    ;
}

impl PccExt for Pcc0 {
    open spec fn constrain_post(&self, r: Pcc) -> bool {
        &&& r.lpuart0.reg_spec() == self.lpuart0
        &&& r.porta.reg_spec() == self.porta
        &&& r.portb.reg_spec() == self.portb
        &&& r.portc.reg_spec() == self.portc
        &&& r.portd.reg_spec() == self.portd
    }

    fn constrain(self) -> (r: Pcc) {
        Pcc {
            lpuart0: ClockGate { reg: self.lpuart0 },
            porta: ClockGate { reg: self.porta },
            portb: ClockGate { reg: self.portb },
            portc: ClockGate { reg: self.portc },
            portd: ClockGate { reg: self.portd },
        }
    }
}

} // verus!
