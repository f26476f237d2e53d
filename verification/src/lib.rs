//! Hardware abstraction layer for the RI5CY core of the RV32M1 SoC.
//!
//! The layer is organised around ownership tokens layered over explicit
//! register-block images.  Every register write a token operation
//! performs is stated bit-for-bit in that operation's contract, so the
//! register trace of any sequence of operations is pinned down
//! statically.  The tokens carry each pin's electrical mode in their
//! types: invalid transitions, such as rewriting a locked pin's
//! multiplexer, are not expressible.

pub mod gpio;
pub mod pcc;
pub mod port;
pub mod prelude;
pub mod scg;
pub mod serial;
pub mod timer;
pub mod tstmr;

use vstd::prelude::*;

use crate::gpio::GpioBank;
use crate::pcc::{Pcc0, pcc_enabled, pcc_in_use, pcc_present};
use crate::port::{PortBlock, lemma_reset_pcr_unlocked, pcr_locked, reset_block, reset_pcr};
use crate::serial::LpuartRegs;
use crate::timer::LptmrRegs;
use crate::tstmr::TstmrRegs;

verus! {

/// The full set of register-block images this layer manages, as handed
/// out at the construction entry point.
///
/// On silicon these registers exist exactly once; a program must
/// acquire this value a single time per reset and treat it as the root
/// of all peripheral ownership.  Enforcing the take-once discipline is
/// the duty of the surrounding runtime, since it needs process-wide
/// state.
pub struct Peripherals {
    /// Peripheral clock controller.
    pub pcc: Pcc0,
    /// Port A pin control registers.
    pub porta: PortBlock,
    /// Port B pin control registers.
    pub portb: PortBlock,
    /// Port C pin control registers.
    pub portc: PortBlock,
    /// Port D pin control registers.
    pub portd: PortBlock,
    /// GPIO bank A data-path registers.
    pub gpioa: GpioBank,
    /// GPIO bank B data-path registers.
    pub gpiob: GpioBank,
    /// GPIO bank C data-path registers.
    pub gpioc: GpioBank,
    /// GPIO bank D data-path registers.
    pub gpiod: GpioBank,
    /// Low-power UART registers.
    pub lpuart0: LpuartRegs,
    /// Low-power timer registers.
    pub lptmr0: LptmrRegs,
    /// Timestamp counter registers.
    pub tstmra: TstmrRegs,
}

impl Peripherals {
    /// The register-block images in their documented reset state: every
    /// managed peripheral present with its clock gated off and not in
    /// use, the bank A debug pins on their JTAG function, no pin
    /// locked, and the data-path, UART, timer and timestamp registers
    /// cleared.
    pub fn new() -> (r: Peripherals)
        ensures
            r.pcc.lpuart0 == 0x8000_0000u32,
            r.pcc.porta == 0x8000_0000u32,
            r.pcc.portb == 0x8000_0000u32,
            r.pcc.portc == 0x8000_0000u32,
            r.pcc.portd == 0x8000_0000u32,
            pcc_present(0x8000_0000) && !pcc_in_use(0x8000_0000) && !pcc_enabled(0x8000_0000),
            r.porta.wf() && r.porta.bank_spec() == 0,
            r.portb.wf() && r.portb.bank_spec() == 1,
            r.portc.wf() && r.portc.bank_spec() == 2,
            r.portd.wf() && r.portd.bank_spec() == 3,
            forall|i: int|
                0 <= i < 32 ==> (#[trigger] r.porta.pcrs_spec()[i]) == reset_pcr(0, i as u8)
                    && !pcr_locked(r.porta.pcrs_spec()[i]),
            forall|i: int|
                0 <= i < 32 ==> (#[trigger] r.portb.pcrs_spec()[i]) == reset_pcr(1, i as u8)
                    && !pcr_locked(r.portb.pcrs_spec()[i]),
            forall|i: int|
                0 <= i < 32 ==> (#[trigger] r.portc.pcrs_spec()[i]) == reset_pcr(2, i as u8)
                    && !pcr_locked(r.portc.pcrs_spec()[i]),
            forall|i: int|
                0 <= i < 32 ==> (#[trigger] r.portd.pcrs_spec()[i]) == reset_pcr(3, i as u8)
                    && !pcr_locked(r.portd.pcrs_spec()[i]),
            r.gpioa == (GpioBank { bank: 0, pdor: 0, pddr: 0, pdir: 0 }),
            r.gpiob == (GpioBank { bank: 1, pdor: 0, pddr: 0, pdir: 0 }),
            r.gpioc == (GpioBank { bank: 2, pdor: 0, pddr: 0, pdir: 0 }),
            r.gpiod == (GpioBank { bank: 3, pdor: 0, pddr: 0, pdir: 0 }),
            r.lpuart0 == (LpuartRegs { global: 0, baud: 0, stat: 0, ctrl: 0 }),
            r.lptmr0 == (LptmrRegs { csr: 0, psr: 0, cmr: 0, cnr: 0 }),
            r.tstmra == (TstmrRegs { high: 0, low: 0 }),
            r.tstmra.wf(),
    {
        let p = Peripherals {
            pcc: Pcc0 {
                lpuart0: 0x8000_0000,
                porta: 0x8000_0000,
                portb: 0x8000_0000,
                portc: 0x8000_0000,
                portd: 0x8000_0000,
            },
            porta: reset_block(0),
            portb: reset_block(1),
            portc: reset_block(2),
            portd: reset_block(3),
            gpioa: GpioBank { bank: 0, pdor: 0, pddr: 0, pdir: 0 },
            gpiob: GpioBank { bank: 1, pdor: 0, pddr: 0, pdir: 0 },
            gpioc: GpioBank { bank: 2, pdor: 0, pddr: 0, pdir: 0 },
            gpiod: GpioBank { bank: 3, pdor: 0, pddr: 0, pdir: 0 },
            lpuart0: LpuartRegs { global: 0, baud: 0, stat: 0, ctrl: 0 },
            lptmr0: LptmrRegs { csr: 0, psr: 0, cmr: 0, cnr: 0 },
            tstmra: TstmrRegs { high: 0, low: 0 },
        };
        proof {
            assert forall|b: u8, i: u8| b < 4 && i < 32 implies !pcr_locked(reset_pcr(b, i)) by {
                lemma_reset_pcr_unlocked(b, i);
            }
            assert(0x8000_0000u32 & 0x8000_0000 != 0 && 0x8000_0000u32 & 0x2000_0000 == 0
                && 0x8000_0000u32 & 0x4000_0000 == 0) by (bit_vector);
        }
        p
    }
}

} // verus!
