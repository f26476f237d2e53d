//! Timer module.
//!
//! Countdown sessions over the low-power timer (LPTMR).  The timer's
//! control/status register is read-modify-written field by field; the
//! compare register takes the tick count, and the hardware raises the
//! compare flag when the counter reaches it.  Waiting never blocks: the
//! poll operation reports "not ready yet" instead of sleeping.

use vstd::prelude::*;

use core::convert::Infallible;

verus! {

/// Timer enable bit of the control/status register.
pub const LPTMR_CSR_TEN: u32 = 0x1;

/// Timer mode select bit (clear: time counter mode).
pub const LPTMR_CSR_TMS: u32 = 0x2;

/// Free-running counter bit (clear: reset on compare).
pub const LPTMR_CSR_TFC: u32 = 0x4;

/// Pin polarity bit (clear: active high).
pub const LPTMR_CSR_TPP: u32 = 0x8;

/// Pin select field (zeroed: input 0).
pub const LPTMR_CSR_TPS: u32 = 0x30;

/// Interrupt enable bit.
pub const LPTMR_CSR_TIE: u32 = 0x40;

/// Compare flag, set by hardware on compare match, cleared by writing
/// one to it.
pub const LPTMR_CSR_TCF: u32 = 0x80;

/// Prescaler clock select field (set to clock 1).
pub const LPTMR_PSR_PCS: u32 = 0x3;

/// Prescaler bypass bit.
pub const LPTMR_PSR_PBYP: u32 = 0x4;

/// Prescale value field (zeroed: divide by two, bypassed here).
pub const LPTMR_PSR_PRESCALE: u32 = 0x78;

/// The LPTMR register block image.
#[derive(Clone, Copy, Debug, PartialEq, Eq, Structural)]
pub struct LptmrRegs {
    /// Control/status register.
    pub csr: u32,
    /// Prescale register.
    pub psr: u32,
    /// Compare register.
    pub cmr: u32,
    /// Counter register, hardware-driven.
    pub cnr: u32,
}

/// An initialized, stopped timer owning its register block.  The
/// register image stays public: on silicon the counter hardware keeps
/// acting on these registers beside the software that owns the token.
pub struct Timer<T> {
    pub tmr: T,
}

impl<T> Timer<T> {
    /// The owned register block image.
    pub open spec fn regs_spec(&self) -> T {
        self.tmr
    }
}

impl Timer<LptmrRegs> {
    /// Initializes the timer: disables it by clearing the enable bit,
    /// leaving every other field as found.
    pub fn lptmr0(tmr: LptmrRegs) -> (r: Timer<LptmrRegs>)
        ensures
            r.regs_spec().csr == tmr.csr & !LPTMR_CSR_TEN,
            r.regs_spec().psr == tmr.psr,
            r.regs_spec().cmr == tmr.cmr,
            r.regs_spec().cnr == tmr.cnr,
    {
        let mut tmr = tmr;
        // disable the timer
        tmr.csr = tmr.csr & !LPTMR_CSR_TEN;
        Timer { tmr }
    }

    /// Starts a new countdown of `timeout` ticks: selects time-counter
    /// mode with reset-on-compare and input 0, bypasses the prescaler on
    /// prescaler clock 1, clears the compare flag, programs the compare
    /// register and enables the timer.
    pub fn start_count_down(self, timeout: u32) -> (r: CountDown<LptmrRegs>)
        ensures
            r.ticks_spec() == timeout,
            r.regs_spec().csr == ((((self.regs_spec().csr & !(LPTMR_CSR_TMS | LPTMR_CSR_TFC
                | LPTMR_CSR_TPP | LPTMR_CSR_TPS)) & !LPTMR_CSR_TCF) | LPTMR_CSR_TEN)),
            r.regs_spec().psr == ((self.regs_spec().psr & !(LPTMR_PSR_PCS | LPTMR_PSR_PBYP
                | LPTMR_PSR_PRESCALE)) | LPTMR_PSR_PBYP | 0x1),
            r.regs_spec().cmr == timeout,
            r.regs_spec().cnr == self.regs_spec().cnr,
    {
        let Timer { mut tmr } = self;
        // timer counter mode, no free running, active high, input 0
        tmr.csr = tmr.csr & !(LPTMR_CSR_TMS | LPTMR_CSR_TFC | LPTMR_CSR_TPP | LPTMR_CSR_TPS);
        // bypass the prescaler, prescaler clock 1
        tmr.psr = (tmr.psr & !(LPTMR_PSR_PCS | LPTMR_PSR_PBYP | LPTMR_PSR_PRESCALE))
            | LPTMR_PSR_PBYP | 0x1;
        let mut ans = CountDown { ticks: timeout, tmr };
        let started = ans.try_start(timeout);
        let _ = started;
        ans
    }

    /// Releases the timer's register block.
    pub fn release(self) -> (r: LptmrRegs)
        ensures
            r == self.regs_spec(),
    {
        self.tmr
    }
}

/// Timer update events.
pub enum Event {
    /// Timer timed out / count down ended
    Update,
}

/// The error reported by a poll that found the countdown still running.
#[derive(Debug, Copy, Clone, Eq, PartialEq, Structural)]
pub enum WaitError {
    /// The countdown has not finished yet; poll again.
    WouldBlock,
}

/// A running countdown session owning the timer's register block.  The
/// register image stays public: the counter hardware increments the
/// counter and raises the compare flag beside the software that owns
/// the token.
pub struct CountDown<T> {
    pub ticks: u32,
    pub tmr: T,
}

impl<T> CountDown<T> {
    /// The owned register block image.
    pub open spec fn regs_spec(&self) -> T {
        self.tmr
    }

    /// The tick count this countdown was started with.
    pub open spec fn ticks_spec(&self) -> u32 {
        self.ticks
    }
}

impl CountDown<LptmrRegs> {
    /// Enables the timer interrupt.
    pub fn listen(&mut self, event: Event)
        ensures
            final(self).regs_spec().csr == old(self).regs_spec().csr | LPTMR_CSR_TIE,
            final(self).regs_spec().psr == old(self).regs_spec().psr,
            final(self).regs_spec().cmr == old(self).regs_spec().cmr,
            final(self).regs_spec().cnr == old(self).regs_spec().cnr,
            final(self).ticks_spec() == old(self).ticks_spec(),
    {
        let _ = event;  // only one case
        self.tmr.csr = self.tmr.csr | LPTMR_CSR_TIE;
    }

    /// Disables the timer interrupt.
    pub fn unlisten(&mut self, event: Event)
        ensures
            final(self).regs_spec().csr == old(self).regs_spec().csr & !LPTMR_CSR_TIE,
            final(self).regs_spec().psr == old(self).regs_spec().psr,
            final(self).regs_spec().cmr == old(self).regs_spec().cmr,
            final(self).regs_spec().cnr == old(self).regs_spec().cnr,
            final(self).ticks_spec() == old(self).ticks_spec(),
    {
        let _ = event;  // only one case
        self.tmr.csr = self.tmr.csr & !LPTMR_CSR_TIE;
    }

    /// Stops the countdown by clearing the enable bit and hands the
    /// timer back.
    pub fn stop(self) -> (r: Timer<LptmrRegs>)
        ensures
            r.regs_spec().csr == self.regs_spec().csr & !LPTMR_CSR_TEN,
            r.regs_spec().psr == self.regs_spec().psr,
            r.regs_spec().cmr == self.regs_spec().cmr,
            r.regs_spec().cnr == self.regs_spec().cnr,
    {
        let CountDown { ticks, mut tmr } = self;
        let _ = ticks;
        // disable the timer
        tmr.csr = tmr.csr & !LPTMR_CSR_TEN;
        Timer { tmr }
    }

    /// Returns the number of ticks counted since the last update event.
    pub fn ticks_since(&self) -> (r: u32)
        ensures
            r == self.regs_spec().cnr,
    {
        self.tmr.cnr
    }

    /// Stops the countdown and releases the register block.
    pub fn release(self) -> (r: LptmrRegs)
        ensures
            r.csr == self.regs_spec().csr & !LPTMR_CSR_TEN,
            r.psr == self.regs_spec().psr,
            r.cmr == self.regs_spec().cmr,
            r.cnr == self.regs_spec().cnr,
    {
        self.stop().release()
    }

    /// Starts a new countdown of `count` ticks: clears the compare flag
    /// by writing one to it, programs the compare register and enables
    /// the timer.  Infallible.
    pub fn try_start(&mut self, count: u32) -> (r: Result<(), Infallible>)
        ensures
            r is Ok,
            final(self).ticks_spec() == count,
            final(self).regs_spec().csr == ((old(self).regs_spec().csr & !LPTMR_CSR_TCF)
                | LPTMR_CSR_TEN),
            final(self).regs_spec().psr == old(self).regs_spec().psr,
            final(self).regs_spec().cmr == count,
            final(self).regs_spec().cnr == old(self).regs_spec().cnr,
    {
        self.ticks = count;
        // the compare flag is cleared by writing one to it
        self.tmr.csr = self.tmr.csr & !LPTMR_CSR_TCF;
        self.tmr.cmr = self.ticks;
        // enable the timer
        self.tmr.csr = self.tmr.csr | LPTMR_CSR_TEN;
        Ok(())
    }

    /// Non-blockingly polls the countdown: ready exactly when the
    /// hardware has raised the compare flag, otherwise reports that the
    /// caller would block.  Nothing is written.
    pub fn try_wait(&mut self) -> (r: Result<(), WaitError>)
        ensures
            *final(self) == *old(self),
            r is Ok <==> old(self).regs_spec().csr & LPTMR_CSR_TCF != 0,
            r is Err ==> r->Err_0 == WaitError::WouldBlock,
    {
        if self.tmr.csr & LPTMR_CSR_TCF != 0 {
            Ok(())
        } else {
            Err(WaitError::WouldBlock)
        }
    }
}

} // verus!
