use rv32m1_ri5cy_hal::timer::{CountDown, Event, LptmrRegs, Timer, WaitError};
use rv32m1_ri5cy_hal::tstmr::{TstmrRegs, timestamp};

#[test]
fn timer_init_disables_and_keeps_the_rest() {
    let t = Timer::lptmr0(LptmrRegs { csr: 0xFF, psr: 0x7F, cmr: 9, cnr: 7 });
    assert_eq!(t.tmr.csr, 0xFE);
    assert_eq!(t.tmr.psr, 0x7F);
    assert_eq!(t.tmr.cmr, 9);
    assert_eq!(t.tmr.cnr, 7);
}

#[test]
fn countdown_start_programs_mode_prescaler_and_compare() {
    let t = Timer::lptmr0(LptmrRegs { csr: 0xFF, psr: 0x7F, cmr: 0, cnr: 0 });
    let cd = t.start_count_down(1000);
    // counter mode, reset on compare, input 0, flag cleared, enabled
    assert_eq!(cd.tmr.csr, 0x41);
    // prescaler bypassed on prescaler clock 1
    assert_eq!(cd.tmr.psr, 0x05);
    assert_eq!(cd.tmr.cmr, 1000);
    assert_eq!(cd.ticks, 1000);
}

#[test]
fn countdown_polls_the_compare_flag_without_blocking() {
    let t = Timer::lptmr0(LptmrRegs { csr: 0, psr: 0, cmr: 0, cnr: 0 });
    let mut cd = t.start_count_down(250);
    assert_eq!(cd.try_wait(), Err(WaitError::WouldBlock));
    // the hardware raises the compare flag when the counter matches
    cd.tmr.csr |= 0x80;
    assert_eq!(cd.try_wait(), Ok(()));
    // polling writes nothing: the flag stays up until restarted
    assert_eq!(cd.try_wait(), Ok(()));
    // restarting clears the flag by writing one to it
    cd.try_start(500).unwrap();
    assert_eq!(cd.tmr.cmr, 500);
    assert_eq!(cd.try_wait(), Err(WaitError::WouldBlock));
}

#[test]
fn countdown_interrupt_enable_and_stop() {
    let t = Timer::lptmr0(LptmrRegs { csr: 0, psr: 0, cmr: 0, cnr: 0 });
    let mut cd = t.start_count_down(10);
    cd.listen(Event::Update);
    assert_eq!(cd.tmr.csr & 0x40, 0x40);
    cd.unlisten(Event::Update);
    assert_eq!(cd.tmr.csr & 0x40, 0);
    cd.tmr.cnr = 3;
    assert_eq!(cd.ticks_since(), 3);
    let t = cd.stop();
    assert_eq!(t.tmr.csr & 0x1, 0);
    let regs = t.release();
    assert_eq!(regs.cmr, 10);
}

#[test]
fn countdown_release_stops_and_returns_the_block() {
    let t = Timer::lptmr0(LptmrRegs { csr: 0, psr: 0, cmr: 0, cnr: 0 });
    let cd: CountDown<LptmrRegs> = t.start_count_down(77);
    let regs = cd.release();
    assert_eq!(regs.csr & 0x1, 0);
    assert_eq!(regs.cmr, 77);
}

#[test]
fn timestamp_joins_the_counter_words() {
    assert_eq!(timestamp(&TstmrRegs { high: 0, low: 0 }), 0);
    assert_eq!(timestamp(&TstmrRegs { high: 0, low: 0xFFFF_FFFF }), 0xFFFF_FFFF);
    assert_eq!(timestamp(&TstmrRegs { high: 1, low: 5 }), 0x1_0000_0005);
    let max = timestamp(&TstmrRegs { high: 0xFF_FFFF, low: 0xFFFF_FFFF });
    assert_eq!(max, 0x00FF_FFFF_FFFF_FFFF);
    // the high 8 bits of the 56-bit counter always read zero
    assert_eq!(max >> 56, 0);
}
