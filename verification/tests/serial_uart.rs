use rv32m1_ri5cy_hal::Peripherals;
use rv32m1_ri5cy_hal::pcc::{EnableError, Pcc0, PccExt};
use rv32m1_ri5cy_hal::port::PortExt;
use rv32m1_ri5cy_hal::scg::{Clocks, Source};
use rv32m1_ri5cy_hal::serial::{
    Config, Order, Parity, Serial, StopBits, calculate_osr_sbr_from_baudrate,
};

#[test]
fn clock_frequencies_are_the_documented_ones() {
    let clocks = Clocks {};
    assert_eq!(clocks.sysosc(), 72_000_000);
    assert_eq!(clocks.sirc(), 0);
    assert_eq!(clocks.hirc(), 0);
    assert_eq!(clocks.lpfll(), 0);
    assert_eq!(clocks.of_source(Source::SysOsc), 72_000_000);
    assert_eq!(clocks.of_source(Source::Sirc), 0);
}

#[test]
fn config_default_is_the_documented_default() {
    let c = Config::default();
    assert_eq!(c.baudrate, 115_200);
    assert_eq!(c.parity, Parity::ParityNone);
    assert_eq!(c.stopbits, StopBits::STOP1);
    assert_eq!(c.order, Order::LsbFirst);
}

#[test]
fn divisor_search_hits_the_standard_rate_exactly() {
    // 72 MHz divides evenly: oversampling ratio 5, divisor 125
    let (osr, sbr, err) = calculate_osr_sbr_from_baudrate(72_000_000, 115_200);
    assert_eq!((osr, sbr, err), (5, 125, 0));
    assert_eq!(72_000_000 / (osr as u32 * sbr as u32), 115_200);
}

#[test]
fn divisor_search_minimizes_the_error_otherwise() {
    // 48 MHz does not divide evenly; the best reachable divisor product
    // is 416, implying 115384 baud, 184 bps off
    let (osr, sbr, err) = calculate_osr_sbr_from_baudrate(48_000_000, 115_200);
    assert_eq!(err, 184);
    assert_eq!(48_000_000 / (osr as u32 * sbr as u32), 115_384);
    assert_eq!((osr, sbr), (4, 104));
}

#[test]
fn lpuart0_programs_the_documented_registers() {
    let p = Peripherals::new();
    let mut pcc = p.pcc.constrain();
    let mut parts = p.porta.split(&mut pcc.porta).unwrap();
    let tx = parts.take(3).unwrap().into_af2();
    let rx = parts.take(2).unwrap().into_af2();
    let serial = Serial::lpuart0(
        p.lpuart0,
        (tx, rx),
        Config::default(),
        Clocks {},
        Source::SysOsc,
        &mut pcc.lpuart0,
    ).unwrap();
    assert!(pcc.lpuart0.is_enabled());
    let (regs, _pins) = serial.release(&mut pcc.lpuart0);
    // oversampling ratio 5 stored as 4 in bits 24..29, divisor 125 in
    // bits 0..13, both-edge sampling on for ratios below 8, one stop bit
    assert_eq!(regs.baud, (4 << 24) | 0x2_0000 | 125);
    assert_eq!(regs.stat, 0);
    assert_eq!(regs.global, 0);
    // release cleared the transmitter and receiver enables
    assert_eq!(regs.ctrl, 0);
    assert!(!pcc.lpuart0.is_enabled());
}

#[test]
fn lpuart0_honors_parity_order_and_stop_bits() {
    let p = Peripherals::new();
    let mut pcc = p.pcc.constrain();
    let mut parts = p.portc.split(&mut pcc.portc).unwrap();
    // the second pin set routes the UART over bank C on setting 3
    let tx = parts.take(8).unwrap().into_af3();
    let rx = parts.take(7).unwrap().into_af3();
    let config = Config {
        baudrate: 115_200,
        parity: Parity::ParityOdd,
        stopbits: StopBits::STOP2,
        order: Order::MsbFirst,
    };
    let serial = Serial::lpuart0(
        p.lpuart0,
        (tx, rx),
        config,
        Clocks {},
        Source::SysOsc,
        &mut pcc.lpuart0,
    ).unwrap();
    let (regs, pins) = serial.release(&mut pcc.lpuart0);
    // two stop bits set the stop-bit-number flag
    assert_eq!(regs.baud, (4 << 24) | 0x2_0000 | 0x2000 | 125);
    // most-significant bit first
    assert_eq!(regs.stat, 0x2000_0000);
    // odd parity programmed enables, type and nine-bit mode; release
    // then cleared the enables again
    assert_eq!(regs.ctrl, 0x13);
    // the pins come back out
    assert_eq!(pins.0.pin_index(), 8);
    assert_eq!(pins.1.pin_index(), 7);
}

#[test]
fn lpuart0_surfaces_the_clock_gate_errors() {
    let p = Peripherals::new();
    let mut pcc = Pcc0 { lpuart0: 0, ..p.pcc }.constrain();
    let mut parts = p.porta.split(&mut pcc.porta).unwrap();
    let tx = parts.take(3).unwrap().into_af2();
    let rx = parts.take(2).unwrap().into_af2();
    let r = Serial::lpuart0(
        p.lpuart0,
        (tx, rx),
        Config::default(),
        Clocks {},
        Source::SysOsc,
        &mut pcc.lpuart0,
    );
    assert!(matches!(r, Err(EnableError::Absent)));
    assert!(!pcc.lpuart0.is_enabled());
}

#[test]
fn four_wire_pin_sets_are_accepted() {
    let p = Peripherals::new();
    let mut pcc = p.pcc.constrain();
    let mut parts = p.porta.split(&mut pcc.porta).unwrap();
    let tx = parts.take(3).unwrap().into_af2();
    let rx = parts.take(2).unwrap().into_af2();
    let rts = parts.take(4).unwrap().into_af2();
    let cts = parts.take(1).unwrap().into_af2();
    let serial = Serial::lpuart0(
        p.lpuart0,
        (tx, rx, rts, cts),
        Config::default(),
        Clocks {},
        Source::SysOsc,
        &mut pcc.lpuart0,
    ).unwrap();
    let (regs, _pins) = serial.release(&mut pcc.lpuart0);
    assert_eq!(regs.baud, (4 << 24) | 0x2_0000 | 125);
}

#[test]
fn split_halves_release_the_clock_only_when_both_are_down() {
    let p = Peripherals::new();
    let mut pcc = p.pcc.constrain();
    let mut parts = p.porta.split(&mut pcc.porta).unwrap();
    let tx_pin = parts.take(3).unwrap().into_af2();
    let rx_pin = parts.take(2).unwrap().into_af2();
    let serial = Serial::lpuart0(
        p.lpuart0,
        (tx_pin, rx_pin),
        Config::default(),
        Clocks {},
        Source::SysOsc,
        &mut pcc.lpuart0,
    ).unwrap();
    let (tx, rx) = serial.split();
    // taking down the transmitter leaves the receiver running, so the
    // clock stays on
    let mut regs = tx.release(&mut pcc.lpuart0);
    assert!(pcc.lpuart0.is_enabled());
    assert_eq!(regs.ctrl, 0x4_0000);
    // taking down the receiver as well releases the clock
    rx.release(&mut regs, &mut pcc.lpuart0);
    assert!(!pcc.lpuart0.is_enabled());
    assert_eq!(regs.ctrl, 0);
}

#[test]
fn divisor_search_serves_low_standard_rates() {
    // 1200 baud at the 72 MHz source is exact: ratio 8, divisor 7500
    let (osr, sbr, err) = calculate_osr_sbr_from_baudrate(72_000_000, 1_200);
    assert_eq!((osr, sbr, err), (8, 7500, 0));
    assert_eq!(72_000_000 / (osr as u32 * sbr as u32), 1_200);
}

#[test]
fn divisor_search_serves_rates_above_clock_over_thirty_two() {
    // 4.5 Mbps at 72 MHz is exact with a divisor product of 16
    let (osr, sbr, err) = calculate_osr_sbr_from_baudrate(72_000_000, 4_500_000);
    assert_eq!((osr, sbr, err), (4, 4, 0));
}

#[test]
fn divisor_search_clamps_into_the_register_field() {
    // a rate so low that every exact divisor overflows the 13-bit
    // field: the best the field can hold is ratio 32, divisor 8191
    let (osr, sbr, err) = calculate_osr_sbr_from_baudrate(72_000_000, 100);
    assert_eq!((osr, sbr), (32, 8191));
    assert_eq!(err, 72_000_000 / (32 * 8191) - 100);
    // a clock too slow for the target: every divisor undershoots, and
    // the smallest divisor at the lowest ratio comes closest
    let (osr, sbr, err) = calculate_osr_sbr_from_baudrate(10, 3);
    assert_eq!((osr, sbr, err), (4, 1, 1));
    // the exact divisor landing on the field's cap stays exact
    let (osr, sbr, err) = calculate_osr_sbr_from_baudrate(32_767, 1);
    assert_eq!((osr, sbr, err), (4, 8191, 0));
}

#[test]
fn lpuart0_programs_low_rates_without_both_edge_sampling() {
    let p = Peripherals::new();
    let mut pcc = p.pcc.constrain();
    let mut parts = p.porta.split(&mut pcc.porta).unwrap();
    let tx = parts.take(3).unwrap().into_af2();
    let rx = parts.take(2).unwrap().into_af2();
    let config = Config { baudrate: 1_200, ..Config::default() };
    let serial = Serial::lpuart0(
        p.lpuart0,
        (tx, rx),
        config,
        Clocks {},
        Source::SysOsc,
        &mut pcc.lpuart0,
    ).unwrap();
    let (regs, _pins) = serial.release(&mut pcc.lpuart0);
    // ratio 8 stored as 7; both-edge sampling only below ratio 8
    assert_eq!(regs.baud, (7 << 24) | 7500);
}

#[test]
fn lpuart0_reports_absent_for_any_configuration() {
    // the clock-enable check precedes the divisor computation, so even
    // a rate far outside the divisor table yields exactly Absent
    let p = Peripherals::new();
    let mut pcc = Pcc0 { lpuart0: 0, ..p.pcc }.constrain();
    let mut parts = p.porta.split(&mut pcc.porta).unwrap();
    let tx = parts.take(3).unwrap().into_af2();
    let rx = parts.take(2).unwrap().into_af2();
    let config = Config { baudrate: 300, ..Config::default() };
    let r = Serial::lpuart0(
        p.lpuart0,
        (tx, rx),
        config,
        Clocks {},
        Source::SysOsc,
        &mut pcc.lpuart0,
    );
    assert!(matches!(r, Err(EnableError::Absent)));
    assert!(!pcc.lpuart0.is_enabled());
}
