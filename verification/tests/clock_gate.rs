use rv32m1_ri5cy_hal::pcc::{EnableError, Pcc0, PccExt};

fn pcc_with(reg: u32) -> Pcc0 {
    Pcc0 { lpuart0: reg, porta: reg, portb: reg, portc: reg, portd: reg }
}

#[test]
fn absent_peripheral_always_reports_absent() {
    // presence bit clear, nothing else set
    let mut pcc = pcc_with(0x0000_0000).constrain();
    assert_eq!(pcc.porta.try_enable(), Err(EnableError::Absent));
    // presence bit clear but in-use bit set: still Absent, never InUse
    let mut pcc = pcc_with(0x2000_0000).constrain();
    assert_eq!(pcc.porta.try_enable(), Err(EnableError::Absent));
    assert!(!pcc.porta.is_enabled());
    // a second attempt changes nothing
    assert_eq!(pcc.porta.try_enable(), Err(EnableError::Absent));
    assert!(!pcc.porta.is_enabled());
}

#[test]
fn in_use_peripheral_reports_in_use() {
    let mut pcc = pcc_with(0xA000_0000).constrain();
    assert_eq!(pcc.portb.try_enable(), Err(EnableError::InUse));
    assert!(pcc.portb.is_present());
    assert!(pcc.portb.is_in_use());
    assert!(!pcc.portb.is_enabled());
}

#[test]
fn present_free_peripheral_enables_and_disables() {
    let mut pcc = pcc_with(0x8000_0000).constrain();
    assert!(pcc.portc.is_present());
    assert!(!pcc.portc.is_in_use());
    assert!(!pcc.portc.is_enabled());
    assert_eq!(pcc.portc.try_enable(), Ok(()));
    assert!(pcc.portc.is_enabled());
    // the read-only status bits keep their values across the write
    assert!(pcc.portc.is_present());
    assert!(!pcc.portc.is_in_use());
    pcc.portc.disable();
    assert!(!pcc.portc.is_enabled());
    assert!(pcc.portc.is_present());
}

#[test]
fn constrain_hands_out_one_gate_per_peripheral() {
    let pcc = Pcc0 {
        lpuart0: 0x8000_0000,
        porta: 0x0000_0000,
        portb: 0xA000_0000,
        portc: 0x8000_0000,
        portd: 0x8000_0000,
    }.constrain();
    assert!(pcc.lpuart0.is_present());
    assert!(!pcc.porta.is_present());
    assert!(pcc.portb.is_in_use());
    assert!(!pcc.portd.is_in_use());
}

#[test]
fn reset_state_reports_every_peripheral_present_and_idle() {
    let p = rv32m1_ri5cy_hal::Peripherals::new();
    let pcc = p.pcc.constrain();
    for gate in [&pcc.lpuart0, &pcc.porta, &pcc.portb, &pcc.portc, &pcc.portd] {
        assert!(gate.is_present());
        assert!(!gate.is_in_use());
        assert!(!gate.is_enabled());
    }
    assert_eq!(p.gpioa.pddr, 0);
    assert_eq!(p.gpiod.bank, 3);
    assert_eq!(p.lpuart0.ctrl, 0);
    assert_eq!(p.lptmr0.csr, 0);
    assert_eq!(rv32m1_ri5cy_hal::tstmr::timestamp(&p.tstmra), 0);
}
