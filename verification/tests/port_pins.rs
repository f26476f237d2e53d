use rv32m1_ri5cy_hal::Peripherals;
use rv32m1_ri5cy_hal::pcc::{EnableError, Pcc0, PccExt};
use rv32m1_ri5cy_hal::port::{ErasedPin, PortExt, af_mask, af_supported};

#[test]
fn capability_table_matches_the_pinout() {
    // PTA0 carries only its GPIO function and the NMI debug function
    assert_eq!(af_mask(0, 0), 0x82);
    assert!(af_supported(0, 0, 1));
    assert!(af_supported(0, 0, 7));
    assert!(!af_supported(0, 0, 2));
    assert!(!af_supported(0, 0, 3));
    // PTA5 is not bonded out on this package
    assert_eq!(af_mask(0, 5), 0);
    assert!(!af_supported(0, 5, 1));
    // PTB7 is one of the few pads with an analog function on setting 0
    assert!(af_supported(1, 7, 0));
    assert!(!af_supported(1, 6, 0));
    // PTC27 routes only GPIO and a timer channel
    assert_eq!(af_mask(2, 27), 0x42);
    // PTD11 carries every alternate function
    assert_eq!(af_mask(3, 11), 0xFF);
    // a bank beyond D holds no pins
    assert_eq!(af_mask(4, 0), 0);
    // a function index beyond 7 never exists
    assert!(!af_supported(3, 11, 8));
}

#[test]
fn split_hands_out_exactly_the_bonded_pins() {
    let p = Peripherals::new();
    let mut pcc = p.pcc.constrain();
    let mut parts = p.porta.split(&mut pcc.porta).unwrap();
    assert!(pcc.porta.is_enabled());
    // bonded pin: a token, carrying its own index
    let pta2 = parts.take(2).unwrap();
    assert_eq!(pta2.pin_bank(), 0);
    assert_eq!(pta2.pin_index(), 2);
    // the debug pins of bank A come up on their JTAG function
    assert_eq!(pta2.pcr_value(), 0x700);
    // pins past the JTAG group come up disabled
    let pta24 = parts.take(24).unwrap();
    assert_eq!(pta24.pcr_value(), 0);
    // unbonded position: no token
    assert!(parts.take(5).is_none());
    // taking twice yields nothing the second time
    assert!(parts.take(2).is_none());
}

#[test]
fn split_fails_like_the_clock_gate() {
    let p = Peripherals::new();
    let pcc0 = Pcc0 { porta: 0, portb: 0xA000_0000, ..p.pcc };
    let mut pcc = pcc0.constrain();
    assert!(matches!(p.porta.split(&mut pcc.porta), Err(EnableError::Absent)));
    assert!(matches!(p.portb.split(&mut pcc.portb), Err(EnableError::InUse)));
    assert!(!pcc.porta.is_enabled());
    assert!(!pcc.portb.is_enabled());
}

#[test]
fn mux_transitions_write_the_documented_register_values() {
    let p = Peripherals::new();
    let mut pcc = p.pcc.constrain();
    let mut parts = p.porta.split(&mut pcc.porta).unwrap();
    // PTA0 supports its alternate function 7
    let pta0 = parts.take(0).unwrap();
    let pta0 = pta0.into_af7();
    assert_eq!(pta0.pcr_value(), 0x700);
    let pta0 = pta0.into_disabled();
    assert_eq!(pta0.pcr_value(), 0x000);
    // PTA3 routes the UART transmit signal on setting 2
    let pta3 = parts.take(3).unwrap();
    let pta3 = pta3.into_af2();
    assert_eq!(pta3.pcr_value(), 0x200);
    let pta3 = pta3.into_af1();
    assert_eq!(pta3.pcr_value(), 0x100);
    // PTB7 carries an analog function on setting 0
    let mut parts_b = p.portb.split(&mut pcc.portb).unwrap();
    let ptb7 = parts_b.take(7).unwrap();
    let ptb7 = ptb7.into_af0();
    assert_eq!(ptb7.pcr_value(), 0x000);
    let ptb7 = ptb7.into_af3();
    assert_eq!(ptb7.pcr_value(), 0x300);
}

#[test]
fn locking_sets_the_lock_bit_in_the_pins_own_register() {
    let p = Peripherals::new();
    let mut pcc = p.pcc.constrain();
    let mut parts = p.portd.split(&mut pcc.portd).unwrap();
    // lock a pin other than index zero: the write must land in that
    // pin's register, keyed by its own index
    let ptd9 = parts.take(9).unwrap();
    let ptd9 = ptd9.into_af2();
    let locked = ptd9.lock();
    assert_eq!(locked.pin_index(), 9);
    assert_eq!(locked.pcr_value(), 0x8200);
    // a pin never locked stays unlocked
    let ptd3 = parts.take(3).unwrap();
    assert_eq!(ptd3.pcr_value() & 0x8000, 0);
    // the lock survives a downgrade
    let erased = locked.downgrade();
    assert!(erased.is_locked());
    assert_eq!(erased.pin_index(), 9);
    assert_eq!(erased.pcr_value(), 0x8200);
}

#[test]
fn free_round_trip_restores_a_resplittable_block() {
    let mut p = Peripherals::new();
    let mut pcc = p.pcc.constrain();
    let mut parts = p.portd.split(&mut pcc.portd).unwrap();
    assert!(pcc.portd.is_enabled());
    let mut returned: Vec<Option<ErasedPin>> = Vec::new();
    for i in 0..32u8 {
        match parts.take(i) {
            Some(pin) => {
                // normalize to a floating input before handing it back
                let g = pin.into_floating_input(&mut p.gpiod);
                returned.push(Some(g.release().downgrade()));
            }
            None => returned.push(None),
        }
    }
    let block = parts.free(returned, &mut pcc.portd);
    // the clock gate ends disabled
    assert!(!pcc.portd.is_enabled());
    assert_eq!(block.port_bank(), 3);
    assert_eq!(block.pcr_value(0), 0x100);
    assert_eq!(block.pcr_value(11), 0x100);
    // an unbonded position reads zero
    assert_eq!(block.pcr_value(31), 0);
    // nothing was locked, so the block can be split again
    let mut parts2 = block.split(&mut pcc.portd).unwrap();
    assert!(pcc.portd.is_enabled());
    let ptd0 = parts2.take(0).unwrap();
    assert_eq!(ptd0.pcr_value(), 0x100);
}
