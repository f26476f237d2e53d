use rv32m1_ri5cy_hal::Peripherals;
use rv32m1_ri5cy_hal::gpio::{DriveStrength, SlewRate};
use rv32m1_ri5cy_hal::pcc::PccExt;
use rv32m1_ri5cy_hal::port::PortExt;

#[test]
fn output_transitions_write_exactly_the_documented_bits() {
    let mut p = Peripherals::new();
    let mut pcc = p.pcc.constrain();
    let mut parts = p.porta.split(&mut pcc.porta).unwrap();
    let pta24 = parts.take(24).unwrap();
    let out = pta24.into_push_pull_output(&mut p.gpioa);
    // control register: GPIO function, push-pull, nothing else
    assert_eq!(out.pcr_value(), 0x100);
    // direction register: exactly this pin's bit went high
    assert_eq!(p.gpioa.pddr, 1 << 24);
    // data registers untouched
    assert_eq!(p.gpioa.pdor, 0);
    assert_eq!(p.gpioa.pdir, 0);
    // reconfiguring as open drain flips only the documented bits
    let od = out.into_open_drain_output(&mut p.gpioa);
    assert_eq!(od.pcr_value(), 0x120);
    assert_eq!(p.gpioa.pddr, 1 << 24);
}

#[test]
fn input_transitions_write_exactly_the_documented_bits() {
    let mut p = Peripherals::new();
    let mut pcc = p.pcc.constrain();
    let mut parts = p.portb.split(&mut pcc.portb).unwrap();
    p.gpiob.pddr = 0xFFFF_FFFF;
    let ptb11 = parts.take(11).unwrap();
    let floating = ptb11.into_floating_input(&mut p.gpiob);
    assert_eq!(floating.pcr_value(), 0x100);
    // only this pin's direction bit was cleared
    assert_eq!(p.gpiob.pddr, 0xFFFF_FFFF & !(1 << 11));
    let up = floating.into_pull_up_input(&mut p.gpiob);
    assert_eq!(up.pcr_value(), 0x103);
    let down = up.into_pull_down_input(&mut p.gpiob);
    assert_eq!(down.pcr_value(), 0x102);
    assert_eq!(p.gpiob.pdor, 0);
}

#[test]
fn set_then_read_back_is_consistent() {
    let mut p = Peripherals::new();
    let mut pcc = p.pcc.constrain();
    let mut parts = p.porta.split(&mut pcc.porta).unwrap();
    let mut out = parts.take(24).unwrap().into_push_pull_output(&mut p.gpioa);
    out.try_set_high(&mut p.gpioa).unwrap();
    assert!(out.try_is_set_high(&p.gpioa).unwrap());
    assert!(!out.try_is_set_low(&p.gpioa).unwrap());
    out.try_set_low(&mut p.gpioa).unwrap();
    assert!(!out.try_is_set_high(&p.gpioa).unwrap());
    out.try_toggle(&mut p.gpioa).unwrap();
    assert!(out.try_is_set_high(&p.gpioa).unwrap());
    out.try_toggle(&mut p.gpioa).unwrap();
    assert!(!out.try_is_set_high(&p.gpioa).unwrap());
}

#[test]
fn output_operations_leave_other_pins_alone() {
    let mut p = Peripherals::new();
    let mut pcc = p.pcc.constrain();
    let mut parts = p.portc.split(&mut pcc.portc).unwrap();
    let mut one = parts.take(7).unwrap().into_push_pull_output(&mut p.gpioc);
    let mut two = parts.take(8).unwrap().into_push_pull_output(&mut p.gpioc);
    one.try_set_high(&mut p.gpioc).unwrap();
    two.try_set_high(&mut p.gpioc).unwrap();
    one.try_set_low(&mut p.gpioc).unwrap();
    // clearing pin 7 left pin 8 driven
    assert!(!one.try_is_set_high(&p.gpioc).unwrap());
    assert!(two.try_is_set_high(&p.gpioc).unwrap());
    assert_eq!(p.gpioc.pdor, 1 << 8);
}

#[test]
fn inputs_read_the_pad_level() {
    let mut p = Peripherals::new();
    let mut pcc = p.pcc.constrain();
    let mut parts = p.porta.split(&mut pcc.porta).unwrap();
    let input = parts.take(14).unwrap().into_pull_up_input(&mut p.gpioa);
    assert!(!input.try_is_high(&p.gpioa).unwrap());
    assert!(input.try_is_low(&p.gpioa).unwrap());
    // the pad goes high: the input data register is hardware-driven
    p.gpioa.pdir |= 1 << 14;
    assert!(input.try_is_high(&p.gpioa).unwrap());
    assert!(!input.try_is_low(&p.gpioa).unwrap());
}

#[test]
fn open_drain_outputs_can_sense_the_bus() {
    let mut p = Peripherals::new();
    let mut pcc = p.pcc.constrain();
    let mut parts = p.portd.split(&mut pcc.portd).unwrap();
    let mut od = parts.take(2).unwrap().into_open_drain_output(&mut p.gpiod);
    od.try_set_high(&mut p.gpiod).unwrap();
    // the bus is pulled low externally although the output data bit is set
    p.gpiod.pdir &= !(1 << 2);
    assert!(od.try_is_set_high(&p.gpiod).unwrap());
    assert!(od.try_is_low(&p.gpiod).unwrap());
}

#[test]
fn locked_pins_keep_their_data_path() {
    let mut p = Peripherals::new();
    let mut pcc = p.pcc.constrain();
    let mut parts = p.porta.split(&mut pcc.porta).unwrap();
    let out = parts.take(24).unwrap().into_push_pull_output(&mut p.gpioa);
    let mut locked = out.lock();
    assert_eq!(locked.pcr_value(), 0x8100);
    // the output data state stays freely mutable after locking
    locked.try_set_high(&mut p.gpioa).unwrap();
    assert!(locked.try_is_set_high(&p.gpioa).unwrap());
    locked.try_toggle(&mut p.gpioa).unwrap();
    assert!(!locked.try_is_set_high(&p.gpioa).unwrap());
    // the control register is untouched by data operations
    assert_eq!(locked.pcr_value(), 0x8100);
}

#[test]
fn erased_pins_produce_identical_register_writes() {
    // the same sequence through the typed token and through its erased
    // form, on two banks starting in the same state
    let mut typed = Peripherals::new();
    let mut erased = Peripherals::new();
    let mut pcc_t = typed.pcc.constrain();
    let mut pcc_e = erased.pcc.constrain();

    let mut parts_t = typed.porta.split(&mut pcc_t.porta).unwrap();
    let mut out = parts_t.take(24).unwrap().into_push_pull_output(&mut typed.gpioa);
    out.try_set_high(&mut typed.gpioa).unwrap();
    out.try_toggle(&mut typed.gpioa).unwrap();
    out.try_set_high(&mut typed.gpioa).unwrap();
    out.try_set_low(&mut typed.gpioa).unwrap();

    let mut parts_e = erased.porta.split(&mut pcc_e.porta).unwrap();
    let g = parts_e.take(24).unwrap().into_push_pull_output(&mut erased.gpioa);
    let pin = g.release().downgrade();
    assert_eq!(pin.pin_index(), 24);
    assert_eq!(pin.pcr_value(), 0x100);
    pin.set_high(&mut erased.gpioa);
    pin.toggle(&mut erased.gpioa);
    pin.set_high(&mut erased.gpioa);
    pin.set_low(&mut erased.gpioa);

    assert_eq!(typed.gpioa, erased.gpioa);
    // and the read path agrees as well
    assert_eq!(out.try_is_set_high(&typed.gpioa).unwrap(), pin.is_set_high(&erased.gpioa));
    assert_eq!(pin.is_high(&erased.gpioa), false);
}

#[test]
fn attribute_bits_are_orthogonal_read_modify_writes() {
    let mut p = Peripherals::new();
    let mut pcc = p.pcc.constrain();
    // drive strength exists on the high-current pads of bank C
    let mut parts_c = p.portc.split(&mut pcc.portc).unwrap();
    let mut out = parts_c.take(7).unwrap().into_push_pull_output(&mut p.gpioc);
    out.set_drive_strength(DriveStrength::High);
    assert_eq!(out.pcr_value(), 0x140);
    out.set_slew_rate(SlewRate::Slow);
    assert_eq!(out.pcr_value(), 0x144);
    out.set_slew_rate(SlewRate::Fast);
    out.set_drive_strength(DriveStrength::Low);
    assert_eq!(out.pcr_value(), 0x100);
    // the passive filter exists on the one filter-capable pad
    let mut parts_a = p.porta.split(&mut pcc.porta).unwrap();
    let mut input = parts_a.take(0).unwrap().into_pull_up_input(&mut p.gpioa);
    input.set_passive_filter(true);
    assert_eq!(input.pcr_value(), 0x113);
    input.set_passive_filter(false);
    assert_eq!(input.pcr_value(), 0x103);
}
