//! General-purpose digital input/output (GPIO).
//!
//! A [`GpioBank`] holds one bank's data-path registers: the output data
//! register, the shared 32-pin direction register, and the input data
//! register.  On silicon pin operations never read-modify-write the
//! output data register — set, clear and toggle go through dedicated
//! write-only registers, which this model captures as their documented
//! effect on the output data register.  That design removes the
//! read-modify-write race between pins sharing a bank; only the direction
//! register is read-modify-written, and so needs interrupt suppression
//! around reconfiguration.
//!
//! A [`Gpio`] token wraps a pin already routed to the GPIO alternate
//! function and carries its electrical mode (input or output, with the
//! electrical submode) as a marker parameter.  Data operations are
//! infallible by construction: once the type attests the mode, the
//! register write cannot fail.

use vstd::prelude::*;

use core::convert::Infallible;
use core::marker::PhantomData;
use crate::port::{
    ALT1, ErasedPin, Locked, PCR_DSE, PCR_LK, PCR_PFE, PCR_SRE, Pin, PinFunction, PinLock,
    Unlocked, mux_of,
};

verus! {

/// The mask with exactly bit `idx` set.
pub open spec fn bit_mask(idx: u8) -> u32 {
    1u32 << idx
}

/// Whether bit `idx` of a register value is set.
pub open spec fn bit_is_set(reg: u32, idx: u8) -> bool {
    reg & bit_mask(idx) != 0
}

/// The register value with bit `idx` set and every other bit unchanged:
/// the effect of writing the pin's mask to a set-only register.
pub open spec fn set_bit(reg: u32, idx: u8) -> u32 {
    reg | bit_mask(idx)
}

/// The register value with bit `idx` cleared and every other bit
/// unchanged: the effect of writing the pin's mask to a clear-only
/// register.
pub open spec fn clear_bit(reg: u32, idx: u8) -> u32 {
    reg & !bit_mask(idx)
}

/// The register value with bit `idx` flipped and every other bit
/// unchanged: the effect of writing the pin's mask to a toggle-only
/// register.
pub open spec fn toggle_bit(reg: u32, idx: u8) -> u32 {
    reg ^ bit_mask(idx)
}

/// One GPIO bank's data-path registers.
///
/// `pdir` is driven by the pads themselves; this layer only reads it.
/// The write-only set/clear/toggle registers of the silicon are modeled
/// by their documented effect on `pdor`.
#[derive(Clone, Copy, Debug, PartialEq, Eq, Structural)]
pub struct GpioBank {
    /// The bank this register group serves (0 = A .. 3 = D).
    pub bank: u8,
    /// Output data register.
    pub pdor: u32,
    /// Direction register, one bit per pin, shared across the bank.
    pub pddr: u32,
    /// Input data register, hardware-driven.
    pub pdir: u32,
}

impl GpioBank {
    /// Writes a mask to the set-only register: every set mask bit sets
    /// the matching output data bit, all other bits are untouched.
    pub fn write_psor(&mut self, mask: u32)
        ensures
            final(self).pdor == old(self).pdor | mask,
            final(self).pddr == old(self).pddr,
            final(self).pdir == old(self).pdir,
            final(self).bank == old(self).bank,
    {
        self.pdor = self.pdor | mask;
    }

    /// Writes a mask to the clear-only register: every set mask bit
    /// clears the matching output data bit, all other bits are untouched.
    pub fn write_pcor(&mut self, mask: u32)
        ensures
            final(self).pdor == old(self).pdor & !mask,
            final(self).pddr == old(self).pddr,
            final(self).pdir == old(self).pdir,
            final(self).bank == old(self).bank,
    {
        self.pdor = self.pdor & !mask;
    }

    /// Writes a mask to the toggle-only register: every set mask bit
    /// flips the matching output data bit, all other bits are untouched.
    pub fn write_ptor(&mut self, mask: u32)
        ensures
            final(self).pdor == old(self).pdor ^ mask,
            final(self).pddr == old(self).pddr,
            final(self).pdir == old(self).pdir,
            final(self).bank == old(self).bank,
    {
        self.pdor = self.pdor ^ mask;
    }

    /// Reads the output data register.
    pub fn read_pdor(&self) -> (r: u32)
        ensures
            r == self.pdor,
    {
        self.pdor
    }

    /// Reads the input data register.
    pub fn read_pdir(&self) -> (r: u32)
        ensures
            r == self.pdir,
    {
        self.pdir
    }

    /// Reads the shared direction register.
    pub fn read_pddr(&self) -> (r: u32)
        ensures
            r == self.pddr,
    {
        self.pddr
    }

    /// Writes the shared direction register whole.  A direction change
    /// for one pin is a read-modify-write of this register, so on the
    /// real core it must run with interrupts suppressed.
    pub fn write_pddr(&mut self, value: u32)
        ensures
            final(self).pddr == value,
            final(self).pdor == old(self).pdor,
            final(self).pdir == old(self).pdir,
            final(self).bank == old(self).bank,
    {
        self.pddr = value;
    }
}

/// Pin slew rate, valid in all digital pin muxing modes.
#[derive(Clone, Copy, Debug)]
pub enum SlewRate {
    /// Fast slew rate is configured on the corresponding pin,
    /// if the pin is configured as a digital output.
    Fast,
    /// Slow slew rate is configured on the corresponding pin,
    /// if the pin is configured as a digital output.
    Slow,
}

/// Pin drive strength, valid in all digital pin muxing modes.
#[derive(Clone, Copy, Debug)]
pub enum DriveStrength {
    /// Low drive strength is configured on the corresponding pin,
    /// if pin is configured as a digital output.
    Low,
    /// High drive strength is configured on the corresponding pin,
    /// if pin is configured as a digital output.
    High,
}

/// General-purpose input, for the GPIO function (type state)
pub struct Input<MODE> {
    pub(crate) _mode: PhantomData<MODE>,
}

/// Hi-Z Floating input (type state)
pub struct Floating;

/// Pull-up input (type state)
pub struct PullUp;

/// Pull-down input (type state)
pub struct PullDown;

/// General-purpose output, for the GPIO function (type state)
pub struct Output<MODE> {
    pub(crate) _mode: PhantomData<MODE>,
}

/// Push-pull output (type state)
pub struct PushPull;

/// Open-drain output (type state)
pub struct OpenDrain;

/// Which pins carry a configurable drive strength.
pub open spec fn spec_drive_strength_pin(bank: u8, idx: u8) -> bool {
    (bank == 2 && 7 <= idx <= 12) || (bank == 3 && 8 <= idx <= 11)
}

/// Which pins carry a configurable passive input filter.
pub open spec fn spec_passive_filter_pin(bank: u8, idx: u8) -> bool {
    bank == 0 && idx == 0
}

/// A pin routed to the GPIO function whose data path is usable: its
/// output can be set, cleared, toggled and read back, and its pad level
/// read.  Both lock states implement this — locking freezes the control
/// register, not the data registers.
pub trait GpioDataPin: Sized {
    /// The port bank the pin belongs to.
    spec fn bank_of(&self) -> u8;

    /// The pin's index within its bank.
    spec fn index_of(&self) -> u8;

    /// The pin's control register image.
    spec fn pcr_of(&self) -> u32;

    /// The pin token is well formed.
    spec fn pin_wf(&self) -> bool;

    /// Reads the bank number.
    fn read_bank(&self) -> (r: u8)
        ensures
            r == self.bank_of(),
    ;

    /// Reads the pin index.
    fn read_index(&self) -> (r: u8)
        ensures
            r == self.index_of(),
    ;

    /// Reads the control register image.
    fn read_pcr(&self) -> (r: u32)
        ensures
            r == self.pcr_of(),
    ;

    /// Drives the output low through the clear-only register.
    fn set_low(&self, gpio: &mut GpioBank)
        requires
            self.pin_wf(),
            self.bank_of() == old(gpio).bank,
        ensures
            final(gpio).pdor == clear_bit(old(gpio).pdor, self.index_of()),
            final(gpio).pddr == old(gpio).pddr,
            final(gpio).pdir == old(gpio).pdir,
            final(gpio).bank == old(gpio).bank,
    ;

    /// Drives the output high through the set-only register.
    fn set_high(&self, gpio: &mut GpioBank)
        requires
            self.pin_wf(),
            self.bank_of() == old(gpio).bank,
        ensures
            final(gpio).pdor == set_bit(old(gpio).pdor, self.index_of()),
            final(gpio).pddr == old(gpio).pddr,
            final(gpio).pdir == old(gpio).pdir,
            final(gpio).bank == old(gpio).bank,
    ;

    /// Reads the pin's bit of the output data register.
    fn is_set_high(&self, gpio: &GpioBank) -> (r: bool)
        requires
            self.pin_wf(),
            self.bank_of() == gpio.bank,
        ensures
            r == bit_is_set(gpio.pdor, self.index_of()),
    ;

    /// Flips the output through the toggle-only register.
    fn toggle(&self, gpio: &mut GpioBank)
        requires
            self.pin_wf(),
            self.bank_of() == old(gpio).bank,
        ensures
            final(gpio).pdor == toggle_bit(old(gpio).pdor, self.index_of()),
            final(gpio).pddr == old(gpio).pddr,
            final(gpio).pdir == old(gpio).pdir,
            final(gpio).bank == old(gpio).bank,
    ;

    /// Reads the pin's bit of the input data register.
    fn is_high(&self, gpio: &GpioBank) -> (r: bool)
        requires
            self.pin_wf(),
            self.bank_of() == gpio.bank,
        ensures
            r == bit_is_set(gpio.pdir, self.index_of()),
    ;
}

/// Port pin that is configured into the ALT1 (GPIO) function and whose
/// control register is still writable, so its electrical mode can be
/// reconfigured in place.
///
/// This trait should only be implemented by this crate; applications
/// should call the functions provided by the [`Gpio`] struct.
pub trait Alt1Pin: GpioDataPin {
    /// Sets the pin's direction bit and writes the control register for a
    /// push-pull output.
    fn configure_push_pull_output(self, gpio: &mut GpioBank) -> (r: Self)
        requires
            self.pin_wf(),
            self.bank_of() == old(gpio).bank,
        ensures
            r.pin_wf(),
            r.bank_of() == self.bank_of(),
            r.index_of() == self.index_of(),
            r.pcr_of() == 0x100u32,
            final(gpio).pddr == set_bit(old(gpio).pddr, self.index_of()),
            final(gpio).pdor == old(gpio).pdor,
            final(gpio).pdir == old(gpio).pdir,
            final(gpio).bank == old(gpio).bank,
    ;

    /// Sets the pin's direction bit and writes the control register for
    /// an open-drain output.
    fn configure_open_drain_output(self, gpio: &mut GpioBank) -> (r: Self)
        requires
            self.pin_wf(),
            self.bank_of() == old(gpio).bank,
        ensures
            r.pin_wf(),
            r.bank_of() == self.bank_of(),
            r.index_of() == self.index_of(),
            r.pcr_of() == 0x120u32,
            final(gpio).pddr == set_bit(old(gpio).pddr, self.index_of()),
            final(gpio).pdor == old(gpio).pdor,
            final(gpio).pdir == old(gpio).pdir,
            final(gpio).bank == old(gpio).bank,
    ;

    /// Clears the pin's direction bit and writes the control register for
    /// a floating input.
    fn configure_floating_input(self, gpio: &mut GpioBank) -> (r: Self)
        requires
            self.pin_wf(),
            self.bank_of() == old(gpio).bank,
        ensures
            r.pin_wf(),
            r.bank_of() == self.bank_of(),
            r.index_of() == self.index_of(),
            r.pcr_of() == 0x100u32,
            final(gpio).pddr == clear_bit(old(gpio).pddr, self.index_of()),
            final(gpio).pdor == old(gpio).pdor,
            final(gpio).pdir == old(gpio).pdir,
            final(gpio).bank == old(gpio).bank,
    ;

    /// Clears the pin's direction bit and writes the control register for
    /// a pull-up input.
    fn configure_pull_up_input(self, gpio: &mut GpioBank) -> (r: Self)
        requires
            self.pin_wf(),
            self.bank_of() == old(gpio).bank,
        ensures
            r.pin_wf(),
            r.bank_of() == self.bank_of(),
            r.index_of() == self.index_of(),
            r.pcr_of() == 0x103u32,
            final(gpio).pddr == clear_bit(old(gpio).pddr, self.index_of()),
            final(gpio).pdor == old(gpio).pdor,
            final(gpio).pdir == old(gpio).pdir,
            final(gpio).bank == old(gpio).bank,
    ;

    /// Clears the pin's direction bit and writes the control register for
    /// a pull-down input.
    fn configure_pull_down_input(self, gpio: &mut GpioBank) -> (r: Self)
        requires
            self.pin_wf(),
            self.bank_of() == old(gpio).bank,
        ensures
            r.pin_wf(),
            r.bank_of() == self.bank_of(),
            r.index_of() == self.index_of(),
            r.pcr_of() == 0x102u32,
            final(gpio).pddr == clear_bit(old(gpio).pddr, self.index_of()),
            final(gpio).pdor == old(gpio).pdor,
            final(gpio).pdir == old(gpio).pdir,
            final(gpio).bank == old(gpio).bank,
    ;
}

impl<LOCK: PinLock> GpioDataPin for Pin<ALT1, LOCK> {
    open spec fn bank_of(&self) -> u8 {
        self.bank_spec()
    }

    open spec fn index_of(&self) -> u8 {
        self.idx_spec()
    }

    open spec fn pcr_of(&self) -> u32 {
        self.pcr_spec()
    }

    open spec fn pin_wf(&self) -> bool {
        self.wf()
    }

    fn read_bank(&self) -> (r: u8) {
        self.pin_bank()
    }

    fn read_index(&self) -> (r: u8) {
        self.pin_index()
    }

    fn read_pcr(&self) -> (r: u32) {
        self.pcr_value()
    }

    fn set_low(&self, gpio: &mut GpioBank) {
        let mask: u32 = 1u32 << self.pin_index();
        gpio.write_pcor(mask);
    }

    fn set_high(&self, gpio: &mut GpioBank) {
        let mask: u32 = 1u32 << self.pin_index();
        gpio.write_psor(mask);
    }

    fn is_set_high(&self, gpio: &GpioBank) -> (r: bool) {
        let mask: u32 = 1u32 << self.pin_index();
        gpio.read_pdor() & mask != 0
    }

    fn toggle(&self, gpio: &mut GpioBank) {
        let mask: u32 = 1u32 << self.pin_index();
        gpio.write_ptor(mask);
    }

    fn is_high(&self, gpio: &GpioBank) -> (r: bool) {
        let mask: u32 = 1u32 << self.pin_index();
        gpio.read_pdir() & mask != 0
    }
}

impl Alt1Pin for Pin<ALT1, Unlocked> {
    fn configure_push_pull_output(self, gpio: &mut GpioBank) -> (r: Self) {
        let d = gpio.read_pddr();
        let mask: u32 = 1u32 << self.pin_index();
        gpio.write_pddr(d | mask);
        self.into_af1_no_open_drain()
    }

    fn configure_open_drain_output(self, gpio: &mut GpioBank) -> (r: Self) {
        let d = gpio.read_pddr();
        let mask: u32 = 1u32 << self.pin_index();
        gpio.write_pddr(d | mask);
        self.into_af1_with_open_drain()
    }

    fn configure_floating_input(self, gpio: &mut GpioBank) -> (r: Self) {
        let d = gpio.read_pddr();
        let mask: u32 = 1u32 << self.pin_index();
        gpio.write_pddr(d & !mask);
        self.into_af1_no_pull()
    }

    fn configure_pull_up_input(self, gpio: &mut GpioBank) -> (r: Self) {
        let d = gpio.read_pddr();
        let mask: u32 = 1u32 << self.pin_index();
        gpio.write_pddr(d & !mask);
        self.into_af1_pull_up()
    }

    fn configure_pull_down_input(self, gpio: &mut GpioBank) -> (r: Self) {
        let d = gpio.read_pddr();
        let mask: u32 = 1u32 << self.pin_index();
        gpio.write_pddr(d & !mask);
        self.into_af1_pull_down()
    }
}

impl<AF: PinFunction> Pin<AF, Unlocked> {
    /// Configures the pin to operate as a push-pull output pin.
    pub fn into_push_pull_output(self, gpio: &mut GpioBank) -> (r: Gpio<
        Pin<ALT1, Unlocked>,
        Output<PushPull>,
    >)
        requires
            self.wf(),
            self.bank_spec() == old(gpio).bank,
        ensures
            r.wf(),
            r.bank_of() == self.bank_spec(),
            r.index_of() == self.idx_spec(),
            r.pcr_of() == 0x100u32,
            final(gpio).pddr == set_bit(old(gpio).pddr, self.idx_spec()),
            final(gpio).pdor == old(gpio).pdor,
            final(gpio).pdir == old(gpio).pdir,
            final(gpio).bank == old(gpio).bank,
    {
        let d = gpio.read_pddr();
        let mask: u32 = 1u32 << self.pin_index();
        gpio.write_pddr(d | mask);
        Gpio { pin: self.into_af1_no_open_drain(), _mode: PhantomData }
    }

    /// Configures the pin to operate as an open-drain output pin.
    pub fn into_open_drain_output(self, gpio: &mut GpioBank) -> (r: Gpio<
        Pin<ALT1, Unlocked>,
        Output<OpenDrain>,
    >)
        requires
            self.wf(),
            self.bank_spec() == old(gpio).bank,
        ensures
            r.wf(),
            r.bank_of() == self.bank_spec(),
            r.index_of() == self.idx_spec(),
            r.pcr_of() == 0x120u32,
            final(gpio).pddr == set_bit(old(gpio).pddr, self.idx_spec()),
            final(gpio).pdor == old(gpio).pdor,
            final(gpio).pdir == old(gpio).pdir,
            final(gpio).bank == old(gpio).bank,
    {
        let d = gpio.read_pddr();
        let mask: u32 = 1u32 << self.pin_index();
        gpio.write_pddr(d | mask);
        Gpio { pin: self.into_af1_with_open_drain(), _mode: PhantomData }
    }

    /// Configures the pin to operate as a floating input pin.
    pub fn into_floating_input(self, gpio: &mut GpioBank) -> (r: Gpio<
        Pin<ALT1, Unlocked>,
        Input<Floating>,
    >)
        requires
            self.wf(),
            self.bank_spec() == old(gpio).bank,
        ensures
            r.wf(),
            r.bank_of() == self.bank_spec(),
            r.index_of() == self.idx_spec(),
            r.pcr_of() == 0x100u32,
            final(gpio).pddr == clear_bit(old(gpio).pddr, self.idx_spec()),
            final(gpio).pdor == old(gpio).pdor,
            final(gpio).pdir == old(gpio).pdir,
            final(gpio).bank == old(gpio).bank,
    {
        let d = gpio.read_pddr();
        let mask: u32 = 1u32 << self.pin_index();
        gpio.write_pddr(d & !mask);
        Gpio { pin: self.into_af1_no_pull(), _mode: PhantomData }
    }

    /// Configures the pin to operate as a pull-up input pin.
    pub fn into_pull_up_input(self, gpio: &mut GpioBank) -> (r: Gpio<
        Pin<ALT1, Unlocked>,
        Input<PullUp>,
    >)
        requires
            self.wf(),
            self.bank_spec() == old(gpio).bank,
        ensures
            r.wf(),
            r.bank_of() == self.bank_spec(),
            r.index_of() == self.idx_spec(),
            r.pcr_of() == 0x103u32,
            final(gpio).pddr == clear_bit(old(gpio).pddr, self.idx_spec()),
            final(gpio).pdor == old(gpio).pdor,
            final(gpio).pdir == old(gpio).pdir,
            final(gpio).bank == old(gpio).bank,
    {
        let d = gpio.read_pddr();
        let mask: u32 = 1u32 << self.pin_index();
        gpio.write_pddr(d & !mask);
        Gpio { pin: self.into_af1_pull_up(), _mode: PhantomData }
    }

    /// Configures the pin to operate as a pull-down input pin.
    pub fn into_pull_down_input(self, gpio: &mut GpioBank) -> (r: Gpio<
        Pin<ALT1, Unlocked>,
        Input<PullDown>,
    >)
        requires
            self.wf(),
            self.bank_spec() == old(gpio).bank,
        ensures
            r.wf(),
            r.bank_of() == self.bank_spec(),
            r.index_of() == self.idx_spec(),
            r.pcr_of() == 0x102u32,
            final(gpio).pddr == clear_bit(old(gpio).pddr, self.idx_spec()),
            final(gpio).pdor == old(gpio).pdor,
            final(gpio).pdir == old(gpio).pdir,
            final(gpio).bank == old(gpio).bank,
    {
        let d = gpio.read_pddr();
        let mask: u32 = 1u32 << self.pin_index();
        gpio.write_pddr(d & !mask);
        Gpio { pin: self.into_af1_pull_down(), _mode: PhantomData }
    }
}

/// Gpio wrapper: a pin routed to the GPIO function, tagged with its
/// electrical mode.
pub struct Gpio<PIN, MODE> {
    pub(crate) pin: PIN,
    pub(crate) _mode: PhantomData<MODE>,
}

impl<PIN, MODE> Gpio<PIN, MODE> {
    /// The wrapped pin token.
    pub closed spec fn pin_spec(&self) -> PIN {
        self.pin
    }

    /// Hands the wrapped pin token back, for example to downgrade or
    /// lock it.  No register is written.
    pub fn release(self) -> (r: PIN)
        ensures
            r == self.pin_spec(),
    {
        self.pin
    }
}

impl<PIN: GpioDataPin, MODE> Gpio<PIN, MODE> {
    /// The bank the wrapped pin belongs to.
    pub open spec fn bank_of(&self) -> u8 {
        self.pin_spec().bank_of()
    }

    /// The wrapped pin's index within its bank.
    pub open spec fn index_of(&self) -> u8 {
        self.pin_spec().index_of()
    }

    /// The wrapped pin's control register image.
    pub open spec fn pcr_of(&self) -> u32 {
        self.pin_spec().pcr_of()
    }

    /// The wrapped pin token is well formed.
    pub open spec fn wf(&self) -> bool {
        self.pin_spec().pin_wf()
    }

    /// Reads the bank the wrapped pin belongs to.
    pub fn pin_bank(&self) -> (r: u8)
        ensures
            r == self.bank_of(),
    {
        self.pin.read_bank()
    }

    /// Reads the wrapped pin's index.
    pub fn pin_index(&self) -> (r: u8)
        ensures
            r == self.index_of(),
    {
        self.pin.read_index()
    }

    /// Reads the wrapped pin's control register image.
    pub fn pcr_value(&self) -> (r: u32)
        ensures
            r == self.pcr_of(),
    {
        self.pin.read_pcr()
    }
}

impl<PIN: Alt1Pin, MODE> Gpio<PIN, MODE> {
    /// Configures the pin to operate as a push-pull output pin.
    pub fn into_push_pull_output(self, gpio: &mut GpioBank) -> (r: Gpio<PIN, Output<PushPull>>)
        requires
            self.wf(),
            self.bank_of() == old(gpio).bank,
        ensures
            r.wf(),
            r.bank_of() == self.bank_of(),
            r.index_of() == self.index_of(),
            r.pcr_of() == 0x100u32,
            final(gpio).pddr == set_bit(old(gpio).pddr, self.index_of()),
            final(gpio).pdor == old(gpio).pdor,
            final(gpio).pdir == old(gpio).pdir,
            final(gpio).bank == old(gpio).bank,
    {
        Gpio { pin: self.pin.configure_push_pull_output(gpio), _mode: PhantomData }
    }

    /// Configures the pin to operate as an open-drain output pin.
    pub fn into_open_drain_output(self, gpio: &mut GpioBank) -> (r: Gpio<PIN, Output<OpenDrain>>)
        requires
            self.wf(),
            self.bank_of() == old(gpio).bank,
        ensures
            r.wf(),
            r.bank_of() == self.bank_of(),
            r.index_of() == self.index_of(),
            r.pcr_of() == 0x120u32,
            final(gpio).pddr == set_bit(old(gpio).pddr, self.index_of()),
            final(gpio).pdor == old(gpio).pdor,
            final(gpio).pdir == old(gpio).pdir,
            final(gpio).bank == old(gpio).bank,
    {
        Gpio { pin: self.pin.configure_open_drain_output(gpio), _mode: PhantomData }
    }

    /// Configures the pin to operate as a floating input pin.
    pub fn into_floating_input(self, gpio: &mut GpioBank) -> (r: Gpio<PIN, Input<Floating>>)
        requires
            self.wf(),
            self.bank_of() == old(gpio).bank,
        ensures
            r.wf(),
            r.bank_of() == self.bank_of(),
            r.index_of() == self.index_of(),
            r.pcr_of() == 0x100u32,
            final(gpio).pddr == clear_bit(old(gpio).pddr, self.index_of()),
            final(gpio).pdor == old(gpio).pdor,
            final(gpio).pdir == old(gpio).pdir,
            final(gpio).bank == old(gpio).bank,
    {
        Gpio { pin: self.pin.configure_floating_input(gpio), _mode: PhantomData }
    }

    /// Configures the pin to operate as a pull-up input pin.
    pub fn into_pull_up_input(self, gpio: &mut GpioBank) -> (r: Gpio<PIN, Input<PullUp>>)
        requires
            self.wf(),
            self.bank_of() == old(gpio).bank,
        ensures
            r.wf(),
            r.bank_of() == self.bank_of(),
            r.index_of() == self.index_of(),
            r.pcr_of() == 0x103u32,
            final(gpio).pddr == clear_bit(old(gpio).pddr, self.index_of()),
            final(gpio).pdor == old(gpio).pdor,
            final(gpio).pdir == old(gpio).pdir,
            final(gpio).bank == old(gpio).bank,
    {
        Gpio { pin: self.pin.configure_pull_up_input(gpio), _mode: PhantomData }
    }

    /// Configures the pin to operate as a pull-down input pin.
    pub fn into_pull_down_input(self, gpio: &mut GpioBank) -> (r: Gpio<PIN, Input<PullDown>>)
        requires
            self.wf(),
            self.bank_of() == old(gpio).bank,
        ensures
            r.wf(),
            r.bank_of() == self.bank_of(),
            r.index_of() == self.index_of(),
            r.pcr_of() == 0x102u32,
            final(gpio).pddr == clear_bit(old(gpio).pddr, self.index_of()),
            final(gpio).pdor == old(gpio).pdor,
            final(gpio).pdir == old(gpio).pdir,
            final(gpio).bank == old(gpio).bank,
    {
        Gpio { pin: self.pin.configure_pull_down_input(gpio), _mode: PhantomData }
    }
}

impl<PIN: GpioDataPin, MODE> Gpio<PIN, Output<MODE>> {
    /// Drives the output low.  A single write to the clear-only register:
    /// no other pin of the bank is disturbed and no error is possible.
    pub fn try_set_low(&mut self, gpio: &mut GpioBank) -> (r: Result<(), Infallible>)
        requires
            old(self).wf(),
            old(self).bank_of() == old(gpio).bank,
        ensures
            *final(self) == *old(self),
            r is Ok,
            final(gpio).pdor == clear_bit(old(gpio).pdor, old(self).index_of()),
            final(gpio).pddr == old(gpio).pddr,
            final(gpio).pdir == old(gpio).pdir,
            final(gpio).bank == old(gpio).bank,
    {
        self.pin.set_low(gpio);
        Ok(())
    }

    /// Drives the output high.  A single write to the set-only register.
    pub fn try_set_high(&mut self, gpio: &mut GpioBank) -> (r: Result<(), Infallible>)
        requires
            old(self).wf(),
            old(self).bank_of() == old(gpio).bank,
        ensures
            *final(self) == *old(self),
            r is Ok,
            final(gpio).pdor == set_bit(old(gpio).pdor, old(self).index_of()),
            final(gpio).pddr == old(gpio).pddr,
            final(gpio).pdir == old(gpio).pdir,
            final(gpio).bank == old(gpio).bank,
    {
        self.pin.set_high(gpio);
        Ok(())
    }

    /// Reads back the pin's bit of the output data register.
    pub fn try_is_set_high(&self, gpio: &GpioBank) -> (r: Result<bool, Infallible>)
        requires
            self.wf(),
            self.bank_of() == gpio.bank,
        ensures
            r is Ok,
            r->Ok_0 == bit_is_set(gpio.pdor, self.index_of()),
    {
        Ok(self.pin.is_set_high(gpio))
    }

    /// Reads back the complement of the pin's output data bit.
    pub fn try_is_set_low(&self, gpio: &GpioBank) -> (r: Result<bool, Infallible>)
        requires
            self.wf(),
            self.bank_of() == gpio.bank,
        ensures
            r is Ok,
            r->Ok_0 == !bit_is_set(gpio.pdor, self.index_of()),
    {
        Ok(!self.pin.is_set_high(gpio))
    }

    /// Flips the output.  A single write to the toggle-only register,
    /// race-free across pins of the same bank.
    pub fn try_toggle(&mut self, gpio: &mut GpioBank) -> (r: Result<(), Infallible>)
        requires
            old(self).wf(),
            old(self).bank_of() == old(gpio).bank,
        ensures
            *final(self) == *old(self),
            r is Ok,
            final(gpio).pdor == toggle_bit(old(gpio).pdor, old(self).index_of()),
            final(gpio).pddr == old(gpio).pddr,
            final(gpio).pdir == old(gpio).pdir,
            final(gpio).bank == old(gpio).bank,
    {
        self.pin.toggle(gpio);
        Ok(())
    }
}

impl<PIN: GpioDataPin, MODE> Gpio<PIN, Input<MODE>> {
    /// Reads the pad level from the input data register.
    pub fn try_is_high(&self, gpio: &GpioBank) -> (r: Result<bool, Infallible>)
        requires
            self.wf(),
            self.bank_of() == gpio.bank,
        ensures
            r is Ok,
            r->Ok_0 == bit_is_set(gpio.pdir, self.index_of()),
    {
        Ok(self.pin.is_high(gpio))
    }

    /// Reads the complement of the pad level.
    pub fn try_is_low(&self, gpio: &GpioBank) -> (r: Result<bool, Infallible>)
        requires
            self.wf(),
            self.bank_of() == gpio.bank,
        ensures
            r is Ok,
            r->Ok_0 == !bit_is_set(gpio.pdir, self.index_of()),
    {
        Ok(!self.pin.is_high(gpio))
    }
}

impl<MODE> Gpio<Pin<ALT1, Unlocked>, MODE> {
    /// Sets the lock bit in this pin's own control register: a single
    /// read-modify-write of that bit.  The locked token keeps its data
    /// operations but offers no further mode or attribute change.
    pub fn lock(self) -> (r: Gpio<Pin<ALT1, Locked>, MODE>)
        requires
            self.wf(),
        ensures
            r.wf(),
            r.bank_of() == self.bank_of(),
            r.index_of() == self.index_of(),
            r.pcr_of() == (self.pcr_of() | PCR_LK),
    {
        Gpio { pin: self.pin.lock(), _mode: PhantomData }
    }
}

impl<MODE> Gpio<Pin<ALT1, Unlocked>, Output<MODE>> {
    /// Configure the drive strength on the corresponding pin: a single
    /// read-modify-write of the drive-strength bit.
    ///
    /// According to the chip reference manual, the configuration is only
    /// valid while the pin is configured as a digital output, and only a
    /// few high-current pads carry the bit at all.
    pub fn set_drive_strength(&mut self, value: DriveStrength)
        requires
            old(self).wf(),
            spec_drive_strength_pin(old(self).bank_of(), old(self).index_of()),
        ensures
            final(self).wf(),
            final(self).bank_of() == old(self).bank_of(),
            final(self).index_of() == old(self).index_of(),
            final(self).pcr_of() == (match value {
                DriveStrength::Low => old(self).pcr_of() & !PCR_DSE,
                DriveStrength::High => old(self).pcr_of() | PCR_DSE,
            }),
    {
        match value {
            DriveStrength::Low => {
                self.pin.write_attr_bit(PCR_DSE, false);
            },
            DriveStrength::High => {
                self.pin.write_attr_bit(PCR_DSE, true);
            },
        }
    }

    /// Configure the slew rate on the corresponding pin: a single
    /// read-modify-write of the slew-rate bit.  Only meaningful while the
    /// pin is configured as a digital output.
    pub fn set_slew_rate(&mut self, value: SlewRate)
        requires
            old(self).wf(),
        ensures
            final(self).wf(),
            final(self).bank_of() == old(self).bank_of(),
            final(self).index_of() == old(self).index_of(),
            final(self).pcr_of() == (match value {
                SlewRate::Fast => old(self).pcr_of() & !PCR_SRE,
                SlewRate::Slow => old(self).pcr_of() | PCR_SRE,
            }),
    {
        match value {
            SlewRate::Fast => {
                self.pin.write_attr_bit(PCR_SRE, false);
            },
            SlewRate::Slow => {
                self.pin.write_attr_bit(PCR_SRE, true);
            },
        }
    }
}

impl<MODE> Gpio<Pin<ALT1, Unlocked>, Input<MODE>> {
    /// Enable or disable the passive input filter for this pin: a single
    /// read-modify-write of the filter bit.
    ///
    /// Only meaningful while the pin is configured as an input, and only
    /// the one filter-capable pad carries the bit.
    pub fn set_passive_filter(&mut self, value: bool)
        requires
            old(self).wf(),
            spec_passive_filter_pin(old(self).bank_of(), old(self).index_of()),
        ensures
            final(self).wf(),
            final(self).bank_of() == old(self).bank_of(),
            final(self).index_of() == old(self).index_of(),
            final(self).pcr_of() == (if value {
                old(self).pcr_of() | PCR_PFE
            } else {
                old(self).pcr_of() & !PCR_PFE
            }),
    {
        self.pin.write_attr_bit(PCR_PFE, value);
    }
}

impl ErasedPin {
    /// Drives the output low through the clear-only register, dispatching
    /// on the stored bit index.
    pub fn set_low(&self, gpio: &mut GpioBank)
        requires
            self.wf(),
            mux_of(self.pcr_spec()) == 1,
            self.bank_spec() == old(gpio).bank,
        ensures
            final(gpio).pdor == clear_bit(old(gpio).pdor, self.idx_spec()),
            final(gpio).pddr == old(gpio).pddr,
            final(gpio).pdir == old(gpio).pdir,
            final(gpio).bank == old(gpio).bank,
    {
        let mask: u32 = 1u32 << self.pin_index();
        gpio.write_pcor(mask);
    }

    /// Drives the output high through the set-only register.
    pub fn set_high(&self, gpio: &mut GpioBank)
        requires
            self.wf(),
            mux_of(self.pcr_spec()) == 1,
            self.bank_spec() == old(gpio).bank,
        ensures
            final(gpio).pdor == set_bit(old(gpio).pdor, self.idx_spec()),
            final(gpio).pddr == old(gpio).pddr,
            final(gpio).pdir == old(gpio).pdir,
            final(gpio).bank == old(gpio).bank,
    {
        let mask: u32 = 1u32 << self.pin_index();
        gpio.write_psor(mask);
    }

    /// Flips the output through the toggle-only register.
    pub fn toggle(&self, gpio: &mut GpioBank)
        requires
            self.wf(),
            mux_of(self.pcr_spec()) == 1,
            self.bank_spec() == old(gpio).bank,
        ensures
            final(gpio).pdor == toggle_bit(old(gpio).pdor, self.idx_spec()),
            final(gpio).pddr == old(gpio).pddr,
            final(gpio).pdir == old(gpio).pdir,
            final(gpio).bank == old(gpio).bank,
    {
        let mask: u32 = 1u32 << self.pin_index();
        gpio.write_ptor(mask);
    }

    /// Reads the pin's bit of the output data register.
    pub fn is_set_high(&self, gpio: &GpioBank) -> (r: bool)
        requires
            self.wf(),
            mux_of(self.pcr_spec()) == 1,
            self.bank_spec() == gpio.bank,
        ensures
            r == bit_is_set(gpio.pdor, self.idx_spec()),
    {
        let mask: u32 = 1u32 << self.pin_index();
        gpio.read_pdor() & mask != 0
    }

    /// Reads the pad level from the input data register.
    pub fn is_high(&self, gpio: &GpioBank) -> (r: bool)
        requires
            self.wf(),
            mux_of(self.pcr_spec()) == 1,
            self.bank_spec() == gpio.bank,
        ensures
            r == bit_is_set(gpio.pdir, self.idx_spec()),
    {
        let mask: u32 = 1u32 << self.pin_index();
        gpio.read_pdir() & mask != 0
    }
}

/// Driving an output then reading it back is consistent: after a set the
/// output data bit reads one, after a clear it reads zero, and a toggle
/// flips what it read before — for every pin and every starting register
/// value.
pub proof fn lemma_output_read_back(pdor: u32, idx: u8)
    requires
        idx < 32,
    ensures
        bit_is_set(set_bit(pdor, idx), idx),
        !bit_is_set(clear_bit(pdor, idx), idx),
        bit_is_set(toggle_bit(pdor, idx), idx) == !bit_is_set(pdor, idx),
{
    assert(((pdor | (1u32 << idx)) & (1u32 << idx) != 0) && ((pdor & !(1u32 << idx)) & (1u32
        << idx) == 0) && (((pdor ^ (1u32 << idx)) & (1u32 << idx) != 0) == (pdor & (1u32 << idx)
        == 0))) by (bit_vector)
        requires
            idx < 32,
    ;
}

/// A set, clear or toggle through the single-pin write-only registers
/// touches exactly the addressed pin's output data bit and no other.
pub proof fn lemma_other_pins_untouched(pdor: u32, idx: u8, other: u8)
    requires
        idx < 32,
        other < 32,
        other != idx,
    ensures
        bit_is_set(set_bit(pdor, idx), other) == bit_is_set(pdor, other),
        bit_is_set(clear_bit(pdor, idx), other) == bit_is_set(pdor, other),
        bit_is_set(toggle_bit(pdor, idx), other) == bit_is_set(pdor, other),
{
    assert((((pdor | (1u32 << idx)) & (1u32 << other) != 0) == (pdor & (1u32 << other) != 0))
        && (((pdor & !(1u32 << idx)) & (1u32 << other) != 0) == (pdor & (1u32 << other) != 0))
        && (((pdor ^ (1u32 << idx)) & (1u32 << other) != 0) == (pdor & (1u32 << other) != 0)))
        by (bit_vector)
        requires
            idx < 32,
            other < 32,
            other != idx,
    ;
}

/// Operating on a downgraded pin writes the same registers as operating
/// on its statically-typed original: every data-path effect is the same
/// function of the bank image and the pin's bit index, and `downgrade`
/// preserves that index together with the bank and control register
/// image.
pub proof fn lemma_downgrade_same_writes<AF: PinFunction, LOCK: PinLock>(
    p: Pin<AF, LOCK>,
    e: ErasedPin,
    g: GpioBank,
)
    requires
        e.bank_spec() == p.bank_spec(),
        e.idx_spec() == p.idx_spec(),
        e.pcr_spec() == p.pcr_spec(),
    ensures
        set_bit(g.pdor, e.idx_spec()) == set_bit(g.pdor, p.idx_spec()),
        clear_bit(g.pdor, e.idx_spec()) == clear_bit(g.pdor, p.idx_spec()),
        toggle_bit(g.pdor, e.idx_spec()) == toggle_bit(g.pdor, p.idx_spec()),
        bit_is_set(g.pdor, e.idx_spec()) == bit_is_set(g.pdor, p.idx_spec()),
        bit_is_set(g.pdir, e.idx_spec()) == bit_is_set(g.pdir, p.idx_spec()),
{
}

impl<PIN: GpioDataPin> Gpio<PIN, Output<OpenDrain>> {
    /// Reads the pad level.  Valid for an open-drain output because the
    /// bus may be pulled externally, so the pad can differ from the
    /// output data bit.
    pub fn try_is_high(&self, gpio: &GpioBank) -> (r: Result<bool, Infallible>)
        requires
            self.wf(),
            self.bank_of() == gpio.bank,
        ensures
            r is Ok,
            r->Ok_0 == bit_is_set(gpio.pdir, self.index_of()),
    {
        Ok(self.pin.is_high(gpio))
    }

    /// Reads the complement of the pad level.
    pub fn try_is_low(&self, gpio: &GpioBank) -> (r: Result<bool, Infallible>)
        requires
            self.wf(),
            self.bank_of() == gpio.bank,
        ensures
            r is Ok,
            r->Ok_0 == !bit_is_set(gpio.pdir, self.index_of()),
    {
        Ok(!self.pin.is_high(gpio))
    }
}

} // verus!
