//! Pin capability registry (Port).
//!
//! Every pin of a 32-pin port bank has one pin control register (PCR)
//! holding its multiplexer selection, pull configuration, drive mode and
//! lock bit.  A [`Pin`] token owns the software-visible image of one PCR
//! and carries the pin's electrical mode in its type: the alternate
//! function as one marker parameter, the lock state as another.  Every
//! mode transition performs exactly one whole-register write, stated
//! bit-for-bit in its contract, and re-emits the token under the new tag.
//! Transition methods exist only for the `Unlocked` tag, so a locked pin's
//! control register can never be rewritten — locking is irreversible until
//! a full system reset.

use vstd::prelude::*;

use core::marker::PhantomData;
use crate::pcc::{ClockGate, EnableError, pcc_write_cgc};

verus! {

/// Pull select bit: pull up when set, pull down when clear.
pub const PCR_PS: u32 = 0x1;

/// Pull enable bit.
pub const PCR_PE: u32 = 0x2;

/// Slew rate enable bit: slow slew rate when set.
pub const PCR_SRE: u32 = 0x4;

/// Passive filter enable bit.
pub const PCR_PFE: u32 = 0x10;

/// Open drain enable bit.
pub const PCR_ODE: u32 = 0x20;

/// Drive strength enable bit: high drive strength when set.
pub const PCR_DSE: u32 = 0x40;

/// Lock bit: the control register is frozen until system reset.
pub const PCR_LK: u32 = 0x8000;

/// The three-bit multiplexer field of a pin control register value.
pub open spec fn mux_of(pcr: u32) -> u32 {
    (pcr >> 8) & 7
}

/// The lock bit of a pin control register value.
pub open spec fn pcr_locked(pcr: u32) -> bool {
    pcr & PCR_LK != 0
}

/// Alternate function 0 (type state)
pub struct ALT0;

/// Alternate function 1 (type state)
pub struct ALT1;

/// Alternate function 2 (type state)
pub struct ALT2;

/// Alternate function 3 (type state)
pub struct ALT3;

/// Alternate function 4 (type state)
pub struct ALT4;

/// Alternate function 5 (type state)
pub struct ALT5;

/// Alternate function 6 (type state)
pub struct ALT6;

/// Alternate function 7 (type state)
pub struct ALT7;

/// Multiplexer state as found when the port was split: not statically
/// tracked (type state)
pub struct Reset;

/// The pin's control register is still writable (type state)
pub struct Unlocked;

/// The pin's control register is frozen until system reset (type state)
pub struct Locked;

/// An alternate-function marker: says which control register values carry
/// this tag.
pub trait PinFunction {
    /// Whether a control register value is consistent with this tag.
    spec fn allows(pcr: u32) -> bool;

    /// The multiplexer field ignores the lock bit, so tagging survives a
    /// lock operation.
    proof fn lemma_allows_lock_insensitive(pcr: u32)
        ensures
            Self::allows(pcr | PCR_LK) == Self::allows(pcr),
    ;
}

/// The multiplexer field is unchanged when the lock bit is set.
pub proof fn lemma_mux_of_lock(pcr: u32)
    ensures
        mux_of(pcr | PCR_LK) == mux_of(pcr),
        pcr_locked(pcr | PCR_LK),
{
    assert(((pcr | 0x8000u32) >> 8) & 7 == (pcr >> 8) & 7) by (bit_vector);
    assert((pcr | 0x8000u32) & 0x8000 != 0) by (bit_vector);
}

impl PinFunction for ALT0 {
    open spec fn allows(pcr: u32) -> bool {
        mux_of(pcr) == 0
    }

    proof fn lemma_allows_lock_insensitive(pcr: u32) {
        lemma_mux_of_lock(pcr);
    }
}

impl PinFunction for ALT1 {
    open spec fn allows(pcr: u32) -> bool {
        mux_of(pcr) == 1
    }

    proof fn lemma_allows_lock_insensitive(pcr: u32) {
        lemma_mux_of_lock(pcr);
    }
}

impl PinFunction for ALT2 {
    open spec fn allows(pcr: u32) -> bool {
        mux_of(pcr) == 2
    }

    proof fn lemma_allows_lock_insensitive(pcr: u32) {
        lemma_mux_of_lock(pcr);
    }
}

impl PinFunction for ALT3 {
    open spec fn allows(pcr: u32) -> bool {
        mux_of(pcr) == 3
    }

    proof fn lemma_allows_lock_insensitive(pcr: u32) {
        lemma_mux_of_lock(pcr);
    }
}

impl PinFunction for ALT4 {
    open spec fn allows(pcr: u32) -> bool {
        mux_of(pcr) == 4
    }

    proof fn lemma_allows_lock_insensitive(pcr: u32) {
        lemma_mux_of_lock(pcr);
    }
}

impl PinFunction for ALT5 {
    open spec fn allows(pcr: u32) -> bool {
        mux_of(pcr) == 5
    }

    proof fn lemma_allows_lock_insensitive(pcr: u32) {
        lemma_mux_of_lock(pcr);
    }
}

impl PinFunction for ALT6 {
    open spec fn allows(pcr: u32) -> bool {
        mux_of(pcr) == 6
    }

    proof fn lemma_allows_lock_insensitive(pcr: u32) {
        lemma_mux_of_lock(pcr);
    }
}

impl PinFunction for ALT7 {
    open spec fn allows(pcr: u32) -> bool {
        mux_of(pcr) == 7
    }

    proof fn lemma_allows_lock_insensitive(pcr: u32) {
        lemma_mux_of_lock(pcr);
    }
}

impl PinFunction for Reset {
    open spec fn allows(pcr: u32) -> bool {
        true
    }

    proof fn lemma_allows_lock_insensitive(pcr: u32) {
    }
}

/// A lock-state marker: says which control register values carry this tag.
pub trait PinLock {
    /// Whether a control register value is consistent with this tag.
    spec fn allows(pcr: u32) -> bool;
}

impl PinLock for Unlocked {
    open spec fn allows(pcr: u32) -> bool {
        !pcr_locked(pcr)
    }
}

impl PinLock for Locked {
    open spec fn allows(pcr: u32) -> bool {
        pcr_locked(pcr)
    }
}

/// The fixed, chip-specific capability table: bit `n` of the result says
/// whether alternate function `n` is available on pin `idx` of port bank
/// `bank` (0 = A, 1 = B, 2 = C, 3 = D).  A result of zero means the pin is
/// not bonded out on this package.
pub open spec fn spec_af_mask(bank: u8, idx: u8) -> u8 {
    if bank == 0 {
        match idx {
            0 => 0x82,
            1 => 0x9E,
            2 => 0x9E,
            3 => 0xDE,
            4 => 0xDE,
            9 => 0xAE,
            10 => 0xAE,
            14 => 0xE6,
            15 => 0xA6,
            17 => 0x3E,
            18 => 0x3E,
            19 => 0x7E,
            20 => 0x7E,
            21 => 0x76,
            22 => 0x76,
            23 => 0x7E,
            24 => 0x7E,
            25 => 0x3E,
            26 => 0x3E,
            27 => 0x2E,
            28 => 0x2E,
            30 => 0xEE,
            31 => 0x6E,
            _ => 0,
        }
    } else if bank == 1 {
        match idx {
            0 => 0x7E,
            1 => 0xBE,
            2 => 0x7E,
            3 => 0x7F,
            4 => 0x7F,
            5 => 0x7E,
            6 => 0xFE,
            7 => 0xFF,
            8 => 0xBE,
            9 => 0xBF,
            11 => 0xBE,
            12 => 0xFE,
            13 => 0xFE,
            14 => 0xFE,
            15 => 0xFA,
            16 => 0xBA,
            17 => 0xBA,
            18 => 0xFE,
            19 => 0xEE,
            20 => 0xEE,
            21 => 0xFE,
            22 => 0xFE,
            24 => 0xFE,
            25 => 0xFE,
            26 => 0xFE,
            28 => 0xBA,
            29 => 0xBA,
            30 => 0x32,
            31 => 0x32,
            _ => 0,
        }
    } else if bank == 2 {
        match idx {
            0 => 0x32,
            1 => 0x32,
            7 => 0xDF,
            8 => 0x5F,
            9 => 0xDF,
            10 => 0x5F,
            11 => 0xDF,
            12 => 0xDF,
            27 => 0x42,
            28 => 0xCA,
            29 => 0xCE,
            30 => 0xCE,
            _ => 0,
        }
    } else if bank == 3 {
        match idx {
            0 => 0xCE,
            1 => 0xCE,
            2 => 0xCE,
            3 => 0xDE,
            4 => 0x9E,
            5 => 0x9F,
            6 => 0xFF,
            7 => 0xFF,
            8 => 0xFF,
            9 => 0xFF,
            10 => 0xFF,
            11 => 0xFF,
            _ => 0,
        }
    } else {
        0
    }
}

/// Whether alternate function `af` is available on the given pin.
pub open spec fn spec_af_supported(bank: u8, idx: u8, af: u8) -> bool {
    af < 8 && (spec_af_mask(bank, idx) >> af) & 1 == 1
}

/// Whether the pin exists on this package.  Every bonded-out pin supports
/// the GPIO function (alternate function 1), so presence coincides with
/// that table entry.
pub open spec fn pin_present(bank: u8, idx: u8) -> bool {
    spec_af_supported(bank, idx, 1)
}

/// Reads the capability table.
pub fn af_mask(bank: u8, idx: u8) -> (r: u8)
    ensures
        r == spec_af_mask(bank, idx),
{
    if bank == 0 {
        match idx {
            0 => 0x82,
            1 => 0x9E,
            2 => 0x9E,
            3 => 0xDE,
            4 => 0xDE,
            9 => 0xAE,
            10 => 0xAE,
            14 => 0xE6,
            15 => 0xA6,
            17 => 0x3E,
            18 => 0x3E,
            19 => 0x7E,
            20 => 0x7E,
            21 => 0x76,
            22 => 0x76,
            23 => 0x7E,
            24 => 0x7E,
            25 => 0x3E,
            26 => 0x3E,
            27 => 0x2E,
            28 => 0x2E,
            30 => 0xEE,
            31 => 0x6E,
            _ => 0,
        }
    } else if bank == 1 {
        match idx {
            0 => 0x7E,
            1 => 0xBE,
            2 => 0x7E,
            3 => 0x7F,
            4 => 0x7F,
            5 => 0x7E,
            6 => 0xFE,
            7 => 0xFF,
            8 => 0xBE,
            9 => 0xBF,
            11 => 0xBE,
            12 => 0xFE,
            13 => 0xFE,
            14 => 0xFE,
            15 => 0xFA,
            16 => 0xBA,
            17 => 0xBA,
            18 => 0xFE,
            19 => 0xEE,
            20 => 0xEE,
            21 => 0xFE,
            22 => 0xFE,
            24 => 0xFE,
            25 => 0xFE,
            26 => 0xFE,
            28 => 0xBA,
            29 => 0xBA,
            30 => 0x32,
            31 => 0x32,
            _ => 0,
        }
    } else if bank == 2 {
        match idx {
            0 => 0x32,
            1 => 0x32,
            7 => 0xDF,
            8 => 0x5F,
            9 => 0xDF,
            10 => 0x5F,
            11 => 0xDF,
            12 => 0xDF,
            27 => 0x42,
            28 => 0xCA,
            29 => 0xCE,
            30 => 0xCE,
            _ => 0,
        }
    } else if bank == 3 {
        match idx {
            0 => 0xCE,
            1 => 0xCE,
            2 => 0xCE,
            3 => 0xDE,
            4 => 0x9E,
            5 => 0x9F,
            6 => 0xFF,
            7 => 0xFF,
            8 => 0xFF,
            9 => 0xFF,
            10 => 0xFF,
            11 => 0xFF,
            _ => 0,
        }
    } else {
        0
    }
}

/// Decides from the capability table whether alternate function `af` is
/// available on the given pin.
pub fn af_supported(bank: u8, idx: u8, af: u8) -> (r: bool)
    ensures
        r == spec_af_supported(bank, idx, af),
{
    af < 8 && (af_mask(bank, idx) >> af) & 1 == 1
}

/// Exclusive ownership of one physical pin's software-visible state: the
/// bank and index naming the pin, and the image of its control register.
/// The marker parameters tie the register contents to the type: `AF` names
/// the multiplexer setting, `LOCK` the lock bit.
pub struct Pin<AF, LOCK> {
    pub(crate) bank: u8,
    pub(crate) idx: u8,
    pub(crate) pcr: u32,
    pub(crate) _function: PhantomData<AF>,
    pub(crate) _lock: PhantomData<LOCK>,
}

impl<AF, LOCK> Pin<AF, LOCK> {
    /// The port bank this pin belongs to (0 = A .. 3 = D).
    pub closed spec fn bank_spec(&self) -> u8 {
        self.bank
    }

    /// The pin's index within its bank.
    pub closed spec fn idx_spec(&self) -> u8 {
        self.idx
    }

    /// The pin's control register image.
    pub closed spec fn pcr_spec(&self) -> u32 {
        self.pcr
    }

    /// Reads the bank number.
    pub fn pin_bank(&self) -> (r: u8)
        ensures
            r == self.bank_spec(),
    {
        self.bank
    }

    /// Reads the pin index.
    pub fn pin_index(&self) -> (r: u8)
        ensures
            r == self.idx_spec(),
    {
        self.idx
    }

    /// Reads the control register image.
    pub fn pcr_value(&self) -> (r: u32)
        ensures
            r == self.pcr_spec(),
    {
        self.pcr
    }
}

impl<AF: PinFunction, LOCK: PinLock> Pin<AF, LOCK> {
    /// The token is well formed: the pin exists on this package, its index
    /// is in range, and the register image carries both type tags.
    pub open spec fn wf(&self) -> bool {
        &&& pin_present(self.bank_spec(), self.idx_spec())
        &&& self.idx_spec() < 32
        &&& AF::allows(self.pcr_spec())
        &&& LOCK::allows(self.pcr_spec())
    }

    /// Discards the compile-time tags, producing a runtime-indexed token
    /// for homogeneous storage.  No register is written.
    pub fn downgrade(self) -> (r: ErasedPin)
        requires
            self.wf(),
        ensures
            r.bank_spec() == self.bank_spec(),
            r.idx_spec() == self.idx_spec(),
            r.pcr_spec() == self.pcr_spec(),
            r.wf(),
    {
        ErasedPin { bank: self.bank, idx: self.idx, pcr: self.pcr }
    }
}

/// The control register value written by a bare multiplexer selection:
/// the three-bit multiplexer field holds the alternate function number and
/// every other writable bit is cleared.
pub proof fn lemma_mux_write(af: u32)
    requires
        af < 8,
    ensures
        mux_of(af << 8) == af,
        !pcr_locked(af << 8),
{
    assert(((af << 8) >> 8) & 7 == af && (af << 8) & 0x8000u32 == 0) by (bit_vector)
        requires
            af < 8,
    ;
}

/// The all-clear control register value selects multiplexer setting 0 and
/// leaves the lock bit clear.
pub proof fn lemma_disabled_write()
    ensures
        mux_of(0) == 0,
        !pcr_locked(0),
{
    assert((0u32 >> 8) & 7 == 0 && 0u32 & 0x8000 == 0) by (bit_vector);
}

/// The control register values written by the GPIO-function transitions:
/// all select multiplexer setting 1 and leave the lock bit clear.
pub proof fn lemma_alt1_write_values()
    ensures
        mux_of(0x100) == 1,
        mux_of(0x120) == 1,
        mux_of(0x102) == 1,
        mux_of(0x103) == 1,
        !pcr_locked(0x100),
        !pcr_locked(0x120),
        !pcr_locked(0x102),
        !pcr_locked(0x103),
{
    assert((0x100u32 >> 8) & 7 == 1 && (0x120u32 >> 8) & 7 == 1 && (0x102u32 >> 8) & 7 == 1 && (
    0x103u32 >> 8) & 7 == 1 && 0x100u32 & 0x8000 == 0 && 0x120u32 & 0x8000 == 0 && 0x102u32
        & 0x8000 == 0 && 0x103u32 & 0x8000 == 0) by (bit_vector);
}

impl<AF: PinFunction> Pin<AF, Unlocked> {
    /// Configures the pin as disabled (alternate function 0, no signal
    /// routed).  Writes the whole control register: multiplexer field 0,
    /// every other writable bit cleared.
    pub fn into_disabled(self) -> (r: Pin<ALT0, Unlocked>)
        requires
            self.wf(),
        ensures
            r.bank_spec() == self.bank_spec(),
            r.idx_spec() == self.idx_spec(),
            r.pcr_spec() == 0u32,
            r.wf(),
    {
        proof {
            lemma_disabled_write();
        }
        Pin { bank: self.bank, idx: self.idx, pcr: 0, _function: PhantomData, _lock: PhantomData }
    }

    /// Configures the pin to operate as alternate function 0, where the
    /// capability table routes an analog or comparator signal there.
    pub fn into_af0(self) -> (r: Pin<ALT0, Unlocked>)
        requires
            self.wf(),
            spec_af_supported(self.bank_spec(), self.idx_spec(), 0),
        ensures
            r.bank_spec() == self.bank_spec(),
            r.idx_spec() == self.idx_spec(),
            r.pcr_spec() == 0u32,
            r.wf(),
    {
        proof {
            lemma_disabled_write();
        }
        Pin { bank: self.bank, idx: self.idx, pcr: 0, _function: PhantomData, _lock: PhantomData }
    }

    /// Configures the pin to operate as alternate function 1 (GPIO).
    pub fn into_af1(self) -> (r: Pin<ALT1, Unlocked>)
        requires
            self.wf(),
        ensures
            r.bank_spec() == self.bank_spec(),
            r.idx_spec() == self.idx_spec(),
            r.pcr_spec() == (1u32 << 8),
            r.wf(),
    {
        proof {
            lemma_mux_write(1);
        }
        Pin { bank: self.bank, idx: self.idx, pcr: 1u32 << 8, _function: PhantomData, _lock: PhantomData }
    }

    /// Configures the pin to operate as alternate function 2.
    pub fn into_af2(self) -> (r: Pin<ALT2, Unlocked>)
        requires
            self.wf(),
            spec_af_supported(self.bank_spec(), self.idx_spec(), 2),
        ensures
            r.bank_spec() == self.bank_spec(),
            r.idx_spec() == self.idx_spec(),
            r.pcr_spec() == (2u32 << 8),
            r.wf(),
    {
        proof {
            lemma_mux_write(2);
        }
        Pin { bank: self.bank, idx: self.idx, pcr: 2u32 << 8, _function: PhantomData, _lock: PhantomData }
    }

    /// Configures the pin to operate as alternate function 3.
    pub fn into_af3(self) -> (r: Pin<ALT3, Unlocked>)
        requires
            self.wf(),
            spec_af_supported(self.bank_spec(), self.idx_spec(), 3),
        ensures
            r.bank_spec() == self.bank_spec(),
            r.idx_spec() == self.idx_spec(),
            r.pcr_spec() == (3u32 << 8),
            r.wf(),
    {
        proof {
            lemma_mux_write(3);
        }
        Pin { bank: self.bank, idx: self.idx, pcr: 3u32 << 8, _function: PhantomData, _lock: PhantomData }
    }

    /// Configures the pin to operate as alternate function 4.
    pub fn into_af4(self) -> (r: Pin<ALT4, Unlocked>)
        requires
            self.wf(),
            spec_af_supported(self.bank_spec(), self.idx_spec(), 4),
        ensures
            r.bank_spec() == self.bank_spec(),
            r.idx_spec() == self.idx_spec(),
            r.pcr_spec() == (4u32 << 8),
            r.wf(),
    {
        proof {
            lemma_mux_write(4);
        }
        Pin { bank: self.bank, idx: self.idx, pcr: 4u32 << 8, _function: PhantomData, _lock: PhantomData }
    }

    /// Configures the pin to operate as alternate function 5.
    pub fn into_af5(self) -> (r: Pin<ALT5, Unlocked>)
        requires
            self.wf(),
            spec_af_supported(self.bank_spec(), self.idx_spec(), 5),
        ensures
            r.bank_spec() == self.bank_spec(),
            r.idx_spec() == self.idx_spec(),
            r.pcr_spec() == (5u32 << 8),
            r.wf(),
    {
        proof {
            lemma_mux_write(5);
        }
        Pin { bank: self.bank, idx: self.idx, pcr: 5u32 << 8, _function: PhantomData, _lock: PhantomData }
    }

    /// Configures the pin to operate as alternate function 6.
    pub fn into_af6(self) -> (r: Pin<ALT6, Unlocked>)
        requires
            self.wf(),
            spec_af_supported(self.bank_spec(), self.idx_spec(), 6),
        ensures
            r.bank_spec() == self.bank_spec(),
            r.idx_spec() == self.idx_spec(),
            r.pcr_spec() == (6u32 << 8),
            r.wf(),
    {
        proof {
            lemma_mux_write(6);
        }
        Pin { bank: self.bank, idx: self.idx, pcr: 6u32 << 8, _function: PhantomData, _lock: PhantomData }
    }

    /// Configures the pin to operate as alternate function 7.
    pub fn into_af7(self) -> (r: Pin<ALT7, Unlocked>)
        requires
            self.wf(),
            spec_af_supported(self.bank_spec(), self.idx_spec(), 7),
        ensures
            r.bank_spec() == self.bank_spec(),
            r.idx_spec() == self.idx_spec(),
            r.pcr_spec() == (7u32 << 8),
            r.wf(),
    {
        proof {
            lemma_mux_write(7);
        }
        Pin { bank: self.bank, idx: self.idx, pcr: 7u32 << 8, _function: PhantomData, _lock: PhantomData }
    }

    /// Sets the lock bit in the pin's own control register: a single
    /// read-modify-write of that bit.  The returned token offers no mode
    /// transition, so the frozen control register can never be rewritten
    /// through this layer; only the output data state stays mutable.
    pub fn lock(self) -> (r: Pin<AF, Locked>)
        requires
            self.wf(),
        ensures
            r.bank_spec() == self.bank_spec(),
            r.idx_spec() == self.idx_spec(),
            r.pcr_spec() == (self.pcr_spec() | PCR_LK),
            r.wf(),
    {
        proof {
            lemma_mux_of_lock(self.pcr_spec());
            AF::lemma_allows_lock_insensitive(self.pcr_spec());
        }
        Pin { bank: self.bank, idx: self.idx, pcr: self.pcr | PCR_LK, _function: PhantomData, _lock: PhantomData }
    }

    /// Writes multiplexer setting 1 with the open-drain bit clear; the
    /// other writable bits are cleared by the whole-register write.
    pub(crate) fn into_af1_no_open_drain(self) -> (r: Pin<ALT1, Unlocked>)
        requires
            self.wf(),
        ensures
            r.bank_spec() == self.bank_spec(),
            r.idx_spec() == self.idx_spec(),
            r.pcr_spec() == 0x100u32,
            r.wf(),
    {
        proof {
            lemma_alt1_write_values();
        }
        Pin { bank: self.bank, idx: self.idx, pcr: 0x100, _function: PhantomData, _lock: PhantomData }
    }

    /// Writes multiplexer setting 1 with the open-drain bit set.
    pub(crate) fn into_af1_with_open_drain(self) -> (r: Pin<ALT1, Unlocked>)
        requires
            self.wf(),
        ensures
            r.bank_spec() == self.bank_spec(),
            r.idx_spec() == self.idx_spec(),
            r.pcr_spec() == 0x120u32,
            r.wf(),
    {
        proof {
            lemma_alt1_write_values();
        }
        Pin { bank: self.bank, idx: self.idx, pcr: 0x120, _function: PhantomData, _lock: PhantomData }
    }

    /// Writes multiplexer setting 1 with the pull disabled.
    pub(crate) fn into_af1_no_pull(self) -> (r: Pin<ALT1, Unlocked>)
        requires
            self.wf(),
        ensures
            r.bank_spec() == self.bank_spec(),
            r.idx_spec() == self.idx_spec(),
            r.pcr_spec() == 0x100u32,
            r.wf(),
    {
        proof {
            lemma_alt1_write_values();
        }
        Pin { bank: self.bank, idx: self.idx, pcr: 0x100, _function: PhantomData, _lock: PhantomData }
    }

    /// Writes multiplexer setting 1 with the pull enabled and selected up.
    pub(crate) fn into_af1_pull_up(self) -> (r: Pin<ALT1, Unlocked>)
        requires
            self.wf(),
        ensures
            r.bank_spec() == self.bank_spec(),
            r.idx_spec() == self.idx_spec(),
            r.pcr_spec() == 0x103u32,
            r.wf(),
    {
        proof {
            lemma_alt1_write_values();
        }
        Pin { bank: self.bank, idx: self.idx, pcr: 0x103, _function: PhantomData, _lock: PhantomData }
    }

    /// Writes multiplexer setting 1 with the pull enabled and selected
    /// down.
    pub(crate) fn into_af1_pull_down(self) -> (r: Pin<ALT1, Unlocked>)
        requires
            self.wf(),
        ensures
            r.bank_spec() == self.bank_spec(),
            r.idx_spec() == self.idx_spec(),
            r.pcr_spec() == 0x102u32,
            r.wf(),
    {
        proof {
            lemma_alt1_write_values();
        }
        Pin { bank: self.bank, idx: self.idx, pcr: 0x102, _function: PhantomData, _lock: PhantomData }
    }
}

/// The pull, filter, drive-strength and slew-rate bits live below the
/// multiplexer field, so flipping one of them changes neither the
/// multiplexer setting nor the lock bit.
pub proof fn lemma_attr_bit(pcr: u32, bit: u32)
    requires
        bit == PCR_SRE || bit == PCR_PFE || bit == PCR_DSE,
    ensures
        mux_of(pcr | bit) == mux_of(pcr),
        mux_of(pcr & !bit) == mux_of(pcr),
        pcr_locked(pcr | bit) == pcr_locked(pcr),
        pcr_locked(pcr & !bit) == pcr_locked(pcr),
{
    assert((((pcr | bit) >> 8) & 7 == (pcr >> 8) & 7) && (((pcr & !bit) >> 8) & 7 == (pcr >> 8)
        & 7) && ((pcr | bit) & 0x8000 == pcr & 0x8000) && ((pcr & !bit) & 0x8000 == pcr
        & 0x8000)) by (bit_vector)
        requires
            bit == 0x4u32 || bit == 0x10u32 || bit == 0x40u32,
    ;
}

impl Pin<ALT1, Unlocked> {
    /// Sets or clears one orthogonal attribute bit of the control
    /// register — slew rate, passive filter or drive strength — by a
    /// single read-modify-write that leaves every other bit alone.
    pub(crate) fn write_attr_bit(&mut self, bit: u32, on: bool)
        requires
            old(self).wf(),
            bit == PCR_SRE || bit == PCR_PFE || bit == PCR_DSE,
        ensures
            final(self).wf(),
            final(self).bank_spec() == old(self).bank_spec(),
            final(self).idx_spec() == old(self).idx_spec(),
            final(self).pcr_spec() == (if on {
                old(self).pcr_spec() | bit
            } else {
                old(self).pcr_spec() & !bit
            }),
    {
        proof {
            lemma_attr_bit(old(self).pcr_spec(), bit);
        }
        if on {
            self.pcr = self.pcr | bit;
        } else {
            self.pcr = self.pcr & !bit;
        }
    }
}

/// A pin token whose compile-time index and mode tags have been discarded:
/// operations on it dispatch on the stored bank and bit index at run time.
pub struct ErasedPin {
    pub(crate) bank: u8,
    pub(crate) idx: u8,
    pub(crate) pcr: u32,
}

impl ErasedPin {
    /// The port bank this pin belongs to (0 = A .. 3 = D).
    pub closed spec fn bank_spec(&self) -> u8 {
        self.bank
    }

    /// The pin's index within its bank.
    pub closed spec fn idx_spec(&self) -> u8 {
        self.idx
    }

    /// The pin's control register image.
    pub closed spec fn pcr_spec(&self) -> u32 {
        self.pcr
    }

    /// The token is well formed: the pin exists and its index is in range.
    pub open spec fn wf(&self) -> bool {
        pin_present(self.bank_spec(), self.idx_spec()) && self.idx_spec() < 32
    }

    /// Reads the bank number.
    pub fn pin_bank(&self) -> (r: u8)
        ensures
            r == self.bank_spec(),
    {
        self.bank
    }

    /// Reads the pin index.
    pub fn pin_index(&self) -> (r: u8)
        ensures
            r == self.idx_spec(),
    {
        self.idx
    }

    /// Reads the control register image.
    pub fn pcr_value(&self) -> (r: u32)
        ensures
            r == self.pcr_spec(),
    {
        self.pcr
    }

    /// Reads the lock bit.
    pub fn is_locked(&self) -> (r: bool)
        ensures
            r == pcr_locked(self.pcr_spec()),
    {
        self.pcr & PCR_LK != 0
    }
}

/// Exclusive software access to one port bank's register group: the
/// 32 pin control register images.  Splitting it hands out one pin token
/// per bonded-out pin; freeing the parts hands the block back so another
/// core may claim it.
pub struct PortBlock {
    pub(crate) bank: u8,
    pub(crate) pcrs: Vec<u32>,
}

impl PortBlock {
    /// The port bank this block controls (0 = A .. 3 = D).
    pub closed spec fn bank_spec(&self) -> u8 {
        self.bank
    }

    /// The 32 pin control register images, by pin index.
    pub closed spec fn pcrs_spec(&self) -> Seq<u32> {
        self.pcrs@
    }

    /// The block is well formed: a real bank number and one register per
    /// pin position.
    pub open spec fn wf(&self) -> bool {
        self.bank_spec() < 4 && self.pcrs_spec().len() == 32
    }

    /// Reads the bank number.
    pub fn port_bank(&self) -> (r: u8)
        ensures
            r == self.bank_spec(),
    {
        self.bank
    }

    /// Reads one pin's control register image.
    pub fn pcr_value(&self, idx: u8) -> (r: u32)
        requires
            self.wf(),
            idx < 32,
        ensures
            r == self.pcrs_spec()[idx as int],
    {
        self.pcrs[idx as usize]
    }
}

/// One port bank split into independent per-pin tokens, indexed by pin
/// position.  Positions that hold `None` are either not bonded out on
/// this package or have already been taken.
pub struct Parts {
    pub(crate) bank: u8,
    pub(crate) pins: Vec<Option<Pin<Reset, Unlocked>>>,
}

impl Parts {
    /// The port bank these parts came from.
    pub closed spec fn bank_spec(&self) -> u8 {
        self.bank
    }

    /// The per-position pin tokens still held.
    pub closed spec fn pins_spec(&self) -> Seq<Option<Pin<Reset, Unlocked>>> {
        self.pins@
    }

    /// The parts are well formed: every held token names its own position
    /// in this bank and is itself well formed.
    pub open spec fn wf(&self) -> bool {
        &&& self.bank_spec() < 4
        &&& self.pins_spec().len() == 32
        &&& forall|i: int|
            0 <= i < 32 && (#[trigger] self.pins_spec()[i]) is Some ==> {
                let p = self.pins_spec()[i]->0;
                &&& p.bank_spec() == self.bank_spec()
                &&& p.idx_spec() == i
                &&& p.wf()
            }
    }

    /// Moves the token for pin `idx` out of the parts, leaving `None` in
    /// its position.  Returns `None` when that pin is not bonded out or
    /// was already taken.
    pub fn take(&mut self, idx: u8) -> (r: Option<Pin<Reset, Unlocked>>)
        requires
            old(self).wf(),
            idx < 32,
        ensures
            final(self).wf(),
            final(self).bank_spec() == old(self).bank_spec(),
            r == old(self).pins_spec()[idx as int],
            final(self).pins_spec() == old(self).pins_spec().update(
                idx as int,
                None::<Pin<Reset, Unlocked>>,
            ),
            r is Some ==> {
                &&& r->0.bank_spec() == old(self).bank_spec()
                &&& r->0.idx_spec() == idx
                &&& r->0.wf()
            },
    {
        let p = self.pins.remove(idx as usize);
        self.pins.insert(idx as usize, None);
        proof {
            assert(self.pins@ =~= old(self).pins@.update(idx as int, None::<Pin<Reset, Unlocked>>));
        }
        p
    }

    /// Frees the port: disables the bank's clock gate and reassembles the
    /// register block from the returned tokens, so the bank can be handed
    /// to another core.  Every bonded-out pin must first have been taken,
    /// re-normalized to a caller-chosen GPIO input mode (multiplexer
    /// setting 1, open-drain off, any pull configuration, not locked),
    /// downgraded, and handed back in its own position.
    pub fn free(self, pins: Vec<Option<ErasedPin>>, gate: &mut ClockGate) -> (r: PortBlock)
        requires
            self.wf(),
            forall|i: int| 0 <= i < 32 ==> (#[trigger] self.pins_spec()[i]) is None,
            pins@.len() == 32,
            forall|i: int|
                0 <= i < 32 ==> ((#[trigger] pins@[i]) is Some <==> pin_present(
                    self.bank_spec(),
                    i as u8,
                )),
            forall|i: int|
                0 <= i < 32 && (#[trigger] pins@[i]) is Some ==> {
                    let p = pins@[i]->0;
                    &&& p.bank_spec() == self.bank_spec()
                    &&& p.idx_spec() == i
                    &&& mux_of(p.pcr_spec()) == 1
                    &&& p.pcr_spec() & PCR_ODE == 0
                    &&& !pcr_locked(p.pcr_spec())
                },
        ensures
            r.wf(),
            r.bank_spec() == self.bank_spec(),
            forall|i: int|
                0 <= i < 32 ==> (#[trigger] r.pcrs_spec()[i]) == (if pins@[i] is Some {
                    pins@[i]->0.pcr_spec()
                } else {
                    0u32
                }),
            forall|i: int| 0 <= i < 32 ==> !pcr_locked(#[trigger] r.pcrs_spec()[i]),
            final(gate).reg_spec() == pcc_write_cgc(old(gate).reg_spec(), false),
            !final(gate).enabled_spec(),
    {
        proof {
            assert(!pcr_locked(0u32)) by (bit_vector);
        }
        gate.disable();
        let mut pcrs: Vec<u32> = Vec::new();
        let mut i: usize = 0;
        while i < 32
            invariant
                pins@.len() == 32,
                i <= 32,
                pcrs@.len() == i,
                forall|j: int|
                    0 <= j < i ==> (#[trigger] pcrs@[j]) == (if pins@[j] is Some {
                        pins@[j]->0.pcr_spec()
                    } else {
                        0u32
                    }),
            decreases 32 - i,
        {
            let v: u32 = match &pins[i] {
                Some(p) => p.pcr_value(),
                None => 0,
            };
            pcrs.push(v);
            i += 1;
        }
        PortBlock { bank: self.bank, pcrs }
    }
}

/// The documented reset value of a pin control register in this model:
/// the debug pins of bank A come up routed to their JTAG function
/// (alternate function 7), every other control register reads zero.
pub open spec fn reset_pcr(bank: u8, idx: u8) -> u32 {
    if bank == 0 && idx <= 15 && pin_present(bank, idx) {
        0x700u32
    } else {
        0u32
    }
}

/// Both reset values leave the lock bit clear: locks do not survive a
/// system reset.
pub proof fn lemma_reset_pcr_unlocked(bank: u8, idx: u8)
    ensures
        !pcr_locked(reset_pcr(bank, idx)),
{
    assert(0x700u32 & 0x8000 == 0 && 0u32 & 0x8000 == 0) by (bit_vector);
}

/// Builds one port bank's register block in its reset state.
pub(crate) fn reset_block(bank: u8) -> (r: PortBlock)
    requires
        bank < 4,
    ensures
        r.wf(),
        r.bank_spec() == bank,
        forall|i: int| 0 <= i < 32 ==> (#[trigger] r.pcrs_spec()[i]) == reset_pcr(bank, i as u8),
{
    let mut pcrs: Vec<u32> = Vec::new();
    let mut i: usize = 0;
    while i < 32
        invariant
            bank < 4,
            i <= 32,
            pcrs@.len() == i,
            forall|j: int| 0 <= j < i ==> (#[trigger] pcrs@[j]) == reset_pcr(bank, j as u8),
        decreases 32 - i,
    {
        let idx: u8 = i as u8;
        let v: u32 = if bank == 0 && idx <= 15 && af_supported(bank, idx, 1) {
            0x700
        } else {
            0
        };
        pcrs.push(v);
        i += 1;
    }
    PortBlock { bank, pcrs }
}

/// Extension trait to split a port bank's register block into independent
/// pin tokens.
pub trait PortExt: Sized {
    /// The clock gate that controls this port.
    type Clock;

    /// The bundle of per-pin tokens the block splits into.
    type Parts;

    /// What a block must satisfy before it can be split.
    spec fn split_pre(&self) -> bool;

    /// Relates the block and the clock gate around the split to its
    /// outcome.
    spec fn split_post(
        &self,
        c0: Self::Clock,
        c1: Self::Clock,
        r: Result<Self::Parts, EnableError>,
    ) -> bool;

    /// Splits the block into independent pin tokens.
    ///
    /// This may fail because the port peripheral is absent on this device
    /// or in use by another core: the split enables the port's clock gate
    /// as a precondition and surfaces that gate's errors.
    fn split(self, pcc_port: &mut Self::Clock) -> (r: Result<Self::Parts, EnableError>)
        requires
            self.split_pre(),
        ensures
            self.split_post(*old(pcc_port), *final(pcc_port), r),
    ;
}

impl PortExt for PortBlock {
    type Clock = ClockGate;

    type Parts = Parts;

    open spec fn split_pre(&self) -> bool {
        self.wf() && forall|i: int| 0 <= i < 32 ==> !pcr_locked(#[trigger] self.pcrs_spec()[i])
    }

    open spec fn split_post(
        &self,
        c0: ClockGate,
        c1: ClockGate,
        r: Result<Parts, EnableError>,
    ) -> bool {
        &&& !c0.present_spec() ==> r == Err::<Parts, EnableError>(EnableError::Absent) && c1 == c0
        &&& c0.present_spec() && c0.in_use_spec() ==> r == Err::<Parts, EnableError>(
            EnableError::InUse,
        ) && c1 == c0
        &&& c0.present_spec() && !c0.in_use_spec() ==> {
            &&& r is Ok
            &&& c1.reg_spec() == pcc_write_cgc(c0.reg_spec(), true)
            &&& r->Ok_0.wf()
            &&& r->Ok_0.bank_spec() == self.bank_spec()
            &&& forall|i: int|
                0 <= i < 32 ==> ((#[trigger] r->Ok_0.pins_spec()[i]) is Some <==> pin_present(
                    self.bank_spec(),
                    i as u8,
                ))
            &&& forall|i: int|
                0 <= i < 32 && (#[trigger] r->Ok_0.pins_spec()[i]) is Some
                    ==> r->Ok_0.pins_spec()[i]->0.pcr_spec() == self.pcrs_spec()[i]
        }
    }

    fn split(self, pcc_port: &mut ClockGate) -> (r: Result<Parts, EnableError>) {
        match pcc_port.try_enable() {
            Err(e) => {
                return Err(e);
            },
            Ok(()) => {},
        }
        let mut pins: Vec<Option<Pin<Reset, Unlocked>>> = Vec::new();
        let mut i: usize = 0;
        while i < 32
            invariant
                self.wf(),
                forall|j: int| 0 <= j < 32 ==> !pcr_locked(#[trigger] self.pcrs_spec()[j]),
                i <= 32,
                pins@.len() == i,
                forall|j: int|
                    0 <= j < i ==> ((#[trigger] pins@[j]) is Some <==> pin_present(
                        self.bank_spec(),
                        j as u8,
                    )),
                forall|j: int|
                    0 <= j < i && (#[trigger] pins@[j]) is Some ==> {
                        let p = pins@[j]->0;
                        &&& p.bank_spec() == self.bank_spec()
                        &&& p.idx_spec() == j
                        &&& p.pcr_spec() == self.pcrs_spec()[j]
                        &&& p.wf()
                    },
            decreases 32 - i,
        {
            let idx: u8 = i as u8;
            if af_supported(self.bank, idx, 1) {
                pins.push(
                    Some(
                        Pin {
                            bank: self.bank,
                            idx,
                            pcr: self.pcrs[i],
                            _function: PhantomData,
                            _lock: PhantomData,
                        },
                    ),
                );
            } else {
                pins.push(None);
            }
            i += 1;
        }
        Ok(Parts { bank: self.bank, pins })
    }
}

} // verus!
