//! Serial module.
//!
//! Driver construction for the on-chip Low Power Universal Asynchronous
//! Receiver/Transmitter (LPUART).  Constructing a session consumes the
//! raw register block, a pair or quad of pin tokens statically attested
//! to carry the right signal roles, a configuration record, a clock
//! source selection and the peripheral's clock-gate token.  It programs
//! the baud-rate divisor found by exhaustive search over the documented
//! oversampling range, minimizing the baud error.

use vstd::prelude::*;

use core::marker::PhantomData;
use crate::pcc::{ClockGate, EnableError, pcc_write_cgc};
use crate::port::{ALT2, ALT3, Pin, Unlocked};
use crate::scg::{Clocks, Source};
use vstd::arithmetic::div_mod::{
    lemma_div_by_self, lemma_div_is_ordered, lemma_div_is_ordered_by_denominator,
    lemma_div_multiples_vanish, lemma_div_pos_is_pos, lemma_fundamental_div_mod,
    lemma_mod_division_less_than_divisor, lemma_multiply_divide_lt,
};
use vstd::arithmetic::mul::{
    lemma_mul_inequality, lemma_mul_is_associative, lemma_mul_is_commutative,
    lemma_mul_is_distributive_add, lemma_mul_left_inequality, lemma_mul_strictly_positive,
};

verus! {

/// Reset bit of the LPUART global register.
pub const LPUART_GLOBAL_RST: u32 = 0x2;

/// Stop-bit-number select bit of the baud register (set: two stop bits).
pub const LPUART_BAUD_SBNS: u32 = 0x2000;

/// Both-edge sampling bit of the baud register, required for
/// oversampling ratios below eight.
pub const LPUART_BAUD_BOTHEDGE: u32 = 0x2_0000;

/// Parity type bit of the control register (set: odd parity).
pub const LPUART_CTRL_PT: u32 = 0x1;

/// Parity enable bit of the control register.
pub const LPUART_CTRL_PE: u32 = 0x2;

/// Nine-bit-mode bit of the control register, set when a parity bit
/// extends the word.
pub const LPUART_CTRL_M: u32 = 0x10;

/// Receiver enable bit of the control register.
pub const LPUART_CTRL_RE: u32 = 0x4_0000;

/// Transmitter enable bit of the control register.
pub const LPUART_CTRL_TE: u32 = 0x8_0000;

/// Most-significant-bit-first bit of the status register.
pub const LPUART_STAT_MSBF: u32 = 0x2000_0000;

/// The LPUART register block image: global control, baud configuration,
/// status and control registers.
#[derive(Clone, Copy, Debug, PartialEq, Eq, Structural)]
pub struct LpuartRegs {
    /// Global register, holding the software reset bit.
    pub global: u32,
    /// Baud rate register: sub-baud divisor, oversampling ratio, stop
    /// bit number and sampling edge control.
    pub baud: u32,
    /// Status register; only the bit-order control bit is programmed
    /// here.
    pub stat: u32,
    /// Control register: transmitter/receiver enables and parity
    /// control.
    pub ctrl: u32,
}

/// The sub-baud-rate divisor field of a baud register value (13 bits).
pub open spec fn sbr_of_baud(reg: u32) -> u32 {
    reg & 0x1FFF
}

/// The oversampling ratio encoded in a baud register value: the five-bit
/// field stores the ratio minus one.
pub open spec fn osr_of_baud(reg: u32) -> u32 {
    (((reg >> 24) & 31) + 1) as u32
}

/// The baud register value programmed for a divisor pair: the
/// oversampling ratio is stored as ratio minus one in bits 24 to 28, the
/// sub-baud divisor in bits 0 to 12, with the both-edge and stop-bit
/// flags at their documented positions and ten-bit mode disabled.
pub open spec fn baud_reg_value(osr: u32, sbr: u32, bothedge: bool, sbns: bool) -> u32 {
    (((osr - 1) as u32) << 24) | sbr | (if bothedge {
        LPUART_BAUD_BOTHEDGE
    } else {
        0
    }) | (if sbns {
        LPUART_BAUD_SBNS
    } else {
        0
    })
}

/// The control register value programmed at construction: transmitter
/// and receiver enabled, and for a parity mode also the parity enable,
/// the parity type and the nine-bit word that makes room for the
/// parity bit.
pub open spec fn ctrl_reg_value(parity: Parity) -> u32 {
    match parity {
        Parity::ParityNone => LPUART_CTRL_TE | LPUART_CTRL_RE,
        Parity::ParityEven => LPUART_CTRL_TE | LPUART_CTRL_RE | LPUART_CTRL_PE | LPUART_CTRL_M,
        Parity::ParityOdd => LPUART_CTRL_TE | LPUART_CTRL_RE | LPUART_CTRL_PE | LPUART_CTRL_PT
            | LPUART_CTRL_M,
    }
}

/// The status register value programmed at construction: only the
/// bit-order bit.
pub open spec fn stat_reg_value(order: Order) -> u32 {
    match order {
        Order::LsbFirst => 0u32,
        Order::MsbFirst => LPUART_STAT_MSBF,
    }
}

/// The divisor fields of a programmed baud register read back exactly as
/// written: the fields do not overlap.
pub proof fn lemma_baud_reg_fields(osr: u32, sbr: u32, bothedge: bool, sbns: bool)
    requires
        4 <= osr <= 32,
        1 <= sbr <= 8191,
    ensures
        osr_of_baud(baud_reg_value(osr, sbr, bothedge, sbns)) == osr,
        sbr_of_baud(baud_reg_value(osr, sbr, bothedge, sbns)) == sbr,
        baud_reg_value(osr, sbr, bothedge, sbns) & LPUART_BAUD_BOTHEDGE != 0 <==> bothedge,
        baud_reg_value(osr, sbr, bothedge, sbns) & LPUART_BAUD_SBNS != 0 <==> sbns,
{
    let be: u32 = if bothedge {
        0x2_0000u32
    } else {
        0u32
    };
    let sb: u32 = if sbns {
        0x2000u32
    } else {
        0u32
    };
    assert({
        let reg = (((osr - 1) as u32) << 24) | sbr | be | sb;
        &&& ((reg >> 24) & 31) == ((osr - 1) as u32)
        &&& (reg & 0x1FFF) == sbr
        &&& (reg & 0x2_0000u32 != 0 <==> be == 0x2_0000u32)
        &&& (reg & 0x2000u32 != 0 <==> sb == 0x2000u32)
    }) by (bit_vector)
        requires
            4 <= osr <= 32,
            1 <= sbr <= 8191,
            be == 0x2_0000u32 || be == 0u32,
            sb == 0x2000u32 || sb == 0u32,
    ;
}

/// The baud rate implied by a divisor pair: the source clock divided by
/// the product of the oversampling ratio and the sub-baud divisor,
/// rounding down.
pub open spec fn implied_baud(src: int, osr: int, sbr: int) -> int {
    src / (osr * sbr)
}

/// The absolute error between the implied and the requested baud rate.
pub open spec fn baud_err(src: int, target: int, osr: int, sbr: int) -> int {
    let b = implied_baud(src, osr, sbr);
    if b >= target {
        b - target
    } else {
        target - b
    }
}

/// A larger sub-baud divisor implies an equal or lower baud rate, and
/// the implied rate never goes below zero.
proof fn lemma_implied_antitone(src: int, osr: int, s1: int, s2: int)
    requires
        0 <= src,
        1 <= osr,
        1 <= s1 <= s2,
    ensures
        implied_baud(src, osr, s1) >= implied_baud(src, osr, s2),
        0 <= implied_baud(src, osr, s2),
{
    lemma_mul_inequality(s1, s2, osr);
    lemma_mul_is_commutative(s1, osr);
    lemma_mul_is_commutative(s2, osr);
    lemma_mul_strictly_positive(osr, s1);
    lemma_mul_strictly_positive(osr, s2);
    lemma_div_is_ordered_by_denominator(src, osr * s1, osr * s2);
    lemma_div_pos_is_pos(src, osr * s2);
}

/// A divisor whose implied rate still reaches the target bounds the
/// error of every smaller divisor: those imply rates at least as far
/// above the target.
proof fn lemma_err_above(src: int, t: int, osr: int, b: int, s: int)
    requires
        0 <= src,
        1 <= osr,
        1 <= s <= b,
        t <= implied_baud(src, osr, b),
    ensures
        baud_err(src, t, osr, s) >= baud_err(src, t, osr, b),
{
    lemma_implied_antitone(src, osr, s, b);
}

/// A divisor whose implied rate already misses the target from below
/// bounds the error of every larger divisor: those imply rates at
/// least as far below the target.
proof fn lemma_err_below(src: int, t: int, osr: int, b: int, s: int)
    requires
        0 <= src,
        1 <= osr,
        1 <= b <= s,
        implied_baud(src, osr, b) < t,
    ensures
        baud_err(src, t, osr, s) >= baud_err(src, t, osr, b),
{
    lemma_implied_antitone(src, osr, b, s);
}

/// For a fixed oversampling ratio, when the exact divisor
/// `src / (target * osr)` is at least one, it brackets the target baud
/// rate: that sub-baud divisor overshoots the target (or hits it) and
/// the next one undershoots it.
proof fn lemma_sbr_bracket(src: int, t: int, osr: int)
    requires
        1 <= t,
        1 <= osr,
        t * osr <= src,
    ensures
        ({
            let sbr = src / (t * osr);
            &&& 1 <= sbr
            &&& t <= implied_baud(src, osr, sbr)
            &&& 0 <= implied_baud(src, osr, sbr + 1) < t
        }),
{
    let d = t * osr;
    lemma_mul_strictly_positive(t, osr);
    let sbr = src / d;
    lemma_div_is_ordered(d, src, d);
    lemma_div_by_self(d);
    lemma_fundamental_div_mod(src, d);
    lemma_mod_division_less_than_divisor(src, d);
    assert(d * sbr <= src);
    lemma_mul_is_distributive_add(d, sbr, 1);
    assert(src < d * (sbr + 1));
    lemma_mul_is_associative(t, osr, sbr);
    lemma_mul_strictly_positive(osr, sbr);
    lemma_div_multiples_vanish(t, osr * sbr);
    lemma_mul_is_commutative(osr * sbr, t);
    lemma_div_is_ordered(t * (osr * sbr), src, osr * sbr);
    lemma_mul_is_associative(t, osr, sbr + 1);
    lemma_mul_strictly_positive(osr, sbr + 1);
    lemma_mul_is_commutative(osr * (sbr + 1), t);
    lemma_multiply_divide_lt(src, osr * (sbr + 1), t);
    lemma_div_pos_is_pos(src, osr * (sbr + 1));
}

/// When the source clock is slower than target times ratio, even a
/// divisor of one undershoots the target.
proof fn lemma_sbr_all_below(src: int, t: int, osr: int)
    requires
        0 <= src,
        1 <= t,
        1 <= osr,
        src < t * osr,
    ensures
        0 <= implied_baud(src, osr, 1) < t,
{
    lemma_mul_is_commutative(t, osr);
    lemma_multiply_divide_lt(src, osr, t);
    assert(osr * 1 == osr) by (nonlinear_arith);
    lemma_div_pos_is_pos(src, osr);
}

/// The best in-range sub-baud divisor for one oversampling ratio, with
/// its error.  The exact divisor `src / (target · osr)` is clamped into
/// the register field's range [1, 8191]; inside the range, the divisor
/// bracketing the target from above competes with its successor and the
/// smaller error wins (ties keep the overshooting divisor, as the
/// silicon vendor's reference search does).
fn best_sbr_for_osr(src: u32, target: u32, osr: u32) -> (r: (u32, u32))
    requires
        1 <= target,
        4 <= osr <= 32,
    ensures
        1 <= r.0 <= 8191,
        r.1 == baud_err(src as int, target as int, osr as int, r.0 as int),
        forall|s: int|
            1 <= s <= 8191 ==> baud_err(src as int, target as int, osr as int, s) >= r.1,
{
    let src_i = Ghost(src as int);
    let t_i = Ghost(target as int);
    let o_i = Ghost(osr as int);
    proof {
        assert((target as u64) * (osr as u64) < 0xFFFF_FFFF_FFFF_FFFF) by (nonlinear_arith)
            requires
                target <= 0xFFFF_FFFFu32,
                osr <= 32,
        ;
        lemma_mul_strictly_positive(t_i@, o_i@);
    }
    let denom: u64 = (target as u64) * (osr as u64);
    let sbr_raw: u64 = (src as u64) / denom;
    proof {
        lemma_fundamental_div_mod(src_i@, t_i@ * o_i@);
        lemma_mod_division_less_than_divisor(src_i@, t_i@ * o_i@);
    }
    if sbr_raw == 0 {
        // the clock is slower than target times ratio: every divisor
        // undershoots, and the smallest one comes closest
        let calc: u32 = src / osr;
        proof {
            assert(src_i@ < t_i@ * o_i@);
            lemma_sbr_all_below(src_i@, t_i@, o_i@);
            assert(o_i@ * 1 == o_i@) by (nonlinear_arith);
            assert forall|s: int| 1 <= s <= 8191 implies #[trigger] baud_err(
                src_i@,
                t_i@,
                o_i@,
                s,
            ) >= baud_err(src_i@, t_i@, o_i@, 1) by {
                lemma_err_below(src_i@, t_i@, o_i@, 1, s);
            }
        }
        (1, target - calc)
    } else if sbr_raw >= 8191 {
        // the exact divisor exceeds the 13-bit field: the cap still
        // reaches the target and is the best the field can hold
        proof {
            assert((t_i@ * o_i@) * sbr_raw as int <= src_i@);
            lemma_mul_left_inequality(t_i@ * o_i@, 8191, sbr_raw as int);
            lemma_mul_is_associative(t_i@, o_i@, 8191);
            lemma_mul_strictly_positive(o_i@, 8191);
            lemma_div_multiples_vanish(t_i@, o_i@ * 8191);
            lemma_mul_is_commutative(o_i@ * 8191, t_i@);
            lemma_div_is_ordered(t_i@ * (o_i@ * 8191), src_i@, o_i@ * 8191);
            assert(t_i@ <= implied_baud(src_i@, o_i@, 8191));
            assert forall|s: int| 1 <= s <= 8191 implies #[trigger] baud_err(
                src_i@,
                t_i@,
                o_i@,
                s,
            ) >= baud_err(src_i@, t_i@, o_i@, 8191) by {
                lemma_err_above(src_i@, t_i@, o_i@, 8191, s);
            }
        }
        let calc: u32 = src / (osr * 8191);
        (8191, calc - target)
    } else {
        // the exact divisor fits the field: it and its successor
        // bracket the target
        let sbr: u32 = sbr_raw as u32;
        proof {
            lemma_mul_left_inequality(t_i@ * o_i@, 1, sbr_raw as int);
            assert((t_i@ * o_i@) * 1 == t_i@ * o_i@) by (nonlinear_arith);
            assert(t_i@ * o_i@ <= src_i@);
            lemma_sbr_bracket(src_i@, t_i@, o_i@);
            assert(0 < o_i@ * (sbr as int) <= 32 * 8190) by (nonlinear_arith)
                requires
                    1 <= o_i@ <= 32,
                    1 <= sbr as int <= 8190,
            ;
            assert(0 < o_i@ * ((sbr as int) + 1) <= 32 * 8191) by (nonlinear_arith)
                requires
                    1 <= o_i@ <= 32,
                    1 <= sbr as int <= 8190,
            ;
        }
        let calc: u32 = src / (osr * sbr);
        let calc2: u32 = src / (osr * (sbr + 1));
        let diff: u32 = calc - target;
        let diff2: u32 = target - calc2;
        if diff2 < diff {
            proof {
                assert forall|s: int| 1 <= s <= 8191 implies #[trigger] baud_err(
                    src_i@,
                    t_i@,
                    o_i@,
                    s,
                ) >= diff2 by {
                    if s <= sbr as int {
                        lemma_err_above(src_i@, t_i@, o_i@, sbr as int, s);
                    } else {
                        lemma_err_below(src_i@, t_i@, o_i@, (sbr as int) + 1, s);
                    }
                }
            }
            (sbr + 1, diff2)
        } else {
            proof {
                assert forall|s: int| 1 <= s <= 8191 implies #[trigger] baud_err(
                    src_i@,
                    t_i@,
                    o_i@,
                    s,
                ) >= diff by {
                    if s <= sbr as int {
                        lemma_err_above(src_i@, t_i@, o_i@, sbr as int, s);
                    } else {
                        lemma_err_below(src_i@, t_i@, o_i@, (sbr as int) + 1, s);
                    }
                }
            }
            (sbr, diff)
        }
    }
}

/// Finds the divisor pair whose implied baud rate has the least absolute
/// error from the requested rate, searching every oversampling ratio of
/// the documented range.  Rates whose exact divisor falls outside the
/// 13-bit register field are served by the nearest in-range divisor, so
/// the search accepts any positive target rate and any source clock.
/// Ties keep the lowest oversampling ratio, and within one ratio the
/// divisor that overshoots.
///
/// Returns the oversampling ratio, the sub-baud divisor, and the error
/// in bits per second.
pub fn calculate_osr_sbr_from_baudrate(source_clock_hz: u32, target_baud_bps: u32) -> (r: (
    u8,
    u16,
    u32,
))
    requires
        1 <= target_baud_bps,
    ensures
        4 <= r.0 <= 32,
        1 <= r.1 <= 8191,
        r.2 == baud_err(source_clock_hz as int, target_baud_bps as int, r.0 as int, r.1 as int),
        forall|o: int, s: int|
            4 <= o <= 32 && 1 <= s <= 8191 ==> baud_err(
                source_clock_hz as int,
                target_baud_bps as int,
                o,
                s,
            ) >= r.2,
{
    let first = best_sbr_for_osr(source_clock_hz, target_baud_bps, 4);
    let mut best_osr: u32 = 4;
    let mut best_sbr: u32 = first.0;
    let mut best_diff: u32 = first.1;
    let mut osr: u32 = 5;
    while osr <= 32
        invariant
            1 <= target_baud_bps,
            5 <= osr <= 33,
            4 <= best_osr <= 32,
            1 <= best_sbr <= 8191,
            best_diff == baud_err(
                source_clock_hz as int,
                target_baud_bps as int,
                best_osr as int,
                best_sbr as int,
            ),
            forall|o: int, s: int|
                4 <= o < osr && 1 <= s <= 8191 ==> baud_err(
                    source_clock_hz as int,
                    target_baud_bps as int,
                    o,
                    s,
                ) >= best_diff,
        decreases 33 - osr,
    {
        let cand = best_sbr_for_osr(source_clock_hz, target_baud_bps, osr);
        if cand.1 < best_diff {
            best_osr = osr;
            best_sbr = cand.0;
            best_diff = cand.1;
        }
        osr = osr + 1;
    }
    (best_osr as u8, best_sbr as u16, best_diff)
}

/// Serial abstraction: an initialized LPUART session owning the register
/// block and the pins it was built from.
pub struct Serial<UART, PINS> {
    pub(crate) uart: UART,
    pub(crate) pins: PINS,
}

impl<UART, PINS> Serial<UART, PINS> {
    /// The owned register block image.
    pub closed spec fn uart_spec(&self) -> UART {
        self.uart
    }

    /// The owned pin tokens.
    pub closed spec fn pins_spec(&self) -> PINS {
        self.pins
    }
}

/// Clearing one enable bit of the control register leaves the other
/// enable bit as it was.
proof fn lemma_ctrl_disable_bits(c: u32)
    ensures
        (c & !LPUART_CTRL_TE) & LPUART_CTRL_RE == c & LPUART_CTRL_RE,
        (c & !LPUART_CTRL_RE) & LPUART_CTRL_TE == c & LPUART_CTRL_TE,
{
    assert(((c & !0x8_0000u32) & 0x4_0000 == c & 0x4_0000) && ((c & !0x4_0000u32) & 0x8_0000 == c
        & 0x8_0000)) by (bit_vector);
}

impl<PINS: Pins<LpuartRegs>> Serial<LpuartRegs, PINS> {
    /// Powers the peripheral on through its clock gate, resets it,
    /// programs the minimal-error baud divisor pair for the selected
    /// clock source, the bit order and the parity mode, and enables the
    /// transmitter and receiver.  Any positive baud rate is accepted:
    /// where the exact divisor falls outside the 13-bit register field,
    /// the nearest in-range divisor is programmed.
    ///
    /// Fails exactly as the clock gate does — `Absent` when the
    /// peripheral is not fabricated, `InUse` when another core owns it —
    /// whatever the configuration, since the clock-enable check precedes
    /// the divisor computation; it succeeds otherwise, leaving every
    /// register with the stated value.
    pub fn lpuart0(
        lpuart0: LpuartRegs,
        pins: PINS,
        config: Config,
        clocks: Clocks,
        source: Source,
        pcc_lpuart0: &mut ClockGate,
    ) -> (r: Result<Serial<LpuartRegs, PINS>, EnableError>)
        requires
            pins.pins_valid(),
            1 <= config.baudrate,
        ensures
            !old(pcc_lpuart0).present_spec() ==> r is Err && r->Err_0 == EnableError::Absent
                && *final(pcc_lpuart0) == *old(pcc_lpuart0),
            old(pcc_lpuart0).present_spec() && old(pcc_lpuart0).in_use_spec() ==> r is Err
                && r->Err_0 == EnableError::InUse && *final(pcc_lpuart0) == *old(pcc_lpuart0),
            old(pcc_lpuart0).present_spec() && !old(pcc_lpuart0).in_use_spec() ==> {
                &&& r is Ok
                &&& final(pcc_lpuart0).reg_spec() == pcc_write_cgc(
                    old(pcc_lpuart0).reg_spec(),
                    true,
                )
                &&& ({
                    let s = r->Ok_0;
                    let b = s.uart_spec().baud;
                    &&& s.pins_spec() == pins
                    &&& s.uart_spec().global == 0u32
                    &&& s.uart_spec().stat == stat_reg_value(config.order)
                    &&& s.uart_spec().ctrl == ctrl_reg_value(config.parity)
                    &&& 4 <= osr_of_baud(b) <= 32
                    &&& 1 <= sbr_of_baud(b) <= 8191
                    &&& b == baud_reg_value(
                        osr_of_baud(b),
                        sbr_of_baud(b),
                        osr_of_baud(b) <= 7,
                        config.stopbits == StopBits::STOP2,
                    )
                    &&& forall|o: int, s2: int|
                        4 <= o <= 32 && 1 <= s2 <= 8191 ==> baud_err(
                            clocks.spec_of_source(source) as int,
                            config.baudrate as int,
                            osr_of_baud(b) as int,
                            sbr_of_baud(b) as int,
                        ) <= #[trigger] baud_err(
                            clocks.spec_of_source(source) as int,
                            config.baudrate as int,
                            o,
                            s2,
                        )
                })
            },
    {
        // peripheral power on: enable the peripheral clock
        match pcc_lpuart0.try_enable() {
            Err(e) => {
                return Err(e);
            },
            Ok(()) => {},
        }
        let mut uart = lpuart0;
        // reset device: pulse the software reset bit
        uart.global = LPUART_GLOBAL_RST;
        uart.global = 0;
        // baud register: best divisor pair for the requested rate
        let source_clock = clocks.of_source(source);
        let found = calculate_osr_sbr_from_baudrate(source_clock, config.baudrate);
        let osr: u32 = found.0 as u32;
        let sbr: u32 = found.1 as u32;
        let both_edge = osr >= 4 && osr <= 7;
        let stop_bits = match config.stopbits {
            StopBits::STOP1 => false,
            StopBits::STOP2 => true,
        };
        uart.baud = ((osr - 1) << 24) | sbr | (if both_edge {
            LPUART_BAUD_BOTHEDGE
        } else {
            0
        }) | (if stop_bits {
            LPUART_BAUD_SBNS
        } else {
            0
        });
        proof {
            lemma_baud_reg_fields(osr, sbr, both_edge, stop_bits);
        }
        // status register: bit order
        uart.stat = match config.order {
            Order::LsbFirst => 0,
            Order::MsbFirst => LPUART_STAT_MSBF,
        };
        // control register: enables and parity
        uart.ctrl = match config.parity {
            Parity::ParityNone => LPUART_CTRL_TE | LPUART_CTRL_RE,
            Parity::ParityEven => LPUART_CTRL_TE | LPUART_CTRL_RE | LPUART_CTRL_PE
                | LPUART_CTRL_M,
            Parity::ParityOdd => LPUART_CTRL_TE | LPUART_CTRL_RE | LPUART_CTRL_PE
                | LPUART_CTRL_PT | LPUART_CTRL_M,
        };
        Ok(Serial { uart, pins })
    }

    /// Closes the peripheral — transmitter and receiver disabled by a
    /// read-modify-write of their enable bits — releases its clock gate,
    /// and returns the register block and the pins.
    pub fn release(self, pcc_lpuart: &mut ClockGate) -> (r: (LpuartRegs, PINS))
        ensures
            r.0.ctrl == self.uart_spec().ctrl & !(LPUART_CTRL_TE | LPUART_CTRL_RE),
            r.0.baud == self.uart_spec().baud,
            r.0.stat == self.uart_spec().stat,
            r.0.global == self.uart_spec().global,
            r.1 == self.pins_spec(),
            final(pcc_lpuart).reg_spec() == pcc_write_cgc(old(pcc_lpuart).reg_spec(), false),
            !final(pcc_lpuart).enabled_spec(),
    {
        let Serial { mut uart, pins } = self;
        // close the peripheral
        uart.ctrl = uart.ctrl & !(LPUART_CTRL_TE | LPUART_CTRL_RE);
        // disable the clock
        pcc_lpuart.disable();
        // return ownership of peripherals
        (uart, pins)
    }

    /// Splits the session into its transmit and receive halves.  The
    /// transmit half carries the register block; the pins stay bound to
    /// the session type and are recovered only through the halves'
    /// release path.
    pub fn split(self) -> (r: (Transmit<LpuartRegs, PINS>, Receive<LpuartRegs, PINS>))
        ensures
            r.0.uart_spec() == self.uart_spec(),
    {
        let Serial { uart, pins } = self;
        let _ = pins;
        (Transmit { uart, pins: PhantomData }, Receive { uart: PhantomData, pins: PhantomData })
    }
}

/// Transmit half of serial port.  It owns the register block; the
/// receive half carries only the permission to use the receiver.
pub struct Transmit<UART, PINS> {
    pub(crate) uart: UART,
    pub(crate) pins: PhantomData<PINS>,
}

impl<UART, PINS> Transmit<UART, PINS> {
    /// The owned register block image.
    pub closed spec fn uart_spec(&self) -> UART {
        self.uart
    }
}

impl<PINS> Transmit<LpuartRegs, PINS> {
    /// Disables the transmitter by a read-modify-write of its enable
    /// bit; when the receiver is already disabled, also releases the
    /// peripheral clock.  Returns the register block.
    pub fn release(self, pcc_lpuart: &mut ClockGate) -> (r: LpuartRegs)
        ensures
            r.ctrl == self.uart_spec().ctrl & !LPUART_CTRL_TE,
            r.baud == self.uart_spec().baud,
            r.stat == self.uart_spec().stat,
            r.global == self.uart_spec().global,
            self.uart_spec().ctrl & LPUART_CTRL_RE == 0 ==> final(pcc_lpuart).reg_spec()
                == pcc_write_cgc(old(pcc_lpuart).reg_spec(), false),
            self.uart_spec().ctrl & LPUART_CTRL_RE != 0 ==> *final(pcc_lpuart) == *old(
                pcc_lpuart,
            ),
    {
        proof {
            lemma_ctrl_disable_bits(self.uart_spec().ctrl);
        }
        let Transmit { mut uart, pins } = self;
        let _ = pins;
        uart.ctrl = uart.ctrl & !LPUART_CTRL_TE;
        if uart.ctrl & LPUART_CTRL_RE == 0 {
            pcc_lpuart.disable();
        }
        uart
    }
}

/// Receive half of serial port.
pub struct Receive<UART, PINS> {
    pub(crate) uart: PhantomData<UART>,
    pub(crate) pins: PhantomData<PINS>,
}

impl<PINS> Receive<LpuartRegs, PINS> {
    /// Disables the receiver by a read-modify-write of its enable bit;
    /// when the transmitter is already disabled, also releases the
    /// peripheral clock.
    pub fn release(self, uart: &mut LpuartRegs, pcc_lpuart: &mut ClockGate)
        ensures
            final(uart).ctrl == old(uart).ctrl & !LPUART_CTRL_RE,
            final(uart).baud == old(uart).baud,
            final(uart).stat == old(uart).stat,
            final(uart).global == old(uart).global,
            old(uart).ctrl & LPUART_CTRL_TE == 0 ==> final(pcc_lpuart).reg_spec()
                == pcc_write_cgc(old(pcc_lpuart).reg_spec(), false),
            old(uart).ctrl & LPUART_CTRL_TE != 0 ==> *final(pcc_lpuart) == *old(pcc_lpuart),
    {
        proof {
            lemma_ctrl_disable_bits(old(uart).ctrl);
        }
        uart.ctrl = uart.ctrl & !LPUART_CTRL_RE;
        if uart.ctrl & LPUART_CTRL_TE == 0 {
            pcc_lpuart.disable();
        }
    }
}

/// Serial error.
#[derive(Debug)]
#[non_exhaustive]
pub enum Error {
    /// Framing error
    Framing,
    /// Noise error
    Noise,
    /// RX buffer overrun
    Overrun,
    /// Parity check error
    Parity,
}

/// Parity check configuration.
#[derive(Debug, Copy, Clone, Eq, PartialEq, Structural)]
pub enum Parity {
    ParityNone,
    ParityEven,
    ParityOdd,
}

/// Stop bit configuration.
#[derive(Debug, Copy, Clone, Eq, PartialEq, Structural)]
pub enum StopBits {
    /// 1 stop bit
    STOP1,
    /// 2 stop bits
    STOP2,
}

/// Order of the bits that are transmitted and received on the wire.
#[derive(Debug, Copy, Clone, Eq, PartialEq, Structural)]
pub enum Order {
    /// LSB (bit 0) is the first bit that is transmitted following the start bit
    LsbFirst,
    /// MSB is the first bit that is transmitted following the start bit
    MsbFirst,
}

/// Serial config.
#[derive(Debug, Copy, Clone, Eq, PartialEq, Structural)]
pub struct Config {
    /// Baud rate, in bits per second.
    pub baudrate: u32,
    pub parity: Parity,
    pub stopbits: StopBits,
    pub order: Order,
}

impl Default for Config {
    /// The documented default: 115200 baud, no parity, one stop bit,
    /// least-significant bit first.
    fn default() -> (r: Config)
        ensures
            r == (Config {
                baudrate: 115_200u32,
                parity: Parity::ParityNone,
                stopbits: StopBits::STOP1,
                order: Order::LsbFirst,
            }),
    {
        Config {
            baudrate: 115_200,
            parity: Parity::ParityNone,
            stopbits: StopBits::STOP1,
            order: Order::LsbFirst,
        }
    }
}

/// Serial transmit pins - DO NOT IMPLEMENT THIS TRAIT
pub trait TxPin<UART> {
    /// Whether this token names a pad that routes the transmit signal of
    /// the peripheral.
    spec fn tx_valid(&self) -> bool;
}

/// Serial receive pins - DO NOT IMPLEMENT THIS TRAIT
pub trait RxPin<UART> {
    /// Whether this token names a pad that routes the receive signal of
    /// the peripheral.
    spec fn rx_valid(&self) -> bool;
}

/// Serial rts pins - DO NOT IMPLEMENT THIS TRAIT
pub trait RtsPin<UART> {
    /// Whether this token names a pad that routes the request-to-send
    /// signal of the peripheral.
    spec fn rts_valid(&self) -> bool;
}

/// Serial cts pins - DO NOT IMPLEMENT THIS TRAIT
pub trait CtsPin<UART> {
    /// Whether this token names a pad that routes the clear-to-send
    /// signal of the peripheral.
    spec fn cts_valid(&self) -> bool;
}

impl TxPin<LpuartRegs> for Pin<ALT2, Unlocked> {
    open spec fn tx_valid(&self) -> bool {
        self.wf() && self.bank_spec() == 0 && self.idx_spec() == 3
    }
}

impl RxPin<LpuartRegs> for Pin<ALT2, Unlocked> {
    open spec fn rx_valid(&self) -> bool {
        self.wf() && self.bank_spec() == 0 && self.idx_spec() == 2
    }
}

impl RtsPin<LpuartRegs> for Pin<ALT2, Unlocked> {
    open spec fn rts_valid(&self) -> bool {
        self.wf() && self.bank_spec() == 0 && self.idx_spec() == 4
    }
}

impl CtsPin<LpuartRegs> for Pin<ALT2, Unlocked> {
    open spec fn cts_valid(&self) -> bool {
        self.wf() && self.bank_spec() == 0 && self.idx_spec() == 1
    }
}

impl TxPin<LpuartRegs> for Pin<ALT3, Unlocked> {
    open spec fn tx_valid(&self) -> bool {
        self.wf() && ((self.bank_spec() == 1 && self.idx_spec() == 26) || (self.bank_spec() == 2
            && self.idx_spec() == 8))
    }
}

impl RxPin<LpuartRegs> for Pin<ALT3, Unlocked> {
    open spec fn rx_valid(&self) -> bool {
        self.wf() && ((self.bank_spec() == 1 && self.idx_spec() == 25) || (self.bank_spec() == 2
            && self.idx_spec() == 7))
    }
}

impl RtsPin<LpuartRegs> for Pin<ALT3, Unlocked> {
    open spec fn rts_valid(&self) -> bool {
        self.wf() && ((self.bank_spec() == 1 && self.idx_spec() == 24) || (self.bank_spec() == 2
            && self.idx_spec() == 10))
    }
}

impl CtsPin<LpuartRegs> for Pin<ALT3, Unlocked> {
    open spec fn cts_valid(&self) -> bool {
        self.wf() && ((self.bank_spec() == 1 && self.idx_spec() == 22) || (self.bank_spec() == 2
            && self.idx_spec() == 9))
    }
}

/// Serial pins - DO NOT IMPLEMENT THIS TRAIT
pub trait Pins<UART> {
    /// Whether every token of the bundle carries its required signal
    /// role.
    spec fn pins_valid(&self) -> bool;
}

impl<UART, TX: TxPin<UART>, RX: RxPin<UART>> Pins<UART> for (TX, RX) {
    open spec fn pins_valid(&self) -> bool {
        self.0.tx_valid() && self.1.rx_valid()
    }
}

impl<UART, TX: TxPin<UART>, RX: RxPin<UART>, RTS: RtsPin<UART>, CTS: CtsPin<UART>> Pins<
    UART,
> for (TX, RX, RTS, CTS) {
    open spec fn pins_valid(&self) -> bool {
        self.0.tx_valid() && self.1.rx_valid() && self.2.rts_valid() && self.3.cts_valid()
    }
}

} // verus!
