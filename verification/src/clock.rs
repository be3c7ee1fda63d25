//! Clock-divider and timeout arithmetic.
//!
//! The controller divides a fixed source clock twice: a host divider feeds
//! the card-interface unit and a per-slot card divider (which divides by
//! twice its value, with zero meaning "no division") feeds the card. For a
//! requested bus frequency this module picks the divider pair, computes the
//! frequency a pair actually achieves, and derives the data-timeout cycle
//! count from the achieved frequency.

use vstd::arithmetic::div_mod::lemma_div_denominator;
use vstd::arithmetic::div_mod::lemma_fundamental_div_mod;
use vstd::prelude::*;

verus! {

/// The controller's fixed source clock, in Hz.
pub const APB_CLK_FREQ: u32 = 80000000;

/// The largest host divider the hardware can represent.
pub const MAX_HOST_DIV: u32 = 15;

/// Fixed data timeout, in milliseconds, programmed after a clock change.
pub const DATA_TIMEOUT_MS: u32 = 100;

/// Largest value of the data-timeout register.
pub const DATA_TIMEOUT_MAX_CYCLES: u32 = 0xffffff;

/// Largest value of the response-timeout register.
pub const RESPONSE_TIMEOUT_MAX_CYCLES: u8 = 255;

/// The lowest supported frequency request, in kHz: below it the computed
/// card divider would no longer fit its 8-bit register field.
pub const MIN_FREQ_KHZ: u32 = 157;

/// Whether a requested frequency, in kHz, is one the divider hardware can
/// approximate.
pub open spec fn supported_freq(freq_khz: u32) -> bool {
    freq_khz >= MIN_FREQ_KHZ
}

/// The divider pair chosen for a requested frequency, at the specification
/// level. Three bands get hand-picked pairs: at or above 40 MHz the pair
/// 4/0, exactly 20 MHz the pair 8/0, exactly 400 kHz the pair 10/20. All
/// other frequencies divide the source clock by the target, rounding the
/// host divider up when it would otherwise undershoot, and falling back to
/// a host divider of 2 with a computed card divider when the naive host
/// divider would not be representable.
pub open spec fn clk_divs_spec(freq_khz: u32) -> (u8, u8)
    recommends
        supported_freq(freq_khz),
{
    if freq_khz >= 40000 {
        (4u8, 0u8)
    } else if freq_khz == 20000 {
        (8u8, 0u8)
    } else if freq_khz == 400 {
        (10u8, 20u8)
    } else {
        let host_div0 = (2 * APB_CLK_FREQ) as int / (freq_khz as int * 1000);
        if host_div0 > MAX_HOST_DIV as int {
            let card_div0 = APB_CLK_FREQ as int / (2 * freq_khz as int * 1000);
            let card_div = if APB_CLK_FREQ as int % (2 * freq_khz as int * 1000) > 0 {
                card_div0 + 1
            } else {
                card_div0
            };
            (2u8, card_div as u8)
        } else {
            let host_div = if (2 * APB_CLK_FREQ) as int % (freq_khz as int * 1000) > 0 {
                host_div0 + 1
            } else {
                host_div0
            };
            (host_div as u8, 0u8)
        }
    }
}

/// The frequency, in kHz, that a divider pair achieves: the source clock
/// doubled, divided by the host divider and by twice the card divider
/// (a card divider of zero divides by one).
pub open spec fn calc_freq_spec(host_div: u8, card_div: u8) -> int
    recommends
        host_div > 0,
{
    2 * APB_CLK_FREQ as int / host_div as int / (if card_div == 0 {
        1int
    } else {
        card_div as int * 2
    }) / 1000
}

/// Pick the divider pair for a requested frequency in kHz.
pub fn get_clk_divs(freq_khz: u32) -> (r: (u8, u8))
    requires
        supported_freq(freq_khz),
    ensures
        r == clk_divs_spec(freq_khz),
        r.0 > 0,
        calc_freq_spec(r.0, r.1) <= freq_khz,
{
    proof {
        lemma_clk_divs_round_trip(freq_khz);
    }
    if freq_khz >= 40000 {
        (4, 0)
    } else if freq_khz == 20000 {
        (8, 0)
    } else if freq_khz == 400 {
        (10, 20)
    } else {
        let mut host_div: u32 = (2 * APB_CLK_FREQ) / (freq_khz * 1000);
        let mut card_div: u32 = 0;
        if host_div > MAX_HOST_DIV {
            host_div = 2;
            card_div = APB_CLK_FREQ / (2 * freq_khz * 1000);
            if (APB_CLK_FREQ % (2 * freq_khz * 1000)) > 0 {
                card_div = card_div + 1;
            }
            proof {
                lemma_card_div_fits(freq_khz);
            }
        } else if ((2 * APB_CLK_FREQ) % (freq_khz * 1000)) > 0 {
            host_div = host_div + 1;
        }
        (host_div as u8, card_div as u8)
    }
}

/// The frequency, in kHz, that a divider pair achieves.
pub fn calc_freq(host_div: u8, card_div: u8) -> (r: u32)
    requires
        host_div > 0,
    ensures
        r == calc_freq_spec(host_div, card_div),
{
    let host_div32: u32 = host_div as u32;
    let card_div32: u32 = card_div as u32;
    2 * APB_CLK_FREQ / host_div32 / (if card_div32 == 0 {
        1
    } else {
        card_div32 * 2
    }) / 1000
}

/// The data-timeout register value for an achieved frequency in kHz: the
/// fixed timeout times the frequency, clamped to the register's width.
pub fn data_timeout_cycles(freq_khz: u32) -> (r: u32)
    ensures
        r == (if DATA_TIMEOUT_MS * freq_khz as int <= DATA_TIMEOUT_MAX_CYCLES {
            DATA_TIMEOUT_MS * freq_khz as int
        } else {
            DATA_TIMEOUT_MAX_CYCLES as int
        }),
{
    let cycles: u64 = (DATA_TIMEOUT_MS as u64) * (freq_khz as u64);
    if cycles <= DATA_TIMEOUT_MAX_CYCLES as u64 {
        cycles as u32
    } else {
        DATA_TIMEOUT_MAX_CYCLES
    }
}

/// The edge-select parameters programmed for a host divider: the high and
/// count edges at `div - 1`, the low edge at half the divider less one.
/// Dividers outside 2..=16 are not representable.
pub fn clk_edge_params(div: u8) -> (r: (u8, u8))
    requires
        2 <= div <= 16,
    ensures
        r.0 == div - 1,
        r.1 == div / 2 - 1,
{
    (div - 1, div / 2 - 1)
}

/// Per-slot persisted clock state: whether the slot's clock was ever
/// programmed, and the divider pair and achieved frequency it runs at.
/// Used to avoid reprogramming the shared divider when the active slot is
/// unchanged between commands.
#[derive(Debug, Clone, Copy, PartialEq, Eq, Structural)]
pub struct SlotContext {
    pub configured: bool,
    pub host_div: u8,
    pub card_div: u8,
    pub freq_khz: u32,
}

impl SlotContext {
    /// State of a slot whose clock was never programmed.
    pub fn unconfigured() -> (r: SlotContext)
        ensures
            !r.configured && r.host_div == 0 && r.card_div == 0 && r.freq_khz == 0,
    {
        SlotContext { configured: false, host_div: 0, card_div: 0, freq_khz: 0 }
    }
}

/// Whether a submission must reprogram the shared clock divider and data
/// timeout: only when it addresses a slot other than the active one and
/// that slot's clock was configured before.
pub fn clock_reprogram_needed(active: crate::Slot, target: crate::Slot, target_ctx: &SlotContext) -> (r:
    bool)
    ensures
        r == (active != target && target_ctx.configured),
{
    active != target && target_ctx.configured
}

/// The clock-source register value that routes a slot to its divider:
/// the first slot's source field (bits 1:0) is cleared, the second slot's
/// source field (bits 3:2) is set to its divider.
pub fn clksrc_bits(cur: u8, slot: crate::Slot) -> (r: u8)
    ensures
        slot is Slot0 ==> r == cur & 0x0C,
        slot is Slot1 ==> r == (cur & 0x03) | 0x04,
{
    match slot {
        crate::Slot::Slot0 => cur & 0x0C,
        crate::Slot::Slot1 => (cur & 0x03) | 0x04,
    }
}

/// In the computed band the card divider fits its 8-bit register field.
proof fn lemma_card_div_fits(f: u32)
    requires
        supported_freq(f),
        f < 40000,
    ensures
        APB_CLK_FREQ as int / (2 * f as int * 1000) + 1 <= 255,
{
    let b = 2 * f as int * 1000;
    assert(b >= 314000);
    assert(APB_CLK_FREQ as int / b <= 254) by (nonlinear_arith)
        requires
            b >= 314000,
    ;
}


/// Round-trip law, downward half: the chosen divider pair never exceeds the
/// request. For every supported frequency, feeding the pair back through
/// the achieved-frequency function yields at most the requested value; the
/// two exact bands (20 MHz and 400 kHz) are hit exactly.
pub proof fn lemma_clk_divs_round_trip(f: u32)
    requires
        supported_freq(f),
    ensures
        ({
            let (h, c) = clk_divs_spec(f);
            h > 0 && calc_freq_spec(h, c) <= f
        }),
        f == 20000 ==> calc_freq_spec(clk_divs_spec(f).0, clk_divs_spec(f).1) == 20000,
        f == 400 ==> calc_freq_spec(clk_divs_spec(f).0, clk_divs_spec(f).1) == 400,
{
    let a = 2 * APB_CLK_FREQ as int;
    if f >= 40000 {
        assert(calc_freq_spec(4, 0) == 40000);
    } else if f == 20000 {
        assert(calc_freq_spec(8, 0) == 20000);
    } else if f == 400 {
        assert(calc_freq_spec(10, 20) == 400) by {
            let x = 2 * APB_CLK_FREQ as int / 10;
            assert(x == 16000000);
            assert(x / 40 == 400000);
            assert(x / 40 / 1000 == 400);
        }
    } else {
        let b = f as int * 1000;
        let q = a / b;
        let r = a % b;
        lemma_fundamental_div_mod(a, b);
        if q > 15 {
            let b2 = 2 * b;
            let apb = APB_CLK_FREQ as int;
            let cq = apb / b2;
            let cr = apb % b2;
            lemma_fundamental_div_mod(apb, b2);
            let c = if cr > 0 { cq + 1 } else { cq };
            assert(c * b2 >= apb) by (nonlinear_arith)
                requires
                    apb == b2 * cq + cr,
                    0 <= cr < b2,
                    c == (if cr > 0 { cq + 1 } else { cq }),
            ;
            lemma_card_div_fits(f);
            assert(cq >= 1) by (nonlinear_arith)
                requires
                    apb == b2 * cq + cr,
                    0 <= cr < b2,
                    apb == 80000000,
                    0 < b2 <= 79998000,
            ;
            assert(b2 == 2 * f as int * 1000);
            assert(1 <= c <= 255);
            assert((c as u8) as int == c);
            // calc_freq_spec(2, c) == apb / (c * 2) / 1000 == apb / (c * 2000)
            assert(a / 2 == apb);
            lemma_div_denominator(apb, c * 2, 1000);
            assert(calc_freq_spec(2, (c as u8)) == apb / (c * 2 * 1000));
            assert(c * 2 * 1000 * f >= apb) by (nonlinear_arith)
                requires
                    c * b2 >= apb,
                    b2 == 2 * (f as int * 1000),
            ;
            lemma_div_le_factor(apb, c * 2 * 1000, f as int);
        } else {
            let h = if r > 0 { q + 1 } else { q };
            assert(h * b >= a) by (nonlinear_arith)
                requires
                    a == b * q + r,
                    0 <= r < b,
                    h == (if r > 0 { q + 1 } else { q }),
            ;
            assert(q >= 1) by (nonlinear_arith)
                requires
                    a == b * q + r,
                    0 <= r < b,
                    b <= 39999000,
                    a == 160000000,
            ;
            assert(1 <= h <= 16);
            assert((h as u8) as int == h);
            // calc_freq_spec(h, 0) == a / h / 1 / 1000 == a / (h * 1000)
            lemma_div_denominator(a, h, 1);
            lemma_div_denominator(a, h, 1000);
            assert(calc_freq_spec(h as u8, 0) == a / (h * 1000));
            assert(h * 1000 * f >= a) by (nonlinear_arith)
                requires
                    h * b >= a,
                    b == f as int * 1000,
            ;
            lemma_div_le_factor(a, h * 1000, f as int);
        }
    }
}

/// Round-trip law, tightness half: in the computed band the chosen pair is
/// within one divider step of optimal. Shrinking the divider that was
/// computed by one step yields a frequency at or above the request, so no
/// strictly better pair was skipped. The three hand-picked bands are
/// excluded: 20 MHz and 400 kHz are met exactly, and requests at or above
/// 40 MHz are pinned to 40 MHz by policy.
pub proof fn lemma_clk_divs_tight(f: u32)
    requires
        supported_freq(f),
        f < 40000,
        f != 20000,
        f != 400,
    ensures
        ({
            let (h, c) = clk_divs_spec(f);
            if c == 0 {
                calc_freq_spec((h - 1) as u8, 0) >= f
            } else {
                calc_freq_spec(h, (c - 1) as u8) >= f
            }
        }),
{
    let a = 2 * APB_CLK_FREQ as int;
    let b = f as int * 1000;
    let q = a / b;
    let r = a % b;
    lemma_fundamental_div_mod(a, b);
    if q > 15 {
        let b2 = 2 * b;
        let apb = APB_CLK_FREQ as int;
        let cq = apb / b2;
        let cr = apb % b2;
        lemma_fundamental_div_mod(apb, b2);
        let c = if cr > 0 { cq + 1 } else { cq };
        assert((c - 1) * b2 < apb) by (nonlinear_arith)
            requires
                apb == b2 * cq + cr,
                0 <= cr < b2,
                c == (if cr > 0 { cq + 1 } else { cq }),
                b2 > 0,
        ;
        // q > 15 forces the request low enough that the card divider is
        // at least 4
        assert(b2 <= 20000000) by (nonlinear_arith)
            requires
                a == b * q + r,
                0 <= r < b,
                q > 15,
                a == 160000000,
                b2 == 2 * b,
                b > 0,
        ;
        assert(cq >= 4) by (nonlinear_arith)
            requires
                apb == b2 * cq + cr,
                0 <= cr < b2,
                b2 <= 20000000,
                apb == 80000000,
        ;
        lemma_card_div_fits(f);
        assert(2 <= c <= 255);
        let c1 = c - 1;
        assert((c1 as u8) as int == c1);
        assert(((c as u8) - 1) as u8 == c1 as u8);
        assert(a / 2 == apb);
        lemma_div_denominator(apb, c1 * 2, 1000);
        assert(calc_freq_spec(2, (c1 as u8)) == apb / (c1 * 2 * 1000));
        assert(apb >= c1 * 2 * 1000 * f) by (nonlinear_arith)
            requires
                c1 * b2 < apb,
                b2 == 2 * (f as int * 1000),
        ;
        lemma_div_ge_factor(apb, c1 * 2 * 1000, f as int);
        assert(clk_divs_spec(f) == (2u8, c as u8));
    } else {
        let h = if r > 0 { q + 1 } else { q };
        assert((h - 1) * b < a) by (nonlinear_arith)
            requires
                a == b * q + r,
                0 <= r < b,
                h == (if r > 0 { q + 1 } else { q }),
                b > 0,
        ;
        assert(q >= 4) by (nonlinear_arith)
            requires
                a == b * q + r,
                0 <= r < b,
                b <= 39999000,
                a == 160000000,
        ;
        assert(4 <= h <= 16);
        let h1 = h - 1;
        assert((h1 as u8) as int == h1);
        assert(((h as u8) - 1) as u8 == h1 as u8);
        lemma_div_denominator(a, h1, 1);
        lemma_div_denominator(a, h1, 1000);
        assert(calc_freq_spec(h1 as u8, 0) == a / (h1 * 1000));
        assert(a >= h1 * 1000 * f) by (nonlinear_arith)
            requires
                h1 * b < a,
                b == f as int * 1000,
        ;
        lemma_div_ge_factor(a, h1 * 1000, f as int);
    }
}

/// If the dividend is at most `f` times the divisor, the quotient is at
/// most `f`.
proof fn lemma_div_le_factor(a: int, d: int, f: int)
    requires
        d > 0,
        a >= 0,
        a <= d * f,
    ensures
        a / d <= f,
{
    assert(a / d <= f) by (nonlinear_arith)
        requires
            d > 0,
            a >= 0,
            a <= d * f,
    ;
}

/// If the dividend is at least `f` times the divisor, the quotient is at
/// least `f`.
proof fn lemma_div_ge_factor(a: int, d: int, f: int)
    requires
        d > 0,
        a >= d * f,
    ensures
        a / d >= f,
{
    assert(a / d >= f) by (nonlinear_arith)
        requires
            d > 0,
            a >= d * f,
    ;
}

} // verus!
