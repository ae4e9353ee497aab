//! The waveforms that the analog output renders, as 12-bit DAC codes, and the
//! packing of a code into the DAC's two register bytes.
use vstd::arithmetic::div_mod::{lemma_div_pos_is_pos, lemma_fundamental_div_mod_converse};
use vstd::prelude::*;

verus! {

/// The highest code of the 12-bit DAC: full output voltage.
pub const DAC_MAX: u16 = 4095;

/// `n / d` rounded to the nearest integer, halves away from zero.
pub open spec fn round_half_away(n: int, d: int) -> int
    recommends
        d > 0,
{
    if n >= 0 {
        (2 * n + d) / (2 * d)
    } else {
        -((d - 2 * n) / (2 * d))
    }
}

/// The DAC code for the amplitude `n / d`: rounded, then clamped into `u16`
/// (a negative amplitude gives code 0).
pub open spec fn dac_code(n: int, d: int) -> u16
    recommends
        d > 0,
{
    let r = round_half_away(n, d);
    if r < 0 {
        0
    } else if r > u16::MAX {
        u16::MAX
    } else {
        r as u16
    }
}

/// Square wave: full scale during the first half of the period, zero after.
pub open spec fn rectangle_spec(x: int, t: int) -> u16 {
    if 2 * x < t {
        DAC_MAX
    } else {
        0
    }
}

/// `t` times the triangle amplitude `(4095 / pi) * asin(sin(2 pi x / t)) + 2047`.
/// `asin(sin(.))` folds the phase into `[-pi/2, pi/2]`, so the amplitude rises
/// with slope `8190 / t` to the quarter period, falls back through the
/// midpoint to the three-quarter period, and rises again to the end.
pub open spec fn triangle_scaled(x: int, t: int) -> int {
    if 4 * x <= t {
        8190 * x + 2047 * t
    } else if 4 * x <= 3 * t {
        6142 * t - 8190 * x
    } else {
        8190 * x - 6143 * t
    }
}

/// Triangle wave centred at 2047, as a DAC code.
pub open spec fn triangle_spec(x: int, t: int) -> u16 {
    dac_code(triangle_scaled(x, t), t)
}

/// `t` times the saw amplitude: `4095 x / t + 2047` before the half period,
/// `4095 x / t - 2047` from it on.
pub open spec fn saw_scaled(x: int, t: int) -> int {
    if 2 * x < t {
        4095 * x + 2047 * t
    } else {
        4095 * x - 2047 * t
    }
}

/// Saw wave: ramps up from 2047, jumps to the bottom at the half period and
/// ramps up again, as a DAC code.
pub open spec fn saw_spec(x: int, t: int) -> u16 {
    dac_code(saw_scaled(x, t), t)
}

/// The DAC code of the amplitude `n / d`.
fn quantize(n: i128, d: u64) -> (r: u16)
    requires
        d > 0,
        n <= 16384 * d,
    ensures
        r == dac_code(n as int, d as int),
{
    if n >= 0 {
        let q: u128 = (2 * (n as u128) + d as u128) / (2 * (d as u128));
        if q > 65535 {
            65535
        } else {
            q as u16
        }
    } else {
        proof {
            lemma_div_pos_is_pos(d - 2 * n, 2 * d);
        }
        0
    }
}

/// Square wave sample at `x` microseconds into a period of `t` microseconds.
pub fn rectangle_wave(x: u64, t: u64) -> (r: u16)
    requires
        0 < t,
        x <= t,
    ensures
        r == rectangle_spec(x as int, t as int),
{
    if (x as u128) * 2 < t as u128 {
        DAC_MAX
    } else {
        0
    }
}

/// Triangle wave sample at `x` microseconds into a period of `t` microseconds.
pub fn triangle_wave(x: u64, t: u64) -> (r: u16)
    requires
        0 < t,
        x <= t,
    ensures
        r == triangle_spec(x as int, t as int),
{
    let xi = x as i128;
    let ti = t as i128;
    let n: i128 = if 4 * xi <= ti {
        8190 * xi + 2047 * ti
    } else if 4 * xi <= 3 * ti {
        6142 * ti - 8190 * xi
    } else {
        8190 * xi - 6143 * ti
    };
    quantize(n, t)
}

/// Saw wave sample at `x` microseconds into a period of `t` microseconds.
pub fn saw_wave(x: u64, t: u64) -> (r: u16)
    requires
        0 < t,
        x <= t,
    ensures
        r == saw_spec(x as int, t as int),
{
    let xi = x as i128;
    let ti = t as i128;
    let n: i128 = if 2 * xi < ti {
        4095 * xi + 2047 * ti
    } else {
        4095 * xi - 2047 * ti
    };
    quantize(n, t)
}

/// The two register bytes that carry a 12-bit DAC code: the upper eight bits
/// of the code, then its lower four bits in the high nibble.
pub open spec fn regdata_of(code: u16) -> (u8, u8) {
    (((code as int / 16) % 256) as u8, ((code as int % 16) * 16) as u8)
}

/// Packs a DAC code into the register payload `[(code >> 4) & 0xFF, (code << 4) & 0xFF]`.
pub fn dec_to_regdata(code: u16) -> (r: [u8; 2])
    ensures
        (r[0], r[1]) == regdata_of(code),
{
    let hi: u16 = (code >> 4) & 0xFF;
    let lo: u16 = (code << 4) & 0xFF;
    assert(hi == (code / 16) % 256 && lo == (code % 16) * 16) by (bit_vector)
        requires
            hi == (code >> 4) & 0xFF,
            lo == (code << 4) & 0xFF,
    ;
    [hi as u8, lo as u8]
}

/// A non-negative amplitude `n / d` with `q * 2d <= 2n + d < (q + 1) * 2d`
/// rounds to `q`.
proof fn lemma_round_to(n: int, d: int, q: int)
    requires
        d > 0,
        n >= 0,
        0 <= q <= u16::MAX,
        q * (2 * d) <= 2 * n + d < (q + 1) * (2 * d),
    ensures
        dac_code(n, d) == q,
{
    assert((q + 1) * (2 * d) == q * (2 * d) + 2 * d) by (nonlinear_arith);
    lemma_fundamental_div_mod_converse(2 * n + d, 2 * d, q, 2 * n + d - q * (2 * d));
}

/// The triangle wave crosses the midpoint 2047 at the start, the middle and
/// the end of its period, peaks at full scale at the quarter period and
/// reaches the bottom at the three-quarter period.
pub proof fn lemma_triangle_landmarks(t: int)
    requires
        t > 0,
    ensures
        triangle_spec(0, t) == 2047,
        triangle_spec(t, t) == 2047,
        t % 2 == 0 ==> triangle_spec(t / 2, t) == 2047,
        t % 4 == 0 ==> triangle_spec(t / 4, t) == 4095,
        t % 4 == 0 ==> triangle_spec(3 * t / 4, t) == 0,
{
    lemma_round_to(2047 * t, t, 2047);
    if t % 4 == 0 {
        let k = t / 4;
        assert(t == 4 * k);
        lemma_round_to(8190 * k + 2047 * t, t, 4095);
        assert(3 * t / 4 == 3 * k);
        lemma_div_pos_is_pos(t - 2 * (6142 * t - 8190 * (3 * k)), 2 * t);
    }
}

/// The saw wave starts at the midpoint 2047, drops to its lowest code at the
/// half period (the amplitude there is one half, which rounds to 1) and ends
/// at 2048.
pub proof fn lemma_saw_landmarks(t: int)
    requires
        t > 0,
    ensures
        saw_spec(0, t) == 2047,
        saw_spec(t, t) == 2048,
        t % 2 == 0 ==> saw_spec(t / 2, t) == 1,
{
    lemma_round_to(2047 * t, t, 2047);
    lemma_round_to(2048 * t, t, 2048);
    if t % 2 == 0 {
        let h = t / 2;
        assert(t == 2 * h);
        lemma_round_to(4095 * h - 2047 * t, t, 1);
    }
}

} // verus!
