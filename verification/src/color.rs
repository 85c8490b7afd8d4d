//! RGB colors and integer hue/saturation/value conversion.
//!
//! Hue is measured in whole degrees in `[0, 360)`; saturation and value are
//! quantized to `[0, 255]` (255 stands for 1.0). The conversion follows the
//! standard sector decomposition of the color wheel, with each output channel
//! the exact rational channel value scaled by 255 and truncated.

use vstd::prelude::*;
use vstd::arithmetic::div_mod::{
    lemma_fundamental_div_mod,
    lemma_fundamental_div_mod_converse,
    lemma_mod_bound,
};

verus! {

/// An RGB triple; every channel lies in `[0, 255]`.
#[derive(Clone, Copy, Debug, PartialEq, Eq)]
pub struct Color {
    pub r: u8,
    pub g: u8,
    pub b: u8,
}

impl Color {
    /// Builds a color from its three channels.
    pub fn new(r: u8, g: u8, b: u8) -> (c: Color)
        ensures
            c.r == r,
            c.g == g,
            c.b == b,
    {
        Color { r, g, b }
    }
}

/// Pure white: all channels at full intensity.
pub open spec fn white() -> Color {
    Color { r: 255, g: 255, b: 255 }
}

/// The scaled channel `v * (1 - s)`: the smallest of the three output
/// channels.
pub open spec fn chan_p(s: int, v: int) -> int {
    v * (255 - s) / 255
}

/// The scaled channel `v * (1 - f * s)`, where `f` is the fractional position
/// of the hue within its sector.
pub open spec fn chan_q(h: int, s: int, v: int) -> int {
    v * (15300 - (h % 60) * s) / 15300
}

/// The scaled channel `v * (1 - (1 - f) * s)`, where `f` is the fractional
/// position of the hue within its sector.
pub open spec fn chan_t(h: int, s: int, v: int) -> int {
    v * (15300 - (60 - h % 60) * s) / 15300
}

/// The three RGB channels, each in `[0, 255]`, of the hue/saturation/value
/// triple `(h, s, v)` with `h` in degrees, `s` and `v` quantized to
/// `[0, 255]`. One of the six 60-degree sectors of the color wheel picks the
/// arrangement of the value channel and the two scaled channels.
pub open spec fn hsv_channels(h: int, s: int, v: int) -> (int, int, int) {
    if h < 60 {
        (v, chan_t(h, s, v), chan_p(s, v))
    } else if h < 120 {
        (chan_q(h, s, v), v, chan_p(s, v))
    } else if h < 180 {
        (chan_p(s, v), v, chan_t(h, s, v))
    } else if h < 240 {
        (chan_p(s, v), chan_q(h, s, v), v)
    } else if h < 300 {
        (chan_t(h, s, v), chan_p(s, v), v)
    } else {
        (v, chan_p(s, v), chan_q(h, s, v))
    }
}

/// The color with the channels of `hsv_channels(h, s, v)`.
pub open spec fn hsv_color(h: int, s: int, v: int) -> Color {
    Color {
        r: hsv_channels(h, s, v).0 as u8,
        g: hsv_channels(h, s, v).1 as u8,
        b: hsv_channels(h, s, v).2 as u8,
    }
}

/// A product of values bounded by `c` and `d` is bounded by `c * d`.
proof fn lemma_mul_le(a: int, b: int, c: int, d: int)
    by (nonlinear_arith)
    requires
        0 <= a <= c,
        0 <= b <= d,
    ensures
        0 <= a * b <= c * d,
{
}

/// Scaling `v` by a fraction `x / d` with `x <= d` stays within `[0, v]`.
proof fn lemma_scaled_le(v: int, x: int, d: int)
    by (nonlinear_arith)
    requires
        0 <= v,
        0 <= x <= d,
        0 < d,
    ensures
        0 <= v * x / d <= v,
{
}

/// Every channel of a converted hue/saturation/value triple lies in
/// `[0, v]`: conversion never brightens past the value channel.
pub proof fn lemma_hsv_channels_bounds(h: int, s: int, v: int)
    requires
        0 <= h < 360,
        0 <= s <= 255,
        0 <= v <= 255,
    ensures
        0 <= hsv_channels(h, s, v).0 <= v,
        0 <= hsv_channels(h, s, v).1 <= v,
        0 <= hsv_channels(h, s, v).2 <= v,
{
    let hm: int = h % 60;
    assert(0 <= hm < 60);
    lemma_mul_le(hm, s, 59, 255);
    lemma_mul_le(60 - hm, s, 60, 255);
    lemma_scaled_le(v, 255 - s, 255);
    lemma_scaled_le(v, 15300 - hm * s, 15300);
    lemma_scaled_le(v, 15300 - (60 - hm) * s, 15300);
}

/// Converts a hue/saturation/value triple to RGB: hue in whole degrees,
/// saturation and value quantized to `[0, 255]`. Exact rational arithmetic,
/// truncated once per channel.
pub fn hsv_to_rgb(h: u16, s: u8, v: u8) -> (c: Color)
    requires
        h < 360,
    ensures
        c == hsv_color(h as int, s as int, v as int),
        c.r <= v,
        c.g <= v,
        c.b <= v,
{
    proof {
        lemma_hsv_channels_bounds(h as int, s as int, v as int);
    }
    let hm: u32 = (h % 60) as u32;
    let s32: u32 = s as u32;
    let v32: u32 = v as u32;
    assert(hm * s32 <= 15045) by (nonlinear_arith)
        requires
            hm <= 59,
            s32 <= 255,
    ;
    assert((60 - hm) * s32 <= 15300) by (nonlinear_arith)
        requires
            hm < 60,
            s32 <= 255,
    ;
    assert(v32 * (255 - s32) <= 65025) by (nonlinear_arith)
        requires
            v32 <= 255,
            s32 <= 255,
    ;
    assert(v32 * (15300 - hm * s32) <= 3901500) by (nonlinear_arith)
        requires
            v32 <= 255,
            hm * s32 <= 15300,
    ;
    assert(v32 * (15300 - (60 - hm) * s32) <= 3901500) by (nonlinear_arith)
        requires
            v32 <= 255,
            hm < 60,
            s32 <= 255,
    ;
    let p: u32 = v32 * (255 - s32) / 255;
    let q: u32 = v32 * (15300 - hm * s32) / 15300;
    let t: u32 = v32 * (15300 - (60 - hm) * s32) / 15300;
    if h < 60 {
        Color { r: v, g: t as u8, b: p as u8 }
    } else if h < 120 {
        Color { r: q as u8, g: v, b: p as u8 }
    } else if h < 180 {
        Color { r: p as u8, g: v, b: t as u8 }
    } else if h < 240 {
        Color { r: p as u8, g: q as u8, b: v }
    } else if h < 300 {
        Color { r: t as u8, g: p as u8, b: v }
    } else {
        Color { r: v, g: p as u8, b: q as u8 }
    }
}

/// The largest of three channels.
pub open spec fn rgb_max(r: int, g: int, b: int) -> int {
    if r >= g && r >= b {
        r
    } else if g >= b {
        g
    } else {
        b
    }
}

/// The smallest of three channels.
pub open spec fn rgb_min(r: int, g: int, b: int) -> int {
    if r <= g && r <= b {
        r
    } else if g <= b {
        g
    } else {
        b
    }
}

/// The hue, in whole degrees in `[0, 360)`, recovered from an RGB triple:
/// the standard piecewise formula on the dominant channel, truncated.
/// A gray triple (no chroma) recovers hue 0.
pub open spec fn hue_of_rgb(r: int, g: int, b: int) -> int {
    let mx: int = rgb_max(r, g, b);
    let d: int = mx - rgb_min(r, g, b);
    if d == 0 {
        0
    } else if mx == r && g >= b {
        60 * (g - b) / d
    } else if mx == r {
        (360 * d - 60 * (b - g)) / d
    } else if mx == g {
        (120 * d + 60 * (b - r)) / d
    } else {
        (240 * d + 60 * (r - g)) / d
    }
}

/// The saturation, quantized to `[0, 255]`, recovered from an RGB triple.
pub open spec fn sat_of_rgb(r: int, g: int, b: int) -> int {
    let mx: int = rgb_max(r, g, b);
    if mx == 0 {
        0
    } else {
        255 * (mx - rgb_min(r, g, b)) / mx
    }
}

/// The hue/saturation/value triple recovered from an RGB triple; the value
/// channel is the dominant channel itself.
pub open spec fn rgb_hsv(r: int, g: int, b: int) -> (int, int, int) {
    (hue_of_rgb(r, g, b), sat_of_rgb(r, g, b), rgb_max(r, g, b))
}

/// A quotient of a bounded non-negative numerator is bounded: if
/// `num < k * d` then `num / d < k`.
proof fn lemma_div_bound(num: int, d: int, k: int)
    by (nonlinear_arith)
    requires
        0 < d,
        0 <= num,
        num < k * d,
    ensures
        0 <= num / d < k,
{
}

/// Converts an RGB triple back to a hue/saturation/value triple: hue in
/// whole degrees in `[0, 360)`, saturation and value quantized to
/// `[0, 255]`.
pub fn rgb_to_hsv(c: Color) -> (hsv: (u16, u8, u8))
    ensures
        (hsv.0 as int, hsv.1 as int, hsv.2 as int) == rgb_hsv(
            c.r as int,
            c.g as int,
            c.b as int,
        ),
        hsv.0 < 360,
{
    let r: u32 = c.r as u32;
    let g: u32 = c.g as u32;
    let b: u32 = c.b as u32;
    let mx: u32 = if r >= g && r >= b {
        r
    } else if g >= b {
        g
    } else {
        b
    };
    let mn: u32 = if r <= g && r <= b {
        r
    } else if g <= b {
        g
    } else {
        b
    };
    let d: u32 = mx - mn;
    let hue: u32 = if d == 0 {
        0
    } else if mx == r && g >= b {
        proof {
            lemma_div_bound(60 * (g - b), d as int, 61);
        }
        60 * (g - b) / d
    } else if mx == r {
        proof {
            lemma_div_bound(360 * d - 60 * (b - g), d as int, 360);
        }
        (360 * d - 60 * (b - g)) / d
    } else if mx == g {
        proof {
            lemma_div_bound(120 * d + 60 * b - 60 * r, d as int, 181);
        }
        (120 * d + 60 * b - 60 * r) / d
    } else {
        proof {
            lemma_div_bound(240 * d + 60 * r - 60 * g, d as int, 301);
        }
        (240 * d + 60 * r - 60 * g) / d
    };
    let sat: u32 = if mx == 0 {
        0
    } else {
        proof {
            lemma_div_bound(255 * d, mx as int, 256);
        }
        255 * d / mx
    };
    (hue as u16, sat as u8, mx as u8)
}

/// Bounds on the fully saturated, full-value scaled channel `chan_q`: it
/// tracks `255 * (60 - hm) / 60` to within the one-unit truncation error.
proof fn lemma_q_bounds(h: int)
    requires
        0 <= h < 360,
    ensures
        ({
            let hm: int = h % 60;
            let q: int = chan_q(h, 255, 255);
            &&& 60 * q <= 255 * (60 - hm)
            &&& 255 * (60 - hm) < 60 * q + 60
            &&& 0 <= q <= 255
            &&& hm == 0 ==> q == 255
            &&& hm >= 1 ==> q <= 250
        }),
{
    lemma_mod_bound(h, 60);
    let hm: int = h % 60;
    let nq: int = 255 * (15300 - hm * 255);
    lemma_fundamental_div_mod(nq, 15300);
    lemma_mod_bound(nq, 15300);
    let q: int = chan_q(h, 255, 255);
    assert(q == nq / 15300);
    assert(15300 * q <= nq < 15300 * q + 15300);
}

/// Bounds on the fully saturated, full-value scaled channel `chan_t`: it
/// tracks `255 * hm / 60` to within the one-unit truncation error.
proof fn lemma_t_bounds(h: int)
    requires
        0 <= h < 360,
    ensures
        ({
            let hm: int = h % 60;
            let t: int = chan_t(h, 255, 255);
            &&& 60 * t <= 255 * hm
            &&& 255 * hm < 60 * t + 60
            &&& 0 <= t <= 250
            &&& hm == 0 ==> t == 0
        }),
{
    lemma_mod_bound(h, 60);
    let hm: int = h % 60;
    let nt: int = 255 * (15300 - (60 - hm) * 255);
    lemma_fundamental_div_mod(nt, 15300);
    lemma_mod_bound(nt, 15300);
    let t: int = chan_t(h, 255, 255);
    assert(t == nt / 15300);
    assert(15300 * t <= nt < 15300 * t + 15300);
}

/// The recovered hue in a sector whose moving channel rises with the hue:
/// the quotient lands on the sector offset to within one degree below.
proof fn lemma_hue_num_rising(base: int, hm: int, t: int)
    requires
        0 <= hm < 60,
        0 <= t,
        60 * t <= 255 * hm,
        255 * hm < 60 * t + 60,
    ensures
        base + hm - 1 <= (255 * base + 60 * t) / 255 <= base + hm,
{
    let num: int = 255 * base + 60 * t;
    if num == 255 * (base + hm) {
        lemma_fundamental_div_mod_converse(num, 255, base + hm, 0);
    } else {
        lemma_fundamental_div_mod_converse(num, 255, base + hm - 1, num - 255 * (base + hm - 1));
    }
}

/// The recovered hue in a sector whose moving channel falls as the hue
/// rises: the truncation errors cancel and the quotient is exact.
proof fn lemma_hue_num_falling(base: int, hm: int, q: int)
    requires
        0 <= hm < 60,
        0 <= q,
        60 * q <= 255 * (60 - hm),
        255 * (60 - hm) < 60 * q + 60,
    ensures
        (255 * base - 60 * q) / 255 == base - 60 + hm,
{
    let num: int = 255 * base - 60 * q;
    lemma_fundamental_div_mod_converse(num, 255, base - 60 + hm, num - 255 * (base - 60 + hm));
}

/// Round-trip law: a fully saturated, full-value hue converted to RGB and
/// back recovers full saturation and value exactly, and the original hue to
/// within one degree, the tolerance forced by quantizing channels to
/// `[0, 255]`.
pub proof fn lemma_hue_round_trip(h: int)
    requires
        0 <= h < 360,
    ensures
        ({
            let c = hsv_color(h, 255, 255);
            let back: (int, int, int) = rgb_hsv(c.r as int, c.g as int, c.b as int);
            &&& back.1 == 255
            &&& back.2 == 255
            &&& back.0 <= h
            &&& h - back.0 <= 1
        }),
{
    lemma_hsv_channels_bounds(h, 255, 255);
    lemma_q_bounds(h);
    lemma_t_bounds(h);
    lemma_mod_bound(h, 60);
    let hm: int = h % 60;
    let q: int = chan_q(h, 255, 255);
    let t: int = chan_t(h, 255, 255);
    let c = hsv_color(h, 255, 255);
    if h < 60 {
        lemma_fundamental_div_mod_converse(h, 60, 0, h);
        assert(c.r as int == 255 && c.g as int == t && c.b as int == 0);
        assert(hue_of_rgb(255, t, 0) == (255 * 0 + 60 * t) / 255);
        lemma_hue_num_rising(0, hm, t);
    } else if h < 120 {
        lemma_fundamental_div_mod_converse(h, 60, 1, h - 60);
        assert(c.r as int == q && c.g as int == 255 && c.b as int == 0);
        if hm == 0 {
            assert(hue_of_rgb(255, 255, 0) == 60 * (255 - 0) / 255);
            lemma_fundamental_div_mod_converse(60int * 255, 255, 60, 0);
        } else {
            assert(q < 255);
            assert(hue_of_rgb(q, 255, 0) == (255 * 120 - 60 * q) / 255);
            lemma_hue_num_falling(120, hm, q);
        }
    } else if h < 180 {
        lemma_fundamental_div_mod_converse(h, 60, 2, h - 120);
        assert(c.r as int == 0 && c.g as int == 255 && c.b as int == t);
        assert(hue_of_rgb(0, 255, t) == (255 * 120 + 60 * t) / 255);
        lemma_hue_num_rising(120, hm, t);
    } else if h < 240 {
        lemma_fundamental_div_mod_converse(h, 60, 3, h - 180);
        assert(c.r as int == 0 && c.g as int == q && c.b as int == 255);
        if hm == 0 {
            assert(hue_of_rgb(0, 255, 255) == (120 * 255 + 60 * (255 - 0)) / 255);
            lemma_fundamental_div_mod_converse(120int * 255 + 60 * 255, 255, 180, 0);
        } else {
            assert(q < 255);
            assert(hue_of_rgb(0, q, 255) == (255 * 240 - 60 * q) / 255);
            lemma_hue_num_falling(240, hm, q);
        }
    } else if h < 300 {
        lemma_fundamental_div_mod_converse(h, 60, 4, h - 240);
        assert(c.r as int == t && c.g as int == 0 && c.b as int == 255);
        assert(hue_of_rgb(t, 0, 255) == (255 * 240 + 60 * t) / 255);
        lemma_hue_num_rising(240, hm, t);
    } else {
        lemma_fundamental_div_mod_converse(h, 60, 5, h - 300);
        assert(c.r as int == 255 && c.g as int == 0 && c.b as int == q);
        assert(q >= 1);
        assert(hue_of_rgb(255, 0, q) == (255 * 360 - 60 * q) / 255);
        lemma_hue_num_falling(360, hm, q);
    }
}

} // verus!
