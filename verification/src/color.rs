//! The colour classifier: RGB to hue, saturation and value, held as exact
//! fractions, and the box test that decides whether a pixel is text-like.

use crate::ratio::Ratio;
use vstd::prelude::*;

verus! {

/// A colour as hue in degrees, saturation and value.
#[derive(Clone, Copy, Debug, PartialEq, Eq, Structural)]
pub struct Hsv {
    pub h: Ratio,
    pub s: Ratio,
    pub v: Ratio,
}

/// A lower or upper corner of a box in hue, saturation and value.
pub type Bound = (Ratio, Ratio, Ratio);

impl Hsv {
    /// Hue lies in `[0, 360)`, saturation and value in `[0, 1]`.
    pub open spec fn wf(self) -> bool {
        &&& self.h.wf()
        &&& self.s.wf()
        &&& self.v.wf()
        &&& self.h.num < 360 * self.h.den
        &&& self.s.num <= self.s.den
        &&& self.v.num <= self.v.den
    }

    pub fn new(h: Ratio, s: Ratio, v: Ratio) -> (res: Hsv)
        ensures
            res == (Hsv { h, s, v }),
    {
        Hsv { h, s, v }
    }
}

impl From<Bound> for Hsv {
    fn from(t: Bound) -> (res: Hsv) {
        Hsv::new(t.0, t.1, t.2)
    }
}

impl vstd::std_specs::convert::FromSpecImpl<Bound> for Hsv {
    open spec fn obeys_from_spec() -> bool {
        true
    }

    open spec fn from_spec(t: Bound) -> Hsv {
        Hsv { h: t.0, s: t.1, v: t.2 }
    }
}

pub open spec fn max3(a: int, b: int, c: int) -> int {
    if a >= b && a >= c {
        a
    } else if b >= c {
        b
    } else {
        c
    }
}

pub open spec fn min3(a: int, b: int, c: int) -> int {
    if a <= b && a <= c {
        a
    } else if b <= c {
        b
    } else {
        c
    }
}

/// The hue of `(r, g, b)` in degrees, multiplied by the spread between the
/// largest and the smallest channel. The sector is chosen by the largest
/// channel, red before green before blue on ties, and a negative angle in the
/// red sector is turned forward by a full circle.
pub open spec fn hue_scaled(r: int, g: int, b: int) -> int {
    let hi = max3(r, g, b);
    let d = hi - min3(r, g, b);
    if d == 0 {
        0
    } else if hi == r {
        if g >= b {
            60 * (g - b)
        } else {
            360 * d + 60 * (g - b)
        }
    } else if hi == g {
        120 * d + 60 * (b - r)
    } else {
        240 * d + 60 * (r - g)
    }
}

/// The colour of `(r, g, b)`: hue over the channel spread, saturation as
/// spread over maximum (zero for black), value as maximum over 255.
pub open spec fn hsv_of(r: u8, g: u8, b: u8) -> Hsv {
    let hi = max3(r as int, g as int, b as int);
    let d = hi - min3(r as int, g as int, b as int);
    Hsv {
        h: Ratio {
            num: hue_scaled(r as int, g as int, b as int) as u32,
            den: if d == 0 { 1u32 } else { d as u32 },
        },
        s: Ratio { num: d as u32, den: if hi == 0 { 1u32 } else { hi as u32 } },
        v: Ratio { num: hi as u32, den: 255 },
    }
}

/// Converts 8-bit channels to hue, saturation and value.
pub fn to_hsv(r: u8, g: u8, b: u8) -> (res: Hsv)
    ensures
        res == hsv_of(r, g, b),
        res.wf(),
        r == g && g == b ==> res.s.num == 0 && res.h.num == 0,
        res.v.num == max3(r as int, g as int, b as int),
        res.v.den == 255,
{
    let rr: u32 = r as u32;
    let gg: u32 = g as u32;
    let bb: u32 = b as u32;
    let hi: u32 = if rr >= gg && rr >= bb {
        rr
    } else if gg >= bb {
        gg
    } else {
        bb
    };
    let lo: u32 = if rr <= gg && rr <= bb {
        rr
    } else if gg <= bb {
        gg
    } else {
        bb
    };
    let d: u32 = hi - lo;
    let hue: u32 = if d == 0 {
        0
    } else if hi == rr {
        if gg >= bb {
            60 * (gg - bb)
        } else {
            360 * d - 60 * (bb - gg)
        }
    } else if hi == gg {
        if bb >= rr {
            120 * d + 60 * (bb - rr)
        } else {
            120 * d - 60 * (rr - bb)
        }
    } else {
        if rr >= gg {
            240 * d + 60 * (rr - gg)
        } else {
            240 * d - 60 * (gg - rr)
        }
    };
    Hsv {
        h: Ratio { num: hue, den: if d == 0 { 1 } else { d } },
        s: Ratio { num: d, den: if hi == 0 { 1 } else { hi } },
        v: Ratio { num: hi, den: 255 },
    }
}

/// A channel that holds `amount / whole` of full scale, brought to 8 bits:
/// multiplied by 255, rounded to the nearest integer with halves going up,
/// and capped at 255.
pub open spec fn channel_of(amount: int, whole: int) -> int {
    let q = (510 * amount + whole) / (2 * whole);
    if q > 255 {
        255
    } else {
        q
    }
}

/// The RGB triple of a colour by the usual chroma construction. With
/// `unit` standing for 60 degrees, the hue picks one of six sectors; the
/// chroma `v * s` goes to the sector's leading channel, a ramp of it that
/// rises and falls with the hue inside each pair of sectors to the second
/// one, and `v - v * s` is added to all three.
pub open spec fn rgb_of(hsv: Hsv) -> (int, int, int) {
    let unit = 60 * hsv.h.den;
    let pos = hsv.h.num as int % (2 * unit);
    let ramp = if pos < unit { pos } else { 2 * unit - pos };
    let chroma = hsv.v.num * hsv.s.num;
    let c = chroma * unit;
    let x = chroma * ramp;
    let m = hsv.v.num * (hsv.s.den - hsv.s.num) * unit;
    let whole = hsv.v.den * hsv.s.den * unit;
    let lead = if hsv.h.num < unit {
        (c, x, 0int)
    } else if hsv.h.num < 2 * unit {
        (x, c, 0int)
    } else if hsv.h.num < 3 * unit {
        (0int, c, x)
    } else if hsv.h.num < 4 * unit {
        (0int, x, c)
    } else if hsv.h.num < 5 * unit {
        (x, 0int, c)
    } else {
        (c, 0int, x)
    };
    (channel_of(lead.0 + m, whole), channel_of(lead.1 + m, whole), channel_of(lead.2 + m, whole))
}

/// A channel that holds `k / 255` of full scale comes back as `k`.
proof fn lemma_channel_exact(k: int, a: int)
    requires
        0 <= k <= 255,
        a > 0,
    ensures
        channel_of(k * a, 255 * a) == k,
{
    let whole = 255 * a;
    let x = 510 * (k * a) + whole;
    assert(x == k * (2 * whole) + whole) by (nonlinear_arith)
        requires
            whole == 255 * a,
            x == 510 * (k * a) + whole,
    ;
    vstd::arithmetic::div_mod::lemma_fundamental_div_mod_converse(x, 2 * whole, k, whole);
}

/// The three amounts that the chroma construction hands to the channels
/// are the largest, the middle and the smallest channel, each times the
/// same factor `sd * unit`.
proof fn lemma_amounts(hi: int, lo: int, mid: int, sn: int, sd: int, unit: int, ramp: int)
    requires
        hi * (sd - sn) == lo * sd,
        (hi * sn) * ramp == (mid - lo) * (sd * unit),
    ensures
        (hi * sn) * unit + (hi * (sd - sn)) * unit == hi * (sd * unit),
        0 + (hi * (sd - sn)) * unit == lo * (sd * unit),
        (hi * sn) * ramp + (hi * (sd - sn)) * unit == mid * (sd * unit),
        (255 * sd) * unit == 255 * (sd * unit),
{
    assert((hi * (sd - sn)) * unit == lo * (sd * unit)) by (nonlinear_arith)
        requires
            hi * (sd - sn) == lo * sd,
    ;
    assert((hi * sn) * unit + (hi * (sd - sn)) * unit == hi * (sd * unit)) by (nonlinear_arith);
    assert((mid - lo) * (sd * unit) + lo * (sd * unit) == mid * (sd * unit)) by (nonlinear_arith);
    assert((255 * sd) * unit == 255 * (sd * unit)) by (nonlinear_arith);
}

/// Going to hue, saturation and value and back gives every RGB triple
/// again, exactly.
pub proof fn lemma_round_trip(r: u8, g: u8, b: u8)
    ensures
        rgb_of(hsv_of(r, g, b)) == (r as int, g as int, b as int),
{
    let hsv = hsv_of(r, g, b);
    let hi = max3(r as int, g as int, b as int);
    let lo = min3(r as int, g as int, b as int);
    let mid = r + g + b - hi - lo;
    let d = hi - lo;
    let hn = hsv.h.num as int;
    let sn = hsv.s.num as int;
    let sd = hsv.s.den as int;
    let unit = 60 * hsv.h.den;
    let pos = hn % (2 * unit);
    let ramp = if pos < unit { pos } else { 2 * unit - pos };
    assert(hn == hue_scaled(r as int, g as int, b as int));
    assert(hsv.v.num == hi && hsv.v.den == 255);
    if hn < 2 * unit {
        vstd::arithmetic::div_mod::lemma_fundamental_div_mod_converse(hn, 2 * unit, 0, hn);
    } else if hn < 4 * unit {
        vstd::arithmetic::div_mod::lemma_fundamental_div_mod_converse(
            hn,
            2 * unit,
            1,
            hn - 2 * unit,
        );
    } else {
        vstd::arithmetic::div_mod::lemma_fundamental_div_mod_converse(
            hn,
            2 * unit,
            2,
            hn - 4 * unit,
        );
    }
    if d == 0 {
        assert(sn == 0 && hi == lo && mid == lo);
        assert((hi * sn) * ramp == (mid - lo) * (sd * unit)) by (nonlinear_arith)
            requires
                sn == 0,
                mid == lo,
        ;
        assert(hi * (sd - sn) == lo * sd);
    } else {
        assert(sn == d && sd == hi && unit == 60 * d);
        assert(ramp == 60 * (mid - lo));
        assert((hi * sn) * ramp == (mid - lo) * (sd * unit)) by (nonlinear_arith)
            requires
                sn == d,
                sd == hi,
                unit == 60 * d,
                ramp == 60 * (mid - lo),
        ;
        assert(hi * (sd - sn) == lo * sd) by (nonlinear_arith)
            requires
                sn == d,
                sd == hi,
                lo == hi - d,
        ;
    }
    lemma_amounts(hi, lo, mid, sn, sd, unit, ramp);
    let a = sd * unit;
    assert(a > 0) by (nonlinear_arith)
        requires
            a == sd * unit,
            sd > 0,
            unit > 0,
    ;
    lemma_channel_exact(hi, a);
    lemma_channel_exact(lo, a);
    lemma_channel_exact(mid, a);
}

fn channel(amount: u128, whole: u128) -> (res: u8)
    requires
        0 < whole <= 0x40_0000_0000_0000_0000_0000_0000,
        amount <= 0x80_0000_0000_0000_0000_0000_0000,
    ensures
        res == channel_of(amount as int, whole as int),
{
    let q: u128 = (510 * amount + whole) / (2 * whole);
    if q > 255 {
        255
    } else {
        q as u8
    }
}

/// Converts hue, saturation and value back to 8-bit channels.
pub fn to_rgb(hsv: Hsv) -> (res: (u8, u8, u8))
    requires
        hsv.wf(),
    ensures
        (res.0 as int, res.1 as int, res.2 as int) == rgb_of(hsv),
{
    let hn: u128 = hsv.h.num as u128;
    let unit: u128 = 60 * (hsv.h.den as u128);
    let sn: u128 = hsv.s.num as u128;
    let sd: u128 = hsv.s.den as u128;
    let vn: u128 = hsv.v.num as u128;
    let vd: u128 = hsv.v.den as u128;
    let pos: u128 = hn % (2 * unit);
    let ramp: u128 = if pos < unit { pos } else { 2 * unit - pos };
    let ghost top: int = 0x1_0000_0000;
    proof {
        vstd::arithmetic::mul::lemma_mul_upper_bound(vn as int, top, sn as int, top);
        vstd::arithmetic::mul::lemma_mul_upper_bound(vn as int, top, sd - sn, top);
        vstd::arithmetic::mul::lemma_mul_upper_bound(vd as int, top, sd as int, top);
        assert(top * top == 0x1_0000_0000_0000_0000);
        assert(vd > 0 && sd > 0 ==> vd * sd > 0) by (nonlinear_arith);
    }
    let chroma: u128 = vn * sn;
    let rest: u128 = vn * (sd - sn);
    let base: u128 = vd * sd;
    proof {
        vstd::arithmetic::mul::lemma_mul_upper_bound(
            chroma as int,
            0x1_0000_0000_0000_0000,
            unit as int,
            0x40_0000_0000,
        );
        vstd::arithmetic::mul::lemma_mul_upper_bound(
            chroma as int,
            0x1_0000_0000_0000_0000,
            ramp as int,
            0x40_0000_0000,
        );
        vstd::arithmetic::mul::lemma_mul_upper_bound(
            rest as int,
            0x1_0000_0000_0000_0000,
            unit as int,
            0x40_0000_0000,
        );
        vstd::arithmetic::mul::lemma_mul_upper_bound(
            base as int,
            0x1_0000_0000_0000_0000,
            unit as int,
            0x40_0000_0000,
        );
        assert(base > 0 && unit > 0 ==> base * unit > 0) by (nonlinear_arith);
        assert(0x1_0000_0000_0000_0000int * 0x40_0000_0000int == 0x40_0000_0000_0000_0000_0000_0000int);
    }
    let c: u128 = chroma * unit;
    let x: u128 = chroma * ramp;
    let m: u128 = rest * unit;
    let whole: u128 = base * unit;
    let lead: (u128, u128, u128) = if hn < unit {
        (c, x, 0)
    } else if hn < 2 * unit {
        (x, c, 0)
    } else if hn < 3 * unit {
        (0, c, x)
    } else if hn < 4 * unit {
        (0, x, c)
    } else if hn < 5 * unit {
        (x, 0, c)
    } else {
        (c, 0, x)
    };
    (channel(lead.0 + m, whole), channel(lead.1 + m, whole), channel(lead.2 + m, whole))
}

/// Whether every component of `color` lies between the matching components
/// of `lower` and `upper`, both ends included.
pub open spec fn within(color: Hsv, lower: Bound, upper: Bound) -> bool {
    &&& lower.0.le(color.h) && color.h.le(upper.0)
    &&& lower.1.le(color.s) && color.s.le(upper.1)
    &&& lower.2.le(color.v) && color.v.le(upper.2)
}

/// The closed-box test on hue, saturation and value.
pub fn in_range(color: Hsv, lower: Bound, upper: Bound) -> (res: bool)
    ensures
        res == within(color, lower, upper),
{
    if !lower.0.at_most(&color.h) || !color.h.at_most(&upper.0) {
        return false;
    } else if !lower.1.at_most(&color.s) || !color.s.at_most(&upper.1) {
        return false;
    } else if !lower.2.at_most(&color.v) || !color.v.at_most(&upper.2) {
        return false;
    }
    true
}

/// Lower corner of the reward-text band: hue 27 degrees (0.075 of a turn),
/// saturation 0.111, value 0.416.
pub open spec fn text_lower_spec() -> Bound {
    (Ratio { num: 27, den: 1 }, Ratio { num: 111, den: 1000 }, Ratio { num: 416, den: 1000 })
}

/// Upper corner of the reward-text band: hue 126 degrees (0.35 of a turn),
/// full saturation, full value.
pub open spec fn text_upper_spec() -> Bound {
    (Ratio { num: 126, den: 1 }, Ratio { num: 1, den: 1 }, Ratio { num: 1, den: 1 })
}

#[verifier::when_used_as_spec(text_lower_spec)]
pub fn text_lower() -> (res: Bound)
    ensures
        res == text_lower_spec(),
{
    (Ratio { num: 27, den: 1 }, Ratio { num: 111, den: 1000 }, Ratio { num: 416, den: 1000 })
}

#[verifier::when_used_as_spec(text_upper_spec)]
pub fn text_upper() -> (res: Bound)
    ensures
        res == text_upper_spec(),
{
    (Ratio { num: 126, den: 1 }, Ratio { num: 1, den: 1 }, Ratio { num: 1, den: 1 })
}

/// Whether a pixel of these channels falls in the reward-text band.
pub open spec fn text_like(r: u8, g: u8, b: u8) -> bool {
    within(hsv_of(r, g, b), text_lower_spec(), text_upper_spec())
}

/// Classifies one pixel by its colour channels.
pub fn is_text_like(r: u8, g: u8, b: u8) -> (res: bool)
    ensures
        res == text_like(r, g, b),
{
    in_range(to_hsv(r, g, b), text_lower(), text_upper())
}

} // verus!
