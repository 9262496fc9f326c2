//! HSL to RGB conversion over exact fractions.
//!
//! A colour channel is a fraction, not a float: the three channels of an
//! [`Rgb`] share one denominator, and the conversion is the usual
//! piecewise-linear hue ramp carried out without rounding.

use vstd::prelude::*;

verus! {

/// The fraction `num / den`; well formed when `den > 0`.
#[derive(Clone, Copy, Debug, PartialEq, Eq, Structural)]
pub struct Ratio {
    pub num: u32,
    pub den: u32,
}

impl Ratio {
    pub open spec fn wf(self) -> bool {
        self.den > 0
    }

    pub fn new(num: u32, den: u32) -> (r: Ratio)
        requires
            den > 0,
        ensures
            r.num == num,
            r.den == den,
            r.wf(),
    {
        Ratio { num, den }
    }
}

/// A colour whose channels are `red / den`, `green / den` and `blue / den`.
#[derive(Clone, Copy, Debug, PartialEq, Eq, Structural)]
pub struct Rgb {
    pub red: i128,
    pub green: i128,
    pub blue: i128,
    pub den: u128,
}

impl Rgb {
    pub open spec fn channels(self) -> (int, int, int, int) {
        (self.red as int, self.green as int, self.blue as int, self.den as int)
    }
}

/// The upper bound `q` of the hue ramp, as a numerator over `l.den * s.den`:
/// `l * (1 + s)` below half lightness, `l + s - l * s` from half on.
pub open spec fn ramp_top(s: Ratio, l: Ratio) -> int {
    if 2 * l.num < l.den {
        l.num * (s.den + s.num)
    } else {
        l.num * s.den + s.num * l.den - l.num * s.num
    }
}

/// The lower bound `p = 2 * l - q` of the hue ramp, over `l.den * s.den`.
pub open spec fn ramp_bottom(s: Ratio, l: Ratio) -> int {
    2 * l.num * s.den - ramp_top(s, l)
}

/// A hue position `t / f` moved by one turn into `[0, 1]`, as a numerator over `f`.
pub open spec fn wrap_hue(t: int, f: int) -> int {
    let t1 = if t < 0 {
        t + f
    } else {
        t
    };
    if t1 > f {
        t1 - f
    } else {
        t1
    }
}

/// The channel value at hue position `t / f` between `p / e` and `q / e`,
/// as a numerator over `e * f`: rising on `[0, 1/6)`, flat at `q` on
/// `[1/6, 1/2)`, falling on `[1/2, 2/3)`, flat at `p` after.
pub open spec fn hue_ramp(p: int, q: int, t: int, f: int) -> int {
    let t = wrap_hue(t, f);
    if 6 * t < f {
        p * f + 6 * (q - p) * t
    } else if 2 * t < f {
        q * f
    } else if 3 * t < 2 * f {
        p * f + (q - p) * (4 * f - 6 * t)
    } else {
        p * f
    }
}

/// Red, green, blue and their common denominator for hue `h`, saturation `s`
/// and lightness `l`. Zero saturation is the grey `(l, l, l)`; otherwise the
/// channels sit a third of a turn apart on the hue ramp, over the denominator
/// `l.den * s.den * 3 * h.den`.
pub open spec fn hsl_channels(h: Ratio, s: Ratio, l: Ratio) -> (int, int, int, int) {
    if s.num == 0 {
        (l.num as int, l.num as int, l.num as int, l.den as int)
    } else {
        let q = ramp_top(s, l);
        let p = ramp_bottom(s, l);
        let f = 3 * h.den;
        (
            hue_ramp(p, q, 3 * h.num + h.den, f),
            hue_ramp(p, q, 3 * h.num, f),
            hue_ramp(p, q, 3 * h.num - h.den, f),
            l.den * s.den * f,
        )
    }
}

proof fn lemma_mul_strict_bound(a: int, b: int, x: int, y: int)
    requires
        -x < a < x,
        -y < b < y,
    ensures
        -(x * y) < a * b < x * y,
{
    assert(-(x * y) < a * b < x * y) by (nonlinear_arith)
        requires
            -x < a < x,
            -y < b < y,
    ;
}

/// One channel of the hue ramp, as [`hue_ramp`] states it.
pub fn hue_to_rgb(p: i128, q: i128, t: i128, f: i128) -> (r: i128)
    requires
        -0x4_0000_0000_0000_0000 < p < 0x4_0000_0000_0000_0000,
        -0x4_0000_0000_0000_0000 < q < 0x4_0000_0000_0000_0000,
        -0x4_0000_0000 < t < 0x4_0000_0000,
        0 < f < 0x4_0000_0000,
    ensures
        r == hue_ramp(p as int, q as int, t as int, f as int),
{
    let mut t = t;
    if t < 0 {
        t = t + f;
    }
    if t > f {
        t = t - f;
    }
    proof {
        lemma_mul_strict_bound(p as int, f as int, 0x4_0000_0000_0000_0000, 0x4_0000_0000);
        lemma_mul_strict_bound(q as int, f as int, 0x4_0000_0000_0000_0000, 0x4_0000_0000);
    }
    if 6 * t < f {
        proof {
            lemma_mul_strict_bound(6 * (q - p), t as int, 0x40_0000_0000_0000_0000, 0x8_0000_0000);
        }
        p * f + 6 * (q - p) * t
    } else if 2 * t < f {
        q * f
    } else if 3 * t < 2 * f {
        proof {
            lemma_mul_strict_bound((q - p) as int, 4 * f - 6 * t, 0x8_0000_0000_0000_0000, 0x40_0000_0000);
        }
        p * f + (q - p) * (4 * f - 6 * t)
    } else {
        p * f
    }
}

/// Converts hue, saturation and lightness, each a fraction, to RGB exactly.
pub fn hsl_to_rgb(h: Ratio, s: Ratio, l: Ratio) -> (r: Rgb)
    requires
        h.wf(),
        s.wf(),
        l.wf(),
    ensures
        r.channels() == hsl_channels(h, s, l),
        s.num == 0 ==> r.red == l.num && r.green == l.num && r.blue == l.num && r.den == l.den,
{
    if s.num == 0 {
        return Rgb { red: l.num as i128, green: l.num as i128, blue: l.num as i128, den: l.den as u128 };
    }
    let ln = l.num as i128;
    let ld = l.den as i128;
    let sn = s.num as i128;
    let sd = s.den as i128;
    proof {
        lemma_mul_strict_bound(ln as int, sd + sn, 0x1_0000_0000, 0x2_0000_0000);
        lemma_mul_strict_bound(ln as int, sd as int, 0x1_0000_0000, 0x1_0000_0000);
        lemma_mul_strict_bound(sn as int, ld as int, 0x1_0000_0000, 0x1_0000_0000);
        lemma_mul_strict_bound(ln as int, sn as int, 0x1_0000_0000, 0x1_0000_0000);
        lemma_mul_strict_bound(2 * ln, sd as int, 0x2_0000_0000, 0x1_0000_0000);
    }
    let q: i128 = if 2 * ln < ld {
        ln * (sd + sn)
    } else {
        ln * sd + sn * ld - ln * sn
    };
    let p: i128 = 2 * ln * sd - q;
    let hn = h.num as i128;
    let hd = h.den as i128;
    let f: i128 = 3 * hd;
    let red = hue_to_rgb(p, q, 3 * hn + hd, f);
    let green = hue_to_rgb(p, q, 3 * hn, f);
    let blue = hue_to_rgb(p, q, 3 * hn - hd, f);
    proof {
        lemma_mul_strict_bound(l.den as int, s.den as int, 0x1_0000_0000, 0x1_0000_0000);
        lemma_mul_strict_bound(l.den * s.den, f as int, 0x1_0000_0000_0000_0000, 0x4_0000_0000);
    }
    let den = (l.den as u128) * (s.den as u128) * (f as u128);
    Rgb { red, green, blue, den }
}

} // verus!
