use vstd::prelude::*;

verus! {

/// Halving with rounding toward zero, the behaviour of `x / 2` in
/// executable arithmetic (spec-level `/` rounds toward negative infinity).
pub open spec fn spec_half_tz(a: int) -> int {
    if a >= 0 {
        a / 2
    } else {
        -((-a) / 2)
    }
}

/// `a / 2` rounded toward zero.
pub fn half_tz(a: i32) -> (r: i32)
    ensures
        r == spec_half_tz(a as int),
{
    if a >= 0 {
        a / 2
    } else {
        let n = -(a as i64);
        -((n / 2) as i32)
    }
}

/// Integer square root, rounded down.
pub open spec fn is_sqrt_floor(n: int, r: int) -> bool {
    r >= 0 && r * r <= n < (r + 1) * (r + 1)
}

/// Largest `r` with `r * r <= n`.
pub fn isqrt(n: u64) -> (r: u64)
    ensures
        is_sqrt_floor(n as int, r as int),
{
    let mut lo: u64 = 0;
    let mut hi: u64 = if n < 0xFFFF_FFFF {
        n + 1
    } else {
        0x1_0000_0000
    };
    // Invariant: lo * lo <= n < hi * hi.
    proof {
        if n < 0xFFFF_FFFF {
            assert((n + 1) * (n + 1) > n) by (nonlinear_arith);
        } else {
            assert(0x1_0000_0000int * 0x1_0000_0000int > n);
        }
    }
    while lo + 1 < hi
        invariant
            lo < hi <= 0x1_0000_0000,
            lo * lo <= n < hi * hi,
        decreases hi - lo,
    {
        let mid: u64 = lo + (hi - lo) / 2;
        proof {
            assert(mid < hi);
            assert(mid * mid < 0xFFFF_FFFF_FFFF_FFFF) by (nonlinear_arith)
                requires
                    0 <= mid <= 0xFFFF_FFFF,
            ;
        }
        if mid * mid <= n {
            lo = mid;
        } else {
            hi = mid;
        }
    }
    lo
}

/// Absolute difference of two `i32` values, as `u64`.
pub fn abs_diff_u64(a: i32, b: i32) -> (r: u64)
    ensures
        r == if a >= b {
            a - b
        } else {
            b - a
        },
{
    if a >= b {
        (a as i64 - b as i64) as u64
    } else {
        (b as i64 - a as i64) as u64
    }
}

/// The square of a bounded value; keeps quadratic terms out of the
/// callers' overflow reasoning.
pub fn sq(v: i64) -> (r: i64)
    requires
        -100_000 <= v <= 100_000,
    ensures
        r == v * v,
        0 <= r <= 10_000_000_000,
{
    proof {
        assert(0 <= v * v <= 10_000_000_000) by (nonlinear_arith)
            requires
                -100_000 <= v <= 100_000,
        ;
    }
    v * v
}

/// Sine of an angle given in degrees, in thousandths (a value of 1000
/// stands for 1.0), by the Bhaskara rational approximation.  Exact at 0,
/// 90 and 180 degrees and within about two thousandths elsewhere.
pub fn sin_milli(deg: i64) -> (r: i64)
    ensures
        -1000 <= r <= 1000,
{
    // reduce to [0, 360)
    let d360: i64 = {
        let m = deg % 360;
        if m < 0 {
            m + 360
        } else {
            m
        }
    };
    let (d, neg) = if d360 < 180 {
        (d360, false)
    } else {
        (d360 - 180, true)
    };
    // Bhaskara: sin(d) ~ 4 d (180 - d) / (40500 - d (180 - d)) for d in [0, 180]
    proof {
        assert(0 <= d <= 180);
        assert(0 <= d * (180 - d) <= 8100) by (nonlinear_arith)
            requires
                0 <= d <= 180,
        ;
    }
    let t: i64 = d * (180 - d);
    let num: i64 = 4 * t * 1000;
    let den: i64 = 40500 - t;
    proof {
        assert(num / den <= 1000 && num / den >= 0) by (nonlinear_arith)
            requires
                0 <= t <= 8100,
                num == 4 * t * 1000,
                den == 40500 - t,
        ;
    }
    let s = num / den;
    if neg {
        -s
    } else {
        s
    }
}

/// Cosine of an angle given in degrees, in thousandths.
pub fn cos_milli(deg: i64) -> (r: i64)
    requires
        -0x4000_0000 <= deg <= 0x4000_0000,
    ensures
        -1000 <= r <= 1000,
{
    sin_milli(deg + 90)
}


/// Converts an HSL color (hue in degrees, saturation and lightness in
/// thousandths) to 8-bit RGB by the standard piecewise-linear formula in
/// fixed point.
pub fn hsl_to_rgb(h_deg: i64, s_milli: i64, l_milli: i64) -> (rgb: (u8, u8, u8))
{
    let h: i64 = {
        let m = h_deg % 360;
        if m < 0 {
            m + 360
        } else {
            m
        }
    };
    let s = clamp_milli(s_milli);
    let l = clamp_milli(l_milli);
    // chroma, in thousandths
    let two_l = 2 * l - 1000;
    let a = if two_l >= 0 {
        two_l
    } else {
        -two_l
    };
    proof {
        assert(0 <= (1000 - a) * s <= 1_000_000) by (nonlinear_arith)
            requires
                0 <= a <= 1000,
                0 <= s <= 1000,
        ;
    }
    let c = ((1000 - a) * s) / 1000;
    let hseg = h % 120;
    let b = if hseg >= 60 {
        hseg - 60
    } else {
        60 - hseg
    };
    proof {
        assert(0 <= c * (60 - b) <= 60_000) by (nonlinear_arith)
            requires
                0 <= c <= 1000,
                0 <= b <= 60,
        ;
    }
    let x = (c * (60 - b)) / 60;
    let m = l - c / 2;
    let (r0, g0, b0) = if h < 60 {
        (c, x, 0i64)
    } else if h < 120 {
        (x, c, 0i64)
    } else if h < 180 {
        (0i64, c, x)
    } else if h < 240 {
        (0i64, x, c)
    } else if h < 300 {
        (x, 0i64, c)
    } else {
        (c, 0i64, x)
    };
    (to_byte(r0 + m), to_byte(g0 + m), to_byte(b0 + m))
}

/// Clamps a fixed-point channel into `[0, 1000]`.
fn clamp_milli(v: i64) -> (r: i64)
    ensures
        0 <= r <= 1000,
{
    if v < 0 {
        0
    } else if v > 1000 {
        1000
    } else {
        v
    }
}

/// A fixed-point channel in thousandths as an 8-bit value.
fn to_byte(v: i64) -> (r: u8)
{
    let c = if v < 0 {
        0
    } else if v > 1000 {
        1000
    } else {
        v
    };
    ((c * 255) / 1000) as u8
}


} // verus!
