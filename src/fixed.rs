//! Fixed-point arithmetic for the turntable's physical quantities.
//!
//! Speeds, tempo and torque are counted in millionths: `SCALE` stands for
//! `1.0`. Times are counted in microseconds.
use vstd::prelude::*;

verus! {

/// The fixed-point unit: a quantity of `SCALE` stands for `1.0`.
pub const SCALE: i64 = 1_000_000;

/// Microseconds in one second.
pub const MICROS_PER_SECOND: u64 = 1_000_000;

/// Division of `x` by a positive `d`, rounded toward zero as Rust's `/` does.
pub open spec fn trunc_div(x: int, d: int) -> int {
    if x >= 0 {
        x / d
    } else {
        -((-x) / d)
    }
}

pub open spec fn abs(x: int) -> int {
    if x >= 0 {
        x
    } else {
        -x
    }
}

/// Linear interpolation from `a` toward `b` by the fraction `t / SCALE`:
/// `a + (b - a) * t`, rounded toward `a`.
pub open spec fn lerp_spec(a: int, b: int, t: int) -> int {
    a + trunc_div((b - a) * t, SCALE as int)
}

/// Speed, in millionths of a rotation per second, of `impulse` impulses
/// (of `per_rotation` to one rotation) made in `dt` microseconds. Rounded
/// toward zero and held to the range of `i64` in magnitude.
pub open spec fn rotation_speed(impulse: int, per_rotation: int, dt: int) -> int {
    let raw = abs(impulse) * (SCALE as int) * (MICROS_PER_SECOND as int) / (per_rotation * dt);
    let mag = if raw > i64::MAX as int {
        i64::MAX as int
    } else {
        raw
    };
    if impulse < 0 {
        -mag
    } else {
        mag
    }
}

/// Maps `value` linearly from `[from_low, from_high]` onto `[to_low, to_high]`.
pub open spec fn map_range_spec(value: int, from_low: int, from_high: int, to_low: int, to_high: int) -> int {
    (value - from_low) * (to_high - to_low) / (from_high - from_low) + to_low
}

proof fn lemma_trunc_div_bounds(x: int, y: int, d: int)
    requires
        d > 0,
        abs(x) <= abs(y) * d,
    ensures
        abs(trunc_div(x, d)) <= abs(y),
        trunc_div(x, d) >= 0 <==> x >= 0 || trunc_div(x, d) == 0,
{
    let ax = abs(x);
    let ay = abs(y);
    assert(ax / d <= ay) by (nonlinear_arith)
        requires
            d > 0,
            0 <= ax <= ay * d,
    ;
    assert(ax / d >= 0) by (nonlinear_arith)
        requires
            d > 0,
            0 <= ax,
    ;
}

/// `a + (b - a) * t / SCALE`, for `0 <= t <= SCALE`; the result lies between
/// `a` and `b`.
pub fn lerp(a: i64, b: i64, t: i64) -> (r: i64)
    requires
        0 <= t <= SCALE,
    ensures
        r == lerp_spec(a as int, b as int, t as int),
        a <= b ==> a <= r <= b,
        b <= a ==> b <= r <= a,
{
    let diff: i128 = b as i128 - a as i128;
    let mag: u128 = if diff >= 0 {
        diff as u128
    } else {
        (-diff) as u128
    };
    assert(mag * (t as int) <= mag * (SCALE as int)) by (nonlinear_arith)
        requires
            0 <= t <= SCALE,
            mag >= 0,
    ;
    let prod: u128 = mag * (t as u128);
    let q: u128 = prod / (SCALE as u128);
    proof {
        assert(q <= mag) by (nonlinear_arith)
            requires
                q == prod / 1_000_000,
                prod <= mag * 1_000_000,
                mag >= 0,
        ;
        assert(diff * (t as int) == if diff >= 0 {
            prod as int
        } else {
            -(prod as int)
        }) by (nonlinear_arith)
            requires
                prod == mag * t,
                mag == abs(diff as int),
        ;
    }
    let r: i128 = if diff >= 0 {
        a as i128 + q as i128
    } else {
        a as i128 - q as i128
    };
    r as i64
}

/// `rotation_speed` of `impulse` impulses made in `dt` microseconds.
pub fn rotation_speed_of(impulse: i64, per_rotation: u64, dt: u64) -> (r: i64)
    requires
        per_rotation > 0,
        dt > 0,
    ensures
        r == rotation_speed(impulse as int, per_rotation as int, dt as int),
{
    let mag_in: u128 = if impulse >= 0 {
        impulse as u128
    } else {
        (-(impulse as i128)) as u128
    };
    assert(mag_in * 1_000_000_000_000 < 0x1_0000_0000_0000_0000_0000_0000_0000) by (nonlinear_arith)
        requires
            mag_in <= 0x8000_0000_0000_0000,
    ;
    assert((per_rotation as int) * (dt as int) <= 0xFFFF_FFFF_FFFF_FFFF * 0xFFFF_FFFF_FFFF_FFFF) by (nonlinear_arith)
        requires
            per_rotation <= 0xFFFF_FFFF_FFFF_FFFF,
            dt <= 0xFFFF_FFFF_FFFF_FFFF,
    ;
    assert((per_rotation as int) * (dt as int) > 0) by (nonlinear_arith)
        requires
            per_rotation > 0,
            dt > 0,
    ;
    let num: u128 = mag_in * 1_000_000_000_000u128;
    let den: u128 = (per_rotation as u128) * (dt as u128);
    let raw: u128 = num / den;
    let mag: i64 = if raw > i64::MAX as u128 {
        i64::MAX
    } else {
        raw as i64
    };
    if impulse < 0 {
        -mag
    } else {
        mag
    }
}

/// Maps `value` from `[from_low, from_high]` onto `[to_low, to_high]`.
pub fn map_range(value: i64, from_low: i64, from_high: i64, to_low: i64, to_high: i64) -> (r: i64)
    requires
        from_low <= value <= from_high,
        from_low < from_high,
        to_low <= to_high,
    ensures
        r == map_range_spec(value as int, from_low as int, from_high as int, to_low as int, to_high as int),
        to_low <= r <= to_high,
{
    let v: u128 = (value as i128 - from_low as i128) as u128;
    let span: u128 = (to_high as i128 - to_low as i128) as u128;
    let width: u128 = (from_high as i128 - from_low as i128) as u128;
    assert(v * span <= width * span) by (nonlinear_arith)
        requires
            0 <= v <= width,
            0 <= span,
    ;
    assert(width * span < 0x1_0000_0000_0000_0000_0000_0000_0000_0000) by (nonlinear_arith)
        requires
            0 <= width < 0x1_0000_0000_0000_0000,
            0 <= span < 0x1_0000_0000_0000_0000,
    ;
    let prod: u128 = v * span;
    let q: u128 = prod / width;
    assert(0 <= q <= span) by (nonlinear_arith)
        requires
            0 <= prod <= width * span,
            width > 0,
            q == prod / width,
    ;
    (q as i128 + to_low as i128) as i64
}

} // verus!
