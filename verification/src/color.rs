//! Eight-bit RGBA colors and their channel-wise linear interpolation.

use vstd::prelude::*;

verus! {

use crate::fixed::{div_floor, FX_ONE};

/// A color with eight bits per channel, alpha last.
#[derive(Clone, Copy, Debug, PartialEq, Eq, Structural)]
pub struct Rgba8 {
    pub r: u8,
    pub g: u8,
    pub b: u8,
    pub a: u8,
}

/// Channel-wise linear interpolation: `a` at `t == 0`, `b` at `t == FX_ONE`,
/// floor-rounded.
pub open spec fn lerp_channel_spec(a: int, b: int, t: int) -> int {
    div_floor(a * (FX_ONE as int - t) + b * t, FX_ONE as int)
}

/// Interpolate one eight-bit channel.
pub fn lerp_channel(a: u8, b: u8, t: i64) -> (r: u8)
    requires
        0 <= t <= FX_ONE,
    ensures
        r as int == lerp_channel_spec(a as int, b as int, t as int),
{
    proof {
        assert((a as int) * (1_000_000 - t as int) + (b as int) * (t as int) <= 255_000_000
            && (a as int) * (1_000_000 - t as int) >= 0 && (b as int) * (t as int) >= 0)
            by (nonlinear_arith)
            requires
                0 <= a <= 255,
                0 <= b <= 255,
                0 <= t <= 1_000_000,
        ;
    }
    let num: u64 = (a as u64) * ((1_000_000 - t) as u64) + (b as u64) * (t as u64);
    let q: u64 = num / 1_000_000;
    proof {
        assert(q <= 255) by (nonlinear_arith)
            requires
                q == num / 1_000_000,
                num <= 255_000_000,
        ;
        assert(div_floor(num as int, 1_000_000) == num as int / 1_000_000);
    }
    q as u8
}

impl Rgba8 {
    pub fn new(r: u8, g: u8, b: u8, a: u8) -> (c: Rgba8)
        ensures
            c == (Rgba8 { r, g, b, a }),
    {
        Rgba8 { r, g, b, a }
    }

    /// A fully transparent black.
    pub fn transparent() -> (c: Rgba8)
        ensures
            c == (Rgba8 { r: 0u8, g: 0u8, b: 0u8, a: 0u8 }),
    {
        Rgba8 { r: 0, g: 0, b: 0, a: 0 }
    }
}

/// Channel-wise linear interpolation of two colors.
pub fn lerp_color(a: Rgba8, b: Rgba8, t: i64) -> (c: Rgba8)
    requires
        0 <= t <= FX_ONE,
    ensures
        c.r as int == lerp_channel_spec(a.r as int, b.r as int, t as int),
        c.g as int == lerp_channel_spec(a.g as int, b.g as int, t as int),
        c.b as int == lerp_channel_spec(a.b as int, b.b as int, t as int),
        c.a as int == lerp_channel_spec(a.a as int, b.a as int, t as int),
{
    Rgba8 {
        r: lerp_channel(a.r, b.r, t),
        g: lerp_channel(a.g, b.g, t),
        b: lerp_channel(a.b, b.b, t),
        a: lerp_channel(a.a, b.a, t),
    }
}

} // verus!
