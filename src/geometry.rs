//! Plain values for positions, velocities, sizes and colours.
//!
//! All lengths are integers in nanounits (a billionth of a world unit),
//! velocities in milliunits per second, and tick durations in microseconds.
//! A velocity applied for a tick then moves a body by exactly
//! `velocity * microseconds` nanounits, with no rounding.
use vstd::prelude::*;

verus! {

/// Nanounits in one world unit.
pub const NANOS_PER_UNIT: i64 = 1_000_000_000;

/// Milliunits in one world unit: a speed in units per second times this is
/// a velocity.
pub const MILLIS_PER_UNIT: i64 = 1000;

/// A point in the scene, in nanounits; `z` orders sprites and never moves.
#[derive(Clone, Copy, Debug, PartialEq, Eq, Structural)]
pub struct Position {
    pub x: i64,
    pub y: i64,
    pub z: i64,
}

/// A planar velocity, in milliunits per second.
#[derive(Clone, Copy, Debug, PartialEq, Eq, Structural)]
pub struct Velocity {
    pub x: i64,
    pub y: i64,
}

/// A sprite's width and height, in nanounits.
#[derive(Clone, Copy, Debug, PartialEq, Eq, Structural)]
pub struct Size {
    pub width: i64,
    pub height: i64,
}

/// A colour; each channel is in thousandths, from 0 to 1000.
#[derive(Clone, Copy, Debug, PartialEq, Eq, Structural)]
pub struct Rgb {
    pub r: u16,
    pub g: u16,
    pub b: u16,
}

impl Rgb {
    pub open spec fn well_formed(self) -> bool {
        self.r <= 1000 && self.g <= 1000 && self.b <= 1000
    }
}

/// How far a velocity carries a body in a tick, in nanounits.
pub open spec fn displacement(velocity: int, dt_micros: int) -> int {
    velocity * dt_micros
}

/// Whether an integer fits in an `i64`.
pub open spec fn fits_i64(v: int) -> bool {
    i64::MIN <= v <= i64::MAX
}

/// `x + velocity * dt_micros`, or `None` where it leaves the `i64` range.
pub fn advance_coordinate(x: i64, velocity: i64, dt_micros: u64) -> (r: Option<i64>)
    ensures
        r.is_some() <==> fits_i64(x + displacement(velocity as int, dt_micros as int)),
        r.is_some() ==> r.unwrap() == x + displacement(velocity as int, dt_micros as int),
{
    let v: i128 = velocity as i128;
    let t: i128 = dt_micros as i128;
    proof {
        assert(-0x8000_0000_0000_0000 <= v <= 0x7fff_ffff_ffff_ffff);
        assert(0 <= t <= 0xffff_ffff_ffff_ffff);
        assert(-0x8000_0000_0000_0000 * 0xffff_ffff_ffff_ffff <= v * t <= 0x7fff_ffff_ffff_ffff
            * 0xffff_ffff_ffff_ffff) by (nonlinear_arith)
            requires
                -0x8000_0000_0000_0000 <= v <= 0x7fff_ffff_ffff_ffff,
                0 <= t <= 0xffff_ffff_ffff_ffff,
        ;
    }
    let moved: i128 = v * t;
    let target: i128 = x as i128 + moved;
    if target < i64::MIN as i128 || target > i64::MAX as i128 {
        None
    } else {
        Some(target as i64)
    }
}

} // verus!
