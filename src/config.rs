//! The parameters of the scene, gathered in one value so that they can be
//! changed and tested.
use vstd::prelude::*;

use crate::geometry::{Position, Rgb, Size, Velocity, NANOS_PER_UNIT};

verus! {

/// A direction of travel; each component is in thousandths, and the vector
/// is used as given, not normalised.
#[derive(Clone, Copy, Debug, PartialEq, Eq, Structural)]
pub struct Heading {
    pub x: i32,
    pub y: i32,
}

/// Where the bodies start, how they look and how fast they go.
#[derive(Clone, Copy, Debug, PartialEq, Eq, Structural)]
pub struct Config {
    /// The paddle's starting height, in nanounits; it starts at `x = 0`.
    pub paddle_start_y: i64,
    pub paddle_size: Size,
    pub paddle_color: Rgb,
    /// The paddle's speed while a single movement key is held, in units per second.
    pub paddle_speed: i32,
    pub ball_start: Position,
    pub ball_size: Size,
    pub ball_color: Rgb,
    /// The ball's speed factor, in units per second.
    pub ball_speed: i32,
    pub ball_direction: Heading,
    /// The colour the window is cleared to before drawing.
    pub clear_color: Rgb,
}

pub const PADDLE_START_Y: i64 = 0;
pub const PADDLE_WIDTH: i64 = 120 * NANOS_PER_UNIT;
pub const PADDLE_HEIGHT: i64 = 20 * NANOS_PER_UNIT;
pub const PADDLE_SPEED: i32 = 500;
pub const BALL_START_X: i64 = 0;
pub const BALL_START_Y: i64 = -50 * NANOS_PER_UNIT;
pub const BALL_START_Z: i64 = 1 * NANOS_PER_UNIT;
pub const BALL_DIAMETER: i64 = 30 * NANOS_PER_UNIT;
pub const BALL_SPEED: i32 = 400;
pub const BALL_HEADING_X: i32 = 500;
pub const BALL_HEADING_Y: i32 = -500;

/// The ball's starting velocity in milliunits per second: its speed times
/// its heading.
pub open spec fn ball_velocity(c: Config) -> Velocity {
    Velocity {
        x: (c.ball_speed * c.ball_direction.x) as i64,
        y: (c.ball_speed * c.ball_direction.y) as i64,
    }
}

impl Config {
    pub open spec fn well_formed(self) -> bool {
        self.paddle_color.well_formed() && self.ball_color.well_formed()
            && self.clear_color.well_formed()
    }

    /// The ball's starting velocity: its speed times its heading.
    pub fn ball_start_velocity(&self) -> (v: Velocity)
        ensures
            v == ball_velocity(*self),
    {
        let speed = self.ball_speed as i64;
        let hx = self.ball_direction.x as i64;
        let hy = self.ball_direction.y as i64;
        assert(-0x8000_0000 * 0x8000_0000 <= speed * hx <= 0x8000_0000 * 0x8000_0000)
            by (nonlinear_arith)
            requires
                -0x8000_0000 <= speed <= 0x7fff_ffff,
                -0x8000_0000 <= hx <= 0x7fff_ffff,
        ;
        assert(-0x8000_0000 * 0x8000_0000 <= speed * hy <= 0x8000_0000 * 0x8000_0000)
            by (nonlinear_arith)
            requires
                -0x8000_0000 <= speed <= 0x7fff_ffff,
                -0x8000_0000 <= hy <= 0x7fff_ffff,
        ;
        Velocity { x: speed * hx, y: speed * hy }
    }

    /// The scene as the game is shipped.
    pub fn standard() -> (c: Config)
        ensures
            c == standard_config(),
            c.well_formed(),
    {
        Config {
            paddle_start_y: PADDLE_START_Y,
            paddle_size: Size { width: PADDLE_WIDTH, height: PADDLE_HEIGHT },
            paddle_color: Rgb { r: 300, g: 300, b: 700 },
            paddle_speed: PADDLE_SPEED,
            ball_start: Position { x: BALL_START_X, y: BALL_START_Y, z: BALL_START_Z },
            ball_size: Size { width: BALL_DIAMETER, height: BALL_DIAMETER },
            ball_color: Rgb { r: 1000, g: 500, b: 500 },
            ball_speed: BALL_SPEED,
            ball_direction: Heading { x: BALL_HEADING_X, y: BALL_HEADING_Y },
            clear_color: Rgb { r: 900, g: 900, b: 900 },
        }
    }
}

/// The scene as the game is shipped: a bluish 120 by 20 paddle at the
/// origin moving at 500 units per second, and a pink 30 by 30 ball starting
/// at `(0, -50)` in front of it, at speed 400 along `(0.5, -0.5)`, on a light
/// grey background.
pub open spec fn standard_config() -> Config {
    Config {
        paddle_start_y: PADDLE_START_Y,
        paddle_size: Size { width: PADDLE_WIDTH, height: PADDLE_HEIGHT },
        paddle_color: Rgb { r: 300, g: 300, b: 700 },
        paddle_speed: PADDLE_SPEED,
        ball_start: Position { x: BALL_START_X, y: BALL_START_Y, z: BALL_START_Z },
        ball_size: Size { width: BALL_DIAMETER, height: BALL_DIAMETER },
        ball_color: Rgb { r: 1000, g: 500, b: 500 },
        ball_speed: BALL_SPEED,
        ball_direction: Heading { x: BALL_HEADING_X, y: BALL_HEADING_Y },
        clear_color: Rgb { r: 900, g: 900, b: 900 },
    }
}

impl Default for Config {
    fn default() -> (c: Config)
        ensures
            c == standard_config(),
    {
        Config::standard()
    }
}

} // verus!
