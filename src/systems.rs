//! The three systems of the game: building the scene once, and on every
//! fixed tick steering the paddle and then moving the bodies.
use vstd::prelude::*;

use crate::config::{ball_velocity, Config};
use crate::geometry::{
    advance_coordinate, displacement, fits_i64, Position, MILLIS_PER_UNIT,
};
use crate::world::{
    advanced, can_advance, has_single, integrated, stepped, is_sole, with_x, Entity, Role, Sprite, Texture,
    World,
};

verus! {

/// The movement keys held during a tick.
#[derive(Clone, Copy, Debug, PartialEq, Eq, Structural)]
pub struct MoveKeys {
    pub left: bool,
    pub right: bool,
}

/// The camera; the engine decides its projection, and nothing reads its position.
pub open spec fn camera_entity() -> Entity {
    Entity {
        role: Role::Camera,
        position: Position { x: 0, y: 0, z: 0 },
        sprite: None,
        velocity: None,
    }
}

/// The paddle as `c` places it: at `x = 0`, drawn as a solid rectangle, at rest.
pub open spec fn paddle_entity(c: Config) -> Entity {
    Entity {
        role: Role::Paddle,
        position: Position { x: 0, y: c.paddle_start_y, z: 0 },
        sprite: Some(Sprite { size: c.paddle_size, color: c.paddle_color, texture: Texture::Solid }),
        velocity: None,
    }
}

/// The ball as `c` places it, drawn with the round image and already moving.
pub open spec fn ball_entity(c: Config) -> Entity {
    Entity {
        role: Role::Ball,
        position: c.ball_start,
        sprite: Some(Sprite { size: c.ball_size, color: c.ball_color, texture: Texture::Circle }),
        velocity: Some(ball_velocity(c)),
    }
}

/// The scene at startup: the camera, the paddle and the ball, in that order.
pub open spec fn initial_scene(c: Config) -> Seq<Entity> {
    seq![camera_entity(), paddle_entity(c), ball_entity(c)]
}

/// Builds the scene that `config` describes.
pub fn setup(config: &Config) -> (w: World)
    ensures
        w@ == initial_scene(*config),
{
    let mut w = World::new();
    w.spawn(
        Entity {
            role: Role::Camera,
            position: Position { x: 0, y: 0, z: 0 },
            sprite: None,
            velocity: None,
        },
    );
    w.spawn(
        Entity {
            role: Role::Paddle,
            position: Position { x: 0, y: config.paddle_start_y, z: 0 },
            sprite: Some(
                Sprite {
                    size: config.paddle_size,
                    color: config.paddle_color,
                    texture: Texture::Solid,
                },
            ),
            velocity: None,
        },
    );
    let velocity = config.ball_start_velocity();
    w.spawn(
        Entity {
            role: Role::Ball,
            position: config.ball_start,
            sprite: Some(
                Sprite { size: config.ball_size, color: config.ball_color, texture: Texture::Circle },
            ),
            velocity: Some(velocity),
        },
    );
    assert(w@ =~= initial_scene(*config));
    w
}

/// Which way the paddle is pushed by the two movement keys: left alone gives
/// -1, right alone 1, neither or both 0.
pub open spec fn direction(left: bool, right: bool) -> int {
    (if right { 1int } else { 0int }) - (if left { 1int } else { 0int })
}

/// The paddle's velocity in milliunits per second under `keys`.
pub open spec fn paddle_velocity(keys: MoveKeys, speed: int) -> int {
    direction(keys.left, keys.right) * speed * MILLIS_PER_UNIT
}

/// Where the paddle at `x` ends up after a tick of `dt_micros` under `keys`.
pub open spec fn paddle_target(x: int, keys: MoveKeys, speed: int, dt_micros: int) -> int {
    x + displacement(paddle_velocity(keys, speed), dt_micros)
}

/// The index of the one paddle of `s`, where it has exactly one.
pub open spec fn paddle_index(s: Seq<Entity>) -> int {
    choose|i: int| is_sole(s, Role::Paddle, i)
}

/// The paddle's direction for the held keys.
pub fn paddle_direction(keys: MoveKeys) -> (d: i64)
    ensures
        d == direction(keys.left, keys.right),
        -1 <= d <= 1,
{
    let mut d: i64 = 0;
    if keys.left {
        d = d - 1;
    }
    if keys.right {
        d = d + 1;
    }
    d
}

/// The paddle's horizontal coordinate after a tick of `dt_micros` at `speed`
/// units per second, or `None` where it would leave the coordinate range.
pub fn paddle_x_after(x: i64, keys: MoveKeys, speed: i32, dt_micros: u64) -> (r: Option<i64>)
    ensures
        r.is_some() <==> fits_i64(paddle_target(x as int, keys, speed as int, dt_micros as int)),
        r.is_some() ==> r.unwrap() == paddle_target(x as int, keys, speed as int, dt_micros as int),
{
    let d = paddle_direction(keys);
    let s = speed as i64;
    assert(-0x8000_0000 * 1000 <= s * MILLIS_PER_UNIT <= 0x7fff_ffff * 1000) by (nonlinear_arith)
        requires
            -0x8000_0000 <= s <= 0x7fff_ffff,
            MILLIS_PER_UNIT == 1000,
    ;
    let per_second = s * MILLIS_PER_UNIT;
    assert(-0x8000_0000 * 1000 <= d * per_second <= 0x8000_0000 * 1000) by (nonlinear_arith)
        requires
            -1 <= d <= 1,
            -0x8000_0000 * 1000 <= per_second <= 0x7fff_ffff * 1000,
    ;
    let velocity = d * per_second;
    assert(velocity == paddle_velocity(keys, speed as int)) by (nonlinear_arith)
        requires
            velocity == d * per_second,
            per_second == s * MILLIS_PER_UNIT,
            d == direction(keys.left, keys.right),
            s == speed,
    ;
    advance_coordinate(x, velocity, dt_micros)
}

/// Steers the one paddle of `world` by `keys` for a tick of `dt_micros`,
/// at the paddle speed of `config`. Nothing but the paddle's horizontal
/// coordinate changes, and only when the new one is in range, which the
/// result tells.
pub fn move_paddle(world: &mut World, keys: MoveKeys, config: &Config, dt_micros: u64) -> (moved: bool)
    requires
        has_single(old(world)@, Role::Paddle),
    ensures
        ({
            let i = paddle_index(old(world)@);
            let target = paddle_target(
                old(world)@[i].position.x as int,
                keys,
                config.paddle_speed as int,
                dt_micros as int,
            );
            &&& is_sole(old(world)@, Role::Paddle, i)
            &&& moved <==> fits_i64(target)
            &&& moved ==> final(world)@ == old(world)@.update(i, with_x(old(world)@[i], target))
            &&& !moved ==> final(world)@ == old(world)@
        }),
{
    let index = world.single(Role::Paddle);
    let i = index.unwrap();
    proof {
        let k = paddle_index(world@);
        assert(is_sole(world@, Role::Paddle, k));
        assert(k == i as int);
    }
    let paddle = world.entities[i];
    match paddle_x_after(paddle.position.x, keys, config.paddle_speed, dt_micros) {
        Some(x) => {
            let moved_paddle = Entity { position: Position { x, ..paddle.position }, ..paddle };
            world.entities.set(i, moved_paddle);
            true
        },
        None => false,
    }
}

/// `e` after a tick of `dt_micros`, or `None` where it would leave the
/// coordinate range.
pub fn advance_entity(e: Entity, dt_micros: u64) -> (r: Option<Entity>)
    ensures
        r.is_some() <==> can_advance(e, dt_micros as int),
        r.is_some() ==> r.unwrap() == advanced(e, dt_micros as int),
{
    match e.velocity {
        Some(v) => {
            let x = advance_coordinate(e.position.x, v.x, dt_micros);
            let y = advance_coordinate(e.position.y, v.y, dt_micros);
            match (x, y) {
                (Some(x), Some(y)) => Some(
                    Entity { position: Position { x, y, z: e.position.z }, ..e },
                ),
                _ => None,
            }
        },
        None => Some(e),
    }
}

/// Moves every entity that has a velocity by that velocity over a tick of
/// `dt_micros`. Each entity moves on its own: one whose new position would
/// leave the coordinate range stays where it is, and the result tells
/// whether every entity moved.
pub fn apply_velocity(world: &mut World, dt_micros: u64) -> (moved: bool)
    ensures
        final(world)@.len() == old(world)@.len(),
        forall|j: int|
            0 <= j < old(world)@.len() ==> #[trigger] final(world)@[j] == stepped(
                old(world)@[j],
                dt_micros as int,
            ),
        final(world)@ == integrated(old(world)@, dt_micros as int),
        moved <==> forall|j: int|
            0 <= j < old(world)@.len() ==> can_advance(#[trigger] old(world)@[j], dt_micros as int),
{
    let ghost start = world@;
    let n = world.entities.len();
    let mut all: bool = true;
    let mut i: usize = 0;
    while i < n
        invariant
            n == start.len(),
            world@.len() == n,
            i <= n,
            forall|j: int| 0 <= j < i ==> #[trigger] world@[j] == stepped(start[j], dt_micros as int),
            forall|j: int| i <= j < n ==> #[trigger] world@[j] == start[j],
            all <==> forall|j: int| 0 <= j < i ==> can_advance(#[trigger] start[j], dt_micros as int),
        decreases n - i,
    {
        match advance_entity(world.entities[i], dt_micros) {
            Some(e) => world.entities.set(i, e),
            None => {
                all = false;
            },
        }
        i = i + 1;
    }
    assert(world@ =~= integrated(start, dt_micros as int));
    all
}

} // verus!
