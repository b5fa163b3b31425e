//! Laws of the systems, stated over the spec functions their contracts use.
use vstd::prelude::*;

use crate::config::{
    ball_velocity, standard_config, BALL_DIAMETER, BALL_START_X, BALL_START_Y, BALL_START_Z,
    PADDLE_HEIGHT, PADDLE_SPEED, PADDLE_WIDTH, Config,
};
use crate::geometry::{Position, Velocity, NANOS_PER_UNIT};
use crate::systems::{direction, initial_scene, paddle_target, MoveKeys};
use crate::world::{
    advanced, can_advance, has_single, integrated, is_sole, stepped, with_x, Entity, Role,
};

verus! {

/// A paddle tick moves the paddle by its direction (-1, 0 or 1) times its
/// speed times the tick: `x + direction * speed * dt`, in nanounits when
/// the speed is in units per second and the tick in microseconds.
pub proof fn lemma_paddle_moves_by_direction(x: int, keys: MoveKeys, speed: int, dt_micros: int)
    requires
        dt_micros >= 0,
    ensures
        direction(keys.left, keys.right) == -1 || direction(keys.left, keys.right) == 0
            || direction(keys.left, keys.right) == 1,
        paddle_target(x, keys, speed, dt_micros) == x + direction(keys.left, keys.right) * speed
            * 1000 * dt_micros,
{
}

/// Holding both movement keys moves the paddle exactly as holding neither:
/// not at all.
pub proof fn lemma_opposed_keys_cancel(x: int, speed: int, dt_micros: int)
    requires
        dt_micros >= 0,
    ensures
        paddle_target(x, MoveKeys { left: true, right: true }, speed, dt_micros) == paddle_target(
            x,
            MoveKeys { left: false, right: false },
            speed,
            dt_micros,
        ),
        paddle_target(x, MoveKeys { left: true, right: true }, speed, dt_micros) == x,
{
}

/// A body with a velocity goes from `(x, y)` to `(x + vx * dt, y + vy * dt)`
/// in a tick, keeps its depth, and nothing else about it changes.
pub proof fn lemma_body_moves_by_velocity(e: Entity, dt_micros: int)
    requires
        dt_micros >= 0,
        e.velocity.is_some(),
        can_advance(e, dt_micros),
    ensures
        advanced(e, dt_micros).position.x == e.position.x + e.velocity.unwrap().x * dt_micros,
        advanced(e, dt_micros).position.y == e.position.y + e.velocity.unwrap().y * dt_micros,
        advanced(e, dt_micros).position.z == e.position.z,
        advanced(e, dt_micros).role == e.role,
        advanced(e, dt_micros).sprite == e.sprite,
        advanced(e, dt_micros).velocity == e.velocity,
{
}

/// Bodies move on their own: an entity ends a tick the same way in any two
/// worlds that hold it, whatever else they hold and wherever it stands.
pub proof fn lemma_bodies_move_independently(
    s: Seq<Entity>,
    t: Seq<Entity>,
    i: int,
    k: int,
    dt_micros: int,
)
    requires
        0 <= i < s.len(),
        0 <= k < t.len(),
        s[i] == t[k],
    ensures
        integrated(s, dt_micros)[i] == integrated(t, dt_micros)[k],
        integrated(s, dt_micros)[i] == stepped(s[i], dt_micros),
{
}

/// A tick of zero length is always in range and leaves every entity as it was.
pub proof fn lemma_zero_tick_is_identity(s: Seq<Entity>)
    ensures
        forall|i: int| 0 <= i < s.len() ==> can_advance(#[trigger] s[i], 0),
        integrated(s, 0) == s,
{
    assert forall|i: int| 0 <= i < s.len() implies stepped(#[trigger] s[i], 0) == s[i] by {
        let e = s[i];
        match e.velocity {
            Some(v) => {
                assert(v.x * 0 == 0);
                assert(v.y * 0 == 0);
            },
            None => {},
        }
    }
    assert(integrated(s, 0) =~= s);
}

/// The scene at startup holds exactly one paddle, at `x = 0` and the
/// configured height, and exactly one ball, at the configured start, moving
/// at the configured speed times heading.
pub proof fn lemma_initial_scene(c: Config)
    ensures
        has_single(initial_scene(c), Role::Paddle),
        has_single(initial_scene(c), Role::Ball),
        is_sole(initial_scene(c), Role::Paddle, 1),
        is_sole(initial_scene(c), Role::Ball, 2),
        initial_scene(c)[1].position == (Position { x: 0, y: c.paddle_start_y, z: 0 }),
        initial_scene(c)[1].sprite.unwrap().size == c.paddle_size,
        initial_scene(c)[2].position == c.ball_start,
        initial_scene(c)[2].sprite.unwrap().size == c.ball_size,
        initial_scene(c)[2].velocity == Some(ball_velocity(c)),
{
    assert(is_sole(initial_scene(c), Role::Paddle, 1));
    assert(is_sole(initial_scene(c), Role::Ball, 2));
}

/// With the shipped parameters the scene starts with one 120 by 20 paddle at
/// `(0, 0)`, steered at 500 units per second, and one 30 by 30 ball at `(0, -50, 1)` moving at `(200, -200)`
/// units per second: the heading `(0.5, -0.5)` times 400, not normalised.
pub proof fn lemma_standard_scene()
    ensures
        ({
            let s = initial_scene(standard_config());
            &&& is_sole(s, Role::Paddle, 1)
            &&& is_sole(s, Role::Ball, 2)
            &&& s[1].position == (Position { x: 0, y: 0, z: 0 })
            &&& s[1].sprite.unwrap().size.width == 120 * NANOS_PER_UNIT
            &&& s[1].sprite.unwrap().size.height == 20 * NANOS_PER_UNIT
            &&& s[2].position.x == 0
            &&& s[2].position.y == -50 * NANOS_PER_UNIT
            &&& s[2].position.z == 1 * NANOS_PER_UNIT
            &&& s[2].sprite.unwrap().size.width == 30 * NANOS_PER_UNIT
            &&& s[2].sprite.unwrap().size.height == 30 * NANOS_PER_UNIT
            &&& s[2].velocity == Some(Velocity { x: 200_000i64, y: -200_000i64 })
            &&& standard_config().paddle_speed == 500
        }),
{
    lemma_initial_scene(standard_config());
    assert(PADDLE_WIDTH == 120 * NANOS_PER_UNIT && PADDLE_HEIGHT == 20 * NANOS_PER_UNIT);
    assert(BALL_START_X == 0 && BALL_START_Y == -50 * NANOS_PER_UNIT && BALL_START_Z == 1
        * NANOS_PER_UNIT && BALL_DIAMETER == 30 * NANOS_PER_UNIT);
    assert(PADDLE_SPEED == 500);
}

/// A tick of either system keeps exactly one entity of each role where there
/// was exactly one: moving bodies and steering the paddle change no roles.
pub proof fn lemma_ticks_keep_single_roles(s: Seq<Entity>, role: Role, dt_micros: int, i: int, x: int)
    requires
        has_single(s, role),
        0 <= i < s.len(),
    ensures
        has_single(integrated(s, dt_micros), role),
        has_single(s.update(i, with_x(s[i], x)), role),
{
    let k = choose|k: int| is_sole(s, role, k);
    let t = integrated(s, dt_micros);
    assert(is_sole(t, role, k));
    let u = s.update(i, with_x(s[i], x));
    assert(is_sole(u, role, k));
}

} // verus!
