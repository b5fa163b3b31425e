use breakout::config::{Config, Heading};
use breakout::geometry::{advance_coordinate, Position, Rgb, Size, Velocity, NANOS_PER_UNIT};
use breakout::systems::{
    advance_entity, apply_velocity, move_paddle, paddle_direction, paddle_x_after, setup,
    MoveKeys,
};
use breakout::world::{Entity, Role, Sprite, Texture, World};

const TENTH_SECOND: u64 = 100_000;
const ONE_SECOND: u64 = 1_000_000;

fn units(n: i64) -> i64 {
    n * NANOS_PER_UNIT
}

fn paddle_at(x: i64) -> Entity {
    Entity {
        role: Role::Paddle,
        position: Position { x, y: 0, z: 0 },
        sprite: None,
        velocity: None,
    }
}

fn ball_at(x: i64, y: i64, vx: i64, vy: i64) -> Entity {
    Entity {
        role: Role::Ball,
        position: Position { x, y, z: units(1) },
        sprite: None,
        velocity: Some(Velocity { x: vx, y: vy }),
    }
}

fn world_of(entities: Vec<Entity>) -> World {
    World { entities }
}

const LEFT: MoveKeys = MoveKeys { left: true, right: false };
const RIGHT: MoveKeys = MoveKeys { left: false, right: true };
const BOTH: MoveKeys = MoveKeys { left: true, right: true };
const NEITHER: MoveKeys = MoveKeys { left: false, right: false };

#[test]
fn left_key_moves_paddle_left() {
    let config = Config::standard();
    let mut w = world_of(vec![paddle_at(0)]);
    assert!(move_paddle(&mut w, LEFT, &config, TENTH_SECOND));
    assert_eq!(w.entities[0].position.x, units(-50));
}

#[test]
fn both_keys_leave_paddle_in_place() {
    let config = Config::standard();
    let mut w = world_of(vec![paddle_at(units(10))]);
    assert!(move_paddle(&mut w, BOTH, &config, TENTH_SECOND));
    assert_eq!(w.entities[0].position.x, units(10));
}

#[test]
fn one_second_tick_moves_ball() {
    let mut w = world_of(vec![ball_at(0, units(-50), 200_000, -200_000)]);
    assert!(apply_velocity(&mut w, ONE_SECOND));
    assert_eq!(w.entities[0].position, Position { x: units(200), y: units(-250), z: units(1) });
}

#[test]
fn right_key_moves_paddle_right() {
    let config = Config::standard();
    let mut w = world_of(vec![paddle_at(units(3))]);
    assert!(move_paddle(&mut w, RIGHT, &config, 16_667));
    // 500 units per second for 16667 microseconds is 8.3335 units.
    assert_eq!(w.entities[0].position.x, units(3) + 8_333_500_000);
}

#[test]
fn opposed_keys_match_no_keys() {
    let both = paddle_x_after(units(7), BOTH, 500, 33_333);
    let neither = paddle_x_after(units(7), NEITHER, 500, 33_333);
    assert_eq!(both, neither);
    assert_eq!(both, Some(units(7)));
}

#[test]
fn direction_of_keys() {
    assert_eq!(paddle_direction(LEFT), -1);
    assert_eq!(paddle_direction(RIGHT), 1);
    assert_eq!(paddle_direction(BOTH), 0);
    assert_eq!(paddle_direction(NEITHER), 0);
}

#[test]
fn paddle_moves_only_horizontally_and_alone() {
    let config = Config::standard();
    let ball = ball_at(units(5), units(6), 1, 1);
    let mut w = world_of(vec![ball, paddle_at(units(2))]);
    w.entities[1].position.y = units(-4);
    assert!(move_paddle(&mut w, LEFT, &config, ONE_SECOND));
    assert_eq!(w.entities[0], ball);
    assert_eq!(w.entities[1].position, Position { x: units(-498), y: units(-4), z: 0 });
}

#[test]
fn paddle_speed_comes_from_config() {
    let mut config = Config::standard();
    config.paddle_speed = 20;
    let mut w = world_of(vec![paddle_at(0)]);
    assert!(move_paddle(&mut w, RIGHT, &config, 250_000));
    assert_eq!(w.entities[0].position.x, units(5));
}

#[test]
fn paddle_past_range_does_not_move() {
    let config = Config::standard();
    let mut w = world_of(vec![paddle_at(i64::MAX - 10)]);
    assert!(!move_paddle(&mut w, RIGHT, &config, 1));
    assert_eq!(w.entities[0].position.x, i64::MAX - 10);
    assert!(move_paddle(&mut w, LEFT, &config, 1));
    assert_eq!(w.entities[0].position.x, i64::MAX - 10 - 500_000);
}

#[test]
fn integration_uses_velocity_and_keeps_depth() {
    let mut w = world_of(vec![ball_at(units(1), units(2), -3_000, 4_500)]);
    assert!(apply_velocity(&mut w, 2 * ONE_SECOND));
    assert_eq!(w.entities[0].position, Position { x: units(-5), y: units(11), z: units(1) });
    assert_eq!(w.entities[0].velocity, Some(Velocity { x: -3_000, y: 4_500 }));
}

#[test]
fn integration_moves_every_body_and_skips_the_rest() {
    let paddle = paddle_at(units(9));
    let mut w = world_of(vec![
        ball_at(0, 0, 1_000, 0),
        paddle,
        ball_at(units(1), units(1), 0, -2_000),
    ]);
    assert!(apply_velocity(&mut w, ONE_SECOND));
    assert_eq!(w.entities[0].position.x, units(1));
    assert_eq!(w.entities[1], paddle);
    assert_eq!(w.entities[2].position.y, units(-1));
}

#[test]
fn zero_tick_changes_nothing() {
    let config = Config::standard();
    let mut w = setup(&config);
    let before = w.entities.clone();
    assert!(apply_velocity(&mut w, 0));
    assert_eq!(w.entities, before);
    assert!(move_paddle(&mut w, LEFT, &config, 0));
    assert_eq!(w.entities, before);
}

#[test]
fn integration_past_range_keeps_only_that_body() {
    let edge = ball_at(0, i64::MIN + 5, 0, -10);
    let mut w = world_of(vec![ball_at(0, 0, 1_000, 0), edge]);
    assert!(!apply_velocity(&mut w, 1));
    assert_eq!(w.entities[0].position.x, 1_000);
    assert_eq!(w.entities[1], edge);
}

#[test]
fn body_moves_the_same_beside_others() {
    let mut alone = world_of(vec![ball_at(0, 0, 1_000, 0)]);
    let mut crowded = world_of(vec![ball_at(0, i64::MIN + 5, 0, -10), ball_at(0, 0, 1_000, 0)]);
    apply_velocity(&mut alone, 1);
    apply_velocity(&mut crowded, 1);
    assert_eq!(alone.entities[0], crowded.entities[1]);
}

#[test]
fn empty_world_integrates() {
    let mut w = World::new();
    assert!(apply_velocity(&mut w, ONE_SECOND));
    assert_eq!(w.len(), 0);
}

#[test]
fn standard_scene() {
    let w = setup(&Config::standard());
    assert_eq!(w.len(), 3);
    assert_eq!(w.entities[0].role, Role::Camera);
    let p = w.single(Role::Paddle).unwrap();
    let b = w.single(Role::Ball).unwrap();
    let paddle = w.entities[p];
    assert_eq!(paddle.position, Position { x: 0, y: 0, z: 0 });
    assert_eq!(
        paddle.sprite,
        Some(Sprite {
            size: Size { width: units(120), height: units(20) },
            color: Rgb { r: 300, g: 300, b: 700 },
            texture: Texture::Solid,
        })
    );
    assert_eq!(paddle.velocity, None);
    let ball = w.entities[b];
    assert_eq!(ball.position, Position { x: 0, y: units(-50), z: units(1) });
    assert_eq!(ball.sprite.unwrap().size, Size { width: units(30), height: units(30) });
    assert_eq!(ball.sprite.unwrap().texture, Texture::Circle);
    // (0.5, -0.5) times 400 units per second, kept unnormalised.
    assert_eq!(ball.velocity, Some(Velocity { x: 200_000, y: -200_000 }));
}

#[test]
fn scene_follows_config() {
    let mut config = Config::standard();
    config.paddle_start_y = units(-200);
    config.ball_speed = 10;
    config.ball_direction = Heading { x: -1_000, y: 250 };
    let w = setup(&config);
    assert_eq!(w.entities[1].position.y, units(-200));
    assert_eq!(w.entities[2].velocity, Some(Velocity { x: -10_000, y: 2_500 }));
}

#[test]
fn default_config_is_standard() {
    assert_eq!(Config::default(), Config::standard());
    assert_eq!(Config::standard().ball_start_velocity(), Velocity { x: 200_000, y: -200_000 });
    assert_eq!(Config::standard().clear_color, Rgb { r: 900, g: 900, b: 900 });
}

#[test]
fn single_finds_sole_entity_only() {
    assert_eq!(World::new().single(Role::Paddle), None);
    let two = world_of(vec![paddle_at(0), ball_at(0, 0, 0, 0), paddle_at(1)]);
    assert_eq!(two.single(Role::Paddle), None);
    assert_eq!(two.single(Role::Ball), Some(1));
    let mut w = World::new();
    w.spawn(ball_at(0, 0, 0, 0));
    w.spawn(paddle_at(0));
    assert_eq!(w.single(Role::Paddle), Some(1));
}

#[test]
fn coordinate_step_is_exact() {
    assert_eq!(advance_coordinate(5, -7, 3), Some(-16));
    assert_eq!(advance_coordinate(i64::MAX, 1, 1), None);
    assert_eq!(advance_coordinate(i64::MIN, -1, 0), Some(i64::MIN));
    assert_eq!(advance_coordinate(0, i64::MAX, u64::MAX), None);
}

#[test]
fn body_without_velocity_is_unchanged() {
    let p = paddle_at(units(4));
    assert_eq!(advance_entity(p, ONE_SECOND), Some(p));
    let moved = advance_entity(ball_at(0, 0, 2, 3), 10).unwrap();
    assert_eq!(moved.position, Position { x: 20, y: 30, z: units(1) });
}
