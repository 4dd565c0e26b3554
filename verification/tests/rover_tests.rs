use rover_game::physics::{MAX_FUEL, ROVER_RADIUS};
use rover_game::rover::{Rover, Vec2};

#[test]
fn new_rover_defaults() {
    let r = Rover::new(Vec2 { x: 200_000, y: 300_000 });
    assert_eq!(r.position, Vec2 { x: 200_000, y: 300_000 });
    assert_eq!(r.velocity, Vec2 { x: 0, y: 0 });
    assert_eq!(r.fuel, MAX_FUEL);
    assert_eq!(r.radius, ROVER_RADIUS);
    assert!(!r.on_ground);
}

#[test]
fn free_fall_gains_gravity_each_tick() {
    // GRAVITY = 200_000 mu/s^2 and dt = 100 ms: +20_000 mu/s per tick.
    let mut r = Rover::new(Vec2 { x: 200_000, y: 300_000 });
    let mut expected_vel = 0i64;
    let mut expected_pos = 300_000i64;
    for _ in 0..10 {
        r.update(100, false, false, false);
        expected_vel += 20_000;
        expected_pos += expected_vel / 10;
        assert_eq!(r.velocity.y, expected_vel);
        assert_eq!(r.position.y, expected_pos);
        assert!(!r.on_ground);
    }
    assert_eq!(r.velocity.y, 200_000);
    assert_eq!(r.position.y, 410_000);
    assert_eq!(r.fuel, MAX_FUEL);
}

#[test]
fn fuel_burns_linearly_under_thrust() {
    // FUEL_CONSUMPTION_RATE = 10_000 mu/s and dt = 100 ms: 1_000 mu per tick.
    let mut r = Rover::new(Vec2 { x: 200_000, y: 300_000 });
    for n in 1..=5i64 {
        r.update(100, true, false, false);
        assert_eq!(r.fuel, MAX_FUEL - n * 1_000);
    }
}

#[test]
fn fuel_never_goes_negative() {
    let mut r = Rover::new(Vec2 { x: 200_000, y: 300_000 });
    for _ in 0..200 {
        r.update(100, true, false, false);
        assert!(r.fuel >= 0);
    }
    assert_eq!(r.fuel, 0);
    // With the tank empty, thrust no longer fires and fuel stays at zero.
    let vy = r.velocity.y;
    r.update(100, true, false, false);
    assert_eq!(r.fuel, 0);
    assert_eq!(r.velocity.y, vy + 20_000);
}

#[test]
fn lateral_thrust_burns_half_rate_each_side() {
    let mut r = Rover::new(Vec2 { x: 200_000, y: 300_000 });
    r.update(100, false, true, true);
    // Each side burns 500 mu; the two thrusts cancel in velocity.
    assert_eq!(r.fuel, MAX_FUEL - 1_000);
    assert_eq!(r.velocity.x, 0);
}

#[test]
fn thrust_up_overcomes_gravity_and_clears_resting() {
    let mut r = Rover::new(Vec2 { x: 200_000, y: 300_000 });
    r.land(315_000);
    assert!(r.on_ground);
    // THRUST_POWER = 400_000 and gravity is skipped while resting:
    // one thrusting tick gives -40_000 mu/s.
    r.update(100, true, false, false);
    assert!(!r.on_ground);
    assert_eq!(r.velocity.y, -40_000);
}

#[test]
fn left_wall_clamps_position_and_velocity() {
    let mut r = Rover::new(Vec2 { x: 16_000, y: 300_000 });
    r.update(100, false, true, false);
    // Lateral thrust: -28_000, drag leaves -27_440, moving -2_744:
    // past the wall at 15_000, so the tick ends exactly on it.
    assert_eq!(r.position.x, ROVER_RADIUS);
    assert_eq!(r.velocity.x, 0);
    // Driving left again keeps it pinned there.
    r.update(100, false, true, false);
    assert_eq!(r.position.x, ROVER_RADIUS);
    assert_eq!(r.velocity.x, 0);
}

#[test]
fn drag_shrinks_horizontal_speed() {
    let mut r = Rover::new(Vec2 { x: 200_000, y: 300_000 });
    r.update(100, false, false, true);
    // +28_000 from thrust, then 98% drag.
    assert_eq!(r.velocity.x, 27_440);
    r.update(100, false, false, false);
    assert_eq!(r.velocity.x, 26_891);
}

#[test]
fn landing_snaps_and_is_idempotent() {
    let mut r = Rover::new(Vec2 { x: 200_000, y: 480_000 });
    r.update(100, false, false, false);
    assert!(!r.check_ground_collision(500_000));
    r.update(100, false, false, false);
    assert!(r.check_ground_collision(500_000));
    r.land(500_000);
    assert_eq!(r.position.y, 485_000);
    assert_eq!(r.velocity.y, 0);
    assert!(r.on_ground);
    // Landing again at the same ground line changes nothing.
    r.land(500_000);
    assert_eq!(r.position.y, 485_000);
    assert_eq!(r.velocity.y, 0);
    assert!(r.on_ground);
}

#[test]
fn resting_persists_without_thrust() {
    let mut r = Rover::new(Vec2 { x: 200_000, y: 485_000 });
    r.land(500_000);
    // No thrust: gravity is suppressed and the rover stays put.
    r.update(100, false, false, false);
    assert!(r.on_ground);
    assert_eq!(r.position.y, 485_000);
    assert_eq!(r.velocity.y, 0);
    // Lateral thrust alone does not clear the resting flag.
    r.update(100, false, false, true);
    assert!(r.on_ground);
    assert_eq!(r.velocity.y, 0);
    assert!(r.velocity.x > 0);
}
