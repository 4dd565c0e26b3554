use rover_game::physics::{
    MAX_HEIGHT, MIN_HEIGHT, NUM_SAMPLES, OBSTACLE_MARGIN, OBSTACLE_RADIUS_MAX,
    OBSTACLE_RADIUS_MIN, OFFSET_MAX, OFFSET_MIN, SEGMENT_WIDTH, TERRAIN_SEED,
};
use rover_game::rover::{Rover, Vec2};
use rover_game::terrain::{Draws, Terrain, NUM_CANDIDATES, NUM_DELTAS};

/// A hand-made set of draws: flat ground stepping up once, and obstacles
/// only where `rolls` marks them.
fn crafted_draws(first_delta: i64, obstacle_candidates: &[usize]) -> Draws {
    let mut deltas = vec![0i64; NUM_DELTAS];
    deltas[0] = first_delta;
    let mut rolls = vec![99i64; NUM_CANDIDATES];
    for &c in obstacle_candidates {
        rolls[c] = 0;
    }
    Draws {
        deltas,
        rolls,
        offsets: vec![50_000i64; NUM_CANDIDATES],
        radii: vec![30_000i64; NUM_CANDIDATES],
    }
}

#[test]
fn same_seed_same_terrain() {
    let t1 = Terrain::new();
    let t2 = Terrain::new();
    assert_eq!(t1.ground_points(), t2.ground_points());
    assert_eq!(t1.obstacles(), t2.obstacles());
}

#[test]
fn same_seed_same_draws() {
    let d1 = Terrain::sample_draws(TERRAIN_SEED);
    let d2 = Terrain::sample_draws(TERRAIN_SEED);
    assert_eq!(d1.deltas, d2.deltas);
    assert_eq!(d1.rolls, d2.rolls);
    assert_eq!(d1.offsets, d2.offsets);
    assert_eq!(d1.radii, d2.radii);
}

#[test]
fn draws_are_in_range_and_vary() {
    let d = Terrain::sample_draws(TERRAIN_SEED);
    assert_eq!(d.deltas.len(), NUM_DELTAS);
    assert_eq!(d.rolls.len(), NUM_CANDIDATES);
    assert_eq!(d.offsets.len(), NUM_CANDIDATES);
    assert_eq!(d.radii.len(), NUM_CANDIDATES);
    for &v in &d.deltas {
        assert!((-50_000..50_000).contains(&v));
    }
    for &v in &d.rolls {
        assert!((0..100).contains(&v));
    }
    for &v in &d.offsets {
        assert!((OFFSET_MIN..OFFSET_MAX).contains(&v));
    }
    for &v in &d.radii {
        assert!((OBSTACLE_RADIUS_MIN..OBSTACLE_RADIUS_MAX).contains(&v));
    }
    // A generator that echoed a range bound back would fail these.
    assert!(d.deltas.iter().any(|&v| v != d.deltas[0]));
    assert!(d.rolls.iter().any(|&v| v != d.rolls[0]));
}

#[test]
fn heights_stay_in_band() {
    let t = Terrain::new();
    let points = t.ground_points();
    assert_eq!(points.len(), NUM_SAMPLES);
    for &h in points.iter() {
        assert!(h >= MIN_HEIGHT && h <= MAX_HEIGHT);
    }
}

#[test]
fn obstacles_sit_above_interior_samples() {
    let t = Terrain::new();
    let points = t.ground_points();
    for ob in t.obstacles().iter() {
        assert_eq!(ob.position.x % SEGMENT_WIDTH, 0);
        let index = (ob.position.x / SEGMENT_WIDTH) as usize;
        assert!(index >= OBSTACLE_MARGIN && index < NUM_SAMPLES - OBSTACLE_MARGIN);
        let ground = points[index];
        assert!(ob.position.y > ground - OFFSET_MAX);
        assert!(ob.position.y <= ground - OFFSET_MIN);
        assert!(ob.radius >= OBSTACLE_RADIUS_MIN && ob.radius < OBSTACLE_RADIUS_MAX);
    }
}

#[test]
fn ground_height_at_sample_boundaries() {
    let t = Terrain::from_draws(&crafted_draws(30_000, &[]));
    // Samples 0..=9 sit at the base height, samples 10.. at the stepped one.
    assert_eq!(t.get_ground_y(0), 500_000);
    assert_eq!(t.get_ground_y(9 * SEGMENT_WIDTH), 500_000);
    assert_eq!(t.get_ground_y(10 * SEGMENT_WIDTH), 530_000);
    assert_eq!(t.get_ground_y(11 * SEGMENT_WIDTH), 530_000);
}

#[test]
fn ground_height_interpolates_between_samples() {
    let t = Terrain::from_draws(&crafted_draws(30_000, &[]));
    // Midpoint of the rising segment between samples 9 and 10.
    assert_eq!(t.get_ground_y(9 * SEGMENT_WIDTH + SEGMENT_WIDTH / 2), 515_000);
    // A fifth of the way up the same segment.
    assert_eq!(t.get_ground_y(9 * SEGMENT_WIDTH + 10_000), 506_000);
    // Flat segments interpolate to the shared sample value.
    assert_eq!(t.get_ground_y(3 * SEGMENT_WIDTH + 12_345), 500_000);
}

#[test]
fn ground_height_past_last_sample_is_last_value() {
    let t = Terrain::from_draws(&crafted_draws(30_000, &[]));
    let last = (NUM_SAMPLES as i64 - 1) * SEGMENT_WIDTH;
    assert_eq!(t.get_ground_y(last), 530_000);
    assert_eq!(t.get_ground_y(last + 17), 530_000);
    assert_eq!(t.get_ground_y(10 * last), 530_000);
}

#[test]
fn obstacle_collision_is_strict_circle_overlap() {
    // One obstacle at candidate 0: sample index 5, x = 250_000,
    // y = 500_000 - 50_000 = 450_000, radius 30_000; rover radius 15_000.
    let t = Terrain::from_draws(&crafted_draws(0, &[0]));
    let sum = 45_000;
    let clear = Rover::new(Vec2 { x: 250_000, y: 450_000 - sum - 1_000 });
    assert!(!t.check_obstacle_collision(&clear));
    let touching = Rover::new(Vec2 { x: 250_000, y: 450_000 - sum });
    assert!(!t.check_obstacle_collision(&touching));
    let overlapping = Rover::new(Vec2 { x: 250_000, y: 450_000 - sum + 1_000 });
    assert!(t.check_obstacle_collision(&overlapping));
    let sideways = Rover::new(Vec2 { x: 250_000 + sum - 1_000, y: 450_000 });
    assert!(t.check_obstacle_collision(&sideways));
    let far = Rover::new(Vec2 { x: 1_000_000, y: 450_000 });
    assert!(!t.check_obstacle_collision(&far));
}

#[test]
fn different_seeds_differ() {
    let d1 = Terrain::sample_draws(TERRAIN_SEED);
    let d2 = Terrain::sample_draws(TERRAIN_SEED + 1);
    assert_ne!(d1.deltas, d2.deltas);
}
