//! Seeded terrain: a height profile sampled at fixed spacing, and a
//! sparse set of round obstacles sitting above the ground.
//!
//! Generation splits in two: drawing the raw random material from a
//! seeded generator (`sample_draws`), and building the terrain from it
//! (`from_draws`), a pure function with an exact contract. Heights take a
//! random step every `PERTURB_PERIOD` samples and are clamped into the
//! `[MIN_HEIGHT, MAX_HEIGHT]` band; obstacles appear with a fixed
//! per-index chance in the interior index range only.

use vstd::prelude::*;
use crate::numeric::{clamp_spec, mul_div_spec, clamp_i64, mul_div, lemma_mul_div_fraction};
use crate::rover::{Vec2, Rover, RoverV, rover_wf};
use crate::rng::{rng_from_seed, gen_range_i64};
use crate::physics::{
    SEGMENT_WIDTH, NUM_SAMPLES, PERTURB_PERIOD, BASE_HEIGHT, MIN_HEIGHT, MAX_HEIGHT,
    DELTA_RANGE, OBSTACLE_MARGIN, ROLL_RANGE, OBSTACLE_PROB, OFFSET_MIN, OFFSET_MAX,
    OBSTACLE_RADIUS_MIN, OBSTACLE_RADIUS_MAX, TERRAIN_SEED,
};

verus! {

/// Height deltas are drawn at sample indices 10, 20, ..., one per period
/// after the first sample.
pub const NUM_DELTAS: usize = NUM_SAMPLES / PERTURB_PERIOD - 1;

/// Sample indices that may carry an obstacle: the interior range,
/// excluding the margin at each end.
pub const NUM_CANDIDATES: usize = NUM_SAMPLES - 2 * OBSTACLE_MARGIN;

#[derive(Clone, Copy, PartialEq, Eq, Structural, Debug)]
pub struct Obstacle {
    pub position: Vec2,
    pub radius: i64,
}

/// Mathematical state of an obstacle.
pub ghost struct ObstacleV {
    pub pos_x: int,
    pub pos_y: int,
    pub radius: int,
}

impl View for Obstacle {
    type V = ObstacleV;

    open spec fn view(&self) -> ObstacleV {
        ObstacleV {
            pos_x: self.position.x as int,
            pos_y: self.position.y as int,
            radius: self.radius as int,
        }
    }
}

/// The raw random material of one terrain: height deltas, and one
/// placement roll, ground offset and radius per candidate index.
pub struct Draws {
    pub deltas: Vec<i64>,
    pub rolls: Vec<i64>,
    pub offsets: Vec<i64>,
    pub radii: Vec<i64>,
}

/// Mathematical state of the raw random material.
pub ghost struct DrawsV {
    pub deltas: Seq<i64>,
    pub rolls: Seq<i64>,
    pub offsets: Seq<i64>,
    pub radii: Seq<i64>,
}

impl View for Draws {
    type V = DrawsV;

    open spec fn view(&self) -> DrawsV {
        DrawsV {
            deltas: self.deltas@,
            rolls: self.rolls@,
            offsets: self.offsets@,
            radii: self.radii@,
        }
    }
}

/// Each draw lies in its documented range, and there is one delta per
/// perturbation point and one roll, offset and radius per candidate index.
pub open spec fn draws_wf(d: DrawsV) -> bool {
    &&& d.deltas.len() == NUM_DELTAS
    &&& d.rolls.len() == NUM_CANDIDATES
    &&& d.offsets.len() == NUM_CANDIDATES
    &&& d.radii.len() == NUM_CANDIDATES
    &&& forall|i: int| 0 <= i < d.deltas.len()
        ==> -(DELTA_RANGE as int) <= #[trigger] d.deltas[i] < DELTA_RANGE as int
    &&& forall|i: int| 0 <= i < d.rolls.len() ==> 0 <= #[trigger] d.rolls[i] < ROLL_RANGE as int
    &&& forall|i: int| 0 <= i < d.offsets.len()
        ==> OFFSET_MIN as int <= #[trigger] d.offsets[i] < OFFSET_MAX as int
    &&& forall|i: int| 0 <= i < d.radii.len()
        ==> OBSTACLE_RADIUS_MIN as int <= #[trigger] d.radii[i] < OBSTACLE_RADIUS_MAX as int
}

/// Height of sample `i`: the base height, stepped by the next delta and
/// clamped into the band at every `PERTURB_PERIOD`-th sample, and carried
/// unchanged between perturbation points.
pub open spec fn spec_height_at(deltas: Seq<i64>, i: nat) -> int
    decreases i,
{
    if i == 0 {
        BASE_HEIGHT as int
    } else if i % (PERTURB_PERIOD as nat) == 0 {
        clamp_spec(
            spec_height_at(deltas, (i - 1) as nat) + deltas[i as int / PERTURB_PERIOD as int - 1],
            MIN_HEIGHT as int,
            MAX_HEIGHT as int,
        )
    } else {
        spec_height_at(deltas, (i - 1) as nat)
    }
}

/// The full height profile of a terrain built from `deltas`.
pub open spec fn spec_heights(deltas: Seq<i64>) -> Seq<int> {
    Seq::new(NUM_SAMPLES as nat, |i: int| spec_height_at(deltas, i as nat))
}

/// The obstacles over the first `k` candidate indices: one at each index
/// whose roll falls below `OBSTACLE_PROB`, centred above the ground there
/// by the drawn offset, with the drawn radius.
pub open spec fn spec_obstacles_upto(d: DrawsV, heights: Seq<int>, k: nat) -> Seq<ObstacleV>
    decreases k,
{
    if k == 0 {
        Seq::empty()
    } else {
        let prev = spec_obstacles_upto(d, heights, (k - 1) as nat);
        let i = OBSTACLE_MARGIN as int + (k - 1);
        if d.rolls[k - 1] < OBSTACLE_PROB as int {
            prev.push(ObstacleV {
                pos_x: i * SEGMENT_WIDTH as int,
                pos_y: heights[i] - d.offsets[k - 1],
                radius: d.radii[k - 1] as int,
            })
        } else {
            prev
        }
    }
}

/// Mathematical state of a terrain.
pub ghost struct TerrainV {
    pub heights: Seq<int>,
    pub obstacles: Seq<ObstacleV>,
    pub segment_width: int,
}

/// The terrain that a well-formed set of draws generates.
pub open spec fn spec_terrain(d: DrawsV) -> TerrainV {
    TerrainV {
        heights: spec_heights(d.deltas),
        obstacles: spec_obstacles_upto(d, spec_heights(d.deltas), NUM_CANDIDATES as nat),
        segment_width: SEGMENT_WIDTH as int,
    }
}

pub struct Terrain {
    ground_points: Vec<i64>,
    obstacles: Vec<Obstacle>,
    segment_width: i64,
}

impl View for Terrain {
    type V = TerrainV;

    closed spec fn view(&self) -> TerrainV {
        TerrainV {
            heights: self.ground_points@.map_values(|h: i64| h as int),
            obstacles: self.obstacles@.map_values(|o: Obstacle| o@),
            segment_width: self.segment_width as int,
        }
    }
}

/// The terrain's invariant: the fixed sample count and spacing, every
/// height inside the band, and every obstacle inside the world's bounds
/// with its documented radius range.
pub open spec fn terrain_wf(t: TerrainV) -> bool {
    &&& t.segment_width == SEGMENT_WIDTH as int
    &&& t.heights.len() == NUM_SAMPLES
    &&& forall|i: int| 0 <= i < t.heights.len()
        ==> MIN_HEIGHT as int <= #[trigger] t.heights[i] <= MAX_HEIGHT as int
    &&& forall|k: int| 0 <= k < t.obstacles.len() ==> {
        let o = #[trigger] t.obstacles[k];
        &&& 0 <= o.pos_x <= NUM_SAMPLES as int * SEGMENT_WIDTH as int
        &&& (MIN_HEIGHT as int - OFFSET_MAX as int) < o.pos_y
        &&& o.pos_y <= (MAX_HEIGHT as int - OFFSET_MIN as int)
        &&& OBSTACLE_RADIUS_MIN as int <= o.radius < OBSTACLE_RADIUS_MAX as int
    }
}

/// Ground height at horizontal position `x`: the enclosing segment's two
/// sample heights, linearly interpolated by the offset within the
/// segment; past the last sample, the last sample's height.
pub open spec fn spec_ground_height(t: TerrainV, x: int) -> int {
    let seg = x / t.segment_width;
    if seg + 1 < t.heights.len() {
        let off = x % t.segment_width;
        t.heights[seg] + mul_div_spec(t.heights[seg + 1] - t.heights[seg], off, t.segment_width)
    } else {
        t.heights[t.heights.len() - 1]
    }
}

/// Two circles overlap iff their centre distance is below the sum of
/// their radii (stated on squares: no square root is needed).
pub open spec fn spec_circles_overlap(
    ax: int, ay: int, ar: int, bx: int, by: int, br: int,
) -> bool {
    (ax - bx) * (ax - bx) + (ay - by) * (ay - by) < (ar + br) * (ar + br)
}

/// True iff some obstacle of `t` overlaps the rover's circle.
pub open spec fn spec_obstacle_hit(t: TerrainV, r: RoverV) -> bool {
    exists|k: int|
        0 <= k < t.obstacles.len() && spec_circles_overlap(
            r.pos_x,
            r.pos_y,
            r.radius,
            (#[trigger] t.obstacles[k]).pos_x,
            t.obstacles[k].pos_y,
            t.obstacles[k].radius,
        )
}

/// Every height sample lies in the clamp band.
pub proof fn lemma_height_in_band(deltas: Seq<i64>, i: nat)
    ensures
        MIN_HEIGHT as int <= spec_height_at(deltas, i) <= MAX_HEIGHT as int,
    decreases i,
{
    if i > 0 {
        lemma_height_in_band(deltas, (i - 1) as nat);
    }
}

/// At an exact sample boundary, the ground height is that sample's
/// value, exactly.
pub proof fn lemma_ground_height_at_sample(t: TerrainV, i: int)
    requires
        terrain_wf(t),
        0 <= i < t.heights.len(),
    ensures
        spec_ground_height(t, i * SEGMENT_WIDTH as int) == t.heights[i],
{
    let w = SEGMENT_WIDTH as int;
    let x = i * w;
    assert(x / w == i && x % w == 0) by (nonlinear_arith)
        requires w > 0 && x == i * w && i >= 0;
    if i + 1 < t.heights.len() {
        let d = t.heights[i + 1] - t.heights[i];
        assert(d * 0 == 0) by (nonlinear_arith);
        assert((-d) * 0 == 0) by (nonlinear_arith);
        assert(0int / w == 0) by (nonlinear_arith)
            requires w > 0;
        assert(mul_div_spec(d, 0, w) == 0);
    }
}

/// At the midpoint of a segment whose endpoint heights sum to an even
/// number, the ground height is exactly their average.
pub proof fn lemma_ground_height_midpoint(t: TerrainV, i: int)
    requires
        terrain_wf(t),
        0 <= i,
        i + 1 < t.heights.len(),
        (t.heights[i] + t.heights[i + 1]) % 2 == 0,
    ensures
        spec_ground_height(t, i * SEGMENT_WIDTH as int + SEGMENT_WIDTH as int / 2)
            == (t.heights[i] + t.heights[i + 1]) / 2,
{
    let w = SEGMENT_WIDTH as int;
    let h = w / 2;
    let x = i * w + h;
    assert(x / w == i && x % w == h) by (nonlinear_arith)
        requires w > 0 && 0 <= h < w && x == i * w + h && i >= 0;
    let a = t.heights[i];
    let b = t.heights[i + 1];
    let d = b - a;
    assert(d % 2 == 0);
    if d >= 0 {
        assert((d * h) / w == d / 2) by (nonlinear_arith)
            requires d >= 0 && d % 2 == 0 && h == 25_000 && w == 50_000;
    } else {
        let e = -d;
        assert((e * h) / w == e / 2) by (nonlinear_arith)
            requires e >= 0 && e % 2 == 0 && h == 25_000 && w == 50_000;
        assert(e / 2 == -(d / 2));
    }
    assert(a + d / 2 == (a + b) / 2);
}

/// Generation is a pure function of the drawn random material: equal
/// draws give identical terrains — with one seed, every generation lays
/// out the same world.
pub proof fn lemma_generation_deterministic(d1: DrawsV, d2: DrawsV)
    requires
        d1 == d2,
    ensures
        spec_terrain(d1) == spec_terrain(d2),
{
}

impl Terrain {
    /// Draw the raw random material of one terrain from a seeded
    /// generator: all height deltas first, then the roll, offset and
    /// radius of each candidate index, in ascending index order.
    pub fn sample_draws(seed: u64) -> (d: Draws)
        ensures
            draws_wf(d@),
    {
        let mut rng = rng_from_seed(seed);
        let mut deltas: Vec<i64> = Vec::new();
        let mut k: usize = 0;
        while k < NUM_DELTAS
            invariant
                k <= NUM_DELTAS,
                deltas@.len() == k,
                forall|i: int| 0 <= i < k
                    ==> -(DELTA_RANGE as int) <= #[trigger] deltas@[i] < DELTA_RANGE as int,
            decreases NUM_DELTAS - k,
        {
            let v = gen_range_i64(&mut rng, -DELTA_RANGE, DELTA_RANGE);
            deltas.push(v);
            k = k + 1;
        }
        let mut rolls: Vec<i64> = Vec::new();
        let mut offsets: Vec<i64> = Vec::new();
        let mut radii: Vec<i64> = Vec::new();
        let mut c: usize = 0;
        while c < NUM_CANDIDATES
            invariant
                c <= NUM_CANDIDATES,
                rolls@.len() == c,
                offsets@.len() == c,
                radii@.len() == c,
                forall|i: int| 0 <= i < c ==> 0 <= #[trigger] rolls@[i] < ROLL_RANGE as int,
                forall|i: int| 0 <= i < c
                    ==> OFFSET_MIN as int <= #[trigger] offsets@[i] < OFFSET_MAX as int,
                forall|i: int| 0 <= i < c
                    ==> OBSTACLE_RADIUS_MIN as int <= #[trigger] radii@[i] < OBSTACLE_RADIUS_MAX as int,
            decreases NUM_CANDIDATES - c,
        {
            let roll = gen_range_i64(&mut rng, 0, ROLL_RANGE);
            let off = gen_range_i64(&mut rng, OFFSET_MIN, OFFSET_MAX);
            let rad = gen_range_i64(&mut rng, OBSTACLE_RADIUS_MIN, OBSTACLE_RADIUS_MAX);
            rolls.push(roll);
            offsets.push(off);
            radii.push(rad);
            c = c + 1;
        }
        Draws { deltas, rolls, offsets, radii }
    }

    /// Build the terrain that a set of draws describes: the exact height
    /// profile and obstacle set of `spec_terrain`.
    pub fn from_draws(d: &Draws) -> (t: Terrain)
        requires
            draws_wf(d@),
        ensures
            t@ == spec_terrain(d@),
            terrain_wf(t@),
    {
        let mut ground_points: Vec<i64> = Vec::new();
        let mut current: i64 = BASE_HEIGHT;
        let mut i: usize = 0;
        while i < NUM_SAMPLES
            invariant
                draws_wf(d@),
                i <= NUM_SAMPLES,
                ground_points@.len() == i,
                current as int == (if i == 0 {
                    BASE_HEIGHT as int
                } else {
                    spec_height_at(d@.deltas, (i - 1) as nat)
                }),
                MIN_HEIGHT <= current <= MAX_HEIGHT,
                forall|j: int| 0 <= j < i
                    ==> #[trigger] ground_points@[j] as int == spec_height_at(d@.deltas, j as nat),
                forall|j: int| 0 <= j < i
                    ==> MIN_HEIGHT <= #[trigger] ground_points@[j] <= MAX_HEIGHT,
            decreases NUM_SAMPLES - i,
        {
            if i > 0 && i % PERTURB_PERIOD == 0 {
                current = clamp_i64(current + d.deltas[i / PERTURB_PERIOD - 1], MIN_HEIGHT, MAX_HEIGHT);
            }
            ground_points.push(current);
            i = i + 1;
        }
        let ghost heights_v = ground_points@.map_values(|h: i64| h as int);
        proof {
            assert(heights_v =~= spec_heights(d@.deltas));
        }
        let mut obstacles: Vec<Obstacle> = Vec::new();
        let mut k: usize = 0;
        while k < NUM_CANDIDATES
            invariant
                draws_wf(d@),
                k <= NUM_CANDIDATES,
                ground_points@.len() == NUM_SAMPLES,
                forall|j: int| 0 <= j < NUM_SAMPLES
                    ==> MIN_HEIGHT <= #[trigger] ground_points@[j] <= MAX_HEIGHT,
                heights_v == ground_points@.map_values(|h: i64| h as int),
                heights_v == spec_heights(d@.deltas),
                obstacles@.map_values(|o: Obstacle| o@) == spec_obstacles_upto(d@, heights_v, k as nat),
                forall|j: int| 0 <= j < obstacles@.len() ==> {
                    let o = (#[trigger] obstacles@[j])@;
                    &&& 0 <= o.pos_x <= NUM_SAMPLES as int * SEGMENT_WIDTH as int
                    &&& (MIN_HEIGHT as int - OFFSET_MAX as int) < o.pos_y
                    &&& o.pos_y <= (MAX_HEIGHT as int - OFFSET_MIN as int)
                    &&& OBSTACLE_RADIUS_MIN as int <= o.radius < OBSTACLE_RADIUS_MAX as int
                },
            decreases NUM_CANDIDATES - k,
        {
            let i = OBSTACLE_MARGIN + k;
            if d.rolls[k] < OBSTACLE_PROB {
                let ob = Obstacle {
                    position: Vec2 {
                        x: (i as i64) * SEGMENT_WIDTH,
                        y: ground_points[i] - d.offsets[k],
                    },
                    radius: d.radii[k],
                };
                obstacles.push(ob);
                proof {
                    assert(heights_v[i as int] == ground_points@[i as int] as int);
                    assert(obstacles@.map_values(|o: Obstacle| o@)
                        =~= spec_obstacles_upto(d@, heights_v, (k + 1) as nat));
                }
            } else {
                proof {
                    assert(obstacles@.map_values(|o: Obstacle| o@)
                        =~= spec_obstacles_upto(d@, heights_v, (k + 1) as nat));
                }
            }
            k = k + 1;
        }
        let t = Terrain { ground_points, obstacles, segment_width: SEGMENT_WIDTH };
        proof {
            assert(t@.heights =~= spec_terrain(d@).heights);
            assert(t@.obstacles =~= spec_terrain(d@).obstacles);
            assert forall|k2: int| 0 <= k2 < t@.obstacles.len() implies {
                let o = #[trigger] t@.obstacles[k2];
                &&& 0 <= o.pos_x <= NUM_SAMPLES as int * SEGMENT_WIDTH as int
                &&& (MIN_HEIGHT as int - OFFSET_MAX as int) < o.pos_y
                &&& o.pos_y <= (MAX_HEIGHT as int - OFFSET_MIN as int)
                &&& OBSTACLE_RADIUS_MIN as int <= o.radius < OBSTACLE_RADIUS_MAX as int
            } by {
                assert(t@.obstacles[k2] == t.obstacles@[k2]@);
            }
        }
        t
    }

    /// A terrain generated from `seed`: some well-formed set of draws,
    /// taken from the seeded generator, built into its terrain.
    pub fn from_seed(seed: u64) -> (t: Terrain)
        ensures
            exists|d: DrawsV| draws_wf(d) && t@ == spec_terrain(d),
            terrain_wf(t@),
    {
        let draws = Terrain::sample_draws(seed);
        let t = Terrain::from_draws(&draws);
        proof {
            assert(draws_wf(draws@) && t@ == spec_terrain(draws@));
        }
        t
    }

    /// The session's terrain: generated from the fixed seed, so that
    /// every run and every restart lays out the same world.
    pub fn new() -> (t: Terrain)
        ensures
            exists|d: DrawsV| draws_wf(d) && t@ == spec_terrain(d),
            terrain_wf(t@),
    {
        Terrain::from_seed(TERRAIN_SEED)
    }

    /// Ground height at `x`, by linear interpolation within the enclosing
    /// segment; past the last sample, the last sample's height. The
    /// result stays inside the height band.
    pub fn get_ground_y(&self, x: i64) -> (y: i64)
        requires
            terrain_wf(self@),
            0 <= x,
        ensures
            y as int == spec_ground_height(self@, x as int),
            MIN_HEIGHT <= y <= MAX_HEIGHT,
    {
        proof {
            assert(self@.heights.len() == self.ground_points@.len());
        }
        let seg = x / SEGMENT_WIDTH;
        if seg + 1 < NUM_SAMPLES as i64 {
            let s = seg as usize;
            let off = x % SEGMENT_WIDTH;
            let y1 = self.ground_points[s];
            let y2 = self.ground_points[s + 1];
            proof {
                assert(self@.heights[seg as int] == self.ground_points@[seg as int] as int);
                assert(self@.heights[seg as int + 1] == self.ground_points@[seg as int + 1] as int);
                lemma_mul_div_fraction(y2 as int - y1 as int, off as int, SEGMENT_WIDTH as int);
                assert({
                    &&& (y2 as int - y1 as int) * off as int <= 0x7fff_ffff_ffff_ffff
                    &&& -0x7fff_ffff_ffff_ffff <= (y2 as int - y1 as int) * off as int
                }) by (nonlinear_arith)
                    requires
                        -250_000 <= y2 as int - y1 as int <= 250_000,
                        0 <= off as int <= 50_000;
            }
            y1 + mul_div(y2 - y1, off, SEGMENT_WIDTH)
        } else {
            proof {
                assert(self@.heights[NUM_SAMPLES - 1] == self.ground_points@[NUM_SAMPLES - 1] as int);
            }
            self.ground_points[NUM_SAMPLES - 1]
        }
    }

    /// True iff some obstacle overlaps the rover's circle: the
    /// centre-to-centre distance is below the sum of the two radii.
    pub fn check_obstacle_collision(&self, rover: &Rover) -> (hit: bool)
        requires
            terrain_wf(self@),
            rover_wf(rover@),
        ensures
            hit == spec_obstacle_hit(self@, rover@),
    {
        let mut k: usize = 0;
        while k < self.obstacles.len()
            invariant
                terrain_wf(self@),
                rover_wf(rover@),
                k <= self.obstacles.len(),
                forall|j: int| 0 <= j < k ==> !spec_circles_overlap(
                    rover@.pos_x,
                    rover@.pos_y,
                    rover@.radius,
                    (#[trigger] self@.obstacles[j]).pos_x,
                    self@.obstacles[j].pos_y,
                    self@.obstacles[j].radius,
                ),
            decreases self.obstacles.len() - k,
        {
            let ob = &self.obstacles[k];
            proof {
                assert(self@.obstacles[k as int] == self.obstacles@[k as int]@);
            }
            let ghost o = self@.obstacles[k as int];
            let r_sum = rover.radius + ob.radius;
            let dx = rover.position.x - ob.position.x;
            let dy = rover.position.y - ob.position.y;
            let hit_k: bool;
            if -r_sum < dx && dx < r_sum && -r_sum < dy && dy < r_sum {
                proof {
                    assert({
                        &&& 0 <= dx as int * dx as int <= 3_025_000_000
                        &&& 0 <= dy as int * dy as int <= 3_025_000_000
                        &&& 0 <= r_sum as int * r_sum as int <= 3_025_000_000
                    }) by (nonlinear_arith)
                        requires
                            -55_000 <= dx as int <= 55_000,
                            -55_000 <= dy as int <= 55_000,
                            0 <= r_sum as int <= 55_000;
                }
                hit_k = dx * dx + dy * dy < r_sum * r_sum;
            } else {
                proof {
                    let dxi = dx as int;
                    let dyi = dy as int;
                    let si = r_sum as int;
                    assert(dxi * dxi + dyi * dyi >= si * si) by (nonlinear_arith)
                        requires (dxi >= si || dxi <= -si || dyi >= si || dyi <= -si) && si >= 0;
                }
                hit_k = false;
            }
            proof {
                assert(hit_k == spec_circles_overlap(
                    rover@.pos_x, rover@.pos_y, rover@.radius, o.pos_x, o.pos_y, o.radius,
                ));
            }
            if hit_k {
                return true;
            }
            k = k + 1;
        }
        false
    }

    /// The height samples, for presentation and tests.
    pub fn ground_points(&self) -> (v: &Vec<i64>)
        ensures
            v@.map_values(|h: i64| h as int) == self@.heights,
    {
        &self.ground_points
    }

    /// The obstacles, for presentation and tests.
    pub fn obstacles(&self) -> (v: &Vec<Obstacle>)
        ensures
            v@.map_values(|o: Obstacle| o@) == self@.obstacles,
    {
        &self.obstacles
    }
}

} // verus!
