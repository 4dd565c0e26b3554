//! The rover's kinematic and fuel model.
//!
//! Each tick applies, in this order: gravity (unless resting on the
//! ground), thrust with fuel burn, a fuel floor at zero, horizontal drag,
//! explicit Euler integration of the position, and the hard left wall at
//! `x = radius`. Speeds and positions saturate at `VEL_LIMIT` and
//! `POS_LIMIT`, the representable band of the fixed-point model.

use vstd::prelude::*;
use crate::numeric::{clamp_spec, mul_div_spec, clamp_i64, mul_div, lemma_mul_div_bound};
use crate::physics::{
    SCALE, GRAVITY, THRUST_POWER, MAX_FUEL, FUEL_CONSUMPTION_RATE, SIDE_THRUST_NUM,
    SIDE_THRUST_DEN, DRAG_NUM, DRAG_DEN, ROVER_RADIUS, MAX_DT, VEL_LIMIT, POS_LIMIT,
};

verus! {

/// A 2D point or vector in milli-units.
#[derive(Clone, Copy, PartialEq, Eq, Structural, Debug)]
pub struct Vec2 {
    pub x: i64,
    pub y: i64,
}

pub struct Rover {
    pub position: Vec2,
    pub velocity: Vec2,
    pub fuel: i64,
    pub radius: i64,
    pub on_ground: bool,
}

/// Mathematical state of a rover.
pub ghost struct RoverV {
    pub pos_x: int,
    pub pos_y: int,
    pub vel_x: int,
    pub vel_y: int,
    pub fuel: int,
    pub radius: int,
    pub on_ground: bool,
}

impl View for Rover {
    type V = RoverV;

    open spec fn view(&self) -> RoverV {
        RoverV {
            pos_x: self.position.x as int,
            pos_y: self.position.y as int,
            vel_x: self.velocity.x as int,
            vel_y: self.velocity.y as int,
            fuel: self.fuel as int,
            radius: self.radius as int,
            on_ground: self.on_ground,
        }
    }
}

/// The rover's invariant: full-to-empty fuel band, saturated speed and
/// position bands, and a position never left of the wall at `x = radius`.
pub open spec fn rover_wf(r: RoverV) -> bool {
    &&& r.radius == ROVER_RADIUS as int
    &&& 0 <= r.fuel <= MAX_FUEL as int
    &&& -(VEL_LIMIT as int) <= r.vel_x <= VEL_LIMIT as int
    &&& -(VEL_LIMIT as int) <= r.vel_y <= VEL_LIMIT as int
    &&& r.radius <= r.pos_x <= POS_LIMIT as int
    &&& -(POS_LIMIT as int) <= r.pos_y <= POS_LIMIT as int
}

/// Lateral thrust acceleration: a fixed fraction of the main thruster.
pub open spec fn spec_side_power() -> int {
    mul_div_spec(THRUST_POWER as int, SIDE_THRUST_NUM as int, SIDE_THRUST_DEN as int)
}

/// One tick of gravity, thrust, fuel, drag and integration — everything
/// but the left wall.
pub open spec fn spec_integrate(r: RoverV, dt: int, up: bool, left: bool, right: bool) -> RoverV {
    let vy_g = if !r.on_ground {
        r.vel_y + mul_div_spec(GRAVITY as int, dt, SCALE as int)
    } else {
        r.vel_y
    };
    let can_thrust = r.fuel > 0;
    let vy_t = if can_thrust && up {
        vy_g - mul_div_spec(THRUST_POWER as int, dt, SCALE as int)
    } else {
        vy_g
    };
    let fuel_up = if can_thrust && up {
        r.fuel - mul_div_spec(FUEL_CONSUMPTION_RATE as int, dt, SCALE as int)
    } else {
        r.fuel
    };
    let grounded = if can_thrust && up { false } else { r.on_ground };
    let side = mul_div_spec(spec_side_power(), dt, SCALE as int);
    let side_burn = mul_div_spec(FUEL_CONSUMPTION_RATE as int / 2, dt, SCALE as int);
    let vx_l = if can_thrust && left { r.vel_x - side } else { r.vel_x };
    let fuel_l = if can_thrust && left { fuel_up - side_burn } else { fuel_up };
    let vx_r = if can_thrust && right { vx_l + side } else { vx_l };
    let fuel_r = if can_thrust && right { fuel_l - side_burn } else { fuel_l };
    let fuel_c = if fuel_r < 0 { 0 } else { fuel_r };
    let vx = clamp_spec(
        mul_div_spec(vx_r, DRAG_NUM as int, DRAG_DEN as int),
        -(VEL_LIMIT as int),
        VEL_LIMIT as int,
    );
    let vy = clamp_spec(vy_t, -(VEL_LIMIT as int), VEL_LIMIT as int);
    RoverV {
        pos_x: clamp_spec(
            r.pos_x + mul_div_spec(vx, dt, SCALE as int),
            -(POS_LIMIT as int),
            POS_LIMIT as int,
        ),
        pos_y: clamp_spec(
            r.pos_y + mul_div_spec(vy, dt, SCALE as int),
            -(POS_LIMIT as int),
            POS_LIMIT as int,
        ),
        vel_x: vx,
        vel_y: vy,
        fuel: fuel_c,
        radius: r.radius,
        on_ground: grounded,
    }
}

/// The hard left wall: a position left of `x = radius` ends the tick at
/// exactly `x = radius` with the horizontal speed zeroed.
pub open spec fn spec_wall(m: RoverV) -> RoverV {
    if m.pos_x < m.radius {
        RoverV { pos_x: m.radius, vel_x: 0, ..m }
    } else {
        m
    }
}

/// One full tick of the rover.
pub open spec fn spec_update(r: RoverV, dt: int, up: bool, left: bool, right: bool) -> RoverV {
    spec_wall(spec_integrate(r, dt, up, left, right))
}

/// True iff the rover's lower rim is at or below the ground line.
pub open spec fn spec_touches_ground(r: RoverV, ground_y: int) -> bool {
    r.pos_y + r.radius >= ground_y
}

/// Snap onto the ground: rim on the ground line, vertical speed zeroed,
/// resting.
pub open spec fn spec_land(r: RoverV, ground_y: int) -> RoverV {
    RoverV { pos_y: ground_y - r.radius, vel_y: 0, on_ground: true, ..r }
}

impl Rover {
    /// A fresh rover at `position`: at rest, full tank, not on the ground.
    pub fn new(position: Vec2) -> (r: Rover)
        requires
            ROVER_RADIUS <= position.x <= POS_LIMIT,
            -POS_LIMIT <= position.y <= POS_LIMIT,
        ensures
            r@ == (RoverV {
                pos_x: position.x as int,
                pos_y: position.y as int,
                vel_x: 0,
                vel_y: 0,
                fuel: MAX_FUEL as int,
                radius: ROVER_RADIUS as int,
                on_ground: false,
            }),
            rover_wf(r@),
    {
        Rover {
            position,
            velocity: Vec2 { x: 0, y: 0 },
            fuel: MAX_FUEL,
            radius: ROVER_RADIUS,
            on_ground: false,
        }
    }

    /// One tick: gravity unless resting, thrust while fuel lasts, fuel
    /// floored at zero, drag, Euler integration, and the left wall.
    pub fn update(&mut self, dt: i64, thrust_up: bool, thrust_left: bool, thrust_right: bool)
        requires
            rover_wf(old(self)@),
            0 <= dt <= MAX_DT,
        ensures
            final(self)@ == spec_update(old(self)@, dt as int, thrust_up, thrust_left, thrust_right),
            rover_wf(final(self)@),
    {
        proof {
            lemma_mul_div_bound(GRAVITY as int, dt as int, SCALE as int, GRAVITY as int, MAX_DT as int);
            lemma_mul_div_bound(THRUST_POWER as int, dt as int, SCALE as int, THRUST_POWER as int, MAX_DT as int);
            lemma_mul_div_bound(FUEL_CONSUMPTION_RATE as int, dt as int, SCALE as int, FUEL_CONSUMPTION_RATE as int, MAX_DT as int);
            lemma_mul_div_bound(spec_side_power(), dt as int, SCALE as int, spec_side_power(), MAX_DT as int);
            lemma_mul_div_bound(FUEL_CONSUMPTION_RATE as int / 2, dt as int, SCALE as int, FUEL_CONSUMPTION_RATE as int / 2, MAX_DT as int);
        }
        let can_thrust = self.fuel > 0;
        if !self.on_ground {
            self.velocity.y = self.velocity.y + mul_div(GRAVITY, dt, SCALE);
        }
        if can_thrust {
            if thrust_up {
                self.velocity.y = self.velocity.y - mul_div(THRUST_POWER, dt, SCALE);
                self.fuel = self.fuel - mul_div(FUEL_CONSUMPTION_RATE, dt, SCALE);
                self.on_ground = false;
            }
            let side = mul_div(mul_div(THRUST_POWER, SIDE_THRUST_NUM, SIDE_THRUST_DEN), dt, SCALE);
            let side_burn = mul_div(FUEL_CONSUMPTION_RATE / 2, dt, SCALE);
            if thrust_left {
                self.velocity.x = self.velocity.x - side;
                self.fuel = self.fuel - side_burn;
            }
            if thrust_right {
                self.velocity.x = self.velocity.x + side;
                self.fuel = self.fuel - side_burn;
            }
        }
        if self.fuel < 0 {
            self.fuel = 0;
        }
        self.velocity.x = mul_div(self.velocity.x, DRAG_NUM, DRAG_DEN);
        self.velocity.x = clamp_i64(self.velocity.x, -VEL_LIMIT, VEL_LIMIT);
        self.velocity.y = clamp_i64(self.velocity.y, -VEL_LIMIT, VEL_LIMIT);
        proof {
            lemma_mul_div_bound(self.velocity.x as int, dt as int, SCALE as int, VEL_LIMIT as int, MAX_DT as int);
            lemma_mul_div_bound(self.velocity.y as int, dt as int, SCALE as int, VEL_LIMIT as int, MAX_DT as int);
        }
        self.position.x = clamp_i64(self.position.x + mul_div(self.velocity.x, dt, SCALE), -POS_LIMIT, POS_LIMIT);
        self.position.y = clamp_i64(self.position.y + mul_div(self.velocity.y, dt, SCALE), -POS_LIMIT, POS_LIMIT);
        if self.position.x < self.radius {
            self.position.x = self.radius;
            self.velocity.x = 0;
        }
    }

    /// True iff the rover's lower rim is at or below `ground_y`.
    pub fn check_ground_collision(&self, ground_y: i64) -> (r: bool)
        requires
            rover_wf(self@),
        ensures
            r == spec_touches_ground(self@, ground_y as int),
    {
        self.position.y + self.radius >= ground_y
    }

    /// Snap onto the ground at `ground_y`: rim on the ground line,
    /// vertical speed zeroed, resting. The caller checks
    /// `check_ground_collision` first.
    pub fn land(&mut self, ground_y: i64)
        requires
            rover_wf(old(self)@),
            0 <= ground_y <= POS_LIMIT,
        ensures
            final(self)@ == spec_land(old(self)@, ground_y as int),
            rover_wf(final(self)@),
    {
        self.position.y = ground_y - self.radius;
        self.velocity.y = 0;
        self.on_ground = true;
    }
}

/// Landing when already resting at the same ground line changes nothing:
/// position and speed are already at rest there.
pub proof fn lemma_land_idempotent(r: RoverV, ground_y: int)
    requires
        r.on_ground,
        r.pos_y == ground_y - r.radius,
        r.vel_y == 0,
    ensures
        spec_land(r, ground_y) == r,
{
}

/// The left wall is a hard boundary: no tick ends left of `x = radius`,
/// and a tick whose integrated position crossed the wall ends at exactly
/// `x = radius` with the horizontal speed zeroed.
pub proof fn lemma_left_boundary_clamp(r: RoverV, dt: int, up: bool, left: bool, right: bool)
    ensures
        spec_update(r, dt, up, left, right).pos_x >= r.radius,
        spec_integrate(r, dt, up, left, right).pos_x < r.radius ==> {
            &&& spec_update(r, dt, up, left, right).pos_x == r.radius
            &&& spec_update(r, dt, up, left, right).vel_x == 0
        },
{
}

/// The rover after `n` ticks of continuous upward thrust, with a fixed
/// time delta and no lateral input.
pub open spec fn spec_thrust_ticks(r: RoverV, dt: int, n: nat) -> RoverV
    decreases n,
{
    if n == 0 {
        r
    } else {
        spec_update(spec_thrust_ticks(r, dt, (n - 1) as nat), dt, true, false, false)
    }
}

/// Fuel under continuous upward thrust: after `n` ticks the tank holds
/// exactly the starting amount less `n` burns, floored at zero — in
/// particular it never goes negative, however many ticks pass.
pub proof fn lemma_fuel_under_thrust(r: RoverV, dt: int, n: nat)
    requires
        r.fuel >= 0,
        0 <= dt,
    ensures
        ({
            let burn = mul_div_spec(FUEL_CONSUMPTION_RATE as int, dt, SCALE as int);
            let f = r.fuel - n * burn;
            spec_thrust_ticks(r, dt, n).fuel == (if f < 0 { 0 } else { f })
        }),
        spec_thrust_ticks(r, dt, n).fuel >= 0,
    decreases n,
{
    let burn = mul_div_spec(FUEL_CONSUMPTION_RATE as int, dt, SCALE as int);
    if n > 0 {
        lemma_fuel_under_thrust(r, dt, (n - 1) as nat);
        assert(n * burn == (n - 1) as nat * burn + burn) by (nonlinear_arith)
            requires n >= 1;
    }
}

/// A free-fall tick (no thrust, airborne) adds exactly one gravity
/// increment to the vertical speed, integrates the position by the new
/// speeds, and leaves fuel and the airborne flag untouched, as long as
/// the speeds and positions stay inside the representable band.
pub proof fn lemma_free_fall_step(r: RoverV, dt: int)
    requires
        rover_wf(r),
        !r.on_ground,
        -(VEL_LIMIT as int) <= r.vel_y + mul_div_spec(GRAVITY as int, dt, SCALE as int) <= VEL_LIMIT as int,
        -(VEL_LIMIT as int) <= mul_div_spec(r.vel_x, DRAG_NUM as int, DRAG_DEN as int) <= VEL_LIMIT as int,
        -(POS_LIMIT as int) <= r.pos_y + mul_div_spec(r.vel_y + mul_div_spec(GRAVITY as int, dt, SCALE as int), dt, SCALE as int) <= POS_LIMIT as int,
        r.radius <= r.pos_x + mul_div_spec(mul_div_spec(r.vel_x, DRAG_NUM as int, DRAG_DEN as int), dt, SCALE as int) <= POS_LIMIT as int,
    ensures
        ({
            let r2 = spec_update(r, dt, false, false, false);
            &&& r2.vel_y == r.vel_y + mul_div_spec(GRAVITY as int, dt, SCALE as int)
            &&& r2.vel_x == mul_div_spec(r.vel_x, DRAG_NUM as int, DRAG_DEN as int)
            &&& r2.pos_y == r.pos_y + mul_div_spec(r2.vel_y, dt, SCALE as int)
            &&& r2.pos_x == r.pos_x + mul_div_spec(r2.vel_x, dt, SCALE as int)
            &&& r2.fuel == r.fuel
            &&& !r2.on_ground
        }),
{
}

} // verus!
