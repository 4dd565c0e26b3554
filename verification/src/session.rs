//! The session: one rover and one terrain, the camera, the running /
//! game-over state machine, and the record distance.
//!
//! While running, each tick advances the rover, resolves landing against
//! the ground height at the rover's new position, then checks the fatal
//! obstacle overlap — landing first, and the obstacle check regardless of
//! landing — and finally smooths the camera and updates the record
//! distance. Once game over, the state is frozen until an explicit
//! restart rebuilds the world from the fixed seed.

use vstd::prelude::*;
use crate::numeric::{mul_div_spec, mul_div, lemma_mul_div_fraction};
use crate::rover::{
    Rover, RoverV, Vec2, rover_wf, spec_update, spec_land, spec_touches_ground,
};
use crate::terrain::{
    Terrain, TerrainV, DrawsV, terrain_wf, draws_wf, spec_terrain, spec_ground_height,
    spec_obstacle_hit,
};
use crate::physics::{
    SPAWN_X, SPAWN_Y, MAX_FUEL, ROVER_RADIUS, WINDOW_WIDTH, CAMERA_LEAD_DEN,
    CAMERA_SMOOTH_DEN, DISTANCE_DEN, MAX_DT, POS_LIMIT,
};

verus! {

pub struct GameState {
    pub rover: Rover,
    pub terrain: Terrain,
    pub camera_x: i64,
    pub game_over: bool,
    pub distance_traveled: i64,
}

/// Mathematical state of a session.
pub ghost struct SessionV {
    pub rover: RoverV,
    pub terrain: TerrainV,
    pub camera_x: int,
    pub game_over: bool,
    pub distance_traveled: int,
}

impl View for GameState {
    type V = SessionV;

    open spec fn view(&self) -> SessionV {
        SessionV {
            rover: self.rover@,
            terrain: self.terrain@,
            camera_x: self.camera_x as int,
            game_over: self.game_over,
            distance_traveled: self.distance_traveled as int,
        }
    }
}

/// The session's invariant: a well-formed rover and terrain, and a camera
/// and record distance inside the representable band.
pub open spec fn session_wf(s: SessionV) -> bool {
    &&& rover_wf(s.rover)
    &&& terrain_wf(s.terrain)
    &&& 0 <= s.camera_x <= POS_LIMIT as int
    &&& 0 <= s.distance_traveled <= POS_LIMIT as int
}

/// The rover a fresh session (or a restart) starts with: at the spawn
/// point, at rest, full tank, airborne.
pub open spec fn spec_spawn_rover() -> RoverV {
    RoverV {
        pos_x: SPAWN_X as int,
        pos_y: SPAWN_Y as int,
        vel_x: 0,
        vel_y: 0,
        fuel: MAX_FUEL as int,
        radius: ROVER_RADIUS as int,
        on_ground: false,
    }
}

/// One camera step: move a tenth of the way toward the point that puts
/// the rover a third of the window from the left edge, never below zero.
pub open spec fn spec_camera_step(camera: int, rover_x: int) -> int {
    let target = rover_x - WINDOW_WIDTH as int / CAMERA_LEAD_DEN as int;
    let moved = camera + mul_div_spec(target - camera, 1, CAMERA_SMOOTH_DEN as int);
    if moved < 0 {
        0
    } else {
        moved
    }
}

/// The record distance: the maximum of the old record and the rover's
/// current x in hundreds of milli-units.
pub open spec fn spec_distance_step(distance: int, rover_x: int) -> int {
    let d = mul_div_spec(rover_x, 1, DISTANCE_DEN as int);
    if d > distance {
        d
    } else {
        distance
    }
}

/// One session tick. Game over freezes the state; otherwise the rover
/// advances, lands if its rim reached the ground at its new position, the
/// session ends iff an obstacle overlaps the (possibly landed) rover, and
/// the camera and record distance follow the rover.
pub open spec fn spec_session_step(s: SessionV, dt: int, up: bool, left: bool, right: bool) -> SessionV {
    if s.game_over {
        s
    } else {
        let moved = spec_update(s.rover, dt, up, left, right);
        let ground = spec_ground_height(s.terrain, moved.pos_x);
        let settled = if spec_touches_ground(moved, ground) {
            spec_land(moved, ground)
        } else {
            moved
        };
        SessionV {
            rover: settled,
            terrain: s.terrain,
            camera_x: spec_camera_step(s.camera_x, settled.pos_x),
            game_over: spec_obstacle_hit(s.terrain, settled),
            distance_traveled: spec_distance_step(s.distance_traveled, settled.pos_x),
        }
    }
}

impl GameState {
    /// A fresh session: spawned rover, the fixed-seed terrain, camera at
    /// the origin, running, no distance on record.
    pub fn new() -> (s: GameState)
        ensures
            s@.rover == spec_spawn_rover(),
            exists|d: DrawsV| draws_wf(d) && s@.terrain == spec_terrain(d),
            s@.camera_x == 0,
            s@.game_over == false,
            s@.distance_traveled == 0,
            session_wf(s@),
    {
        GameState {
            rover: Rover::new(Vec2 { x: SPAWN_X, y: SPAWN_Y }),
            terrain: Terrain::new(),
            camera_x: 0,
            game_over: false,
            distance_traveled: 0,
        }
    }

    /// Back to the session-start state: a fresh rover at the spawn point,
    /// a terrain rebuilt from the same fixed seed, camera and record
    /// distance at zero, running again.
    pub fn restart(&mut self)
        ensures
            final(self)@.rover == spec_spawn_rover(),
            exists|d: DrawsV| draws_wf(d) && final(self)@.terrain == spec_terrain(d),
            final(self)@.camera_x == 0,
            final(self)@.game_over == false,
            final(self)@.distance_traveled == 0,
            session_wf(final(self)@),
    {
        self.rover = Rover::new(Vec2 { x: SPAWN_X, y: SPAWN_Y });
        self.terrain = Terrain::new();
        self.camera_x = 0;
        self.game_over = false;
        self.distance_traveled = 0;
    }

    /// One camera step, toward the rover's lead point, floored at zero.
    pub fn update_camera(&mut self)
        requires
            session_wf(old(self)@),
        ensures
            final(self)@ == (SessionV {
                camera_x: spec_camera_step(old(self)@.camera_x, old(self)@.rover.pos_x),
                ..old(self)@
            }),
            0 <= final(self)@.camera_x <= POS_LIMIT as int,
    {
        let target = self.rover.position.x - WINDOW_WIDTH / CAMERA_LEAD_DEN;
        proof {
            lemma_mul_div_fraction(
                target as int - self.camera_x as int,
                1,
                CAMERA_SMOOTH_DEN as int,
            );
        }
        self.camera_x = self.camera_x + mul_div(target - self.camera_x, 1, CAMERA_SMOOTH_DEN);
        if self.camera_x < 0 {
            self.camera_x = 0;
        }
    }

    /// One session tick: frozen when game over; otherwise rover update,
    /// landing, the fatal obstacle check, camera and record distance, as
    /// `spec_session_step` lays down. The record distance never shrinks.
    pub fn update(&mut self, dt: i64, thrust_up: bool, thrust_left: bool, thrust_right: bool)
        requires
            session_wf(old(self)@),
            0 <= dt <= MAX_DT,
        ensures
            final(self)@ == spec_session_step(old(self)@, dt as int, thrust_up, thrust_left, thrust_right),
            session_wf(final(self)@),
            final(self)@.distance_traveled >= old(self)@.distance_traveled,
    {
        if self.game_over {
            return;
        }
        self.rover.update(dt, thrust_up, thrust_left, thrust_right);
        let ground_y = self.terrain.get_ground_y(self.rover.position.x);
        if self.rover.check_ground_collision(ground_y) {
            self.rover.land(ground_y);
        }
        if self.terrain.check_obstacle_collision(&self.rover) {
            self.game_over = true;
        }
        self.update_camera();
        proof {
            lemma_mul_div_fraction(self.rover.position.x as int, 1, DISTANCE_DEN as int);
        }
        let d = mul_div(self.rover.position.x, 1, DISTANCE_DEN);
        if d > self.distance_traveled {
            self.distance_traveled = d;
        }
    }
}

} // verus!
