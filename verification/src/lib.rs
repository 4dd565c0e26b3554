//! Simulation core of a 2D side-scrolling rover game, in fixed-point
//! arithmetic: one world unit is `SCALE` milli-units, and a tick's time
//! delta is given in milliseconds.
//!
//! The crate holds the seeded terrain generator (height profile plus
//! obstacles), the rover's kinematic and fuel model, the collision and
//! landing resolver, and the session state machine. Rendering and input
//! polling live outside, on top of these types.

pub mod numeric;
pub mod physics;
pub mod rng;
pub mod rover;
pub mod session;
pub mod terrain;
