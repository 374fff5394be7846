//! A verified core for a side-scrolling runner simulation.
//!
//! The player entity jumps or fast-falls over a stream of obstacles that
//! scroll toward it at constant speed; contact ends the session.  The crate
//! covers the per-frame pipeline: the player motion state machine, the timed
//! obstacle lifecycle (spawn, uniform translation, off-screen despawn), and
//! the axis-aligned bounding-box collision check that raises the termination
//! signal.  Windowing, input polling and rendering belong to the host, which
//! feeds the core an elapsed-time value and the held input actions once per
//! frame and reads the entity positions back.
//!
//! All quantities are fixed-point integers: positions and extents are held in
//! micro-units, velocities in milli-units per second, and time in
//! milliseconds, so one millisecond of travel at one milli-unit per second is
//! exactly one micro-unit and every frame update is exact integer arithmetic.

pub mod collision;
pub mod config;
pub mod laws;
pub mod obstacle;
pub mod player;
pub mod session;
pub mod units;
