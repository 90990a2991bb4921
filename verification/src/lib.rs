//! Simulation core of a fixed-formation arcade shooter.
//!
//! A rectangular grid of enemies advances, reverses and descends as a unit;
//! a player ship moves, turns and fires; projectiles travel upward and are
//! matched against occupied grid slots.  The host (renderer, input source)
//! drives [`sim::Simulation::step`] once per frame and reads positions and
//! sprite hints back.
//!
//! All coordinates and speeds are integers in *centiunits*: hundredths of a
//! world unit, which keeps the sub-unit tuning values (0.6 units of
//! speed-up at a reversal, 0.08 of inherited drift) exact.

pub mod geom;
pub mod collision;
pub mod formation;
pub mod grid;
pub mod player;
pub mod projectile;
pub mod sim;
