//! Simulation core of a four-participant arena battle.
//!
//! Four turrets surround a grid of owned tiles. Each turret accumulates a
//! charge, sweeps its aim back and forth, and fires projectiles whose mass is
//! taken from the charge. Every quantity is held in exact integer arithmetic:
//! angles in nanoradians, time in nanoseconds, positions in half units, and
//! the charge value as a decimal natural number of unbounded size.

pub mod angle;
pub mod battlefield;
pub mod bullet;
pub mod charge;
pub mod natural;
pub mod participant;
pub mod stopwatch;
pub mod tile;
pub mod trigger;
pub mod turret;
pub mod visual;
