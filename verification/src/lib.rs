//! A discrete-tick, 2D artificial-life simulation core.
//!
//! A population of mobile agents forages among pellets that carry beneficial
//! or harmful effects, evolves per-agent behavioral weights across
//! generations, and dies from starvation, poisoning, or leaving the simulated
//! area. All spatial quantities (positions, velocities, speeds, radii,
//! steering weights) are fixed-point integers counted in thousandths of a
//! world unit, so the kinematics are exact and free of rounding surprises.

pub mod effects;
pub mod entities;
pub mod num;
pub mod rng;
pub mod tick;
pub mod world;
