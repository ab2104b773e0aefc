//! Deterministic fixed-tick 2D platformer simulation core.
//!
//! A player character and patrolling guards move through a level of static
//! solids, ladders and trigger volumes, subject to gravity, jump buffering,
//! climbing, melee combat and a death/respawn protocol.  All quantities are
//! fixed-point integers: world positions, velocities and box half-extents in
//! milli-units (one thousandth of a world unit), times in milliseconds.
//! Rendering, audio mixing and asset loading belong to a host around this
//! crate; the core only emits one-shot event flags (jump, key pickup, death,
//! win) that such a host may react to.

pub mod units;
pub mod geom;
pub mod collide;
pub mod timer;
pub mod input;
pub mod config;
pub mod guard;
pub mod combat;
pub mod effects;
pub mod player;
pub mod triggers;
pub mod respawn;
pub mod level;
pub mod world;
