//! Simulation core of a top-down survival game: a player fights waves of enemies that
//! seek it, collects the experience orbs they leave, and levels up its stats.
//!
//! Positions are kept in thousandths of a world unit, times in milliseconds, and health
//! and multipliers in thousandths. `world::World::tick` runs one step of the simulation
//! in a fixed order over explicit collections of entities.
pub mod collision;
pub mod config;
pub mod enemy;
pub mod geometry;
pub mod player;
pub mod random;
pub mod state;
pub mod util;
pub mod weapon;
pub mod world;
pub mod xp_ball;
