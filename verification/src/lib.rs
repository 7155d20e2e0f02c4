//! Simulation core of a celestial-economy game: a tick-driven engine that
//! advances orbital motion, resource extraction, population growth and
//! atmospheric state for a set of planetary bodies and their attached
//! structures.
//!
//! All quantities are integers. Resource amounts, efficiencies and buffer
//! capacities are counted in whole resource units; angles are counted in
//! microradians, wrapping at a full turn; temperatures are whole degrees.
//! Every per-tick operation saturates or clamps instead of failing, so a
//! validated world ticks forever without an error path.

pub mod atmosphere;
pub mod components;
pub mod growth;
pub mod housing;
pub mod kinematics;
pub mod mining;
pub mod num;
pub mod params;
pub mod scheduler;
pub mod storage;
pub mod world;
