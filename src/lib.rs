//! A small 2D platformer physics core on integer quantities.
//!
//! All lengths, velocities and accelerations are integers in one consistent
//! system of units chosen by the caller: a length unit and a time unit. A
//! velocity is in length units per time unit, an acceleration in length units
//! per time unit squared, and a tick lasts a whole number of time units. With
//! these units every step of the simulation is exact.
pub mod geometry;
pub mod body;
pub mod input;
pub mod systems;
pub mod world;
pub mod laws;
