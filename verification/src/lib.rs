//! A snake arcade game as a verified, frame-driven simulation core.
//!
//! A [`world::World`] holds every record of a game. Each system takes the
//! world and changes it, and its contract gives the new world as a function
//! of the old one; [`frame::tick`] runs the systems in their fixed order.
//! What chance decides, the place and the tier of new food, is bounded by
//! the contracts and fixed by nothing else.
//!
//! Lengths are fixed-point integers: one pixel is
//! [`constants::UNITS_PER_PIXEL`] units, and elapsed time is given in
//! microseconds, so that a speed of one pixel per second covers exactly one
//! unit per microsecond.

pub mod constants;
pub mod geometry;
pub mod components;
pub mod world;
mod random;
pub mod setup;
pub mod spawner;
pub mod collisions;
pub mod controls;
pub mod frame;
pub mod laws;
