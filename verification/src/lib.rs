//! Core of a small real-time arcade simulation: a player-controlled ship,
//! hostile asteroids and missiles moving in a bounded arena, with collisions
//! causing damage and entities created and destroyed over time.
//!
//! All world state is held in exact fixed-point integers (nano-units for
//! positions, nano-units per millisecond for velocities), so every stage of
//! the per-tick pipeline carries a precise contract. Floating-point
//! presentation, rendering and input polling belong to the host around this
//! library.

pub mod asteroid;
pub mod collision;
pub mod despawn;
pub mod math;
pub mod movement;
pub mod rng;
pub mod schedule;
pub mod spaceship;
pub mod world;

pub use math::Vec3;
