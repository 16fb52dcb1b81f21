//! The simulation core of a top-down survival shooter.
//!
//! A player fights enemies that appear at the edge of the screen, fires
//! and receives projectiles, and spends coins on upgrades. The library
//! holds the world and takes it from tick to tick; windows, keys and
//! drawing are left to its user. Coordinates are whole thousandths of a
//! pixel and times are whole milliseconds, so that every tick is exact.

pub mod geometry;
pub mod health;
pub mod bullet;
pub mod player;
pub mod shop;
pub mod circle;
pub mod triangle;
pub mod hexagonal;
pub mod boss;
pub mod enemy;
pub mod pruning;
pub mod game;
pub mod limits;
pub mod theorems;
pub mod invariants;
mod rng;
