//! Simulation core of a top-down bullet-hell shooter.
//!
//! Given the time that has passed and what the player does, the library
//! advances the enemies, spawns and moves the bullets, resolves the collisions
//! and says how the round stands. It neither paints nor plays sounds nor reads
//! keys: a caller does, and hands the library plain values.
//!
//! Every real quantity is a fixed-point number held in an `i64` that counts
//! thousandths: lengths in thousandths of a pixel, times in thousandths of a
//! second, speeds in thousandths of a pixel per second, angles in thousandths
//! of a radian. All arithmetic saturates, so no function can overflow, and the
//! same inputs give the same world on every machine. See [`fixed`] and
//! [`trig`].
//!
//! Each type that holds a list has a value that stands for it in contracts
//! (its view): [`enemies::EnemyModel`], [`level::LevelModel`],
//! [`world::WorldModel`], [`session::SessionModel`]. What a function does is
//! stated as a function on these values.

pub mod fixed;
pub mod trig;
pub mod geometry;
pub mod world;
pub mod enemies;
pub mod level;
pub mod session;
