//! A verified simulation core for a small top-down shooter: a typed entity
//! store, the ordered per-frame gameplay systems, and the planning of sprite
//! draw batches over a bounded uniform buffer.
//!
//! All quantities are fixed-point numbers so that every frame is
//! deterministic and every contract is stated over mathematical integers.

pub mod components;
pub mod fixed;
pub mod graphics;
pub mod input;
pub mod laws;
pub mod parts;
pub mod resources;
pub mod session;
pub mod states;
pub mod store;
pub mod systems;
pub mod text;
pub mod time;
pub mod universe;
pub mod vector;
