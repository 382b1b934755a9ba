//! Game-state engine of a single-player arcade shooter for a tiny monochrome
//! display: the entities, their per-frame rules, collision detection, and the
//! frame pipeline `spawn`, `update`, `collect`.
//!
//! The engine owns no hardware. Display dimensions, directional input and
//! random draws reach it as plain values; what it hands back is the new state.

pub mod collect;
pub mod engine;
pub mod game;
pub mod geometry;
pub mod laws;
pub mod objects;
pub mod pools;
pub mod spawn;
pub mod update;

pub use crate::engine::{FrameEnd, GamePool, GameState};
