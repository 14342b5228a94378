//! The decoders.

pub mod battle;
pub mod chocobos;
pub mod field;
pub mod general;
pub mod kernel;
pub mod party;
pub mod scene_index;
pub mod scene_layout;
