//! The records that the decoders produce.

pub mod battle;
pub mod chocobos;
pub mod field;
pub mod general;
pub mod items;
pub mod kernel;
pub mod party;
pub mod world;
