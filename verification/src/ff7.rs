//! What is known of the game: its record types and the decoders for them.

pub mod addresses;
pub mod data;
pub mod ff7text;
pub mod types;
