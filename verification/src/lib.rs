//! Decoders for the data of a running Final Fantasy VII game: the battle scene
//! container (`scene.bin`), and the records the game keeps in its memory.
//!
//! Every function of this crate is verified with Verus against the contract
//! written on it. Calls into other crates stand behind small wrappers whose
//! contracts are trusted; each of them says so in its documentation.

pub mod ff7;
pub mod utils;
