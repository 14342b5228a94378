//! The failures of the functions that work on the game's memory.

use vstd::prelude::*;

verus! {

/// Why a function on the game's memory gave no result.
#[derive(Debug, Clone, Copy, PartialEq, Eq)]
pub enum GameError {
    /// The `size` bytes from `address` on could not all be read or written.
    Inaccessible { address: u64, size: usize },
    /// The text codec failed on the bytes of a name, and they are no UTF-8
    /// text either.
    UndecodableName,
    /// A stable slot must be one of 0 to 5.
    InvalidChocoboSlot,
    /// A fenced slot must be one of 0 to 3.
    InvalidFencedChocoboSlot,
    /// An encoded chocobo name has at most 6 bytes.
    EncodedNameTooLong,
    /// The game knows no item with this id.
    UnknownItem { id: u16 },
    /// The field has only `models` models, so none with this index.
    ModelIndexOutOfRange { index: u32, models: u32 },
    /// The field model with this index has no lights.
    NoLightObject { index: u32 },
}

} // verus!
