//! The items that an enemy gives up.

use vstd::prelude::*;

verus! {

/// How an item is got from an enemy.
#[derive(Debug, Clone, Copy, PartialEq, Eq)]
pub enum ItemType {
    /// The enemy drops the item when it falls.
    Drop,
    /// The item can be stolen from the enemy.
    Steal,
}

/// An item that an enemy gives up.
#[derive(Debug, Clone)]
pub struct Item {
    /// The chance of getting the item, out of 64.
    pub rate: u8,
    pub name: String,
    pub item_type: ItemType,
}

} // verus!
