//! The chocobos of the stables and of the fence.

use vstd::prelude::*;

verus! {

/// One chocobo of a stable.
#[derive(Debug, Clone, Copy, PartialEq, Eq)]
pub struct ChocoboSlot {
    pub sprint_speed: u16,
    pub max_sprint_speed: u16,
    pub speed: u16,
    pub max_speed: u16,
    pub acceleration: u8,
    pub cooperation: u8,
    pub intelligence: u8,
    pub personality: u8,
    pub pcount: u8,
    pub races_won: u8,
    pub rating: u8,
    /// 1 for a female, 0 for a male.
    pub sex: u8,
    /// 0 yellow, 1 green, 2 blue, 3 black, 4 gold.
    pub color: u8,
}

/// One chocobo held at the fence.
#[derive(Debug, Clone, Copy, PartialEq, Eq)]
pub struct FencedChocobo {
    /// 1 wonderful, 2 great, 3 good, 4 average, 5 poor, 6 so-so, 8 worst.
    pub rating: u8,
}

/// All that the game keeps of the player's chocobos.
#[derive(Debug)]
pub struct ChocoboData {
    /// The four chocobos at the fence.
    pub fenced_chocobos: [FencedChocobo; 4],
    /// The number of stables owned.
    pub stables_owned: u8,
    /// The number of stables in use.
    pub occupied_stables: u8,
    /// Bit `i` is set where stable `i` is in use.
    pub stables_occupied_mask: u8,
    /// Bit `i` is set where the chocobo of stable `i` cannot mate.
    pub cant_mate_mask: u8,
    /// The chocobo of each stable in use.
    pub stable_chocobos: [Option<ChocoboSlot>; 6],
    /// The name of the chocobo of each stable.
    pub chocobo_names: [String; 6],
    /// The stamina of the chocobo of each stable.
    pub chocobo_stamina: [u16; 6],
    /// The battle count from which on the chocobo of each stable can mate.
    pub chocobo_target_battle_counts: [u16; 6],
}

} // verus!
