//! The records of the game's kernel data.

use vstd::prelude::*;

verus! {

/// How one element affects an enemy.
#[derive(Debug, Clone, Copy)]
pub struct Elemental {
    pub element: u8,
    pub effect: u8,
}

/// What an element does to its target.
#[derive(Debug, Clone, Copy, PartialEq, Eq)]
pub enum ElementalEffect {
    Death,
    DoubleDamage,
    HalfDamage,
    Nullify,
    Absorb,
    FullCure,
    Nothing,
}

impl ElementalEffect {
    /// The number by which the game knows the effect.
    pub open spec fn spec_code(self) -> u8 {
        match self {
            ElementalEffect::Death => 0,
            ElementalEffect::DoubleDamage => 2,
            ElementalEffect::HalfDamage => 4,
            ElementalEffect::Nullify => 5,
            ElementalEffect::Absorb => 6,
            ElementalEffect::FullCure => 7,
            ElementalEffect::Nothing => 0xFF,
        }
    }

    /// The number by which the game knows the effect.
    #[verifier::when_used_as_spec(spec_code)]
    pub fn code(self) -> (code: u8)
        ensures
            code == self.spec_code(),
    {
        match self {
            ElementalEffect::Death => 0,
            ElementalEffect::DoubleDamage => 2,
            ElementalEffect::HalfDamage => 4,
            ElementalEffect::Nullify => 5,
            ElementalEffect::Absorb => 6,
            ElementalEffect::FullCure => 7,
            ElementalEffect::Nothing => 0xFF,
        }
    }
}

/// The elements of the game.
#[derive(Debug, Clone, Copy, PartialEq, Eq)]
pub enum ElementalType {
    Fire,
    Ice,
    Bolt,
    Earth,
    Bio,
    Gravity,
    Water,
    Wind,
    Holy,
    Health,
    Cut,
    Hit,
    Punch,
    Shoot,
    Scream,
    Hidden,
    Nothing,
}

impl ElementalType {
    /// The number by which the game knows the element.
    pub open spec fn spec_code(self) -> u8 {
        match self {
            ElementalType::Fire => 0,
            ElementalType::Ice => 1,
            ElementalType::Bolt => 2,
            ElementalType::Earth => 3,
            ElementalType::Bio => 4,
            ElementalType::Gravity => 5,
            ElementalType::Water => 6,
            ElementalType::Wind => 7,
            ElementalType::Holy => 8,
            ElementalType::Health => 9,
            ElementalType::Cut => 10,
            ElementalType::Hit => 11,
            ElementalType::Punch => 12,
            ElementalType::Shoot => 13,
            ElementalType::Scream => 14,
            ElementalType::Hidden => 15,
            ElementalType::Nothing => 0xFF,
        }
    }

    /// The number by which the game knows the element.
    #[verifier::when_used_as_spec(spec_code)]
    pub fn code(self) -> (code: u8)
        ensures
            code == self.spec_code(),
    {
        match self {
            ElementalType::Fire => 0,
            ElementalType::Ice => 1,
            ElementalType::Bolt => 2,
            ElementalType::Earth => 3,
            ElementalType::Bio => 4,
            ElementalType::Gravity => 5,
            ElementalType::Water => 6,
            ElementalType::Wind => 7,
            ElementalType::Holy => 8,
            ElementalType::Health => 9,
            ElementalType::Cut => 10,
            ElementalType::Hit => 11,
            ElementalType::Punch => 12,
            ElementalType::Shoot => 13,
            ElementalType::Scream => 14,
            ElementalType::Hidden => 15,
            ElementalType::Nothing => 0xFF,
        }
    }
}

/// What an item does in battle.
#[derive(Debug, Clone, Copy)]
pub struct ItemData {
    pub camera_move_id: u16,
    pub restriction_mask: u16,
    pub target_flags: u8,
    pub attack_effect_id: u8,
    pub damage_func: u8,
    pub power: u8,
    pub condition: u8,
    pub status_effect_change: u8,
    pub attack_additional_effect: u8,
    pub additional_effect_modifier: u8,
    pub status_effects: u32,
    pub attack_element: u16,
    pub special_attack_flags: u16,
}

} // verus!
