//! The records of the field module.

use vstd::prelude::*;

verus! {

/// One model of the current field.
#[derive(Debug, Clone, Copy)]
pub struct FieldModel {
    pub x: i32,
    pub y: i32,
    pub z: i32,
    pub direction: u8,
    pub triangle: u16,
    pub collision: u8,
    pub interaction: u8,
    pub visible: u8,
}

/// The current field and the names of its models.
#[derive(Debug, Clone)]
pub struct FieldData {
    pub field_id: u16,
    pub field_name: Vec<u8>,
    pub field_model_count: u16,
    pub field_model_names: Vec<String>,
}

/// One trigger line of the current field.
#[derive(Debug, Clone, Copy)]
pub struct FieldLineObj {
    pub x1: i16,
    pub y1: i16,
    pub z1: i16,
    pub x2: i16,
    pub y2: i16,
    pub z2: i16,
    pub enabled: u8,
    pub entity: u8,
}

/// One light of a field model, as the game keeps it: where it stands and
/// its color, seven 32-bit floats. Each float is held by its bits, as the
/// game's memory holds it.
#[derive(Debug, Clone, Copy, PartialEq, Eq)]
pub struct LightWords {
    pub x: u32,
    pub y: u32,
    pub z: u32,
    pub blue: u32,
    pub green: u32,
    pub red: u32,
    pub alpha: u32,
}

/// The lights of one field model, as the game keeps them: the color of the
/// light all around, four 32-bit floats held by their bits, and three lights.
#[derive(Debug, Clone, Copy, PartialEq, Eq)]
pub struct FieldLightWords {
    pub global_blue: u32,
    pub global_green: u32,
    pub global_red: u32,
    pub global_alpha: u32,
    pub light1: LightWords,
    pub light2: LightWords,
    pub light3: LightWords,
}

} // verus!
