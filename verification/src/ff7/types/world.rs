//! The records of the world map.

use vstd::prelude::*;

verus! {

/// One model on the world map.
#[derive(Debug, Clone, Copy)]
pub struct WorldModel {
    pub index: u8,
    pub x: u32,
    pub y: i32,
    pub z: u32,
    pub direction: i16,
    pub model_id: u8,
    pub walkmesh_type: u8,
    pub location_id: u8,
    pub chocobo_tracks: bool,
}

/// One entry of the table that leads from the world map to a field: two
/// 16-bit coordinates, a triangle, a field and a direction, then three bytes
/// of padding.
#[derive(Debug, Clone, Copy)]
pub struct WorldFieldTblItem {
    pub x: i16,
    pub y: i16,
    pub triangle_id: u16,
    pub field_id: u16,
    pub direction: u8,
}

} // verus!
