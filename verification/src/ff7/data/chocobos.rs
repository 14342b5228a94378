//! The chocobos, as the save map holds them.
//!
//! | offset in the save map | content |
//! |---|---|
//! | 0x0BF9 | the ratings of the 4 fenced chocobos |
//! | 0x0CFC | the number of stables owned |
//! | 0x0CFD | the number of stables in use |
//! | 0x0CFF | the mask of the stables in use |
//! | 0x0D00 | the mask of the chocobos that cannot mate |
//! | 0x0D01, 0x0D08, 0x0D0A, 0x0D0C, 0x0D0E, 0x0D10 | the target battle counts |
//! | 0x0DC4, 0x0DD4, 0x0DE4, 0x0DF4, 0x1084, 0x1094 | the 6 stable slots, 16 bytes each |
//! | 0x0E3E | the ratings of the 6 stable chocobos |
//! | 0x0EC4 | the 6 names, 6 bytes each |
//! | 0x0EE8 | the 6 stamina values |

use crate::ff7::addresses::FF7Addresses;
use crate::ff7::data::kernel::{byte_views, decode_names, name_text, name_views, names_read};
use crate::ff7::data::scene_layout::field_text;
use crate::ff7::ff7text::{text_codec, DecodeError};
use crate::ff7::types::chocobos::{ChocoboData, ChocoboSlot, FencedChocobo};
use crate::utils::cursor::{get_u16, u16_at, u8_at};
use crate::utils::error::GameError;
use crate::utils::memory::{fetched, stored, stored_both, u16_bytes, ProcessMemory};
use vstd::prelude::*;
use vstd::slice::slice_subrange;

verus! {

/// The number of stables.
pub const STABLES: usize = 6;

/// The number of places at the fence.
pub const FENCE_PLACES: usize = 4;

/// The length of an encoded chocobo name.
pub const CHOCOBO_NAME_SIZE: usize = 6;

/// The byte that fills an encoded name up to its length.
pub const NAME_FILL: u8 = 0xFF;

/// Where the slot of stable `slot` starts in the save map.
pub open spec fn stable_slot_offset(slot: int) -> int {
    if slot == 0 {
        0x0DC4
    } else if slot == 1 {
        0x0DD4
    } else if slot == 2 {
        0x0DE4
    } else if slot == 3 {
        0x0DF4
    } else if slot == 4 {
        0x1084
    } else {
        0x1094
    }
}

/// Where the target battle count of stable `slot` lies in the save map.
pub open spec fn target_battle_count_offset(slot: int) -> int {
    if slot == 0 {
        0x0D01
    } else if slot == 1 {
        0x0D08
    } else if slot == 2 {
        0x0D0A
    } else if slot == 3 {
        0x0D0C
    } else if slot == 4 {
        0x0D0E
    } else {
        0x0D10
    }
}

/// Where the slot of stable `slot` starts in the save map.
fn slot_offset(slot: usize) -> (offset: u64)
    requires
        slot < STABLES,
    ensures
        offset == stable_slot_offset(slot as int),
{
    if slot == 0 {
        0x0DC4
    } else if slot == 1 {
        0x0DD4
    } else if slot == 2 {
        0x0DE4
    } else if slot == 3 {
        0x0DF4
    } else if slot == 4 {
        0x1084
    } else {
        0x1094
    }
}

/// Where the target battle count of stable `slot` lies in the save map.
fn target_offset(slot: usize) -> (offset: u64)
    requires
        slot < STABLES,
    ensures
        offset == target_battle_count_offset(slot as int),
{
    if slot == 0 {
        0x0D01
    } else if slot == 1 {
        0x0D08
    } else if slot == 2 {
        0x0D0A
    } else if slot == 3 {
        0x0D0C
    } else if slot == 4 {
        0x0D0E
    } else {
        0x0D10
    }
}

/// What a write to a numbered slot does: a slot number from `slots` on is
/// refused with `refusal` and nothing changes; else `bytes` are written at
/// `address`.
pub open spec fn stored_in_slot(
    before: &ProcessMemory,
    after: &ProcessMemory,
    slot: usize,
    slots: usize,
    refusal: GameError,
    address: int,
    bytes: Seq<u8>,
    r: Result<(), GameError>,
) -> bool {
    if slot >= slots {
        r == Err::<(), GameError>(refusal) && *after == *before
    } else {
        stored(before, after, address, bytes, r)
    }
}

/// The 16 bytes of a stable slot: four 16-bit speeds, then eight bytes.
pub open spec fn chocobo_slot_bytes(chocobo: ChocoboSlot) -> Seq<u8> {
    u16_bytes(chocobo.sprint_speed) + u16_bytes(chocobo.max_sprint_speed) + u16_bytes(
        chocobo.speed,
    ) + u16_bytes(chocobo.max_speed) + seq![
        chocobo.acceleration,
        chocobo.cooperation,
        chocobo.intelligence,
        chocobo.personality,
        chocobo.pcount,
        chocobo.races_won,
        chocobo.sex,
        chocobo.color,
    ]
}

/// An encoded name filled up to 6 bytes with [`NAME_FILL`].
pub open spec fn padded_name(name: Seq<u8>) -> Seq<u8> {
    name + Seq::new((CHOCOBO_NAME_SIZE - name.len()) as nat, |i: int| NAME_FILL)
}

/// Writes the chocobo of stable `slot_index`: the 16 bytes of its slot, then
/// its rating. Where the slot cannot be written, the rating is left alone.
pub fn write_chocobo_slot(
    mem: &mut ProcessMemory,
    addresses: &FF7Addresses,
    slot_index: usize,
    chocobo: &ChocoboSlot,
) -> (r: Result<(), GameError>)
    ensures
        if slot_index >= STABLES {
            r == Err::<(), GameError>(GameError::InvalidChocoboSlot) && *final(mem) == *old(mem)
        } else {
            stored_both(
                old(mem),
                final(mem),
                addresses.savemap + stable_slot_offset(slot_index as int),
                chocobo_slot_bytes(*chocobo),
                addresses.savemap + 0xE3E + slot_index,
                seq![chocobo.rating],
                r,
            )
        },
{
    if slot_index >= STABLES {
        return Err(GameError::InvalidChocoboSlot);
    }
    let savemap = addresses.savemap as u64;
    let record: [u8; 16] = [
        (chocobo.sprint_speed % 256) as u8,
        (chocobo.sprint_speed / 256) as u8,
        (chocobo.max_sprint_speed % 256) as u8,
        (chocobo.max_sprint_speed / 256) as u8,
        (chocobo.speed % 256) as u8,
        (chocobo.speed / 256) as u8,
        (chocobo.max_speed % 256) as u8,
        (chocobo.max_speed / 256) as u8,
        chocobo.acceleration,
        chocobo.cooperation,
        chocobo.intelligence,
        chocobo.personality,
        chocobo.pcount,
        chocobo.races_won,
        chocobo.sex,
        chocobo.color,
    ];
    assert(record@ =~= chocobo_slot_bytes(*chocobo));
    mem.write(savemap + slot_offset(slot_index), record.as_slice())?;
    let ghost between = *mem;
    let rating: [u8; 1] = [chocobo.rating];
    assert(rating@ =~= seq![chocobo.rating]);
    let r = mem.write(savemap + 0xE3E + slot_index as u64, rating.as_slice());
    assert(stored(
        old(mem),
        &between,
        addresses.savemap + stable_slot_offset(slot_index as int),
        chocobo_slot_bytes(*chocobo),
        Ok(()),
    ));
    r
}

/// Writes the rating of the chocobo at place `slot_index` of the fence.
pub fn write_fenced_chocobo(
    mem: &mut ProcessMemory,
    addresses: &FF7Addresses,
    slot_index: usize,
    rating: u8,
) -> (r: Result<(), GameError>)
    ensures
        stored_in_slot(
            old(mem),
            final(mem),
            slot_index,
            FENCE_PLACES,
            GameError::InvalidFencedChocoboSlot,
            addresses.savemap + 0x0BF9 + slot_index,
            seq![rating],
            r,
        ),
{
    if slot_index >= FENCE_PLACES {
        return Err(GameError::InvalidFencedChocoboSlot);
    }
    let bytes: [u8; 1] = [rating];
    assert(bytes@ =~= seq![rating]);
    mem.write(addresses.savemap as u64 + 0x0BF9 + slot_index as u64, bytes.as_slice())
}

/// Writes the mask of the stables in use.
pub fn write_stable_occupation_mask(
    mem: &mut ProcessMemory,
    addresses: &FF7Addresses,
    mask: u8,
) -> (r: Result<(), GameError>)
    ensures
        stored(old(mem), final(mem), addresses.savemap + 0x0CFF, seq![mask], r),
{
    let bytes: [u8; 1] = [mask];
    assert(bytes@ =~= seq![mask]);
    mem.write(addresses.savemap as u64 + 0x0CFF, bytes.as_slice())
}

/// Writes the name of the chocobo of stable `slot_index`. A name shorter
/// than 6 bytes is filled up with [`NAME_FILL`]; a longer one is refused.
pub fn write_chocobo_name(
    mem: &mut ProcessMemory,
    addresses: &FF7Addresses,
    slot_index: usize,
    encoded_name: Vec<u8>,
) -> (r: Result<(), GameError>)
    ensures
        if slot_index >= STABLES {
            r == Err::<(), GameError>(GameError::InvalidChocoboSlot) && *final(mem) == *old(mem)
        } else if encoded_name@.len() > CHOCOBO_NAME_SIZE {
            r == Err::<(), GameError>(GameError::EncodedNameTooLong) && *final(mem) == *old(mem)
        } else {
            stored(
                old(mem),
                final(mem),
                addresses.savemap + 0x0EC4 + 6 * slot_index,
                padded_name(encoded_name@),
                r,
            )
        },
{
    if slot_index >= STABLES {
        return Err(GameError::InvalidChocoboSlot);
    }
    if encoded_name.len() > CHOCOBO_NAME_SIZE {
        return Err(GameError::EncodedNameTooLong);
    }
    let mut name_data = encoded_name;
    while name_data.len() < CHOCOBO_NAME_SIZE
        invariant
            encoded_name@.len() <= name_data@.len() <= CHOCOBO_NAME_SIZE,
            name_data@ == encoded_name@ + Seq::new(
                (name_data@.len() - encoded_name@.len()) as nat,
                |i: int| NAME_FILL,
            ),
        decreases CHOCOBO_NAME_SIZE - name_data@.len(),
    {
        let ghost before = name_data@;
        name_data.push(NAME_FILL);
        assert(name_data@ =~= encoded_name@ + Seq::new(
            (name_data@.len() - encoded_name@.len()) as nat,
            |i: int| NAME_FILL,
        ));
    }
    mem.write(addresses.savemap as u64 + 0x0EC4 + 6 * (slot_index as u64), name_data.as_slice())
}

/// Writes the stamina of the chocobo of stable `slot_index`.
pub fn write_chocobo_stamina(
    mem: &mut ProcessMemory,
    addresses: &FF7Addresses,
    slot_index: usize,
    stamina: u16,
) -> (r: Result<(), GameError>)
    ensures
        stored_in_slot(
            old(mem),
            final(mem),
            slot_index,
            STABLES,
            GameError::InvalidChocoboSlot,
            addresses.savemap + 0x0EE8 + 2 * slot_index,
            u16_bytes(stamina),
            r,
        ),
{
    if slot_index >= STABLES {
        return Err(GameError::InvalidChocoboSlot);
    }
    mem.write_u16(addresses.savemap as u64 + 0x0EE8 + 2 * (slot_index as u64), stamina)
}

/// Writes the battle count from which on the chocobo of stable `slot_index`
/// can mate.
pub fn write_chocobo_target_battle_count(
    mem: &mut ProcessMemory,
    addresses: &FF7Addresses,
    slot_index: usize,
    target_battle_count: u16,
) -> (r: Result<(), GameError>)
    ensures
        stored_in_slot(
            old(mem),
            final(mem),
            slot_index,
            STABLES,
            GameError::InvalidChocoboSlot,
            addresses.savemap + target_battle_count_offset(slot_index as int),
            u16_bytes(target_battle_count),
            r,
        ),
{
    if slot_index >= STABLES {
        return Err(GameError::InvalidChocoboSlot);
    }
    mem.write_u16(addresses.savemap as u64 + target_offset(slot_index), target_battle_count)
}

/// Writes the number of stables owned.
pub fn write_stables_owned(mem: &mut ProcessMemory, addresses: &FF7Addresses, count: u8) -> (r:
    Result<(), GameError>)
    ensures
        stored(old(mem), final(mem), addresses.savemap + 0x0CFC, seq![count], r),
{
    let bytes: [u8; 1] = [count];
    assert(bytes@ =~= seq![count]);
    mem.write(addresses.savemap as u64 + 0x0CFC, bytes.as_slice())
}

/// Writes the number of stables in use.
pub fn write_occupied_stables(mem: &mut ProcessMemory, addresses: &FF7Addresses, count: u8) -> (r:
    Result<(), GameError>)
    ensures
        stored(old(mem), final(mem), addresses.savemap + 0x0CFD, seq![count], r),
{
    let bytes: [u8; 1] = [count];
    assert(bytes@ =~= seq![count]);
    mem.write(addresses.savemap as u64 + 0x0CFD, bytes.as_slice())
}

/// Reads the number of battles fought.
pub fn read_current_battle_count(mem: &ProcessMemory, addresses: &FF7Addresses) -> (r: Result<
    u16,
    GameError,
>)
    ensures
        fetched(
            mem,
            addresses.battle_count as int,
            2,
            mem.u16_at(addresses.battle_count as int),
            r,
        ),
{
    mem.read_u16(addresses.battle_count as u64)
}

/// The mask of the chocobos that cannot mate, after the chocobo of stable
/// `slot` was allowed or forbidden to.
pub open spec fn mate_mask(mask: u8, slot: u8, can_mate: bool) -> u8 {
    if can_mate {
        mask & !(1u8 << slot)
    } else {
        mask | (1u8 << slot)
    }
}

/// The battle count from which on a chocobo can mate: the current one where
/// it can at once, else the next one. The count is 16 bits wide and starts
/// over after 65535, as the game's own does.
pub open spec fn mate_target(battle_count: u16, can_mate: bool) -> u16 {
    if can_mate {
        battle_count
    } else if battle_count == 0xFFFF {
        0
    } else {
        (battle_count + 1) as u16
    }
}

/// Allows or forbids the chocobo of stable `slot_index` to mate: its target
/// battle count is set first, then its bit in the mask of the chocobos that
/// cannot mate.
pub fn set_chocobo_can_mate(
    mem: &mut ProcessMemory,
    addresses: &FF7Addresses,
    slot_index: usize,
    can_mate: bool,
) -> (r: Result<(), GameError>)
    ensures
        if slot_index >= STABLES {
            r == Err::<(), GameError>(GameError::InvalidChocoboSlot) && *final(mem) == *old(mem)
        } else if !old(mem).readable(addresses.savemap + 0x0D00, 1) {
            &&& r == Err::<(), GameError>(
                GameError::Inaccessible { address: (addresses.savemap + 0x0D00) as u64, size: 1 },
            )
            &&& *final(mem) == *old(mem)
        } else if !old(mem).readable(addresses.battle_count as int, 2) {
            &&& r == Err::<(), GameError>(
                GameError::Inaccessible { address: addresses.battle_count as u64, size: 2 },
            )
            &&& *final(mem) == *old(mem)
        } else {
            stored_both(
                old(mem),
                final(mem),
                addresses.savemap + target_battle_count_offset(slot_index as int),
                u16_bytes(
                    mate_target(old(mem).u16_at(addresses.battle_count as int), can_mate),
                ),
                addresses.savemap + 0x0D00,
                seq![
                    mate_mask(
                        old(mem).u8_at(addresses.savemap + 0x0D00),
                        slot_index as u8,
                        can_mate,
                    ),
                ],
                r,
            )
        },
{
    if slot_index >= STABLES {
        return Err(GameError::InvalidChocoboSlot);
    }
    let savemap = addresses.savemap as u64;
    let mask = mem.read_u8(savemap + 0x0D00)?;
    let battle_count = mem.read_u16(addresses.battle_count as u64)?;
    let slot = slot_index as u8;
    let (new_mask, target): (u8, u16) = if can_mate {
        (mask & !(1u8 << slot), battle_count)
    } else {
        (mask | (1u8 << slot), battle_count.wrapping_add(1))
    };
    assert(new_mask == mate_mask(mask, slot, can_mate));
    assert(target == mate_target(battle_count, can_mate));
    mem.write_u16(savemap + target_offset(slot_index), target)?;
    let ghost between = *mem;
    let bytes: [u8; 1] = [new_mask];
    assert(bytes@ =~= seq![new_mask]);
    let r = mem.write(savemap + 0x0D00, bytes.as_slice());
    assert(stored(
        old(mem),
        &between,
        addresses.savemap + target_battle_count_offset(slot_index as int),
        u16_bytes(target),
        Ok(()),
    ));
    r
}

/// Where the chocobo area of the save map starts: at its first byte that
/// holds anything of the chocobos.
pub const CHOCOBO_AREA_START: usize = 0x0BF9;

/// The size of the chocobo area: it ends with the last stable slot, at
/// 0x10A4.
pub const CHOCOBO_AREA_SIZE: usize = 0x04AB;

/// Where the byte at `offset` of the save map lies in the chocobo area.
pub open spec fn in_area(offset: int) -> int {
    offset - CHOCOBO_AREA_START
}

/// Whether stable `slot` is in use under the mask `mask`.
pub open spec fn stable_occupied(mask: u8, slot: u8) -> bool {
    mask & (1u8 << slot) != 0
}

/// The chocobo of stable `slot`, as the chocobo area `area` holds it.
pub open spec fn chocobo_slot_at(area: Seq<u8>, slot: int) -> ChocoboSlot {
    let at = in_area(stable_slot_offset(slot));
    ChocoboSlot {
        sprint_speed: u16_at(area, at),
        max_sprint_speed: u16_at(area, at + 0x2),
        speed: u16_at(area, at + 0x4),
        max_speed: u16_at(area, at + 0x6),
        acceleration: u8_at(area, at + 0x8),
        cooperation: u8_at(area, at + 0x9),
        intelligence: u8_at(area, at + 0xA),
        personality: u8_at(area, at + 0xB),
        pcount: u8_at(area, at + 0xC),
        races_won: u8_at(area, at + 0xD),
        rating: u8_at(area, in_area(0x0E3E) + slot),
        sex: u8_at(area, at + 0xE),
        color: u8_at(area, at + 0xF),
    }
}

/// The chocobo of stable `slot`, if the stable is in use.
pub open spec fn stable_chocobo_at(area: Seq<u8>, slot: int) -> Option<ChocoboSlot> {
    if stable_occupied(u8_at(area, in_area(0x0CFF)), slot as u8) {
        Some(chocobo_slot_at(area, slot))
    } else {
        None
    }
}

/// The bytes of the names of the six stable chocobos.
pub open spec fn chocobo_name_texts(area: Seq<u8>) -> Seq<Seq<u8>> {
    Seq::new(
        STABLES as nat,
        |i: int| field_text(area.subrange(in_area(0x0EC4) + 6 * i, in_area(0x0EC4) + 6 * i + 6)),
    )
}

/// `data` holds what the chocobo area `area` holds, but for the names.
pub open spec fn chocobo_data_matches(area: Seq<u8>, data: ChocoboData) -> bool {
    &&& forall|i: int|
        0 <= i < FENCE_PLACES ==> (#[trigger] data.fenced_chocobos@[i]).rating == u8_at(area, i)
    &&& data.stables_owned == u8_at(area, in_area(0x0CFC))
    &&& data.occupied_stables == u8_at(area, in_area(0x0CFD))
    &&& data.stables_occupied_mask == u8_at(area, in_area(0x0CFF))
    &&& data.cant_mate_mask == u8_at(area, in_area(0x0D00))
    &&& forall|i: int|
        0 <= i < STABLES ==> #[trigger] data.stable_chocobos@[i] == stable_chocobo_at(area, i)
    &&& forall|i: int|
        0 <= i < STABLES ==> #[trigger] data.chocobo_stamina@[i] == u16_at(
            area,
            in_area(0x0EE8) + 2 * i,
        )
    &&& forall|i: int|
        0 <= i < STABLES ==> #[trigger] data.chocobo_target_battle_counts@[i] == u16_at(
            area,
            in_area(target_battle_count_offset(i)),
        )
}

/// `r` is what the chocobo area `area` gives: the chocobos, or the failure
/// of the first name that cannot be decoded.
pub open spec fn chocobos_decoded<F: Fn(&[u8]) -> Result<String, DecodeError>>(
    area: Seq<u8>,
    decode: F,
    r: Result<ChocoboData, GameError>,
) -> bool {
    match r {
        Ok(data) => {
            &&& chocobo_data_matches(area, data)
            &&& names_read(decode, chocobo_name_texts(area), Ok(name_views(data.chocobo_names@)))
        },
        Err(e) => names_read(decode, chocobo_name_texts(area), Err(e)),
    }
}

/// The chocobo of stable `slot`, if the stable is in use.
fn stable_chocobo(area: &[u8], slot: usize) -> (chocobo: Option<ChocoboSlot>)
    requires
        area@.len() == CHOCOBO_AREA_SIZE,
        slot < STABLES,
    ensures
        chocobo == stable_chocobo_at(area@, slot as int),
{
    let mask = area[0x0CFF - CHOCOBO_AREA_START];
    if mask & (1u8 << (slot as u8)) != 0 {
        let at = slot_offset(slot) as usize - CHOCOBO_AREA_START;
        Some(
            ChocoboSlot {
                sprint_speed: get_u16(area, at),
                max_sprint_speed: get_u16(area, at + 0x2),
                speed: get_u16(area, at + 0x4),
                max_speed: get_u16(area, at + 0x6),
                acceleration: area[at + 0x8],
                cooperation: area[at + 0x9],
                intelligence: area[at + 0xA],
                personality: area[at + 0xB],
                pcount: area[at + 0xC],
                races_won: area[at + 0xD],
                rating: area[0x0E3E - CHOCOBO_AREA_START + slot],
                sex: area[at + 0xE],
                color: area[at + 0xF],
            },
        )
    } else {
        None
    }
}

/// The target battle count of stable `slot`.
fn target_battle_count(area: &[u8], slot: usize) -> (count: u16)
    requires
        area@.len() == CHOCOBO_AREA_SIZE,
        slot < STABLES,
    ensures
        count == u16_at(area@, in_area(target_battle_count_offset(slot as int))),
{
    get_u16(area, target_offset(slot) as usize - CHOCOBO_AREA_START)
}

/// Reads all that the save map holds of the chocobos. The chocobo area is
/// read as a whole, 1195 bytes from offset 0x0BF9 of the save map on; then
/// the names are decoded one after the other.
pub fn read_chocobo_data<F: Fn(&[u8]) -> Result<String, DecodeError>>(
    mem: &ProcessMemory,
    addresses: &FF7Addresses,
    decode: &F,
) -> (r: Result<ChocoboData, GameError>)
    requires
        text_codec(*decode),
    ensures
        if mem.readable(addresses.savemap + CHOCOBO_AREA_START, CHOCOBO_AREA_SIZE as int) {
            chocobos_decoded(
                mem.span(addresses.savemap + CHOCOBO_AREA_START, CHOCOBO_AREA_SIZE as int),
                *decode,
                r,
            )
        } else {
            r == Err::<ChocoboData, GameError>(
                ProcessMemory::fault(
                    addresses.savemap + CHOCOBO_AREA_START,
                    CHOCOBO_AREA_SIZE as int,
                ),
            )
        },
{
    let block = mem.read(addresses.savemap as u64 + CHOCOBO_AREA_START as u64, CHOCOBO_AREA_SIZE)?;
    let area = block.as_slice();
    let names_at: usize = 0x0EC4 - CHOCOBO_AREA_START;
    let mut texts: Vec<Vec<u8>> = Vec::new();
    let mut i: usize = 0;
    while i < STABLES
        invariant
            i <= STABLES,
            names_at == in_area(0x0EC4),
            area@.len() == CHOCOBO_AREA_SIZE,
            byte_views(texts@) == chocobo_name_texts(area@).take(i as int),
        decreases STABLES - i,
    {
        let text = name_text(slice_subrange(area, names_at + 6 * i, names_at + 6 * i + 6));
        let ghost before = byte_views(texts@);
        texts.push(text);
        i += 1;
        proof {
            assert(byte_views(texts@) =~= before.push(text@));
            assert(byte_views(texts@) =~= chocobo_name_texts(area@).take(i as int));
        }
    }
    assert(chocobo_name_texts(area@).take(STABLES as int) =~= chocobo_name_texts(area@));
    let names = decode_names(texts, decode)?;
    let stamina_at: usize = 0x0EE8 - CHOCOBO_AREA_START;
    let data = ChocoboData {
        fenced_chocobos: [
            FencedChocobo { rating: area[0] },
            FencedChocobo { rating: area[1] },
            FencedChocobo { rating: area[2] },
            FencedChocobo { rating: area[3] },
        ],
        stables_owned: area[0x0CFC - CHOCOBO_AREA_START],
        occupied_stables: area[0x0CFD - CHOCOBO_AREA_START],
        stables_occupied_mask: area[0x0CFF - CHOCOBO_AREA_START],
        cant_mate_mask: area[0x0D00 - CHOCOBO_AREA_START],
        stable_chocobos: [
            stable_chocobo(area, 0),
            stable_chocobo(area, 1),
            stable_chocobo(area, 2),
            stable_chocobo(area, 3),
            stable_chocobo(area, 4),
            stable_chocobo(area, 5),
        ],
        chocobo_names: [
            names[0].clone(),
            names[1].clone(),
            names[2].clone(),
            names[3].clone(),
            names[4].clone(),
            names[5].clone(),
        ],
        chocobo_stamina: [
            get_u16(area, stamina_at),
            get_u16(area, stamina_at + 2),
            get_u16(area, stamina_at + 4),
            get_u16(area, stamina_at + 6),
            get_u16(area, stamina_at + 8),
            get_u16(area, stamina_at + 10),
        ],
        chocobo_target_battle_counts: [
            target_battle_count(area, 0),
            target_battle_count(area, 1),
            target_battle_count(area, 2),
            target_battle_count(area, 3),
            target_battle_count(area, 4),
            target_battle_count(area, 5),
        ],
    };
    assert(name_views(data.chocobo_names@) =~= name_views(names@));
    Ok(data)
}

} // verus!
