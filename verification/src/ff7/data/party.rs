//! The characters, as the save map holds them: nine records of 132 bytes.
//!
//! | offset | content |
//! |---|---|
//! | 0x00 | id, level, six stats, six stat bonuses, limit level, limit bar |
//! | 0x10 | name, at most 24 bytes |
//! | 0x1C | weapon, armor, accessory, status, order |
//! | 0x22 | limit skills, kills, uses of three limits |
//! | 0x2C | HP, base HP, MP, base MP |
//! | 0x38 | maximum HP, maximum MP |
//! | 0x3C | experience |
//! | 0x40 | 8 weapon materia slots, 4 bytes each |
//! | 0x60 | 8 armor materia slots, 4 bytes each |
//! | 0x80 | experience to the next level |
//!
//! The name field reaches over the bytes at 0x1C to 0x27: the game never
//! writes a name that long.

use crate::ff7::addresses::FF7Addresses;
use crate::ff7::data::kernel::{byte_views, decode_names, name_text, name_views, names_read};
use crate::ff7::data::scene_layout::field_text;
use crate::ff7::ff7text::{text_codec, DecodeError};
use crate::ff7::types::party::{MateriaSlot, PartyMember};
use crate::utils::cursor::{get_u16, get_u32, u16_at, u32_at, u8_at};
use crate::utils::error::GameError;
use crate::utils::memory::{fetched, ProcessMemory};
use vstd::prelude::*;
use vstd::slice::slice_subrange;

verus! {

/// The number of characters.
pub const PARTY_SIZE: usize = 9;

/// The size of the record of one character.
pub const CHAR_RECORD_LENGTH: usize = 0x84;

/// The number of materia slots of a weapon or an armor.
pub const MATERIA_SLOTS: usize = 8;

/// The word of a materia slot that holds no materia.
pub const NO_MATERIA: u32 = 0xFFFF_FFFF;

/// The materia slot that the word `word` stands for: the id in its low byte
/// and the ability points in the three bytes above; the id 0xFF and no
/// points for an empty slot.
pub open spec fn materia_slot_of(word: u32) -> MateriaSlot {
    if word == NO_MATERIA {
        MateriaSlot { id: 0xFF, ap: 0 }
    } else {
        MateriaSlot { id: (word % 256) as u8, ap: word / 256 }
    }
}

/// The materia slot that `word` stands for.
pub fn materia_slot(word: u32) -> (slot: MateriaSlot)
    ensures
        slot == materia_slot_of(word),
{
    if word == NO_MATERIA {
        MateriaSlot { id: 0xFF, ap: 0 }
    } else {
        MateriaSlot { id: (word % 256) as u8, ap: word / 256 }
    }
}

/// Reads the materia slot at `addr`.
pub fn read_materia_slot(mem: &ProcessMemory, addr: u32) -> (r: Result<MateriaSlot, GameError>)
    ensures
        fetched(mem, addr as int, 4, materia_slot_of(mem.u32_at(addr as int)), r),
{
    let word = mem.read_u32(addr as u64)?;
    Ok(materia_slot(word))
}

/// The `MATERIA_SLOTS` materia slots that start at `at` in `records`.
pub open spec fn materia_at(records: Seq<u8>, at: int) -> Seq<MateriaSlot> {
    Seq::new(MATERIA_SLOTS as nat, |j: int| materia_slot_of(u32_at(records, at + 4 * j)))
}

/// The bytes of the name of the character whose record starts at `at`.
pub open spec fn member_name_text(records: Seq<u8>, at: int) -> Seq<u8> {
    field_text(records.subrange(at + 0x10, at + 0x28))
}

/// The bytes of the names of the first `n` characters.
pub open spec fn member_name_texts(records: Seq<u8>, n: nat) -> Seq<Seq<u8>> {
    Seq::new(n, |i: int| member_name_text(records, CHAR_RECORD_LENGTH * i))
}

/// `member` holds what the record at `at` holds, but for the name.
pub open spec fn member_matches(records: Seq<u8>, at: int, member: PartyMember) -> bool {
    &&& member.id == u8_at(records, at)
    &&& member.level == u8_at(records, at + 0x01)
    &&& member.strength == u8_at(records, at + 0x02)
    &&& member.vitality == u8_at(records, at + 0x03)
    &&& member.magic == u8_at(records, at + 0x04)
    &&& member.spirit == u8_at(records, at + 0x05)
    &&& member.dexterity == u8_at(records, at + 0x06)
    &&& member.luck == u8_at(records, at + 0x07)
    &&& member.strength_bonus == u8_at(records, at + 0x08)
    &&& member.vitality_bonus == u8_at(records, at + 0x09)
    &&& member.magic_bonus == u8_at(records, at + 0x0A)
    &&& member.spirit_bonus == u8_at(records, at + 0x0B)
    &&& member.dexterity_bonus == u8_at(records, at + 0x0C)
    &&& member.luck_bonus == u8_at(records, at + 0x0D)
    &&& member.limit_level == u8_at(records, at + 0x0E)
    &&& member.limit == u8_at(records, at + 0x0F)
    &&& member.weapon == u8_at(records, at + 0x1C)
    &&& member.armor == u8_at(records, at + 0x1D)
    &&& member.accessory == u8_at(records, at + 0x1E)
    &&& member.status == u8_at(records, at + 0x1F)
    &&& member.order == u8_at(records, at + 0x20)
    &&& member.limit_skills == u16_at(records, at + 0x22)
    &&& member.kills == u16_at(records, at + 0x24)
    &&& member.limit_1_1_uses == u16_at(records, at + 0x26)
    &&& member.limit_2_1_uses == u16_at(records, at + 0x28)
    &&& member.limit_3_1_uses == u16_at(records, at + 0x2A)
    &&& member.hp == u16_at(records, at + 0x2C)
    &&& member.base_hp == u16_at(records, at + 0x2E)
    &&& member.mp == u16_at(records, at + 0x30)
    &&& member.base_mp == u16_at(records, at + 0x32)
    &&& member.max_hp == u16_at(records, at + 0x38)
    &&& member.max_mp == u16_at(records, at + 0x3A)
    &&& member.exp == u32_at(records, at + 0x3C)
    &&& member.weapon_materia@ == materia_at(records, at + 0x40)
    &&& member.armor_materia@ == materia_at(records, at + 0x60)
    &&& member.exp_to_next_level == u32_at(records, at + 0x80)
}

/// The names of `members`.
pub open spec fn member_names(members: Seq<PartyMember>) -> Seq<Seq<char>> {
    Seq::new(members.len(), |i: int| members[i].name@)
}

/// `r` is what the records `records` of the nine characters give: the
/// characters, or the failure of the first name that cannot be decoded.
pub open spec fn party_decoded<F: Fn(&[u8]) -> Result<String, DecodeError>>(
    records: Seq<u8>,
    decode: F,
    r: Result<Vec<PartyMember>, GameError>,
) -> bool {
    match r {
        Ok(members) => {
            &&& members@.len() == PARTY_SIZE
            &&& forall|i: int|
                0 <= i < PARTY_SIZE ==> member_matches(
                    records,
                    CHAR_RECORD_LENGTH * i,
                    #[trigger] members@[i],
                )
            &&& names_read(
                decode,
                member_name_texts(records, PARTY_SIZE as nat),
                Ok(member_names(members@)),
            )
        },
        Err(e) => names_read(decode, member_name_texts(records, PARTY_SIZE as nat), Err(e)),
    }
}

/// The eight materia slots that start at `at` in `records`.
fn read_materia(records: &[u8], at: usize) -> (slots: Vec<MateriaSlot>)
    requires
        at + 32 <= records@.len(),
    ensures
        slots@ == materia_at(records@, at as int),
{
    let mut slots: Vec<MateriaSlot> = Vec::new();
    let len = records.len();
    let mut j: usize = 0;
    while j < MATERIA_SLOTS
        invariant
            j <= MATERIA_SLOTS,
            len == records@.len(),
            at + 32 <= records@.len(),
            slots@.len() == j,
            forall|k: int|
                0 <= k < j ==> slots@[k] == materia_slot_of(u32_at(records@, at + 4 * k)),
        decreases MATERIA_SLOTS - j,
    {
        slots.push(materia_slot(get_u32(records, at + 4 * j)));
        j += 1;
    }
    assert(slots@ =~= materia_at(records@, at as int));
    slots
}

/// The character whose record starts at `at`, under the name `name`.
fn member_at(records: &[u8], at: usize, name: String) -> (member: PartyMember)
    requires
        at + CHAR_RECORD_LENGTH <= records@.len(),
    ensures
        member_matches(records@, at as int, member),
        member.name == name,
{
    PartyMember {
        id: records[at],
        name,
        level: records[at + 0x01],
        strength: records[at + 0x02],
        vitality: records[at + 0x03],
        magic: records[at + 0x04],
        spirit: records[at + 0x05],
        dexterity: records[at + 0x06],
        luck: records[at + 0x07],
        strength_bonus: records[at + 0x08],
        vitality_bonus: records[at + 0x09],
        magic_bonus: records[at + 0x0A],
        spirit_bonus: records[at + 0x0B],
        dexterity_bonus: records[at + 0x0C],
        luck_bonus: records[at + 0x0D],
        limit_level: records[at + 0x0E],
        status: records[at + 0x1F],
        order: records[at + 0x20],
        hp: get_u16(records, at + 0x2C),
        base_hp: get_u16(records, at + 0x2E),
        max_hp: get_u16(records, at + 0x38),
        mp: get_u16(records, at + 0x30),
        base_mp: get_u16(records, at + 0x32),
        max_mp: get_u16(records, at + 0x3A),
        limit: records[at + 0x0F],
        exp: get_u32(records, at + 0x3C),
        weapon: records[at + 0x1C],
        armor: records[at + 0x1D],
        accessory: records[at + 0x1E],
        limit_skills: get_u16(records, at + 0x22),
        kills: get_u16(records, at + 0x24),
        limit_1_1_uses: get_u16(records, at + 0x26),
        limit_2_1_uses: get_u16(records, at + 0x28),
        limit_3_1_uses: get_u16(records, at + 0x2A),
        weapon_materia: read_materia(records, at + 0x40),
        armor_materia: read_materia(records, at + 0x60),
        exp_to_next_level: get_u32(records, at + 0x80),
    }
}

/// Reads the nine characters. Their records are read as a whole, 1188 bytes
/// from `character_records` on; then their names are decoded one after the
/// other.
pub fn read_party_members<F: Fn(&[u8]) -> Result<String, DecodeError>>(
    mem: &ProcessMemory,
    addresses: &FF7Addresses,
    decode: &F,
) -> (r: Result<Vec<PartyMember>, GameError>)
    requires
        text_codec(*decode),
    ensures
        if mem.readable(addresses.character_records as int, 1188) {
            party_decoded(mem.span(addresses.character_records as int, 1188), *decode, r)
        } else {
            r == Err::<Vec<PartyMember>, GameError>(
                ProcessMemory::fault(addresses.character_records as int, 1188),
            )
        },
{
    let block = mem.read(addresses.character_records as u64, PARTY_SIZE * CHAR_RECORD_LENGTH)?;
    let records = block.as_slice();
    let mut texts: Vec<Vec<u8>> = Vec::new();
    let mut i: usize = 0;
    while i < PARTY_SIZE
        invariant
            i <= PARTY_SIZE,
            records@.len() == 1188,
            byte_views(texts@) == member_name_texts(records@, i as nat),
        decreases PARTY_SIZE - i,
    {
        let at = i * CHAR_RECORD_LENGTH;
        let text = name_text(slice_subrange(records, at + 0x10, at + 0x28));
        let ghost before = byte_views(texts@);
        texts.push(text);
        i += 1;
        proof {
            assert(byte_views(texts@) =~= before.push(text@));
            assert(text@ == member_name_text(records@, at as int));
            assert(byte_views(texts@) =~= member_name_texts(records@, i as nat));
        }
    }
    let names = decode_names(texts, decode)?;
    let mut members: Vec<PartyMember> = Vec::new();
    let mut k: usize = 0;
    while k < PARTY_SIZE
        invariant
            k <= PARTY_SIZE,
            records@.len() == 1188,
            names@.len() == PARTY_SIZE,
            members@.len() == k,
            forall|j: int|
                0 <= j < k ==> member_matches(
                    records@,
                    CHAR_RECORD_LENGTH * j,
                    #[trigger] members@[j],
                ) && members@[j].name@ == names@[j]@,
        decreases PARTY_SIZE - k,
    {
        let member = member_at(records, k * CHAR_RECORD_LENGTH, names[k].clone());
        members.push(member);
        k += 1;
    }
    assert(member_names(members@) =~= name_views(names@));
    Ok(members)
}

} // verus!
