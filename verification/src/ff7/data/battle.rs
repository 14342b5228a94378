//! The battle decoders: the scenes of the scene container, and the battle
//! that is fought, as the game's memory holds it.

use crate::ff7::addresses::{known_addresses, FF7Addresses};
use crate::ff7::data::kernel::{
    item_names_read, name_or_unknown, read_item_names, read_name_or_unknown, KERNEL_NAME_SIZE,
};
use crate::ff7::data::scene_index::{
    entries_in_bounds, lemma_empty_block_cut_out, scene_index, scene_index_of, scene_spans,
    scenes_end_in_file, spans_of, whole_blocks, SceneIndexEntry, END_OF_HEADER, SCENE_SIZE,
};
use crate::ff7::data::scene_layout::{
    attack_decoded, attack_id_at, attack_name_at, attack_slots, attacks_decoded, battle_setup_at,
    camera_placement_at, camera_position_at, enemy_at, enemy_decoded, field_text,
    formation_entry_at, formation_of, lemma_text_len, name_decoded, name_field,
    scene_complete, scene_decoded, undecodable_name, used_entries, ATTACK_DATA_SIZE,
    ATTACK_IDS_BASE, ATTACK_SLOTS, ENEMY_BASE, ENEMY_SIZE, FORMATION_SLOTS,
    NAME_END, NAME_SIZE, NO_ID, SETUP_BASE,
};
use crate::ff7::ff7text::{codec_answers, decoded_text, text_codec, DecodeError};
use crate::ff7::types::battle::{
    attack_views, enemy_views, formation_views, BattleCharObj, EnemyData, Scene, SceneAttack,
    SceneAttackView, SceneBattleFormationEntry, SceneBattleSetup, SceneCameraPlacement,
    SceneCameraPosition, SceneElementRate, SceneEnemy, SceneEnemyItem, SceneFormation, SceneView,
};
use crate::ff7::types::items::{Item, ItemType};
use crate::ff7::types::kernel::Elemental;
use crate::utils::cursor::{get_u16, get_u32, u16_at, u16s_at, u32_at, u8_at, ByteCursor, ReadError};
use crate::utils::error::GameError;
use crate::utils::memory::ProcessMemory;
use flate2::read::GzDecoder;
use std::io::{ErrorKind, Read};
use vstd::prelude::*;
use vstd::slice::slice_subrange;

verus! {

/// Decodes the name held in a name field: the bytes before the first end
/// marker go to the codec, and the placeholder name stands for bytes that it
/// cannot decode.
pub fn read_string_from_bytes<F: Fn(&[u8]) -> Result<String, DecodeError>>(
    bytes: &[u8],
    decode: &F,
) -> (name: String)
    requires
        text_codec(*decode),
    ensures
        name_decoded(*decode, bytes@, name@),
{
    let mut end: usize = 0;
    while end < bytes.len() && bytes[end] != NAME_END
        invariant
            end <= bytes.len(),
            forall|j: int| 0 <= j < end ==> bytes@[j] != NAME_END,
        decreases bytes.len() - end,
    {
        end += 1;
    }
    let text = slice_subrange(bytes, 0, end);
    let answer = decode(text);
    proof {
        lemma_text_len(bytes@, end as int);
        assert(text@ == field_text(bytes@));
        assert(codec_answers(*decode, field_text(bytes@), decoded_text(answer)));
    }
    match answer {
        Ok(name) => name,
        Err(_) => "Decode Error".to_string(),
    }
}

/// Reads one camera position, 12 bytes.
pub fn parse_camera_position(cursor: &mut ByteCursor) -> (r: Result<
    SceneCameraPosition,
    ReadError,
>)
    ensures
        match r {
            Ok(position) => {
                &&& old(cursor).has(12)
                &&& final(cursor).advanced(old(cursor), 12)
                &&& position == camera_position_at(old(cursor).bytes(), old(cursor).position())
            },
            Err(_) => !old(cursor).has(12) && *final(cursor) == *old(cursor),
        },
{
    if !cursor.can_read(12) {
        return Err(ReadError::UnexpectedEof);
    }
    let x_pos = cursor.read_i16()?;
    let y_pos = cursor.read_i16()?;
    let z_pos = cursor.read_i16()?;
    let x_dir = cursor.read_i16()?;
    let y_dir = cursor.read_i16()?;
    let z_dir = cursor.read_i16()?;
    Ok(SceneCameraPosition { x_pos, y_pos, z_pos, x_dir, y_dir, z_dir })
}

/// Reads one battle setup, 20 bytes.
pub fn parse_battle_setup(cursor: &mut ByteCursor) -> (r: Result<SceneBattleSetup, ReadError>)
    ensures
        match r {
            Ok(setup) => {
                &&& old(cursor).has(20)
                &&& final(cursor).advanced(old(cursor), 20)
                &&& setup@ == battle_setup_at(old(cursor).bytes(), old(cursor).position())
            },
            Err(_) => !old(cursor).has(20) && *final(cursor) == *old(cursor),
        },
{
    if !cursor.can_read(20) {
        return Err(ReadError::UnexpectedEof);
    }
    let battle_location = cursor.read_u16()?;
    let next_formation_id_on_win = cursor.read_u16()?;
    let escape_counter = cursor.read_u16()?;
    cursor.skip(2);
    let next_battle_arena_candidates = cursor.read_u16_array::<4>()?;
    let flags = cursor.read_u16()?;
    let battle_layout_type = cursor.read_u8()?;
    let pre_battle_camera_pos_index = cursor.read_u8()?;
    Ok(
        SceneBattleSetup {
            battle_location,
            next_formation_id_on_win,
            escape_counter,
            next_battle_arena_candidates,
            flags,
            battle_layout_type,
            pre_battle_camera_pos_index,
        },
    )
}

/// Reads one camera placement, 48 bytes: the idle camera, its two
/// alternates, and 12 bytes of padding.
pub fn parse_camera_placement(cursor: &mut ByteCursor) -> (r: Result<
    SceneCameraPlacement,
    ReadError,
>)
    ensures
        match r {
            Ok(placement) => {
                &&& old(cursor).has(48)
                &&& final(cursor).advanced(old(cursor), 48)
                &&& placement@ == camera_placement_at(
                    old(cursor).bytes(),
                    old(cursor).position(),
                )
            },
            Err(_) => !old(cursor).has(48) && *final(cursor) == *old(cursor),
        },
{
    if !cursor.can_read(48) {
        return Err(ReadError::UnexpectedEof);
    }
    let primary_idle_camera = parse_camera_position(cursor)?;
    let first = parse_camera_position(cursor)?;
    let second = parse_camera_position(cursor)?;
    cursor.skip(12);
    let placement = SceneCameraPlacement {
        primary_idle_camera,
        other_camera_positions: [first, second],
    };
    assert(placement@.other_camera_positions =~= camera_placement_at(
        old(cursor).bytes(),
        old(cursor).position(),
    ).other_camera_positions);
    Ok(placement)
}

/// Reads one formation entry, 16 bytes, whatever its enemy id.
pub fn parse_battle_formation_entry(cursor: &mut ByteCursor) -> (r: Result<
    SceneBattleFormationEntry,
    ReadError,
>)
    ensures
        match r {
            Ok(entry) => {
                &&& old(cursor).has(16)
                &&& final(cursor).advanced(old(cursor), 16)
                &&& entry == formation_entry_at(old(cursor).bytes(), old(cursor).position())
            },
            Err(_) => !old(cursor).has(16) && *final(cursor) == *old(cursor),
        },
{
    if !cursor.can_read(16) {
        return Err(ReadError::UnexpectedEof);
    }
    let enemy_id = cursor.read_u16()?;
    let pos_x = cursor.read_i16()?;
    let pos_y = cursor.read_i16()?;
    let pos_z = cursor.read_i16()?;
    let row = cursor.read_u16()?;
    let cover_flags = cursor.read_u16()?;
    let initial_condition_flags = cursor.read_u32()?;
    Ok(
        SceneBattleFormationEntry {
            enemy_id,
            pos_x,
            pos_y,
            pos_z,
            row,
            cover_flags,
            initial_condition_flags,
        },
    )
}

/// Reads the six entry slots of one formation, 96 bytes, and keeps the used
/// ones: an entry whose enemy id is [`NO_ID`] is read and dropped.
pub fn parse_formation_entries(cursor: &mut ByteCursor) -> (r: Result<
    Vec<SceneBattleFormationEntry>,
    ReadError,
>)
    ensures
        match r {
            Ok(entries) => {
                &&& old(cursor).has(96)
                &&& final(cursor).advanced(old(cursor), 96)
                &&& entries@ == used_entries(
                    old(cursor).bytes(),
                    old(cursor).position(),
                    FORMATION_SLOTS as nat,
                )
                &&& forall|k: int| 0 <= k < entries@.len() ==> entries@[k].enemy_id != NO_ID
            },
            Err(_) => !old(cursor).has(96) && *final(cursor) == *old(cursor),
        },
{
    if !cursor.can_read(96) {
        return Err(ReadError::UnexpectedEof);
    }
    let mut entries: Vec<SceneBattleFormationEntry> = Vec::new();
    let mut slot: usize = 0;
    while slot < FORMATION_SLOTS
        invariant
            slot <= FORMATION_SLOTS,
            old(cursor).has(96),
            cursor.advanced(old(cursor), 16 * slot),
            entries@ == used_entries(old(cursor).bytes(), old(cursor).position(), slot as nat),
            forall|k: int| 0 <= k < entries@.len() ==> entries@[k].enemy_id != NO_ID,
        decreases FORMATION_SLOTS - slot,
    {
        let entry = parse_battle_formation_entry(cursor)?;
        if entry.enemy_id != NO_ID {
            entries.push(entry);
        }
        slot += 1;
    }
    Ok(entries)
}

/// Reads one enemy record, 184 bytes, and gives it the id `enemy_id`.
pub fn parse_enemy_data<F: Fn(&[u8]) -> Result<String, DecodeError>>(
    cursor: &mut ByteCursor,
    enemy_id: u16,
    decode: &F,
) -> (r: Result<SceneEnemy, ReadError>)
    requires
        text_codec(*decode),
    ensures
        match r {
            Ok(enemy) => {
                &&& old(cursor).has(184)
                &&& final(cursor).advanced(old(cursor), 184)
                &&& enemy_decoded(
                    old(cursor).bytes(),
                    old(cursor).position(),
                    enemy_id,
                    *decode,
                    enemy@,
                )
            },
            Err(_) => !old(cursor).has(184) && *final(cursor) == *old(cursor),
        },
{
    if !cursor.can_read(184) {
        return Err(ReadError::UnexpectedEof);
    }
    let ghost data = cursor.bytes();
    let ghost at = cursor.position();
    let name_bytes = cursor.read_bytes(NAME_SIZE)?;
    let name = read_string_from_bytes(name_bytes, decode);

    let level = cursor.read_u8()?;
    let speed = cursor.read_u8()?;
    let luck = cursor.read_u8()?;
    let evade = cursor.read_u8()?;
    let strength = cursor.read_u8()?;
    let defense = cursor.read_u8()?;
    let magic = cursor.read_u8()?;
    let magic_defense = cursor.read_u8()?;

    let element_types = cursor.read_bytes(8)?;
    let element_effect_rates = cursor.read_bytes(8)?;
    let mut element_rates = [SceneElementRate { element_type: 0, rate: 0 }; 8];
    let mut i: usize = 0;
    while i < 8
        invariant
            i <= 8,
            element_types@ == data.subrange(at + 40, at + 48),
            element_effect_rates@ == data.subrange(at + 48, at + 56),
            0 <= at,
            at + 184 <= data.len(),
            forall|j: int|
                0 <= j < i ==> element_rates@[j] == (SceneElementRate {
                    element_type: u8_at(data, at + 40 + j),
                    rate: u8_at(data, at + 48 + j),
                }),
        decreases 8 - i,
    {
        element_rates[i] = SceneElementRate {
            element_type: element_types[i],
            rate: element_effect_rates[i],
        };
        i += 1;
    }

    // Sixteen bytes of animation indexes, not decoded.
    cursor.skip(16);
    let enemy_attack_ids = cursor.read_u16_array::<16>()?;
    let enemy_attack_camera_movement_ids = cursor.read_u16_array::<16>()?;

    let item_rates = cursor.read_bytes(4)?;
    let item_ids = cursor.read_u16_array::<4>()?;
    let mut items = [SceneEnemyItem { rate: 0, item_id: 0 }; 4];
    let mut k: usize = 0;
    while k < 4
        invariant
            k <= 4,
            item_rates@ == data.subrange(at + 136, at + 140),
            item_ids@ == u16s_at(data, at + 140, 4),
            0 <= at,
            at + 184 <= data.len(),
            forall|j: int|
                0 <= j < k ==> items@[j] == (SceneEnemyItem {
                    rate: u8_at(data, at + 136 + j),
                    item_id: u16_at(data, at + 140 + 2 * j),
                }),
        decreases 4 - k,
    {
        items[k] = SceneEnemyItem { rate: item_rates[k], item_id: item_ids[k] };
        k += 1;
    }

    let manipulated_berserk_attack_indexes = cursor.read_u16_array::<3>()?;
    cursor.skip(2);
    let mp = cursor.read_u16()?;
    let ap = cursor.read_u16()?;
    let morph_item_id = cursor.read_u16()?;
    let back_damage_multiplier = cursor.read_u8()?;
    cursor.skip(1);
    let hp = cursor.read_u32()?;
    let exp = cursor.read_u32()?;
    let gil = cursor.read_u32()?;
    let status_immunities = cursor.read_u32()?;
    cursor.skip(4);

    let enemy = SceneEnemy {
        id: enemy_id,
        name,
        level,
        speed,
        luck,
        evade,
        strength,
        defense,
        magic,
        magic_defense,
        element_rates,
        enemy_attack_ids,
        enemy_attack_camera_movement_ids,
        items,
        manipulated_berserk_attack_indexes,
        mp,
        ap,
        morph_item_id,
        back_damage_multiplier,
        hp,
        exp,
        gil,
        status_immunities,
    };
    proof {
        let expected = enemy_at(data, at, enemy_id, enemy@.name);
        assert(name_bytes@ == name_field(data, at));
        assert(enemy@.element_rates =~= expected.element_rates);
        assert(enemy@.items =~= expected.items);
    }
    Ok(enemy)
}

/// Reads the name field of one attack slot, 32 bytes, and gives the attack
/// the id `attack_id`.
pub fn parse_attack<F: Fn(&[u8]) -> Result<String, DecodeError>>(
    cursor: &mut ByteCursor,
    attack_id: u16,
    decode: &F,
) -> (r: Result<SceneAttack, ReadError>)
    requires
        text_codec(*decode),
    ensures
        match r {
            Ok(attack) => {
                &&& old(cursor).has(32)
                &&& final(cursor).advanced(old(cursor), 32)
                &&& attack.id == attack_id
                &&& name_decoded(
                    *decode,
                    name_field(old(cursor).bytes(), old(cursor).position()),
                    attack.name@,
                )
            },
            Err(_) => !old(cursor).has(32) && *final(cursor) == *old(cursor),
        },
{
    let raw_name = cursor.read_bytes(NAME_SIZE)?;
    let name = read_string_from_bytes(raw_name, decode);
    Ok(SceneAttack { id: attack_id, name })
}

/// The used attack slots among the first `n` are at most `n` slots below
/// `n`, in rising order, and none of them holds [`NO_ID`].
pub proof fn lemma_attack_slots(data: Seq<u8>, n: nat)
    ensures
        attack_slots(data, n).len() <= n,
        forall|k: int|
            0 <= k < attack_slots(data, n).len() ==> {
                &&& 0 <= #[trigger] attack_slots(data, n)[k] < n
                &&& attack_id_at(data, attack_slots(data, n)[k]) != NO_ID
            },
        forall|j: int, k: int|
            0 <= j < k < attack_slots(data, n).len() ==> attack_slots(data, n)[j] < attack_slots(
                data,
                n,
            )[k],
    decreases n,
{
    if n > 0 {
        let before = attack_slots(data, (n - 1) as nat);
        let slots = attack_slots(data, n);
        lemma_attack_slots(data, (n - 1) as nat);
        assert forall|k: int| 0 <= k < slots.len() implies {
            &&& 0 <= #[trigger] slots[k] < n
            &&& attack_id_at(data, slots[k]) != NO_ID
        } by {
            if k < before.len() {
                assert(slots[k] == before[k]);
            }
        }
        assert forall|j: int, k: int| 0 <= j < k < slots.len() implies slots[j] < slots[k] by {
            assert(slots[j] == before[j]);
            if k < before.len() {
                assert(slots[k] == before[k]);
            }
        }
    }
}

/// A formation holds at most as many entries as it has slots, and none of
/// them is an unused one.
pub proof fn lemma_used_entries(data: Seq<u8>, at: int, n: nat)
    ensures
        used_entries(data, at, n).len() <= n,
        forall|k: int|
            0 <= k < used_entries(data, at, n).len() ==> (#[trigger] used_entries(
                data,
                at,
                n,
            )[k]).enemy_id != NO_ID,
    decreases n,
{
    if n > 0 {
        let before = used_entries(data, at, (n - 1) as nat);
        let entries = used_entries(data, at, n);
        lemma_used_entries(data, at, (n - 1) as nat);
        assert forall|k: int| 0 <= k < entries.len() implies (#[trigger] entries[k]).enemy_id
            != NO_ID by {
            if k < before.len() {
                assert(entries[k] == before[k]);
            }
        }
    }
}

/// Reads the setups, the camera placements and the entries of the four
/// formations, 656 bytes from offset 8 on.
fn parse_formations(cursor: &mut ByteCursor) -> (r: Result<[SceneFormation; 4], ReadError>)
    requires
        old(cursor).position() == SETUP_BASE,
    ensures
        final(cursor).bytes() == old(cursor).bytes(),
        match r {
            Ok(formations) => {
                &&& old(cursor).has(656)
                &&& final(cursor).advanced(old(cursor), 656)
                &&& formation_views(formations@) == Seq::new(
                    4,
                    |f: int| formation_of(old(cursor).bytes(), f),
                )
                &&& forall|f: int, k: int|
                    0 <= f < 4 && 0 <= k < formations@[f].enemies@.len()
                        ==> formations@[f].enemies@[k].enemy_id != NO_ID
            },
            Err(_) => !old(cursor).has(656),
        },
{
    let setup_0 = parse_battle_setup(cursor)?;
    let setup_1 = parse_battle_setup(cursor)?;
    let setup_2 = parse_battle_setup(cursor)?;
    let setup_3 = parse_battle_setup(cursor)?;

    let placement_0 = parse_camera_placement(cursor)?;
    let placement_1 = parse_camera_placement(cursor)?;
    let placement_2 = parse_camera_placement(cursor)?;
    let placement_3 = parse_camera_placement(cursor)?;

    let entries_0 = parse_formation_entries(cursor)?;
    let entries_1 = parse_formation_entries(cursor)?;
    let entries_2 = parse_formation_entries(cursor)?;
    let entries_3 = parse_formation_entries(cursor)?;

    let formations = [
        SceneFormation { setup: setup_0, camera_placement: placement_0, enemies: entries_0 },
        SceneFormation { setup: setup_1, camera_placement: placement_1, enemies: entries_1 },
        SceneFormation { setup: setup_2, camera_placement: placement_2, enemies: entries_2 },
        SceneFormation { setup: setup_3, camera_placement: placement_3, enemies: entries_3 },
    ];
    proof {
        let data = old(cursor).bytes();
        assert(formations@[0]@ == formation_of(data, 0));
        assert(formations@[1]@ == formation_of(data, 1));
        assert(formations@[2]@ == formation_of(data, 2));
        assert(formations@[3]@ == formation_of(data, 3));
        assert(formation_views(formations@) =~= Seq::new(4, |f: int| formation_of(data, f)));
    }
    Ok(formations)
}

/// Reads the three enemies, 552 bytes from offset 664 on, and gives them the
/// ids of the scene's id table.
fn parse_enemies<F: Fn(&[u8]) -> Result<String, DecodeError>>(
    cursor: &mut ByteCursor,
    ids: [u16; 3],
    decode: &F,
) -> (r: Result<[SceneEnemy; 3], ReadError>)
    requires
        text_codec(*decode),
        old(cursor).position() == ENEMY_BASE,
    ensures
        final(cursor).bytes() == old(cursor).bytes(),
        match r {
            Ok(enemies) => {
                &&& old(cursor).has(552)
                &&& final(cursor).advanced(old(cursor), 552)
                &&& forall|i: int|
                    0 <= i < 3 ==> enemy_decoded(
                        old(cursor).bytes(),
                        ENEMY_BASE + ENEMY_SIZE * i,
                        ids@[i],
                        *decode,
                        #[trigger] enemy_views(enemies@)[i],
                    )
            },
            Err(_) => !old(cursor).has(552),
        },
{
    let enemy_0 = parse_enemy_data(cursor, ids[0], decode)?;
    let enemy_1 = parse_enemy_data(cursor, ids[1], decode)?;
    let enemy_2 = parse_enemy_data(cursor, ids[2], decode)?;
    Ok([enemy_0, enemy_1, enemy_2])
}

/// Reads the attack ids and the names of the used attack slots, from offset
/// 2112 on. The name field of an unused slot is stepped over, and must be
/// there all the same.
fn parse_attacks<F: Fn(&[u8]) -> Result<String, DecodeError>>(
    cursor: &mut ByteCursor,
    decode: &F,
) -> (r: Result<Vec<SceneAttack>, ReadError>)
    requires
        text_codec(*decode),
        old(cursor).position() == ATTACK_IDS_BASE,
    ensures
        final(cursor).bytes() == old(cursor).bytes(),
        r is Ok <==> scene_complete(old(cursor).bytes()),
        r matches Ok(attacks) ==> {
            &&& attacks_decoded(
                old(cursor).bytes(),
                ATTACK_SLOTS as nat,
                *decode,
                attack_views(attacks@),
            )
            &&& forall|k: int| 0 <= k < attacks@.len() ==> attacks@[k].id != NO_ID
        },
{
    let ghost data = cursor.bytes();
    let attack_ids = cursor.read_u16_array::<32>()?;

    let mut attacks: Vec<SceneAttack> = Vec::new();
    let mut slot: usize = 0;
    while slot < ATTACK_SLOTS
        invariant
            slot <= ATTACK_SLOTS,
            text_codec(*decode),
            data == old(cursor).bytes(),
            cursor.bytes() == data,
            cursor.position() == attack_name_at(slot as int),
            data.len() >= attack_name_at(slot as int),
            attack_ids@ == u16s_at(data, ATTACK_IDS_BASE as int, 32),
            attacks_decoded(data, slot as nat, *decode, attack_views(attacks@)),
            forall|k: int| 0 <= k < attacks@.len() ==> attacks@[k].id != NO_ID,
        decreases ATTACK_SLOTS - slot,
    {
        let attack_id = attack_ids[slot];
        assert(attack_id == attack_id_at(data, slot as int));
        if attack_id != NO_ID {
            let ghost before = attack_views(attacks@);
            match parse_attack(cursor, attack_id, decode) {
                Ok(attack) => {
                    attacks.push(attack);
                    proof {
                        let after = attack_views(attacks@);
                        let slots = attack_slots(data, (slot + 1) as nat);
                        assert(after =~= before.push(attack@));
                        assert forall|k: int| 0 <= k < after.len() implies attack_decoded(
                            data,
                            #[trigger] slots[k],
                            *decode,
                            after[k],
                        ) by {
                            if k < before.len() {
                                assert(slots[k] == attack_slots(data, slot as nat)[k]);
                            }
                        }
                    }
                },
                Err(e) => {
                    return Err(e);
                },
            }
        } else {
            if !cursor.can_read(NAME_SIZE) {
                return Err(ReadError::UnexpectedEof);
            }
            cursor.skip(NAME_SIZE);
        }
        slot += 1;
    }
    Ok(attacks)
}

/// Decodes one decompressed scene.
///
/// The buffer is read front to back: three enemy ids and a padding word,
/// four battle setups, four camera placements, four times six formation
/// entries, three enemies, the attack data (skipped), thirty-two attack ids
/// and a name field for each attack slot. Whatever follows is left unread.
///
/// Unused formation entries and unused attack slots take their bytes but give
/// no record, so the name of attack slot `i` is always read from the same
/// place. The decoding fails exactly where the buffer is shorter than the
/// grammar, used slots or not: see [`scene_complete`].
pub fn parse_scene_data<F: Fn(&[u8]) -> Result<String, DecodeError>>(
    data: &[u8],
    decode: &F,
) -> (r: Result<Scene, ReadError>)
    requires
        text_codec(*decode),
    ensures
        r is Ok <==> scene_complete(data@),
        r matches Ok(scene) ==> {
            &&& scene_decoded(data@, *decode, scene@)
            &&& forall|f: int, k: int|
                0 <= f < 4 && 0 <= k < scene.formations@[f].enemies@.len()
                    ==> scene.formations@[f].enemies@[k].enemy_id != NO_ID
            &&& forall|k: int| 0 <= k < scene.attacks@.len() ==> scene.attacks@[k].id != NO_ID
        },
{
    let mut cursor = ByteCursor::new(data);
    let enemy_id_1 = cursor.read_u16()?;
    let enemy_id_2 = cursor.read_u16()?;
    let enemy_id_3 = cursor.read_u16()?;
    cursor.skip(2);
    let formations = parse_formations(&mut cursor)?;
    let enemies = parse_enemies(&mut cursor, [enemy_id_1, enemy_id_2, enemy_id_3], decode)?;
    cursor.skip(ATTACK_DATA_SIZE);
    let attacks = parse_attacks(&mut cursor, decode)?;
    Ok(Scene { enemies, formations, attacks })
}

/// Why a byte string could not be decompressed.
#[derive(Debug, Clone, Copy, PartialEq, Eq)]
pub enum GzipFailure {
    /// The bytes do not start with a gzip header: they are not compressed
    /// data.
    BadHeader,
    /// The bytes end before the compressed stream does.
    Truncated,
    /// The compressed stream is damaged.
    Corrupt,
}

/// Why a scene of the container was left out.
#[derive(Debug, Clone, Copy, PartialEq, Eq)]
pub enum SceneError {
    /// The scene's bytes are not compressed data.
    NotCompressed,
    /// The scene's compressed stream is cut short.
    Truncated,
    /// The scene's compressed stream is damaged.
    Corrupt,
    /// The scene decompressed to nothing.
    Empty,
    /// The decompressed scene is shorter than the scene grammar needs.
    Malformed,
}

/// What the first gzip member of `compressed` decompresses to, or why it
/// does not decompress.
pub uninterp spec fn gzip_inflated(compressed: Seq<u8>) -> Result<Seq<u8>, GzipFailure>;

/// `flate2::read::GzDecoder` over `compressed`, read to its end with
/// `Read::read_to_end`. The contract only gives the outcome its name,
/// [`gzip_inflated`]: the decoder works on the bytes alone. It reads one gzip
/// member and leaves what follows it unread. Of a failure, the wrapper keeps
/// the kind: an early end of input, a header that did not parse, anything
/// else.
#[verifier::external_body]
fn gunzip(compressed: &[u8]) -> (r: Result<Vec<u8>, GzipFailure>)
    ensures
        gzip_inflated(compressed@) == match r {
            Ok(bytes) => Ok::<Seq<u8>, GzipFailure>(bytes@),
            Err(failure) => Err(failure),
        },
{
    let mut decoder = GzDecoder::new(compressed);
    let mut bytes = Vec::new();
    match decoder.read_to_end(&mut bytes) {
        Ok(_) => Ok(bytes),
        Err(e) if e.kind() == ErrorKind::UnexpectedEof => Err(GzipFailure::Truncated),
        Err(_) if decoder.header().is_none() => Err(GzipFailure::BadHeader),
        Err(_) => Err(GzipFailure::Corrupt),
    }
}

/// What becomes of a scene, given what its bytes decompressed to: `r` is the
/// error that belongs to the failure, or a scene decoded from the
/// decompressed bytes.
pub open spec fn scene_outcome<F: Fn(&[u8]) -> Result<String, DecodeError>>(
    inflated: Result<Seq<u8>, GzipFailure>,
    decode: F,
    r: Result<Scene, SceneError>,
) -> bool {
    match inflated {
        Err(GzipFailure::BadHeader) => r == Err::<Scene, SceneError>(SceneError::NotCompressed),
        Err(GzipFailure::Truncated) => r == Err::<Scene, SceneError>(SceneError::Truncated),
        Err(GzipFailure::Corrupt) => r == Err::<Scene, SceneError>(SceneError::Corrupt),
        Ok(bytes) => if bytes.len() == 0 {
            r == Err::<Scene, SceneError>(SceneError::Empty)
        } else if !scene_complete(bytes) {
            r == Err::<Scene, SceneError>(SceneError::Malformed)
        } else {
            r matches Ok(scene) && scene_decoded(bytes, decode, scene@) && scene_filtered(scene)
        },
    }
}

/// No formation of `scene` holds an unused entry, and no attack of it is an
/// unused slot.
pub open spec fn scene_filtered(scene: Scene) -> bool {
    &&& forall|f: int, k: int|
        0 <= f < 4 && 0 <= k < scene.formations@[f].enemies@.len()
            ==> scene.formations@[f].enemies@[k].enemy_id != NO_ID
    &&& forall|k: int| 0 <= k < scene.attacks@.len() ==> scene.attacks@[k].id != NO_ID
}

/// A scene decodes from the compressed bytes: they decompress, to more than
/// nothing, and to enough for the scene grammar.
pub open spec fn scene_extractable(compressed: Seq<u8>) -> bool {
    gzip_inflated(compressed) matches Ok(bytes) && bytes.len() > 0 && scene_complete(bytes)
}

/// Decodes a scene from what its bytes decompressed to. Every failure is one
/// of this scene alone.
pub fn scene_from_inflated<F: Fn(&[u8]) -> Result<String, DecodeError>>(
    inflated: Result<Vec<u8>, GzipFailure>,
    decode: &F,
) -> (r: Result<Scene, SceneError>)
    requires
        text_codec(*decode),
    ensures
        scene_outcome(
            match inflated {
                Ok(bytes) => Ok(bytes@),
                Err(failure) => Err(failure),
            },
            *decode,
            r,
        ),
{
    match inflated {
        Err(GzipFailure::BadHeader) => Err(SceneError::NotCompressed),
        Err(GzipFailure::Truncated) => Err(SceneError::Truncated),
        Err(GzipFailure::Corrupt) => Err(SceneError::Corrupt),
        Ok(bytes) => {
            if bytes.len() == 0 {
                return Err(SceneError::Empty);
            }
            match parse_scene_data(bytes.as_slice(), decode) {
                Ok(scene) => Ok(scene),
                Err(_) => Err(SceneError::Malformed),
            }
        },
    }
}

/// Decompresses one scene of the container and decodes it.
pub fn extract_scene<F: Fn(&[u8]) -> Result<String, DecodeError>>(
    compressed: &[u8],
    decode: &F,
) -> (r: Result<Scene, SceneError>)
    requires
        text_codec(*decode),
    ensures
        scene_outcome(gzip_inflated(compressed@), *decode, r),
        r is Ok <==> scene_extractable(compressed@),
{
    scene_from_inflated(gunzip(compressed), decode)
}

/// The positions in `entries`, among the first `n`, of the entries whose
/// scene decodes, in rising order.
pub open spec fn kept_entries(data: Seq<u8>, entries: Seq<SceneIndexEntry>, n: nat) -> Seq<int>
    decreases n,
{
    if n == 0 {
        Seq::empty()
    } else {
        let before = kept_entries(data, entries, (n - 1) as nat);
        if scene_extractable(entries[n - 1].bytes(data)) {
            before.push(n - 1)
        } else {
            before
        }
    }
}

/// The number of entries, among the first `n`, whose scene does not decode.
pub open spec fn dropped_entries(data: Seq<u8>, entries: Seq<SceneIndexEntry>, n: nat) -> nat
    decreases n,
{
    if n == 0 {
        0
    } else {
        let before = dropped_entries(data, entries, (n - 1) as nat);
        if scene_extractable(entries[n - 1].bytes(data)) {
            before
        } else {
            before + 1
        }
    }
}

/// The kept positions are positions below `n` whose scene decodes, and they
/// rise.
pub proof fn lemma_kept_entries(data: Seq<u8>, entries: Seq<SceneIndexEntry>, n: nat)
    ensures
        kept_entries(data, entries, n).len() + dropped_entries(data, entries, n) == n,
        forall|k: int|
            0 <= k < kept_entries(data, entries, n).len() ==> {
                &&& 0 <= #[trigger] kept_entries(data, entries, n)[k] < n
                &&& scene_extractable(entries[kept_entries(data, entries, n)[k]].bytes(data))
            },
        forall|j: int, k: int|
            0 <= j < k < kept_entries(data, entries, n).len() ==> kept_entries(data, entries, n)[j]
                < kept_entries(data, entries, n)[k],
    decreases n,
{
    if n > 0 {
        let before = kept_entries(data, entries, (n - 1) as nat);
        let kept = kept_entries(data, entries, n);
        lemma_kept_entries(data, entries, (n - 1) as nat);
        assert forall|k: int| 0 <= k < kept.len() implies {
            &&& 0 <= #[trigger] kept[k] < n
            &&& scene_extractable(entries[kept[k]].bytes(data))
        } by {
            if k < before.len() {
                assert(kept[k] == before[k]);
            }
        }
        assert forall|j: int, k: int| 0 <= j < k < kept.len() implies kept[j] < kept[k] by {
            assert(kept[j] == before[j]);
            if k < before.len() {
                assert(kept[k] == before[k]);
            }
        }
    }
}

/// The decompressed bytes of the scene of `entry`.
pub open spec fn entry_inflated(data: Seq<u8>, entry: SceneIndexEntry) -> Seq<u8> {
    gzip_inflated(entry.bytes(data))->Ok_0
}

/// `scenes` holds the scenes of the first `n` entries, one for each entry
/// whose scene decodes and in the order of the entries.
pub open spec fn scenes_decoded<F: Fn(&[u8]) -> Result<String, DecodeError>>(
    data: Seq<u8>,
    entries: Seq<SceneIndexEntry>,
    n: nat,
    decode: F,
    scenes: Seq<Scene>,
) -> bool {
    &&& scenes.len() == kept_entries(data, entries, n).len()
    &&& forall|k: int|
        0 <= k < scenes.len() ==> {
            &&& scene_decoded(
                entry_inflated(data, entries[#[trigger] kept_entries(data, entries, n)[k]]),
                decode,
                scenes[k]@,
            )
            &&& scene_filtered(scenes[k])
        }
}

/// The positions in `entries`, among the first `n`, of the entries whose
/// scene does not decode, in rising order.
pub open spec fn lost_entries(data: Seq<u8>, entries: Seq<SceneIndexEntry>, n: nat) -> Seq<int>
    decreases n,
{
    if n == 0 {
        Seq::empty()
    } else {
        let before = lost_entries(data, entries, (n - 1) as nat);
        if scene_extractable(entries[n - 1].bytes(data)) {
            before
        } else {
            before.push(n - 1)
        }
    }
}

/// The lost positions are as many as the entries that were counted as
/// dropped, they are positions below `n` whose scene does not decode, and
/// they rise.
pub proof fn lemma_lost_entries(data: Seq<u8>, entries: Seq<SceneIndexEntry>, n: nat)
    ensures
        lost_entries(data, entries, n).len() == dropped_entries(data, entries, n),
        forall|k: int|
            0 <= k < lost_entries(data, entries, n).len() ==> {
                &&& 0 <= #[trigger] lost_entries(data, entries, n)[k] < n
                &&& !scene_extractable(entries[lost_entries(data, entries, n)[k]].bytes(data))
            },
        forall|j: int, k: int|
            0 <= j < k < lost_entries(data, entries, n).len() ==> lost_entries(data, entries, n)[j]
                < lost_entries(data, entries, n)[k],
    decreases n,
{
    if n > 0 {
        let before = lost_entries(data, entries, (n - 1) as nat);
        let lost = lost_entries(data, entries, n);
        lemma_lost_entries(data, entries, (n - 1) as nat);
        assert forall|k: int| 0 <= k < lost.len() implies {
            &&& 0 <= #[trigger] lost[k] < n
            &&& !scene_extractable(entries[lost[k]].bytes(data))
        } by {
            if k < before.len() {
                assert(lost[k] == before[k]);
            }
        }
        assert forall|j: int, k: int| 0 <= j < k < lost.len() implies lost[j] < lost[k] by {
            assert(lost[j] == before[j]);
            if k < before.len() {
                assert(lost[k] == before[k]);
            }
        }
    }
}

/// A scene of the container that was left out, and why.
#[derive(Debug, Clone, Copy, PartialEq, Eq)]
pub struct SceneFailure {
    /// Where the scene lies in the container.
    pub entry: SceneIndexEntry,
    /// Why it did not decode.
    pub error: SceneError,
}

/// What decoding a container gave: the scenes, and the scenes that were left
/// out.
#[derive(Debug)]
pub struct SceneReport {
    pub scenes: Vec<Scene>,
    pub failures: Vec<SceneFailure>,
}

/// `failures` holds the failures of the first `n` entries, one for each
/// entry whose scene does not decode and in the order of the entries, each
/// with its entry and its own error.
pub open spec fn failures_reported<F: Fn(&[u8]) -> Result<String, DecodeError>>(
    data: Seq<u8>,
    entries: Seq<SceneIndexEntry>,
    n: nat,
    decode: F,
    failures: Seq<SceneFailure>,
) -> bool {
    &&& failures.len() == lost_entries(data, entries, n).len()
    &&& forall|k: int|
        0 <= k < failures.len() ==> {
            &&& failures[k].entry == entries[#[trigger] lost_entries(data, entries, n)[k]]
            &&& scene_outcome(
                gzip_inflated(failures[k].entry.bytes(data)),
                decode,
                Err(failures[k].error),
            )
        }
}

/// What is known of the first `n` entries holds of one more, where the scene
/// of entry `n` decoded to `scene`: the scenes have `scene` at their end, and
/// the failures are as they were.
proof fn lemma_one_more_scene<F: Fn(&[u8]) -> Result<String, DecodeError>>(
    data: Seq<u8>,
    entries: Seq<SceneIndexEntry>,
    n: nat,
    decode: F,
    scenes: Seq<Scene>,
    failures: Seq<SceneFailure>,
    scene: Scene,
)
    requires
        n < entries.len(),
        scenes_decoded(data, entries, n, decode, scenes),
        failures_reported(data, entries, n, decode, failures),
        scene_extractable(entries[n as int].bytes(data)),
        scene_decoded(entry_inflated(data, entries[n as int]), decode, scene@),
        scene_filtered(scene),
    ensures
        scenes_decoded(data, entries, n + 1, decode, scenes.push(scene)),
        failures_reported(data, entries, n + 1, decode, failures),
{
    let kept_before = kept_entries(data, entries, n);
    let kept = kept_entries(data, entries, n + 1);
    let lost_before = lost_entries(data, entries, n);
    let lost = lost_entries(data, entries, n + 1);
    let after = scenes.push(scene);
    assert(kept == kept_before.push(n as int));
    assert(lost == lost_before);
    assert forall|k: int| 0 <= k < after.len() implies {
        &&& scene_decoded(entry_inflated(data, entries[#[trigger] kept[k]]), decode, after[k]@)
        &&& scene_filtered(after[k])
    } by {
        if k < scenes.len() {
            assert(kept[k] == kept_before[k]);
            assert(after[k] == scenes[k]);
        } else {
            assert(kept[k] == n);
            assert(after[k] == scene);
        }
    }
    assert forall|k: int| 0 <= k < failures.len() implies {
        &&& failures[k].entry == entries[#[trigger] lost[k]]
        &&& scene_outcome(
            gzip_inflated(failures[k].entry.bytes(data)),
            decode,
            Err(failures[k].error),
        )
    } by {
        assert(lost[k] == lost_before[k]);
    }
}

/// What is known of the first `n` entries holds of one more, where the scene
/// of entry `n` failed with `error`: the failures have this one at their
/// end, and the scenes are as they were.
proof fn lemma_one_more_failure<F: Fn(&[u8]) -> Result<String, DecodeError>>(
    data: Seq<u8>,
    entries: Seq<SceneIndexEntry>,
    n: nat,
    decode: F,
    scenes: Seq<Scene>,
    failures: Seq<SceneFailure>,
    error: SceneError,
)
    requires
        n < entries.len(),
        scenes_decoded(data, entries, n, decode, scenes),
        failures_reported(data, entries, n, decode, failures),
        !scene_extractable(entries[n as int].bytes(data)),
        scene_outcome(gzip_inflated(entries[n as int].bytes(data)), decode, Err(error)),
    ensures
        scenes_decoded(data, entries, n + 1, decode, scenes),
        failures_reported(
            data,
            entries,
            n + 1,
            decode,
            failures.push(SceneFailure { entry: entries[n as int], error }),
        ),
{
    let kept_before = kept_entries(data, entries, n);
    let kept = kept_entries(data, entries, n + 1);
    let lost_before = lost_entries(data, entries, n);
    let lost = lost_entries(data, entries, n + 1);
    let failure = SceneFailure { entry: entries[n as int], error };
    let after = failures.push(failure);
    assert(kept == kept_before);
    assert(lost == lost_before.push(n as int));
    assert forall|k: int| 0 <= k < scenes.len() implies {
        &&& scene_decoded(entry_inflated(data, entries[#[trigger] kept[k]]), decode, scenes[k]@)
        &&& scene_filtered(scenes[k])
    } by {
        assert(kept[k] == kept_before[k]);
    }
    assert forall|k: int| 0 <= k < after.len() implies {
        &&& after[k].entry == entries[#[trigger] lost[k]]
        &&& scene_outcome(gzip_inflated(after[k].entry.bytes(data)), decode, Err(after[k].error))
    } by {
        if k < failures.len() {
            assert(lost[k] == lost_before[k]);
            assert(after[k] == failures[k]);
        } else {
            assert(lost[k] == n);
            assert(after[k] == failure);
        }
    }
}

/// Decodes every scene of a scene container held in memory, and says which
/// scenes were left out and why.
///
/// The scenes come in file order, and so do the failures. A scene that does
/// not decompress, that decompresses to nothing, or whose decompressed bytes
/// fall short of the scene grammar is left out, and the scenes after it are
/// decoded as if it had not been there.
pub fn read_scene_report<F: Fn(&[u8]) -> Result<String, DecodeError>>(
    data: &[u8],
    decode: &F,
) -> (report: SceneReport)
    requires
        text_codec(*decode),
    ensures
        scenes_decoded(
            data@,
            scene_index_of(data@),
            scene_index_of(data@).len(),
            *decode,
            report.scenes@,
        ),
        failures_reported(
            data@,
            scene_index_of(data@),
            scene_index_of(data@).len(),
            *decode,
            report.failures@,
        ),
        report.scenes@.len() + report.failures@.len() == scene_index_of(data@).len(),
{
    let index = scene_index(data);
    let len = data.len();
    let mut scenes: Vec<Scene> = Vec::new();
    let mut failures: Vec<SceneFailure> = Vec::new();
    let mut i: usize = 0;
    while i < index.len()
        invariant
            i <= index@.len(),
            len == data@.len(),
            text_codec(*decode),
            index@ == scene_index_of(data@),
            entries_in_bounds(data@, index@),
            scenes_decoded(data@, index@, i as nat, *decode, scenes@),
            failures_reported(data@, index@, i as nat, *decode, failures@),
            scenes@.len() + failures@.len() == i,
        decreases index@.len() - i,
    {
        let entry = index[i];
        assert(entry.end() <= data@.len());
        let start: usize = SCENE_SIZE * entry.block + entry.offset;
        let compressed = slice_subrange(data, start, start + entry.length);
        assert(compressed@ == index@[i as int].bytes(data@));
        let ghost scenes_before = scenes@;
        let ghost failures_before = failures@;
        match extract_scene(compressed, decode) {
            Ok(scene) => {
                scenes.push(scene);
                proof {
                    lemma_one_more_scene(
                        data@,
                        index@,
                        i as nat,
                        *decode,
                        scenes_before,
                        failures_before,
                        scene,
                    );
                }
            },
            Err(error) => {
                failures.push(SceneFailure { entry, error });
                proof {
                    lemma_one_more_failure(
                        data@,
                        index@,
                        i as nat,
                        *decode,
                        scenes_before,
                        failures_before,
                        error,
                    );
                }
            },
        }
        i += 1;
    }
    SceneReport { scenes, failures }
}

/// Decodes every scene of a scene container held in memory.
///
/// The scenes come in file order. A scene that does not decompress, that
/// decompresses to nothing, or whose decompressed bytes fall short of the
/// scene grammar is left out, and the scenes after it are decoded as if it
/// had not been there.
pub fn read_scene_bin<F: Fn(&[u8]) -> Result<String, DecodeError>>(
    data: &[u8],
    decode: &F,
) -> (scenes: Vec<Scene>)
    requires
        text_codec(*decode),
    ensures
        scenes_decoded(
            data@,
            scene_index_of(data@),
            scene_index_of(data@).len(),
            *decode,
            scenes@,
        ),
        scenes@.len() + dropped_entries(
            data@,
            scene_index_of(data@),
            scene_index_of(data@).len(),
        ) == scene_index_of(data@).len(),
{
    let report = read_scene_report(data, decode);
    proof {
        lemma_lost_entries(data@, scene_index_of(data@), scene_index_of(data@).len());
    }
    report.scenes
}

/// A name field has one decoding: the codec gives one answer for one byte
/// string.
pub proof fn lemma_name_is_determined<F: Fn(&[u8]) -> Result<String, DecodeError>>(
    decode: F,
    raw: Seq<u8>,
    a: Seq<char>,
    b: Seq<char>,
)
    requires
        text_codec(decode),
        name_decoded(decode, raw, a),
        name_decoded(decode, raw, b),
    ensures
        a == b,
{
    let text = field_text(raw);
    let answer_a = choose|answer: Option<Seq<char>>| #[trigger]
        codec_answers(decode, text, answer) && a == match answer {
            Some(t) => t,
            None => undecodable_name(),
        };
    let answer_b = choose|answer: Option<Seq<char>>| #[trigger]
        codec_answers(decode, text, answer) && b == match answer {
            Some(t) => t,
            None => undecodable_name(),
        };
    let (input_a, out_a) = choose|input: &[u8], out: Result<String, DecodeError>|
        input@ == text && #[trigger] call_ensures(decode, (input,), out) && answer_a
            == decoded_text(out);
    let (input_b, out_b) = choose|input: &[u8], out: Result<String, DecodeError>|
        input@ == text && #[trigger] call_ensures(decode, (input,), out) && answer_b
            == decoded_text(out);
    assert(decoded_text(out_a) == decoded_text(out_b));
}

/// Decoding is a function of the bytes: any two decodings of the same buffer
/// hold the same scene.
pub proof fn lemma_scene_is_determined<F: Fn(&[u8]) -> Result<String, DecodeError>>(
    data: Seq<u8>,
    decode: F,
    a: SceneView,
    b: SceneView,
)
    requires
        text_codec(decode),
        scene_decoded(data, decode, a),
        scene_decoded(data, decode, b),
    ensures
        a == b,
{
    assert forall|i: int| 0 <= i < 3 implies a.enemies[i] == b.enemies[i] by {
        let at = ENEMY_BASE + ENEMY_SIZE * i;
        lemma_name_is_determined(
            decode,
            name_field(data, at),
            a.enemies[i].name,
            b.enemies[i].name,
        );
    }
    assert(a.enemies =~= b.enemies);
    let slots = attack_slots(data, ATTACK_SLOTS as nat);
    assert forall|k: int| 0 <= k < a.attacks.len() implies a.attacks[k] == b.attacks[k] by {
        let slot = slots[k];
        lemma_name_is_determined(
            decode,
            name_field(data, attack_name_at(slot)),
            a.attacks[k].name,
            b.attacks[k].name,
        );
    }
    assert(a.attacks =~= b.attacks);
}

/// Decoding a container is a function of its bytes: any two decodings of the
/// same file hold the same scenes in the same order.
pub proof fn lemma_container_is_determined<F: Fn(&[u8]) -> Result<String, DecodeError>>(
    data: Seq<u8>,
    decode: F,
    a: Seq<Scene>,
    b: Seq<Scene>,
)
    requires
        text_codec(decode),
        scenes_decoded(data, scene_index_of(data), scene_index_of(data).len(), decode, a),
        scenes_decoded(data, scene_index_of(data), scene_index_of(data).len(), decode, b),
    ensures
        a.len() == b.len(),
        forall|k: int| 0 <= k < a.len() ==> (#[trigger] a[k])@ == b[k]@,
{
    let index = scene_index_of(data);
    let kept = kept_entries(data, index, index.len());
    assert forall|k: int| 0 <= k < a.len() implies (#[trigger] a[k])@ == b[k]@ by {
        lemma_scene_is_determined(entry_inflated(data, index[kept[k]]), decode, a[k]@, b[k]@);
    }
}

/// Which scenes decode depends on their compressed bytes alone: two rows of
/// entries with the same compressed bytes keep the same positions.
proof fn lemma_kept_of_equal_spans(
    data_a: Seq<u8>,
    entries_a: Seq<SceneIndexEntry>,
    data_b: Seq<u8>,
    entries_b: Seq<SceneIndexEntry>,
    n: nat,
)
    requires
        spans_of(data_a, entries_a) == spans_of(data_b, entries_b),
        n <= entries_a.len(),
    ensures
        kept_entries(data_a, entries_a, n) == kept_entries(data_b, entries_b, n),
    decreases n,
{
    if n > 0 {
        lemma_kept_of_equal_spans(data_a, entries_a, data_b, entries_b, (n - 1) as nat);
        assert(spans_of(data_a, entries_a).len() == entries_a.len());
        assert(spans_of(data_b, entries_b).len() == entries_b.len());
        assert(entries_a[n - 1].bytes(data_a) == spans_of(data_a, entries_a)[n - 1]);
        assert(entries_b[n - 1].bytes(data_b) == spans_of(data_b, entries_b)[n - 1]);
    }
}

/// The scenes of a container depend on the compressed bytes of its scenes
/// alone: two files that hold the same compressed scenes in the same order
/// decode to the same scenes in the same order.
pub proof fn lemma_scenes_follow_spans<F: Fn(&[u8]) -> Result<String, DecodeError>>(
    data_a: Seq<u8>,
    data_b: Seq<u8>,
    decode: F,
    a: Seq<Scene>,
    b: Seq<Scene>,
)
    requires
        text_codec(decode),
        scene_spans(data_a) == scene_spans(data_b),
        scenes_decoded(data_a, scene_index_of(data_a), scene_index_of(data_a).len(), decode, a),
        scenes_decoded(data_b, scene_index_of(data_b), scene_index_of(data_b).len(), decode, b),
    ensures
        a.len() == b.len(),
        forall|k: int| 0 <= k < a.len() ==> (#[trigger] a[k])@ == b[k]@,
{
    let index_a = scene_index_of(data_a);
    let index_b = scene_index_of(data_b);
    assert(index_a.len() == spans_of(data_a, index_a).len());
    assert(index_b.len() == spans_of(data_b, index_b).len());
    lemma_kept_of_equal_spans(data_a, index_a, data_b, index_b, index_a.len());
    lemma_kept_entries(data_a, index_a, index_a.len());
    let kept = kept_entries(data_a, index_a, index_a.len());
    assert forall|k: int| 0 <= k < a.len() implies (#[trigger] a[k])@ == b[k]@ by {
        let i = kept[k];
        assert(index_a[i].bytes(data_a) == spans_of(data_a, index_a)[i]);
        assert(index_b[i].bytes(data_b) == spans_of(data_b, index_b)[i]);
        lemma_scene_is_determined(entry_inflated(data_a, index_a[i]), decode, a[k]@, b[k]@);
    }
}

/// A block without scenes leaves no trace in what is decoded: where `front`
/// is made of whole blocks whose scenes end in it, and `empty` is one block
/// whose first header word ends the header, the file with the empty block
/// between `front` and `back` decodes to the same scenes, in the same order,
/// as the file without it. The blocks behind the empty one are decoded all
/// the same.
pub proof fn lemma_empty_block_leaves_no_trace<F: Fn(&[u8]) -> Result<String, DecodeError>>(
    front: Seq<u8>,
    empty: Seq<u8>,
    back: Seq<u8>,
    decode: F,
    with: Seq<Scene>,
    without: Seq<Scene>,
)
    requires
        text_codec(decode),
        whole_blocks(front),
        scenes_end_in_file(front),
        empty.len() == SCENE_SIZE,
        u32_at(empty, 0) == END_OF_HEADER,
        (front + empty + back).len() <= usize::MAX,
        scenes_decoded(
            front + empty + back,
            scene_index_of(front + empty + back),
            scene_index_of(front + empty + back).len(),
            decode,
            with,
        ),
        scenes_decoded(
            front + back,
            scene_index_of(front + back),
            scene_index_of(front + back).len(),
            decode,
            without,
        ),
    ensures
        with.len() == without.len(),
        forall|k: int| 0 <= k < with.len() ==> (#[trigger] with[k])@ == without[k]@,
{
    lemma_empty_block_cut_out(front, empty, back);
    lemma_scenes_follow_spans(front + empty + back, front + back, decode, with, without);
}

/// The name of an attack comes from the name field of its own slot, whatever
/// the other slots hold: where two buffers hold the same bytes in the name
/// field of slot `slot` and use that slot, the attack of that slot has the
/// same name in both, however many slots before it are used in either.
pub proof fn lemma_attack_names_stay_in_place<F: Fn(&[u8]) -> Result<String, DecodeError>>(
    decode: F,
    slot: int,
    data_a: Seq<u8>,
    attacks_a: Seq<SceneAttackView>,
    k_a: int,
    data_b: Seq<u8>,
    attacks_b: Seq<SceneAttackView>,
    k_b: int,
)
    requires
        text_codec(decode),
        attacks_decoded(data_a, ATTACK_SLOTS as nat, decode, attacks_a),
        attacks_decoded(data_b, ATTACK_SLOTS as nat, decode, attacks_b),
        0 <= k_a < attacks_a.len(),
        0 <= k_b < attacks_b.len(),
        attack_slots(data_a, ATTACK_SLOTS as nat)[k_a] == slot,
        attack_slots(data_b, ATTACK_SLOTS as nat)[k_b] == slot,
        name_field(data_a, attack_name_at(slot)) == name_field(data_b, attack_name_at(slot)),
    ensures
        attacks_a[k_a].name == attacks_b[k_b].name,
{
    lemma_name_is_determined(
        decode,
        name_field(data_a, attack_name_at(slot)),
        attacks_a[k_a].name,
        attacks_b[k_b].name,
    );
}

/// The size of the record of one combatant.
pub const BATTLE_CHAR_SIZE: usize = 104;

/// The part of a combatant's record that is read: it ends with the maximum
/// HP.
pub const BATTLE_CHAR_READ: usize = 0x34;

/// The size of the time bar record of one combatant.
pub const ATB_SIZE: usize = 68;

/// The size of the limit record of one ally.
pub const LIMIT_SIZE: usize = 0x34;

/// The size of the record of one character in the party.
pub const PARTY_RECORD_SIZE: usize = 0x84;

/// The number of allies of a battle.
pub const ALLIES: usize = 3;

/// The index of the first enemy among the combatants.
pub const FIRST_ENEMY: usize = 4;

/// The number of enemies of a battle.
pub const ENEMIES: usize = 6;

/// The size of the record of one kind of enemy.
pub const ENEMY_DATA_SIZE: usize = 184;

/// The most bytes that the name of an ally has.
pub const ALLY_NAME_SIZE: u32 = 15;

/// `combatant` holds what the record at `at` of `records` and the time bar
/// at `atb_at` of `bars` hold: the status at 0, the flags at 5, the MP and
/// their maximum at 0x28 and 0x2A, the HP and their maximum at 0x2C and
/// 0x30.
pub open spec fn combatant_matches(
    records: Seq<u8>,
    at: int,
    bars: Seq<u8>,
    atb_at: int,
    combatant: BattleCharObj,
) -> bool {
    &&& combatant.status == u32_at(records, at)
    &&& combatant.flags == u8_at(records, at + 0x5)
    &&& combatant.mp == u16_at(records, at + 0x28)
    &&& combatant.max_mp == u16_at(records, at + 0x2a)
    &&& combatant.hp == u32_at(records, at + 0x2c)
    &&& combatant.max_hp == u32_at(records, at + 0x30)
    &&& combatant.atb == u16_at(bars, atb_at)
}

/// The combatant whose record starts at `at` of `records` and whose time
/// bar lies at `atb_at` of `bars`.
fn combatant_at(
    records: &[u8],
    at: usize,
    bars: &[u8],
    atb_at: usize,
    index: u8,
    name: String,
    limit: u16,
    scene_id: u8,
) -> (combatant: BattleCharObj)
    requires
        at + BATTLE_CHAR_READ <= records@.len(),
        atb_at + 2 <= bars@.len(),
    ensures
        combatant_matches(records@, at as int, bars@, atb_at as int, combatant),
        combatant.index == index,
        combatant.name == name,
        combatant.limit == limit,
        combatant.scene_id == scene_id,
{
    // Recalls that the length of a slice is a `usize`.
    let _ = records.len();
    BattleCharObj {
        index,
        name,
        status: get_u32(records, at),
        flags: records[at + 0x5],
        hp: get_u32(records, at + 0x2c),
        max_hp: get_u32(records, at + 0x30),
        mp: get_u16(records, at + 0x28),
        max_mp: get_u16(records, at + 0x2a),
        atb: get_u16(bars, atb_at),
        limit,
        scene_id,
    }
}

/// `allies` are the three allies of the battle: each with the name of the
/// party member whose id stands at its place in `ids`, its record in
/// `records`, its time bar in `bars` and its limit bar in `limits`.
pub open spec fn allies_decoded<F: Fn(&[u8]) -> Result<String, DecodeError>>(
    mem: &ProcessMemory,
    addresses: FF7Addresses,
    decode: F,
    ids: Seq<u8>,
    records: Seq<u8>,
    bars: Seq<u8>,
    limits: Seq<u8>,
    allies: Seq<BattleCharObj>,
) -> bool {
    &&& allies.len() == ALLIES
    &&& forall|i: int|
        0 <= i < ALLIES ==> {
            &&& combatant_matches(
                records,
                BATTLE_CHAR_SIZE * i,
                bars,
                ATB_SIZE * i,
                #[trigger] allies[i],
            )
            &&& allies[i].index == i
            &&& allies[i].limit == u16_at(limits, LIMIT_SIZE * i)
            &&& allies[i].scene_id == 0
            &&& name_or_unknown(
                mem,
                addresses.party_member_names + PARTY_RECORD_SIZE * ids[i],
                ALLY_NAME_SIZE as nat,
                decode,
                allies[i].name@,
            )
        }
}

/// `r` is what a read of the allies of the battle gives. Four runs of bytes
/// are read, in this order: the 3 ids of the party, the records of the
/// allies (260 bytes), their time bars (138 bytes from 2 bytes into the
/// first on) and their limit bars (106 bytes from 8 bytes into the first
/// on). The first that cannot be read fails the read.
pub open spec fn allies_read<F: Fn(&[u8]) -> Result<String, DecodeError>>(
    mem: &ProcessMemory,
    addresses: FF7Addresses,
    decode: F,
    r: Result<Vec<BattleCharObj>, GameError>,
) -> bool {
    let ids = addresses.party_member_ids as int;
    let records = addresses.battle_char_base as int;
    let bars = addresses.battle_atb_base + 2;
    let limits = addresses.battle_char_array + 8;
    if !mem.readable(ids, 3) {
        r == Err::<Vec<BattleCharObj>, GameError>(ProcessMemory::fault(ids, 3))
    } else if !mem.readable(records, 260) {
        r == Err::<Vec<BattleCharObj>, GameError>(ProcessMemory::fault(records, 260))
    } else if !mem.readable(bars, 138) {
        r == Err::<Vec<BattleCharObj>, GameError>(ProcessMemory::fault(bars, 138))
    } else if !mem.readable(limits, 106) {
        r == Err::<Vec<BattleCharObj>, GameError>(ProcessMemory::fault(limits, 106))
    } else {
        r matches Ok(allies) && allies_decoded(
            mem,
            addresses,
            decode,
            mem.span(ids, 3),
            mem.span(records, 260),
            mem.span(bars, 138),
            mem.span(limits, 106),
            allies@,
        )
    }
}

/// Reads the three allies of the battle that is fought.
pub fn read_battle_allies<F: Fn(&[u8]) -> Result<String, DecodeError>>(
    mem: &ProcessMemory,
    addresses: &FF7Addresses,
    decode: &F,
) -> (r: Result<Vec<BattleCharObj>, GameError>)
    requires
        text_codec(*decode),
    ensures
        allies_read(mem, *addresses, *decode, r),
{
    let ids = mem.read(addresses.party_member_ids as u64, 3)?;
    let records = mem.read(addresses.battle_char_base as u64, 260)?;
    let bars = mem.read(addresses.battle_atb_base as u64 + 2, 138)?;
    let limits = mem.read(addresses.battle_char_array as u64 + 8, 106)?;
    let mut allies: Vec<BattleCharObj> = Vec::new();
    let mut i: usize = 0;
    while i < ALLIES
        invariant
            i <= ALLIES,
            text_codec(*decode),
            ids@.len() == 3,
            records@.len() == 260,
            bars@.len() == 138,
            limits@.len() == 106,
            allies@.len() == i,
            forall|k: int|
                0 <= k < i ==> {
                    &&& combatant_matches(
                        records@,
                        BATTLE_CHAR_SIZE * k,
                        bars@,
                        ATB_SIZE * k,
                        #[trigger] allies@[k],
                    )
                    &&& allies@[k].index == k
                    &&& allies@[k].limit == u16_at(limits@, LIMIT_SIZE * k)
                    &&& allies@[k].scene_id == 0
                    &&& name_or_unknown(
                        mem,
                        addresses.party_member_names + PARTY_RECORD_SIZE * ids@[k],
                        ALLY_NAME_SIZE as nat,
                        *decode,
                        allies@[k].name@,
                    )
                },
        decreases ALLIES - i,
    {
        let name_at = addresses.party_member_names as u64 + 0x84 * (ids[i] as u64);
        let name = read_name_or_unknown(mem, name_at, ALLY_NAME_SIZE, decode);
        let ally = combatant_at(
            records.as_slice(),
            i * BATTLE_CHAR_SIZE,
            bars.as_slice(),
            i * ATB_SIZE,
            i as u8,
            name,
            get_u16(limits.as_slice(), i * LIMIT_SIZE),
            0,
        );
        allies.push(ally);
        i += 1;
    }
    Ok(allies)
}

/// The number of the kind of enemy `k` in the scene: the byte at the start
/// of its object, 16 bytes for each enemy; 0 where that byte cannot be
/// read.
pub open spec fn enemy_scene_id(mem: &ProcessMemory, addresses: FF7Addresses, k: int) -> u8 {
    match mem.get_u8(addresses.enemy_obj_base + 16 * k) {
        Ok(id) => id,
        Err(_) => 0,
    }
}

/// `enemies` are the six enemies of the battle: combatants 4 to 9, each
/// with the number and the name of its kind, its record in `records` and its
/// time bar in `bars`.
pub open spec fn enemies_decoded<F: Fn(&[u8]) -> Result<String, DecodeError>>(
    mem: &ProcessMemory,
    addresses: FF7Addresses,
    decode: F,
    records: Seq<u8>,
    bars: Seq<u8>,
    enemies: Seq<BattleCharObj>,
) -> bool {
    &&& enemies.len() == ENEMIES
    &&& forall|k: int|
        0 <= k < ENEMIES ==> {
            &&& combatant_matches(
                records,
                BATTLE_CHAR_SIZE * k,
                bars,
                ATB_SIZE * k,
                #[trigger] enemies[k],
            )
            &&& enemies[k].index == FIRST_ENEMY + k
            &&& enemies[k].limit == 0
            &&& enemies[k].scene_id == enemy_scene_id(mem, addresses, k)
            &&& name_or_unknown(
                mem,
                addresses.enemy_data_base + ENEMY_DATA_SIZE * enemy_scene_id(mem, addresses, k),
                KERNEL_NAME_SIZE as nat,
                decode,
                enemies[k].name@,
            )
        }
}

/// `r` is what a read of the enemies of the battle gives. Two runs of bytes
/// are read, in this order: the records of combatants 4 to 9 (572 bytes)
/// and their time bars (342 bytes from 2 bytes into the first on). The
/// first that cannot be read fails the read.
pub open spec fn enemies_read<F: Fn(&[u8]) -> Result<String, DecodeError>>(
    mem: &ProcessMemory,
    addresses: FF7Addresses,
    decode: F,
    r: Result<Vec<BattleCharObj>, GameError>,
) -> bool {
    let records = addresses.battle_char_base + BATTLE_CHAR_SIZE * FIRST_ENEMY;
    let bars = addresses.battle_atb_base + ATB_SIZE * FIRST_ENEMY + 2;
    if !mem.readable(records, 572) {
        r == Err::<Vec<BattleCharObj>, GameError>(ProcessMemory::fault(records, 572))
    } else if !mem.readable(bars, 342) {
        r == Err::<Vec<BattleCharObj>, GameError>(ProcessMemory::fault(bars, 342))
    } else {
        r matches Ok(enemies) && enemies_decoded(
            mem,
            addresses,
            decode,
            mem.span(records, 572),
            mem.span(bars, 342),
            enemies@,
        )
    }
}

/// Reads the six enemies of the battle that is fought.
pub fn read_battle_enemies<F: Fn(&[u8]) -> Result<String, DecodeError>>(
    mem: &ProcessMemory,
    addresses: &FF7Addresses,
    decode: &F,
) -> (r: Result<Vec<BattleCharObj>, GameError>)
    requires
        text_codec(*decode),
    ensures
        enemies_read(mem, *addresses, *decode, r),
{
    let records = mem.read(addresses.battle_char_base as u64 + 416, 572)?;
    let bars = mem.read(addresses.battle_atb_base as u64 + 274, 342)?;
    let mut enemies: Vec<BattleCharObj> = Vec::new();
    let mut k: usize = 0;
    while k < ENEMIES
        invariant
            k <= ENEMIES,
            text_codec(*decode),
            records@.len() == 572,
            bars@.len() == 342,
            enemies@.len() == k,
            forall|j: int|
                0 <= j < k ==> {
                    &&& combatant_matches(
                        records@,
                        BATTLE_CHAR_SIZE * j,
                        bars@,
                        ATB_SIZE * j,
                        #[trigger] enemies@[j],
                    )
                    &&& enemies@[j].index == FIRST_ENEMY + j
                    &&& enemies@[j].limit == 0
                    &&& enemies@[j].scene_id == enemy_scene_id(mem, *addresses, j)
                    &&& name_or_unknown(
                        mem,
                        addresses.enemy_data_base + ENEMY_DATA_SIZE * enemy_scene_id(
                            mem,
                            *addresses,
                            j,
                        ),
                        KERNEL_NAME_SIZE as nat,
                        *decode,
                        enemies@[j].name@,
                    )
                },
        decreases ENEMIES - k,
    {
        let scene_id = match mem.read_u8(addresses.enemy_obj_base as u64 + 16 * (k as u64)) {
            Ok(id) => id,
            Err(_) => 0,
        };
        let name_at = addresses.enemy_data_base as u64 + 184 * (scene_id as u64);
        let name = read_name_or_unknown(mem, name_at, KERNEL_NAME_SIZE, decode);
        let enemy = combatant_at(
            records.as_slice(),
            k * BATTLE_CHAR_SIZE,
            bars.as_slice(),
            k * ATB_SIZE,
            (FIRST_ENEMY + k) as u8,
            name,
            0,
            scene_id,
        );
        enemies.push(enemy);
        k += 1;
    }
    Ok(enemies)
}

/// The number of attack names of a battle.
pub const ATTACK_NAMES: usize = 32;

/// `name` is the name of attack `k` of the battle: nothing where the name
/// field starts with the end marker, else the name read from the field.
pub open spec fn enemy_attack_name<F: Fn(&[u8]) -> Result<String, DecodeError>>(
    mem: &ProcessMemory,
    at: int,
    decode: F,
    name: Seq<char>,
) -> bool {
    if mem.u8_at(at) == NAME_END {
        name == Seq::<char>::empty()
    } else {
        name_or_unknown(mem, at, NAME_SIZE as nat, decode, name)
    }
}

/// The failure of reading the first byte of each of the first `count` name
/// fields from `base` on, one after the other: that of the first that
/// cannot be read, if there is one.
pub open spec fn first_bytes_fault(mem: &ProcessMemory, base: int, count: nat) -> Option<GameError>
    decreases count,
{
    if count == 0 {
        None
    } else {
        match first_bytes_fault(mem, base, (count - 1) as nat) {
            Some(e) => Some(e),
            None => if mem.readable(base + NAME_SIZE * (count - 1), 1) {
                None
            } else {
                Some(ProcessMemory::fault(base + NAME_SIZE * (count - 1), 1))
            },
        }
    }
}

/// A failure among the first name fields is the failure of all of them.
proof fn lemma_first_bytes_fault(mem: &ProcessMemory, base: int, n: nat, count: nat)
    requires
        n <= count,
        first_bytes_fault(mem, base, n) is Some,
    ensures
        first_bytes_fault(mem, base, count) == first_bytes_fault(mem, base, n),
    decreases count,
{
    if n < count {
        lemma_first_bytes_fault(mem, base, n, (count - 1) as nat);
    }
}

/// `r` is what a read of the names of the 32 attacks of the battle gives:
/// the names, or the failure of the first name field whose first byte
/// cannot be read.
pub open spec fn enemy_attack_names_read<F: Fn(&[u8]) -> Result<String, DecodeError>>(
    mem: &ProcessMemory,
    base: int,
    decode: F,
    r: Result<Vec<String>, GameError>,
) -> bool {
    match first_bytes_fault(mem, base, ATTACK_NAMES as nat) {
        Some(e) => r == Err::<Vec<String>, GameError>(e),
        None => {
            &&& r matches Ok(names)
            &&& names@.len() == ATTACK_NAMES
            &&& forall|k: int|
                0 <= k < ATTACK_NAMES ==> enemy_attack_name(
                    mem,
                    base + NAME_SIZE * k,
                    decode,
                    #[trigger] names@[k]@,
                )
        },
    }
}

/// Reads the names of the 32 attacks of the battle that is fought, from the
/// name fields of 32 bytes at `enemy_attack_names`.
pub fn read_enemy_attack_names<F: Fn(&[u8]) -> Result<String, DecodeError>>(
    mem: &ProcessMemory,
    enemy_attack_names: u32,
    decode: &F,
) -> (r: Result<Vec<String>, GameError>)
    requires
        text_codec(*decode),
    ensures
        enemy_attack_names_read(mem, enemy_attack_names as int, *decode, r),
{
    let base = enemy_attack_names as u64;
    let mut names: Vec<String> = Vec::new();
    let mut k: usize = 0;
    while k < ATTACK_NAMES
        invariant
            k <= ATTACK_NAMES,
            text_codec(*decode),
            base == enemy_attack_names,
            names@.len() == k,
            first_bytes_fault(mem, base as int, k as nat) is None,
            forall|j: int|
                0 <= j < k ==> enemy_attack_name(
                    mem,
                    base + NAME_SIZE * j,
                    *decode,
                    #[trigger] names@[j]@,
                ),
        decreases ATTACK_NAMES - k,
    {
        let at = base + 32 * (k as u64);
        let first = match mem.read_u8(at) {
            Ok(first) => first,
            Err(e) => {
                proof {
                    lemma_first_bytes_fault(mem, base as int, (k + 1) as nat, ATTACK_NAMES as nat);
                }
                return Err(e);
            },
        };
        let name = if first != NAME_END {
            read_name_or_unknown(mem, at, 32, decode)
        } else {
            String::new()
        };
        let ghost before = names@;
        names.push(name);
        k += 1;
        proof {
            assert forall|j: int| 0 <= j < k implies enemy_attack_name(
                mem,
                base + NAME_SIZE * j,
                *decode,
                #[trigger] names@[j]@,
            ) by {
                if j < before.len() {
                    assert(names@[j] == before[j]);
                }
            }
        }
    }
    Ok(names)
}

/// The number of item slots of a kind of enemy.
pub const ENEMY_ITEM_SLOTS: usize = 4;

/// The id in item slot `k` of the enemy record `record`.
pub open spec fn enemy_item_id(record: Seq<u8>, k: int) -> u16 {
    u16_at(record, 0x8c + 2 * k)
}

/// The rate in item slot `k` of the enemy record `record`.
pub open spec fn enemy_item_rate(record: Seq<u8>, k: int) -> u8 {
    u8_at(record, 0x88 + k)
}

/// The id of the item that the enemy can be morphed into.
pub open spec fn enemy_morph_id(record: Seq<u8>) -> u16 {
    u16_at(record, 0xA0)
}

/// The number of items of the enemy from slot `k` on: the slots up to the
/// first that holds [`NO_ID`].
pub open spec fn enemy_items_from(record: Seq<u8>, k: int) -> nat
    decreases ENEMY_ITEM_SLOTS - k,
{
    if 0 <= k < ENEMY_ITEM_SLOTS && enemy_item_id(record, k) != NO_ID {
        1 + enemy_items_from(record, k + 1)
    } else {
        0
    }
}

/// The failure of naming the first `n` items of the enemy out of `names`
/// names: the first id that no name belongs to, if there is one.
pub open spec fn enemy_items_fault(record: Seq<u8>, names: nat, n: nat) -> Option<GameError>
    decreases n,
{
    if n == 0 {
        None
    } else {
        match enemy_items_fault(record, names, (n - 1) as nat) {
            Some(e) => Some(e),
            None => if enemy_item_id(record, n - 1) >= names {
                Some(GameError::UnknownItem { id: enemy_item_id(record, n - 1) })
            } else {
                None
            },
        }
    }
}

/// The failure of naming the items of the enemy and the item that it can be
/// morphed into, in this order.
pub open spec fn enemy_unknown_item(record: Seq<u8>, names: nat) -> Option<GameError> {
    match enemy_items_fault(record, names, enemy_items_from(record, 0)) {
        Some(e) => Some(e),
        None => if enemy_morph_id(record) != NO_ID && enemy_morph_id(record) >= names {
            Some(GameError::UnknownItem { id: enemy_morph_id(record) })
        } else {
            None
        },
    }
}

/// `item` is the item of a slot with the rate byte `rate` and the name
/// `name`: a rate byte below 128 is a drop rate, one from 128 on a steal rate
/// with 128 added.
pub open spec fn item_matches(item: Item, rate: u8, name: Seq<char>) -> bool {
    &&& item.rate == rate % 128
    &&& item.name@ == name
    &&& item.item_type == if rate < 128 {
        ItemType::Drop
    } else {
        ItemType::Steal
    }
}

/// `data` holds what the enemy record `record` holds, its items named out
/// of `names`. The defenses are kept at half their worth and the back attack
/// multiplier at 8 times its worth.
pub open spec fn enemy_data_matches(record: Seq<u8>, names: Seq<String>, data: EnemyData) -> bool {
    &&& data.level == u8_at(record, 0x20)
    &&& data.speed == u8_at(record, 0x21)
    &&& data.luck == u8_at(record, 0x22)
    &&& data.evade == u8_at(record, 0x23)
    &&& data.strength == u8_at(record, 0x24)
    &&& data.defense == 2 * u8_at(record, 0x25)
    &&& data.magic == u8_at(record, 0x26)
    &&& data.magic_defense == 2 * u8_at(record, 0x27)
    &&& data.elements@.len() == 8
    &&& forall|i: int|
        0 <= i < 8 ==> #[trigger] data.elements@[i] == (Elemental {
            element: u8_at(record, 0x28 + i),
            effect: u8_at(record, 0x30 + i),
        })
    &&& data.ap == u16_at(record, 0x9E)
    &&& data.back_damage_multiplier == u8_at(record, 0xA2) / 8
    &&& data.exp == u32_at(record, 0xA8)
    &&& data.gil == u32_at(record, 0xAC)
    &&& data.status_immunities == u32_at(record, 0xB0)
    &&& data.items@.len() == enemy_items_from(record, 0)
    &&& forall|k: int|
        0 <= k < data.items@.len() ==> item_matches(
            #[trigger] data.items@[k],
            enemy_item_rate(record, k),
            names[enemy_item_id(record, k) as int]@,
        )
    &&& match data.morph {
        None => enemy_morph_id(record) == NO_ID,
        Some(name) => enemy_morph_id(record) != NO_ID && name@ == names[enemy_morph_id(
            record,
        ) as int]@,
    }
}

/// `r` is what the enemy record `record` gives with the item names `names`.
pub open spec fn enemy_data_outcome(
    record: Seq<u8>,
    names: Seq<String>,
    r: Result<EnemyData, GameError>,
) -> bool {
    match enemy_unknown_item(record, names.len()) {
        Some(e) => r == Err::<EnemyData, GameError>(e),
        None => r matches Ok(data) && enemy_data_matches(record, names, data),
    }
}

/// `r` is what a read of the kind of enemy `id` gives: its record of 184
/// bytes is read as a whole, then the names of all items.
pub open spec fn enemy_data_read<F: Fn(&[u8]) -> Result<String, DecodeError>>(
    mem: &ProcessMemory,
    id: u32,
    decode: F,
    r: Result<EnemyData, GameError>,
) -> bool {
    let at = known_addresses().enemy_data_base + ENEMY_DATA_SIZE * id;
    if !mem.readable(at, ENEMY_DATA_SIZE as int) {
        r == Err::<EnemyData, GameError>(ProcessMemory::fault(at, ENEMY_DATA_SIZE as int))
    } else {
        exists|names: Result<Vec<String>, GameError>| #[trigger]
            item_names_read(mem, known_addresses(), decode, names) && match names {
                Err(e) => r == Err::<EnemyData, GameError>(e),
                Ok(n) => enemy_data_outcome(mem.span(at, ENEMY_DATA_SIZE as int), n@, r),
            }
    }
}

/// Where a slot from `k` on holds no item, the items end there.
proof fn lemma_enemy_items(record: Seq<u8>, k: int)
    requires
        0 <= k <= ENEMY_ITEM_SLOTS,
        forall|j: int| 0 <= j < k ==> enemy_item_id(record, j) != NO_ID,
    ensures
        enemy_items_from(record, 0) == k + enemy_items_from(record, k),
    decreases k,
{
    if k > 0 {
        lemma_enemy_items(record, k - 1);
    }
}

/// A failure among the first items is the failure of all of them.
proof fn lemma_enemy_items_fault(record: Seq<u8>, names: nat, n: nat, count: nat)
    requires
        n <= count,
        enemy_items_fault(record, names, n) is Some,
    ensures
        enemy_items_fault(record, names, count) == enemy_items_fault(record, names, n),
    decreases count,
{
    if n < count {
        lemma_enemy_items_fault(record, names, n, (count - 1) as nat);
    }
}

/// The items of the enemy record `record`, named out of `names`.
fn enemy_items(record: &[u8], names: &Vec<String>) -> (r: Result<Vec<Item>, GameError>)
    requires
        record@.len() == ENEMY_DATA_SIZE,
    ensures
        match enemy_items_fault(record@, names@.len(), enemy_items_from(record@, 0)) {
            Some(e) => r == Err::<Vec<Item>, GameError>(e),
            None => {
                &&& r matches Ok(items)
                &&& items@.len() == enemy_items_from(record@, 0)
                &&& forall|k: int|
                    0 <= k < items@.len() ==> item_matches(
                        #[trigger] items@[k],
                        enemy_item_rate(record@, k),
                        names@[enemy_item_id(record@, k) as int]@,
                    )
            },
        },
{
    let mut items: Vec<Item> = Vec::new();
    let mut k: usize = 0;
    let mut ended = false;
    while k < ENEMY_ITEM_SLOTS && !ended
        invariant
            k <= ENEMY_ITEM_SLOTS,
            record@.len() == ENEMY_DATA_SIZE,
            items@.len() == k,
            forall|j: int| 0 <= j < k ==> enemy_item_id(record@, j) != NO_ID,
            ended ==> k < ENEMY_ITEM_SLOTS && enemy_item_id(record@, k as int) == NO_ID,
            enemy_items_fault(record@, names@.len(), k as nat) is None,
            forall|j: int|
                0 <= j < k ==> item_matches(
                    #[trigger] items@[j],
                    enemy_item_rate(record@, j),
                    names@[enemy_item_id(record@, j) as int]@,
                ),
        decreases ENEMY_ITEM_SLOTS - k + if ended { 0int } else { 1int },
    {
        let rate = record[0x88 + k];
        let id = get_u16(record, 0x8c + 2 * k);
        if id == NO_ID {
            ended = true;
        } else {
            if id as usize >= names.len() {
                proof {
                    lemma_enemy_items(record@, (k + 1) as int);
                    lemma_enemy_items_fault(
                        record@,
                        names@.len(),
                        (k + 1) as nat,
                        enemy_items_from(record@, 0),
                    );
                }
                return Err(GameError::UnknownItem { id });
            }
            let item_type = if rate < 128 {
                ItemType::Drop
            } else {
                ItemType::Steal
            };
            let ghost before = items@;
            items.push(Item { rate: rate % 128, name: names[id as usize].clone(), item_type });
            k += 1;
            proof {
                assert forall|j: int| 0 <= j < k implies item_matches(
                    #[trigger] items@[j],
                    enemy_item_rate(record@, j),
                    names@[enemy_item_id(record@, j) as int]@,
                ) by {
                    if j < before.len() {
                        assert(items@[j] == before[j]);
                    }
                }
            }
        }
    }
    proof {
        lemma_enemy_items(record@, k as int);
    }
    Ok(items)
}

/// What the enemy record `record` holds, its items named out of
/// `item_names`.
fn enemy_data_from(record: &[u8], item_names: &Vec<String>) -> (r: Result<EnemyData, GameError>)
    requires
        record@.len() == ENEMY_DATA_SIZE,
    ensures
        enemy_data_outcome(record@, item_names@, r),
{
    let mut elements: Vec<Elemental> = Vec::new();
    let mut i: usize = 0;
    while i < 8
        invariant
            i <= 8,
            record@.len() == ENEMY_DATA_SIZE,
            elements@.len() == i,
            forall|j: int|
                0 <= j < i ==> #[trigger] elements@[j] == (Elemental {
                    element: u8_at(record@, 0x28 + j),
                    effect: u8_at(record@, 0x30 + j),
                }),
        decreases 8 - i,
    {
        elements.push(Elemental { element: record[0x28 + i], effect: record[0x30 + i] });
        i += 1;
    }
    let items = enemy_items(record, item_names)?;
    let morph_id = get_u16(record, 0xA0);
    let morph = if morph_id == NO_ID {
        None
    } else if morph_id as usize >= item_names.len() {
        return Err(GameError::UnknownItem { id: morph_id });
    } else {
        Some(item_names[morph_id as usize].clone())
    };
    Ok(
        EnemyData {
            level: record[0x20],
            speed: record[0x21],
            luck: record[0x22],
            evade: record[0x23],
            strength: record[0x24],
            defense: record[0x25] as u16 * 2,
            magic: record[0x26],
            magic_defense: record[0x27] as u16 * 2,
            elements,
            items,
            status_immunities: get_u32(record, 0xB0),
            gil: get_u32(record, 0xAC),
            exp: get_u32(record, 0xA8),
            ap: get_u16(record, 0x9E),
            back_damage_multiplier: record[0xA2] / 8,
            morph,
        },
    )
}

/// Reads what the battle that is fought knows of the kind of enemy `id`, at
/// the addresses of the English PC release.
pub fn read_enemy_data<F: Fn(&[u8]) -> Result<String, DecodeError>>(
    mem: &ProcessMemory,
    id: u32,
    decode: &F,
) -> (r: Result<EnemyData, GameError>)
    requires
        text_codec(*decode),
    ensures
        enemy_data_read(mem, id, *decode, r),
{
    let addresses = FF7Addresses::new();
    let at = addresses.enemy_data_base as u64 + 184 * (id as u64);
    let record = mem.read(at, ENEMY_DATA_SIZE)?;
    let names = read_item_names(mem, &addresses, decode);
    proof {
        assert(item_names_read(mem, known_addresses(), *decode, names));
    }
    match names {
        Ok(item_names) => enemy_data_from(record.as_slice(), &item_names),
        Err(e) => Err(e),
    }
}

} // verus!
