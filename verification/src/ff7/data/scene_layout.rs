//! The byte layout of a decompressed battle scene, as functions from the
//! bytes to the records.
//!
//! | offset | size | content |
//! |---|---|---|
//! | 0 | 8 | 3 enemy ids, 1 padding word |
//! | 8 | 4 × 20 | battle setups |
//! | 88 | 4 × 48 | camera placements |
//! | 280 | 4 × 6 × 16 | formation entries |
//! | 664 | 3 × 184 | enemies |
//! | 1216 | 32 × 28 | attack data, not decoded |
//! | 2112 | 32 × 2 | attack ids |
//! | 2176 | 32 × 32 | attack names |
//! | 3200 | rest | scripts, not decoded |

use crate::ff7::ff7text::{codec_answers, DecodeError};
use crate::ff7::types::battle::{
    SceneAttackView, SceneBattleFormationEntry, SceneBattleSetupView, SceneCameraPlacementView,
    SceneCameraPosition, SceneElementRate, SceneEnemyItem, SceneEnemyView, SceneFormationView,
    SceneView,
};
use crate::utils::cursor::{i16_at, u16_at, u16s_at, u32_at, u8_at};
use vstd::prelude::*;

verus! {

/// The id that marks an unused enemy or attack slot.
pub const NO_ID: u16 = 0xFFFF;

/// The byte that ends a name before the end of its field.
pub const NAME_END: u8 = 0xFF;

/// The width of a name field.
pub const NAME_SIZE: usize = 32;

/// The size of one camera position.
pub const CAMERA_POSITION_SIZE: usize = 12;

/// Where the battle setups start.
pub const SETUP_BASE: usize = 8;

/// The size of one battle setup.
pub const SETUP_SIZE: usize = 20;

/// Where the camera placements start.
pub const CAMERA_BASE: usize = 88;

/// The size of one camera placement.
pub const CAMERA_SIZE: usize = 48;

/// Where the formation entries start.
pub const FORMATION_BASE: usize = 280;

/// The size of one formation entry.
pub const ENTRY_SIZE: usize = 16;

/// The number of entry slots of one formation.
pub const FORMATION_SLOTS: usize = 6;

/// Where the enemies start.
pub const ENEMY_BASE: usize = 664;

/// The size of one enemy.
pub const ENEMY_SIZE: usize = 184;

/// The size of the attack data, which is skipped.
pub const ATTACK_DATA_SIZE: usize = 896;

/// Where the attack ids start.
pub const ATTACK_IDS_BASE: usize = 2112;

/// The number of attack slots.
pub const ATTACK_SLOTS: usize = 32;

/// Where the attack names start.
pub const ATTACK_NAMES_BASE: usize = 2176;

/// The name that stands for bytes that the codec could not decode.
pub open spec fn undecodable_name() -> Seq<char> {
    "Decode Error"@
}

/// The number of bytes of `raw` before its first [`NAME_END`], all of them
/// where it has none.
pub open spec fn text_len(raw: Seq<u8>) -> nat
    decreases raw.len(),
{
    if raw.len() == 0 || raw[0] == NAME_END {
        0
    } else {
        1 + text_len(raw.drop_first())
    }
}

/// A name ends at its first end marker: where no byte before `end` is the
/// marker, and `end` is the end of `raw` or holds the marker, the text is
/// `end` bytes long.
pub proof fn lemma_text_len(raw: Seq<u8>, end: int)
    requires
        0 <= end <= raw.len(),
        forall|j: int| 0 <= j < end ==> raw[j] != NAME_END,
        end == raw.len() || raw[end] == NAME_END,
    ensures
        text_len(raw) == end,
    decreases end,
{
    if end > 0 {
        let rest = raw.drop_first();
        assert forall|j: int| 0 <= j < end - 1 implies rest[j] != NAME_END by {
            assert(rest[j] == raw[j + 1]);
        }
        lemma_text_len(rest, end - 1);
    }
}

/// The bytes of a name field that hold text.
pub open spec fn field_text(raw: Seq<u8>) -> Seq<u8> {
    raw.take(text_len(raw) as int)
}

/// `name` is what a name field with the bytes `raw` decodes to under the
/// codec: the codec's text for the bytes before the end marker, or
/// [`undecodable_name`] where the codec failed on them.
pub open spec fn name_decoded<F: Fn(&[u8]) -> Result<String, DecodeError>>(
    decode: F,
    raw: Seq<u8>,
    name: Seq<char>,
) -> bool {
    exists|answer: Option<Seq<char>>| #[trigger]
        codec_answers(decode, field_text(raw), answer) && name == match answer {
            Some(text) => text,
            None => undecodable_name(),
        }
}

/// The name field that starts at `at`.
pub open spec fn name_field(data: Seq<u8>, at: int) -> Seq<u8> {
    data.subrange(at, at + NAME_SIZE)
}

/// The camera position that starts at `at`.
pub open spec fn camera_position_at(data: Seq<u8>, at: int) -> SceneCameraPosition {
    SceneCameraPosition {
        x_pos: i16_at(data, at),
        y_pos: i16_at(data, at + 2),
        z_pos: i16_at(data, at + 4),
        x_dir: i16_at(data, at + 6),
        y_dir: i16_at(data, at + 8),
        z_dir: i16_at(data, at + 10),
    }
}

/// The battle setup that starts at `at`. The word at `at + 6` is padding.
pub open spec fn battle_setup_at(data: Seq<u8>, at: int) -> SceneBattleSetupView {
    SceneBattleSetupView {
        battle_location: u16_at(data, at),
        next_formation_id_on_win: u16_at(data, at + 2),
        escape_counter: u16_at(data, at + 4),
        next_battle_arena_candidates: u16s_at(data, at + 8, 4),
        flags: u16_at(data, at + 16),
        battle_layout_type: u8_at(data, at + 18),
        pre_battle_camera_pos_index: u8_at(data, at + 19),
    }
}

/// The camera placement that starts at `at`: three camera positions, then
/// 12 bytes of padding.
pub open spec fn camera_placement_at(data: Seq<u8>, at: int) -> SceneCameraPlacementView {
    SceneCameraPlacementView {
        primary_idle_camera: camera_position_at(data, at),
        other_camera_positions: Seq::new(
            2,
            |i: int| camera_position_at(data, at + CAMERA_POSITION_SIZE * (i + 1)),
        ),
    }
}

/// The formation entry that starts at `at`.
pub open spec fn formation_entry_at(data: Seq<u8>, at: int) -> SceneBattleFormationEntry {
    SceneBattleFormationEntry {
        enemy_id: u16_at(data, at),
        pos_x: i16_at(data, at + 2),
        pos_y: i16_at(data, at + 4),
        pos_z: i16_at(data, at + 6),
        row: u16_at(data, at + 8),
        cover_flags: u16_at(data, at + 10),
        initial_condition_flags: u32_at(data, at + 12),
    }
}

/// The used entries among the first `n` entry slots that start at `at`, in
/// slot order: an entry is used when its enemy id is not [`NO_ID`].
pub open spec fn used_entries(data: Seq<u8>, at: int, n: nat) -> Seq<SceneBattleFormationEntry>
    decreases n,
{
    if n == 0 {
        Seq::empty()
    } else {
        let before = used_entries(data, at, (n - 1) as nat);
        let entry = formation_entry_at(data, at + ENTRY_SIZE * (n - 1));
        if entry.enemy_id != NO_ID {
            before.push(entry)
        } else {
            before
        }
    }
}

/// Formation `f` of a scene, `f` from 0 to 3.
pub open spec fn formation_of(data: Seq<u8>, f: int) -> SceneFormationView {
    SceneFormationView {
        setup: battle_setup_at(data, SETUP_BASE + SETUP_SIZE * f),
        camera_placement: camera_placement_at(data, CAMERA_BASE + CAMERA_SIZE * f),
        enemies: used_entries(
            data,
            FORMATION_BASE + ENTRY_SIZE * FORMATION_SLOTS * f,
            FORMATION_SLOTS as nat,
        ),
    }
}

/// The enemy record that starts at `at`, given its id and its decoded name.
/// Bytes 56 to 71, 154 to 155, 163 and 180 to 183 of the record are not
/// decoded.
pub open spec fn enemy_at(data: Seq<u8>, at: int, id: u16, name: Seq<char>) -> SceneEnemyView {
    SceneEnemyView {
        id,
        name,
        level: u8_at(data, at + 32),
        speed: u8_at(data, at + 33),
        luck: u8_at(data, at + 34),
        evade: u8_at(data, at + 35),
        strength: u8_at(data, at + 36),
        defense: u8_at(data, at + 37),
        magic: u8_at(data, at + 38),
        magic_defense: u8_at(data, at + 39),
        element_rates: Seq::new(
            8,
            |i: int|
                SceneElementRate {
                    element_type: u8_at(data, at + 40 + i),
                    rate: u8_at(data, at + 48 + i),
                },
        ),
        enemy_attack_ids: u16s_at(data, at + 72, 16),
        enemy_attack_camera_movement_ids: u16s_at(data, at + 104, 16),
        items: Seq::new(
            4,
            |i: int|
                SceneEnemyItem {
                    rate: u8_at(data, at + 136 + i),
                    item_id: u16_at(data, at + 140 + 2 * i),
                },
        ),
        manipulated_berserk_attack_indexes: u16s_at(data, at + 148, 3),
        mp: u16_at(data, at + 156),
        ap: u16_at(data, at + 158),
        morph_item_id: u16_at(data, at + 160),
        back_damage_multiplier: u8_at(data, at + 162),
        hp: u32_at(data, at + 164),
        exp: u32_at(data, at + 168),
        gil: u32_at(data, at + 172),
        status_immunities: u32_at(data, at + 176),
    }
}

/// `enemy` is what the enemy record at `at` decodes to under the codec.
pub open spec fn enemy_decoded<F: Fn(&[u8]) -> Result<String, DecodeError>>(
    data: Seq<u8>,
    at: int,
    id: u16,
    decode: F,
    enemy: SceneEnemyView,
) -> bool {
    &&& name_decoded(decode, name_field(data, at), enemy.name)
    &&& enemy == enemy_at(data, at, id, enemy.name)
}

/// The id in attack slot `slot`.
pub open spec fn attack_id_at(data: Seq<u8>, slot: int) -> u16 {
    u16_at(data, ATTACK_IDS_BASE + 2 * slot)
}

/// Where the name field of attack slot `slot` starts, whatever the other
/// slots hold.
pub open spec fn attack_name_at(slot: int) -> int {
    ATTACK_NAMES_BASE + NAME_SIZE * slot
}

/// The used attack slots among the first `n`, in rising order: a slot is
/// used when its id is not [`NO_ID`].
pub open spec fn attack_slots(data: Seq<u8>, n: nat) -> Seq<int>
    decreases n,
{
    if n == 0 {
        Seq::empty()
    } else {
        let before = attack_slots(data, (n - 1) as nat);
        if attack_id_at(data, n - 1) != NO_ID {
            before.push(n - 1)
        } else {
            before
        }
    }
}

/// `attack` is what attack slot `slot` decodes to under the codec.
pub open spec fn attack_decoded<F: Fn(&[u8]) -> Result<String, DecodeError>>(
    data: Seq<u8>,
    slot: int,
    decode: F,
    attack: SceneAttackView,
) -> bool {
    &&& attack.id == attack_id_at(data, slot)
    &&& name_decoded(decode, name_field(data, attack_name_at(slot)), attack.name)
}

/// `attacks` holds the attacks of the used slots among the first `n`, one
/// for each and in slot order.
pub open spec fn attacks_decoded<F: Fn(&[u8]) -> Result<String, DecodeError>>(
    data: Seq<u8>,
    n: nat,
    decode: F,
    attacks: Seq<SceneAttackView>,
) -> bool {
    &&& attacks.len() == attack_slots(data, n).len()
    &&& forall|k: int|
        0 <= k < attacks.len() ==> attack_decoded(
            data,
            #[trigger] attack_slots(data, n)[k],
            decode,
            attacks[k],
        )
}

/// The number of bytes of the scene grammar: everything up to the end of the
/// name field of the last attack slot, which is [`ATTACK_NAMES_BASE`] and
/// [`ATTACK_SLOTS`] times [`NAME_SIZE`]. Only what follows it varies in
/// length.
pub const SCENE_FIXED_SIZE: usize = 3200;

/// `data` holds a whole scene: it is at least [`SCENE_FIXED_SIZE`] bytes
/// long, whichever of its slots are used.
pub open spec fn scene_complete(data: Seq<u8>) -> bool {
    data.len() >= SCENE_FIXED_SIZE
}

/// `scene` is what `data` decodes to under the codec.
pub open spec fn scene_decoded<F: Fn(&[u8]) -> Result<String, DecodeError>>(
    data: Seq<u8>,
    decode: F,
    scene: SceneView,
) -> bool {
    &&& scene.enemies.len() == 3
    &&& forall|i: int|
        0 <= i < 3 ==> enemy_decoded(
            data,
            ENEMY_BASE + ENEMY_SIZE * i,
            u16_at(data, 2 * i),
            decode,
            #[trigger] scene.enemies[i],
        )
    &&& scene.formations == Seq::new(4, |f: int| formation_of(data, f))
    &&& attacks_decoded(data, ATTACK_SLOTS as nat, decode, scene.attacks)
}

} // verus!
