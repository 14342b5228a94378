//! Battle records: the scenes of the scene container, and the combatants read
//! from the game's memory.

use crate::ff7::types::items::Item;
use crate::ff7::types::kernel::Elemental;
use vstd::prelude::*;

verus! {

/// One combatant of the battle that is fought.
#[derive(Debug, Clone)]
pub struct BattleCharObj {
    pub index: u8,
    pub name: String,
    pub flags: u8,
    pub status: u32,
    pub hp: u32,
    pub max_hp: u32,
    pub mp: u16,
    pub max_mp: u16,
    pub atb: u16,
    pub limit: u16,
    pub scene_id: u8,
}

/// What the battle that is fought knows of one kind of enemy.
#[derive(Debug, Clone)]
pub struct EnemyData {
    pub level: u8,
    pub speed: u8,
    pub luck: u8,
    pub evade: u8,
    pub strength: u8,
    pub defense: u16,
    pub magic: u8,
    pub magic_defense: u16,
    pub elements: Vec<Elemental>,
    pub items: Vec<Item>,
    pub status_immunities: u32,
    pub gil: u32,
    pub exp: u32,
    pub ap: u16,
    pub back_damage_multiplier: u8,
    pub morph: Option<String>,
}

/// Where a battle camera stands and where it looks.
#[derive(Debug, Clone, Copy)]
pub struct SceneCameraPosition {
    pub x_pos: i16,
    pub y_pos: i16,
    pub z_pos: i16,
    pub x_dir: i16,
    pub y_dir: i16,
    pub z_dir: i16,
}

/// The setup of one formation: where it is fought and what follows it.
#[derive(Debug, Clone, Copy)]
pub struct SceneBattleSetup {
    pub battle_location: u16,
    pub next_formation_id_on_win: u16,
    pub escape_counter: u16,
    pub next_battle_arena_candidates: [u16; 4],
    /// Includes the flag that says whether the party can escape.
    pub flags: u16,
    pub battle_layout_type: u8,
    pub pre_battle_camera_pos_index: u8,
}

/// What a [`SceneBattleSetup`] holds, its table as a sequence.
pub struct SceneBattleSetupView {
    pub battle_location: u16,
    pub next_formation_id_on_win: u16,
    pub escape_counter: u16,
    pub next_battle_arena_candidates: Seq<u16>,
    pub flags: u16,
    pub battle_layout_type: u8,
    pub pre_battle_camera_pos_index: u8,
}

impl View for SceneBattleSetup {
    type V = SceneBattleSetupView;

    open spec fn view(&self) -> SceneBattleSetupView {
        SceneBattleSetupView {
            battle_location: self.battle_location,
            next_formation_id_on_win: self.next_formation_id_on_win,
            escape_counter: self.escape_counter,
            next_battle_arena_candidates: self.next_battle_arena_candidates@,
            flags: self.flags,
            battle_layout_type: self.battle_layout_type,
            pre_battle_camera_pos_index: self.pre_battle_camera_pos_index,
        }
    }
}

/// The cameras of one formation: the idle camera and its two alternates.
#[derive(Debug, Clone, Copy)]
pub struct SceneCameraPlacement {
    pub primary_idle_camera: SceneCameraPosition,
    pub other_camera_positions: [SceneCameraPosition; 2],
}

/// What a [`SceneCameraPlacement`] holds, its alternates as a sequence.
pub struct SceneCameraPlacementView {
    pub primary_idle_camera: SceneCameraPosition,
    pub other_camera_positions: Seq<SceneCameraPosition>,
}

impl View for SceneCameraPlacement {
    type V = SceneCameraPlacementView;

    open spec fn view(&self) -> SceneCameraPlacementView {
        SceneCameraPlacementView {
            primary_idle_camera: self.primary_idle_camera,
            other_camera_positions: self.other_camera_positions@,
        }
    }
}

/// One enemy of a formation and where it stands.
#[derive(Debug, Clone)]
pub struct SceneBattleFormationEntry {
    pub enemy_id: u16,
    pub pos_x: i16,
    pub pos_y: i16,
    pub pos_z: i16,
    pub row: u16,
    pub cover_flags: u16,
    pub initial_condition_flags: u32,
}

impl Default for SceneBattleFormationEntry {
    /// The entry of an unused slot.
    fn default() -> (r: Self)
        ensures
            r == (SceneBattleFormationEntry {
                enemy_id: 0xFFFF,
                pos_x: 0,
                pos_y: 0,
                pos_z: 0,
                row: 0,
                cover_flags: 0,
                initial_condition_flags: 0,
            }),
    {
        SceneBattleFormationEntry {
            enemy_id: 0xFFFF,
            pos_x: 0,
            pos_y: 0,
            pos_z: 0,
            row: 0,
            cover_flags: 0,
            initial_condition_flags: 0,
        }
    }
}

/// How strongly one element affects an enemy.
#[derive(Debug, Clone, Copy)]
pub struct SceneElementRate {
    pub element_type: u8,
    pub rate: u8,
}

/// An item that an enemy carries.
#[derive(Debug, Clone, Copy)]
pub struct SceneEnemyItem {
    /// The drop or steal rate, both in one byte.
    pub rate: u8,
    pub item_id: u16,
}

/// The combat definition of one enemy of a scene.
#[derive(Debug, Clone)]
pub struct SceneEnemy {
    pub id: u16,
    /// The decoded name.
    pub name: String,
    pub level: u8,
    pub speed: u8,
    pub luck: u8,
    pub evade: u8,
    pub strength: u8,
    pub defense: u8,
    pub magic: u8,
    pub magic_defense: u8,
    pub element_rates: [SceneElementRate; 8],
    pub enemy_attack_ids: [u16; 16],
    pub enemy_attack_camera_movement_ids: [u16; 16],
    pub items: [SceneEnemyItem; 4],
    pub manipulated_berserk_attack_indexes: [u16; 3],
    pub mp: u16,
    pub ap: u16,
    pub morph_item_id: u16,
    pub back_damage_multiplier: u8,
    pub hp: u32,
    pub exp: u32,
    pub gil: u32,
    pub status_immunities: u32,
}

/// What a [`SceneEnemy`] holds: its name as characters, its tables as
/// sequences in which slot `i` stays slot `i`.
pub struct SceneEnemyView {
    pub id: u16,
    pub name: Seq<char>,
    pub level: u8,
    pub speed: u8,
    pub luck: u8,
    pub evade: u8,
    pub strength: u8,
    pub defense: u8,
    pub magic: u8,
    pub magic_defense: u8,
    pub element_rates: Seq<SceneElementRate>,
    pub enemy_attack_ids: Seq<u16>,
    pub enemy_attack_camera_movement_ids: Seq<u16>,
    pub items: Seq<SceneEnemyItem>,
    pub manipulated_berserk_attack_indexes: Seq<u16>,
    pub mp: u16,
    pub ap: u16,
    pub morph_item_id: u16,
    pub back_damage_multiplier: u8,
    pub hp: u32,
    pub exp: u32,
    pub gil: u32,
    pub status_immunities: u32,
}

impl View for SceneEnemy {
    type V = SceneEnemyView;

    open spec fn view(&self) -> SceneEnemyView {
        SceneEnemyView {
            id: self.id,
            name: self.name@,
            level: self.level,
            speed: self.speed,
            luck: self.luck,
            evade: self.evade,
            strength: self.strength,
            defense: self.defense,
            magic: self.magic,
            magic_defense: self.magic_defense,
            element_rates: self.element_rates@,
            enemy_attack_ids: self.enemy_attack_ids@,
            enemy_attack_camera_movement_ids: self.enemy_attack_camera_movement_ids@,
            items: self.items@,
            manipulated_berserk_attack_indexes: self.manipulated_berserk_attack_indexes@,
            mp: self.mp,
            ap: self.ap,
            morph_item_id: self.morph_item_id,
            back_damage_multiplier: self.back_damage_multiplier,
            hp: self.hp,
            exp: self.exp,
            gil: self.gil,
            status_immunities: self.status_immunities,
        }
    }
}

/// The enemy that stands for a slot without data: every id and table entry
/// is the "none" value of its field.
pub open spec fn placeholder_enemy() -> SceneEnemyView {
    SceneEnemyView {
        id: 0xFFFF,
        name: Seq::empty(),
        level: 0,
        speed: 0,
        luck: 0,
        evade: 0,
        strength: 0,
        defense: 0,
        magic: 0,
        magic_defense: 0,
        element_rates: Seq::new(8, |i: int| SceneElementRate { element_type: 0xFF, rate: 0xFF }),
        enemy_attack_ids: Seq::new(16, |i: int| 0xFFFFu16),
        enemy_attack_camera_movement_ids: Seq::new(16, |i: int| 0xFFFFu16),
        items: Seq::new(4, |i: int| SceneEnemyItem { rate: 0, item_id: 0xFFFF }),
        manipulated_berserk_attack_indexes: Seq::new(3, |i: int| 0xFFFFu16),
        mp: 0,
        ap: 0,
        morph_item_id: 0xFFFF,
        back_damage_multiplier: 0,
        hp: 0,
        exp: 0,
        gil: 0,
        status_immunities: 0xFFFF_FFFF,
    }
}

impl Default for SceneEnemy {
    /// The enemy of a slot without data.
    fn default() -> (r: Self)
        ensures
            r@ == placeholder_enemy(),
    {
        let r = SceneEnemy {
            id: 0xFFFF,
            name: String::new(),
            level: 0,
            speed: 0,
            luck: 0,
            evade: 0,
            strength: 0,
            defense: 0,
            magic: 0,
            magic_defense: 0,
            element_rates: [SceneElementRate { element_type: 0xFF, rate: 0xFF }; 8],
            enemy_attack_ids: [0xFFFFu16; 16],
            enemy_attack_camera_movement_ids: [0xFFFFu16; 16],
            items: [SceneEnemyItem { rate: 0, item_id: 0xFFFF }; 4],
            manipulated_berserk_attack_indexes: [0xFFFFu16; 3],
            mp: 0,
            ap: 0,
            morph_item_id: 0xFFFF,
            back_damage_multiplier: 0,
            hp: 0,
            exp: 0,
            gil: 0,
            status_immunities: 0xFFFF_FFFF,
        };
        assert(r@.element_rates =~= placeholder_enemy().element_rates);
        assert(r@.enemy_attack_ids =~= placeholder_enemy().enemy_attack_ids);
        assert(r@.enemy_attack_camera_movement_ids
            =~= placeholder_enemy().enemy_attack_camera_movement_ids);
        assert(r@.items =~= placeholder_enemy().items);
        assert(r@.manipulated_berserk_attack_indexes
            =~= placeholder_enemy().manipulated_berserk_attack_indexes);
        r
    }
}

/// One named attack that a scene uses.
#[derive(Debug, Clone)]
pub struct SceneAttack {
    pub id: u16,
    /// The decoded name.
    pub name: String,
}

/// What a [`SceneAttack`] holds, its name as characters.
pub struct SceneAttackView {
    pub id: u16,
    pub name: Seq<char>,
}

impl View for SceneAttack {
    type V = SceneAttackView;

    open spec fn view(&self) -> SceneAttackView {
        SceneAttackView { id: self.id, name: self.name@ }
    }
}

/// One of the four enemy arrangements of a scene. `enemies` holds the used
/// slots only, in slot order.
#[derive(Debug, Clone)]
pub struct SceneFormation {
    pub setup: SceneBattleSetup,
    pub camera_placement: SceneCameraPlacement,
    pub enemies: Vec<SceneBattleFormationEntry>,
}

/// What a [`SceneFormation`] holds.
pub struct SceneFormationView {
    pub setup: SceneBattleSetupView,
    pub camera_placement: SceneCameraPlacementView,
    pub enemies: Seq<SceneBattleFormationEntry>,
}

impl View for SceneFormation {
    type V = SceneFormationView;

    open spec fn view(&self) -> SceneFormationView {
        SceneFormationView {
            setup: self.setup@,
            camera_placement: self.camera_placement@,
            enemies: self.enemies@,
        }
    }
}

/// One decoded battle scene: three enemies, four formations, and the attacks
/// that the scene names, in slot order.
#[derive(Debug, Clone)]
pub struct Scene {
    pub enemies: [SceneEnemy; 3],
    pub formations: [SceneFormation; 4],
    pub attacks: Vec<SceneAttack>,
}

/// What a [`Scene`] holds.
pub struct SceneView {
    pub enemies: Seq<SceneEnemyView>,
    pub formations: Seq<SceneFormationView>,
    pub attacks: Seq<SceneAttackView>,
}

/// What each of `enemies` holds.
pub open spec fn enemy_views(enemies: Seq<SceneEnemy>) -> Seq<SceneEnemyView> {
    enemies.map_values(|e: SceneEnemy| e@)
}

/// What each of `formations` holds.
pub open spec fn formation_views(formations: Seq<SceneFormation>) -> Seq<SceneFormationView> {
    formations.map_values(|f: SceneFormation| f@)
}

/// What each of `attacks` holds.
pub open spec fn attack_views(attacks: Seq<SceneAttack>) -> Seq<SceneAttackView> {
    attacks.map_values(|a: SceneAttack| a@)
}

impl View for Scene {
    type V = SceneView;

    open spec fn view(&self) -> SceneView {
        SceneView {
            enemies: enemy_views(self.enemies@),
            formations: formation_views(self.formations@),
            attacks: attack_views(self.attacks@),
        }
    }
}

} // verus!
