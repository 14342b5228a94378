use ff7_lib::ff7::data::battle::{
    extract_scene, parse_attack, parse_battle_formation_entry, parse_battle_setup,
    parse_camera_placement, parse_camera_position, parse_enemy_data, parse_formation_entries,
    parse_scene_data, read_scene_bin, read_scene_report, read_string_from_bytes,
    scene_from_inflated, GzipFailure, SceneError, SceneFailure,
};
use ff7_lib::ff7::data::scene_index::{block_offsets, scene_index, SceneIndexEntry};
use ff7_lib::ff7::ff7text::DecodeError;
use ff7_lib::ff7::types::battle::{SceneBattleFormationEntry, SceneEnemy};
use ff7_lib::utils::cursor::{ByteCursor, ReadError};
use flate2::write::GzEncoder;
use flate2::Compression;
use std::io::Write;

/// A stand-in for the game's text codec: bytes below 0x60 are ASCII moved
/// down by 0x20, anything else does not decode.
fn decode(bytes: &[u8]) -> Result<String, DecodeError> {
    let mut out = String::new();
    for &b in bytes {
        if b >= 0x60 {
            return Err(DecodeError);
        }
        out.push((b + 0x20) as char);
    }
    Ok(out)
}

fn encode(text: &str) -> Vec<u8> {
    text.bytes().map(|b| b - 0x20).collect()
}

fn put_name(data: &mut [u8], at: usize, text: &str) {
    let raw = encode(text);
    data[at..at + raw.len()].copy_from_slice(&raw);
    if raw.len() < 32 {
        data[at + raw.len()] = 0xFF;
    }
}

fn put_u16(data: &mut [u8], at: usize, v: u16) {
    data[at..at + 2].copy_from_slice(&v.to_le_bytes());
}

fn put_u32(data: &mut [u8], at: usize, v: u32) {
    data[at..at + 4].copy_from_slice(&v.to_le_bytes());
}

/// A scene buffer of `len` bytes in which every slot is unused.
fn blank_scene(len: usize) -> Vec<u8> {
    vec![0xFF; len]
}

fn gzip(bytes: &[u8]) -> Vec<u8> {
    let mut encoder = GzEncoder::new(Vec::new(), Compression::default());
    encoder.write_all(bytes).unwrap();
    encoder.finish().unwrap()
}

/// A container of one block per scene payload list: `blocks[b]` holds the
/// payloads of block `b`, laid out from offset 64 on, each at a multiple of 4.
fn container(blocks: &[Vec<Vec<u8>>]) -> Vec<u8> {
    let mut data = vec![0xFFu8; blocks.len() * 0x2000];
    for (b, payloads) in blocks.iter().enumerate() {
        let base = b * 0x2000;
        let mut at = 64usize;
        for (k, payload) in payloads.iter().enumerate() {
            put_u32(&mut data, base + 4 * k, (at / 4) as u32);
            data[base + at..base + at + payload.len()].copy_from_slice(payload);
            at += (payload.len() + 3) / 4 * 4;
        }
    }
    data
}

#[test]
fn name_stops_at_the_end_marker() {
    let mut raw = encode("Guard");
    raw.push(0xFF);
    raw.extend_from_slice(&encode("junk"));
    assert_eq!(read_string_from_bytes(&raw, &decode), "Guard");
}

#[test]
fn name_without_end_marker_uses_the_whole_field() {
    let raw = encode("MP");
    assert_eq!(read_string_from_bytes(&raw, &decode), "MP");
    assert_eq!(read_string_from_bytes(&[], &decode), "");
    assert_eq!(read_string_from_bytes(&[0xFF, 0x10], &decode), "");
}

#[test]
fn undecodable_name_becomes_the_placeholder() {
    assert_eq!(read_string_from_bytes(&[0x21, 0x80, 0xFF], &decode), "Decode Error");
}

#[test]
fn cursor_reads_little_endian() {
    let data = [0x34u8, 0x12, 0xFE, 0xFF, 0x78, 0x56, 0x34, 0x12, 0x80];
    let mut cursor = ByteCursor::new(&data);
    assert_eq!(cursor.read_u16(), Ok(0x1234));
    assert_eq!(cursor.read_i16(), Ok(-2));
    assert_eq!(cursor.read_u32(), Ok(0x1234_5678));
    assert_eq!(cursor.offset(), 8);
    assert_eq!(cursor.remaining(), 1);
    assert_eq!(cursor.read_u16(), Err(ReadError::UnexpectedEof));
    assert_eq!(cursor.offset(), 8);
    assert_eq!(cursor.read_u8(), Ok(0x80));
    assert_eq!(cursor.read_u8(), Err(ReadError::UnexpectedEof));
}

#[test]
fn cursor_reads_arrays_and_spans() {
    let data = [1u8, 0, 2, 0, 0xFF, 0xFF, 9, 8, 7];
    let mut cursor = ByteCursor::new(&data);
    assert_eq!(cursor.read_u16_array::<3>(), Ok([1, 2, 0xFFFF]));
    assert_eq!(cursor.read_u16_array::<2>(), Err(ReadError::UnexpectedEof));
    assert_eq!(cursor.read_bytes(3), Ok(&[9u8, 8, 7][..]));
    assert_eq!(cursor.read_bytes(0), Ok(&[][..]));
    assert_eq!(cursor.read_bytes(1), Err(ReadError::UnexpectedEof));
    cursor.skip(10);
    assert_eq!(cursor.offset(), 19);
    assert_eq!(cursor.remaining(), 0);
    assert!(!cursor.can_read(0));
    assert_eq!(cursor.read_bytes(0), Err(ReadError::UnexpectedEof));
}

#[test]
fn camera_position_layout() {
    let mut data = vec![0u8; 12];
    put_u16(&mut data, 0, 100);
    put_u16(&mut data, 2, 0xFF9C);
    put_u16(&mut data, 4, 0x8000);
    put_u16(&mut data, 6, 0x7FFF);
    put_u16(&mut data, 8, 1);
    put_u16(&mut data, 10, 0xFFFF);
    let mut cursor = ByteCursor::new(&data);
    let p = parse_camera_position(&mut cursor).unwrap();
    assert_eq!(
        (p.x_pos, p.y_pos, p.z_pos, p.x_dir, p.y_dir, p.z_dir),
        (100, -100, -32768, 32767, 1, -1)
    );
    assert_eq!(cursor.offset(), 12);
    let mut short = ByteCursor::new(&data[..11]);
    assert!(parse_camera_position(&mut short).is_err());
    assert_eq!(short.offset(), 0);
}

#[test]
fn battle_setup_layout() {
    let mut data = vec![0u8; 20];
    put_u16(&mut data, 0, 0x0025);
    put_u16(&mut data, 2, 0xFFFF);
    put_u16(&mut data, 4, 3);
    put_u16(&mut data, 6, 0xABCD);
    for i in 0..4 {
        put_u16(&mut data, 8 + 2 * i, 0x100 + i as u16);
    }
    put_u16(&mut data, 16, 0xFFF9);
    data[18] = 7;
    data[19] = 2;
    let mut cursor = ByteCursor::new(&data);
    let s = parse_battle_setup(&mut cursor).unwrap();
    assert_eq!(s.battle_location, 0x25);
    assert_eq!(s.next_formation_id_on_win, 0xFFFF);
    assert_eq!(s.escape_counter, 3);
    assert_eq!(s.next_battle_arena_candidates, [0x100, 0x101, 0x102, 0x103]);
    assert_eq!(s.flags, 0xFFF9);
    assert_eq!(s.battle_layout_type, 7);
    assert_eq!(s.pre_battle_camera_pos_index, 2);
    assert_eq!(cursor.offset(), 20);
    let mut short = ByteCursor::new(&data[..19]);
    assert!(parse_battle_setup(&mut short).is_err());
    assert_eq!(short.offset(), 0);
}

#[test]
fn camera_placement_layout() {
    let mut data = vec![0xFFu8; 48];
    for i in 0..18 {
        put_u16(&mut data, 2 * i, i as u16);
    }
    let mut cursor = ByteCursor::new(&data);
    let p = parse_camera_placement(&mut cursor).unwrap();
    assert_eq!(p.primary_idle_camera.x_pos, 0);
    assert_eq!(p.primary_idle_camera.z_dir, 5);
    assert_eq!(p.other_camera_positions[0].x_pos, 6);
    assert_eq!(p.other_camera_positions[0].z_dir, 11);
    assert_eq!(p.other_camera_positions[1].x_pos, 12);
    assert_eq!(p.other_camera_positions[1].z_dir, 17);
    assert_eq!(cursor.offset(), 48);
    let mut short = ByteCursor::new(&data[..47]);
    assert!(parse_camera_placement(&mut short).is_err());
    assert_eq!(short.offset(), 0);
}

#[test]
fn formation_entry_layout() {
    let mut data = vec![0u8; 16];
    put_u16(&mut data, 0, 0x0042);
    put_u16(&mut data, 2, 0xFFFE);
    put_u16(&mut data, 4, 10);
    put_u16(&mut data, 6, 0xF000);
    put_u16(&mut data, 8, 1);
    put_u16(&mut data, 10, 0x0003);
    put_u32(&mut data, 12, 0xDEAD_BEEF);
    let mut cursor = ByteCursor::new(&data);
    let e = parse_battle_formation_entry(&mut cursor).unwrap();
    assert_eq!(e.enemy_id, 0x42);
    assert_eq!((e.pos_x, e.pos_y, e.pos_z), (-2, 10, -4096));
    assert_eq!(e.row, 1);
    assert_eq!(e.cover_flags, 3);
    assert_eq!(e.initial_condition_flags, 0xDEAD_BEEF);
    assert_eq!(cursor.offset(), 16);
}

#[test]
fn unused_formation_entries_are_dropped_in_place() {
    let mut data = vec![0xFFu8; 96];
    put_u16(&mut data, 16, 0x0010);
    put_u16(&mut data, 16 + 8, 1);
    put_u16(&mut data, 64, 0x0020);
    put_u16(&mut data, 64 + 8, 2);
    let mut cursor = ByteCursor::new(&data);
    let entries = parse_formation_entries(&mut cursor).unwrap();
    assert_eq!(cursor.offset(), 96);
    assert_eq!(entries.len(), 2);
    assert_eq!((entries[0].enemy_id, entries[0].row), (0x10, 1));
    assert_eq!((entries[1].enemy_id, entries[1].row), (0x20, 2));
    assert!(entries.iter().all(|e| e.enemy_id != 0xFFFF));
    let mut short = ByteCursor::new(&data[..95]);
    assert!(parse_formation_entries(&mut short).is_err());
}

#[test]
fn enemy_layout() {
    let mut data = vec![0u8; 184];
    put_name(&mut data, 0, "Sweeper");
    for i in 0..8 {
        data[32 + i] = 10 + i as u8;
        data[40 + i] = 0x20 + i as u8;
        data[48 + i] = 0x30 + i as u8;
    }
    for i in 0..16 {
        data[56 + i] = 0xEE;
        put_u16(&mut data, 72 + 2 * i, 0x0100 + i as u16);
        put_u16(&mut data, 104 + 2 * i, 0x0200 + i as u16);
    }
    for i in 0..4 {
        data[136 + i] = 0x80 + i as u8;
        put_u16(&mut data, 140 + 2 * i, 0x0300 + i as u16);
    }
    for i in 0..3 {
        put_u16(&mut data, 148 + 2 * i, 0x0400 + i as u16);
    }
    put_u16(&mut data, 154, 0xBEEF);
    put_u16(&mut data, 156, 120);
    put_u16(&mut data, 158, 45);
    put_u16(&mut data, 160, 0x0007);
    data[162] = 16;
    data[163] = 0xAA;
    put_u32(&mut data, 164, 140_000);
    put_u32(&mut data, 168, 2_000);
    put_u32(&mut data, 172, 3_500);
    put_u32(&mut data, 176, 0x0000_FFEF);
    put_u32(&mut data, 180, 0x1234_5678);
    let mut cursor = ByteCursor::new(&data);
    let e = parse_enemy_data(&mut cursor, 0x0012, &decode).unwrap();
    assert_eq!(cursor.offset(), 184);
    assert_eq!(e.id, 0x12);
    assert_eq!(e.name, "Sweeper");
    assert_eq!(
        (e.level, e.speed, e.luck, e.evade, e.strength, e.defense, e.magic, e.magic_defense),
        (10, 11, 12, 13, 14, 15, 16, 17)
    );
    for i in 0..8 {
        assert_eq!(e.element_rates[i].element_type, 0x20 + i as u8);
        assert_eq!(e.element_rates[i].rate, 0x30 + i as u8);
    }
    for i in 0..16 {
        assert_eq!(e.enemy_attack_ids[i], 0x0100 + i as u16);
        assert_eq!(e.enemy_attack_camera_movement_ids[i], 0x0200 + i as u16);
    }
    for i in 0..4 {
        assert_eq!(e.items[i].rate, 0x80 + i as u8);
        assert_eq!(e.items[i].item_id, 0x0300 + i as u16);
    }
    assert_eq!(e.manipulated_berserk_attack_indexes, [0x400, 0x401, 0x402]);
    assert_eq!((e.mp, e.ap, e.morph_item_id, e.back_damage_multiplier), (120, 45, 7, 16));
    assert_eq!((e.hp, e.exp, e.gil, e.status_immunities), (140_000, 2_000, 3_500, 0xFFEF));
    let mut short = ByteCursor::new(&data[..183]);
    assert!(parse_enemy_data(&mut short, 1, &decode).is_err());
    assert_eq!(short.offset(), 0);
}

#[test]
fn attack_takes_its_id_and_a_name_field() {
    let mut data = vec![0u8; 40];
    put_name(&mut data, 0, "Beam Gun");
    let mut cursor = ByteCursor::new(&data);
    let a = parse_attack(&mut cursor, 0x0112, &decode).unwrap();
    assert_eq!((a.id, a.name.as_str()), (0x112, "Beam Gun"));
    assert_eq!(cursor.offset(), 32);
    assert!(parse_attack(&mut cursor, 1, &decode).is_err());
    assert_eq!(cursor.offset(), 32);
}

#[test]
fn placeholder_records() {
    let e = SceneEnemy::default();
    assert_eq!(e.id, 0xFFFF);
    assert_eq!(e.name, "");
    assert_eq!(e.enemy_attack_ids, [0xFFFF; 16]);
    assert_eq!(e.enemy_attack_camera_movement_ids, [0xFFFF; 16]);
    assert_eq!(e.manipulated_berserk_attack_indexes, [0xFFFF; 3]);
    assert!(e.element_rates.iter().all(|r| r.element_type == 0xFF && r.rate == 0xFF));
    assert!(e.items.iter().all(|i| i.rate == 0 && i.item_id == 0xFFFF));
    assert_eq!((e.morph_item_id, e.status_immunities), (0xFFFF, 0xFFFF_FFFF));
    assert_eq!((e.level, e.hp, e.exp, e.gil, e.mp, e.ap), (0, 0, 0, 0, 0, 0));
    let f = SceneBattleFormationEntry::default();
    assert_eq!(f.enemy_id, 0xFFFF);
    assert_eq!((f.pos_x, f.pos_y, f.pos_z, f.row, f.cover_flags), (0, 0, 0, 0, 0));
    assert_eq!(f.initial_condition_flags, 0);
}

#[test]
fn scene_is_read_front_to_back() {
    let mut data = blank_scene(3300);
    put_u16(&mut data, 0, 0x0010);
    put_u16(&mut data, 2, 0x0011);
    put_u16(&mut data, 4, 0xFFFF);
    put_u16(&mut data, 8 + 20, 0x0033);
    put_u16(&mut data, 88 + 48 * 2, 0x0102);
    put_u16(&mut data, 280 + 96 * 3 + 16 * 5, 0x0011);
    put_name(&mut data, 664, "Grunt");
    put_name(&mut data, 664 + 184, "Hound");
    put_name(&mut data, 664 + 368, "");
    data[664 + 184 + 32] = 9;
    put_u32(&mut data, 664 + 368 + 164, 77);
    put_u16(&mut data, 2112 + 2 * 31, 0x0150);
    put_name(&mut data, 2176 + 32 * 31, "Tail Laser");
    let scene = parse_scene_data(&data, &decode).unwrap();
    assert_eq!(scene.enemies[0].id, 0x10);
    assert_eq!(scene.enemies[1].id, 0x11);
    assert_eq!(scene.enemies[2].id, 0xFFFF);
    assert_eq!(scene.enemies[0].name, "Grunt");
    assert_eq!(scene.enemies[1].name, "Hound");
    assert_eq!(scene.enemies[2].name, "");
    assert_eq!(scene.enemies[1].level, 9);
    assert_eq!(scene.enemies[2].hp, 77);
    assert_eq!(scene.formations[0].setup.battle_location, 0xFFFF);
    assert_eq!(scene.formations[1].setup.battle_location, 0x33);
    assert_eq!(scene.formations[2].camera_placement.primary_idle_camera.x_pos, 0x102);
    assert_eq!(scene.formations[1].camera_placement.primary_idle_camera.x_pos, -1);
    assert!(scene.formations[0].enemies.is_empty());
    assert!(scene.formations[1].enemies.is_empty());
    assert!(scene.formations[2].enemies.is_empty());
    assert_eq!(scene.formations[3].enemies.len(), 1);
    assert_eq!(scene.formations[3].enemies[0].enemy_id, 0x11);
    assert_eq!(scene.attacks.len(), 1);
    assert_eq!((scene.attacks[0].id, scene.attacks[0].name.as_str()), (0x150, "Tail Laser"));
}

#[test]
fn attack_table_keeps_used_slots_in_order() {
    let mut data = blank_scene(3200);
    put_u16(&mut data, 2112, 0x0012);
    put_u16(&mut data, 2114, 0xFFFF);
    put_u16(&mut data, 2116, 0x0034);
    put_u16(&mut data, 2118, 0xFFFF);
    put_name(&mut data, 2176, "Bite");
    put_name(&mut data, 2176 + 32, "never read");
    put_name(&mut data, 2176 + 64, "Claw");
    put_name(&mut data, 2176 + 96, "never read");
    let scene = parse_scene_data(&data, &decode).unwrap();
    let attacks: Vec<(u16, &str)> =
        scene.attacks.iter().map(|a| (a.id, a.name.as_str())).collect();
    assert_eq!(attacks, vec![(0x12, "Bite"), (0x34, "Claw")]);
}

#[test]
fn attack_names_do_not_move_when_a_slot_is_unused() {
    let mut all = blank_scene(3200);
    for slot in 0..32 {
        put_u16(&mut all, 2112 + 2 * slot, 0x100 + slot as u16);
        put_name(&mut all, 2176 + 32 * slot, &format!("Attack {}", slot));
    }
    let full = parse_scene_data(&all, &decode).unwrap();
    assert_eq!(full.attacks.len(), 32);
    let mut some = all.clone();
    for slot in [0usize, 5, 6, 30] {
        put_u16(&mut some, 2112 + 2 * slot, 0xFFFF);
    }
    let part = parse_scene_data(&some, &decode).unwrap();
    assert_eq!(part.attacks.len(), 28);
    assert!(part.attacks.iter().all(|a| a.id != 0xFFFF));
    for a in &part.attacks {
        let slot = (a.id - 0x100) as usize;
        assert_eq!(a.name, format!("Attack {}", slot));
        assert_eq!(a.name, full.attacks[slot].name);
    }
}

#[test]
fn scene_needs_the_whole_grammar() {
    let blank = blank_scene(3200);
    assert!(parse_scene_data(&blank, &decode).is_ok());
    assert!(parse_scene_data(&blank_scene(5000), &decode).is_ok());
    assert_eq!(parse_scene_data(&blank[..3199], &decode).err(), Some(ReadError::UnexpectedEof));
    assert_eq!(parse_scene_data(&blank[..2176], &decode).err(), Some(ReadError::UnexpectedEof));
    assert_eq!(parse_scene_data(&blank[..2175], &decode).err(), Some(ReadError::UnexpectedEof));
    assert!(parse_scene_data(&[], &decode).is_err());
    // The name of the last used slot is there, the fields behind it are not.
    let mut data = blank_scene(3200);
    put_u16(&mut data, 2112 + 4, 0x0001);
    put_name(&mut data, 2176 + 64, "Claw");
    assert_eq!(parse_scene_data(&data, &decode).unwrap().attacks[0].name, "Claw");
    assert!(parse_scene_data(&data[..2176 + 96], &decode).is_err());
    assert!(parse_scene_data(&data[..2176 + 95], &decode).is_err());
    // Every slot used: the last name ends with the grammar.
    for slot in 0..32 {
        put_u16(&mut data, 2112 + 2 * slot, slot as u16);
    }
    assert_eq!(parse_scene_data(&data, &decode).unwrap().attacks.len(), 32);
    assert!(parse_scene_data(&data[..3199], &decode).is_err());
}

#[test]
fn decoding_twice_gives_the_same_scene() {
    let mut data = blank_scene(3200);
    put_u16(&mut data, 0, 7);
    put_name(&mut data, 664, "Twin");
    put_u16(&mut data, 2112, 3);
    put_name(&mut data, 2176, "Echo");
    put_u16(&mut data, 280, 7);
    let a = parse_scene_data(&data, &decode).unwrap();
    let b = parse_scene_data(&data, &decode).unwrap();
    assert_eq!(format!("{:?}", a), format!("{:?}", b));
    let file = container(&[vec![gzip(&data), gzip(&blank_scene(3200))]]);
    let first = read_scene_bin(&file, &decode);
    let second = read_scene_bin(&file, &decode);
    assert_eq!(first.len(), 2);
    assert_eq!(format!("{:?}", first), format!("{:?}", second));
}

#[test]
fn extraction_tells_the_failures_apart() {
    let scene = gzip(&blank_scene(3200));
    assert!(extract_scene(&scene, &decode).is_ok());
    assert_eq!(
        extract_scene(&[0x12, 0x34, 0x56, 0x78, 0, 0, 0, 0, 0, 0, 0, 0], &decode).err(),
        Some(SceneError::NotCompressed)
    );
    assert_eq!(
        extract_scene(&scene[..scene.len() - 9], &decode).err(),
        Some(SceneError::Truncated)
    );
    assert_eq!(extract_scene(&[], &decode).err(), Some(SceneError::Truncated));
    let mut damaged = scene.clone();
    let last = damaged.len() - 1;
    damaged[last] ^= 0x55;
    assert_eq!(extract_scene(&damaged, &decode).err(), Some(SceneError::Corrupt));
    assert_eq!(extract_scene(&gzip(&[]), &decode).err(), Some(SceneError::Empty));
    assert_eq!(
        extract_scene(&gzip(&blank_scene(3199)), &decode).err(),
        Some(SceneError::Malformed)
    );
    assert_eq!(
        extract_scene(&gzip(&blank_scene(2176)), &decode).err(),
        Some(SceneError::Malformed)
    );
}

#[test]
fn extraction_reads_one_member_and_ignores_what_follows() {
    let mut data = blank_scene(3200);
    put_u16(&mut data, 0, 0x0042);
    let mut payload = gzip(&data);
    payload.extend_from_slice(&[0xFF; 37]);
    let scene = extract_scene(&payload, &decode).unwrap();
    assert_eq!(scene.enemies[0].id, 0x42);
}

#[test]
fn outcome_of_each_decompression_result() {
    assert_eq!(
        scene_from_inflated(Err(GzipFailure::BadHeader), &decode).err(),
        Some(SceneError::NotCompressed)
    );
    assert_eq!(
        scene_from_inflated(Err(GzipFailure::Truncated), &decode).err(),
        Some(SceneError::Truncated)
    );
    assert_eq!(
        scene_from_inflated(Err(GzipFailure::Corrupt), &decode).err(),
        Some(SceneError::Corrupt)
    );
    assert_eq!(scene_from_inflated(Ok(vec![]), &decode).err(), Some(SceneError::Empty));
    assert_eq!(
        scene_from_inflated(Ok(vec![0xFF; 100]), &decode).err(),
        Some(SceneError::Malformed)
    );
    let mut data = blank_scene(3200);
    put_u16(&mut data, 2, 0x0099);
    let scene = scene_from_inflated(Ok(data), &decode).unwrap();
    assert_eq!(scene.enemies[1].id, 0x99);
}

#[test]
fn header_ends_at_the_sentinel_or_after_sixteen_words() {
    let mut data = vec![0u8; 0x2000 * 2 + 10];
    put_u32(&mut data, 0, 0x10);
    put_u32(&mut data, 4, 0x20);
    put_u32(&mut data, 8, 0xFFFF_FFFF);
    put_u32(&mut data, 12, 0x30);
    for k in 0..20 {
        put_u32(&mut data, 0x2000 + 4 * k, 0x100 + k as u32);
    }
    put_u32(&mut data, 0x4000, 1);
    put_u32(&mut data, 0x4004, 2);
    assert_eq!(block_offsets(&data, 0), vec![0x40, 0x80]);
    let full: Vec<u64> = (0..16).map(|k| 4 * (0x100 + k)).collect();
    assert_eq!(block_offsets(&data, 1), full);
    assert_eq!(block_offsets(&data, 2), vec![4, 8]);
    assert_eq!(block_offsets(&data[..0x4007], 2), vec![4]);
    assert_eq!(block_offsets(&data[..0x4003], 2), Vec::<u64>::new());
    let mut big = vec![0u8; 8];
    put_u32(&mut big, 0, 0xFFFF_FFFE);
    put_u32(&mut big, 4, 0xFFFF_FFFF);
    assert_eq!(block_offsets(&big, 0), vec![0x3_FFFF_FFF8]);
}

#[test]
fn index_of_a_block_with_two_scenes() {
    let mut data = vec![0u8; 0x2000];
    put_u32(&mut data, 0, 0x10);
    put_u32(&mut data, 4, 0x20);
    put_u32(&mut data, 8, 0xFFFF_FFFF);
    assert_eq!(
        scene_index(&data),
        vec![
            SceneIndexEntry { block: 0, offset: 0x40, length: 0x40 },
            SceneIndexEntry { block: 0, offset: 0x80, length: 0x2000 - 0x80 },
        ]
    );
}

#[test]
fn two_scenes_of_one_block() {
    let mut first = blank_scene(3200);
    put_u16(&mut first, 0, 1);
    let mut second = blank_scene(3200);
    put_u16(&mut second, 0, 2);
    let (first, second) = (gzip(&first), gzip(&second));
    assert!(first.len() <= 0x40);
    let mut data = vec![0xFFu8; 0x2000];
    put_u32(&mut data, 0, 0x40 / 4);
    put_u32(&mut data, 4, 0x80 / 4);
    put_u32(&mut data, 8, 0xFFFF_FFFF);
    data[0x40..0x40 + first.len()].copy_from_slice(&first);
    data[0x80..0x80 + second.len()].copy_from_slice(&second);
    let index = scene_index(&data);
    assert_eq!(index.len(), 2);
    assert_eq!(index[1], SceneIndexEntry { block: 0, offset: 0x80, length: 0x2000 - 0x80 });
    let scenes = read_scene_bin(&data, &decode);
    assert_eq!(scenes.len(), 2);
    assert_eq!(scenes[0].enemies[0].id, 1);
    assert_eq!(scenes[1].enemies[0].id, 2);
}

#[test]
fn truncated_scene_is_left_out_alone() {
    let mut good = blank_scene(3200);
    put_u16(&mut good, 0, 0x0077);
    let whole = gzip(&blank_scene(3200));
    let cut = whole[..(whole.len() - 9) / 4 * 4].to_vec();
    let mut data = vec![0xFFu8; 0x2000];
    let good = gzip(&good);
    put_u32(&mut data, 0, 0x40 / 4);
    data[0x40..0x40 + cut.len()].copy_from_slice(&cut);
    let at = (0x40 + cut.len() + 3) / 4 * 4;
    put_u32(&mut data, 4, (at / 4) as u32);
    data[at..at + good.len()].copy_from_slice(&good);
    let index = scene_index(&data);
    assert_eq!(index.len(), 2);
    let first = &data[0x40..0x40 + index[0].length];
    assert_eq!(extract_scene(first, &decode).err(), Some(SceneError::Truncated));
    let scenes = read_scene_bin(&data, &decode);
    assert_eq!(scenes.len(), 1);
    assert_eq!(scenes[0].enemies[0].id, 0x77);
}

#[test]
fn empty_block_does_not_end_the_walk() {
    let mut a = blank_scene(3200);
    put_u16(&mut a, 0, 0xA);
    let mut c = blank_scene(3200);
    put_u16(&mut c, 0, 0xC);
    let data = container(&[vec![gzip(&a)], vec![], vec![gzip(&c)]]);
    assert_eq!(block_offsets(&data, 1), Vec::<u64>::new());
    let index = scene_index(&data);
    assert_eq!(index.iter().map(|e| e.block).collect::<Vec<_>>(), vec![0, 2]);
    let scenes = read_scene_bin(&data, &decode);
    assert_eq!(scenes.len(), 2);
    assert_eq!(scenes[0].enemies[0].id, 0xA);
    assert_eq!(scenes[1].enemies[0].id, 0xC);
}

#[test]
fn scene_count_is_offsets_minus_failures() {
    let good = gzip(&blank_scene(3200));
    let short = gzip(&blank_scene(100));
    let empty = gzip(&[]);
    let junk = vec![0x55u8; 24];
    let data = container(&[
        vec![good.clone(), short, good.clone()],
        vec![junk, good.clone()],
        vec![],
        vec![empty, good.clone(), good.clone(), good],
    ]);
    let offsets: usize = (0..4).map(|b| block_offsets(&data, b).len()).sum();
    assert_eq!(offsets, 9);
    assert_eq!(scene_index(&data).len(), 9);
    assert_eq!(read_scene_bin(&data, &decode).len(), 9 - 3);
}

#[test]
fn report_names_each_scene_left_out() {
    let mut marked = blank_scene(3200);
    put_u16(&mut marked, 0, 0x0105);
    let good = gzip(&blank_scene(3200));
    let whole = gzip(&marked);
    let cut = whole[..(whole.len() - 9) / 4 * 4].to_vec();
    let data = container(&[
        vec![good.clone(), gzip(&blank_scene(3199)), gzip(&marked)],
        vec![vec![0x55u8; 24], cut, good.clone()],
        vec![],
        vec![gzip(&[]), good],
    ]);
    let index = scene_index(&data);
    assert_eq!(index.len(), 8);
    let report = read_scene_report(&data, &decode);
    assert_eq!(
        report.failures,
        vec![
            SceneFailure { entry: index[1], error: SceneError::Malformed },
            SceneFailure { entry: index[3], error: SceneError::NotCompressed },
            SceneFailure { entry: index[4], error: SceneError::Truncated },
            SceneFailure { entry: index[6], error: SceneError::Empty },
        ]
    );
    assert_eq!(report.scenes.len(), 4);
    assert_eq!(report.scenes[1].enemies[0].id, 0x0105);
    assert_eq!(
        format!("{:?}", report.scenes),
        format!("{:?}", read_scene_bin(&data, &decode))
    );
}

#[test]
fn cutting_out_an_empty_block_changes_no_scene() {
    let mut payloads = Vec::new();
    for id in 1..=4u16 {
        let mut scene = blank_scene(3200);
        put_u16(&mut scene, 0, id);
        put_u16(&mut scene, 2112, id);
        put_name(&mut scene, 2176, "Strike");
        payloads.push(gzip(&scene));
    }
    let front = container(&[vec![payloads[0].clone(), payloads[1].clone()]]);
    let back = container(&[vec![payloads[2].clone()], vec![payloads[3].clone()]]);
    // Only the first header word of the empty block says that it is empty.
    let mut empty = vec![0x5Au8; 0x2000];
    put_u32(&mut empty, 0, 0xFFFF_FFFF);
    put_u32(&mut empty, 4, 0x40 / 4);
    empty[0x40..0x40 + payloads[0].len()].copy_from_slice(&payloads[0]);

    let with: Vec<u8> = [front.clone(), empty, back.clone()].concat();
    let without: Vec<u8> = [front, back].concat();
    let scenes_with = read_scene_bin(&with, &decode);
    let scenes_without = read_scene_bin(&without, &decode);
    assert_eq!(scenes_with.len(), 4);
    assert_eq!(
        scenes_with.iter().map(|s| s.enemies[0].id).collect::<Vec<_>>(),
        vec![1, 2, 3, 4]
    );
    assert_eq!(format!("{:?}", scenes_with), format!("{:?}", scenes_without));
    assert_eq!(
        scene_index(&with).iter().map(|e| e.block).collect::<Vec<_>>(),
        vec![0, 0, 2, 3]
    );
    assert_eq!(
        scene_index(&without).iter().map(|e| e.block).collect::<Vec<_>>(),
        vec![0, 0, 1, 2]
    );
}

#[test]
fn scenes_out_of_the_file_are_skipped() {
    let good = gzip(&blank_scene(3200));
    let mut data = vec![0xFFu8; 0x2000 + 0x100];
    put_u32(&mut data, 0, 0x40 / 4);
    put_u32(&mut data, 4, 0x3000 / 4);
    put_u32(&mut data, 8, 0x20 / 4);
    data[0x40..0x40 + good.len()].copy_from_slice(&good);
    put_u32(&mut data, 0x2000, 0x80 / 4);
    put_u32(&mut data, 0x2004, 0x200 / 4);
    data[0x2080..0x2080 + good.len()].copy_from_slice(&good);
    assert_eq!(block_offsets(&data, 1), vec![0x80, 0x200]);
    let index = scene_index(&data);
    assert_eq!(index, vec![SceneIndexEntry { block: 0, offset: 0x20, length: 0x2000 - 0x20 }]);
    put_u32(&mut data, 0x2004, 0xFFFF_FFFF);
    let index = scene_index(&data);
    assert_eq!(
        index,
        vec![
            SceneIndexEntry { block: 0, offset: 0x20, length: 0x2000 - 0x20 },
            SceneIndexEntry { block: 1, offset: 0x80, length: 0x80 },
        ]
    );
    assert_eq!(read_scene_bin(&data, &decode).len(), 1);
    assert_eq!(scene_index(&[]), vec![]);
    assert_eq!(read_scene_bin(&[], &decode).len(), 0);
}

#[test]
fn no_scene_holds_an_unused_entry_or_attack() {
    let mut data = blank_scene(3200);
    for f in 0..4 {
        for slot in 0..6 {
            if (f + slot) % 2 == 0 {
                put_u16(&mut data, 280 + 96 * f + 16 * slot, (f * 6 + slot) as u16);
            }
        }
    }
    for slot in 0..32 {
        if slot % 3 == 0 {
            put_u16(&mut data, 2112 + 2 * slot, slot as u16);
        }
    }
    let file = container(&[vec![gzip(&data)]]);
    let scenes = read_scene_bin(&file, &decode);
    assert_eq!(scenes.len(), 1);
    for f in 0..4 {
        assert_eq!(scenes[0].formations[f].enemies.len(), 3);
        for e in &scenes[0].formations[f].enemies {
            assert_ne!(e.enemy_id, 0xFFFF);
            assert_eq!((e.enemy_id as usize) / 6, f);
        }
    }
    assert_eq!(scenes[0].attacks.len(), 11);
    assert!(scenes[0].attacks.iter().all(|a| a.id != 0xFFFF && a.id % 3 == 0));
}

/// The container in memory stands in for the game's file, which is not at
/// hand: 32 blocks of 8 scenes each.
#[test]
fn test_read_scene_bin() {
    let mut blocks = Vec::new();
    for b in 0..32u16 {
        let mut payloads = Vec::new();
        for k in 0..8u16 {
            let mut scene = blank_scene(3200);
            put_u16(&mut scene, 0, b * 8 + k);
            payloads.push(gzip(&scene));
        }
        blocks.push(payloads);
    }
    let data = container(&blocks);
    let scenes_vec = read_scene_bin(&data, &decode);
    let num_scenes = scenes_vec.len();
    assert!(num_scenes >= 256, "Expected at least 256 scenes, got {}", num_scenes);
    for (i, scene) in scenes_vec.iter().enumerate() {
        assert_eq!(scene.enemies[0].id as usize, i);
    }
    println!("Successfully parsed {} scenes from scene.bin", num_scenes);
}
