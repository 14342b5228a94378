use ff7_lib::ff7::addresses::FF7Addresses;
use ff7_lib::ff7::data::general::{read_variables_bank, write_variable_16bit, write_variable_8bit};
use ff7_lib::ff7::types::general::GameModule;
use ff7_lib::ff7::types::kernel::{ElementalEffect, ElementalType};
use ff7_lib::utils::error::GameError;
use ff7_lib::utils::flip_bits;
use ff7_lib::utils::memory::{
    read_memory_buffer, read_memory_byte, read_memory_int, read_memory_short,
    read_memory_signed_int, read_memory_signed_short, write_memory_buffer, write_memory_byte,
    write_memory_int, write_memory_short, write_memory_signed_int, write_memory_signed_short,
    ProcessMemory,
};
use ff7_lib::utils::process::{
    get_current_dir, get_process_handle, handle_memory_error, initialize, invalidate_handle,
    is_ff7_running, process_matches, ProcessScanner, ScanAction, ScanResult,
};

fn gone(address: u64, size: usize) -> GameError {
    GameError::Inaccessible { address, size }
}

fn memory(address: u32, bytes: &[u8]) -> ProcessMemory {
    let mut mem = ProcessMemory::new();
    mem.capture(address, bytes);
    mem
}

#[test]
fn typed_reads_are_little_endian() {
    let mem = memory(0x1000, &[0x78, 0x56, 0x34, 0x12, 0xFE, 0xFF, 0xFF, 0xFF, 0x80]);
    assert_eq!(read_memory_int(&mem, 0x1000), Ok(0x1234_5678));
    assert_eq!(read_memory_short(&mem, 0x1000), Ok(0x5678));
    assert_eq!(read_memory_short(&mem, 0x1001), Ok(0x3456));
    assert_eq!(read_memory_byte(&mem, 0x1003), Ok(0x12));
    assert_eq!(read_memory_signed_int(&mem, 0x1004), Ok(-2));
    assert_eq!(read_memory_signed_short(&mem, 0x1004), Ok(-2));
    assert_eq!(read_memory_signed_short(&mem, 0x1002), Ok(0x1234));
    assert_eq!(read_memory_signed_int(&mem, 0x1000), Ok(0x1234_5678));
    assert_eq!(read_memory_int(&mem, 0x1005), Ok(0x80FF_FFFF));
    assert_eq!(read_memory_signed_int(&mem, 0x1005), Ok(-0x7F00_0001));
    assert_eq!(read_memory_buffer(&mem, 0x1002, 3), Ok(vec![0x34, 0x12, 0xFE]));
    assert_eq!(read_memory_buffer(&mem, 0x5000, 0), Ok(vec![]));
}

#[test]
fn reads_outside_the_capture_fail() {
    let mem = memory(0x1000, &[1, 2, 3, 4]);
    assert_eq!(read_memory_byte(&mem, 0x0FFF), Err(gone(0x0FFF, 1)));
    assert_eq!(read_memory_byte(&mem, 0x1004), Err(gone(0x1004, 1)));
    assert_eq!(read_memory_short(&mem, 0x1003), Err(gone(0x1003, 2)));
    assert_eq!(read_memory_int(&mem, 0x1001), Err(gone(0x1001, 4)));
    assert_eq!(read_memory_signed_int(&mem, 0x0FFE), Err(gone(0x0FFE, 4)));
    assert_eq!(read_memory_signed_short(&mem, 0x2000), Err(gone(0x2000, 2)));
    assert_eq!(read_memory_buffer(&mem, 0x1000, 5), Err(gone(0x1000, 5)));
    assert_eq!(read_memory_int(&mem, 0xFFFF_FFFE), Err(gone(0xFFFF_FFFE, 4)));
    assert!(mem.is_readable(0x1000, 4));
    assert!(!mem.is_readable(0x1000, 5));
    assert!(mem.is_readable(0x9999, 0));
    assert!(!mem.is_readable(u64::MAX, 2));
    assert_eq!(ProcessMemory::new().read(0, 1), Err(gone(0, 1)));
}

#[test]
fn captures_join_and_the_later_one_wins() {
    let mut mem = memory(0x10, &[1, 2, 3, 4]);
    mem.capture(0x14, &[5, 6]);
    mem.capture(0x12, &[9]);
    assert_eq!(read_memory_buffer(&mem, 0x10, 6), Ok(vec![1, 2, 9, 4, 5, 6]));
    assert!(mem.take_writes().is_empty());
    mem.capture(0xFFFF_FFFF, &[7, 8]);
    assert_eq!(mem.read(0xFFFF_FFFF, 2), Ok(vec![7, 8]));
    assert_eq!(mem.read_u16(0xFFFF_FFFF), Ok(0x0807));
}

#[test]
fn writes_change_the_picture_and_are_noted_down() {
    let mut mem = memory(0x2000, &[0; 16]);
    assert_eq!(write_memory_int(&mut mem, 0x2000, 0xDEAD_BEEF), Ok(()));
    assert_eq!(write_memory_short(&mut mem, 0x2004, 0xABCD), Ok(()));
    assert_eq!(write_memory_byte(&mut mem, 0x2006, 0x7F), Ok(()));
    assert_eq!(write_memory_signed_short(&mut mem, 0x2008, -2), Ok(()));
    assert_eq!(write_memory_signed_int(&mut mem, 0x200A, -0x1234_5678), Ok(()));
    assert_eq!(write_memory_buffer(&mut mem, 0x200E, vec![1, 2]), Ok(()));
    assert_eq!(
        read_memory_buffer(&mem, 0x2000, 16),
        Ok(vec![
            0xEF, 0xBE, 0xAD, 0xDE, 0xCD, 0xAB, 0x7F, 0, 0xFE, 0xFF, 0x88, 0xA9, 0xCB, 0xED, 1, 2
        ])
    );
    assert_eq!(read_memory_int(&mem, 0x2000), Ok(0xDEAD_BEEF));
    assert_eq!(read_memory_signed_short(&mem, 0x2008), Ok(-2));
    assert_eq!(read_memory_signed_int(&mem, 0x200A), Ok(-0x1234_5678));
    let writes = mem.take_writes();
    let noted: Vec<(u64, Vec<u8>)> = writes.iter().map(|w| (w.address, w.bytes.clone())).collect();
    assert_eq!(
        noted,
        vec![
            (0x2000, vec![0xEF, 0xBE, 0xAD, 0xDE]),
            (0x2004, vec![0xCD, 0xAB]),
            (0x2006, vec![0x7F]),
            (0x2008, vec![0xFE, 0xFF]),
            (0x200A, vec![0x88, 0xA9, 0xCB, 0xED]),
            (0x200E, vec![1, 2]),
        ]
    );
    assert!(mem.take_writes().is_empty());
    assert_eq!(read_memory_byte(&mem, 0x2006), Ok(0x7F));
}

#[test]
fn positive_and_extreme_signed_writes() {
    let mut mem = memory(0, &[0xAA; 8]);
    assert_eq!(write_memory_signed_short(&mut mem, 0, 0x1234), Ok(()));
    assert_eq!(write_memory_signed_short(&mut mem, 2, i16::MIN), Ok(()));
    assert_eq!(write_memory_signed_int(&mut mem, 4, i32::MIN), Ok(()));
    assert_eq!(mem.read(0, 8), Ok(vec![0x34, 0x12, 0x00, 0x80, 0, 0, 0, 0x80]));
    assert_eq!(write_memory_signed_int(&mut mem, 4, i32::MAX), Ok(()));
    assert_eq!(read_memory_signed_int(&mem, 4), Ok(i32::MAX));
    assert_eq!(read_memory_signed_short(&mem, 2), Ok(i16::MIN));
}

#[test]
fn writes_outside_the_capture_change_nothing() {
    let mut mem = memory(0x2000, &[5; 4]);
    assert_eq!(write_memory_int(&mut mem, 0x2001, 1), Err(gone(0x2001, 4)));
    assert_eq!(write_memory_short(&mut mem, 0x2003, 1), Err(gone(0x2003, 2)));
    assert_eq!(write_memory_byte(&mut mem, 0x1FFF, 1), Err(gone(0x1FFF, 1)));
    assert_eq!(write_memory_signed_short(&mut mem, 0x3000, -1), Err(gone(0x3000, 2)));
    assert_eq!(write_memory_signed_int(&mut mem, 0x1FFE, -1), Err(gone(0x1FFE, 4)));
    assert_eq!(write_memory_buffer(&mut mem, 0x2002, vec![1, 2, 3]), Err(gone(0x2002, 3)));
    assert_eq!(read_memory_buffer(&mem, 0x2000, 4), Ok(vec![5; 4]));
    assert!(mem.take_writes().is_empty());
    assert_eq!(write_memory_buffer(&mut mem, 0x9000, vec![]), Ok(()));
    assert_eq!(mem.take_writes().len(), 1);
}

#[test]
fn variable_banks_lie_in_the_save_map_but_the_sixth() {
    let addresses = FF7Addresses::new();
    let first = addresses.savemap + 0xba4;
    assert_eq!(first, addresses.game_moment);
    let temp = 0x0070_0000;
    let mut mem = ProcessMemory::new();
    for bank in 0..5u32 {
        mem.capture(first + bank * 0x100, &[bank as u8 + 1; 0x100]);
    }
    mem.capture(temp, &[6; 0x100]);
    for bank in 1..=6u32 {
        assert_eq!(
            read_variables_bank(&mem, bank, &addresses, temp),
            Ok(vec![bank as u8; 0x100])
        );
    }
    assert_eq!(
        read_variables_bank(&mem, 7, &addresses, temp),
        Err(gone(first as u64 + 0x600, 0x100))
    );
    assert_eq!(
        read_variables_bank(&mem, 0, &addresses, temp),
        Err(gone(first as u64 - 0x100, 0x100))
    );
    assert_eq!(
        read_variables_bank(&mem, u32::MAX, &addresses, temp),
        Err(gone(first as u64 + 0xFFFF_FFFE * 0x100, 0x100))
    );
}

#[test]
fn variables_are_written_into_their_bank() {
    let addresses = FF7Addresses::new();
    let first = addresses.savemap + 0xba4;
    let temp = 0x0070_0000;
    let mut mem = memory(first, &[0; 0x500]);
    mem.capture(temp, &[0; 0x100]);
    assert_eq!(write_variable_8bit(&mut mem, 1, 0x10, 0xAB, &addresses, temp), Ok(()));
    assert_eq!(write_variable_8bit(&mut mem, 6, 0xFF, 0xCD, &addresses, temp), Ok(()));
    assert_eq!(write_variable_16bit(&mut mem, 3, 0x20, 0x1234, &addresses, temp), Ok(()));
    assert_eq!(write_variable_16bit(&mut mem, 6, 0, 0xBEEF, &addresses, temp), Ok(()));
    assert_eq!(read_memory_byte(&mem, first + 0x10), Ok(0xAB));
    assert_eq!(read_memory_byte(&mem, temp + 0xFF), Ok(0xCD));
    assert_eq!(read_memory_buffer(&mem, first + 0x220, 2), Ok(vec![0x34, 0x12]));
    assert_eq!(read_memory_short(&mem, temp), Ok(0xBEEF));
    assert_eq!(
        write_variable_16bit(&mut mem, 6, 0xFF, 1, &addresses, temp),
        Err(gone(temp as u64 + 0xFF, 2))
    );
    assert_eq!(
        write_variable_8bit(&mut mem, 9, 0, 1, &addresses, temp),
        Err(gone(first as u64 + 0x800, 1))
    );
    assert_eq!(mem.take_writes().len(), 4);
}

#[test]
fn bits_are_flipped() {
    assert_eq!(flip_bits(0x0Fu8), 0xF0);
    assert_eq!(flip_bits(0x00FFu16), 0xFF00);
    assert_eq!(flip_bits(0x0000_0001u32), 0xFFFF_FFFE);
    assert_eq!(flip_bits(-1i32), 0);
    assert_eq!(flip_bits(true), false);
}

#[test]
fn known_addresses_of_the_release() {
    let a = FF7Addresses::new();
    assert_eq!(a.current_module, 0xcbf9dc);
    assert_eq!(a.savemap, 0xdbfd38);
    assert_eq!(a.battle_count, 0xdc08f4);
    assert_eq!(a.character_records, 0xdbfd8c);
    assert_eq!(a.character_records, a.savemap + 0x54);
    assert_eq!(a.party_member_names, a.character_records + 0x10);
    assert_eq!(a.enemy_data_base, 0x9a8e9c);
    assert_eq!(a.kernel_texts_base, 0x9a13c8);
    assert_eq!(a.kernel_section_offsets, 0x9a7fc8);
    assert_eq!(a.kernel_read_fn_call, 0x419458);
    assert_eq!(a.battle_char_base, 0x9ab0dc);
    assert_eq!(a.battle_atb_base, 0x9a8b12);
    assert_eq!(a.battle_char_array, 0x9a8db8);
    assert_eq!(a.field_models_ptr, 0xcff738);
    assert_eq!(a.str_field_tbl, 0x969b10);
    assert_eq!(a.field_battle_disable, a.field_battle_check);
}

#[test]
fn codes_of_the_game() {
    assert_eq!(GameModule::NoModule.code(), 0);
    assert_eq!(GameModule::Field.code(), 1);
    assert_eq!(GameModule::Battle.code(), 2);
    assert_eq!(GameModule::World.code(), 3);
    assert_eq!(GameModule::Menu.code(), 5);
    assert_eq!(GameModule::Snowboard2.code(), 14);
    assert_eq!(GameModule::Quit.code(), 19);
    assert_eq!(GameModule::BattleSwirl.code(), 23);
    assert_eq!(GameModule::Credits.code(), 28);
    assert_eq!(ElementalEffect::Death.code(), 0);
    assert_eq!(ElementalEffect::DoubleDamage.code(), 2);
    assert_eq!(ElementalEffect::FullCure.code(), 7);
    assert_eq!(ElementalEffect::Nothing.code(), 0xFF);
    assert_eq!(ElementalType::Fire.code(), 0);
    assert_eq!(ElementalType::Hidden.code(), 15);
    assert_eq!(ElementalType::Nothing.code(), 0xFF);
}

#[test]
fn game_process_is_told_by_name_state_and_size() {
    let names = vec!["FF7_EN.exe".to_string(), "ff7.exe".to_string()];
    assert!(process_matches(&names, "ff7_en.exe", true, 1024769));
    assert!(process_matches(&names, "FF7.EXE", true, 50_000_000));
    assert!(!process_matches(&names, "ff7_en.exe", true, 1024768));
    assert!(!process_matches(&names, "ff7_en.exe", false, 50_000_000));
    assert!(!process_matches(&names, "ff8.exe", true, 50_000_000));
    assert!(!process_matches(&names, "ff7_en", true, 50_000_000));
    assert!(!process_matches(&[].to_vec(), "ff7.exe", true, 50_000_000));
}

#[test]
fn search_finds_and_loses_the_game() {
    let mut scanner = initialize(vec!["ff7.exe".to_string()]);
    assert!(scanner.is_scanning);
    assert_eq!(scanner.names, vec!["ff7.exe".to_string()]);
    assert!(!is_ff7_running(&scanner));
    assert_eq!(get_process_handle(&scanner), None);
    assert_eq!(get_current_dir(&scanner), None);

    assert_eq!(scanner.observe(ScanResult::NotFound), ScanAction::Nothing);
    assert!(!is_ff7_running(&scanner));

    let found = ScanResult::Found { pid: 42, cwd: "C:\\FF7".to_string() };
    assert_eq!(scanner.observe(found.clone()), ScanAction::OpenHandle { pid: 42 });
    assert_eq!(scanner.process_info.previous_pid, Some(42));
    assert_eq!(get_current_dir(&scanner), Some("C:\\FF7".to_string()));
    assert!(!is_ff7_running(&scanner));

    scanner.handle_opened(42, false);
    assert!(!is_ff7_running(&scanner));
    assert_eq!(scanner.observe(found.clone()), ScanAction::OpenHandle { pid: 42 });
    scanner.handle_opened(42, true);
    assert!(is_ff7_running(&scanner));
    assert_eq!(get_process_handle(&scanner), Some(42));
    assert_eq!(scanner.get_handle(), Some(42));

    let moved = ScanResult::Found { pid: 42, cwd: "elsewhere".to_string() };
    assert_eq!(scanner.observe(moved), ScanAction::Nothing);
    assert_eq!(scanner.get_current_dir(), Some("C:\\FF7".to_string()));

    let again = ScanResult::Found { pid: 77, cwd: "D:\\Games".to_string() };
    assert_eq!(scanner.observe(again), ScanAction::Nothing);
    assert_eq!(scanner.process_info.previous_pid, Some(77));
    assert_eq!(get_current_dir(&scanner), Some("D:\\Games".to_string()));
    assert_eq!(get_process_handle(&scanner), Some(42));

    assert_eq!(scanner.observe(ScanResult::Failed), ScanAction::Nothing);
    assert!(!is_ff7_running(&scanner));
    assert_eq!(scanner.process_info.previous_pid, None);
    assert_eq!(get_current_dir(&scanner), None);
    assert!(scanner.is_scanning);
}

#[test]
fn invalidating_keeps_the_directory() {
    let mut scanner = ProcessScanner::new();
    assert!(!scanner.is_scanning);
    scanner.start_scanning(vec!["a".to_string(), "b".to_string()]);
    scanner.observe(ScanResult::Found { pid: 5, cwd: "dir".to_string() });
    scanner.handle_opened(5, true);
    invalidate_handle(&mut scanner);
    assert_eq!(get_process_handle(&scanner), None);
    assert_eq!(scanner.process_info.previous_pid, None);
    assert_eq!(get_current_dir(&scanner), Some("dir".to_string()));
    assert_eq!(
        scanner.observe(ScanResult::Found { pid: 5, cwd: "new".to_string() }),
        ScanAction::OpenHandle { pid: 5 }
    );
    assert_eq!(get_current_dir(&scanner), Some("new".to_string()));
    scanner.handle_opened(5, true);
    assert_eq!(handle_memory_error(&mut scanner, 0x9a8e9c, 184), gone(0x9a8e9c, 184));
    assert!(!is_ff7_running(&scanner));
    assert_eq!(scanner.process_info.previous_pid, None);
    assert_eq!(scanner.names.len(), 2);
    scanner.observe(ScanResult::NotFound);
    assert_eq!(get_current_dir(&scanner), Some("new".to_string()));
}
