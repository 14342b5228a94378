//! The variable banks of the field scripts, and two values of the state of
//! the game that take more than one read.
//!
//! The scripts keep their variables in banks of 256 bytes. Banks 1 to 5 lie
//! one behind the other in the save map, from offset 0xBA4 on. Bank 6 holds
//! the temporary variables of the current field, elsewhere in memory; the
//! address catalogue does not list it, so the caller names it.

use crate::ff7::addresses::FF7Addresses;
use crate::utils::error::GameError;
use crate::utils::memory::{fetched_bytes, stored, u16_bytes, ProcessMemory};
use vstd::prelude::*;

verus! {

/// The size of a variable bank.
pub const BANK_SIZE: usize = 0x100;

/// Where bank `bank` starts. A bank number other than 1 to 6 is taken as a
/// bank of the save map all the same.
pub open spec fn bank_address(bank: u32, savemap: u32, temp_vars: u32) -> int {
    if bank == 6 {
        temp_vars as int
    } else {
        savemap + 0xba4 + (bank - 1) * BANK_SIZE
    }
}

/// Where bank `bank` starts.
fn bank_start(bank: u32, addresses: &FF7Addresses, temp_vars: u32) -> (address: u64)
    ensures
        address == bank_address(bank, addresses.savemap, temp_vars),
        address <= 0x102_0000_0000,
{
    if bank == 6 {
        temp_vars as u64
    } else {
        addresses.savemap as u64 + 0xba4 + (bank as u64) * 0x100 - 0x100
    }
}

/// Reads the 256 bytes of bank `bank`.
pub fn read_variables_bank(
    mem: &ProcessMemory,
    bank: u32,
    addresses: &FF7Addresses,
    temp_vars: u32,
) -> (r: Result<Vec<u8>, GameError>)
    ensures
        fetched_bytes(
            mem,
            bank_address(bank, addresses.savemap, temp_vars),
            BANK_SIZE as int,
            r,
        ),
{
    mem.read(bank_start(bank, addresses, temp_vars), BANK_SIZE)
}

/// Writes `value` to the byte `address` of bank `bank`.
pub fn write_variable_8bit(
    mem: &mut ProcessMemory,
    bank: u32,
    address: u32,
    value: u8,
    addresses: &FF7Addresses,
    temp_vars: u32,
) -> (r: Result<(), GameError>)
    ensures
        stored(
            old(mem),
            final(mem),
            bank_address(bank, addresses.savemap, temp_vars) + address,
            seq![value],
            r,
        ),
{
    let bytes: [u8; 1] = [value];
    assert(bytes@ =~= seq![value]);
    mem.write(bank_start(bank, addresses, temp_vars) + address as u64, bytes.as_slice())
}

/// Writes `value` to the two bytes from `address` on of bank `bank`, the
/// low byte first.
pub fn write_variable_16bit(
    mem: &mut ProcessMemory,
    bank: u32,
    address: u32,
    value: u16,
    addresses: &FF7Addresses,
    temp_vars: u32,
) -> (r: Result<(), GameError>)
    ensures
        stored(
            old(mem),
            final(mem),
            bank_address(bank, addresses.savemap, temp_vars) + address,
            u16_bytes(value),
            r,
        ),
{
    mem.write_u16(bank_start(bank, addresses, temp_vars) + address as u64, value)
}

/// What a read of the place of the Midgar Zolom gives: the word that the
/// pointer at `zolom_current_ptr` leads to, 0 where the pointer is 0.
pub open spec fn zolom_coords_of(mem: &ProcessMemory, zolom_current_ptr: u32) -> Result<
    u32,
    GameError,
> {
    match mem.get_u32(zolom_current_ptr as int) {
        Err(e) => Err(e),
        Ok(pointer) => if pointer == 0 {
            Ok(0u32)
        } else {
            mem.get_u32(pointer as int)
        },
    }
}

/// Reads the place of the Midgar Zolom on the world map, through the
/// pointer at `zolom_current_ptr`.
pub fn read_zolom_coords(mem: &ProcessMemory, zolom_current_ptr: u32) -> (r: Result<u32, GameError>)
    ensures
        r == zolom_coords_of(mem, zolom_current_ptr),
{
    let pointer = mem.read_u32(zolom_current_ptr as u64)?;
    if pointer == 0 {
        Ok(0)
    } else {
        mem.read_u32(pointer as u64)
    }
}

/// What a read of the running slot reel gives: the number, from 1 on, of
/// the first of the three bytes from `slots_active` on that is not 0, or 0
/// where all three are 0. A byte is read only where those before it are 0.
pub open spec fn slots_active_of(mem: &ProcessMemory, slots_active: u32) -> Result<u8, GameError> {
    match mem.get_u8(slots_active as int) {
        Err(e) => Err(e),
        Ok(first) => if first > 0 {
            Ok(1u8)
        } else {
            match mem.get_u8(slots_active + 1) {
                Err(e) => Err(e),
                Ok(second) => if second > 0 {
                    Ok(2u8)
                } else {
                    match mem.get_u8(slots_active + 2) {
                        Err(e) => Err(e),
                        Ok(third) => if third > 0 {
                            Ok(3u8)
                        } else {
                            Ok(0u8)
                        },
                    }
                },
            }
        },
    }
}

/// Reads which of the three slot reels of the battle is running.
pub fn read_slots_active(mem: &ProcessMemory, slots_active: u32) -> (r: Result<u8, GameError>)
    ensures
        r == slots_active_of(mem, slots_active),
{
    let at = slots_active as u64;
    if mem.read_u8(at)? > 0 {
        Ok(1)
    } else if mem.read_u8(at + 1)? > 0 {
        Ok(2)
    } else if mem.read_u8(at + 2)? > 0 {
        Ok(3)
    } else {
        Ok(0)
    }
}

} // verus!
