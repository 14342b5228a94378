//! A picture of the game's memory, and the typed reads and writes on it.
//!
//! The game is a 32-bit little-endian process. A [`ProcessMemory`] holds the
//! bytes of those addresses that were captured from it; every other address
//! is inaccessible. A write changes the picture and is noted down, so that
//! it can be carried out on the process afterwards.

use crate::utils::cursor::{i16_le, i32_le, u16_le, u32_le};
use crate::utils::error::GameError;
use std::collections::HashMap;
use vstd::prelude::*;
use vstd::slice::slice_to_vec;

verus! {

/// One write to the game's memory, yet to be carried out.
#[derive(Debug, Clone)]
pub struct MemoryWrite {
    pub address: u64,
    pub bytes: Vec<u8>,
}

impl View for MemoryWrite {
    type V = (u64, Seq<u8>);

    open spec fn view(&self) -> (u64, Seq<u8>) {
        (self.address, self.bytes@)
    }
}

/// What each of `writes` holds.
pub open spec fn write_views(writes: Seq<MemoryWrite>) -> Seq<(u64, Seq<u8>)> {
    writes.map_values(|w: MemoryWrite| w@)
}

/// The captured part of the game's memory.
pub struct ProcessMemory {
    bytes: HashMap<u64, u8>,
    writes: Vec<MemoryWrite>,
}

impl ProcessMemory {
    /// The byte at `address`, if it was captured.
    pub closed spec fn byte(&self, address: int) -> Option<u8> {
        if 0 <= address <= u64::MAX && self.bytes@.contains_key(address as u64) {
            Some(self.bytes@[address as u64])
        } else {
            None
        }
    }

    /// The writes noted down so far, the oldest first.
    pub closed spec fn pending(&self) -> Seq<(u64, Seq<u8>)> {
        write_views(self.writes@)
    }

    /// The `size` bytes from `address` on were all captured.
    pub open spec fn readable(&self, address: int, size: int) -> bool {
        forall|i: int| 0 <= i < size ==> (#[trigger] self.byte(address + i)) is Some
    }

    /// The `size` bytes from `address` on.
    pub open spec fn span(&self, address: int, size: int) -> Seq<u8> {
        Seq::new(size as nat, |i: int| self.byte(address + i)->Some_0)
    }

    /// The byte at `address`.
    pub open spec fn u8_at(&self, address: int) -> u8 {
        self.byte(address)->Some_0
    }

    /// The little-endian `u16` at `address`.
    pub open spec fn u16_at(&self, address: int) -> u16 {
        u16_le(self.u8_at(address), self.u8_at(address + 1))
    }

    /// The little-endian `i16` at `address`.
    pub open spec fn i16_at(&self, address: int) -> i16 {
        i16_le(self.u8_at(address), self.u8_at(address + 1))
    }

    /// The little-endian `u32` at `address`.
    pub open spec fn u32_at(&self, address: int) -> u32 {
        u32_le(
            self.u8_at(address),
            self.u8_at(address + 1),
            self.u8_at(address + 2),
            self.u8_at(address + 3),
        )
    }

    /// The little-endian `i32` at `address`.
    pub open spec fn i32_at(&self, address: int) -> i32 {
        i32_le(
            self.u8_at(address),
            self.u8_at(address + 1),
            self.u8_at(address + 2),
            self.u8_at(address + 3),
        )
    }

    /// The failure of a read of the `size` bytes from `address` on.
    pub open spec fn fault(address: int, size: int) -> GameError {
        GameError::Inaccessible { address: address as u64, size: size as usize }
    }

    /// What a read of the byte at `address` gives.
    pub open spec fn get_u8(&self, address: int) -> Result<u8, GameError> {
        if self.readable(address, 1) {
            Ok(self.u8_at(address))
        } else {
            Err(Self::fault(address, 1))
        }
    }

    /// What a read of the little-endian `u16` at `address` gives.
    pub open spec fn get_u16(&self, address: int) -> Result<u16, GameError> {
        if self.readable(address, 2) {
            Ok(self.u16_at(address))
        } else {
            Err(Self::fault(address, 2))
        }
    }

    /// What a read of the little-endian `u32` at `address` gives.
    pub open spec fn get_u32(&self, address: int) -> Result<u32, GameError> {
        if self.readable(address, 4) {
            Ok(self.u32_at(address))
        } else {
            Err(Self::fault(address, 4))
        }
    }

    /// The same memory but for the bytes `bytes` from `address` on.
    pub open spec fn differs_by(&self, before: &Self, address: int, bytes: Seq<u8>) -> bool {
        forall|a: int|
            #[trigger] self.byte(a) == if address <= a < address + bytes.len() {
                Some(bytes[a - address])
            } else {
                before.byte(a)
            }
    }

    /// A picture that holds no byte.
    pub fn new() -> (mem: Self)
        ensures
            forall|a: int| (#[trigger] mem.byte(a)) is None,
            mem.pending() == Seq::<(u64, Seq<u8>)>::empty(),
    {
        let mem = ProcessMemory { bytes: HashMap::new(), writes: Vec::new() };
        assert(mem.pending() =~= Seq::<(u64, Seq<u8>)>::empty());
        mem
    }

    /// Puts `bytes` into the picture from `address` on, and notes nothing
    /// down.
    fn set_bytes(&mut self, address: u64, bytes: &[u8])
        requires
            address + bytes@.len() <= u64::MAX + 1,
        ensures
            final(self).differs_by(old(self), address as int, bytes@),
            final(self).writes == old(self).writes,
    {
        let mut i: usize = 0;
        while i < bytes.len()
            invariant
                i <= bytes@.len(),
                address + bytes@.len() <= u64::MAX + 1,
                self.differs_by(old(self), address as int, bytes@.take(i as int)),
                self.writes == old(self).writes,
            decreases bytes@.len() - i,
        {
            let ghost before = *self;
            self.bytes.insert(address + i as u64, bytes[i]);
            i += 1;
            proof {
                let now = bytes@.take(i as int);
                assert forall|a: int| #[trigger]
                    self.byte(a) == if address <= a < address + now.len() {
                        Some(now[a - address])
                    } else {
                        old(self).byte(a)
                    } by {
                    // What the byte was before this one was put in.
                    assert(before.byte(a) == if address <= a < address + now.len() - 1 {
                        Some(now[a - address])
                    } else {
                        old(self).byte(a)
                    });
                }
            }
        }
        assert(bytes@.take(i as int) == bytes@);
    }

    /// Takes `bytes` as what the game holds from `address` on. Nothing is
    /// noted down: this is a capture, not a write.
    pub fn capture(&mut self, address: u32, bytes: &[u8])
        requires
            address + bytes@.len() <= u64::MAX,
        ensures
            final(self).differs_by(old(self), address as int, bytes@),
            final(self).pending() == old(self).pending(),
    {
        self.set_bytes(address as u64, bytes);
    }

    /// Whether the `size` bytes from `address` on were all captured.
    pub fn is_readable(&self, address: u64, size: usize) -> (b: bool)
        ensures
            b == self.readable(address as int, size as int),
    {
        let mut i: usize = 0;
        while i < size
            invariant
                i <= size,
                self.readable(address as int, i as int),
            decreases size - i,
        {
            if i as u64 > u64::MAX - address {
                assert(self.byte(address + i) is None);
                return false;
            }
            if !self.bytes.contains_key(&(address + i as u64)) {
                assert(self.byte(address + i) is None);
                return false;
            }
            i += 1;
        }
        true
    }

    /// The `size` bytes from `address` on.
    pub fn read(&self, address: u64, size: usize) -> (r: Result<Vec<u8>, GameError>)
        ensures
            fetched_bytes(self, address as int, size as int, r),
    {
        let mut bytes: Vec<u8> = Vec::new();
        let mut i: usize = 0;
        while i < size
            invariant
                i <= size,
                self.readable(address as int, i as int),
                bytes@ == self.span(address as int, i as int),
            decreases size - i,
        {
            if i as u64 > u64::MAX - address {
                assert(self.byte(address + i) is None);
                return Err(GameError::Inaccessible { address, size });
            }
            match self.bytes.get(&(address + i as u64)) {
                Some(b) => {
                    bytes.push(*b);
                },
                None => {
                    assert(self.byte(address + i) is None);
                    return Err(GameError::Inaccessible { address, size });
                },
            }
            i += 1;
            assert(bytes@ =~= self.span(address as int, i as int));
        }
        Ok(bytes)
    }

    /// Puts `bytes` where the game holds the bytes from `address` on, and
    /// notes the write down. Where not all of these bytes were captured,
    /// nothing is written.
    pub fn write(&mut self, address: u64, bytes: &[u8]) -> (r: Result<(), GameError>)
        ensures
            stored(old(self), final(self), address as int, bytes@, r),
    {
        if !self.is_readable(address, bytes.len()) {
            return Err(GameError::Inaccessible { address, size: bytes.len() });
        }
        // The last byte written is captured, so it has an address.
        assert(bytes@.len() > 0 ==> old(self).byte(address + (bytes@.len() - 1)) is Some);
        self.set_bytes(address, bytes);
        let copy = slice_to_vec(bytes);
        let ghost written = *self;
        self.writes.push(MemoryWrite { address, bytes: copy });
        proof {
            assert(write_views(self.writes@) =~= write_views(written.writes@).push(
                (address, bytes@),
            ));
            assert forall|a: int| #[trigger]
                self.byte(a) == if address <= a < address + bytes@.len() {
                    Some(bytes@[a - address])
                } else {
                    old(self).byte(a)
                } by {
                // Noting the write down leaves the bytes as they are.
                assert(self.byte(a) == written.byte(a));
            }
        }
        Ok(())
    }

    /// Carries out the writes `plan` one after the other, up to the first
    /// that fails.
    pub fn write_all(&mut self, plan: &Vec<MemoryWrite>) -> (r: Result<(), GameError>)
        ensures
            stored_all(old(self), final(self), write_views(plan@), r),
    {
        assert(write_views(plan@).skip(0) =~= write_views(plan@));
        self.write_from(plan, 0)
    }

    /// Carries out the writes of `plan` from the one at `from` on.
    fn write_from(&mut self, plan: &Vec<MemoryWrite>, from: usize) -> (r: Result<(), GameError>)
        requires
            from <= plan@.len(),
        ensures
            stored_all(old(self), final(self), write_views(plan@).skip(from as int), r),
        decreases plan@.len() - from,
    {
        let ghost rest = write_views(plan@).skip(from as int);
        if from == plan.len() {
            return Ok(());
        }
        assert(rest[0] == plan@[from as int]@);
        self.write(plan[from].address, plan[from].bytes.as_slice())?;
        let ghost between = *self;
        let r = self.write_from(plan, from + 1);
        proof {
            assert(rest.drop_first() =~= write_views(plan@).skip(from + 1));
            assert(stored(old(self), &between, rest[0].0 as int, rest[0].1, Ok(())));
        }
        r
    }

    /// Hands out the writes noted down so far, the oldest first, and
    /// forgets them.
    pub fn take_writes(&mut self) -> (writes: Vec<MemoryWrite>)
        ensures
            write_views(writes@) == old(self).pending(),
            final(self).pending() == Seq::<(u64, Seq<u8>)>::empty(),
            forall|a: int| #[trigger] final(self).byte(a) == old(self).byte(a),
    {
        let mut writes: Vec<MemoryWrite> = Vec::new();
        std::mem::swap(&mut writes, &mut self.writes);
        assert(self.pending() =~= Seq::<(u64, Seq<u8>)>::empty());
        writes
    }
}

/// The little-endian bytes of `v`.
pub open spec fn u16_bytes(v: u16) -> Seq<u8> {
    seq![(v % 256) as u8, (v / 256) as u8]
}

/// The little-endian bytes of `v`.
pub open spec fn u32_bytes(v: u32) -> Seq<u8> {
    seq![
        (v % 256) as u8,
        (v / 256 % 256) as u8,
        (v / 65536 % 256) as u8,
        (v / 16777216) as u8,
    ]
}

/// The little-endian two's complement bytes of `v`.
pub open spec fn i16_bytes(v: i16) -> Seq<u8> {
    if v >= 0 {
        u16_bytes(v as u16)
    } else {
        u16_bytes((v + 0x1_0000) as u16)
    }
}

/// The little-endian two's complement bytes of `v`.
pub open spec fn i32_bytes(v: i32) -> Seq<u8> {
    if v >= 0 {
        u32_bytes(v as u32)
    } else {
        u32_bytes((v + 0x1_0000_0000) as u32)
    }
}

/// The little-endian bytes of a `u32` read back as the same number.
pub proof fn lemma_u32_bytes(v: u32)
    ensures
        u32_le(u32_bytes(v)[0], u32_bytes(v)[1], u32_bytes(v)[2], u32_bytes(v)[3]) == v,
{
    let b0 = v % 256;
    let b1 = v / 256 % 256;
    let b2 = v / 65536 % 256;
    let b3 = v / 16777216;
    assert(b0 + 256 * b1 + 65536 * b2 + 16777216 * b3 == v);
}

/// What a read of the `size` bytes at `address` gives: `value` where they
/// were all captured, else the failure that names `address`.
pub open spec fn fetched<T>(
    mem: &ProcessMemory,
    address: int,
    size: int,
    value: T,
    r: Result<T, GameError>,
) -> bool {
    if mem.readable(address, size) {
        r == Ok::<T, GameError>(value)
    } else {
        r == Err::<T, GameError>(
            GameError::Inaccessible { address: address as u64, size: size as usize },
        )
    }
}

/// What a read of the `size` bytes at `address` gives: the bytes where they
/// were all captured, else the failure that names the span.
pub open spec fn fetched_bytes(
    mem: &ProcessMemory,
    address: int,
    size: int,
    r: Result<Vec<u8>, GameError>,
) -> bool {
    if mem.readable(address, size) {
        r matches Ok(bytes) && bytes@ == mem.span(address, size)
    } else {
        r == Err::<Vec<u8>, GameError>(
            GameError::Inaccessible { address: address as u64, size: size as usize },
        )
    }
}

/// What two writes in a row do, `first` at `a` and then `second` at `b`:
/// where the first fails nothing changes, else the second is tried on what
/// the first left.
pub open spec fn stored_both(
    before: &ProcessMemory,
    after: &ProcessMemory,
    a: int,
    first: Seq<u8>,
    b: int,
    second: Seq<u8>,
    r: Result<(), GameError>,
) -> bool {
    if before.readable(a, first.len() as int) {
        exists|between: ProcessMemory|
            #[trigger] stored(before, &between, a, first, Ok(())) && stored(
                &between,
                after,
                b,
                second,
                r,
            )
    } else {
        stored(before, after, a, first, r)
    }
}

/// What the writes `plan` do, one after the other: each is tried on what
/// the one before it left, and the first that fails ends the run and leaves
/// the writes before it done.
pub open spec fn stored_all(
    before: &ProcessMemory,
    after: &ProcessMemory,
    plan: Seq<(u64, Seq<u8>)>,
    r: Result<(), GameError>,
) -> bool
    decreases plan.len(),
{
    if plan.len() == 0 {
        r == Ok::<(), GameError>(()) && *after == *before
    } else if !before.readable(plan[0].0 as int, plan[0].1.len() as int) {
        stored(before, after, plan[0].0 as int, plan[0].1, r)
    } else {
        exists|between: ProcessMemory|
            #[trigger] stored(before, &between, plan[0].0 as int, plan[0].1, Ok(()))
                && stored_all(&between, after, plan.drop_first(), r)
    }
}

/// What a write of `bytes` at `address` does: where all of these bytes were
/// captured, the memory holds `bytes` there and the write is noted down;
/// else nothing changes, and the failure names `address`.
pub open spec fn stored(
    before: &ProcessMemory,
    after: &ProcessMemory,
    address: int,
    bytes: Seq<u8>,
    r: Result<(), GameError>,
) -> bool {
    if before.readable(address, bytes.len() as int) {
        &&& r == Ok::<(), GameError>(())
        &&& after.differs_by(before, address, bytes)
        &&& after.pending() == before.pending().push((address as u64, bytes))
    } else {
        &&& r == Err::<(), GameError>(
            GameError::Inaccessible { address: address as u64, size: bytes.len() as usize },
        )
        &&& *after == *before
    }
}

impl ProcessMemory {
    /// Reads the byte at `address`.
    pub fn read_u8(&self, address: u64) -> (r: Result<u8, GameError>)
        ensures
            fetched(self, address as int, 1, self.u8_at(address as int), r),
    {
        let b = self.read(address, 1)?;
        assert(self.byte(address + 0) is Some);
        Ok(b[0])
    }

    /// Reads the little-endian `u16` at `address`.
    pub fn read_u16(&self, address: u64) -> (r: Result<u16, GameError>)
        ensures
            fetched(self, address as int, 2, self.u16_at(address as int), r),
    {
        let b = self.read(address, 2)?;
        assert(self.byte(address + 0) is Some);
        Ok(b[0] as u16 + 256 * (b[1] as u16))
    }

    /// Reads the little-endian `i16` at `address`.
    pub fn read_i16(&self, address: u64) -> (r: Result<i16, GameError>)
        ensures
            fetched(self, address as int, 2, self.i16_at(address as int), r),
    {
        let b = self.read(address, 2)?;
        assert(self.byte(address + 0) is Some);
        let v: i32 = b[0] as i32 + 256 * (b[1] as i32);
        if v < 0x8000 {
            Ok(v as i16)
        } else {
            Ok((v - 0x1_0000) as i16)
        }
    }

    /// Reads the little-endian `u32` at `address`.
    pub fn read_u32(&self, address: u64) -> (r: Result<u32, GameError>)
        ensures
            fetched(self, address as int, 4, self.u32_at(address as int), r),
    {
        let b = self.read(address, 4)?;
        assert(self.byte(address + 0) is Some);
        Ok(b[0] as u32 + 256 * (b[1] as u32) + 65536 * (b[2] as u32) + 16777216 * (b[3] as u32))
    }

    /// Reads the little-endian `i32` at `address`.
    pub fn read_i32(&self, address: u64) -> (r: Result<i32, GameError>)
        ensures
            fetched(self, address as int, 4, self.i32_at(address as int), r),
    {
        let b = self.read(address, 4)?;
        assert(self.byte(address + 0) is Some);
        let v: i64 = b[0] as i64 + 256 * (b[1] as i64) + 65536 * (b[2] as i64) + 16777216 * (
        b[3] as i64);
        if v < 0x8000_0000 {
            Ok(v as i32)
        } else {
            Ok((v - 0x1_0000_0000) as i32)
        }
    }

    /// Writes `v` at `address`, the low byte first.
    pub fn write_u16(&mut self, address: u64, v: u16) -> (r: Result<(), GameError>)
        ensures
            stored(old(self), final(self), address as int, u16_bytes(v), r),
            r is Ok ==> final(self).u16_at(address as int) == v,
    {
        let bytes: [u8; 2] = [(v % 256) as u8, (v / 256) as u8];
        assert(bytes@ =~= u16_bytes(v));
        let r = self.write(address, bytes.as_slice());
        proof {
            if r is Ok {
                assert(self.byte(address + 0) == Some(u16_bytes(v)[0]));
                assert(self.byte(address + 1) == Some(u16_bytes(v)[1]));
            }
        }
        r
    }

    /// Writes `v` at `address`, the low byte first.
    pub fn write_u32(&mut self, address: u64, v: u32) -> (r: Result<(), GameError>)
        ensures
            stored(old(self), final(self), address as int, u32_bytes(v), r),
            r is Ok ==> final(self).u32_at(address as int) == v,
    {
        let bytes: [u8; 4] = [
            (v % 256) as u8,
            (v / 256 % 256) as u8,
            (v / 65536 % 256) as u8,
            (v / 16777216) as u8,
        ];
        assert(bytes@ =~= u32_bytes(v));
        let r = self.write(address, bytes.as_slice());
        proof {
            if r is Ok {
                assert(self.byte(address + 0) == Some(u32_bytes(v)[0]));
                assert(self.byte(address + 1) == Some(u32_bytes(v)[1]));
                assert(self.byte(address + 2) == Some(u32_bytes(v)[2]));
                assert(self.byte(address + 3) == Some(u32_bytes(v)[3]));
                lemma_u32_bytes(v);
            }
        }
        r
    }
}

/// Reads the unsigned 32-bit integer at `address`.
pub fn read_memory_int(mem: &ProcessMemory, address: u32) -> (r: Result<u32, GameError>)
    ensures
        fetched(mem, address as int, 4, mem.u32_at(address as int), r),
{
    mem.read_u32(address as u64)
}

/// Reads the signed 32-bit integer at `address`.
pub fn read_memory_signed_int(mem: &ProcessMemory, address: u32) -> (r: Result<i32, GameError>)
    ensures
        fetched(mem, address as int, 4, mem.i32_at(address as int), r),
{
    mem.read_i32(address as u64)
}

/// Reads the unsigned 16-bit integer at `address`.
pub fn read_memory_short(mem: &ProcessMemory, address: u32) -> (r: Result<u16, GameError>)
    ensures
        fetched(mem, address as int, 2, mem.u16_at(address as int), r),
{
    mem.read_u16(address as u64)
}

/// Reads the signed 16-bit integer at `address`.
pub fn read_memory_signed_short(mem: &ProcessMemory, address: u32) -> (r: Result<i16, GameError>)
    ensures
        fetched(mem, address as int, 2, mem.i16_at(address as int), r),
{
    mem.read_i16(address as u64)
}

/// Reads the byte at `address`.
pub fn read_memory_byte(mem: &ProcessMemory, address: u32) -> (r: Result<u8, GameError>)
    ensures
        fetched(mem, address as int, 1, mem.u8_at(address as int), r),
{
    mem.read_u8(address as u64)
}

/// Reads the `size` bytes from `address` on.
pub fn read_memory_buffer(mem: &ProcessMemory, address: u32, size: usize) -> (r: Result<
    Vec<u8>,
    GameError,
>)
    ensures
        fetched_bytes(mem, address as int, size as int, r),
{
    mem.read(address as u64, size)
}

/// Writes `buffer` from `address` on.
pub fn write_memory_buffer(mem: &mut ProcessMemory, address: u32, buffer: Vec<u8>) -> (r: Result<
    (),
    GameError,
>)
    ensures
        stored(old(mem), final(mem), address as int, buffer@, r),
{
    mem.write(address as u64, buffer.as_slice())
}

/// Writes the unsigned 32-bit integer `new_value` at `address`.
pub fn write_memory_int(mem: &mut ProcessMemory, address: u32, new_value: u32) -> (r: Result<
    (),
    GameError,
>)
    ensures
        stored(old(mem), final(mem), address as int, u32_bytes(new_value), r),
        r is Ok ==> final(mem).u32_at(address as int) == new_value,
{
    mem.write_u32(address as u64, new_value)
}

/// Writes the unsigned 16-bit integer `new_value` at `address`.
pub fn write_memory_short(mem: &mut ProcessMemory, address: u32, new_value: u16) -> (r: Result<
    (),
    GameError,
>)
    ensures
        stored(old(mem), final(mem), address as int, u16_bytes(new_value), r),
        r is Ok ==> final(mem).u16_at(address as int) == new_value,
{
    mem.write_u16(address as u64, new_value)
}

/// Writes the signed 16-bit integer `new_value` at `address`, in two's
/// complement.
pub fn write_memory_signed_short(mem: &mut ProcessMemory, address: u32, new_value: i16) -> (r:
    Result<(), GameError>)
    ensures
        stored(old(mem), final(mem), address as int, i16_bytes(new_value), r),
        r is Ok ==> final(mem).i16_at(address as int) == new_value,
{
    let raw: u16 = if new_value >= 0 {
        new_value as u16
    } else {
        (new_value as i32 + 0x1_0000) as u16
    };
    mem.write_u16(address as u64, raw)
}

/// Writes the signed 32-bit integer `new_value` at `address`, in two's
/// complement.
pub fn write_memory_signed_int(mem: &mut ProcessMemory, address: u32, new_value: i32) -> (r:
    Result<(), GameError>)
    ensures
        stored(old(mem), final(mem), address as int, i32_bytes(new_value), r),
        r is Ok ==> final(mem).i32_at(address as int) == new_value,
{
    let raw: u32 = if new_value >= 0 {
        new_value as u32
    } else {
        (new_value as i64 + 0x1_0000_0000) as u32
    };
    mem.write_u32(address as u64, raw)
}

/// Writes the byte `new_value` at `address`.
pub fn write_memory_byte(mem: &mut ProcessMemory, address: u32, new_value: u8) -> (r: Result<
    (),
    GameError,
>)
    ensures
        stored(old(mem), final(mem), address as int, seq![new_value], r),
        r is Ok ==> final(mem).u8_at(address as int) == new_value,
{
    let bytes: [u8; 1] = [new_value];
    assert(bytes@ =~= seq![new_value]);
    let r = mem.write(address as u64, bytes.as_slice());
    proof {
        if r is Ok {
            assert(mem.byte(address + 0) == Some(new_value));
        }
    }
    r
}

} // verus!
