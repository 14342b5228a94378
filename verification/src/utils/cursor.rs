//! A read position over a byte buffer, and the little-endian integers read
//! through it.

use byteorder::{ByteOrder, LittleEndian};
use vstd::prelude::*;
use vstd::slice::slice_subrange;

verus! {

/// The unsigned 16-bit integer whose little-endian bytes are `b0`, `b1`.
pub open spec fn u16_le(b0: u8, b1: u8) -> u16 {
    (b0 as int + 256 * (b1 as int)) as u16
}

/// The signed 16-bit integer whose little-endian two's complement bytes are
/// `b0`, `b1`.
pub open spec fn i16_le(b0: u8, b1: u8) -> i16 {
    let v: int = b0 as int + 256 * (b1 as int);
    if v < 0x8000 {
        v as i16
    } else {
        (v - 0x1_0000) as i16
    }
}

/// The unsigned 32-bit integer whose little-endian bytes are `b0` to `b3`.
pub open spec fn u32_le(b0: u8, b1: u8, b2: u8, b3: u8) -> u32 {
    (b0 as int + 256 * (b1 as int) + 65536 * (b2 as int) + 16777216 * (b3 as int)) as u32
}

/// The signed 32-bit integer whose little-endian two's complement bytes are
/// `b0` to `b3`.
pub open spec fn i32_le(b0: u8, b1: u8, b2: u8, b3: u8) -> i32 {
    let v: int = b0 as int + 256 * (b1 as int) + 65536 * (b2 as int) + 16777216 * (b3 as int);
    if v < 0x8000_0000 {
        v as i32
    } else {
        (v - 0x1_0000_0000) as i32
    }
}

/// The byte of `data` at `at`.
pub open spec fn u8_at(data: Seq<u8>, at: int) -> u8 {
    data[at]
}

/// The little-endian `u16` that starts at `at` in `data`.
pub open spec fn u16_at(data: Seq<u8>, at: int) -> u16 {
    u16_le(data[at], data[at + 1])
}

/// The little-endian `i16` that starts at `at` in `data`.
pub open spec fn i16_at(data: Seq<u8>, at: int) -> i16 {
    i16_le(data[at], data[at + 1])
}

/// The little-endian `u32` that starts at `at` in `data`.
pub open spec fn u32_at(data: Seq<u8>, at: int) -> u32 {
    u32_le(data[at], data[at + 1], data[at + 2], data[at + 3])
}

/// The little-endian `i32` that starts at `at` in `data`.
pub open spec fn i32_at(data: Seq<u8>, at: int) -> i32 {
    i32_le(data[at], data[at + 1], data[at + 2], data[at + 3])
}

/// The `n` consecutive little-endian `u16` values that start at `at`.
pub open spec fn u16s_at(data: Seq<u8>, at: int, n: nat) -> Seq<u16> {
    Seq::new(n, |i: int| u16_at(data, at + 2 * i))
}

/// `byteorder::LittleEndian::read_u16`: the first two bytes of `buf`, the
/// low byte first. The outside function panics on a shorter slice, which the
/// precondition leaves out.
#[verifier::external_body]
fn le_u16(buf: &[u8]) -> (r: u16)
    requires
        buf@.len() >= 2,
    ensures
        r == u16_le(buf@[0], buf@[1]),
{
    LittleEndian::read_u16(buf)
}

/// `byteorder::LittleEndian::read_i16`: the first two bytes of `buf`, the
/// low byte first, read as two's complement. The outside function panics on
/// a shorter slice, which the precondition leaves out.
#[verifier::external_body]
fn le_i16(buf: &[u8]) -> (r: i16)
    requires
        buf@.len() >= 2,
    ensures
        r == i16_le(buf@[0], buf@[1]),
{
    LittleEndian::read_i16(buf)
}

/// `byteorder::LittleEndian::read_u32`: the first four bytes of `buf`, the
/// low byte first. The outside function panics on a shorter slice, which the
/// precondition leaves out.
#[verifier::external_body]
fn le_u32(buf: &[u8]) -> (r: u32)
    requires
        buf@.len() >= 4,
    ensures
        r == u32_le(buf@[0], buf@[1], buf@[2], buf@[3]),
{
    LittleEndian::read_u32(buf)
}

/// The little-endian `u16` that starts at `at` in `data`.
pub(crate) fn get_u16(data: &[u8], at: usize) -> (v: u16)
    requires
        at + 2 <= data@.len(),
    ensures
        v == u16_at(data@, at as int),
{
    // Recalls that the length of a slice is a `usize`.
    let _ = data.len();
    le_u16(slice_subrange(data, at, at + 2))
}

/// The little-endian `i16` that starts at `at` in `data`.
pub(crate) fn get_i16(data: &[u8], at: usize) -> (v: i16)
    requires
        at + 2 <= data@.len(),
    ensures
        v == i16_at(data@, at as int),
{
    // Recalls that the length of a slice is a `usize`.
    let _ = data.len();
    le_i16(slice_subrange(data, at, at + 2))
}

/// The little-endian `u32` that starts at `at` in `data`.
pub(crate) fn get_u32(data: &[u8], at: usize) -> (v: u32)
    requires
        at + 4 <= data@.len(),
    ensures
        v == u32_at(data@, at as int),
{
    // Recalls that the length of a slice is a `usize`.
    let _ = data.len();
    le_u32(slice_subrange(data, at, at + 4))
}

/// The little-endian `i32` that starts at `at` in `data`.
pub(crate) fn get_i32(data: &[u8], at: usize) -> (v: i32)
    requires
        at + 4 <= data@.len(),
    ensures
        v == i32_at(data@, at as int),
{
    let raw = get_u32(data, at);
    if raw < 0x8000_0000 {
        raw as i32
    } else {
        (raw as i64 - 0x1_0000_0000) as i32
    }
}

/// Why a read through a [`ByteCursor`] failed.
#[derive(Debug, Clone, Copy, PartialEq, Eq)]
pub enum ReadError {
    /// Fewer bytes were left than the read needs.
    UnexpectedEof,
}

/// A read position over a borrowed byte buffer.
///
/// The position may stand past the end of the buffer after a
/// [`skip`](ByteCursor::skip); every read from there fails.
pub struct ByteCursor<'a> {
    data: &'a [u8],
    pos: usize,
}

impl<'a> ByteCursor<'a> {
    /// The buffer that the cursor reads.
    pub closed spec fn bytes(&self) -> Seq<u8> {
        self.data@
    }

    /// The offset of the next byte to read.
    pub closed spec fn position(&self) -> int {
        self.pos as int
    }

    /// Whether `n` more bytes can be read.
    pub open spec fn has(&self, n: int) -> bool {
        self.position() + n <= self.bytes().len()
    }

    /// The same buffer with the position moved on by `n`.
    pub open spec fn advanced(&self, before: &Self, n: int) -> bool {
        &&& self.bytes() == before.bytes()
        &&& self.position() == before.position() + n
    }

    /// A cursor at the start of `data`.
    pub fn new(data: &'a [u8]) -> (c: Self)
        ensures
            c.bytes() == data@,
            c.position() == 0,
    {
        ByteCursor { data, pos: 0 }
    }

    /// The offset of the next byte to read.
    pub fn offset(&self) -> (r: usize)
        ensures
            r == self.position(),
    {
        self.pos
    }

    /// The number of bytes left to read: none when the position stands past
    /// the end.
    pub open spec fn left(&self) -> int {
        if self.position() <= self.bytes().len() {
            self.bytes().len() - self.position()
        } else {
            0
        }
    }

    /// The number of bytes left to read.
    pub fn remaining(&self) -> (r: usize)
        ensures
            r == self.left(),
    {
        if self.pos <= self.data.len() {
            self.data.len() - self.pos
        } else {
            0
        }
    }

    /// Whether `n` more bytes can be read.
    pub fn can_read(&self, n: usize) -> (b: bool)
        ensures
            b == self.has(n as int),
            0 <= self.position(),
            self.bytes().len() <= usize::MAX,
    {
        self.pos <= self.data.len() && n <= self.data.len() - self.pos
    }

    /// Moves the position on by `n` bytes without reading them. The position
    /// may come to stand past the end of the buffer.
    pub fn skip(&mut self, n: usize)
        requires
            old(self).position() + n <= usize::MAX,
        ensures
            final(self).advanced(old(self), n as int),
    {
        self.pos = self.pos + n;
    }

    /// Reads the next `n` bytes.
    pub fn read_bytes(&mut self, n: usize) -> (r: Result<&'a [u8], ReadError>)
        ensures
            match r {
                Ok(s) => {
                    &&& old(self).has(n as int)
                    &&& final(self).advanced(old(self), n as int)
                    &&& s@ == old(self).bytes().subrange(
                        old(self).position(),
                        old(self).position() + n,
                    )
                },
                Err(_) => !old(self).has(n as int) && *final(self) == *old(self),
            },
    {
        if !self.can_read(n) {
            return Err(ReadError::UnexpectedEof);
        }
        let s = slice_subrange(self.data, self.pos, self.pos + n);
        self.pos = self.pos + n;
        Ok(s)
    }

    /// Reads one byte.
    pub fn read_u8(&mut self) -> (r: Result<u8, ReadError>)
        ensures
            match r {
                Ok(v) => {
                    &&& old(self).has(1)
                    &&& final(self).advanced(old(self), 1)
                    &&& v == u8_at(old(self).bytes(), old(self).position())
                },
                Err(_) => !old(self).has(1) && *final(self) == *old(self),
            },
    {
        if !self.can_read(1) {
            return Err(ReadError::UnexpectedEof);
        }
        let v = self.data[self.pos];
        self.pos = self.pos + 1;
        Ok(v)
    }

    /// Reads a little-endian `u16`.
    pub fn read_u16(&mut self) -> (r: Result<u16, ReadError>)
        ensures
            match r {
                Ok(v) => {
                    &&& old(self).has(2)
                    &&& final(self).advanced(old(self), 2)
                    &&& v == u16_at(old(self).bytes(), old(self).position())
                },
                Err(_) => !old(self).has(2) && *final(self) == *old(self),
            },
    {
        if !self.can_read(2) {
            return Err(ReadError::UnexpectedEof);
        }
        let v = le_u16(slice_subrange(self.data, self.pos, self.pos + 2));
        self.pos = self.pos + 2;
        Ok(v)
    }

    /// Reads a little-endian `i16`.
    pub fn read_i16(&mut self) -> (r: Result<i16, ReadError>)
        ensures
            match r {
                Ok(v) => {
                    &&& old(self).has(2)
                    &&& final(self).advanced(old(self), 2)
                    &&& v == i16_at(old(self).bytes(), old(self).position())
                },
                Err(_) => !old(self).has(2) && *final(self) == *old(self),
            },
    {
        if !self.can_read(2) {
            return Err(ReadError::UnexpectedEof);
        }
        let v = le_i16(slice_subrange(self.data, self.pos, self.pos + 2));
        self.pos = self.pos + 2;
        Ok(v)
    }

    /// Reads a little-endian `u32`.
    pub fn read_u32(&mut self) -> (r: Result<u32, ReadError>)
        ensures
            match r {
                Ok(v) => {
                    &&& old(self).has(4)
                    &&& final(self).advanced(old(self), 4)
                    &&& v == u32_at(old(self).bytes(), old(self).position())
                },
                Err(_) => !old(self).has(4) && *final(self) == *old(self),
            },
    {
        if !self.can_read(4) {
            return Err(ReadError::UnexpectedEof);
        }
        let v = le_u32(slice_subrange(self.data, self.pos, self.pos + 4));
        self.pos = self.pos + 4;
        Ok(v)
    }

    /// Reads `N` consecutive little-endian `u16` values.
    pub fn read_u16_array<const N: usize>(&mut self) -> (r: Result<[u16; N], ReadError>)
        ensures
            match r {
                Ok(a) => {
                    &&& old(self).has(2 * N)
                    &&& final(self).advanced(old(self), 2 * N)
                    &&& a@ == u16s_at(old(self).bytes(), old(self).position(), N as nat)
                },
                Err(_) => !old(self).has(2 * N) && *final(self) == *old(self),
            },
    {
        if self.remaining() / 2 < N || !self.can_read(0) {
            return Err(ReadError::UnexpectedEof);
        }
        let mut a: [u16; N] = vstd::array::array_fill_for_copy_types::<u16, N>(0);
        let mut i: usize = 0;
        while i < N
            invariant
                i <= N,
                self.bytes() == old(self).bytes(),
                old(self).has(2 * N),
                self.bytes().len() <= usize::MAX,
                self.position() == old(self).position() + 2 * i,
                forall|j: int|
                    0 <= j < i ==> a@[j] == u16_at(
                        old(self).bytes(),
                        old(self).position() + 2 * j,
                    ),
            decreases N - i,
        {
            let v = le_u16(slice_subrange(self.data, self.pos, self.pos + 2));
            a[i] = v;
            self.pos = self.pos + 2;
            i += 1;
        }
        Ok(a)
    }
}

} // verus!
