//! The names and the item data of the game's kernel.
//!
//! A name in memory is a run of encoded bytes that ends at the first end
//! marker or after a given number of bytes. The kernel keeps its names in
//! sections: a section starts with one 16-bit offset for each name, counted
//! from the start of the section.

use crate::ff7::addresses::FF7Addresses;
use crate::ff7::data::scene_layout::{field_text, lemma_text_len, NAME_END};
use crate::ff7::ff7text::{codec_answers, decoded_text, text_codec, utf8_text, DecodeError};
use crate::ff7::types::kernel::ItemData;
use crate::utils::cursor::{get_u16, get_u32, u16_at, u32_at, u8_at};
use crate::utils::error::GameError;
use crate::utils::flip_bits;
use crate::utils::memory::ProcessMemory;
use vstd::prelude::*;
use vstd::utf8::{decode_utf8, valid_utf8};

verus! {

/// The most bytes that a kernel name has.
pub const KERNEL_NAME_SIZE: u32 = 24;

/// The number of items that the kernel describes.
pub const ITEM_COUNT: usize = 128;

/// The size of the description of one item.
pub const ITEM_DATA_SIZE: usize = 28;

/// The name that stands for one that could not be read.
pub open spec fn unknown_name() -> Seq<char> {
    "???"@
}

/// The bytes of the name that starts at `address`: those before the first
/// end marker among the first `max`, all `max` where there is none. The
/// bytes are read one by one, so the failure names the first byte that
/// cannot be read.
pub open spec fn name_scan(mem: &ProcessMemory, address: int, max: nat) -> Result<
    Seq<u8>,
    GameError,
>
    decreases max,
{
    if max == 0 {
        Ok(Seq::empty())
    } else {
        match mem.byte(address) {
            None => Err(ProcessMemory::fault(address, 1)),
            Some(b) => if b == NAME_END {
                Ok(Seq::empty())
            } else {
                match name_scan(mem, address + 1, (max - 1) as nat) {
                    Ok(rest) => Ok(seq![b] + rest),
                    Err(e) => Err(e),
                }
            },
        }
    }
}

/// `r` is what the bytes `text` of a name decode to: the codec's text; where
/// the codec fails, the text that the bytes hold as UTF-8; where they hold
/// none, a failure.
pub open spec fn name_read<F: Fn(&[u8]) -> Result<String, DecodeError>>(
    decode: F,
    text: Seq<u8>,
    r: Result<Seq<char>, GameError>,
) -> bool {
    exists|answer: Option<Seq<char>>| #[trigger]
        codec_answers(decode, text, answer) && r == match answer {
            Some(t) => Ok::<Seq<char>, GameError>(t),
            None => if valid_utf8(text) {
                Ok(decode_utf8(text))
            } else {
                Err(GameError::UndecodableName)
            },
        }
}

/// The characters of a name that was read, or its failure.
pub open spec fn text_of(r: Result<String, GameError>) -> Result<Seq<char>, GameError> {
    match r {
        Ok(s) => Ok(s@),
        Err(e) => Err(e),
    }
}

/// `r` is what a read of the name at `address` gives.
pub open spec fn name_at<F: Fn(&[u8]) -> Result<String, DecodeError>>(
    mem: &ProcessMemory,
    address: int,
    max: nat,
    decode: F,
    r: Result<Seq<char>, GameError>,
) -> bool {
    match name_scan(mem, address, max) {
        Err(e) => r == Err::<Seq<char>, GameError>(e),
        Ok(text) => name_read(decode, text, r),
    }
}

/// `name` is the name at `address`, or [`unknown_name`] where that name
/// cannot be read.
pub open spec fn name_or_unknown<F: Fn(&[u8]) -> Result<String, DecodeError>>(
    mem: &ProcessMemory,
    address: int,
    max: nat,
    decode: F,
    name: Seq<char>,
) -> bool {
    exists|r: Result<Seq<char>, GameError>| #[trigger]
        name_at(mem, address, max, decode, r) && name == match r {
            Ok(t) => t,
            Err(_) => unknown_name(),
        }
}

/// A name whose first `prefix.len()` bytes are `prefix`, none of them the
/// end marker, goes on as the name behind them does.
proof fn lemma_name_scan(mem: &ProcessMemory, address: int, max: nat, prefix: Seq<u8>)
    requires
        prefix.len() <= max,
        forall|j: int|
            0 <= j < prefix.len() ==> #[trigger] mem.byte(address + j) == Some(prefix[j])
                && prefix[j] != NAME_END,
    ensures
        name_scan(mem, address, max) == match name_scan(
            mem,
            address + prefix.len(),
            (max - prefix.len()) as nat,
        ) {
            Ok(rest) => Ok::<Seq<u8>, GameError>(prefix + rest),
            Err(e) => Err(e),
        },
    decreases prefix.len(),
{
    if prefix.len() == 0 {
        match name_scan(mem, address, max) {
            Ok(rest) => {
                assert(prefix + rest =~= rest);
            },
            Err(_) => {},
        }
    } else {
        let tail = prefix.drop_first();
        assert(mem.byte(address + 0) == Some(prefix[0]));
        assert forall|j: int| 0 <= j < tail.len() implies #[trigger] mem.byte(address + 1 + j)
            == Some(tail[j]) && tail[j] != NAME_END by {
            assert(mem.byte(address + (j + 1)) == Some(prefix[j + 1]));
        }
        lemma_name_scan(mem, address + 1, (max - 1) as nat, tail);
        match name_scan(mem, address + prefix.len(), (max - prefix.len()) as nat) {
            Ok(rest) => {
                assert(seq![prefix[0]] + (tail + rest) =~= prefix + rest);
            },
            Err(_) => {},
        }
    }
}

/// Decodes the bytes `text` of a name: with the codec, and where it fails,
/// as UTF-8.
pub fn decode_name<F: Fn(&[u8]) -> Result<String, DecodeError>>(text: Vec<u8>, decode: &F) -> (r:
    Result<String, GameError>)
    requires
        text_codec(*decode),
    ensures
        name_read(*decode, text@, text_of(r)),
{
    let answer = decode(text.as_slice());
    proof {
        assert(codec_answers(*decode, text@, decoded_text(answer)));
    }
    match answer {
        Ok(name) => Ok(name),
        Err(_) => match utf8_text(text) {
            Some(name) => Ok(name),
            None => Err(GameError::UndecodableName),
        },
    }
}

/// The bytes of each of `texts`.
pub open spec fn byte_views(texts: Seq<Vec<u8>>) -> Seq<Seq<u8>> {
    texts.map_values(|t: Vec<u8>| t@)
}

/// The characters of each of `names`.
pub open spec fn name_views(names: Seq<String>) -> Seq<Seq<char>> {
    names.map_values(|n: String| n@)
}

/// `r` is what comes of the names decoded so far, `before`, and the next
/// name `last`, decoded from `text`: a failure so far stays, and the next
/// name is added or fails in its turn.
pub open spec fn names_step<F: Fn(&[u8]) -> Result<String, DecodeError>>(
    decode: F,
    text: Seq<u8>,
    before: Result<Seq<Seq<char>>, GameError>,
    last: Result<Seq<char>, GameError>,
    r: Result<Seq<Seq<char>>, GameError>,
) -> bool {
    match before {
        Err(e) => r == Err::<Seq<Seq<char>>, GameError>(e),
        Ok(names) => name_read(decode, text, last) && r == match last {
            Ok(name) => Ok::<Seq<Seq<char>>, GameError>(names.push(name)),
            Err(e) => Err(e),
        },
    }
}

/// `r` is what decoding the names `texts` one after the other gives: the
/// names, or the failure of the first name that fails.
pub open spec fn names_read<F: Fn(&[u8]) -> Result<String, DecodeError>>(
    decode: F,
    texts: Seq<Seq<u8>>,
    r: Result<Seq<Seq<char>>, GameError>,
) -> bool
    decreases texts.len(),
{
    if texts.len() == 0 {
        r == Ok::<Seq<Seq<char>>, GameError>(Seq::empty())
    } else {
        exists|before: Result<Seq<Seq<char>>, GameError>, last: Result<Seq<char>, GameError>|
            names_read(decode, texts.drop_last(), before) && #[trigger] names_step(
                decode,
                texts.last(),
                before,
                last,
                r,
            )
    }
}

/// The characters of each of the names that were read, or their failure.
pub open spec fn texts_of(r: Result<Vec<String>, GameError>) -> Result<Seq<Seq<char>>, GameError> {
    match r {
        Ok(names) => Ok(name_views(names@)),
        Err(e) => Err(e),
    }
}

/// Decodes the names `texts` one after the other, up to the first that
/// fails.
pub fn decode_names<F: Fn(&[u8]) -> Result<String, DecodeError>>(
    texts: Vec<Vec<u8>>,
    decode: &F,
) -> (r: Result<Vec<String>, GameError>)
    requires
        text_codec(*decode),
    ensures
        names_read(*decode, byte_views(texts@), texts_of(r)),
        r matches Ok(names) ==> names@.len() == texts@.len(),
{
    let ghost all = byte_views(texts@);
    let mut names: Vec<String> = Vec::new();
    let mut i: usize = 0;
    proof {
        assert(name_views(names@) =~= Seq::<Seq<char>>::empty());
        assert(all.take(0).len() == 0);
    }
    while i < texts.len()
        invariant
            i <= texts@.len(),
            text_codec(*decode),
            all == byte_views(texts@),
            names@.len() == i,
            names_read(*decode, all.take(i as int), Ok(name_views(names@))),
        decreases texts@.len() - i,
    {
        let ghost before = name_views(names@);
        let ghost done = all.take(i as int);
        let ghost next = all.take(i + 1);
        let r = decode_name(texts[i].clone(), decode);
        proof {
            assert(next.drop_last() =~= done);
            assert(next.last() == texts@[i as int]@);
            assert(name_read(*decode, next.last(), text_of(r)));
        }
        match r {
            Ok(name) => {
                names.push(name);
                proof {
                    assert(name_views(names@) =~= before.push(name@));
                    assert(names_read(*decode, next.drop_last(), Ok(before)));
                    assert(names_step(
                        *decode,
                        next.last(),
                        Ok(before),
                        text_of(r),
                        Ok(name_views(names@)),
                    ));
                }
            },
            Err(e) => {
                proof {
                    assert(names_read(*decode, next.drop_last(), Ok(before)));
                    assert(names_step(*decode, next.last(), Ok(before), text_of(r), Err(e)));
                    assert(names_read(*decode, next, Err(e)));
                    lemma_names_fail(*decode, all, i + 1, e);
                }
                return Err(e);
            },
        }
        i += 1;
    }
    proof {
        assert(all.take(i as int) =~= all);
    }
    Ok(names)
}

/// Where the first `n` names fail, all of them fail alike.
proof fn lemma_names_fail<F: Fn(&[u8]) -> Result<String, DecodeError>>(
    decode: F,
    texts: Seq<Seq<u8>>,
    n: int,
    e: GameError,
)
    requires
        0 <= n <= texts.len(),
        names_read(decode, texts.take(n), Err(e)),
    ensures
        names_read(decode, texts, Err(e)),
    decreases texts.len() - n,
{
    if n < texts.len() {
        let next = texts.take(n + 1);
        assert(next.drop_last() =~= texts.take(n));
        assert(names_read(decode, next.drop_last(), Err(e)));
        assert(names_step(decode, next.last(), Err(e), Err(e), Err(e)));
        assert(names_read(decode, next, Err(e)));
        lemma_names_fail(decode, texts, n + 1, e);
    } else {
        assert(texts.take(n) =~= texts);
    }
}

/// The bytes of a name field that hold text: those before its first end
/// marker.
pub fn name_text(field: &[u8]) -> (text: Vec<u8>)
    ensures
        text@ == field_text(field@),
{
    let mut text: Vec<u8> = Vec::new();
    let mut end: usize = 0;
    while end < field.len() && field[end] != NAME_END
        invariant
            end <= field@.len(),
            text@ == field@.take(end as int),
            forall|j: int| 0 <= j < end ==> field@[j] != NAME_END,
        decreases field@.len() - end,
    {
        text.push(field[end]);
        end += 1;
        assert(text@ =~= field@.take(end as int));
    }
    proof {
        lemma_text_len(field@, end as int);
    }
    text
}

/// Reads the name that starts at `address` and has at most `max_length`
/// bytes.
pub(crate) fn read_name_at<F: Fn(&[u8]) -> Result<String, DecodeError>>(
    mem: &ProcessMemory,
    address: u64,
    max_length: u32,
    decode: &F,
) -> (r: Result<String, GameError>)
    requires
        text_codec(*decode),
        address + max_length <= u64::MAX,
    ensures
        name_at(mem, address as int, max_length as nat, *decode, text_of(r)),
{
    let mut name: Vec<u8> = Vec::new();
    let mut i: u32 = 0;
    let mut ended = false;
    while i < max_length && !ended
        invariant
            i <= max_length,
            address + max_length <= u64::MAX,
            name@.len() == i,
            forall|j: int|
                0 <= j < i ==> #[trigger] mem.byte(address + j) == Some(name@[j]) && name@[j]
                    != NAME_END,
            ended ==> i < max_length && mem.byte(address + i) == Some(NAME_END),
        decreases max_length - i + if ended { 0int } else { 1int },
    {
        let at = address + i as u64;
        match mem.read_u8(at) {
            Ok(byte) => {
                assert(mem.byte(at + 0) == Some(byte));
                if byte == NAME_END {
                    ended = true;
                } else {
                    name.push(byte);
                    i += 1;
                }
            },
            Err(e) => {
                proof {
                    assert(mem.byte(at + 0) is None);
                    lemma_name_scan(mem, address as int, max_length as nat, name@);
                }
                return Err(e);
            },
        }
    }
    proof {
        lemma_name_scan(mem, address as int, max_length as nat, name@);
        assert(name_scan(mem, address as int, max_length as nat) == Ok::<Seq<u8>, GameError>(
            name@,
        )) by {
            assert(name@ + Seq::<u8>::empty() =~= name@);
        }
    }
    decode_name(name, decode)
}

/// Reads the name that starts at `address` and has at most `max_length`
/// bytes.
pub fn read_name<F: Fn(&[u8]) -> Result<String, DecodeError>>(
    mem: &ProcessMemory,
    address: u32,
    max_length: u32,
    decode: &F,
) -> (r: Result<String, GameError>)
    requires
        text_codec(*decode),
    ensures
        name_at(mem, address as int, max_length as nat, *decode, text_of(r)),
{
    read_name_at(mem, address as u64, max_length, decode)
}

/// Reads the name that starts at `address`, and takes `???` for a name that
/// cannot be read.
pub(crate) fn read_name_or_unknown<F: Fn(&[u8]) -> Result<String, DecodeError>>(
    mem: &ProcessMemory,
    address: u64,
    max_length: u32,
    decode: &F,
) -> (name: String)
    requires
        text_codec(*decode),
        address + max_length <= u64::MAX,
    ensures
        name_or_unknown(mem, address as int, max_length as nat, *decode, name@),
{
    let r = read_name_at(mem, address, max_length, decode);
    proof {
        assert(name_at(mem, address as int, max_length as nat, *decode, text_of(r)));
    }
    match r {
        Ok(name) => name,
        Err(_) => "???".to_string(),
    }
}

/// Where the kernel section `section` starts.
///
/// The first word of the kernel's text area tells how the game was started.
/// Where it is 0, the game keeps a table of section addresses: the call at
/// `kernel_read_fn_call` leads to the function that loads the kernel, whose
/// code holds the address of that table 0x1B bytes in. The target of the
/// call is its 32-bit operand added to the address behind it, without
/// carry. Where the word is not 0, the sections lie in the text area, and
/// `kernel_section_offsets` holds a 16-bit offset for each.
pub open spec fn kernel_section_base(
    mem: &ProcessMemory,
    addresses: FF7Addresses,
    section: u32,
) -> Result<int, GameError> {
    match mem.get_u32(addresses.kernel_texts_base as int) {
        Err(e) => Err(e),
        Ok(started) => if started == 0 {
            match mem.get_u32(addresses.kernel_read_fn_call as int) {
                Err(e) => Err(e),
                Ok(operand) => {
                    let function = (operand + addresses.kernel_read_fn_call + 4) % 0x1_0000_0000;
                    match mem.get_u32(function + 0x1B) {
                        Err(e) => Err(e),
                        Ok(table) => match mem.get_u32(table + 4 * section) {
                            Err(e) => Err(e),
                            Ok(base) => Ok(base as int),
                        },
                    }
                },
            }
        } else {
            match mem.get_u16(addresses.kernel_section_offsets + 2 * section) {
                Err(e) => Err(e),
                Ok(offset) => Ok(addresses.kernel_texts_base + offset),
            }
        },
    }
}

/// The failure of reading the first `count` name offsets of the section at
/// `base` one after the other: that of the first offset that cannot be
/// read, if there is one.
pub open spec fn offsets_fault(mem: &ProcessMemory, base: int, count: nat) -> Option<GameError>
    decreases count,
{
    if count == 0 {
        None
    } else {
        match offsets_fault(mem, base, (count - 1) as nat) {
            Some(e) => Some(e),
            None => if mem.readable(base + 2 * (count - 1), 2) {
                None
            } else {
                Some(ProcessMemory::fault(base + 2 * (count - 1), 2))
            },
        }
    }
}

/// Where the `count` names of the kernel section `section` can be listed:
/// the start of the section, or the failure of the first read that fails.
pub open spec fn kernel_section_listing(
    mem: &ProcessMemory,
    addresses: FF7Addresses,
    section: u32,
    count: u32,
) -> Result<int, GameError> {
    match kernel_section_base(mem, addresses, section) {
        Err(e) => Err(e),
        Ok(base) => match offsets_fault(mem, base, count as nat) {
            Some(e) => Err(e),
            None => Ok(base),
        },
    }
}

/// `names` are the names of the section at `base`, one for each of its
/// offsets, each [`unknown_name`] where it cannot be read.
pub open spec fn kernel_names<F: Fn(&[u8]) -> Result<String, DecodeError>>(
    mem: &ProcessMemory,
    base: int,
    decode: F,
    names: Seq<String>,
) -> bool {
    forall|i: int|
        0 <= i < names.len() ==> name_or_unknown(
            mem,
            base + mem.u16_at(base + 2 * i),
            KERNEL_NAME_SIZE as nat,
            decode,
            #[trigger] names[i]@,
        )
}

/// `r` is what a read of the `count` names of the kernel section `section`
/// gives.
pub open spec fn kernel_section_read<F: Fn(&[u8]) -> Result<String, DecodeError>>(
    mem: &ProcessMemory,
    addresses: FF7Addresses,
    section: u32,
    count: u32,
    decode: F,
    r: Result<Vec<String>, GameError>,
) -> bool {
    match kernel_section_listing(mem, addresses, section, count) {
        Err(e) => r == Err::<Vec<String>, GameError>(e),
        Ok(base) => r matches Ok(names) && names@.len() == count && kernel_names(
            mem,
            base,
            decode,
            names@,
        ),
    }
}

/// A failure among the first offsets of a section is the failure of all of
/// them.
proof fn lemma_offsets_fault(mem: &ProcessMemory, base: int, n: nat, count: nat)
    requires
        n <= count,
        offsets_fault(mem, base, n) is Some,
    ensures
        offsets_fault(mem, base, count) == offsets_fault(mem, base, n),
    decreases count,
{
    if n < count {
        lemma_offsets_fault(mem, base, n, (count - 1) as nat);
    }
}

/// Where the kernel section `section` starts.
fn section_base(mem: &ProcessMemory, addresses: &FF7Addresses, section: u32) -> (r: Result<
    u64,
    GameError,
>)
    ensures
        match kernel_section_base(mem, *addresses, section) {
            Ok(base) => r == Ok::<u64, GameError>(base as u64) && 0 <= base <= 0x1_0000_FFFF,
            Err(e) => r == Err::<u64, GameError>(e),
        },
{
    let texts = addresses.kernel_texts_base as u64;
    let started = mem.read_u32(texts)?;
    if started == 0 {
        let call = addresses.kernel_read_fn_call;
        let operand = mem.read_u32(call as u64)?;
        let function = operand.wrapping_add(call).wrapping_add(4);
        assert(function == (operand + call + 4) % 0x1_0000_0000);
        let table = mem.read_u32(function as u64 + 0x1B)?;
        let base = mem.read_u32(table as u64 + 4 * (section as u64))?;
        Ok(base as u64)
    } else {
        let offset = mem.read_u16(addresses.kernel_section_offsets as u64 + 2 * (section as u64))?;
        Ok(texts + offset as u64)
    }
}

/// Reads the `count` names of the kernel section `section`.
pub fn read_kernel_section<F: Fn(&[u8]) -> Result<String, DecodeError>>(
    mem: &ProcessMemory,
    addresses: &FF7Addresses,
    section_id: u32,
    count: u32,
    decode: &F,
) -> (r: Result<Vec<String>, GameError>)
    requires
        text_codec(*decode),
    ensures
        kernel_section_read(mem, *addresses, section_id, count, *decode, r),
{
    let base = section_base(mem, addresses, section_id)?;
    let mut names: Vec<String> = Vec::new();
    let mut i: u32 = 0;
    while i < count
        invariant
            i <= count,
            text_codec(*decode),
            base <= 0x1_0000_FFFF,
            kernel_section_base(mem, *addresses, section_id) == Ok::<int, GameError>(base as int),
            names@.len() == i,
            offsets_fault(mem, base as int, i as nat) is None,
            kernel_names(mem, base as int, *decode, names@),
        decreases count - i,
    {
        let offset = match mem.read_u16(base + 2 * (i as u64)) {
            Ok(offset) => offset,
            Err(e) => {
                proof {
                    lemma_offsets_fault(mem, base as int, (i + 1) as nat, count as nat);
                }
                return Err(e);
            },
        };
        let name = read_name_or_unknown(mem, base + offset as u64, KERNEL_NAME_SIZE, decode);
        let ghost before = names@;
        names.push(name);
        i += 1;
        proof {
            assert forall|k: int| 0 <= k < names@.len() implies name_or_unknown(
                mem,
                base + mem.u16_at(base + 2 * k),
                KERNEL_NAME_SIZE as nat,
                *decode,
                #[trigger] names@[k]@,
            ) by {
                if k < before.len() {
                    assert(names@[k] == before[k]);
                }
            }
        }
    }
    Ok(names)
}

/// `r` is what a read of the names of all items gives: those of the items
/// proper (section 10), the weapons (11), the armors (12) and the
/// accessories (13), in this order. The first read that fails fails it all.
pub open spec fn item_names_read<F: Fn(&[u8]) -> Result<String, DecodeError>>(
    mem: &ProcessMemory,
    addresses: FF7Addresses,
    decode: F,
    r: Result<Vec<String>, GameError>,
) -> bool {
    match kernel_section_listing(mem, addresses, 10, 128) {
        Err(e) => r == Err::<Vec<String>, GameError>(e),
        Ok(items) => match kernel_section_listing(mem, addresses, 11, 128) {
            Err(e) => r == Err::<Vec<String>, GameError>(e),
            Ok(weapons) => match kernel_section_listing(mem, addresses, 12, 32) {
                Err(e) => r == Err::<Vec<String>, GameError>(e),
                Ok(armors) => match kernel_section_listing(mem, addresses, 13, 32) {
                    Err(e) => r == Err::<Vec<String>, GameError>(e),
                    Ok(accessories) => {
                        &&& r matches Ok(names)
                        &&& names@.len() == 320
                        &&& kernel_names(mem, items, decode, names@.subrange(0, 128))
                        &&& kernel_names(mem, weapons, decode, names@.subrange(128, 256))
                        &&& kernel_names(mem, armors, decode, names@.subrange(256, 288))
                        &&& kernel_names(mem, accessories, decode, names@.subrange(288, 320))
                    },
                },
            },
        },
    }
}

/// Reads the names of all items: the items proper, the weapons, the armors
/// and the accessories, 320 names in all.
pub fn read_item_names<F: Fn(&[u8]) -> Result<String, DecodeError>>(
    mem: &ProcessMemory,
    addresses: &FF7Addresses,
    decode: &F,
) -> (r: Result<Vec<String>, GameError>)
    requires
        text_codec(*decode),
    ensures
        item_names_read(mem, *addresses, *decode, r),
{
    let mut names = read_kernel_section(mem, addresses, 10, 128, decode)?;
    let mut weapons = read_kernel_section(mem, addresses, 11, 128, decode)?;
    let mut armors = read_kernel_section(mem, addresses, 12, 32, decode)?;
    let mut accessories = read_kernel_section(mem, addresses, 13, 32, decode)?;
    let ghost items = names@;
    let ghost w = weapons@;
    let ghost ar = armors@;
    let ghost ac = accessories@;
    names.append(&mut weapons);
    names.append(&mut armors);
    names.append(&mut accessories);
    proof {
        assert(names@ == items + w + ar + ac);
        assert(names@.subrange(0, 128) =~= items);
        assert(names@.subrange(128, 256) =~= w);
        assert(names@.subrange(256, 288) =~= ar);
        assert(names@.subrange(288, 320) =~= ac);
    }
    Ok(names)
}

/// Reads the names of the 96 materia, kernel section 14.
pub fn read_materia_names<F: Fn(&[u8]) -> Result<String, DecodeError>>(
    mem: &ProcessMemory,
    addresses: &FF7Addresses,
    decode: &F,
) -> (r: Result<Vec<String>, GameError>)
    requires
        text_codec(*decode),
    ensures
        kernel_section_read(mem, *addresses, 14, 96, *decode, r),
{
    read_kernel_section(mem, addresses, 14, 96, decode)
}

/// Reads the names of the 64 key items, kernel section 15.
pub fn read_key_item_names<F: Fn(&[u8]) -> Result<String, DecodeError>>(
    mem: &ProcessMemory,
    addresses: &FF7Addresses,
    decode: &F,
) -> (r: Result<Vec<String>, GameError>)
    requires
        text_codec(*decode),
    ensures
        kernel_section_read(mem, *addresses, 15, 64, *decode, r),
{
    read_kernel_section(mem, addresses, 15, 64, decode)
}

/// Reads the names of the 32 battle commands, kernel section 8.
pub fn read_command_names<F: Fn(&[u8]) -> Result<String, DecodeError>>(
    mem: &ProcessMemory,
    addresses: &FF7Addresses,
    decode: &F,
) -> (r: Result<Vec<String>, GameError>)
    requires
        text_codec(*decode),
    ensures
        kernel_section_read(mem, *addresses, 8, 32, *decode, r),
{
    read_kernel_section(mem, addresses, 8, 32, decode)
}

/// Reads the names of the 128 attacks of the party, kernel section 9.
pub fn read_attack_names<F: Fn(&[u8]) -> Result<String, DecodeError>>(
    mem: &ProcessMemory,
    addresses: &FF7Addresses,
    decode: &F,
) -> (r: Result<Vec<String>, GameError>)
    requires
        text_codec(*decode),
    ensures
        kernel_section_read(mem, *addresses, 9, 128, *decode, r),
{
    read_kernel_section(mem, addresses, 9, 128, decode)
}

/// The description of the item whose 28 bytes start at `at` in `table`. The
/// game keeps five of the fields with every bit turned around; they are
/// turned back here.
pub open spec fn item_data_at(table: Seq<u8>, at: int) -> ItemData {
    ItemData {
        camera_move_id: u16_at(table, at + 0x08),
        restriction_mask: u16_at(table, at + 0x0a),
        target_flags: u8_at(table, at + 0x0c),
        attack_effect_id: u8_at(table, at + 0x0d),
        damage_func: u8_at(table, at + 0x0e),
        power: u8_at(table, at + 0x0f),
        condition: u8_at(table, at + 0x10),
        status_effect_change: !u8_at(table, at + 0x11),
        attack_additional_effect: !u8_at(table, at + 0x12),
        additional_effect_modifier: !u8_at(table, at + 0x13),
        status_effects: !u32_at(table, at + 0x14),
        attack_element: u16_at(table, at + 0x18),
        special_attack_flags: !u16_at(table, at + 0x1a),
    }
}

/// Reads the descriptions of the 128 items, a table of 3584 bytes that
/// starts at `kernel_item_data`. The table is read as a whole.
pub fn read_item_data(mem: &ProcessMemory, kernel_item_data: u32) -> (r: Result<
    Vec<ItemData>,
    GameError,
>)
    ensures
        match r {
            Ok(items) => {
                &&& mem.readable(kernel_item_data as int, 3584)
                &&& items@.len() == ITEM_COUNT
                &&& forall|i: int|
                    0 <= i < ITEM_COUNT ==> #[trigger] items@[i] == item_data_at(
                        mem.span(kernel_item_data as int, 3584),
                        ITEM_DATA_SIZE * i,
                    )
            },
            Err(e) => !mem.readable(kernel_item_data as int, 3584) && e == ProcessMemory::fault(
                kernel_item_data as int,
                3584,
            ),
        },
{
    let table = mem.read(kernel_item_data as u64, ITEM_COUNT * ITEM_DATA_SIZE)?;
    let mut items: Vec<ItemData> = Vec::new();
    let mut i: usize = 0;
    while i < ITEM_COUNT
        invariant
            i <= ITEM_COUNT,
            table@.len() == 3584,
            items@.len() == i,
            forall|k: int|
                0 <= k < i ==> #[trigger] items@[k] == item_data_at(table@, ITEM_DATA_SIZE * k),
        decreases ITEM_COUNT - i,
    {
        let at = i * ITEM_DATA_SIZE;
        let t = table.as_slice();
        let item = ItemData {
            camera_move_id: get_u16(t, at + 0x08),
            restriction_mask: get_u16(t, at + 0x0a),
            target_flags: t[at + 0x0c],
            attack_effect_id: t[at + 0x0d],
            damage_func: t[at + 0x0e],
            power: t[at + 0x0f],
            condition: t[at + 0x10],
            status_effect_change: flip_bits(t[at + 0x11]),
            attack_additional_effect: flip_bits(t[at + 0x12]),
            additional_effect_modifier: flip_bits(t[at + 0x13]),
            status_effects: flip_bits(get_u32(t, at + 0x14)),
            attack_element: get_u16(t, at + 0x18),
            special_attack_flags: flip_bits(get_u16(t, at + 0x1a)),
        };
        items.push(item);
        i += 1;
    }
    Ok(items)
}

} // verus!
