//! The index of the scene container: where in the file each compressed
//! scene lies.
//!
//! The file is a row of blocks of [`SCENE_SIZE`] bytes; the last block may
//! be shorter. A block starts with up to [`BLOCK_HEADER_COUNT`] little-endian
//! words, each a quarter of the offset of one scene from the start of the
//! block. The first word [`END_OF_HEADER`] ends the table. A scene runs up
//! to the next scene of its block, the last one up to the end of the block.

use crate::utils::cursor::{u32_at, ByteCursor};
use vstd::prelude::*;

verus! {

/// The size of a block of the container.
pub const SCENE_SIZE: usize = 0x2000;

/// The most offsets that a block header holds.
pub const BLOCK_HEADER_COUNT: usize = 16;

/// The header word that ends the offset table of a block.
pub const END_OF_HEADER: u32 = 0xFFFF_FFFF;

/// Where one compressed scene lies in the container.
#[derive(Debug, Clone, Copy, PartialEq, Eq)]
pub struct SceneIndexEntry {
    /// The number of the block that holds the scene.
    pub block: usize,
    /// Where the scene starts, counted from the start of its block.
    pub offset: usize,
    /// The number of bytes of the compressed scene.
    pub length: usize,
}

impl SceneIndexEntry {
    /// Where the scene starts in the file.
    pub open spec fn start(&self) -> int {
        SCENE_SIZE * self.block + self.offset
    }

    /// Where the scene ends in the file.
    pub open spec fn end(&self) -> int {
        self.start() + self.length
    }

    /// The bytes of the compressed scene.
    pub open spec fn bytes(&self, data: Seq<u8>) -> Seq<u8> {
        data.subrange(self.start(), self.end())
    }
}

/// The number of blocks of a file: every started block counts.
pub open spec fn block_count(data: Seq<u8>) -> nat {
    ((data.len() + SCENE_SIZE - 1) / (SCENE_SIZE as int)) as nat
}

/// Where block `b` starts.
pub open spec fn block_start(b: int) -> int {
    SCENE_SIZE * b
}

/// Where block `b` ends: at the next block, or at the end of the file.
pub open spec fn block_end(data: Seq<u8>, b: int) -> int {
    if block_start(b) + SCENE_SIZE < data.len() {
        block_start(b) + SCENE_SIZE
    } else {
        data.len() as int
    }
}

/// Word `k` of the header of block `b`.
pub open spec fn header_word(data: Seq<u8>, b: int, k: int) -> u32 {
    u32_at(data, block_start(b) + 4 * k)
}

/// Word `k` of the header of block `b` is an offset: it is one of the
/// block's first [`BLOCK_HEADER_COUNT`] words, the file holds all of its
/// bytes, and it is not [`END_OF_HEADER`].
pub open spec fn is_offset_word(data: Seq<u8>, b: int, k: int) -> bool {
    &&& 0 <= k < BLOCK_HEADER_COUNT
    &&& block_start(b) + 4 * k + 4 <= data.len()
    &&& header_word(data, b, k) != END_OF_HEADER
}

/// The number of offset words of block `b` from word `k` on, up to the
/// first word that is none.
pub open spec fn offsets_from(data: Seq<u8>, b: int, k: int) -> nat
    decreases BLOCK_HEADER_COUNT - k,
{
    if is_offset_word(data, b, k) {
        1 + offsets_from(data, b, k + 1)
    } else {
        0
    }
}

/// The number of scenes that the header of block `b` names.
pub open spec fn offset_count(data: Seq<u8>, b: int) -> nat {
    offsets_from(data, b, 0)
}

/// Where scene `k` of block `b` starts, counted from the start of the block.
pub open spec fn scene_offset(data: Seq<u8>, b: int, k: int) -> int {
    4 * header_word(data, b, k)
}

/// Where scene `k` of block `b` ends, counted from the start of the block:
/// at the next scene of the block, or with the block.
pub open spec fn scene_limit(data: Seq<u8>, b: int, k: int) -> int {
    if k + 1 < offset_count(data, b) {
        scene_offset(data, b, k + 1)
    } else {
        block_end(data, b) - block_start(b)
    }
}

/// Scene `k` of block `b` lies in the file: it does not end before it
/// starts, and it ends within the file.
pub open spec fn scene_in_bounds(data: Seq<u8>, b: int, k: int) -> bool {
    &&& scene_offset(data, b, k) <= scene_limit(data, b, k)
    &&& block_start(b) + scene_limit(data, b, k) <= data.len()
}

/// The index entry of scene `k` of block `b`.
pub open spec fn entry_of(data: Seq<u8>, b: int, k: int) -> SceneIndexEntry {
    SceneIndexEntry {
        block: b as usize,
        offset: scene_offset(data, b, k) as usize,
        length: (scene_limit(data, b, k) - scene_offset(data, b, k)) as usize,
    }
}

/// The entries of the first `n` scenes of block `b`, without those that do
/// not lie in the file.
pub open spec fn block_entries(data: Seq<u8>, b: int, n: nat) -> Seq<SceneIndexEntry>
    decreases n,
{
    if n == 0 {
        Seq::empty()
    } else {
        let before = block_entries(data, b, (n - 1) as nat);
        if scene_in_bounds(data, b, n - 1) {
            before.push(entry_of(data, b, n - 1))
        } else {
            before
        }
    }
}

/// The entries of the blocks from `from` up to but without `to`, block after
/// block.
pub open spec fn entries_between(data: Seq<u8>, from: int, to: int) -> Seq<SceneIndexEntry>
    decreases to - from,
{
    if to <= from {
        Seq::empty()
    } else {
        entries_between(data, from, to - 1) + block_entries(
            data,
            to - 1,
            offset_count(data, to - 1),
        )
    }
}

/// The index of the whole file, in file order.
pub open spec fn scene_index_of(data: Seq<u8>) -> Seq<SceneIndexEntry> {
    entries_between(data, 0, block_count(data) as int)
}

/// The number of scenes that the headers of the blocks from `from` up to
/// but without `to` name.
pub open spec fn offsets_between(data: Seq<u8>, from: int, to: int) -> nat
    decreases to - from,
{
    if to <= from {
        0
    } else {
        offsets_between(data, from, to - 1) + offset_count(data, to - 1)
    }
}

/// Every scene that a header of the file names lies in the file.
pub open spec fn container_well_formed(data: Seq<u8>) -> bool {
    forall|b: int, k: int|
        0 <= b < block_count(data) && 0 <= k < offset_count(data, b) ==> #[trigger] scene_in_bounds(
            data,
            b,
            k,
        )
}

/// Every entry of an index lies in the file.
pub open spec fn entries_in_bounds(data: Seq<u8>, entries: Seq<SceneIndexEntry>) -> bool {
    forall|i: int| 0 <= i < entries.len() ==> (#[trigger] entries[i]).end() <= data.len()
}

/// A block of the file starts within the file.
pub proof fn lemma_block_in_file(data: Seq<u8>, b: int)
    requires
        0 <= b < block_count(data),
    ensures
        0 <= block_start(b) < data.len(),
{
    assert(SCENE_SIZE * b < data.len()) by (nonlinear_arith)
        requires
            0 <= b < ((data.len() + SCENE_SIZE - 1) / (SCENE_SIZE as int)),
            SCENE_SIZE == 0x2000,
    ;
}

/// A header names at most [`BLOCK_HEADER_COUNT`] scenes: from word `k` on it
/// holds at most the words that are left, every word that is counted is an
/// offset, and the word behind the last one counted is none.
pub proof fn lemma_offsets_from_bound(data: Seq<u8>, b: int, k: int)
    requires
        0 <= k <= BLOCK_HEADER_COUNT,
    ensures
        offsets_from(data, b, k) <= BLOCK_HEADER_COUNT - k,
        forall|j: int| k <= j < k + offsets_from(data, b, k) ==> is_offset_word(data, b, j),
        !is_offset_word(data, b, k + offsets_from(data, b, k)),
    decreases BLOCK_HEADER_COUNT - k,
{
    if is_offset_word(data, b, k) {
        lemma_offsets_from_bound(data, b, k + 1);
    }
}

/// The entries of a block lie in the file.
pub proof fn lemma_block_entries(data: Seq<u8>, b: int, n: nat)
    requires
        data.len() <= usize::MAX,
        0 <= b < block_count(data),
    ensures
        entries_in_bounds(data, block_entries(data, b, n)),
    decreases n,
{
    if n > 0 {
        lemma_block_entries(data, b, (n - 1) as nat);
        let before = block_entries(data, b, (n - 1) as nat);
        let entries = block_entries(data, b, n);
        if scene_in_bounds(data, b, n - 1) {
            let e = entry_of(data, b, n - 1);
            lemma_block_in_file(data, b);
            assert(0 <= scene_offset(data, b, n - 1));
            assert(e.end() == block_start(b) + scene_limit(data, b, n - 1));
            assert forall|i: int| 0 <= i < entries.len() implies (#[trigger] entries[i]).end()
                <= data.len() by {
                if i < before.len() {
                    assert(entries[i] == before[i]);
                }
            }
        }
    }
}

/// A block has at most one entry for each scene that its header names, and
/// one for each where all of them lie in the file.
pub proof fn lemma_block_entries_len(data: Seq<u8>, b: int, n: nat)
    ensures
        block_entries(data, b, n).len() <= n,
        (forall|k: int| 0 <= k < n ==> scene_in_bounds(data, b, k)) ==> block_entries(
            data,
            b,
            n,
        ).len() == n,
    decreases n,
{
    if n > 0 {
        lemma_block_entries_len(data, b, (n - 1) as nat);
    }
}

/// The entries of a run of blocks are those of its front part followed by
/// those of its back part.
pub proof fn lemma_entries_split(data: Seq<u8>, from: int, mid: int, to: int)
    requires
        from <= mid <= to,
    ensures
        entries_between(data, from, to) == entries_between(data, from, mid) + entries_between(
            data,
            mid,
            to,
        ),
    decreases to - mid,
{
    if mid < to {
        lemma_entries_split(data, from, mid, to - 1);
        let last = block_entries(data, to - 1, offset_count(data, to - 1));
        assert(entries_between(data, from, to) =~= entries_between(data, from, mid) + (
        entries_between(data, mid, to - 1) + last));
    } else {
        assert(entries_between(data, from, to) =~= entries_between(data, from, mid)
            + entries_between(data, mid, to));
    }
}

/// In a container whose scenes all lie in the file, a run of blocks has as
/// many index entries as its headers name scenes.
pub proof fn lemma_entries_count(data: Seq<u8>, to: int)
    requires
        container_well_formed(data),
        0 <= to <= block_count(data),
    ensures
        entries_between(data, 0, to).len() == offsets_between(data, 0, to),
    decreases to,
{
    if to > 0 {
        let b = to - 1;
        lemma_entries_count(data, b);
        assert forall|k: int| 0 <= k < offset_count(data, b) implies #[trigger] scene_in_bounds(
            data,
            b,
            k,
        ) by {}
        lemma_block_entries_len(data, b, offset_count(data, b));
    }
}

/// In a well-formed container of B blocks whose headers name k(b) scenes
/// each, the index holds the sum of the k(b) entries: one scene extraction
/// for each scene named.
pub proof fn lemma_index_of_well_formed_container(data: Seq<u8>)
    requires
        container_well_formed(data),
    ensures
        scene_index_of(data).len() == offsets_between(data, 0, block_count(data) as int),
{
    lemma_entries_count(data, block_count(data) as int);
}

/// A block whose first header word is [`END_OF_HEADER`] names no scene and
/// gives no index entry, and the blocks behind it are indexed all the same:
/// the index of the file is that of the blocks before it followed by that of
/// the blocks after it.
pub proof fn lemma_empty_block_is_passed_over(data: Seq<u8>, b: int)
    requires
        0 <= b < block_count(data),
        header_word(data, b, 0) == END_OF_HEADER,
    ensures
        offset_count(data, b) == 0,
        entries_between(data, b, b + 1) == Seq::<SceneIndexEntry>::empty(),
        scene_index_of(data) == entries_between(data, 0, b) + entries_between(
            data,
            b + 1,
            block_count(data) as int,
        ),
{
    let blocks = block_count(data) as int;
    lemma_entries_split(data, 0, b, blocks);
    lemma_entries_split(data, b, b + 1, blocks);
    assert(entries_between(data, b, b) =~= Seq::<SceneIndexEntry>::empty());
    assert(entries_between(data, b, b + 1) =~= Seq::<SceneIndexEntry>::empty());
    assert(entries_between(data, b, blocks) =~= entries_between(data, b + 1, blocks));
}

/// The compressed bytes of the scenes of `entries`, in the order of the
/// entries.
pub open spec fn spans_of(data: Seq<u8>, entries: Seq<SceneIndexEntry>) -> Seq<Seq<u8>> {
    Seq::new(entries.len(), |i: int| entries[i].bytes(data))
}

/// The compressed bytes of the scenes of the file, in file order.
pub open spec fn scene_spans(data: Seq<u8>) -> Seq<Seq<u8>> {
    spans_of(data, scene_index_of(data))
}

/// The number of bytes of block `b`.
pub open spec fn block_len(data: Seq<u8>, b: int) -> int {
    block_end(data, b) - block_start(b)
}

/// The bytes are a row of whole blocks.
pub open spec fn whole_blocks(data: Seq<u8>) -> bool {
    data.len() % (SCENE_SIZE as nat) == 0
}

/// Every scene that a header of the file names ends in the file, unless it
/// would end before it starts.
pub open spec fn scenes_end_in_file(data: Seq<u8>) -> bool {
    forall|b: int, k: int|
        0 <= b < block_count(data) && 0 <= k < offset_count(data, b) && scene_offset(data, b, k)
            <= scene_limit(data, b, k) ==> #[trigger] scene_in_bounds(data, b, k)
}

/// Block `b1` of `d1` and block `b2` of `d2` are equally long, and the two
/// files hold the same `w` bytes from the starts of these blocks on, which
/// is the whole block at least.
spec fn blocks_alike(d1: Seq<u8>, b1: int, d2: Seq<u8>, b2: int, w: int) -> bool {
    &&& 0 <= b1 < block_count(d1)
    &&& 0 <= b2 < block_count(d2)
    &&& block_len(d1, b1) == block_len(d2, b2)
    &&& block_len(d1, b1) <= w
    &&& block_start(b1) + w <= d1.len()
    &&& block_start(b2) + w <= d2.len()
    &&& d1.subrange(block_start(b1), block_start(b1) + w) == d2.subrange(
        block_start(b2),
        block_start(b2) + w,
    )
}

/// Blocks that are alike hold the same bytes at the same place.
proof fn lemma_alike_byte(d1: Seq<u8>, b1: int, d2: Seq<u8>, b2: int, w: int, i: int)
    requires
        blocks_alike(d1, b1, d2, b2, w),
        0 <= i < w,
    ensures
        d1[block_start(b1) + i] == d2[block_start(b2) + i],
{
    let w1 = d1.subrange(block_start(b1), block_start(b1) + w);
    let w2 = d2.subrange(block_start(b2), block_start(b2) + w);
    assert(SCENE_SIZE == 0x2000);
    assert(w1[i] == d1[block_start(b1) + i]);
    assert(w2[i] == d2[block_start(b2) + i]);
}

/// Blocks that are alike have the same header word in every place of the
/// header that either file holds.
proof fn lemma_alike_word(d1: Seq<u8>, b1: int, d2: Seq<u8>, b2: int, w: int, k: int)
    requires
        blocks_alike(d1, b1, d2, b2, w),
    ensures
        is_offset_word(d1, b1, k) == is_offset_word(d2, b2, k),
        is_offset_word(d1, b1, k) ==> header_word(d1, b1, k) == header_word(d2, b2, k),
{
    assert(SCENE_SIZE == 0x2000 && BLOCK_HEADER_COUNT == 16);
    if 0 <= k < BLOCK_HEADER_COUNT && (block_start(b1) + 4 * k + 4 <= d1.len() || block_start(b2)
        + 4 * k + 4 <= d2.len()) {
        assert(4 * k + 4 <= block_len(d1, b1));
        lemma_alike_byte(d1, b1, d2, b2, w, 4 * k);
        lemma_alike_byte(d1, b1, d2, b2, w, 4 * k + 1);
        lemma_alike_byte(d1, b1, d2, b2, w, 4 * k + 2);
        lemma_alike_byte(d1, b1, d2, b2, w, 4 * k + 3);
    }
}

/// Blocks that are alike name as many scenes from header word `k` on.
proof fn lemma_alike_offsets_from(d1: Seq<u8>, b1: int, d2: Seq<u8>, b2: int, w: int, k: int)
    requires
        blocks_alike(d1, b1, d2, b2, w),
        0 <= k <= BLOCK_HEADER_COUNT,
    ensures
        offsets_from(d1, b1, k) == offsets_from(d2, b2, k),
    decreases BLOCK_HEADER_COUNT - k,
{
    lemma_alike_word(d1, b1, d2, b2, w, k);
    if is_offset_word(d1, b1, k) {
        lemma_alike_offsets_from(d1, b1, d2, b2, w, k + 1);
    }
}

/// Blocks that are alike name the same scenes: as many, with the same
/// offsets and the same limits.
proof fn lemma_alike_scenes(d1: Seq<u8>, b1: int, d2: Seq<u8>, b2: int, w: int)
    requires
        blocks_alike(d1, b1, d2, b2, w),
    ensures
        offset_count(d1, b1) == offset_count(d2, b2),
        forall|k: int|
            0 <= k < offset_count(d1, b1) ==> #[trigger] scene_offset(d1, b1, k) == scene_offset(
                d2,
                b2,
                k,
            ),
        forall|k: int|
            0 <= k < offset_count(d1, b1) ==> #[trigger] scene_limit(d1, b1, k) == scene_limit(
                d2,
                b2,
                k,
            ),
{
    lemma_alike_offsets_from(d1, b1, d2, b2, w, 0);
    lemma_offsets_from_bound(d1, b1, 0);
    assert forall|k: int| 0 <= k < offset_count(d1, b1) implies #[trigger] scene_offset(
        d1,
        b1,
        k,
    ) == scene_offset(d2, b2, k) by {
        assert(is_offset_word(d1, b1, k));
        lemma_alike_word(d1, b1, d2, b2, w, k);
    }
    assert forall|k: int| 0 <= k < offset_count(d1, b1) implies #[trigger] scene_limit(d1, b1, k)
        == scene_limit(d2, b2, k) by {
        if k + 1 < offset_count(d1, b1) {
            assert(scene_offset(d1, b1, k + 1) == scene_offset(d2, b2, k + 1));
        }
    }
}

/// The compressed bytes of a row of entries followed by another are those of
/// the one followed by those of the other.
proof fn lemma_spans_of_both(
    data: Seq<u8>,
    front: Seq<SceneIndexEntry>,
    back: Seq<SceneIndexEntry>,
)
    ensures
        spans_of(data, front + back) == spans_of(data, front) + spans_of(data, back),
{
    assert(spans_of(data, front + back) =~= spans_of(data, front) + spans_of(data, back));
}

/// Blocks that are alike, and whose scenes end within what the two files
/// have in common, hold the same scenes.
proof fn lemma_alike_blocks(d1: Seq<u8>, b1: int, d2: Seq<u8>, b2: int, w: int, n: nat)
    requires
        d1.len() <= usize::MAX,
        d2.len() <= usize::MAX,
        blocks_alike(d1, b1, d2, b2, w),
        n <= offset_count(d1, b1),
        forall|k: int|
            0 <= k < offset_count(d1, b1) && #[trigger] scene_in_bounds(d1, b1, k) ==> scene_limit(
                d1,
                b1,
                k,
            ) <= w,
        forall|k: int|
            0 <= k < offset_count(d2, b2) && #[trigger] scene_in_bounds(d2, b2, k) ==> scene_limit(
                d2,
                b2,
                k,
            ) <= w,
    ensures
        offset_count(d1, b1) == offset_count(d2, b2),
        spans_of(d1, block_entries(d1, b1, n)) == spans_of(d2, block_entries(d2, b2, n)),
    decreases n,
{
    lemma_alike_scenes(d1, b1, d2, b2, w);
    if n > 0 {
        let k = n - 1;
        lemma_alike_blocks(d1, b1, d2, b2, w, k as nat);
        let before1 = block_entries(d1, b1, k as nat);
        let before2 = block_entries(d2, b2, k as nat);
        let offset = scene_offset(d1, b1, k);
        let limit = scene_limit(d1, b1, k);
        assert(offset == scene_offset(d2, b2, k));
        assert(limit == scene_limit(d2, b2, k));
        assert(scene_in_bounds(d1, b1, k) == scene_in_bounds(d2, b2, k));
        if scene_in_bounds(d1, b1, k) {
            let e1 = entry_of(d1, b1, k);
            let e2 = entry_of(d2, b2, k);
            lemma_block_in_file(d1, b1);
            lemma_block_in_file(d2, b2);
            assert(0 <= offset <= limit <= w);
            assert(e1.start() == block_start(b1) + offset && e1.end() == block_start(b1) + limit);
            assert(e2.start() == block_start(b2) + offset && e2.end() == block_start(b2) + limit);
            assert forall|i: int| 0 <= i < limit - offset implies e1.bytes(d1)[i] == e2.bytes(
                d2,
            )[i] by {
                lemma_alike_byte(d1, b1, d2, b2, w, offset + i);
            }
            assert(e1.bytes(d1) =~= e2.bytes(d2));
            assert(spans_of(d1, before1.push(e1)) =~= spans_of(d1, before1).push(e1.bytes(d1)));
            assert(spans_of(d2, before2.push(e2)) =~= spans_of(d2, before2).push(e2.bytes(d2)));
        }
    }
}

/// The blocks of `a` hold the same scenes in the file `a + e + b` as in the
/// file `a + b`, where `a` is made of whole blocks and its scenes end in it.
proof fn lemma_front_blocks(a: Seq<u8>, e: Seq<u8>, b: Seq<u8>, m: int)
    requires
        whole_blocks(a),
        e.len() == SCENE_SIZE,
        (a + e + b).len() <= usize::MAX,
        scenes_end_in_file(a),
        0 <= m <= block_count(a),
    ensures
        spans_of(a + e + b, entries_between(a + e + b, 0, m)) == spans_of(
            a + b,
            entries_between(a + b, 0, m),
        ),
    decreases m,
{
    let d1 = a + e + b;
    let d2 = a + b;
    assert(SCENE_SIZE == 0x2000);
    if m > 0 {
        let block = m - 1;
        lemma_front_blocks(a, e, b, block);
        let start = block_start(block);
        let w = a.len() - start;
        assert(a.subrange(start, start + w) =~= d1.subrange(start, start + w));
        assert(a.subrange(start, start + w) =~= d2.subrange(start, start + w));
        assert(blocks_alike(a, block, d1, block, w));
        assert(blocks_alike(a, block, d2, block, w));
        assert(blocks_alike(d1, block, d2, block, w));
        lemma_alike_scenes(a, block, d1, block, w);
        lemma_alike_scenes(a, block, d2, block, w);
        assert forall|k: int|
            0 <= k < offset_count(d1, block) && #[trigger] scene_in_bounds(
                d1,
                block,
                k,
            ) implies scene_limit(d1, block, k) <= w by {
            assert(scene_offset(a, block, k) == scene_offset(d1, block, k));
            assert(scene_limit(a, block, k) == scene_limit(d1, block, k));
            assert(scene_in_bounds(a, block, k));
        }
        assert forall|k: int|
            0 <= k < offset_count(d2, block) && #[trigger] scene_in_bounds(
                d2,
                block,
                k,
            ) implies scene_limit(d2, block, k) <= w by {
            assert(scene_offset(a, block, k) == scene_offset(d2, block, k));
            assert(scene_limit(a, block, k) == scene_limit(d2, block, k));
            assert(scene_in_bounds(a, block, k));
        }
        lemma_alike_blocks(d1, block, d2, block, w, offset_count(d1, block));
        lemma_spans_of_both(
            d1,
            entries_between(d1, 0, block),
            block_entries(d1, block, offset_count(d1, block)),
        );
        lemma_spans_of_both(
            d2,
            entries_between(d2, 0, block),
            block_entries(d2, block, offset_count(d2, block)),
        );
    } else {
        assert(spans_of(d1, entries_between(d1, 0, m)) =~= spans_of(
            d2,
            entries_between(d2, 0, m),
        ));
    }
}

/// The blocks of `b` hold the same scenes in the file `a + e + b` as in the
/// file `a + b`, one block further on, where `a` is made of whole blocks and
/// `e` is one block.
proof fn lemma_back_blocks(a: Seq<u8>, e: Seq<u8>, b: Seq<u8>, j: int)
    requires
        whole_blocks(a),
        e.len() == SCENE_SIZE,
        (a + e + b).len() <= usize::MAX,
        0 <= j <= block_count(b),
    ensures
        spans_of(
            a + e + b,
            entries_between(a + e + b, block_count(a) as int + 1, block_count(a) + 1 + j),
        ) == spans_of(a + b, entries_between(a + b, block_count(a) as int, block_count(a) + j)),
    decreases j,
{
    let d1 = a + e + b;
    let d2 = a + b;
    let from = block_count(a) as int;
    assert(SCENE_SIZE == 0x2000);
    if j > 0 {
        lemma_back_blocks(a, e, b, j - 1);
        let b1 = from + j;
        let b2 = from + j - 1;
        let w = d2.len() - block_start(b2);
        assert(d1.subrange(block_start(b1), block_start(b1) + w) =~= d2.subrange(
            block_start(b2),
            block_start(b2) + w,
        ));
        assert(blocks_alike(d1, b1, d2, b2, w));
        lemma_alike_blocks(d1, b1, d2, b2, w, offset_count(d1, b1));
        lemma_spans_of_both(
            d1,
            entries_between(d1, from + 1, b1),
            block_entries(d1, b1, offset_count(d1, b1)),
        );
        lemma_spans_of_both(
            d2,
            entries_between(d2, from, b2),
            block_entries(d2, b2, offset_count(d2, b2)),
        );
    } else {
        assert(spans_of(d1, entries_between(d1, from + 1, from + 1 + j)) =~= spans_of(
            d2,
            entries_between(d2, from, from + j),
        ));
    }
}

/// An empty block can be cut out of a file: where `a` is made of whole
/// blocks whose scenes end in `a`, and `e` is one block whose first header
/// word is [`END_OF_HEADER`], the file `a + e + b` holds the same compressed
/// scenes, in the same order, as the file `a + b`. The blocks behind the
/// empty one are indexed as if it were not there.
pub proof fn lemma_empty_block_cut_out(a: Seq<u8>, e: Seq<u8>, b: Seq<u8>)
    requires
        whole_blocks(a),
        e.len() == SCENE_SIZE,
        u32_at(e, 0) == END_OF_HEADER,
        (a + e + b).len() <= usize::MAX,
        scenes_end_in_file(a),
    ensures
        scene_spans(a + e + b) == scene_spans(a + b),
{
    let d1 = a + e + b;
    let d2 = a + b;
    let front = block_count(a) as int;
    let back = block_count(b) as int;
    assert(SCENE_SIZE == 0x2000);
    assert(block_count(d1) == front + 1 + back);
    assert(block_count(d2) == front + back);
    assert(header_word(d1, front, 0) == u32_at(e, 0));
    lemma_empty_block_is_passed_over(d1, front);
    lemma_entries_split(d2, 0, front, front + back);
    lemma_front_blocks(a, e, b, front);
    lemma_back_blocks(a, e, b, back);
    lemma_spans_of_both(
        d1,
        entries_between(d1, 0, front),
        entries_between(d1, front + 1, front + 1 + back),
    );
    lemma_spans_of_both(
        d2,
        entries_between(d2, 0, front),
        entries_between(d2, front, front + back),
    );
}

/// The header of block `b`: the offsets of its scenes from the start of the
/// block, in header order.
pub fn block_offsets(data: &[u8], b: usize) -> (offsets: Vec<u64>)
    requires
        b < block_count(data@),
    ensures
        offsets@.len() == offset_count(data@, b as int),
        forall|k: int|
            0 <= k < offsets@.len() ==> offsets@[k] == scene_offset(data@, b as int, k),
{
    proof {
        lemma_block_in_file(data@, b as int);
    }
    let len = data.len();
    let mut cursor = ByteCursor::new(data);
    cursor.skip(SCENE_SIZE * b);
    let mut offsets: Vec<u64> = Vec::new();
    let mut k: usize = 0;
    while k < BLOCK_HEADER_COUNT
        invariant_except_break
            k <= BLOCK_HEADER_COUNT,
            cursor.bytes() == data@,
            cursor.position() == block_start(b as int) + 4 * k,
            offsets@.len() == k,
            offset_count(data@, b as int) == k + offsets_from(data@, b as int, k as int),
            forall|j: int|
                0 <= j < offsets@.len() ==> offsets@[j] == scene_offset(data@, b as int, j),
        ensures
            offsets@.len() == offset_count(data@, b as int),
            forall|j: int|
                0 <= j < offsets@.len() ==> offsets@[j] == scene_offset(data@, b as int, j),
        decreases BLOCK_HEADER_COUNT - k,
    {
        match cursor.read_u32() {
            Ok(word) => {
                if word == END_OF_HEADER {
                    break ;
                }
                offsets.push(4 * (word as u64));
            },
            Err(_) => {
                break ;
            },
        }
        k += 1;
    }
    offsets
}

/// The index of the container `data`: one entry for each scene that a block
/// header names and that lies in the file, in file order.
///
/// A block without offsets, or whose header the file cuts short, gives no
/// entry and does not end the walk; nor does a scene that runs out of the
/// file, or that would end before it starts.
pub fn scene_index(data: &[u8]) -> (index: Vec<SceneIndexEntry>)
    ensures
        index@ == scene_index_of(data@),
        entries_in_bounds(data@, index@),
{
    let len = data.len();
    let blocks: usize = if len == 0 {
        0
    } else {
        (len - 1) / SCENE_SIZE + 1
    };
    assert(blocks == block_count(data@));
    let mut index: Vec<SceneIndexEntry> = Vec::new();
    let mut block: usize = 0;
    while block < blocks
        invariant
            block <= blocks,
            blocks == block_count(data@),
            len == data@.len(),
            index@ == entries_between(data@, 0, block as int),
            entries_in_bounds(data@, index@),
        decreases blocks - block,
    {
        proof {
            lemma_block_in_file(data@, block as int);
        }
        let offsets = block_offsets(data, block);
        let room: usize = len - SCENE_SIZE * block;
        let block_len: usize = if room > SCENE_SIZE {
            SCENE_SIZE
        } else {
            room
        };
        let ghost before = index@;
        let mut k: usize = 0;
        while k < offsets.len()
            invariant
                k <= offsets@.len(),
                block < block_count(data@),
                len == data@.len(),
                room == len - block_start(block as int),
                block_len == block_end(data@, block as int) - block_start(block as int),
                offsets@.len() == offset_count(data@, block as int),
                forall|j: int|
                    0 <= j < offsets@.len() ==> offsets@[j] == scene_offset(
                        data@,
                        block as int,
                        j,
                    ),
                index@ == before + block_entries(data@, block as int, k as nat),
            decreases offsets@.len() - k,
        {
            let offset: u64 = offsets[k];
            let limit: u64 = if k + 1 < offsets.len() {
                offsets[k + 1]
            } else {
                block_len as u64
            };
            assert(limit == scene_limit(data@, block as int, k as int));
            if offset <= limit && limit <= room as u64 {
                index.push(
                    SceneIndexEntry {
                        block,
                        offset: offset as usize,
                        length: (limit - offset) as usize,
                    },
                );
            }
            k += 1;
            assert(index@ =~= before + block_entries(data@, block as int, k as nat));
        }
        proof {
            lemma_block_entries(data@, block as int, offset_count(data@, block as int));
        }
        block += 1;
    }
    index
}

} // verus!
