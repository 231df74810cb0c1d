//! Read cache in front of the SD card.
//!
//! Writes go through to the card before the host is told (no write-back), and
//! update any cached copy of the same blocks.

use crate::bytes::spliced;
use vstd::prelude::*;

verus! {

/// Bytes of one block.
pub const BLOCK_LEN: usize = 512;

/// Blocks moved by one SD multi-block command and held by one cache line.
pub const LINE_BLOCKS: u32 = 8;

/// Lines for small, repeated reads (FAT, directories, boot sector), of which the
/// least recently used gives way.
pub const CACHE_LINES: usize = 3;

/// Index of the extra line used for large sequential transfers, so they do not
/// evict the metadata cached in the other lines.
pub const STREAM_LINE: usize = 3;

/// One run of blocks in the cache.
pub struct Line {
    pub valid: bool,
    /// First block held by the line.
    pub start: u32,
    pub len: u32,
    pub last_used: u32,
    pub data: Vec<u8>,
}

/// What a [`Line`] holds.
#[verifier::ext_equal]
pub struct LineView {
    pub valid: bool,
    pub start: u32,
    pub len: u32,
    pub last_used: u32,
    pub data: Seq<u8>,
}

impl View for Line {
    type V = LineView;

    open spec fn view(&self) -> LineView {
        LineView {
            valid: self.valid,
            start: self.start,
            len: self.len,
            last_used: self.last_used,
            data: self.data@,
        }
    }
}

impl LineView {
    /// Whether the line holds a block.
    pub open spec fn holds(self, lba: int) -> bool {
        self.valid && self.start <= lba < self.start + self.len
    }

    /// A valid line holds one to eight blocks, whole.
    pub open spec fn wf(self) -> bool {
        self.valid ==> {
            &&& 0 < self.len <= LINE_BLOCKS
            &&& self.start + self.len <= u32::MAX
            &&& self.data.len() == self.len * BLOCK_LEN
        }
    }
}

/// The cache: three lines and the stream line.
pub struct BlockCache {
    pub lines: Vec<Line>,
    pub clock: u32,
}

/// What a [`BlockCache`] holds.
#[verifier::ext_equal]
pub struct CacheView {
    pub lines: Seq<LineView>,
    pub clock: u32,
}

/// What a list of lines holds.
pub open spec fn lines_view(lines: Seq<Line>) -> Seq<LineView> {
    lines.map_values(|line: Line| line@)
}

impl View for BlockCache {
    type V = CacheView;

    open spec fn view(&self) -> CacheView {
        CacheView { lines: lines_view(self.lines@), clock: self.clock }
    }
}

/// The first line that holds a block, or the number of lines where none does.
pub open spec fn line_position(lines: Seq<LineView>, lba: int) -> int
    decreases lines.len(),
{
    if lines.len() == 0 || lines[0].holds(lba) {
        0
    } else {
        1 + line_position(lines.skip(1), lba)
    }
}

/// The first invalid one of the first `count` lines, or `count`.
pub open spec fn first_invalid(lines: Seq<LineView>, count: nat) -> int
    decreases count,
{
    if count == 0 {
        0
    } else {
        let before = first_invalid(lines, (count - 1) as nat);
        if before < count - 1 || !lines[count - 1].valid {
            before
        } else {
            count as int
        }
    }
}

/// The least recently used one of the first `count` lines.
pub open spec fn least_used(lines: Seq<LineView>, count: nat) -> int
    decreases count,
{
    if count <= 1 {
        0
    } else {
        let before = least_used(lines, (count - 1) as nat);
        if lines[count - 1].last_used < lines[before].last_used {
            count - 1
        } else {
            before
        }
    }
}

/// The line that gives way to blocks read next.
pub open spec fn victim_index(lines: Seq<LineView>, streaming: bool) -> int {
    if streaming {
        STREAM_LINE as int
    } else if first_invalid(lines, CACHE_LINES as nat) < CACHE_LINES {
        first_invalid(lines, CACHE_LINES as nat)
    } else {
        least_used(lines, CACHE_LINES as nat)
    }
}

/// Small reads take an invalid line where there is one, and else the one that has
/// not been used for the longest time; large ones leave all of these alone.
pub proof fn victim_is_the_right_one(lines: Seq<LineView>)
    ensures
        victim_index(lines, true) == STREAM_LINE,
        ({
            let index = victim_index(lines, false);
            &&& 0 <= index < CACHE_LINES
            &&& lines[index].valid ==> forall|i: int|
                0 <= i < CACHE_LINES ==> (#[trigger] lines[i]).valid && lines[index].last_used
                    <= lines[i].last_used
        }),
{
    reveal_with_fuel(first_invalid, 4);
    reveal_with_fuel(least_used, 4);
    assert(forall|i: int| 0 <= i < CACHE_LINES ==> (#[trigger] lines[i]) == lines[0] || lines[i]
        == lines[1] || lines[i] == lines[2]);
}

impl CacheView {
    pub open spec fn wf(self) -> bool {
        &&& self.lines.len() == CACHE_LINES + 1
        &&& forall|i: int| 0 <= i < self.lines.len() ==> (#[trigger] self.lines[i]).wf()
    }

    /// The cache at power-up: nothing was read into its lines, and none was used.
    pub open spec fn fresh() -> CacheView {
        CacheView {
            lines: Seq::new(
                (CACHE_LINES + 1) as nat,
                |i: int|
                    LineView { valid: false, start: 0, len: 0, last_used: 0, data: Seq::empty() },
            ),
            clock: 0,
        }
    }

    /// Every line is empty.
    pub open spec fn is_empty(self) -> bool {
        forall|i: int| 0 <= i < self.lines.len() ==> !(#[trigger] self.lines[i]).valid
    }

    /// The cache after a line was used.
    pub open spec fn used(self, index: int) -> CacheView {
        let clock = self.clock.wrapping_add(1);
        CacheView {
            lines: self.lines.update(
                index,
                LineView { last_used: clock, ..self.lines[index] },
            ),
            clock,
        }
    }

    /// The cache while a line is being refilled.
    pub open spec fn dropped(self, index: int) -> CacheView {
        CacheView {
            lines: self.lines.update(index, LineView { valid: false, ..self.lines[index] }),
            ..self
        }
    }

    /// The cache after a line was filled with blocks read from the card.
    pub open spec fn filled(self, index: int, start: u32, len: u32, data: Seq<u8>) -> CacheView {
        CacheView {
            lines: self.lines.update(
                index,
                LineView { valid: true, start, len, data, ..self.lines[index] },
            ),
            ..self
        }.used(index)
    }

    /// The cache after every line was emptied.
    pub open spec fn invalidated(self) -> CacheView {
        CacheView {
            lines: self.lines.map_values(|line: LineView| LineView { valid: false, ..line }),
            ..self
        }
    }

    /// The cache after blocks were written to the card.
    pub open spec fn updated(self, lba: int, data: Seq<u8>) -> CacheView {
        CacheView {
            lines: Seq::new(
                self.lines.len(),
                |i: int|
                    if i < CACHE_LINES {
                        line_updated(self.lines[i], lba, data)
                    } else {
                        self.lines[i]
                    },
            ),
            ..self
        }
    }
}

/// A line after blocks were written to the card: the bytes that it holds of them
/// are the new ones.
pub open spec fn line_updated(line: LineView, lba: int, data: Seq<u8>) -> LineView {
    if line.valid {
        LineView {
            data: Seq::new(
                line.data.len(),
                |i: int|
                    {
                        let at = line.start * BLOCK_LEN + i - lba * BLOCK_LEN;
                        if 0 <= at < data.len() {
                            data[at]
                        } else {
                            line.data[i]
                        }
                    },
            ),
            ..line
        }
    } else {
        line
    }
}

// ---------------------------------------------------------------------------
// The cache and the card
// ---------------------------------------------------------------------------

/// What valid lines hold is what is on the card.
pub open spec fn coherent(cache: CacheView, card: Seq<u8>) -> bool {
    forall|i: int| 0 <= i < cache.lines.len() ==> line_coherent(#[trigger] cache.lines[i], card)
}

/// What a valid line holds is what is on the card.
pub open spec fn line_coherent(line: LineView, card: Seq<u8>) -> bool {
    line.valid ==> {
        &&& (line.start + line.len) * BLOCK_LEN <= card.len()
        &&& line.data == card.subrange(
            line.start * BLOCK_LEN,
            (line.start + line.len) * BLOCK_LEN,
        )
    }
}

/// Using a line, emptying one or all, and filling one with what is on the card
/// keep the cache coherent.
pub proof fn reading_keeps_coherence(
    cache: CacheView,
    card: Seq<u8>,
    index: int,
    start: u32,
    len: u32,
)
    requires
        coherent(cache, card),
        0 <= index < cache.lines.len(),
        (start + len) * BLOCK_LEN <= card.len(),
    ensures
        coherent(cache.used(index), card),
        coherent(cache.dropped(index), card),
        coherent(cache.invalidated(), card),
        coherent(
            cache.filled(
                index,
                start,
                len,
                card.subrange(start * BLOCK_LEN, (start + len) * BLOCK_LEN),
            ),
            card,
        ),
{
    assert(line_coherent(cache.lines[index], card));
}

/// Writing blocks through to the card and to the cache keeps the cache coherent,
/// while the stream line is empty.
pub proof fn writing_keeps_coherence(cache: CacheView, card: Seq<u8>, lba: int, data: Seq<u8>)
    requires
        coherent(cache, card),
        cache.wf(),
        !cache.lines[STREAM_LINE as int].valid,
        0 <= lba,
        lba * BLOCK_LEN + data.len() <= card.len(),
    ensures
        coherent(cache.updated(lba, data), spliced(card, lba * BLOCK_LEN, data)),
{
    let after = cache.updated(lba, data);
    let new_card = spliced(card, lba * BLOCK_LEN, data);
    assert forall|i: int| 0 <= i < after.lines.len() implies line_coherent(
        #[trigger] after.lines[i],
        new_card,
    ) by {
        let line = cache.lines[i];
        assert(line_coherent(line, card));
        assert(line.wf());
        if line.valid {
            assert(after.lines[i].data =~= new_card.subrange(
                line.start * BLOCK_LEN,
                (line.start + line.len) * BLOCK_LEN,
            ));
        }
    }
}

// ---------------------------------------------------------------------------
// Executable operations
// ---------------------------------------------------------------------------

proof fn line_position_found(lines: Seq<LineView>, lba: int, at: int)
    requires
        0 <= at <= lines.len(),
        at < lines.len() ==> lines[at].holds(lba),
        forall|i: int| 0 <= i < at ==> !(#[trigger] lines[i]).holds(lba),
    ensures
        line_position(lines, lba) == at,
    decreases lines.len(),
{
    if lines.len() > 0 && at > 0 {
        assert(!lines[0].holds(lba));
        assert forall|i: int| 0 <= i < at - 1 implies !(#[trigger] lines.skip(1)[i]).holds(lba) by {
            assert(lines.skip(1)[i] == lines[i + 1]);
        }
        line_position_found(lines.skip(1), lba, at - 1);
    }
}

proof fn first_invalid_stays(lines: Seq<LineView>, count: nat, more: nat)
    requires
        first_invalid(lines, count) < count <= more,
    ensures
        first_invalid(lines, more) == first_invalid(lines, count),
    decreases more - count,
{
    if count < more {
        first_invalid_stays(lines, count, (more - 1) as nat);
    }
}

impl Line {
    /// Whether the line holds a block.
    pub fn contains(&self, lba: u32) -> (yes: bool)
        ensures
            yes == self@.holds(lba as int),
    {
        self.valid && lba >= self.start && lba - self.start < self.len
    }
}

impl BlockCache {
    /// An empty cache.
    pub fn new() -> (cache: Self)
        ensures
            cache@ == CacheView::fresh(),
            cache@.wf(),
            cache@.is_empty(),
    {
        let mut lines: Vec<Line> = Vec::new();
        let mut i: usize = 0;
        while i < CACHE_LINES + 1
            invariant
                i <= CACHE_LINES + 1,
                lines@.len() == i,
                forall|j: int|
                    0 <= j < i ==> (#[trigger] lines@[j])@ == CacheView::fresh().lines[j],
            decreases CACHE_LINES + 1 - i,
        {
            let data: Vec<u8> = Vec::new();
            assert(data@ =~= Seq::<u8>::empty());
            lines.push(Line { valid: false, start: 0, len: 0, last_used: 0, data });
            i += 1;
        }
        let cache = BlockCache { lines, clock: 0 };
        assert(cache@.lines =~= CacheView::fresh().lines);
        cache
    }

    /// Empties every line.
    pub fn invalidate(&mut self)
        ensures
            final(self)@ == old(self)@.invalidated(),
    {
        let ghost before = self.lines@;
        let mut i: usize = 0;
        while i < self.lines.len()
            invariant
                i <= self.lines@.len(),
                self.lines@.len() == before.len(),
                self.clock == old(self).clock,
                forall|j: int|
                    0 <= j < i ==> (#[trigger] self.lines@[j])@ == (LineView {
                        valid: false,
                        ..before[j]@
                    }),
                forall|j: int| i <= j < before.len() ==> #[trigger] self.lines@[j] == before[j],
            decreases self.lines@.len() - i,
        {
            self.lines[i].valid = false;
            i += 1;
        }
        assert(self@.lines =~= lines_view(before).map_values(
            |line: LineView| LineView { valid: false, ..line },
        ));
    }

    fn touch(&mut self, index: usize)
        requires
            index < old(self)@.lines.len(),
        ensures
            final(self)@ == old(self)@.used(index as int),
    {
        let ghost before = self@;
        self.clock = self.clock.wrapping_add(1);
        let clock: u32 = self.clock;
        self.lines[index].last_used = clock;
        assert(self@.lines =~= before.used(index as int).lines);
    }

    /// The line that holds a block, which counts as used from now on.
    pub fn find(&mut self, lba: u32) -> (index: Option<usize>)
        ensures
            ({
                let at = line_position(old(self)@.lines, lba as int);
                match index {
                    Some(index) => index == at && at < old(self)@.lines.len()
                        && old(self)@.lines[at].holds(lba as int) && final(self)@ == old(
                        self,
                    )@.used(at),
                    None => at == old(self)@.lines.len() && final(self)@ == old(self)@,
                }
            }),
    {
        let ghost lines = self@.lines;
        let mut i: usize = 0;
        while i < self.lines.len()
            invariant
                i <= self.lines@.len(),
                self@ == old(self)@,
                lines == self@.lines,
                forall|j: int| 0 <= j < i ==> !(#[trigger] lines[j]).holds(lba as int),
            decreases self.lines@.len() - i,
        {
            assert(lines[i as int] == self.lines@[i as int]@);
            if self.lines[i].contains(lba) {
                proof {
                    line_position_found(lines, lba as int, i as int);
                }
                self.touch(i);
                return Some(i);
            }
            i += 1;
        }
        proof {
            line_position_found(lines, lba as int, lines.len() as int);
        }
        None
    }

    /// The line that gives way to blocks read next.
    pub fn victim(&self, streaming: bool) -> (index: usize)
        requires
            self@.wf(),
        ensures
            index == victim_index(self@.lines, streaming),
            index <= STREAM_LINE,
    {
        if streaming {
            return STREAM_LINE;
        }
        let ghost lines = self@.lines;
        let mut index: usize = 0;
        let mut i: usize = 0;
        while i < CACHE_LINES
            invariant
                !streaming,
                self@.wf(),
                lines == self@.lines,
                i <= CACHE_LINES,
                index < CACHE_LINES,
                index == least_used(lines, i as nat),
                first_invalid(lines, i as nat) == i,
            decreases CACHE_LINES - i,
        {
            assert(lines[i as int] == self.lines@[i as int]@);
            assert(lines[index as int] == self.lines@[index as int]@);
            if !self.lines[i].valid {
                proof {
                    first_invalid_stays(lines, (i + 1) as nat, CACHE_LINES as nat);
                }
                return i;
            }
            if self.lines[i].last_used < self.lines[index].last_used {
                index = i;
            }
            i += 1;
        }
        index
    }

    /// Empties a line that is about to be refilled.
    pub fn drop_line(&mut self, index: usize)
        requires
            index < old(self)@.lines.len(),
        ensures
            final(self)@ == old(self)@.dropped(index as int),
    {
        let ghost before = self@;
        self.lines[index].valid = false;
        assert(self@.lines =~= before.dropped(index as int).lines);
    }

    /// Fills a line with blocks read from the card.
    pub fn fill(&mut self, index: usize, start: u32, len: u32, data: Vec<u8>)
        requires
            index < old(self)@.lines.len(),
        ensures
            final(self)@ == old(self)@.filled(index as int, start, len, data@),
    {
        let ghost before = self@;
        let last_used: u32 = self.lines[index].last_used;
        self.lines.set(index, Line { valid: true, start, len, last_used, data });
        assert(self@.lines =~= before.lines.update(
            index as int,
            LineView { valid: true, start, len, data: data@, ..before.lines[index as int] },
        ));
        self.touch(index);
    }

    /// Refreshes cached copies of blocks just written to the card.
    pub fn update(&mut self, lba: u32, data: &[u8])
        requires
            old(self)@.wf(),
        ensures
            final(self)@ == old(self)@.updated(lba as int, data@),
    {
        let ghost before = self@;
        let mut i: usize = 0;
        while i < CACHE_LINES
            invariant
                i <= CACHE_LINES,
                before.wf(),
                self.clock == before.clock,
                self.lines@.len() == before.lines.len(),
                forall|j: int|
                    0 <= j < i ==> (#[trigger] self.lines@[j])@ == line_updated(
                        before.lines[j],
                        lba as int,
                        data@,
                    ),
                forall|j: int|
                    i <= j < before.lines.len() ==> (#[trigger] self.lines@[j])@ == before.lines[j],
            decreases CACHE_LINES - i,
        {
            assert(self.lines@[i as int]@ == before.lines[i as int]);
            if self.lines[i].valid {
                let fresh = merged(&self.lines[i], lba, data);
                self.lines[i].data = fresh;
            }
            i += 1;
        }
        assert(self@.lines =~= before.updated(lba as int, data@).lines);
    }
}

/// The bytes of a line with those of written blocks in their place.
fn merged(line: &Line, lba: u32, data: &[u8]) -> (out: Vec<u8>)
    requires
        line.valid,
        line@.wf(),
    ensures
        out@ == line_updated(line@, lba as int, data@).data,
{
    let mut out: Vec<u8> = Vec::new();
    let start: u64 = line.start as u64 * BLOCK_LEN as u64;
    let at: u64 = lba as u64 * BLOCK_LEN as u64;
    let mut i: usize = 0;
    while i < line.data.len()
        invariant
            line@.wf(),
            line.valid,
            line.data@.len() <= 4096,
            start == line.start * BLOCK_LEN,
            at == lba * BLOCK_LEN,
            i <= line.data@.len(),
            out@.len() == i,
            forall|j: int|
                0 <= j < i ==> #[trigger] out@[j] == line_updated(
                    line@,
                    lba as int,
                    data@,
                ).data[j],
        decreases line.data@.len() - i,
    {
        let position: u64 = start + i as u64;
        if position >= at && position - at < data.len() as u64 {
            out.push(data[(position - at) as usize]);
        } else {
            out.push(line.data[i]);
        }
        i += 1;
    }
    assert(out@ =~= line_updated(line@, lba as int, data@).data);
    out
}

/// A line answers for the blocks that it holds, from its first to its last.
pub proof fn lines_answer_for_their_blocks(line: LineView, lba: int)
    ensures
        line.holds(lba) <==> line.valid && 0 <= lba - line.start < line.len,
{
}

/// A block is found in the first line that answers for it; only that line counts as used, later
/// than all others.
pub proof fn blocks_are_found(cache: CacheView, lba: int, at: int)
    requires
        0 <= at <= cache.lines.len(),
        at < cache.lines.len() ==> cache.lines[at].holds(lba),
        forall|i: int| 0 <= i < at ==> !(#[trigger] cache.lines[i]).holds(lba),
    ensures
        line_position(cache.lines, lba) == at,
        at < cache.lines.len() && cache.clock < u32::MAX ==> {
            let after = cache.used(at);
            &&& after.clock == cache.clock + 1
            &&& after.lines[at].last_used == cache.clock + 1
            &&& after.lines[at].data == cache.lines[at].data
            &&& after.lines[at].start == cache.lines[at].start
            &&& after.lines[at].len == cache.lines[at].len
            &&& after.lines[at].valid == cache.lines[at].valid
            &&& forall|i: int|
                0 <= i < cache.lines.len() && i != at ==> #[trigger] after.lines[i]
                    == cache.lines[i]
        },
{
    line_position_found(cache.lines, lba, at);
}

/// There are three lines for blocks here and there and one for streams, all empty at first and
/// after the card was away. Filling one gives it the blocks that were read, and leaves the others.
pub proof fn lines_are_filled_and_emptied(
    cache: CacheView,
    index: int,
    start: u32,
    len: u32,
    data: Seq<u8>,
    i: int,
)
    requires
        cache.lines.len() == 4,
        0 <= index < 4,
        0 <= i < 4,
    ensures
        CacheView::fresh().lines.len() == 4,
        !CacheView::fresh().lines[i].valid,
        !cache.invalidated().lines[i].valid,
        !cache.dropped(index).lines[index].valid,
        i != index ==> cache.dropped(index).lines[i] == cache.lines[i],
        ({
            let line = cache.filled(index, start, len, data).lines[index];
            line.valid && line.start == start && line.len == len && line.data == data
        }),
        i != index ==> cache.filled(index, start, len, data).lines[i] == cache.lines[i],
        victim_index(cache.lines, true) == 3,
{
}

} // verus!
