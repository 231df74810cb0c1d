//! Seekable view of the first FAT partition of the raw SD card.
//!
//! 1. **Partition translation** - at mount time the MBR at block 0 is read, the
//!    first non-empty partition entry is found, and every access is shifted by the
//!    partition's starting byte offset.
//! 2. **Sub-sector read-modify-write** - bytes are written at arbitrary offsets:
//!    affected blocks are read, the byte range is patched, and the blocks are
//!    written back. Aligned runs of blocks go straight through.
//!
//! The view does no input or output: a read or a write says which blocks of the
//! card it needs next, and takes what came of it.

use crate::bytes::{copy_range, le32, read_le32, spliced};
use vstd::prelude::*;

verus! {

pub const BLOCK_LEN: usize = 512;

pub const MBR_PARTITION_TABLE: usize = 0x1be;

pub const MBR_SIGNATURE: usize = 0x1fe;

/// Blocks transferred per card command in the aligned fast path.
pub const MAX_IO_BLOCKS: u32 = 16;

/// Error type shared by every operation.
#[derive(Clone, Copy, Debug, PartialEq, Eq, Structural)]
pub enum SdBlockError {
    /// Underlying SD block transfer failed.
    Device,
    /// The MBR signature is missing, or no usable partition was found.
    NoPartition,
    /// I/O would cross the end of the partition.
    OutOfRange,
    /// A seek landed outside the partition.
    InvalidPosition,
}

impl SdBlockError {
    /// Whether the input was at fault.
    pub open spec fn blames_the_caller(self) -> bool {
        self == SdBlockError::OutOfRange || self == SdBlockError::InvalidPosition
    }

    /// What is said of the error.
    pub open spec fn text(self) -> Seq<char> {
        match self {
            SdBlockError::Device => "SD block transfer failed"@,
            SdBlockError::NoPartition => "no usable MBR partition"@,
            SdBlockError::OutOfRange => "I/O past partition end"@,
            SdBlockError::InvalidPosition => "invalid seek position"@,
        }
    }

    /// Whether the caller asked for something that cannot be.
    pub fn is_invalid_input(self) -> (yes: bool)
        ensures
            yes == self.blames_the_caller(),
    {
        match self {
            SdBlockError::OutOfRange | SdBlockError::InvalidPosition => true,
            SdBlockError::NoPartition | SdBlockError::Device => false,
        }
    }

    pub fn message(self) -> (message: &'static str)
        ensures
            message@ == self.text(),
    {
        match self {
            SdBlockError::Device => "SD block transfer failed",
            SdBlockError::NoPartition => "no usable MBR partition",
            SdBlockError::OutOfRange => "I/O past partition end",
            SdBlockError::InvalidPosition => "invalid seek position",
        }
    }
}

// ---------------------------------------------------------------------------
// Partitions
// ---------------------------------------------------------------------------

/// A run of blocks on the card.
#[derive(Clone, Copy, Debug, PartialEq, Eq, Structural)]
pub struct Partition {
    pub start: u32,
    pub length: u32,
}

/// An entry of the partition table.
pub open spec fn table_entry(mbr: Seq<u8>, index: int) -> Seq<u8> {
    mbr.subrange(MBR_PARTITION_TABLE + index * 16, MBR_PARTITION_TABLE + index * 16 + 16)
}

/// An entry that names a partition: it has a type and a length.
pub open spec fn is_partition(entry: Seq<u8>) -> bool {
    entry[4] != 0 && le32(entry.subrange(12, 16)) != 0
}

/// The partition that an entry names.
pub open spec fn partition_of(entry: Seq<u8>) -> Partition {
    Partition {
        start: le32(entry.subrange(8, 12)) as u32,
        length: le32(entry.subrange(12, 16)) as u32,
    }
}

/// The first partition among the entries from `index` on.
pub open spec fn first_partition(mbr: Seq<u8>, index: int) -> Option<Partition>
    decreases 4 - index,
{
    if index >= 4 {
        None
    } else if is_partition(table_entry(mbr, index)) {
        Some(partition_of(table_entry(mbr, index)))
    } else {
        first_partition(mbr, index + 1)
    }
}

/// The first partition of a card, by its first block.
pub open spec fn partition_found(mbr: Seq<u8>) -> Option<Partition> {
    if mbr[MBR_SIGNATURE as int] == 0x55 && mbr[MBR_SIGNATURE + 1] == 0xaa {
        first_partition(mbr, 0)
    } else {
        None
    }
}

/// Finds the first usable partition in the first block of the card.
pub fn find_partition(mbr: Option<&[u8]>) -> (result: Result<Partition, SdBlockError>)
    requires
        mbr matches Some(mbr) ==> mbr@.len() == BLOCK_LEN,
    ensures
        match mbr {
            None => result == Err::<Partition, SdBlockError>(SdBlockError::Device),
            Some(mbr) => match partition_found(mbr@) {
                Some(partition) => result == Ok::<Partition, SdBlockError>(partition),
                None => result == Err::<Partition, SdBlockError>(SdBlockError::NoPartition),
            },
        },
{
    let bytes = match mbr {
        None => {
            return Err(SdBlockError::Device);
        },
        Some(bytes) => bytes,
    };
    if bytes[MBR_SIGNATURE] != 0x55 || bytes[MBR_SIGNATURE + 1] != 0xaa {
        return Err(SdBlockError::NoPartition);
    }
    let mut index: usize = 0;
    while index < 4
        invariant
            index <= 4,
            mbr matches Some(mbr) && mbr@ == bytes@,
            bytes@.len() == BLOCK_LEN,
            partition_found(bytes@) == first_partition(bytes@, index as int),
        decreases 4 - index,
    {
        let at: usize = MBR_PARTITION_TABLE + index * 16;
        let start: u32 = read_le32(bytes, at + 8);
        let length: u32 = read_le32(bytes, at + 12);
        let ghost entry = table_entry(bytes@, index as int);
        assert(entry.subrange(8, 12) =~= bytes@.subrange(at + 8, at + 12));
        assert(entry.subrange(12, 16) =~= bytes@.subrange(at + 12, at + 16));
        if bytes[at + 4] != 0 && length != 0 {
            return Ok(Partition { start, length });
        }
        index += 1;
    }
    Err(SdBlockError::NoPartition)
}

// ---------------------------------------------------------------------------
// The view of a partition
// ---------------------------------------------------------------------------

/// Byte-seekable view of one FAT partition on the card.
#[derive(Clone, Copy, Debug, PartialEq, Eq, Structural)]
pub struct SdBlockDevice {
    /// Absolute byte offset of the partition's first sector on the card.
    pub base: u64,
    /// Partition size in bytes.
    pub size: u64,
    /// Current position relative to the partition start.
    pub pos: u64,
}

/// A position to seek.
#[derive(Clone, Copy, Debug, PartialEq, Eq, Structural)]
pub enum SeekFrom {
    Start(u64),
    End(i64),
    Current(i64),
}

/// What comes of mounting a partition of a card.
pub open spec fn mounted(partition: Partition, card_blocks: Option<u32>) -> Result<
    SdBlockDevice,
    SdBlockError,
> {
    match card_blocks {
        None => Err(SdBlockError::Device),
        Some(blocks) => if partition.start + partition.length > blocks {
            Err(SdBlockError::OutOfRange)
        } else {
            Ok(
                SdBlockDevice {
                    base: (partition.start * BLOCK_LEN) as u64,
                    size: (partition.length * BLOCK_LEN) as u64,
                    pos: 0,
                },
            )
        },
    }
}

impl SdBlockDevice {
    /// What comes of a seek.
    pub open spec fn sought(self, pos: SeekFrom) -> (Result<u64, SdBlockError>, SdBlockDevice) {
        let target = self.seek_target(pos);
        if 0 <= target <= self.size {
            (Ok(target as u64), SdBlockDevice { pos: target as u64, ..self })
        } else {
            (Err(SdBlockError::InvalidPosition), self)
        }
    }

    /// The bytes of the card that a read from here is about.
    pub open spec fn read_order(self, len: int) -> Result<ReadView, SdBlockError> {
        if len == 0 || self.pos + len <= self.size {
            Ok(ReadView { start: self.base + self.pos, len, done: Seq::empty() })
        } else {
            Err(SdBlockError::OutOfRange)
        }
    }

    /// The bytes of the card that a write from here is about.
    pub open spec fn write_order(self, data: Seq<u8>) -> Result<WriteView, SdBlockError> {
        if data.len() == 0 || self.pos + data.len() <= self.size {
            Ok(WriteView { start: self.base + self.pos, data, done: 0, before: None })
        } else {
            Err(SdBlockError::OutOfRange)
        }
    }

    /// The device behind some bytes that were read or written.
    pub open spec fn advanced(self, len: int) -> SdBlockDevice {
        SdBlockDevice { pos: (self.pos + len) as u64, ..self }
    }

    /// The partition lies on a card, and the position in the partition.
    pub open spec fn wf(self) -> bool {
        &&& self.base + self.size <= u32::MAX * BLOCK_LEN
        &&& self.pos <= self.size
    }

    /// Adopts a partition of a card of so many blocks, at its beginning.
    pub fn mount(partition: Partition, card_blocks: Option<u32>) -> (result: Result<
        Self,
        SdBlockError,
    >)
        ensures
            result == mounted(partition, card_blocks),
            result matches Ok(device) ==> device.wf(),
    {
        let blocks: u32 = match card_blocks {
            None => {
                return Err(SdBlockError::Device);
            },
            Some(blocks) => blocks,
        };
        let base: u64 = partition.start as u64 * 512;
        let size: u64 = partition.length as u64 * 512;
        if base + size > blocks as u64 * 512 {
            return Err(SdBlockError::OutOfRange);
        }
        Ok(SdBlockDevice { base, size, pos: 0 })
    }

    /// Whether so many bytes from the position on lie in the partition.
    pub fn check_range(&self, byte_len: usize) -> (result: Result<(), SdBlockError>)
        ensures
            result is Ok <==> self.pos + byte_len <= self.size,
            result matches Err(error) ==> error == SdBlockError::OutOfRange,
    {
        match self.pos.checked_add(byte_len as u64) {
            Some(end) => if end > self.size {
                Err(SdBlockError::OutOfRange)
            } else {
                Ok(())
            },
            None => Err(SdBlockError::OutOfRange),
        }
    }

    /// Where a seek leads.
    pub open spec fn seek_target(self, pos: SeekFrom) -> int {
        match pos {
            SeekFrom::Start(value) => value as int,
            SeekFrom::End(value) => self.size + value,
            SeekFrom::Current(value) => self.pos + value,
        }
    }

    /// Moves the position, unless it would leave the partition.
    pub fn seek(&mut self, pos: SeekFrom) -> (result: Result<u64, SdBlockError>)
        requires
            old(self).wf(),
        ensures
            final(self).wf(),
            (result, *final(self)) == old(self).sought(pos),
    {
        let target: i128 = match pos {
            SeekFrom::Start(value) => value as i128,
            SeekFrom::End(value) => self.size as i128 + value as i128,
            SeekFrom::Current(value) => self.pos as i128 + value as i128,
        };
        if target < 0 || target > self.size as i128 {
            return Err(SdBlockError::InvalidPosition);
        }
        self.pos = target as u64;
        Ok(self.pos)
    }

    /// Begins to read so many bytes from the position on.
    pub fn read(&self, len: usize) -> (result: Result<BlockRead, SdBlockError>)
        requires
            self.wf(),
        ensures
            match self.read_order(len as int) {
                Ok(order) => result matches Ok(read) && read@ == order && read@.wf(),
                Err(wanted) => result matches Err(error) && error == wanted,
            },
    {
        if len != 0 {
            match self.check_range(len) {
                Ok(()) => {},
                Err(error) => {
                    return Err(error);
                },
            }
        }
        let done: Vec<u8> = Vec::new();
        assert(done@ =~= Seq::<u8>::empty());
        Ok(BlockRead { start: self.base + self.pos, len, done })
    }

    /// Begins to write bytes from the position on.
    pub fn write(&self, data: Vec<u8>) -> (result: Result<BlockWrite, SdBlockError>)
        requires
            self.wf(),
        ensures
            match self.write_order(data@) {
                Ok(order) => result matches Ok(write) && write@ == order && write@.wf(),
                Err(wanted) => result matches Err(error) && error == wanted,
            },
    {
        if data.len() != 0 {
            match self.check_range(data.len()) {
                Ok(()) => {},
                Err(error) => {
                    return Err(error);
                },
            }
        }
        Ok(BlockWrite { start: self.base + self.pos, data, done: 0, before: None })
    }

    /// Moves the position past bytes that have been read or written.
    pub fn advance(&mut self, len: usize)
        requires
            old(self).wf(),
            old(self).pos + len <= old(self).size,
        ensures
            final(self).wf(),
            *final(self) == old(self).advanced(len as int),
    {
        self.pos += len as u64;
    }
}

// ---------------------------------------------------------------------------
// Reading
// ---------------------------------------------------------------------------

/// The blocks that an access of `left` bytes at an absolute position touches next:
/// an aligned run, or a single block in which it begins or ends.
pub open spec fn run_blocks(position: int, left: int) -> int {
    if position % 512 == 0 && left >= 512 {
        if left / 512 <= MAX_IO_BLOCKS {
            left / 512
        } else {
            MAX_IO_BLOCKS as int
        }
    } else {
        1
    }
}

/// The bytes of these blocks that the access is about.
pub open spec fn run_bytes(position: int, left: int) -> int {
    if position % 512 == 0 && left >= 512 {
        run_blocks(position, left) * 512
    } else if left <= 512 - position % 512 {
        left
    } else {
        512 - position % 512
    }
}

/// Bytes that are being read.
pub struct BlockRead {
    /// Absolute position on the card.
    pub start: u64,
    pub len: usize,
    pub done: Vec<u8>,
}

/// What a [`BlockRead`] holds.
#[verifier::ext_equal]
pub struct ReadView {
    pub start: int,
    pub len: int,
    pub done: Seq<u8>,
}

impl View for BlockRead {
    type V = ReadView;

    open spec fn view(&self) -> ReadView {
        ReadView { start: self.start as int, len: self.len as int, done: self.done@ }
    }
}

impl ReadView {
    pub open spec fn wf(self) -> bool {
        &&& 0 <= self.start
        &&& self.done.len() <= self.len
        &&& self.len == 0 || self.start + self.len <= u32::MAX * BLOCK_LEN
    }

    pub open spec fn position(self) -> int {
        self.start + self.done.len()
    }

    pub open spec fn left(self) -> int {
        self.len - self.done.len()
    }
}

/// A read after the blocks that were needed came, or none where they could not be read.
pub open spec fn read_next(v: ReadView, blocks: Option<Seq<u8>>) -> Option<ReadView> {
    match blocks {
        Some(data) if data.len() == run_blocks(v.position(), v.left()) * 512 => Some(
            ReadView {
                done: v.done + data.subrange(
                    v.position() % 512,
                    v.position() % 512 + run_bytes(v.position(), v.left()),
                ),
                ..v
            },
        ),
        _ => None,
    }
}

impl BlockRead {
    /// The blocks needed next: the first one and their number; `None` when
    /// everything has been read.
    pub fn query(&self) -> (query: Option<(u32, u32)>)
        requires
            self@.wf(),
        ensures
            query is None <==> self@.left() == 0,
            query matches Some((block, count)) ==> block == self@.position() / 512 && count
                == run_blocks(self@.position(), self@.left()),
    {
        let left: usize = self.len - self.done.len();
        if left == 0 {
            return None;
        }
        let position: u64 = self.start + self.done.len() as u64;
        let count: u32 = if position % 512 == 0 && left >= 512 {
            if left / 512 <= MAX_IO_BLOCKS as usize {
                (left / 512) as u32
            } else {
                MAX_IO_BLOCKS
            }
        } else {
            1
        };
        Some(((position / 512) as u32, count))
    }

    /// Takes the blocks that were needed, or that they could not be read.
    pub fn resume(&mut self, blocks: Option<&[u8]>) -> (result: Result<(), SdBlockError>)
        requires
            old(self)@.wf(),
            old(self)@.left() > 0,
        ensures
            final(self)@.wf(),
            match read_next(
                old(self)@,
                match blocks {
                    Some(data) => Some(data@),
                    None => None,
                },
            ) {
                Some(next) => result is Ok && final(self)@ == next,
                None => result == Err::<(), SdBlockError>(SdBlockError::Device) && final(self)@
                    == old(self)@,
            },
    {
        let left: usize = self.len - self.done.len();
        let position: u64 = self.start + self.done.len() as u64;
        let offset: usize = (position % 512) as usize;
        let data = match blocks {
            Some(data) => data,
            None => {
                return Err(SdBlockError::Device);
            },
        };
        let take: usize = if offset == 0 && left >= 512 {
            if left / 512 <= MAX_IO_BLOCKS as usize {
                left / 512 * 512
            } else {
                MAX_IO_BLOCKS as usize * 512
            }
        } else if left <= 512 - offset {
            left
        } else {
            512 - offset
        };
        let whole: usize = if offset == 0 && left >= 512 {
            take
        } else {
            512
        };
        if data.len() != whole {
            return Err(SdBlockError::Device);
        }
        let part = copy_range(data, offset, offset + take);
        self.done.extend_from_slice(part.as_slice());
        assert(self.done@ =~= old(self).done@ + data@.subrange(
            offset as int,
            offset + take,
        ));
        Ok(())
    }
}

/// An answer that is true to the card: the blocks that are on it, or none.
pub open spec fn read_is_true(v: ReadView, blocks: Option<Seq<u8>>, card: Seq<u8>) -> bool {
    let block = v.position() / 512;
    blocks matches Some(data) ==> data == card.subrange(
        block * 512,
        (block + run_blocks(v.position(), v.left())) * 512,
    )
}

/// What has been read is what is on the card: every answer that is true to the
/// card keeps it so, until everything has been read.
pub proof fn read_gives_the_card(v: ReadView, data: Seq<u8>, card: Seq<u8>)
    requires
        v.wf(),
        v.left() > 0,
        v.start + v.len <= card.len(),
        card.len() % 512 == 0,
        v.done == card.subrange(v.start, v.position()),
        read_is_true(v, Some(data), card),
    ensures
        read_next(v, Some(data)) matches Some(next) && {
            &&& next.wf()
            &&& next.start == v.start
            &&& next.len == v.len
            &&& next.done == card.subrange(next.start, next.position())
            &&& next.left() < v.left()
        },
{
    let position = v.position();
    let left = v.left();
    let block = position / 512;
    let count = run_blocks(position, left);
    assert(block * 512 + position % 512 == position);
    assert(position % 512 + run_bytes(position, left) <= count * 512);
    assert((block + count) * 512 <= card.len());
    assert(data.len() == count * 512);
    let next = read_next(v, Some(data))->0;
    assert(next.done =~= card.subrange(v.start, next.position()));
}

/// The course of a read over the card's answers, up to its end; none where some blocks
/// could not be read.
pub open spec fn read_after(v: ReadView, answers: Seq<Option<Seq<u8>>>) -> Option<ReadView>
    decreases answers.len(),
{
    if answers.len() == 0 || v.left() <= 0 {
        Some(v)
    } else {
        match read_next(v, answers[0]) {
            Some(next) => read_after(next, answers.skip(1)),
            None => None,
        }
    }
}

/// The answers are true to the card, one after another.
pub open spec fn reads_are_true(
    v: ReadView,
    answers: Seq<Option<Seq<u8>>>,
    card: Seq<u8>,
) -> bool
    decreases answers.len(),
{
    answers.len() > 0 && v.left() > 0 ==> {
        &&& read_is_true(v, answers[0], card)
        &&& read_next(v, answers[0]) matches Some(next) ==> reads_are_true(
            next,
            answers.skip(1),
            card,
        )
    }
}

/// A card that never fails while the read asks.
pub open spec fn always_read(v: ReadView, answers: Seq<Option<Seq<u8>>>) -> bool
    decreases answers.len(),
{
    answers.len() > 0 && v.left() > 0 ==> {
        &&& answers[0] is Some
        &&& read_next(v, answers[0]) matches Some(next) ==> always_read(next, answers.skip(1))
    }
}

proof fn read_course(v: ReadView, answers: Seq<Option<Seq<u8>>>, card: Seq<u8>)
    requires
        v.wf(),
        v.start + v.len <= card.len(),
        card.len() % 512 == 0,
        v.done == card.subrange(v.start, v.position()),
        reads_are_true(v, answers, card),
    ensures
        read_after(v, answers) is Some <==> always_read(v, answers),
        read_after(v, answers) matches Some(end) ==> {
            &&& end.wf()
            &&& end.start == v.start && end.len == v.len
            &&& end.done == card.subrange(v.start, end.position())
            &&& answers.len() >= v.left() ==> end.left() == 0
        },
    decreases answers.len(),
{
    if answers.len() > 0 && v.left() > 0 {
        if let Some(data) = answers[0] {
            read_gives_the_card(v, data, card);
            read_course(read_next(v, answers[0])->0, answers.skip(1), card);
        }
    }
}

/// A read gives the bytes that are on the card, all of them and nothing else, whatever
/// blocks they lie in, and fails exactly when the card could not give some of these. It
/// comes to its end: no read asks more often than it has bytes to read.
pub proof fn read_gives_its_bytes(v: ReadView, answers: Seq<Option<Seq<u8>>>, card: Seq<u8>)
    requires
        v.wf(),
        v.done.len() == 0,
        v.start + v.len <= card.len(),
        card.len() % 512 == 0,
        reads_are_true(v, answers, card),
    ensures
        read_after(v, answers) is Some <==> always_read(v, answers),
        read_after(v, answers) matches Some(end) ==> {
            &&& end.done == card.subrange(v.start, v.start + end.done.len())
            &&& end.left() == 0 ==> end.done == card.subrange(v.start, v.start + v.len)
            &&& answers.len() >= v.len ==> end.left() == 0
        },
{
    assert(v.done =~= card.subrange(v.start, v.start));
    read_course(v, answers, card);
}

// ---------------------------------------------------------------------------
// Writing
// ---------------------------------------------------------------------------

/// Bytes that are being written.
pub struct BlockWrite {
    /// Absolute position on the card.
    pub start: u64,
    pub data: Vec<u8>,
    /// Bytes written so far.
    pub done: usize,
    /// The block that is about to be patched.
    pub before: Option<Vec<u8>>,
}

/// What a write asks of the card.
pub enum WriteQuery {
    /// The block that is to be patched.
    Read { block: u32 },
    Write { block: u32, data: Vec<u8> },
}

/// What came of it.
pub enum WriteReply {
    Block(Option<Vec<u8>>),
    Written(bool),
}

/// What a [`BlockWrite`] holds.
#[verifier::ext_equal]
pub struct WriteView {
    pub start: int,
    pub data: Seq<u8>,
    pub done: int,
    pub before: Option<Seq<u8>>,
}

impl View for BlockWrite {
    type V = WriteView;

    open spec fn view(&self) -> WriteView {
        WriteView {
            start: self.start as int,
            data: self.data@,
            done: self.done as int,
            before: match self.before {
                Some(before) => Some(before@),
                None => None,
            },
        }
    }
}

impl WriteView {
    pub open spec fn wf(self) -> bool {
        &&& 0 <= self.start
        &&& 0 <= self.done <= self.data.len()
        &&& self.data.len() == 0 || self.start + self.data.len() <= u32::MAX * BLOCK_LEN
        &&& self.before matches Some(before) ==> before.len() == 512 && !self.is_aligned()
            && self.left() > 0
    }

    pub open spec fn position(self) -> int {
        self.start + self.done
    }

    pub open spec fn left(self) -> int {
        self.data.len() - self.done
    }

    /// The next blocks are written whole.
    pub open spec fn is_aligned(self) -> bool {
        self.position() % 512 == 0 && self.left() >= 512
    }

    /// The next question is a write: of whole blocks, or of a block that was read.
    pub open spec fn writes_next(self) -> bool {
        self.is_aligned() || self.before is Some
    }

    /// The bytes that are written next.
    pub open spec fn run(self) -> Seq<u8> {
        self.data.subrange(self.done, self.done + run_bytes(self.position(), self.left()))
    }

    /// The blocks that are written next: the bytes themselves, or the block that
    /// they are a part of with them in their place.
    pub open spec fn next_blocks(self) -> Seq<u8> {
        match self.before {
            Some(before) => spliced(before, self.position() % 512, self.run()),
            None => self.run(),
        }
    }
}

/// A write after an answer; none where the card failed, or answered another question.
pub open spec fn write_next(v: WriteView, reply: WriteReply) -> Option<WriteView> {
    match reply {
        WriteReply::Written(true) if v.writes_next() => Some(
            WriteView {
                done: v.done + run_bytes(v.position(), v.left()),
                before: None,
                ..v
            },
        ),
        WriteReply::Block(Some(block)) if !v.writes_next() && block@.len() == 512 => Some(
            WriteView { before: Some(block@), ..v },
        ),
        _ => None,
    }
}

impl BlockWrite {
    /// What is asked of the card next; `None` when everything has been written.
    pub fn query(&self) -> (query: Option<WriteQuery>)
        requires
            self@.wf(),
        ensures
            query is None <==> self@.left() == 0,
            query matches Some(WriteQuery::Read { block }) ==> !self@.writes_next() && block
                == self@.position() / 512,
            query matches Some(WriteQuery::Write { block, data }) ==> self@.writes_next() && block
                == self@.position() / 512 && data@ == self@.next_blocks(),
    {
        let left: usize = self.data.len() - self.done;
        if left == 0 {
            return None;
        }
        let position: u64 = self.start + self.done as u64;
        let offset: usize = (position % 512) as usize;
        let block: u32 = (position / 512) as u32;
        if offset == 0 && left >= 512 {
            let take: usize = if left / 512 <= MAX_IO_BLOCKS as usize {
                left / 512 * 512
            } else {
                MAX_IO_BLOCKS as usize * 512
            };
            let run = copy_range(self.data.as_slice(), self.done, self.done + take);
            return Some(WriteQuery::Write { block, data: run });
        }
        match &self.before {
            None => Some(WriteQuery::Read { block }),
            Some(before) => {
                let take: usize = if left <= 512 - offset {
                    left
                } else {
                    512 - offset
                };
                let mut patched = copy_range(before.as_slice(), 0, offset);
                let run = copy_range(self.data.as_slice(), self.done, self.done + take);
                patched.extend_from_slice(run.as_slice());
                let tail = copy_range(before.as_slice(), offset + take, 512);
                patched.extend_from_slice(tail.as_slice());
                assert(patched@ =~= self@.next_blocks());
                Some(WriteQuery::Write { block, data: patched })
            },
        }
    }

    /// Takes what came of it. An answer to another question is a failure of the
    /// card.
    pub fn resume(&mut self, reply: WriteReply) -> (result: Result<(), SdBlockError>)
        requires
            old(self)@.wf(),
            old(self)@.left() > 0,
        ensures
            final(self)@.wf(),
            match write_next(old(self)@, reply) {
                Some(next) => result is Ok && final(self)@ == next,
                None => result == Err::<(), SdBlockError>(SdBlockError::Device) && final(self)@
                    == old(self)@,
            },
    {
        let left: usize = self.data.len() - self.done;
        let position: u64 = self.start + self.done as u64;
        let offset: usize = (position % 512) as usize;
        let aligned = offset == 0 && left >= 512;
        match reply {
            WriteReply::Written(written) => {
                if !written || !(aligned || self.before.is_some()) {
                    return Err(SdBlockError::Device);
                }
                let take: usize = if aligned {
                    if left / 512 <= MAX_IO_BLOCKS as usize {
                        left / 512 * 512
                    } else {
                        MAX_IO_BLOCKS as usize * 512
                    }
                } else if left <= 512 - offset {
                    left
                } else {
                    512 - offset
                };
                self.before = None;
                self.done += take;
                Ok(())
            },
            WriteReply::Block(Some(block)) => {
                if aligned || self.before.is_some() || block.len() != 512 {
                    return Err(SdBlockError::Device);
                }
                self.before = Some(block);
                Ok(())
            },
            WriteReply::Block(None) => Err(SdBlockError::Device),
        }
    }
}

/// After every block that the card takes, it holds the bytes written so far in
/// their place, and otherwise what it held before: nothing around them changes,
/// even where only a part of a block is written.
pub proof fn write_changes_only_its_bytes(v: WriteView, card: Seq<u8>, current: Seq<u8>)
    requires
        v.wf(),
        v.left() > 0,
        v.writes_next(),
        v.start + v.data.len() <= card.len(),
        card.len() % 512 == 0,
        current == spliced(card, v.start, v.data.take(v.done)),
        v.before matches Some(before) ==> before == current.subrange(
            v.position() / 512 * 512,
            v.position() / 512 * 512 + 512,
        ),
    ensures
        spliced(current, v.position() / 512 * 512, v.next_blocks()) == spliced(
            card,
            v.start,
            v.data.take(v.done + run_bytes(v.position(), v.left())),
        ),
        v.position() / 512 * 512 + v.next_blocks().len() <= card.len(),
        0 < run_bytes(v.position(), v.left()) <= v.left(),
{
    let position = v.position();
    let block = position / 512 * 512;
    let take = run_bytes(position, v.left());
    let run = v.run();
    assert(block + position % 512 == position);
    assert(0 < take <= v.left());
    assert(run.len() == take);
    match v.before {
        Some(before) => {
            assert(position % 512 + take <= 512);
            patch_is_splice(current, block, position % 512, before, run);
        },
        None => {
            assert(block == position);
        },
    }
    splice_twice(card, v.start, v.data, v.done, take);
}

/// Writing back a block with a part of it changed changes that part.
proof fn patch_is_splice(whole: Seq<u8>, block: int, offset: int, before: Seq<u8>, run: Seq<u8>)
    requires
        0 <= block,
        block % 512 == 0,
        whole.len() % 512 == 0,
        block < whole.len(),
        before == whole.subrange(block, block + 512),
        0 <= offset,
        offset + run.len() <= 512,
    ensures
        block + 512 <= whole.len(),
        spliced(whole, block, spliced(before, offset, run)) == spliced(whole, block + offset, run),
{
    let patched = spliced(before, offset, run);
    assert(patched.len() == 512);
    assert(spliced(whole, block, patched) =~= spliced(whole, block + offset, run));
}

/// Writing one part of a text after another is writing both at once.
proof fn splice_twice(whole: Seq<u8>, at: int, data: Seq<u8>, done: int, more: int)
    requires
        0 <= at,
        0 <= done,
        0 <= more,
        done + more <= data.len(),
        at + data.len() <= whole.len(),
    ensures
        spliced(
            spliced(whole, at, data.take(done)),
            at + done,
            data.subrange(done, done + more),
        ) == spliced(whole, at, data.take(done + more)),
{
    assert(spliced(
        spliced(whole, at, data.take(done)),
        at + done,
        data.subrange(done, done + more),
    ) =~= spliced(whole, at, data.take(done + more)));
}

/// The card after an answer: blocks that it took are on it.
pub open spec fn card_after(v: WriteView, reply: WriteReply, card: Seq<u8>) -> Seq<u8> {
    if v.writes_next() && reply == WriteReply::Written(true) {
        spliced(card, v.position() / 512 * 512, v.next_blocks())
    } else {
        card
    }
}

/// An answer that is true to the card: the block that is on it, or none; and whether it
/// took the blocks.
pub open spec fn write_is_true(v: WriteView, reply: WriteReply, card: Seq<u8>) -> bool {
    let block = v.position() / 512;
    if v.writes_next() {
        reply is Written
    } else {
        reply matches WriteReply::Block(found) && (found matches Some(data) ==> data@
            == card.subrange(block * 512, block * 512 + 512))
    }
}

/// An answer by which the card did what it was asked.
pub open spec fn card_obeys(reply: WriteReply) -> bool {
    match reply {
        WriteReply::Block(block) => block is Some,
        WriteReply::Written(written) => written,
    }
}

/// The course of a write over the card's answers, up to its end, and the card then; none
/// where the card failed.
pub open spec fn write_after(v: WriteView, replies: Seq<WriteReply>, card: Seq<u8>) -> Option<
    (WriteView, Seq<u8>),
>
    decreases replies.len(),
{
    if replies.len() == 0 || v.left() <= 0 {
        Some((v, card))
    } else {
        match write_next(v, replies[0]) {
            Some(next) => write_after(next, replies.skip(1), card_after(v, replies[0], card)),
            None => None,
        }
    }
}

/// The answers are true to the card, one after another.
pub open spec fn writes_are_true(
    v: WriteView,
    replies: Seq<WriteReply>,
    card: Seq<u8>,
) -> bool
    decreases replies.len(),
{
    replies.len() > 0 && v.left() > 0 ==> {
        &&& write_is_true(v, replies[0], card)
        &&& write_next(v, replies[0]) matches Some(next) ==> writes_are_true(
            next,
            replies.skip(1),
            card_after(v, replies[0], card),
        )
    }
}

/// A card that never fails while the write asks.
pub open spec fn always_obeys(v: WriteView, replies: Seq<WriteReply>) -> bool
    decreases replies.len(),
{
    replies.len() > 0 && v.left() > 0 ==> {
        &&& card_obeys(replies[0])
        &&& write_next(v, replies[0]) matches Some(next) ==> always_obeys(next, replies.skip(1))
    }
}

/// How often a write has still to ask at most.
pub open spec fn questions_left(v: WriteView) -> int {
    if v.before is Some {
        2 * v.left() - 1
    } else {
        2 * v.left()
    }
}

proof fn write_course(v: WriteView, replies: Seq<WriteReply>, card: Seq<u8>, current: Seq<u8>)
    requires
        v.wf(),
        v.start + v.data.len() <= card.len(),
        card.len() % 512 == 0,
        current == spliced(card, v.start, v.data.take(v.done)),
        v.before matches Some(before) ==> before == current.subrange(
            v.position() / 512 * 512,
            v.position() / 512 * 512 + 512,
        ),
        writes_are_true(v, replies, current),
    ensures
        write_after(v, replies, current) is Some <==> always_obeys(v, replies),
        write_after(v, replies, current) matches Some((end, left)) ==> {
            &&& end.wf()
            &&& end.start == v.start && end.data == v.data
            &&& left == spliced(card, v.start, v.data.take(end.done))
            &&& replies.len() >= questions_left(v) ==> end.left() == 0
        },
    decreases replies.len(),
{
    if replies.len() > 0 && v.left() > 0 {
        let reply = replies[0];
        let then = card_after(v, reply, current);
        if v.writes_next() {
            write_changes_only_its_bytes(v, card, current);
            if reply == WriteReply::Written(true) {
                write_course(write_next(v, reply)->0, replies.skip(1), card, then);
            }
        } else if let WriteReply::Block(Some(data)) = reply {
            assert(v.position() / 512 * 512 + 512 <= card.len());
            assert(data@.len() == 512);
            write_course(write_next(v, reply)->0, replies.skip(1), card, then);
        }
    }
}

/// A write puts its bytes in their place on the card, all of them, and changes nothing
/// else there, whatever blocks they lie in. It fails exactly when the card failed. It
/// comes to its end: no write asks more than twice for a byte.
pub proof fn write_puts_its_bytes(v: WriteView, replies: Seq<WriteReply>, card: Seq<u8>)
    requires
        v.wf(),
        v.done == 0,
        v.before is None,
        v.start + v.data.len() <= card.len(),
        card.len() % 512 == 0,
        writes_are_true(v, replies, card),
    ensures
        write_after(v, replies, card) is Some <==> always_obeys(v, replies),
        write_after(v, replies, card) matches Some((end, left)) ==> {
            &&& left == spliced(card, v.start, v.data.take(end.done))
            &&& end.left() == 0 ==> left == spliced(card, v.start, v.data)
            &&& replies.len() >= 2 * v.data.len() ==> end.left() == 0
        },
{
    assert(card =~= spliced(card, v.start, v.data.take(0)));
    write_course(v, replies, card, card);
    if let Some((end, left)) = write_after(v, replies, card) {
        if end.left() == 0 {
            assert(v.data.take(end.done) =~= v.data);
        }
    }
}

/// A write that is finished has put all of its bytes on the card: a read at the
/// same position gives them back.
pub proof fn written_data_read_back(
    write: WriteView,
    replies: Seq<WriteReply>,
    read: ReadView,
    answers: Seq<Option<Seq<u8>>>,
    card: Seq<u8>,
)
    requires
        write.wf(),
        write.done == 0,
        write.before is None,
        write.start + write.data.len() <= card.len(),
        card.len() % 512 == 0,
        writes_are_true(write, replies, card),
        write_after(write, replies, card) matches Some((end, left)) && end.left() == 0
            && reads_are_true(read, answers, left),
        read.wf(),
        read.start == write.start,
        read.len == write.data.len(),
        read.done.len() == 0,
    ensures
        read_after(read, answers) matches Some(end) ==> end.left() == 0 ==> end.done == write.data,
{
    let left = (write_after(write, replies, card)->0).1;
    write_puts_its_bytes(write, replies, card);
    read_gives_its_bytes(read, answers, left);
    crate::bytes::written_bytes_read_back(card, write.start, write.data);
}

// ---------------------------------------------------------------------------
// Laws of partitions
// ---------------------------------------------------------------------------

/// The first used entry of the table is the partition: the four entries stand at byte 446 of
/// the first block, sixteen bytes each, with their kind at byte four, their first block at byte
/// eight and their length at byte twelve, least byte first. A block without the mark at its end
/// has no table.
pub proof fn first_used_entry_is_the_partition(mbr: Seq<u8>, used: int)
    requires
        mbr.len() == 512,
        0 <= used <= 4,
        forall|i: int|
            #![trigger mbr[450 + 16 * i]]
            0 <= i < used ==> mbr[450 + 16 * i] == 0 || (mbr[458 + 16 * i] == 0 && mbr[459 + 16 * i]
                == 0 && mbr[460 + 16 * i] == 0 && mbr[461 + 16 * i] == 0),
        used < 4 ==> mbr[450 + 16 * used] != 0 && (mbr[458 + 16 * used] != 0 || mbr[459 + 16 * used]
            != 0 || mbr[460 + 16 * used] != 0 || mbr[461 + 16 * used] != 0),
    ensures
        mbr[510] != 0x55 || mbr[511] != 0xaa ==> partition_found(mbr) is None,
        mbr[510] == 0x55 && mbr[511] == 0xaa ==> {
            &&& used == 4 ==> partition_found(mbr) is None
            &&& used < 4 ==> (partition_found(mbr) matches Some(partition) && partition.start
                == mbr[454 + 16 * used] + 256 * mbr[455 + 16 * used] + 65536 * mbr[456 + 16 * used]
                + 16777216 * mbr[457 + 16 * used] && partition.length == mbr[458 + 16 * used] + 256
                * mbr[459 + 16 * used] + 65536 * mbr[460 + 16 * used] + 16777216 * mbr[461 + 16
                * used])
        },
{
    entry_is_read(mbr, 0);
    entry_is_read(mbr, 1);
    entry_is_read(mbr, 2);
    entry_is_read(mbr, 3);
    assert(0 < used ==> !is_partition(table_entry(mbr, 0))) by {
        let kind = mbr[450 + 16 * 0int];
    }
    assert(1 < used ==> !is_partition(table_entry(mbr, 1))) by {
        let kind = mbr[450 + 16 * 1int];
    }
    assert(2 < used ==> !is_partition(table_entry(mbr, 2))) by {
        let kind = mbr[450 + 16 * 2int];
    }
    assert(3 < used ==> !is_partition(table_entry(mbr, 3))) by {
        let kind = mbr[450 + 16 * 3int];
    }
    reveal_with_fuel(first_partition, 6);
    assert(used == 0 || used == 1 || used == 2 || used == 3 || used == 4);
}

/// The bytes of an entry of the table.
proof fn entry_is_read(mbr: Seq<u8>, index: int)
    requires
        mbr.len() == 512,
        0 <= index < 4,
    ensures
        ({
            let entry = table_entry(mbr, index);
            let at = 446 + 16 * index;
            &&& is_partition(entry) <==> mbr[at + 4] != 0 && !(mbr[at + 12] == 0 && mbr[at + 13]
                == 0 && mbr[at + 14] == 0 && mbr[at + 15] == 0)
            &&& partition_of(entry).start == mbr[at + 8] + 256 * mbr[at + 9] + 65536 * mbr[at + 10]
                + 16777216 * mbr[at + 11]
            &&& partition_of(entry).length == mbr[at + 12] + 256 * mbr[at + 13] + 65536 * mbr[at
                + 14] + 16777216 * mbr[at + 15]
        }),
{
    let entry = table_entry(mbr, index);
    let at = 446 + 16 * index;
    assert(entry[4] == mbr[at + 4]);
    assert(entry.subrange(8, 12) =~= mbr.subrange(at + 8, at + 12));
    assert(entry.subrange(12, 16) =~= mbr.subrange(at + 12, at + 16));
    crate::bytes::bytes_are_weighed(entry.subrange(8, 12));
    crate::bytes::bytes_are_weighed(entry.subrange(12, 16));
}

/// A mounted partition begins and ends where the table says, in bytes of the card; it must lie
/// on the card.
pub proof fn mounted_device_is_the_partition(partition: Partition, blocks: u32)
    ensures
        mounted(partition, None) == Err::<SdBlockDevice, SdBlockError>(SdBlockError::Device),
        partition.start + partition.length > blocks ==> mounted(partition, Some(blocks)) == Err::<
            SdBlockDevice,
            SdBlockError,
        >(SdBlockError::OutOfRange),
        partition.start + partition.length <= blocks ==> (mounted(partition, Some(blocks)) matches Ok(
            device,
        ) && device.base == 512 * partition.start && device.size == 512 * partition.length
            && device.pos == 0),
{
}

/// A seek goes to the byte that it names, counted from the start, the end or where the device
/// is, and nowhere if that is not on the partition.
pub proof fn seeks_go_where_they_say(device: SdBlockDevice, value: u64, offset: i64)
    ensures
        value <= device.size ==> device.sought(SeekFrom::Start(value)) == (
            Ok::<u64, SdBlockError>(value),
            SdBlockDevice { base: device.base, size: device.size, pos: value },
        ),
        value > device.size ==> device.sought(SeekFrom::Start(value)) == (
            Err::<u64, SdBlockError>(SdBlockError::InvalidPosition),
            device,
        ),
        -device.size <= offset <= 0 ==> {
            let (result, after) = device.sought(SeekFrom::End(offset));
            &&& after.pos == device.size + offset
            &&& result == Ok::<u64, SdBlockError>(after.pos)
            &&& after.base == device.base && after.size == device.size
        },
        offset > 0 || device.size + offset < 0 ==> device.sought(SeekFrom::End(offset)) == (
            Err::<u64, SdBlockError>(SdBlockError::InvalidPosition),
            device,
        ),
        0 <= device.pos + offset <= device.size ==> {
            let (result, after) = device.sought(SeekFrom::Current(offset));
            &&& after.pos == device.pos + offset
            &&& result == Ok::<u64, SdBlockError>(after.pos)
            &&& after.base == device.base && after.size == device.size
        },
        device.pos + offset < 0 || device.pos + offset > device.size ==> device.sought(
            SeekFrom::Current(offset),
        ) == (Err::<u64, SdBlockError>(SdBlockError::InvalidPosition), device),
{
}

/// Reads and writes on a mounted partition are about the bytes of the partition from where the
/// device stands, which moves on by as many; none reaches past the partition's end.
pub proof fn orders_stay_on_the_partition(
    partition: Partition,
    blocks: u32,
    pos: u64,
    len: int,
    data: Seq<u8>,
)
    requires
        mounted(partition, Some(blocks)) is Ok,
        pos <= 512 * partition.length,
        len >= 0,
    ensures
        ({
            let device = mounted(partition, Some(blocks))->Ok_0.sought(SeekFrom::Start(pos)).1;
            &&& len > 0 && pos + len > 512 * partition.length ==> device.read_order(len) == Err::<
                ReadView,
                SdBlockError,
            >(SdBlockError::OutOfRange)
            &&& len == 0 || pos + len <= 512 * partition.length ==> (device.read_order(
                len,
            ) matches Ok(order) && order.start == 512 * partition.start + pos && order.len == len
                && order.done.len() == 0 && device.advanced(len).pos == pos + len)
            &&& data.len() > 0 && pos + data.len() > 512 * partition.length ==> device.write_order(
                data,
            ) == Err::<WriteView, SdBlockError>(SdBlockError::OutOfRange)
            &&& data.len() == 0 || pos + data.len() <= 512 * partition.length ==> (
            device.write_order(data) matches Ok(order) && order.start == 512 * partition.start + pos
                && order.data == data && order.done == 0 && order.before is None)
        }),
{
}

/// Whole blocks are transferred together, sixteen at most; a part of a block goes by itself, up
/// to the block's end.
pub proof fn runs_have_their_size(position: int, left: int)
    requires
        position >= 0,
        left > 0,
    ensures
        position % 512 == 0 && left >= 8_192 ==> run_blocks(position, left) == 16 && run_bytes(
            position,
            left,
        ) == 8_192,
        position % 512 == 0 && 512 <= left < 8_192 ==> 512 * run_blocks(position, left) <= left < 512
            * run_blocks(position, left) + 512 && run_bytes(position, left) == 512 * run_blocks(
            position,
            left,
        ),
        position % 512 != 0 || left < 512 ==> run_blocks(position, left) == 1,
        position % 512 != 0 || left < 512 ==> run_bytes(position, left) == if position % 512 + left
            <= 512 {
            left
        } else {
            512 - position % 512
        },
{
}

/// The errors, and which of them are the caller's.
pub proof fn errors_are_named(error: SdBlockError)
    ensures
        SdBlockError::Device.text() == "SD block transfer failed"@,
        SdBlockError::NoPartition.text() == "no usable MBR partition"@,
        SdBlockError::OutOfRange.text() == "I/O past partition end"@,
        SdBlockError::InvalidPosition.text() == "invalid seek position"@,
        error.blames_the_caller() <==> error != SdBlockError::Device && error
            != SdBlockError::NoPartition,
{
}

} // verus!
