//! The mass-storage device: it takes the host's commands one after another, moves
//! their data in packets, and ends each with a status.

use crate::bytes::copy_range;
use crate::msc::cache::{
    line_position, victim_index, BlockCache, CacheView, BLOCK_LEN, LINE_BLOCKS, STREAM_LINE,
};
use crate::msc::scsi::{
    cbw_of, csw_bytes, decided, is_cbw, make_csw, no_sense, Cbw, CbwView, CommandStatus, Decision,
    Sense, SharedState, Stats, ASC_UNRECOVERED_READ, ASC_WRITE_ERROR, SENSE_MEDIUM_ERROR,
};
use vstd::prelude::*;

verus! {

/// Blocks that are being read for the host: from `current` to `end`, of a card of
/// `capacity` blocks.
#[derive(Clone, Copy, Debug, PartialEq, Eq, Structural)]
pub struct ReadJob {
    pub tag: u32,
    pub current: u32,
    pub end: u32,
    pub residue: u32,
    pub streaming: bool,
    pub capacity: u32,
}

/// Blocks that the host is writing: from `current` to `end`.
#[derive(Clone, Copy, Debug, PartialEq, Eq, Structural)]
pub struct WriteJob {
    pub tag: u32,
    pub current: u32,
    pub end: u32,
    pub residue: u32,
}

/// What the device waits for.
#[allow(inconsistent_fields)]
pub enum DeviceStage<B> {
    /// The next command.
    Command,
    /// The endpoint from the host was disabled.
    WaitOut,
    /// A packet of a reply, of which `sent` bytes have left.
    Respond { tag: u32, transfer_len: u32, data: B, sent: usize, clears_sense: bool },
    /// The empty packet that ends a reply shorter than the host expects.
    Short { tag: u32, residue: u32, clears_sense: bool },
    /// Blocks from the card, for a cache line.
    Load { job: ReadJob, index: usize, start: u32, len: u32 },
    /// A packet out of a cache line; `sent` and `to` are positions in it.
    Send { job: ReadJob, index: usize, from: usize, to: usize, sent: usize, hit: bool },
    /// A packet of the blocks that the host writes.
    Collect { job: WriteJob, data: B, want: usize },
    /// The card, which takes these blocks.
    Store { job: WriteJob, data: B },
    /// A packet that is thrown away.
    Discard { tag: u32, length: u32, residue: u32 },
    /// The status of a command.
    Status { csw: B },
    /// The endpoint to the host was disabled.
    WaitIn,
}

impl DeviceStage<Vec<u8>> {
    pub open spec fn view(self) -> DeviceStage<Seq<u8>> {
        match self {
            DeviceStage::Command => DeviceStage::Command,
            DeviceStage::WaitOut => DeviceStage::WaitOut,
            DeviceStage::Respond { tag, transfer_len, data, sent, clears_sense } => {
                DeviceStage::Respond { tag, transfer_len, data: data@, sent, clears_sense }
            },
            DeviceStage::Short { tag, residue, clears_sense } => DeviceStage::Short {
                tag,
                residue,
                clears_sense,
            },
            DeviceStage::Load { job, index, start, len } => DeviceStage::Load {
                job,
                index,
                start,
                len,
            },
            DeviceStage::Send { job, index, from, to, sent, hit } => DeviceStage::Send {
                job,
                index,
                from,
                to,
                sent,
                hit,
            },
            DeviceStage::Collect { job, data, want } => DeviceStage::Collect {
                job,
                data: data@,
                want,
            },
            DeviceStage::Store { job, data } => DeviceStage::Store { job, data: data@ },
            DeviceStage::Discard { tag, length, residue } => DeviceStage::Discard {
                tag,
                length,
                residue,
            },
            DeviceStage::Status { csw } => DeviceStage::Status { csw: csw@ },
            DeviceStage::WaitIn => DeviceStage::WaitIn,
        }
    }
}

/// What the device asks for.
pub enum DeviceQuery<B> {
    /// A packet with a command.
    ReadCommand,
    WaitOutEnabled,
    WritePacket(B),
    WaitInEnabled,
    /// A packet of this length.
    ReadPacket(usize),
    ReadBlocks { lba: u32, count: u32 },
    WriteBlocks { lba: u32, data: B },
}

impl DeviceQuery<Vec<u8>> {
    pub open spec fn view(self) -> DeviceQuery<Seq<u8>> {
        match self {
            DeviceQuery::ReadCommand => DeviceQuery::ReadCommand,
            DeviceQuery::WaitOutEnabled => DeviceQuery::WaitOutEnabled,
            DeviceQuery::WritePacket(bytes) => DeviceQuery::WritePacket(bytes@),
            DeviceQuery::WaitInEnabled => DeviceQuery::WaitInEnabled,
            DeviceQuery::ReadPacket(len) => DeviceQuery::ReadPacket(len),
            DeviceQuery::ReadBlocks { lba, count } => DeviceQuery::ReadBlocks { lba, count },
            DeviceQuery::WriteBlocks { lba, data } => DeviceQuery::WriteBlocks { lba, data: data@ },
        }
    }
}

/// What came of it.
pub enum DeviceReply {
    Packet(Vec<u8>),
    /// The endpoint is disabled.
    Disabled,
    /// The packet did not fit, or could not be read.
    Overflow,
    /// Whether the packet was sent.
    Sent(bool),
    Enabled,
    /// The blocks read from the card.
    Blocks(Option<Vec<u8>>),
    /// Whether the card took the blocks.
    Written(bool),
}

/// The device.
pub struct MscClass {
    pub cache: BlockCache,
    pub cache_generation: u32,
    pub stage: DeviceStage<Vec<u8>>,
}

/// What an [`MscClass`] holds.
#[verifier::ext_equal]
pub struct DeviceView {
    pub cache: CacheView,
    pub cache_generation: u32,
    pub stage: DeviceStage<Seq<u8>>,
}

impl View for MscClass {
    type V = DeviceView;

    open spec fn view(&self) -> DeviceView {
        DeviceView {
            cache: self.cache@,
            cache_generation: self.cache_generation,
            stage: self.stage.view(),
        }
    }
}

/// The device and the shared state.
#[verifier::ext_equal]
pub struct Both {
    pub device: DeviceView,
    pub shared: SharedState,
}

// ---------------------------------------------------------------------------
// The course of a command
// ---------------------------------------------------------------------------

impl Both {
    pub open spec fn at(self, stage: DeviceStage<Seq<u8>>) -> Both {
        Both { device: DeviceView { stage, ..self.device }, ..self }
    }

    /// The command ends with a status.
    pub open spec fn status(self, tag: u32, residue: u32, status: CommandStatus) -> Both {
        self.at(DeviceStage::Status { csw: csw_bytes(tag, residue, status) })
    }

    pub open spec fn with_cache(self, cache: CacheView) -> Both {
        Both { device: DeviceView { cache, ..self.device }, ..self }
    }
}

pub open spec fn smaller(a: int, b: int) -> int {
    if a <= b {
        a
    } else {
        b
    }
}

/// A reply has been sent to its end.
pub open spec fn responded(v: Both, tag: u32, residue: u32, clears_sense: bool) -> Both {
    Both {
        shared: if clears_sense {
            SharedState { sense: no_sense(), ..v.shared }
        } else {
            v.shared
        },
        ..v
    }.status(tag, residue, CommandStatus::Passed)
}

/// All packets of a reply have been sent: one that is shorter than the host
/// expects and ends with a full packet is followed by an empty one.
pub open spec fn packets_sent(
    v: Both,
    tag: u32,
    transfer_len: u32,
    count: int,
    clears_sense: bool,
) -> Both {
    let residue = (transfer_len - count) as u32;
    if count < transfer_len && count % 64 == 0 {
        v.at(DeviceStage::Short { tag, residue, clears_sense })
    } else {
        responded(v, tag, residue, clears_sense)
    }
}

/// A reply, cut to what the host expects, is sent.
pub open spec fn respond_with(v: Both, cbw: CbwView, data: Seq<u8>, clears_sense: bool) -> Both {
    let count = smaller(data.len() as int, cbw.transfer_len as int);
    if count == 0 {
        packets_sent(v, cbw.tag, cbw.transfer_len, 0, clears_sense)
    } else {
        v.at(
            DeviceStage::Respond {
                tag: cbw.tag,
                transfer_len: cbw.transfer_len,
                data: data.take(count),
                sent: 0,
                clears_sense,
            },
        )
    }
}

/// The blocks of a job that a line holds are sent.
pub open spec fn send_line(v: Both, job: ReadJob, index: int, hit: bool) -> Both {
    let line = v.device.cache.lines[index];
    let first = job.current - line.start;
    let last = smaller(job.end - line.start, line.len as int);
    v.at(
        DeviceStage::Send {
            job,
            index: index as usize,
            from: (first * BLOCK_LEN) as usize,
            to: (last * BLOCK_LEN) as usize,
            sent: (first * BLOCK_LEN) as usize,
            hit,
        },
    )
}

/// The card cannot be read.
pub open spec fn read_failed(v: Both, job: ReadJob) -> Both {
    Both { shared: v.shared.with_sense(SENSE_MEDIUM_ERROR, ASC_UNRECOVERED_READ), ..v }.status(
        job.tag,
        job.residue,
        CommandStatus::Failed,
    )
}

/// The next blocks of a job: from the cache, or from the card.
pub open spec fn next_read(v: Both, job: ReadJob) -> Both {
    if job.current >= job.end {
        v.status(job.tag, job.residue, CommandStatus::Passed)
    } else {
        let lines = v.device.cache.lines;
        let at = line_position(lines, job.current as int);
        if at < lines.len() {
            send_line(v.with_cache(v.device.cache.used(at)), job, at, true)
        } else {
            let index = victim_index(lines, job.streaming);
            let start = job.current - job.current % LINE_BLOCKS;
            let len = smaller(LINE_BLOCKS as int, job.capacity - start);
            let dropped = v.with_cache(v.device.cache.dropped(index));
            if v.shared.attached {
                dropped.at(
                    DeviceStage::Load {
                        job,
                        index: index as usize,
                        start: start as u32,
                        len: len as u32,
                    },
                )
            } else {
                read_failed(dropped, job)
            }
        }
    }
}

/// The next blocks of a job: collected from the host, up to one line.
pub open spec fn next_write(v: Both, job: WriteJob) -> Both {
    if job.current >= job.end {
        v.status(job.tag, job.residue, CommandStatus::Passed)
    } else {
        let count = smaller(job.end - job.current, LINE_BLOCKS as int);
        v.with_cache(v.device.cache.dropped(STREAM_LINE as int)).at(
            DeviceStage::Collect { job, data: Seq::empty(), want: (count * BLOCK_LEN) as usize },
        )
    }
}

/// The host's remaining data are thrown away before a command fails.
pub open spec fn discard(v: Both, tag: u32, length: u32, residue: u32) -> Both {
    if length == 0 {
        v.status(tag, residue, CommandStatus::Failed)
    } else {
        v.at(DeviceStage::Discard { tag, length, residue })
    }
}

/// The card did not take the blocks.
pub open spec fn write_failed(v: Both, job: WriteJob, count: int) -> Both {
    discard(
        Both { shared: v.shared.with_sense(SENSE_MEDIUM_ERROR, ASC_WRITE_ERROR), ..v },
        job.tag,
        (job.residue - count) as u32,
        job.residue,
    )
}

/// A command is carried out. What was cached in an earlier session is forgotten
/// first.
pub open spec fn execute(v: Both, cbw: CbwView) -> Both {
    let fresh = if v.shared.generation != v.device.cache_generation {
        Both {
            device: DeviceView {
                cache: v.device.cache.invalidated(),
                cache_generation: v.shared.generation,
                ..v.device
            },
            ..v
        }
    } else {
        v
    };
    let (shared, decision) = decided(cbw, fresh.shared);
    let w = Both { shared, ..fresh };
    match decision {
        Decision::Finish { residue, status } => w.status(cbw.tag, residue, status),
        Decision::Respond { data, clears_sense } => respond_with(w, cbw, data, clears_sense),
        Decision::Read { lba, blocks, capacity } => next_read(
            w,
            ReadJob {
                tag: cbw.tag,
                current: lba,
                end: (lba + blocks) as u32,
                residue: cbw.transfer_len,
                streaming: blocks > LINE_BLOCKS,
                capacity,
            },
        ),
        Decision::Write { lba, blocks } => next_write(
            w,
            WriteJob {
                tag: cbw.tag,
                current: lba,
                end: (lba + blocks) as u32,
                residue: cbw.transfer_len,
            },
        ),
        Decision::Refuse { length } => discard(w, cbw.tag, length, cbw.transfer_len),
    }
}

#[verifier::opaque]
pub open spec fn on_command(v: Both, reply: DeviceReply) -> Both {
    match reply {
        DeviceReply::Packet(packet) => if !is_cbw(packet@) {
            v
        } else if cbw_of(packet@).lun != 0 {
            v.status(cbw_of(packet@).tag, cbw_of(packet@).transfer_len, CommandStatus::Failed)
        } else {
            execute(v, cbw_of(packet@))
        },
        DeviceReply::Disabled => v.at(DeviceStage::WaitOut),
        _ => v,
    }
}

#[verifier::opaque]
pub open spec fn on_respond(
    v: Both,
    tag: u32,
    transfer_len: u32,
    data: Seq<u8>,
    sent: usize,
    clears_sense: bool,
    ok: bool,
) -> Both {
    let now_sent = smaller(sent + 64, data.len() as int);
    if !ok {
        v.status(tag, transfer_len, CommandStatus::PhaseError)
    } else if now_sent < data.len() {
        v.at(
            DeviceStage::Respond { tag, transfer_len, data, sent: now_sent as usize, clears_sense },
        )
    } else {
        packets_sent(v, tag, transfer_len, data.len() as int, clears_sense)
    }
}

#[verifier::opaque]
pub open spec fn on_load(
    v: Both,
    job: ReadJob,
    index: usize,
    start: u32,
    len: u32,
    blocks: Option<Vec<u8>>,
) -> Both {
    match blocks {
        Some(data) if data@.len() == len * BLOCK_LEN => send_line(
            v.with_cache(v.device.cache.filled(index as int, start, len, data@)),
            job,
            index as int,
            false,
        ),
        _ => read_failed(v, job),
    }
}

/// The counters after blocks were sent.
pub open spec fn count_read(stats: Stats, moved: u32, hit: bool) -> Stats {
    Stats {
        read_blocks: stats.read_blocks.wrapping_add(moved),
        cache_hit_blocks: if hit {
            stats.cache_hit_blocks.wrapping_add(moved)
        } else {
            stats.cache_hit_blocks
        },
        ..stats
    }
}

#[verifier::opaque]
pub open spec fn on_send(
    v: Both,
    job: ReadJob,
    index: usize,
    from: usize,
    to: usize,
    sent: usize,
    hit: bool,
    ok: bool,
) -> Both {
    let now_sent = sent + 64;
    if !ok {
        v.status(job.tag, job.residue, CommandStatus::PhaseError)
    } else {
        let counted = if now_sent % 512 == 0 {
            ReadJob { residue: (job.residue - BLOCK_LEN) as u32, ..job }
        } else {
            job
        };
        if now_sent < to {
            v.at(
                DeviceStage::Send {
                    job: counted,
                    index,
                    from,
                    to,
                    sent: now_sent as usize,
                    hit,
                },
            )
        } else {
            let line = v.device.cache.lines[index as int];
            next_read(
                Both {
                    shared: SharedState {
                        stats: count_read(v.shared.stats, ((to - from) / 512) as u32, hit),
                        ..v.shared
                    },
                    ..v
                },
                ReadJob { current: (line.start + to as int / 512) as u32, ..counted },
            )
        }
    }
}

#[verifier::opaque]
pub open spec fn on_collect(
    v: Both,
    job: WriteJob,
    data: Seq<u8>,
    want: usize,
    packet: Option<Seq<u8>>,
) -> Both {
    match packet {
        Some(bytes) if bytes.len() == 64 => {
            let more = data + bytes;
            if more.len() < want {
                v.at(DeviceStage::Collect { job, data: more, want })
            } else if v.shared.attached {
                v.at(DeviceStage::Store { job, data: more })
            } else {
                write_failed(v, job, more.len() as int)
            }
        },
        _ => v.status(job.tag, job.residue, CommandStatus::PhaseError),
    }
}

#[verifier::opaque]
pub open spec fn on_store(v: Both, job: WriteJob, data: Seq<u8>, ok: bool) -> Both {
    if ok {
        let count = (data.len() / 512) as u32;
        next_write(
            Both {
                shared: SharedState {
                    stats: Stats {
                        write_blocks: v.shared.stats.write_blocks.wrapping_add(count),
                        ..v.shared.stats
                    },
                    ..v.shared
                },
                ..v.with_cache(v.device.cache.updated(job.current as int, data))
            },
            WriteJob {
                current: (job.current + count) as u32,
                residue: (job.residue - data.len()) as u32,
                ..job
            },
        )
    } else {
        write_failed(v, job, data.len() as int)
    }
}

#[verifier::opaque]
pub open spec fn on_discard(
    v: Both,
    tag: u32,
    length: u32,
    residue: u32,
    packet: Option<Seq<u8>>,
) -> Both {
    let wanted = smaller(length as int, 64);
    match packet {
        Some(bytes) if bytes.len() == wanted => discard(
            v,
            tag,
            (length - wanted) as u32,
            residue,
        ),
        _ => v.status(tag, residue, CommandStatus::PhaseError),
    }
}

/// A packet that was read, if one was.
pub open spec fn packet_of(reply: DeviceReply) -> Option<Seq<u8>> {
    match reply {
        DeviceReply::Packet(packet) => Some(packet@),
        _ => None,
    }
}

/// The device and the shared state after an outcome. One of another kind than was
/// asked for counts as a failure.
pub open spec fn device_next(v: Both, reply: DeviceReply) -> Both {
    let ok = reply == DeviceReply::Sent(true);
    match v.device.stage {
        DeviceStage::Command => on_command(v, reply),
        DeviceStage::WaitOut | DeviceStage::WaitIn => v.at(DeviceStage::Command),
        DeviceStage::Respond { tag, transfer_len, data, sent, clears_sense } => on_respond(
            v,
            tag,
            transfer_len,
            data,
            sent,
            clears_sense,
            ok,
        ),
        DeviceStage::Short { tag, residue, clears_sense } => if ok {
            responded(v, tag, residue, clears_sense)
        } else {
            v.status(tag, residue, CommandStatus::PhaseError)
        },
        DeviceStage::Load { job, index, start, len } => on_load(
            v,
            job,
            index,
            start,
            len,
            match reply {
                DeviceReply::Blocks(blocks) => blocks,
                _ => None,
            },
        ),
        DeviceStage::Send { job, index, from, to, sent, hit } => on_send(
            v,
            job,
            index,
            from,
            to,
            sent,
            hit,
            ok,
        ),
        DeviceStage::Collect { job, data, want } => on_collect(
            v,
            job,
            data,
            want,
            packet_of(reply),
        ),
        DeviceStage::Store { job, data } => on_store(
            v,
            job,
            data,
            reply == DeviceReply::Written(true),
        ),
        DeviceStage::Discard { tag, length, residue } => on_discard(
            v,
            tag,
            length,
            residue,
            packet_of(reply),
        ),
        DeviceStage::Status { .. } => if ok {
            v.at(DeviceStage::Command)
        } else {
            v.at(DeviceStage::WaitIn)
        },
    }
}

/// What the device asks for.
pub open spec fn device_query(v: DeviceView) -> DeviceQuery<Seq<u8>> {
    match v.stage {
        DeviceStage::Command => DeviceQuery::ReadCommand,
        DeviceStage::WaitOut => DeviceQuery::WaitOutEnabled,
        DeviceStage::Respond { data, sent, .. } => DeviceQuery::WritePacket(
            data.subrange(sent as int, smaller(sent + 64, data.len() as int)),
        ),
        DeviceStage::Short { .. } => DeviceQuery::WritePacket(Seq::empty()),
        DeviceStage::Load { start, len, .. } => DeviceQuery::ReadBlocks { lba: start, count: len },
        DeviceStage::Send { index, sent, .. } => DeviceQuery::WritePacket(
            v.cache.lines[index as int].data.subrange(sent as int, sent + 64),
        ),
        DeviceStage::Collect { .. } => DeviceQuery::ReadPacket(64),
        DeviceStage::Store { job, data } => DeviceQuery::WriteBlocks { lba: job.current, data },
        DeviceStage::Discard { length, .. } => DeviceQuery::ReadPacket(
            smaller(length as int, 64) as usize,
        ),
        DeviceStage::Status { csw } => DeviceQuery::WritePacket(csw),
        DeviceStage::WaitIn => DeviceQuery::WaitInEnabled,
    }
}

// ---------------------------------------------------------------------------
// The invariant
// ---------------------------------------------------------------------------

impl ReadJob {
    /// The job stays on the card.
    pub open spec fn wf(self) -> bool {
        self.current <= self.end <= self.capacity && self.end - self.current <= 0xffff
    }
}

impl WriteJob {
    /// What is left to be moved is what the host has still to send.
    pub open spec fn wf(self) -> bool {
        &&& self.current <= self.end
        &&& self.end - self.current <= 0xffff
        &&& self.residue == (self.end - self.current) * BLOCK_LEN
    }
}

impl DeviceView {
    pub open spec fn wf(self) -> bool {
        &&& self.cache.wf()
        &&& match self.stage {
            DeviceStage::Respond { transfer_len, data, sent, .. } => sent < data.len()
                <= transfer_len,
            DeviceStage::Load { job, index, start, len } => {
                &&& job.wf()
                &&& index < self.cache.lines.len()
                &&& start <= job.current < start + len <= job.capacity
                &&& job.current < job.end
                &&& 0 < len <= LINE_BLOCKS
                &&& job.residue == (job.end - job.current) * BLOCK_LEN
            },
            DeviceStage::Send { job, index, from, to, sent, .. } => {
                &&& job.wf()
                &&& index < self.cache.lines.len()
                &&& self.cache.lines[index as int].valid
                &&& self.cache.lines[index as int].start * BLOCK_LEN + from == job.current
                    * BLOCK_LEN
                &&& self.cache.lines[index as int].start * BLOCK_LEN + to <= job.end * BLOCK_LEN
                &&& from <= sent < to <= self.cache.lines[index as int].data.len()
                &&& from % 512 == 0
                &&& to % 512 == 0
                &&& sent % 64 == 0
                &&& job.residue == job.end * BLOCK_LEN - (self.cache.lines[index as int].start
                    * BLOCK_LEN + sent - sent % 512)
            },
            DeviceStage::Collect { job, data, want } => {
                &&& job.wf()
                &&& job.current < job.end
                &&& want == smaller(job.end - job.current, LINE_BLOCKS as int) * BLOCK_LEN
                &&& data.len() < want
                &&& data.len() % 64 == 0
                &&& !self.cache.lines[STREAM_LINE as int].valid
            },
            DeviceStage::Store { job, data } => {
                &&& job.wf()
                &&& job.current < job.end
                &&& data.len() == smaller(job.end - job.current, LINE_BLOCKS as int) * BLOCK_LEN
                &&& !self.cache.lines[STREAM_LINE as int].valid
            },
            DeviceStage::Discard { length, .. } => length > 0,
            _ => true,
        }
    }
}

/// The device and the shared state together.
pub open spec fn both(device: DeviceView, shared: SharedState) -> Both {
    Both { device, shared }
}

pub(crate) proof fn position_in_range(lines: Seq<crate::msc::cache::LineView>, lba: int)
    ensures
        0 <= line_position(lines, lba) <= lines.len(),
        line_position(lines, lba) < lines.len() ==> lines[line_position(lines, lba)].holds(lba),
    decreases lines.len(),
{
    if lines.len() > 0 && !lines[0].holds(lba) {
        position_in_range(lines.skip(1), lba);
    }
}

/// A packet more stays within the line and completes a block at its end.
pub(crate) proof fn packet_step(from: int, to: int, sent: int)
    requires
        0 <= from <= sent < to,
        from % 512 == 0,
        to % 512 == 0,
        sent % 64 == 0,
    ensures
        sent + 64 <= to,
        (sent + 64) % 64 == 0,
        (sent + 64) % 512 == 0 ==> sent + 64 == sent - sent % 512 + 512,
        (sent + 64) % 512 != 0 ==> sent + 64 - (sent + 64) % 512 == sent - sent % 512,
        (to - from) % 512 == 0,
        to / 512 * 512 == to,
        from / 512 * 512 == from,
{
}

// ---------------------------------------------------------------------------
// The device
// ---------------------------------------------------------------------------

impl MscClass {
    /// A device that waits for its first command.
    pub fn new() -> (device: Self)
        ensures
            device@ == (DeviceView {
                cache: CacheView::fresh(),
                cache_generation: 0,
                stage: DeviceStage::Command,
            }),
            device@.wf(),
            device@.cache.is_empty(),
    {
        MscClass {
            cache: BlockCache::new(),
            cache_generation: 0,
            stage: DeviceStage::Command,
        }
    }

    fn status(&mut self, tag: u32, residue: u32, status: CommandStatus)
        ensures
            final(self)@ == (DeviceView {
                stage: DeviceStage::Status { csw: csw_bytes(tag, residue, status) },
                ..old(self)@
            }),
    {
        self.stage = DeviceStage::Status { csw: make_csw(tag, residue, status) };
    }

    fn responded(&mut self, shared: &mut SharedState, tag: u32, residue: u32, clears_sense: bool)
        ensures
            both(final(self)@, *final(shared)) == responded(
                both(old(self)@, *old(shared)),
                tag,
                residue,
                clears_sense,
            ),
    {
        if clears_sense {
            shared.sense = Sense::default();
        }
        self.status(tag, residue, CommandStatus::Passed);
    }

    fn packets_sent(
        &mut self,
        shared: &mut SharedState,
        tag: u32,
        transfer_len: u32,
        count: u32,
        clears_sense: bool,
    )
        requires
            count <= transfer_len,
        ensures
            both(final(self)@, *final(shared)) == packets_sent(
                both(old(self)@, *old(shared)),
                tag,
                transfer_len,
                count as int,
                clears_sense,
            ),
    {
        let residue: u32 = transfer_len - count;
        if count < transfer_len && count % 64 == 0 {
            self.stage = DeviceStage::Short { tag, residue, clears_sense };
        } else {
            self.responded(shared, tag, residue, clears_sense);
        }
    }

    fn respond_with(
        &mut self,
        shared: &mut SharedState,
        cbw: &Cbw,
        data: Vec<u8>,
        clears_sense: bool,
    )
        requires
            old(self)@.cache.wf(),
        ensures
            both(final(self)@, *final(shared)) == respond_with(
                both(old(self)@, *old(shared)),
                cbw@,
                data@,
                clears_sense,
            ),
            final(self)@.wf(),
    {
        let mut data = data;
        let ghost whole = data@;
        if cbw.transfer_len as u64 <= data.len() as u64 {
            data.truncate(cbw.transfer_len as usize);
        }
        assert(data@ =~= whole.take(smaller(whole.len() as int, cbw.transfer_len as int)));
        if data.len() == 0 {
            self.packets_sent(shared, cbw.tag, cbw.transfer_len, 0, clears_sense);
        } else {
            self.stage = DeviceStage::Respond {
                tag: cbw.tag,
                transfer_len: cbw.transfer_len,
                data,
                sent: 0,
                clears_sense,
            };
        }
    }

    fn send_line(&mut self, shared: &SharedState, job: ReadJob, index: usize, hit: bool)
        requires
            old(self)@.cache.wf(),
            job.wf(),
            job.current < job.end,
            index < old(self)@.cache.lines.len(),
            old(self)@.cache.lines[index as int].holds(job.current as int),
            job.residue == (job.end - job.current) * BLOCK_LEN,
        ensures
            both(final(self)@, *shared) == send_line(
                both(old(self)@, *shared),
                job,
                index as int,
                hit,
            ),
            final(self)@.wf(),
    {
        assert(self@.cache.lines[index as int] == self.cache.lines@[index as int]@);
        assert(self@.cache.lines[index as int].wf());
        let start: u32 = self.cache.lines[index].start;
        let len: u32 = self.cache.lines[index].len;
        let first: u32 = job.current - start;
        let last: u32 = if job.end - start <= len {
            job.end - start
        } else {
            len
        };
        let from: usize = first as usize * 512;
        let to: usize = last as usize * 512;
        self.stage = DeviceStage::Send { job, index, from, to, sent: from, hit };
    }

    fn read_failed(&mut self, shared: &mut SharedState, job: ReadJob)
        ensures
            both(final(self)@, *final(shared)) == read_failed(
                both(old(self)@, *old(shared)),
                job,
            ),
    {
        shared.set_sense(SENSE_MEDIUM_ERROR, ASC_UNRECOVERED_READ, 0);
        self.status(job.tag, job.residue, CommandStatus::Failed);
    }

    fn next_read(&mut self, shared: &mut SharedState, job: ReadJob)
        requires
            old(self)@.cache.wf(),
            job.wf(),
            job.residue == (job.end - job.current) * BLOCK_LEN,
        ensures
            both(final(self)@, *final(shared)) == next_read(both(old(self)@, *old(shared)), job),
            final(self)@.wf(),
    {
        if job.current >= job.end {
            self.status(job.tag, job.residue, CommandStatus::Passed);
            return ;
        }
        let ghost before = self@;
        proof {
            position_in_range(before.cache.lines, job.current as int);
        }
        match self.cache.find(job.current) {
            Some(index) => {
                assert(self@.cache.wf());
                self.send_line(shared, job, index, true);
            },
            None => {
                let index: usize = self.cache.victim(job.streaming);
                let start: u32 = job.current - job.current % LINE_BLOCKS;
                let len: u32 = if job.capacity - start < LINE_BLOCKS {
                    job.capacity - start
                } else {
                    LINE_BLOCKS
                };
                self.cache.drop_line(index);
                if shared.attached {
                    self.stage = DeviceStage::Load { job, index, start, len };
                } else {
                    self.read_failed(shared, job);
                }
            },
        }
    }

    fn next_write(&mut self, shared: &SharedState, job: WriteJob)
        requires
            old(self)@.cache.wf(),
            job.wf(),
        ensures
            both(final(self)@, *shared) == next_write(both(old(self)@, *shared), job),
            final(self)@.wf(),
    {
        if job.current >= job.end {
            self.status(job.tag, job.residue, CommandStatus::Passed);
            return ;
        }
        let count: u32 = if job.end - job.current <= LINE_BLOCKS {
            job.end - job.current
        } else {
            LINE_BLOCKS
        };
        self.cache.drop_line(STREAM_LINE);
        let data: Vec<u8> = Vec::new();
        assert(data@ =~= Seq::<u8>::empty());
        self.stage = DeviceStage::Collect { job, data, want: count as usize * 512 };
    }

    fn discard(&mut self, shared: &SharedState, tag: u32, length: u32, residue: u32)
        requires
            old(self)@.cache.wf(),
        ensures
            both(final(self)@, *shared) == discard(
                both(old(self)@, *shared),
                tag,
                length,
                residue,
            ),
            final(self)@.wf(),
    {
        if length == 0 {
            self.status(tag, residue, CommandStatus::Failed);
        } else {
            self.stage = DeviceStage::Discard { tag, length, residue };
        }
    }

    fn write_failed(&mut self, shared: &mut SharedState, job: WriteJob, count: u32)
        requires
            old(self)@.cache.wf(),
            count <= job.residue,
        ensures
            both(final(self)@, *final(shared)) == write_failed(
                both(old(self)@, *old(shared)),
                job,
                count as int,
            ),
            final(self)@.wf(),
    {
        shared.set_sense(SENSE_MEDIUM_ERROR, ASC_WRITE_ERROR, 0);
        self.discard(shared, job.tag, job.residue - count, job.residue);
    }

    fn execute(&mut self, shared: &mut SharedState, cbw: &Cbw)
        requires
            old(self)@.cache.wf(),
            cbw@.wf(),
        ensures
            both(final(self)@, *final(shared)) == execute(both(old(self)@, *old(shared)), cbw@),
            final(self)@.wf(),
    {
        if shared.generation != self.cache_generation {
            self.cache.invalidate();
            self.cache_generation = shared.generation;
        }
        match cbw.decide(shared) {
            Decision::Finish { residue, status } => self.status(cbw.tag, residue, status),
            Decision::Respond { data, clears_sense } => self.respond_with(
                shared,
                cbw,
                data,
                clears_sense,
            ),
            Decision::Read { lba, blocks, capacity } => {
                let job = ReadJob {
                    tag: cbw.tag,
                    current: lba,
                    end: lba + blocks,
                    residue: cbw.transfer_len,
                    streaming: blocks > LINE_BLOCKS,
                    capacity,
                };
                self.next_read(shared, job)
            },
            Decision::Write { lba, blocks } => {
                let job = WriteJob {
                    tag: cbw.tag,
                    current: lba,
                    end: lba + blocks,
                    residue: cbw.transfer_len,
                };
                self.next_write(shared, job)
            },
            Decision::Refuse { length } => self.discard(
                shared,
                cbw.tag,
                length,
                cbw.transfer_len,
            ),
        }
    }

    fn on_command(&mut self, shared: &mut SharedState, reply: DeviceReply)
        requires
            old(self)@.wf(),
            old(self)@.stage is Command,
        ensures
            both(final(self)@, *final(shared)) == on_command(
                both(old(self)@, *old(shared)),
                reply,
            ),
            final(self)@.wf(),
    {
        proof {
            reveal(on_command);
        }
        match reply {
            DeviceReply::Packet(packet) => match Cbw::parse(packet.as_slice()) {
                None => {},
                Some(cbw) => if cbw.lun != 0 {
                    self.status(cbw.tag, cbw.transfer_len, CommandStatus::Failed);
                } else {
                    self.execute(shared, &cbw);
                },
            },
            DeviceReply::Disabled => {
                self.stage = DeviceStage::WaitOut;
            },
            _ => {},
        }
    }

    fn on_respond(
        &mut self,
        shared: &mut SharedState,
        tag: u32,
        transfer_len: u32,
        data: Vec<u8>,
        sent: usize,
        clears_sense: bool,
        ok: bool,
    )
        requires
            old(self)@.cache.wf(),
            sent < data@.len() <= transfer_len,
        ensures
            both(final(self)@, *final(shared)) == on_respond(
                both(old(self)@, *old(shared)),
                tag,
                transfer_len,
                data@,
                sent,
                clears_sense,
                ok,
            ),
            final(self)@.wf(),
    {
        proof {
            reveal(on_respond);
        }
        if !ok {
            self.status(tag, transfer_len, CommandStatus::PhaseError);
            return ;
        }
        if data.len() - sent > 64 {
            self.stage = DeviceStage::Respond {
                tag,
                transfer_len,
                data,
                sent: sent + 64,
                clears_sense,
            };
        } else {
            self.packets_sent(shared, tag, transfer_len, data.len() as u32, clears_sense);
        }
    }

    fn on_load(
        &mut self,
        shared: &mut SharedState,
        job: ReadJob,
        index: usize,
        start: u32,
        len: u32,
        blocks: Option<Vec<u8>>,
    )
        requires
            old(self)@.wf(),
            old(self)@.stage == (DeviceStage::<Seq<u8>>::Load { job, index, start, len }),
        ensures
            both(final(self)@, *final(shared)) == on_load(
                both(old(self)@, *old(shared)),
                job,
                index,
                start,
                len,
                blocks,
            ),
            final(self)@.wf(),
    {
        proof {
            reveal(on_load);
        }
        match blocks {
            Some(data) => if data.len() == len as usize * 512 {
                self.cache.fill(index, start, len, data);
                assert(self@.cache.wf());
                self.send_line(shared, job, index, false);
            } else {
                self.read_failed(shared, job);
            },
            None => self.read_failed(shared, job),
        }
    }

    #[verifier::rlimit(60)]
    fn on_send(
        &mut self,
        shared: &mut SharedState,
        job: ReadJob,
        index: usize,
        from: usize,
        to: usize,
        sent: usize,
        hit: bool,
        ok: bool,
    )
        requires
            old(self)@.wf(),
            old(self)@.stage == (DeviceStage::<Seq<u8>>::Send { job, index, from, to, sent, hit }),
        ensures
            both(final(self)@, *final(shared)) == on_send(
                both(old(self)@, *old(shared)),
                job,
                index,
                from,
                to,
                sent,
                hit,
                ok,
            ),
            final(self)@.wf(),
    {
        proof {
            reveal(on_send);
        }
        if !ok {
            self.status(job.tag, job.residue, CommandStatus::PhaseError);
            return ;
        }
        assert(self@.cache.lines[index as int] == self.cache.lines@[index as int]@);
        assert(self@.cache.lines[index as int].wf());
        proof {
            packet_step(from as int, to as int, sent as int);
        }
        let ghost start = self@.cache.lines[index as int].start;
        let now_sent: usize = sent + 64;
        let mut job = job;
        if now_sent % 512 == 0 {
            assert(job.residue >= 512);
            job.residue -= 512;
        }
        assert(job.residue == job.end * 512 - (start * 512 + now_sent - now_sent % 512));
        if now_sent < to {
            self.stage = DeviceStage::Send { job, index, from, to, sent: now_sent, hit };
        } else {
            let moved: u32 = ((to - from) / 512) as u32;
            shared.stats.read_blocks = shared.stats.read_blocks.wrapping_add(moved);
            if hit {
                shared.stats.cache_hit_blocks = shared.stats.cache_hit_blocks.wrapping_add(moved);
            }
            job.current = self.cache.lines[index].start + (to / 512) as u32;
            assert(job.residue == (job.end - job.current) * 512);
            self.next_read(shared, job);
        }
    }

    fn on_collect(
        &mut self,
        shared: &mut SharedState,
        job: WriteJob,
        data: Vec<u8>,
        want: usize,
        packet: Option<Vec<u8>>,
    )
        requires
            old(self)@.cache.wf(),
            job.wf(),
            job.current < job.end,
            want == smaller(job.end - job.current, LINE_BLOCKS as int) * BLOCK_LEN,
            data@.len() < want,
            data@.len() % 64 == 0,
            !old(self)@.cache.lines[STREAM_LINE as int].valid,
        ensures
            both(final(self)@, *final(shared)) == on_collect(
                both(old(self)@, *old(shared)),
                job,
                data@,
                want,
                match packet {
                    Some(packet) => Some(packet@),
                    None => None,
                },
            ),
            final(self)@.wf(),
    {
        proof {
            reveal(on_collect);
        }
        match packet {
            Some(bytes) => if bytes.len() == 64 {
                let mut more = data;
                let ghost before = more@;
                more.extend_from_slice(bytes.as_slice());
                assert(more@ =~= before + bytes@);
                if more.len() < want {
                    self.stage = DeviceStage::Collect { job, data: more, want };
                } else if shared.attached {
                    self.stage = DeviceStage::Store { job, data: more };
                } else {
                    self.write_failed(shared, job, more.len() as u32);
                }
            } else {
                self.status(job.tag, job.residue, CommandStatus::PhaseError);
            },
            None => self.status(job.tag, job.residue, CommandStatus::PhaseError),
        }
    }

    fn on_store(&mut self, shared: &mut SharedState, job: WriteJob, data: Vec<u8>, ok: bool)
        requires
            old(self)@.cache.wf(),
            job.wf(),
            job.current < job.end,
            data@.len() == smaller(job.end - job.current, LINE_BLOCKS as int) * BLOCK_LEN,
        ensures
            both(final(self)@, *final(shared)) == on_store(
                both(old(self)@, *old(shared)),
                job,
                data@,
                ok,
            ),
            final(self)@.wf(),
    {
        proof {
            reveal(on_store);
        }
        let len: u32 = data.len() as u32;
        if !ok {
            self.write_failed(shared, job, len);
            return ;
        }
        let count: u32 = len / 512;
        self.cache.update(job.current, data.as_slice());
        assert(self@.cache.wf()) by {
            assert forall|i: int| 0 <= i < self@.cache.lines.len() implies (
            #[trigger] self@.cache.lines[i]).wf() by {
                assert(old(self)@.cache.lines[i].wf());
            }
        }
        shared.stats.write_blocks = shared.stats.write_blocks.wrapping_add(count);
        let mut job = job;
        job.residue -= len;
        job.current += count;
        self.next_write(shared, job);
    }

    fn on_discard(
        &mut self,
        shared: &SharedState,
        tag: u32,
        length: u32,
        residue: u32,
        packet: Option<Vec<u8>>,
    )
        requires
            old(self)@.cache.wf(),
            length > 0,
        ensures
            both(final(self)@, *shared) == on_discard(
                both(old(self)@, *shared),
                tag,
                length,
                residue,
                match packet {
                    Some(packet) => Some(packet@),
                    None => None,
                },
            ),
            final(self)@.wf(),
    {
        proof {
            reveal(on_discard);
        }
        let wanted: u32 = if length <= 64 {
            length
        } else {
            64
        };
        match packet {
            Some(bytes) => if bytes.len() == wanted as usize {
                self.discard(shared, tag, length - wanted, residue);
            } else {
                self.status(tag, residue, CommandStatus::PhaseError);
            },
            None => self.status(tag, residue, CommandStatus::PhaseError),
        }
    }

    /// What the device asks for.
    pub fn query(&self) -> (query: DeviceQuery<Vec<u8>>)
        requires
            self@.wf(),
        ensures
            query.view() == device_query(self@),
    {
        match &self.stage {
            DeviceStage::Command => DeviceQuery::ReadCommand,
            DeviceStage::WaitOut => DeviceQuery::WaitOutEnabled,
            DeviceStage::Respond { data, sent, .. } => {
                let end: usize = if data.len() - *sent <= 64 {
                    data.len()
                } else {
                    *sent + 64
                };
                DeviceQuery::WritePacket(copy_range(data.as_slice(), *sent, end))
            },
            DeviceStage::Short { .. } => {
                let empty: Vec<u8> = Vec::new();
                assert(empty@ =~= Seq::<u8>::empty());
                DeviceQuery::WritePacket(empty)
            },
            DeviceStage::Load { start, len, .. } => DeviceQuery::ReadBlocks {
                lba: *start,
                count: *len,
            },
            DeviceStage::Send { index, sent, .. } => {
                assert(self@.cache.lines[*index as int] == self.cache.lines@[*index as int]@);
                DeviceQuery::WritePacket(
                    copy_range(self.cache.lines[*index].data.as_slice(), *sent, *sent + 64),
                )
            },
            DeviceStage::Collect { .. } => DeviceQuery::ReadPacket(64),
            DeviceStage::Store { job, data } => {
                let copy = copy_range(data.as_slice(), 0, data.len());
                assert(copy@ =~= data@);
                DeviceQuery::WriteBlocks { lba: job.current, data: copy }
            },
            DeviceStage::Discard { length, .. } => {
                let wanted: usize = if *length <= 64 {
                    *length as usize
                } else {
                    64
                };
                DeviceQuery::ReadPacket(wanted)
            },
            DeviceStage::Status { csw } => {
                let copy = copy_range(csw.as_slice(), 0, csw.len());
                assert(copy@ =~= csw@);
                DeviceQuery::WritePacket(copy)
            },
            DeviceStage::WaitIn => DeviceQuery::WaitInEnabled,
        }
    }

    /// Takes the outcome of what the device asked for.
    pub fn resume(&mut self, shared: &mut SharedState, reply: DeviceReply)
        requires
            old(self)@.wf(),
        ensures
            final(self)@.wf(),
            both(final(self)@, *final(shared)) == device_next(
                both(old(self)@, *old(shared)),
                reply,
            ),
    {
        let ok = match &reply {
            DeviceReply::Sent(sent) => *sent,
            _ => false,
        };
        let mut stage: DeviceStage<Vec<u8>> = DeviceStage::Command;
        match &self.stage {
            DeviceStage::Respond { .. } | DeviceStage::Collect { .. } | DeviceStage::Store { .. } => {
                core::mem::swap(&mut stage, &mut self.stage);
                self.resume_data(shared, stage, reply, ok);
            },
            DeviceStage::Command => self.on_command(shared, reply),
            DeviceStage::WaitOut | DeviceStage::WaitIn => {
                self.stage = DeviceStage::Command;
            },
            DeviceStage::Short { tag, residue, clears_sense } => {
                let (tag, residue, clears_sense) = (*tag, *residue, *clears_sense);
                if ok {
                    self.responded(shared, tag, residue, clears_sense);
                } else {
                    self.status(tag, residue, CommandStatus::PhaseError);
                }
            },
            DeviceStage::Load { job, index, start, len } => {
                let (job, index, start, len) = (*job, *index, *start, *len);
                let blocks = match reply {
                    DeviceReply::Blocks(blocks) => blocks,
                    _ => None,
                };
                self.on_load(shared, job, index, start, len, blocks);
            },
            DeviceStage::Send { job, index, from, to, sent, hit } => {
                let (job, index, from, to, sent, hit) = (*job, *index, *from, *to, *sent, *hit);
                self.on_send(shared, job, index, from, to, sent, hit, ok);
            },
            DeviceStage::Discard { tag, length, residue } => {
                let (tag, length, residue) = (*tag, *length, *residue);
                let packet = match reply {
                    DeviceReply::Packet(packet) => Some(packet),
                    _ => None,
                };
                self.on_discard(shared, tag, length, residue, packet);
            },
            DeviceStage::Status { .. } => {
                self.stage = if ok {
                    DeviceStage::Command
                } else {
                    DeviceStage::WaitIn
                };
            },
        }
    }

    fn resume_data(
        &mut self,
        shared: &mut SharedState,
        stage: DeviceStage<Vec<u8>>,
        reply: DeviceReply,
        ok: bool,
    )
        requires
            (DeviceView { stage: stage.view(), ..old(self)@ }).wf(),
            ok == (reply == DeviceReply::Sent(true)),
            stage is Respond || stage is Collect || stage is Store,
        ensures
            final(self)@.wf(),
            both(final(self)@, *final(shared)) == device_next(
                both((DeviceView { stage: stage.view(), ..old(self)@ }), *old(shared)),
                reply,
            ),
    {
        proof {
            reveal(on_respond);
            reveal(on_collect);
            reveal(on_store);
        }
        match stage {
            DeviceStage::Respond { tag, transfer_len, data, sent, clears_sense } => self.on_respond(
                shared,
                tag,
                transfer_len,
                data,
                sent,
                clears_sense,
                ok,
            ),
            DeviceStage::Collect { job, data, want } => {
                let packet = match reply {
                    DeviceReply::Packet(packet) => Some(packet),
                    _ => None,
                };
                self.on_collect(shared, job, data, want, packet);
            },
            DeviceStage::Store { job, data } => {
                let written = match reply {
                    DeviceReply::Written(written) => written,
                    _ => false,
                };
                self.on_store(shared, job, data, written);
            },
            _ => {},
        }
    }
}

} // verus!
