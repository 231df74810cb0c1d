//! What holds of a read as a whole, from its command to its status, while nothing
//! but the device changes the state that it shares.

use crate::msc::cache::{
    coherent, line_position, victim_index, victim_is_the_right_one, BLOCK_LEN, LINE_BLOCKS,
};
use crate::msc::device::{
    count_read, device_next, device_query, execute, next_read, on_load, on_send, packet_step,
    position_in_range, send_line, Both, DeviceQuery, DeviceReply, DeviceStage, DeviceView, ReadJob,
};
use crate::msc::laws::{
    device_after, device_keeps_coherence, execute_is_coherent, read_end, read_goes_on_without_gaps,
    read_position, read_sends_the_card,
};
use crate::msc::scsi::{
    block_range, csw_bytes, decided, CbwView, CommandStatus, Decision, Direction, Sense,
    SharedState, SCSI_READ_10,
};
use vstd::prelude::*;

verus! {

// ---------------------------------------------------------------------------
// The course of a read
// ---------------------------------------------------------------------------

/// An outcome with which a read goes on: the host takes the packet, and the card gives
/// the blocks that are on it or cannot be read.
pub open spec fn answers_read(v: DeviceView, reply: DeviceReply, card: Seq<u8>) -> bool {
    match v.stage {
        DeviceStage::Load { start, len, .. } => reply matches DeviceReply::Blocks(blocks) && (
        blocks matches Some(data) ==> data@ == card.subrange(
            start * BLOCK_LEN,
            (start + len) * BLOCK_LEN,
        )),
        DeviceStage::Send { .. } => reply == DeviceReply::Sent(true),
        _ => false,
    }
}

/// Outcomes with which a read goes on, one after another.
pub open spec fn read_answers(v: Both, replies: Seq<DeviceReply>, card: Seq<u8>) -> bool
    decreases replies.len(),
{
    replies.len() > 0 ==> answers_read(v.device, replies[0], card) && read_answers(
        device_next(v, replies[0]),
        replies.skip(1),
        card,
    )
}

/// What is sent to the host of the blocks.
pub open spec fn delivered(v: Both, replies: Seq<DeviceReply>) -> Seq<u8>
    decreases replies.len(),
{
    if replies.len() == 0 {
        Seq::empty()
    } else {
        let packet = match (v.device.stage, device_query(v.device)) {
            (DeviceStage::Send { .. }, DeviceQuery::WritePacket(packet)) => packet,
            _ => Seq::empty(),
        };
        packet + delivered(device_next(v, replies[0]), replies.skip(1))
    }
}

/// The card could not give some blocks.
pub open spec fn load_fails(v: Both, replies: Seq<DeviceReply>) -> bool
    decreases replies.len(),
{
    &&& replies.len() > 0
    &&& {
        ||| v.device.stage is Load && replies[0] == DeviceReply::Blocks(None)
        ||| load_fails(device_next(v, replies[0]), replies.skip(1))
    }
}

// ---------------------------------------------------------------------------
// Its steps
// ---------------------------------------------------------------------------

/// What a read is about, and what was counted before it.
pub struct ReadPlan {
    pub tag: u32,
    pub lba: u32,
    pub end: u32,
    pub capacity: u32,
    pub counted: u32,
}

impl ReadPlan {
    /// The job stays within the plan, and the blocks before it have been counted.
    pub open spec fn covers(self, job: ReadJob, read_blocks: u32) -> bool {
        &&& job.tag == self.tag
        &&& job.end == self.end
        &&& job.capacity == self.capacity
        &&& self.lba <= job.current <= self.end
        &&& read_blocks == self.counted.wrapping_add((job.current - self.lba) as u32)
    }
}

/// A read has sent what is on the card up to some position: it goes on there, or has
/// passed with all of it sent.
pub open spec fn read_stands(v: Both, plan: ReadPlan, sent: Seq<u8>, card: Seq<u8>) -> bool {
    let read_blocks = v.shared.stats.read_blocks;
    match v.device.stage {
        DeviceStage::Load { job, .. } => {
            &&& plan.covers(job, read_blocks)
            &&& sent == card.subrange(plan.lba * BLOCK_LEN, job.current * BLOCK_LEN)
        },
        DeviceStage::Send { job, .. } => {
            &&& plan.covers(job, read_blocks)
            &&& sent == card.subrange(plan.lba * BLOCK_LEN, read_position(v.device))
        },
        DeviceStage::Status { csw } => {
            &&& csw == csw_bytes(plan.tag, 0, CommandStatus::Passed)
            &&& sent == card.subrange(plan.lba * BLOCK_LEN, plan.end * BLOCK_LEN)
            &&& read_blocks == plan.counted.wrapping_add((plan.end - plan.lba) as u32)
        },
        _ => false,
    }
}

proof fn line_is_sent(v: Both, job: ReadJob, index: int, hit: bool)
    requires
        v.device.cache.wf(),
        job.wf(),
        job.current < job.end,
        0 <= index < v.device.cache.lines.len(),
        v.device.cache.lines[index].holds(job.current as int),
        job.residue == (job.end - job.current) * BLOCK_LEN,
    ensures
        ({
            let next = send_line(v, job, index, hit);
            &&& next.device.wf()
            &&& next.shared == v.shared
            &&& next.device.stage matches DeviceStage::Send { job: going, .. } && going == job
            &&& read_position(next.device) == job.current * BLOCK_LEN
        }),
{
    let line = v.device.cache.lines[index];
    assert(line.wf());
    assert((job.current - line.start) * BLOCK_LEN <= usize::MAX);
}

proof fn next_read_stands(v: Both, job: ReadJob, plan: ReadPlan, sent: Seq<u8>, card: Seq<u8>)
    requires
        v.device.cache.wf(),
        v.shared.attached,
        job.wf(),
        job.residue == (job.end - job.current) * BLOCK_LEN,
        plan.covers(job, v.shared.stats.read_blocks),
        sent == card.subrange(plan.lba * BLOCK_LEN, job.current * BLOCK_LEN),
    ensures
        next_read(v, job).device.wf(),
        next_read(v, job).shared == v.shared,
        read_stands(next_read(v, job), plan, sent, card),
{
    let lines = v.device.cache.lines;
    position_in_range(lines, job.current as int);
    victim_is_the_right_one(lines);
    let at = line_position(lines, job.current as int);
    if job.current < job.end {
        if at < lines.len() {
            let used = v.with_cache(v.device.cache.used(at));
            assert(lines[at].wf());
            assert(used.device.cache.wf());
            line_is_sent(used, job, at, true);
        } else {
            let index = victim_index(lines, job.streaming);
            assert(v.device.cache.dropped(index).wf());
        }
    }
}

proof fn load_keeps_the_read(
    v: Both,
    reply: DeviceReply,
    plan: ReadPlan,
    sent: Seq<u8>,
    card: Seq<u8>,
)
    requires
        v.device.wf(),
        v.device.stage is Load,
        answers_read(v.device, reply, card),
        reply != DeviceReply::Blocks(None),
        plan.capacity * BLOCK_LEN <= card.len(),
        read_stands(v, plan, sent, card),
    ensures
        device_next(v, reply).device.wf(),
        device_next(v, reply).shared == v.shared,
        read_stands(device_next(v, reply), plan, sent, card),
{
    reveal(on_load);
    if let DeviceStage::Load { job, index, start, len } = v.device.stage {
        let data = (reply->Blocks_0)->0;
        let filled = v.device.cache.filled(index as int, start, len, data@);
        assert(data@.len() == len * BLOCK_LEN);
        assert(filled.wf());
        line_is_sent(v.with_cache(filled), job, index as int, false);
    }
}

#[verifier::spinoff_prover]
proof fn packet_keeps_the_read(v: Both, plan: ReadPlan, sent: Seq<u8>, card: Seq<u8>)
    requires
        v.device.wf(),
        v.shared.attached,
        v.device.stage is Send,
        coherent(v.device.cache, card),
        read_stands(v, plan, sent, card),
    ensures
        ({
            let next = device_next(v, DeviceReply::Sent(true));
            let position = read_position(v.device);
            &&& next.device.wf()
            &&& next.shared.attached
            &&& next.shared.sense == v.shared.sense
            &&& device_query(v.device) == DeviceQuery::<Seq<u8>>::WritePacket(
                card.subrange(position, position + 64),
            )
            &&& read_stands(next, plan, sent + card.subrange(position, position + 64), card)
        }),
{
    read_sends_the_card(v.device, card);
    reveal(on_send);
    if let DeviceStage::Send { job, index, from, to, sent: at, hit } = v.device.stage {
        let line = v.device.cache.lines[index as int];
        let position = read_position(v.device);
        assert(line.wf());
        packet_step(from as int, to as int, at as int);
        let more = sent + card.subrange(position, position + 64);
        assert(plan.lba * BLOCK_LEN <= position);
        assert(more =~= card.subrange(plan.lba * BLOCK_LEN, position + 64));
        let now_sent = at + 64;
        let counted = if now_sent % 512 == 0 {
            ReadJob { residue: (job.residue - BLOCK_LEN) as u32, ..job }
        } else {
            job
        };
        if now_sent >= to {
            let on = ReadJob { current: (line.start + to as int / 512) as u32, ..counted };
            let moved = ((to - from) / 512) as u32;
            let w = Both {
                shared: SharedState {
                    stats: count_read(v.shared.stats, moved, hit),
                    ..v.shared
                },
                ..v
            };
            assert(on.residue == (on.end - on.current) * BLOCK_LEN);
            assert(moved == on.current - job.current);
            next_read_stands(w, on, plan, more, card);
        }
    }
}

/// Blocks that the card cannot give fail the read: the sense says so, and the residue is
/// what was not sent.
proof fn failed_load_fails_the_read(v: Both, plan: ReadPlan, sent: Seq<u8>, card: Seq<u8>)
    requires
        v.device.wf(),
        v.device.stage is Load,
        plan.capacity * BLOCK_LEN <= card.len(),
        read_stands(v, plan, sent, card),
    ensures
        ({
            let next = device_next(v, DeviceReply::Blocks(None));
            &&& next.shared.sense == (Sense { key: 3, asc: 0x11, ascq: 0 })
            &&& next.device.stage == (DeviceStage::<Seq<u8>>::Status {
                csw: csw_bytes(
                    plan.tag,
                    ((plan.end - plan.lba) * BLOCK_LEN - sent.len()) as u32,
                    CommandStatus::Failed,
                ),
            })
            &&& sent.len() < (plan.end - plan.lba) * BLOCK_LEN
        }),
{
    reveal(on_load);
}

/// How far a read is from its status.
pub open spec fn read_left(v: DeviceView) -> int {
    match v.stage {
        DeviceStage::Load { .. } => 2 * (read_end(v) - read_position(v)) + 1,
        DeviceStage::Send { .. } => 2 * (read_end(v) - read_position(v)),
        _ => 0,
    }
}

/// Every answer brings a read nearer to its status, which it reaches.
pub proof fn read_comes_to_its_status(v: Both, reply: DeviceReply, card: Seq<u8>)
    requires
        v.device.wf(),
        v.shared.attached,
        answers_read(v.device, reply, card),
        v.device.stage matches DeviceStage::Load { start, len, .. } ==> (start + len) * BLOCK_LEN
            <= card.len(),
    ensures
        ({
            let next = device_next(v, reply).device;
            &&& 0 <= read_left(next) < read_left(v.device)
            &&& next.stage is Load || next.stage is Send || next.stage is Status
        }),
{
    match v.device.stage {
        DeviceStage::Load { job, index, start, len } => {
            reveal(on_load);
            if let DeviceReply::Blocks(Some(data)) = reply {
                let filled = v.device.cache.filled(index as int, start, len, data@);
                assert(data@.len() == len * BLOCK_LEN);
                assert(filled.wf());
                line_is_sent(v.with_cache(filled), job, index as int, false);
            }
        },
        DeviceStage::Send { from, to, sent, .. } => {
            read_goes_on_without_gaps(v);
            packet_step(from as int, to as int, sent as int);
        },
        _ => {},
    }
}

// ---------------------------------------------------------------------------
// The whole
// ---------------------------------------------------------------------------

/// A read that has its status takes no more answers.
proof fn status_ends_the_read(v: Both, replies: Seq<DeviceReply>, card: Seq<u8>)
    requires
        v.device.stage is Status,
        read_answers(v, replies, card),
    ensures
        replies.len() == 0,
        device_after(v, replies) == v,
        delivered(v, replies) == Seq::<u8>::empty(),
        !load_fails(v, replies),
{
    if replies.len() > 0 {
        assert(answers_read(v.device, replies[0], card));
    }
}

#[verifier::spinoff_prover]
proof fn read_course(
    v: Both,
    replies: Seq<DeviceReply>,
    plan: ReadPlan,
    sent: Seq<u8>,
    card: Seq<u8>,
)
    requires
        v.device.wf(),
        v.shared.attached,
        coherent(v.device.cache, card),
        plan.capacity * BLOCK_LEN <= card.len(),
        plan.end <= plan.capacity,
        read_stands(v, plan, sent, card),
        read_answers(v, replies, card),
        device_after(v, replies).device.stage is Status,
    ensures
        ({
            let end = device_after(v, replies);
            let data = sent + delivered(v, replies);
            let from = plan.lba * BLOCK_LEN;
            &&& !load_fails(v, replies) ==> {
                &&& end.device.stage == (DeviceStage::<Seq<u8>>::Status {
                    csw: csw_bytes(plan.tag, 0, CommandStatus::Passed),
                })
                &&& data == card.subrange(from, plan.end * BLOCK_LEN)
                &&& end.shared.stats.read_blocks == plan.counted.wrapping_add(
                    (plan.end - plan.lba) as u32,
                )
                &&& end.shared.sense == v.shared.sense
                &&& coherent(end.device.cache, card)
            }
            &&& load_fails(v, replies) ==> {
                &&& data.len() < (plan.end - plan.lba) * BLOCK_LEN
                &&& data == card.subrange(from, from + data.len())
                &&& end.device.stage == (DeviceStage::<Seq<u8>>::Status {
                    csw: csw_bytes(
                        plan.tag,
                        ((plan.end - plan.lba) * BLOCK_LEN - data.len()) as u32,
                        CommandStatus::Failed,
                    ),
                })
                &&& end.shared.sense == (Sense { key: 3, asc: 0x11, ascq: 0 })
            }
        }),
    decreases replies.len(),
{
    let data = sent + delivered(v, replies);
    if replies.len() == 0 {
        assert(data =~= sent);
    } else {
        let reply = replies[0];
        let next = device_next(v, reply);
        let rest = replies.skip(1);
        match v.device.stage {
            DeviceStage::Load { job, start, len, .. } => {
                assert(delivered(v, replies) =~= delivered(next, rest));
                if reply == DeviceReply::Blocks(None) {
                    failed_load_fails_the_read(v, plan, sent, card);
                    status_ends_the_read(next, rest, card);
                    assert(data =~= sent);
                } else {
                    load_keeps_the_read(v, reply, plan, sent, card);
                    device_keeps_coherence(v, reply, card);
                    read_course(next, rest, plan, sent, card);
                }
            },
            DeviceStage::Send { .. } => {
                let position = read_position(v.device);
                let packet = card.subrange(position, position + 64);
                packet_keeps_the_read(v, plan, sent, card);
                device_keeps_coherence(v, reply, card);
                read_course(next, rest, plan, sent + packet, card);
                assert(data =~= (sent + packet) + delivered(next, rest));
            },
            _ => {},
        }
    }
}

/// A READ(10) whose direction and length fit and whose blocks the card has.
pub open spec fn is_good_read(cbw: CbwView, shared: SharedState) -> bool {
    let (lba, blocks) = block_range(cbw.command);
    &&& cbw.command[0] == SCSI_READ_10
    &&& cbw.direction == Direction::In
    &&& cbw.transfer_len == blocks * BLOCK_LEN
    &&& blocks > 0
    &&& lba + blocks <= shared.usable_blocks()
}

/// A read of blocks that the card has passes exactly when the card gave all that it
/// was asked for. The host has then been sent just those blocks, in their order, each
/// counted once, and the cache agrees with the card. Where the card could not give some,
/// the read fails: the sense says so, what was sent is what comes first, and the
/// residue is the rest.
pub proof fn read_sends_its_blocks(
    v: Both,
    cbw: CbwView,
    replies: Seq<DeviceReply>,
    card: Seq<u8>,
)
    requires
        v.device.cache.wf(),
        coherent(v.device.cache, card) || v.shared.generation != v.device.cache_generation,
        is_good_read(cbw, v.shared),
        v.shared.usable_blocks() * BLOCK_LEN <= card.len(),
        read_answers(execute(v, cbw), replies, card),
        device_after(execute(v, cbw), replies).device.stage is Status,
    ensures
        ({
            let start = execute(v, cbw);
            let end = device_after(start, replies);
            let (lba, blocks) = block_range(cbw.command);
            let from = lba * BLOCK_LEN;
            let data = delivered(start, replies);
            &&& !load_fails(start, replies) ==> {
                &&& end.device.stage == (DeviceStage::<Seq<u8>>::Status {
                    csw: csw_bytes(cbw.tag, 0, CommandStatus::Passed),
                })
                &&& data == card.subrange(from, (lba + blocks) * BLOCK_LEN)
                &&& end.shared.stats.read_blocks == v.shared.stats.read_blocks.wrapping_add(blocks)
                &&& coherent(end.device.cache, card)
            }
            &&& load_fails(start, replies) ==> {
                &&& data.len() < cbw.transfer_len
                &&& data == card.subrange(from, from + data.len())
                &&& end.device.stage == (DeviceStage::<Seq<u8>>::Status {
                    csw: csw_bytes(
                        cbw.tag,
                        (cbw.transfer_len - data.len()) as u32,
                        CommandStatus::Failed,
                    ),
                })
                &&& end.shared.sense == (Sense { key: 3, asc: 0x11, ascq: 0 })
            }
        }),
{
    let (lba, blocks) = block_range(cbw.command);
    let capacity = v.shared.usable_blocks();
    assert(decided(cbw, v.shared) == (
        v.shared,
        Decision::<Seq<u8>>::Read { lba, blocks, capacity },
    ));
    execute_is_coherent(v, cbw, card);
    let fresh = if v.shared.generation != v.device.cache_generation {
        Both {
            device: DeviceView {
                cache: v.device.cache.invalidated(),
                cache_generation: v.shared.generation,
                ..v.device
            },
            ..v
        }
    } else {
        v
    };
    assert(fresh.device.cache.wf());
    let job = ReadJob {
        tag: cbw.tag,
        current: lba,
        end: (lba + blocks) as u32,
        residue: cbw.transfer_len,
        streaming: blocks > LINE_BLOCKS,
        capacity,
    };
    let plan = ReadPlan {
        tag: cbw.tag,
        lba,
        end: (lba + blocks) as u32,
        capacity,
        counted: v.shared.stats.read_blocks,
    };
    assert(execute(v, cbw) == next_read(fresh, job));
    let none = Seq::<u8>::empty();
    assert(none =~= card.subrange(lba * BLOCK_LEN, lba * BLOCK_LEN));
    next_read_stands(fresh, job, plan, none, card);
    read_course(execute(v, cbw), replies, plan, none, card);
    assert(none + delivered(execute(v, cbw), replies) =~= delivered(execute(v, cbw), replies));
}

} // verus!
