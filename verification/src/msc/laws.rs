//! What holds of the mass-storage device, whatever the host and the card do.

use crate::bytes::spliced;
use crate::msc::cache::{
    coherent, line_coherent, line_position, reading_keeps_coherence, victim_index,
    victim_is_the_right_one, writing_keeps_coherence, LineView, BLOCK_LEN, CACHE_LINES, STREAM_LINE,
};
use crate::msc::device::{
    device_next, device_query, execute, next_read, next_write, on_collect, on_command, on_discard,
    on_load, on_respond, on_send, on_store, packet_step, position_in_range, Both, DeviceQuery,
    DeviceReply, DeviceStage, DeviceView, ReadJob, WriteJob,
};
use crate::msc::scsi::{cbw_of, csw_bytes, CbwView, CommandStatus};
use vstd::prelude::*;

verus! {

/// The device and the shared state after some outcomes.
pub open spec fn device_after(v: Both, replies: Seq<DeviceReply>) -> Both
    decreases replies.len(),
{
    if replies.len() == 0 {
        v
    } else {
        device_after(device_next(v, replies[0]), replies.skip(1))
    }
}

// ---------------------------------------------------------------------------
// Reading
// ---------------------------------------------------------------------------

/// The position on the card of the next byte to be sent.
pub open spec fn read_position(v: DeviceView) -> int {
    match v.stage {
        DeviceStage::Load { job, .. } => job.current * BLOCK_LEN,
        DeviceStage::Send { index, sent, .. } => v.cache.lines[index as int].start * BLOCK_LEN
            + sent,
        _ => 0,
    }
}

/// Where the read ends.
pub open spec fn read_end(v: DeviceView) -> int {
    match v.stage {
        DeviceStage::Load { job, .. } => job.end * BLOCK_LEN,
        DeviceStage::Send { job, .. } => job.end * BLOCK_LEN,
        _ => 0,
    }
}

/// What is sent of a read is what is on the card.
pub proof fn read_sends_the_card(v: DeviceView, card: Seq<u8>)
    requires
        v.wf(),
        coherent(v.cache, card),
        v.stage is Send,
    ensures
        read_position(v) + 64 <= card.len(),
        device_query(v) == DeviceQuery::<Seq<u8>>::WritePacket(
            card.subrange(read_position(v), read_position(v) + 64),
        ),
{
    if let DeviceStage::Send { index, from, to, sent, .. } = v.stage {
        let line = v.cache.lines[index as int];
        assert(line_coherent(line, card));
        assert(line.wf());
        packet_step(from as int, to as int, sent as int);
        assert(line.data.subrange(sent as int, sent + 64) =~= card.subrange(
            read_position(v),
            read_position(v) + 64,
        ));
    }
}

/// A read is over with everything sent, or goes on at a position.
pub open spec fn read_goes_on(v: DeviceView, tag: u32, position: int, end: int) -> bool {
    ||| v.stage is Load && read_position(v) == position && read_end(v) == end
    ||| v.stage is Send && read_position(v) == position && read_end(v) == end
    ||| position == end && v.stage == (DeviceStage::<Seq<u8>>::Status {
        csw: csw_bytes(tag, 0, CommandStatus::Passed),
    })
}

proof fn next_read_goes_on(v: Both, job: ReadJob)
    requires
        v.device.cache.wf(),
        v.shared.attached,
        job.wf(),
        job.residue == (job.end - job.current) * BLOCK_LEN,
    ensures
        read_goes_on(
            next_read(v, job).device,
            job.tag,
            job.current * BLOCK_LEN,
            job.end * BLOCK_LEN,
        ),
{
    position_in_range(v.device.cache.lines, job.current as int);
    let at = line_position(v.device.cache.lines, job.current as int);
    if job.current < job.end && at < v.device.cache.lines.len() {
        let line = v.device.cache.lines[at];
        assert(line.wf());
        assert((job.current - line.start) * BLOCK_LEN <= usize::MAX);
    }
}

/// Every packet that the host takes moves a read on by its length, without a gap
/// and without a repetition, until all of it has been sent and the command has
/// passed.
pub proof fn read_goes_on_without_gaps(v: Both)
    requires
        v.device.wf(),
        v.shared.attached,
        v.device.stage is Send,
    ensures
        v.device.stage matches DeviceStage::Send { job, .. } && read_goes_on(
            device_next(v, DeviceReply::Sent(true)).device,
            job.tag,
            read_position(v.device) + 64,
            read_end(v.device),
        ),
{
    reveal(on_send);
    if let DeviceStage::Send { job, index, from, to, sent, hit } = v.device.stage {
        let line = v.device.cache.lines[index as int];
        assert(line.wf());
        packet_step(from as int, to as int, sent as int);
        let now_sent = sent + 64;
        let counted = if now_sent % 512 == 0 {
            ReadJob { residue: (job.residue - BLOCK_LEN) as u32, ..job }
        } else {
            job
        };
        if now_sent >= to {
            let on = ReadJob { current: (line.start + to as int / 512) as u32, ..counted };
            let w = Both {
                shared: crate::msc::scsi::SharedState {
                    stats: crate::msc::device::count_read(
                        v.shared.stats,
                        ((to - from) / 512) as u32,
                        hit,
                    ),
                    ..v.shared
                },
                ..v
            };
            assert(on.residue == (on.end - on.current) * BLOCK_LEN);
            next_read_goes_on(w, on);
        }
    }
}

/// Large reads leave the lines for small ones alone: what those hold stays.
pub proof fn large_reads_keep_the_small_lines(v: Both, job: ReadJob, i: int)
    requires
        v.device.cache.wf(),
        job.streaming,
        0 <= i < CACHE_LINES,
    ensures
        ({
            let before = v.device.cache.lines[i];
            let after = next_read(v, job).device.cache.lines[i];
            after == (LineView { last_used: after.last_used, ..before })
        }),
{
    position_in_range(v.device.cache.lines, job.current as int);
}

// ---------------------------------------------------------------------------
// The cache and the card
// ---------------------------------------------------------------------------

/// The card after an outcome: blocks that it took are on it.
pub open spec fn card_after(v: DeviceView, reply: DeviceReply, card: Seq<u8>) -> Seq<u8> {
    match v.stage {
        DeviceStage::Store { job, data } if reply == DeviceReply::Written(true) => spliced(
            card,
            job.current * BLOCK_LEN,
            data,
        ),
        _ => card,
    }
}

/// An outcome that a card of this content can have: blocks read are those on it,
/// and blocks lie on it. A write that fails can leave anything behind.
pub open spec fn true_to_card(v: DeviceView, reply: DeviceReply, card: Seq<u8>) -> bool {
    match v.stage {
        DeviceStage::Load { start, len, .. } => {
            &&& (start + len) * BLOCK_LEN <= card.len()
            &&& reply matches DeviceReply::Blocks(Some(data)) ==> data@ == card.subrange(
                start * BLOCK_LEN,
                (start + len) * BLOCK_LEN,
            )
        },
        DeviceStage::Store { job, data } => {
            &&& job.end * BLOCK_LEN <= card.len()
            &&& reply == DeviceReply::Written(true)
        },
        _ => true,
    }
}

proof fn next_read_is_coherent(v: Both, job: ReadJob, card: Seq<u8>)
    requires
        v.device.cache.wf(),
        coherent(v.device.cache, card),
    ensures
        coherent(next_read(v, job).device.cache, card),
{
    let lines = v.device.cache.lines;
    position_in_range(lines, job.current as int);
    victim_is_the_right_one(lines);
    let at = line_position(lines, job.current as int);
    if at < lines.len() {
        reading_keeps_coherence(v.device.cache, card, at, 0, 0);
    }
    reading_keeps_coherence(
        v.device.cache,
        card,
        victim_index(lines, job.streaming),
        0,
        0,
    );
}

proof fn next_write_is_coherent(v: Both, job: WriteJob, card: Seq<u8>)
    requires
        v.device.cache.wf(),
        coherent(v.device.cache, card),
    ensures
        coherent(next_write(v, job).device.cache, card),
{
    reading_keeps_coherence(v.device.cache, card, STREAM_LINE as int, 0, 0);
}

/// The cache never holds anything else than the card: not after reads, not after
/// writes, and not after a new card was attached.
pub proof fn device_keeps_coherence(v: Both, reply: DeviceReply, card: Seq<u8>)
    requires
        v.device.wf(),
        coherent(v.device.cache, card),
        true_to_card(v.device, reply, card),
    ensures
        coherent(device_next(v, reply).device.cache, card_after(v.device, reply, card)),
{
    match v.device.stage {
        DeviceStage::Command => {
            reveal(on_command);
            if let DeviceReply::Packet(packet) = reply {
                execute_is_coherent(v, cbw_of(packet@), card);
            }
        },
        DeviceStage::Respond { .. } => {
            reveal(on_respond);
        },
        DeviceStage::Load { job, index, start, len } => {
            reveal(on_load);
            reading_keeps_coherence(v.device.cache, card, index as int, start, len);
        },
        DeviceStage::Send { job, index, from, to, sent, hit } => {
            reveal(on_send);
            assert forall|w: Both, next: ReadJob|
                w.device == v.device implies coherent(
                #[trigger] next_read(w, next).device.cache,
                card,
            ) by {
                next_read_is_coherent(w, next, card);
            }
        },
        DeviceStage::Collect { .. } => {
            reveal(on_collect);
        },
        DeviceStage::Store { job, data } => {
            reveal(on_store);
            let new_card = card_after(v.device, reply, card);
            writing_keeps_coherence(v.device.cache, card, job.current as int, data);
            let updated = v.device.cache.updated(job.current as int, data);
            assert(updated.wf()) by {
                assert forall|i: int| 0 <= i < updated.lines.len() implies (
                #[trigger] updated.lines[i]).wf() by {
                    assert(v.device.cache.lines[i].wf());
                }
            }
            assert forall|w: Both, next: WriteJob|
                w.device.cache == updated implies coherent(
                #[trigger] next_write(w, next).device.cache,
                new_card,
            ) by {
                next_write_is_coherent(w, next, new_card);
            }
        },
        DeviceStage::Discard { .. } => {
            reveal(on_discard);
        },
        _ => {},
    }
}

pub(crate) proof fn execute_is_coherent(v: Both, cbw: CbwView, card: Seq<u8>)
    requires
        v.device.cache.wf(),
        coherent(v.device.cache, card) || v.shared.generation != v.device.cache_generation,
    ensures
        coherent(execute(v, cbw).device.cache, card),
{
    let emptied = v.device.cache.invalidated();
    assert(coherent(emptied, card));
    assert(emptied.wf());
    assert forall|w: Both, next: ReadJob|
        w.device.cache.wf() && coherent(w.device.cache, card) implies coherent(
        #[trigger] next_read(w, next).device.cache,
        card,
    ) by {
        next_read_is_coherent(w, next, card);
    }
    assert forall|w: Both, next: WriteJob|
        w.device.cache.wf() && coherent(w.device.cache, card) implies coherent(
        #[trigger] next_write(w, next).device.cache,
        card,
    ) by {
        next_write_is_coherent(w, next, card);
    }
}

/// The first command after a card was attached finds nothing of an earlier one in
/// the cache: whatever the new card holds, the cache agrees with it.
pub proof fn new_card_starts_fresh(v: Both, cbw: CbwView, card: Seq<u8>)
    requires
        v.device.cache.wf(),
        v.shared.generation != v.device.cache_generation,
    ensures
        coherent(execute(v, cbw).device.cache, card),
        execute(v, cbw).device.cache_generation == v.shared.generation,
{
    execute_is_coherent(v, cbw, card);
}

// ---------------------------------------------------------------------------
// Statuses
// ---------------------------------------------------------------------------

/// Whether a stage belongs to the command with this tag.
pub open spec fn serves(stage: DeviceStage<Seq<u8>>, command: u32) -> bool {
    match stage {
        DeviceStage::Respond { tag, .. } => tag == command,
        DeviceStage::Short { tag, .. } => tag == command,
        DeviceStage::Load { job, .. } => job.tag == command,
        DeviceStage::Send { job, .. } => job.tag == command,
        DeviceStage::Collect { job, .. } => job.tag == command,
        DeviceStage::Store { job, .. } => job.tag == command,
        DeviceStage::Discard { tag, .. } => tag == command,
        DeviceStage::Status { csw } => exists|residue: u32, status: CommandStatus|
            csw == #[trigger] csw_bytes(command, residue, status),
        _ => false,
    }
}

/// A command that was taken up stays the one that is served until its status,
/// which names it.
pub proof fn command_ends_with_its_status(v: Both, reply: DeviceReply, command: u32)
    requires
        serves(v.device.stage, command),
        !(v.device.stage is Status),
    ensures
        serves(device_next(v, reply).device.stage, command),
{
    reveal(on_respond);
    reveal(on_load);
    reveal(on_send);
    reveal(on_collect);
    reveal(on_store);
    reveal(on_discard);
}

/// A valid command is taken up.
pub proof fn command_is_taken_up(v: Both, packet: Vec<u8>)
    requires
        v.device.stage is Command,
        crate::msc::scsi::is_cbw(packet@),
    ensures
        serves(device_next(v, DeviceReply::Packet(packet)).device.stage, cbw_of(packet@).tag),
{
    reveal(on_command);
}

} // verus!
