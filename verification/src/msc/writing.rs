//! What holds of a write as a whole, from its command to its status, while nothing
//! but the device changes the state that it shares.

use crate::bytes::spliced;
use crate::msc::cache::{coherent, BLOCK_LEN};
use crate::msc::device::{
    device_next, device_query, execute, next_write, on_collect, on_discard, on_store, packet_of,
    smaller, Both, DeviceQuery, DeviceReply, DeviceStage, DeviceView, WriteJob,
};
use crate::msc::laws::{
    card_after, device_after, device_keeps_coherence, execute_is_coherent, read_position,
    read_sends_the_card,
};
use crate::msc::scsi::{
    block_range, csw_bytes, decided, CbwView, CommandStatus, Decision, Direction, Sense,
    SharedState, Stats, SCSI_WRITE_10,
};
use vstd::prelude::*;

verus! {

// ---------------------------------------------------------------------------
// The course of a write
// ---------------------------------------------------------------------------

/// An outcome with which a write goes on: whole packets come from the host, and the
/// card says whether it took the blocks.
pub open spec fn answers_write(v: DeviceView, reply: DeviceReply) -> bool {
    match v.stage {
        DeviceStage::Collect { .. } => packet_of(reply) matches Some(packet) && packet.len() == 64,
        DeviceStage::Store { .. } => reply is Written,
        DeviceStage::Discard { length, .. } => packet_of(reply) matches Some(packet)
            && packet.len() == smaller(length as int, 64),
        _ => false,
    }
}

/// Outcomes with which a write goes on, one after another.
pub open spec fn write_answers(v: Both, replies: Seq<DeviceReply>) -> bool
    decreases replies.len(),
{
    replies.len() > 0 ==> answers_write(v.device, replies[0]) && write_answers(
        device_next(v, replies[0]),
        replies.skip(1),
    )
}

/// The card after some outcomes: blocks that it took are on it.
pub open spec fn card_in_the_end(v: Both, replies: Seq<DeviceReply>, card: Seq<u8>) -> Seq<u8>
    decreases replies.len(),
{
    if replies.len() == 0 {
        card
    } else {
        card_in_the_end(
            device_next(v, replies[0]),
            replies.skip(1),
            card_after(v.device, replies[0], card),
        )
    }
}

/// What the host sent to be written.
pub open spec fn collected(v: Both, replies: Seq<DeviceReply>) -> Seq<u8>
    decreases replies.len(),
{
    if replies.len() == 0 {
        Seq::empty()
    } else {
        let packet = match (v.device.stage, packet_of(replies[0])) {
            (DeviceStage::Collect { .. }, Some(packet)) => packet,
            _ => Seq::empty(),
        };
        packet + collected(device_next(v, replies[0]), replies.skip(1))
    }
}

/// How many bytes the card took.
pub open spec fn stored(v: Both, replies: Seq<DeviceReply>) -> int
    decreases replies.len(),
{
    if replies.len() == 0 {
        0
    } else {
        let taken = match v.device.stage {
            DeviceStage::Store { data, .. } if replies[0] == DeviceReply::Written(true) => {
                data.len() as int
            },
            _ => 0,
        };
        taken + stored(device_next(v, replies[0]), replies.skip(1))
    }
}

/// The card did not take some blocks.
pub open spec fn store_fails(v: Both, replies: Seq<DeviceReply>) -> bool
    decreases replies.len(),
{
    &&& replies.len() > 0
    &&& {
        ||| v.device.stage is Store && replies[0] == DeviceReply::Written(false)
        ||| store_fails(device_next(v, replies[0]), replies.skip(1))
    }
}

// ---------------------------------------------------------------------------
// Its steps
// ---------------------------------------------------------------------------

/// A write of `len` bytes to the position `at` of what was `before` on the card has
/// got `came` from the host: the blocks that are complete are on the card in their
/// places, the rest is held, and the command has passed once all of it is stored.
pub open spec fn write_goes_on(
    v: DeviceView,
    tag: u32,
    at: int,
    len: int,
    came: Seq<u8>,
    before: Seq<u8>,
    card: Seq<u8>,
) -> bool {
    match v.stage {
        DeviceStage::Collect { job, data, .. } => part_held(
            job,
            data,
            tag,
            at,
            len,
            came,
            before,
            card,
        ),
        DeviceStage::Store { job, data } => part_held(job, data, tag, at, len, came, before, card),
        DeviceStage::Status { csw } => {
            &&& came.len() == len
            &&& csw == csw_bytes(tag, 0, CommandStatus::Passed)
            &&& card == spliced(before, at, came)
        },
        _ => false,
    }
}

/// The last `data` of what came is held; what came before it is on the card.
pub open spec fn part_held(
    job: WriteJob,
    data: Seq<u8>,
    tag: u32,
    at: int,
    len: int,
    came: Seq<u8>,
    before: Seq<u8>,
    card: Seq<u8>,
) -> bool {
    let done = came.len() - data.len();
    &&& job.tag == tag
    &&& done >= 0
    &&& job.current * BLOCK_LEN == at + done
    &&& job.end * BLOCK_LEN == at + len
    &&& data == came.skip(done)
    &&& card == spliced(before, at, came.take(done))
}

proof fn splices_join(before: Seq<u8>, at: int, front: Seq<u8>, back: Seq<u8>)
    requires
        0 <= at,
    ensures
        spliced(spliced(before, at, front), at + front.len(), back) == spliced(
            before,
            at,
            front + back,
        ),
{
    assert(spliced(spliced(before, at, front), at + front.len(), back) =~= spliced(
        before,
        at,
        front + back,
    ));
}

proof fn next_write_goes_on(
    v: Both,
    job: WriteJob,
    at: int,
    came: Seq<u8>,
    before: Seq<u8>,
    card: Seq<u8>,
)
    requires
        v.device.cache.wf(),
        job.wf(),
        job.current * BLOCK_LEN == at + came.len(),
        card == spliced(before, at, came),
    ensures
        next_write(v, job).device.wf(),
        next_write(v, job).shared == v.shared,
        write_goes_on(
            next_write(v, job).device,
            job.tag,
            at,
            job.end * BLOCK_LEN - at,
            came,
            before,
            card,
        ),
{
    assert(came.skip(came.len() as int) =~= Seq::<u8>::empty());
    assert(came.take(came.len() as int) =~= came);
}

/// Every packet that comes from the host goes to its place, without a gap and without
/// a repetition: it is held until its blocks are complete.
pub proof fn packets_are_collected_in_order(
    v: Both,
    reply: DeviceReply,
    tag: u32,
    at: int,
    len: int,
    came: Seq<u8>,
    before: Seq<u8>,
    card: Seq<u8>,
)
    requires
        v.device.wf(),
        v.shared.attached,
        v.device.stage is Collect,
        answers_write(v.device, reply),
        write_goes_on(v.device, tag, at, len, came, before, card),
    ensures
        device_next(v, reply).device.wf(),
        device_next(v, reply).shared == v.shared,
        write_goes_on(
            device_next(v, reply).device,
            tag,
            at,
            len,
            came + packet_of(reply)->0,
            before,
            card,
        ),
{
    reveal(on_collect);
    if let DeviceStage::Collect { job, data, want } = v.device.stage {
        let packet = packet_of(reply)->0;
        let done = came.len() - data.len();
        assert((came + packet).skip(done) =~= data + packet);
        assert((came + packet).take(done) =~= came.take(done));
    }
}

/// Blocks that are complete are handed to the card for their place; once it took
/// them the write goes on behind them, or passes where they were the last.
pub proof fn blocks_are_stored_in_order(
    v: Both,
    tag: u32,
    at: int,
    len: int,
    came: Seq<u8>,
    before: Seq<u8>,
    card: Seq<u8>,
)
    requires
        v.device.wf(),
        v.device.stage is Store,
        write_goes_on(v.device, tag, at, len, came, before, card),
        0 <= at,
    ensures
        v.device.stage matches DeviceStage::Store { job, data } && device_query(v.device) == (
        DeviceQuery::<Seq<u8>>::WriteBlocks { lba: job.current, data }),
        ({
            let next = device_next(v, DeviceReply::Written(true));
            &&& next.device.wf()
            &&& next.shared.attached == v.shared.attached
            &&& next.shared.sense == v.shared.sense
            &&& write_goes_on(
                next.device,
                tag,
                at,
                len,
                came,
                before,
                card_after(v.device, DeviceReply::Written(true), card),
            )
        }),
{
    reveal(on_store);
    if let DeviceStage::Store { job, data } = v.device.stage {
        let done = came.len() - data.len();
        let updated = v.device.cache.updated(job.current as int, data);
        assert(updated.wf()) by {
            assert forall|i: int| 0 <= i < updated.lines.len() implies (
            #[trigger] updated.lines[i]).wf() by {
                assert(v.device.cache.lines[i].wf());
            }
        }
        assert(came.take(done) + data =~= came);
        splices_join(before, at, came.take(done), data);
        let next = device_next(v, DeviceReply::Written(true));
        let count = (data.len() / 512) as u32;
        let on = WriteJob {
            current: (job.current + count) as u32,
            residue: (job.residue - data.len()) as u32,
            ..job
        };
        let w = Both {
            shared: SharedState {
                stats: Stats {
                    write_blocks: v.shared.stats.write_blocks.wrapping_add(count),
                    ..v.shared.stats
                },
                ..v.shared
            },
            ..v.with_cache(updated)
        };
        assert(next == next_write(w, on));
        assert(data.len() == count * BLOCK_LEN);
        next_write_goes_on(
            w,
            on,
            at,
            came,
            before,
            card_after(v.device, DeviceReply::Written(true), card),
        );
    }
}

/// Blocks that the card does not take fail the write: the sense says so, what the
/// host has still to send is thrown away, and the residue is what was not written.
pub proof fn failed_store_fails_the_write(
    v: Both,
    tag: u32,
    at: int,
    len: int,
    came: Seq<u8>,
    before: Seq<u8>,
    card: Seq<u8>,
)
    requires
        v.device.wf(),
        v.device.stage is Store,
        write_goes_on(v.device, tag, at, len, came, before, card),
    ensures
        ({
            let next = device_next(v, DeviceReply::Written(false));
            let residue = (len - done(v.device, came)) as u32;
            &&& next.shared.sense == (Sense { key: 3, asc: 0x0c, ascq: 0 })
            &&& next.device.stage == if came.len() == len {
                DeviceStage::<Seq<u8>>::Status {
                    csw: csw_bytes(tag, residue, CommandStatus::Failed),
                }
            } else {
                DeviceStage::<Seq<u8>>::Discard { tag, length: (len - came.len()) as u32, residue }
            }
            &&& came.len() <= len
        }),
{
    reveal(on_store);
}

/// How much of what came is on the card.
pub open spec fn done(v: DeviceView, came: Seq<u8>) -> int {
    match v.stage {
        DeviceStage::Collect { data, .. } => came.len() - data.len(),
        DeviceStage::Store { data, .. } => came.len() - data.len(),
        _ => came.len() as int,
    }
}

/// How far a write is from its status.
pub open spec fn write_left(v: DeviceView) -> int {
    match v.stage {
        DeviceStage::Collect { job, data, .. } => 2 * (job.residue - data.len()),
        DeviceStage::Store { job, data } => 2 * (job.residue - data.len()) + 1,
        DeviceStage::Discard { length, .. } => 2 * length,
        _ => 0,
    }
}

/// Every answer brings a write nearer to its status, which it reaches.
pub proof fn write_comes_to_its_status(v: Both, reply: DeviceReply)
    requires
        v.device.wf(),
        v.shared.attached,
        answers_write(v.device, reply),
    ensures
        ({
            let next = device_next(v, reply).device;
            &&& 0 <= write_left(next) < write_left(v.device)
            &&& next.stage is Collect || next.stage is Store || next.stage is Discard
                || next.stage is Status
            &&& write_left(next) == 0 <==> next.stage is Status
        }),
{
    reveal(on_collect);
    reveal(on_store);
    reveal(on_discard);
}

// ---------------------------------------------------------------------------
// The whole
// ---------------------------------------------------------------------------

proof fn discard_course(v: Both, replies: Seq<DeviceReply>, card: Seq<u8>)
    requires
        v.device.stage is Discard || v.device.stage is Status,
        write_answers(v, replies),
        device_after(v, replies).device.stage is Status,
    ensures
        device_after(v, replies).shared == v.shared,
        !store_fails(v, replies),
        stored(v, replies) == 0,
        collected(v, replies) == Seq::<u8>::empty(),
        card_in_the_end(v, replies, card) == card,
        v.device.stage is Status ==> device_after(v, replies) == v,
        v.device.stage matches DeviceStage::Discard { tag, residue, .. } ==> device_after(
            v,
            replies,
        ).device.stage == (DeviceStage::<Seq<u8>>::Status {
            csw: csw_bytes(tag, residue, CommandStatus::Failed),
        }),
    decreases replies.len(),
{
    reveal(on_discard);
    if replies.len() > 0 {
        discard_course(device_next(v, replies[0]), replies.skip(1), card);
        assert(Seq::<u8>::empty() + Seq::<u8>::empty() =~= Seq::<u8>::empty());
    }
}

#[verifier::spinoff_prover]
proof fn write_course(
    v: Both,
    replies: Seq<DeviceReply>,
    tag: u32,
    at: int,
    len: int,
    came: Seq<u8>,
    before: Seq<u8>,
    card: Seq<u8>,
)
    requires
        v.device.wf(),
        v.shared.attached,
        0 <= at,
        at + len <= before.len(),
        write_goes_on(v.device, tag, at, len, came, before, card),
        coherent(v.device.cache, card),
        write_answers(v, replies),
        device_after(v, replies).device.stage is Status,
    ensures
        ({
            let end = device_after(v, replies);
            let data = came + collected(v, replies);
            let left = card_in_the_end(v, replies, card);
            let total = done(v.device, came) + stored(v, replies);
            &&& stored(v, replies) >= 0
            &&& left == spliced(before, at, data.take(total))
            &&& total <= data.len() <= len
            &&& !store_fails(v, replies) ==> {
                &&& total == data.len() == len
                &&& end.device.stage == (DeviceStage::<Seq<u8>>::Status {
                    csw: csw_bytes(tag, 0, CommandStatus::Passed),
                })
                &&& end.shared.sense == v.shared.sense
                &&& coherent(end.device.cache, left)
            }
            &&& store_fails(v, replies) ==> {
                &&& total < len
                &&& end.device.stage == (DeviceStage::<Seq<u8>>::Status {
                    csw: csw_bytes(tag, (len - total) as u32, CommandStatus::Failed),
                })
                &&& end.shared.sense == (Sense { key: 3, asc: 0x0c, ascq: 0 })
            }
        }),
    decreases replies.len(),
{
    let data = came + collected(v, replies);
    if replies.len() == 0 {
        assert(data =~= came);
        assert(came.take(came.len() as int) =~= came);
    } else {
        let reply = replies[0];
        let next = device_next(v, reply);
        let rest = replies.skip(1);
        let card_next = card_after(v.device, reply, card);
        match v.device.stage {
            DeviceStage::Collect { .. } => {
                packets_are_collected_in_order(v, reply, tag, at, len, came, before, card);
                device_keeps_coherence(v, reply, card);
                let packet = packet_of(reply)->0;
                write_course(next, rest, tag, at, len, came + packet, before, card);
                assert(data =~= (came + packet) + collected(next, rest));
                assert(done(next.device, came + packet) == done(v.device, came)) by {
                    reveal(on_collect);
                }
            },
            DeviceStage::Store { job, data: held } => {
                assert(collected(v, replies) =~= collected(next, rest));
                if reply == DeviceReply::Written(true) {
                    blocks_are_stored_in_order(v, tag, at, len, came, before, card);
                    device_keeps_coherence(v, reply, card);
                    write_course(next, rest, tag, at, len, came, before, card_next);
                    assert(done(next.device, came) == done(v.device, came) + held.len()) by {
                        reveal(on_store);
                    }
                } else {
                    assert(reply == DeviceReply::Written(false));
                    failed_store_fails_the_write(v, tag, at, len, came, before, card);
                    discard_course(next, rest, card);
                    assert(data =~= came);
                }
            },
            _ => {},
        }
    }
}

/// A write that the card has room for, and whose data come in full, passes exactly
/// when the card took all its blocks. They are then on the card in their places before
/// the status is sent, nothing else on it has changed, and the cache agrees with it.
/// Where the card did not take some blocks, the write fails: the sense says so, the
/// residue is what was not written, and what the card took before is in its place.
pub proof fn write_passes_once_stored(
    v: Both,
    cbw: CbwView,
    replies: Seq<DeviceReply>,
    card: Seq<u8>,
)
    requires
        v.device.cache.wf(),
        coherent(v.device.cache, card) || v.shared.generation != v.device.cache_generation,
        is_good_write(cbw, v.shared),
        (block_range(cbw.command).0 + block_range(cbw.command).1) * BLOCK_LEN <= card.len(),
        write_answers(execute(v, cbw), replies),
        device_after(execute(v, cbw), replies).device.stage is Status,
    ensures
        ({
            let start = execute(v, cbw);
            let end = device_after(start, replies);
            let at = block_range(cbw.command).0 * BLOCK_LEN;
            let data = collected(start, replies);
            let left = card_in_the_end(start, replies, card);
            let taken = stored(start, replies);
            &&& !store_fails(start, replies) ==> {
                &&& data.len() == cbw.transfer_len
                &&& end.device.stage == (DeviceStage::<Seq<u8>>::Status {
                    csw: csw_bytes(cbw.tag, 0, CommandStatus::Passed),
                })
                &&& left == spliced(card, at, data)
                &&& coherent(end.device.cache, left)
            }
            &&& store_fails(start, replies) ==> {
                &&& 0 <= taken < cbw.transfer_len
                &&& end.device.stage == (DeviceStage::<Seq<u8>>::Status {
                    csw: csw_bytes(
                        cbw.tag,
                        (cbw.transfer_len - taken) as u32,
                        CommandStatus::Failed,
                    ),
                })
                &&& end.shared.sense == (Sense { key: 3, asc: 0x0c, ascq: 0 })
                &&& left.subrange(at, at + taken) == data.take(taken)
            }
        }),
{
    let start = execute(v, cbw);
    let (lba, blocks) = block_range(cbw.command);
    let at = lba * BLOCK_LEN;
    let data = collected(start, replies);
    let taken = stored(start, replies);
    write_starts(v, cbw, card);
    write_course(
        start,
        replies,
        cbw.tag,
        at,
        cbw.transfer_len as int,
        Seq::empty(),
        card,
        card,
    );
    assert(Seq::<u8>::empty() + data =~= data);
    if store_fails(start, replies) {
        assert(card_in_the_end(start, replies, card).subrange(at, at + taken) =~= data.take(taken));
    } else {
        assert(data.take(taken) =~= data);
    }
}

/// A WRITE(10) whose direction and length fit and whose blocks the card has.
pub open spec fn is_good_write(cbw: CbwView, shared: SharedState) -> bool {
    let (lba, blocks) = block_range(cbw.command);
    &&& cbw.command[0] == SCSI_WRITE_10
    &&& cbw.direction == Direction::Out
    &&& cbw.transfer_len == blocks * BLOCK_LEN
    &&& blocks > 0
    &&& lba + blocks <= shared.usable_blocks()
}

proof fn write_starts(v: Both, cbw: CbwView, card: Seq<u8>)
    requires
        v.device.cache.wf(),
        coherent(v.device.cache, card) || v.shared.generation != v.device.cache_generation,
        is_good_write(cbw, v.shared),
        (block_range(cbw.command).0 + block_range(cbw.command).1) * BLOCK_LEN <= card.len(),
    ensures
        ({
            let start = execute(v, cbw);
            let at = block_range(cbw.command).0 * BLOCK_LEN;
            &&& start.device.wf()
            &&& start.shared == v.shared
            &&& start.shared.attached
            &&& start.device.stage is Collect
            &&& done(start.device, Seq::empty()) == 0
            &&& coherent(start.device.cache, card)
            &&& write_goes_on(
                start.device,
                cbw.tag,
                at,
                cbw.transfer_len as int,
                Seq::empty(),
                card,
                card,
            )
        }),
{
    let (lba, blocks) = block_range(cbw.command);
    assert(decided(cbw, v.shared) == (v.shared, Decision::<Seq<u8>>::Write { lba, blocks }));
    execute_is_coherent(v, cbw, card);
    let fresh = if v.shared.generation != v.device.cache_generation {
        Both {
            device: DeviceView {
                cache: v.device.cache.invalidated(),
                cache_generation: v.shared.generation,
                ..v.device
            },
            ..v
        }
    } else {
        v
    };
    assert(fresh.device.cache.wf());
    let job = WriteJob {
        tag: cbw.tag,
        current: lba,
        end: (lba + blocks) as u32,
        residue: cbw.transfer_len,
    };
    assert(execute(v, cbw) == next_write(fresh, job));
    assert(card =~= spliced(card, lba * BLOCK_LEN, Seq::empty()));
    next_write_goes_on(fresh, job, lba * BLOCK_LEN, Seq::empty(), card, card);
}

/// What was written is what a later read of it sends, from the cache or not.
pub proof fn written_blocks_are_read_back(
    v: DeviceView,
    before: Seq<u8>,
    at: int,
    data: Seq<u8>,
)
    requires
        v.wf(),
        coherent(v.cache, spliced(before, at, data)),
        v.stage is Send,
        0 <= at <= read_position(v),
        read_position(v) + 64 <= at + data.len(),
    ensures
        device_query(v) == DeviceQuery::<Seq<u8>>::WritePacket(
            data.subrange(read_position(v) - at, read_position(v) - at + 64),
        ),
{
    let card = spliced(before, at, data);
    let position = read_position(v);
    read_sends_the_card(v, card);
    assert(card.subrange(position, position + 64) =~= data.subrange(
        position - at,
        position - at + 64,
    ));
}

} // verus!
