//! What the computer on the other end of the cable sees: its commands and their
//! answers, byte by byte.

use crate::bytes::{be32_bytes, words_are_weighed};
use crate::msc::cache::{coherent, line_position};
use crate::msc::device::{
    device_next, device_query, execute, next_read, next_write, on_collect, on_command, on_load,
    on_respond, on_send, on_store, packet_of, packets_sent, respond_with, Both, DeviceQuery,
    DeviceReply, DeviceStage, ReadJob, WriteJob,
};
use crate::msc::laws::device_after;
use crate::msc::reading::{
    delivered, is_good_read, load_fails, read_answers, read_sends_its_blocks,
};
use crate::msc::scsi::{
    asked, block_range, capacity_data, cbw_of, csw_bytes, decided, inquiry_data, is_cbw,
    long_capacity_data, ordered, vital_page, CbwView, CommandStatus, ControlReply,
    ControlRequest, Decision, Direction, Sense, SharedState,
};
use crate::msc::writing::{
    card_in_the_end, collected, is_good_write, store_fails, write_answers, write_passes_once_stored,
};
use vstd::prelude::*;
use vstd::string::*;
use vstd::utf8::*;

verus! {

// ---------------------------------------------------------------------------
// Wrappers
// ---------------------------------------------------------------------------

/// A packet is a command exactly when it has the length of one, begins with `USBC`, and
/// its flags, its unit and the length of its command block are possible ones.
pub proof fn command_packets_are_told_apart(packet: Seq<u8>)
    ensures
        is_cbw(packet) <==> {
            &&& packet.len() == 31
            &&& packet[0] == 0x55 && packet[1] == 0x53 && packet[2] == 0x42 && packet[3] == 0x43
            &&& packet[12] == 0 || packet[12] == 0x80
            &&& packet[13] < 16
            &&& 1 <= packet[14] % 32 && packet[14] % 32 <= 16
        },
{
    if packet.len() == 31 {
        let word = packet.subrange(0, 4);
        assert(word[0] == packet[0] && word[1] == packet[1] && word[2] == packet[2] && word[3]
            == packet[3]);
    }
}

/// What a command packet says: a tag and a length, least significant byte first, the way
/// that the data go, the unit, and sixteen bytes of the command.
pub proof fn command_packets_are_read(packet: Seq<u8>)
    requires
        packet.len() == 31,
    ensures
        cbw_of(packet).tag == packet[4] + 256 * packet[5] + 65536 * packet[6] + 16777216
            * packet[7],
        cbw_of(packet).transfer_len == packet[8] + 256 * packet[9] + 65536 * packet[10] + 16777216
            * packet[11],
        packet[12] == 0x80 ==> cbw_of(packet).direction == Direction::In,
        packet[12] == 0 ==> cbw_of(packet).direction == Direction::Out,
        cbw_of(packet).lun == packet[13],
        cbw_of(packet).command_len == packet[14] % 32,
        cbw_of(packet).command.len() == 16,
        forall|i: int|
            0 <= i < 16 ==> #[trigger] cbw_of(packet).command[i] == packet[15 + i],
{
    let tag = packet.subrange(4, 8);
    assert(tag[0] == packet[4] && tag[1] == packet[5] && tag[2] == packet[6] && tag[3]
        == packet[7]);
    let len = packet.subrange(8, 12);
    assert(len[0] == packet[8] && len[1] == packet[9] && len[2] == packet[10] && len[3]
        == packet[11]);
}

/// A packet that is no command leaves the device waiting for one, with nothing changed.
pub proof fn other_packets_are_ignored(v: Both, packet: Vec<u8>)
    requires
        v.device.stage is Command,
        packet@.len() != 31 || packet@[0] != 0x55 || packet@[1] != 0x53 || packet@[2] != 0x42
            || packet@[3] != 0x43,
    ensures
        device_next(v, DeviceReply::Packet(packet)) == v,
{
    reveal(on_command);
    command_packets_are_told_apart(packet@);
}

/// A status is `USBS`, the tag of its command, what was not moved, and how it ended: 0 for
/// one that passed, 1 for one that failed, 2 for one that the host got wrong.
pub proof fn status_packets_are_read(tag: u32, residue: u32, status: CommandStatus)
    ensures
        ({
            let bytes = csw_bytes(tag, residue, status);
            &&& bytes.len() == 13
            &&& bytes[0] == 0x55 && bytes[1] == 0x53 && bytes[2] == 0x42 && bytes[3] == 0x53
            &&& bytes[4] + 256 * bytes[5] + 65536 * bytes[6] + 16777216 * bytes[7] == tag
            &&& bytes[8] + 256 * bytes[9] + 65536 * bytes[10] + 16777216 * bytes[11] == residue
            &&& status == CommandStatus::Passed <==> bytes[12] == 0
            &&& status == CommandStatus::Failed <==> bytes[12] == 1
            &&& status == CommandStatus::PhaseError <==> bytes[12] == 2
        }),
{
}

/// The status is sent as it stands, and the device then waits for the next command.
pub proof fn status_is_sent(v: Both, tag: u32, residue: u32, status: CommandStatus)
    requires
        v.device.stage == (DeviceStage::<Seq<u8>>::Status { csw: csw_bytes(tag, residue, status) }),
    ensures
        device_query(v.device) == DeviceQuery::<Seq<u8>>::WritePacket(
            csw_bytes(tag, residue, status),
        ),
        device_next(v, DeviceReply::Sent(true)).device.stage == DeviceStage::<Seq<u8>>::Command,
        device_next(v, DeviceReply::Sent(true)).shared == v.shared,
{
}

/// Only unit 0 is there: a command for another one fails, with nothing done.
pub proof fn other_units_fail(v: Both, packet: Vec<u8>)
    requires
        v.device.stage is Command,
        is_cbw(packet@),
        packet@[13] != 0,
    ensures
        ({
            let cbw = cbw_of(packet@);
            let next = device_next(v, DeviceReply::Packet(packet));
            &&& next.shared == v.shared
            &&& next.device.stage == (DeviceStage::<Seq<u8>>::Status {
                csw: csw_bytes(cbw.tag, cbw.transfer_len, CommandStatus::Failed),
            })
        }),
{
    reveal(on_command);
}

// ---------------------------------------------------------------------------
// Reading and writing blocks
// ---------------------------------------------------------------------------

/// The command block asks for `count` blocks from block `lba` on: four bytes and two bytes,
/// most significant byte first.
pub open spec fn asks_for(command: Seq<u8>, lba: int, count: int) -> bool {
    &&& command.len() == 16
    &&& lba == 16777216 * command[2] + 65536 * command[3] + 256 * command[4] + command[5]
    &&& count == 256 * command[7] + command[8]
}

proof fn range_is_asked_for(command: Seq<u8>, lba: int, count: int)
    requires
        asks_for(command, lba, count),
    ensures
        block_range(command).0 == lba,
        block_range(command).1 == count,
{
    let address = command.subrange(2, 6);
    assert(address[0] == command[2] && address[1] == command[3] && address[2] == command[4]
        && address[3] == command[5]);
    let number = command.subrange(7, 9);
    assert(number[0] == command[7] && number[1] == command[8]);
}

/// READ(10), code 0x28, of blocks that the card has reads just these.
pub proof fn read_command_names_its_blocks(
    cbw: CbwView,
    shared: SharedState,
    lba: u32,
    count: u32,
)
    requires
        asks_for(cbw.command, lba as int, count as int),
        cbw.command[0] == 0x28,
        cbw.direction == Direction::In,
        cbw.transfer_len == 512 * count,
        count > 0,
        shared.attached,
        !shared.ejected,
        lba + count <= shared.blocks,
    ensures
        decided(cbw, shared) == (
            shared,
            Decision::<Seq<u8>>::Read { lba, blocks: count, capacity: shared.blocks },
        ),
        is_good_read(cbw, shared),
{
    range_is_asked_for(cbw.command, lba as int, count as int);
}

/// WRITE(10), code 0x2a, of blocks that the card has writes just these.
pub proof fn write_command_names_its_blocks(
    cbw: CbwView,
    shared: SharedState,
    lba: u32,
    count: u32,
)
    requires
        asks_for(cbw.command, lba as int, count as int),
        cbw.command[0] == 0x2a,
        cbw.direction == Direction::Out,
        cbw.transfer_len == 512 * count,
        count > 0,
        shared.attached,
        !shared.ejected,
        lba + count <= shared.blocks,
    ensures
        decided(cbw, shared) == (shared, Decision::<Seq<u8>>::Write { lba, blocks: count }),
        is_good_write(cbw, shared),
{
    range_is_asked_for(cbw.command, lba as int, count as int);
}

/// Blocks beyond the card, or of a card that is away, are neither read nor written: the
/// command fails, and the sense says that a field was invalid.
pub proof fn blocks_beyond_the_card_are_refused(
    cbw: CbwView,
    shared: SharedState,
    lba: u32,
    count: u32,
)
    requires
        asks_for(cbw.command, lba as int, count as int),
        cbw.command[0] == 0x28 && cbw.direction == Direction::In || cbw.command[0] == 0x2a
            && cbw.direction == Direction::Out,
        cbw.transfer_len == 512 * count,
        count > 0,
        !shared.attached || shared.ejected || lba + count > shared.blocks,
    ensures
        decided(cbw, shared).0 == (SharedState {
            sense: Sense { key: 5, asc: 0x24, ascq: 0 },
            ..shared
        }),
        cbw.command[0] == 0x28 ==> decided(cbw, shared).1 == (Decision::<Seq<u8>>::Finish {
            residue: cbw.transfer_len,
            status: CommandStatus::Failed,
        }),
        cbw.command[0] == 0x2a ==> decided(cbw, shared).1 == (Decision::<Seq<u8>>::Refuse {
            length: cbw.transfer_len,
        }),
{
    range_is_asked_for(cbw.command, lba as int, count as int);
}

/// A read or a write whose length or direction does not fit its blocks moves nothing and
/// ends with a phase error.
pub proof fn misfit_transfers_move_nothing(
    cbw: CbwView,
    shared: SharedState,
    lba: u32,
    count: u32,
)
    requires
        asks_for(cbw.command, lba as int, count as int),
        cbw.command[0] == 0x28 && (cbw.direction == Direction::Out || cbw.transfer_len != 512
            * count) || cbw.command[0] == 0x2a && (cbw.direction == Direction::In
            || cbw.transfer_len != 512 * count),
    ensures
        decided(cbw, shared) == (
            shared,
            Decision::<Seq<u8>>::Finish {
                residue: cbw.transfer_len,
                status: CommandStatus::PhaseError,
            },
        ),
{
    range_is_asked_for(cbw.command, lba as int, count as int);
}

/// A read or a write of no blocks passes at once.
pub proof fn empty_transfers_pass(cbw: CbwView, shared: SharedState, lba: u32)
    requires
        asks_for(cbw.command, lba as int, 0),
        cbw.command[0] == 0x28 && cbw.direction == Direction::In || cbw.command[0] == 0x2a
            && cbw.direction == Direction::Out,
        cbw.transfer_len == 0,
    ensures
        decided(cbw, shared) == (
            shared,
            Decision::<Seq<u8>>::Finish { residue: 0, status: CommandStatus::Passed },
        ),
{
    range_is_asked_for(cbw.command, lba as int, 0);
}

/// What the host reads from a block on is what is on the card there, all of it and
/// nothing else, where the card could give it.
pub proof fn host_reads_the_card(
    v: Both,
    packet: Vec<u8>,
    lba: u32,
    count: u32,
    replies: Seq<DeviceReply>,
    card: Seq<u8>,
)
    requires
        v.device.stage is Command,
        v.device.cache.wf(),
        coherent(v.device.cache, card) || v.shared.generation != v.device.cache_generation,
        is_cbw(packet@),
        packet@[12] == 0x80,
        packet@[13] == 0,
        packet@[15] == 0x28,
        lba == 16777216 * packet@[17] + 65536 * packet@[18] + 256 * packet@[19] + packet@[20],
        count == 256 * packet@[22] + packet@[23],
        count > 0,
        packet@[8] + 256 * packet@[9] + 65536 * packet@[10] + 16777216 * packet@[11] == 512 * count,
        v.shared.attached,
        !v.shared.ejected,
        lba + count <= v.shared.blocks,
        card.len() == 512 * v.shared.blocks,
        read_answers(device_next(v, DeviceReply::Packet(packet)), replies, card),
        device_after(
            device_next(v, DeviceReply::Packet(packet)),
            replies,
        ).device.stage is Status,
        !load_fails(device_next(v, DeviceReply::Packet(packet)), replies),
    ensures
        delivered(device_next(v, DeviceReply::Packet(packet)), replies) == card.subrange(
            512 * lba,
            512 * (lba + count),
        ),
        device_after(
            device_next(v, DeviceReply::Packet(packet)),
            replies,
        ).device.stage == (DeviceStage::<Seq<u8>>::Status {
            csw: csw_bytes(cbw_of(packet@).tag, 0, CommandStatus::Passed),
        }),
{
    reveal(on_command);
    let cbw = cbw_of(packet@);
    command_packets_are_read(packet@);
    assert(cbw.command[0] == packet@[15] && cbw.command[2] == packet@[17] && cbw.command[3]
        == packet@[18] && cbw.command[4] == packet@[19] && cbw.command[5] == packet@[20]
        && cbw.command[7] == packet@[22] && cbw.command[8] == packet@[23]);
    read_command_names_its_blocks(cbw, v.shared, lba, count);
    range_is_asked_for(cbw.command, lba as int, count as int);
    read_sends_its_blocks(v, cbw, replies, card);
}

/// What the host writes from a block on is then on the card there, and nothing else of it
/// has changed, where the card took it.
pub proof fn host_writes_the_card(
    v: Both,
    packet: Vec<u8>,
    lba: u32,
    count: u32,
    replies: Seq<DeviceReply>,
    card: Seq<u8>,
)
    requires
        v.device.stage is Command,
        v.device.cache.wf(),
        coherent(v.device.cache, card) || v.shared.generation != v.device.cache_generation,
        is_cbw(packet@),
        packet@[12] == 0,
        packet@[13] == 0,
        packet@[15] == 0x2a,
        lba == 16777216 * packet@[17] + 65536 * packet@[18] + 256 * packet@[19] + packet@[20],
        count == 256 * packet@[22] + packet@[23],
        count > 0,
        packet@[8] + 256 * packet@[9] + 65536 * packet@[10] + 16777216 * packet@[11] == 512 * count,
        v.shared.attached,
        !v.shared.ejected,
        lba + count <= v.shared.blocks,
        card.len() == 512 * v.shared.blocks,
        write_answers(device_next(v, DeviceReply::Packet(packet)), replies),
        device_after(
            device_next(v, DeviceReply::Packet(packet)),
            replies,
        ).device.stage is Status,
        !store_fails(device_next(v, DeviceReply::Packet(packet)), replies),
    ensures
        ({
            let start = device_next(v, DeviceReply::Packet(packet));
            let data = collected(start, replies);
            let left = card_in_the_end(start, replies, card);
            &&& data.len() == 512 * count
            &&& left.len() == card.len()
            &&& left.subrange(512 * lba, 512 * (lba + count)) == data
            &&& forall|i: int|
                0 <= i < card.len() && !(512 * lba <= i < 512 * (lba + count))
                    ==> #[trigger] left[i] == card[i]
            &&& device_after(start, replies).device.stage == (DeviceStage::<Seq<u8>>::Status {
                csw: csw_bytes(cbw_of(packet@).tag, 0, CommandStatus::Passed),
            })
        }),
{
    reveal(on_command);
    let cbw = cbw_of(packet@);
    let start = device_next(v, DeviceReply::Packet(packet));
    command_packets_are_read(packet@);
    assert(cbw.command[0] == packet@[15] && cbw.command[2] == packet@[17] && cbw.command[3]
        == packet@[18] && cbw.command[4] == packet@[19] && cbw.command[5] == packet@[20]
        && cbw.command[7] == packet@[22] && cbw.command[8] == packet@[23]);
    write_command_names_its_blocks(cbw, v.shared, lba, count);
    range_is_asked_for(cbw.command, lba as int, count as int);
    write_passes_once_stored(v, cbw, replies, card);
    let data = collected(start, replies);
    crate::bytes::written_bytes_read_back(card, 512 * lba, data);
}

// ---------------------------------------------------------------------------
// Other commands
// ---------------------------------------------------------------------------

/// The reply that a command is answered with, where the host waits for one.
pub open spec fn answered_with(cbw: CbwView, shared: SharedState, data: Seq<u8>) -> bool {
    decided(cbw, shared) matches (after, Decision::Respond { data: sent, clears_sense }) && {
        &&& after == shared
        &&& sent == data
        &&& clears_sense == (cbw.command[0] == 3)
    }
}

/// TEST UNIT READY, code 0: passes while there is a card, and else fails with the sense that
/// there is no medium.
pub proof fn readiness_is_told(cbw: CbwView, shared: SharedState)
    requires
        cbw.command[0] == 0,
        cbw.transfer_len == 0,
    ensures
        shared.attached && !shared.ejected && shared.blocks > 0 ==> decided(cbw, shared) == (
            shared,
            Decision::<Seq<u8>>::Finish { residue: 0, status: CommandStatus::Passed },
        ),
        !shared.attached || shared.ejected || shared.blocks == 0 ==> decided(cbw, shared) == (
            SharedState { sense: Sense { key: 2, asc: 0x3a, ascq: 0 }, ..shared },
            Decision::<Seq<u8>>::Finish { residue: 0, status: CommandStatus::Failed },
        ),
{
}

/// REQUEST SENSE, code 3: the sense is told in fixed format, and forgotten once it was sent.
pub proof fn sense_is_told(cbw: CbwView, shared: SharedState)
    requires
        cbw.command[0] == 3,
        cbw.direction == Direction::In || cbw.transfer_len == 0,
    ensures
        decided(cbw, shared) matches (after, Decision::Respond { data, clears_sense }) && {
            &&& after == shared
            &&& clears_sense
            &&& data.len() == 18
            &&& data[0] == 0x70
            &&& data[2] == shared.sense.key
            &&& data[7] == 10
            &&& data[12] == shared.sense.asc
            &&& data[13] == shared.sense.ascq
            &&& data[1] == 0 && data[3] == 0 && data[4] == 0 && data[5] == 0 && data[6] == 0
            &&& data[8] == 0 && data[9] == 0 && data[10] == 0 && data[11] == 0
            &&& data[14] == 0 && data[15] == 0 && data[16] == 0 && data[17] == 0
        },
{
}

/// READ CAPACITY(10), code 0x25: the number of the last block, and blocks of 512 bytes.
pub proof fn capacity_is_told(cbw: CbwView, shared: SharedState)
    requires
        cbw.command[0] == 0x25,
        cbw.direction == Direction::In || cbw.transfer_len == 0,
        shared.attached,
        !shared.ejected,
        shared.blocks > 0,
    ensures
        decided(cbw, shared) matches (after, Decision::Respond { data, clears_sense }) && {
            &&& after == shared
            &&& !clears_sense
            &&& data.len() == 8
            &&& 16777216 * data[0] + 65536 * data[1] + 256 * data[2] + data[3] == shared.blocks - 1
            &&& data[4] == 0 && data[5] == 0 && data[6] == 2 && data[7] == 0
        },
{
    let count = shared.blocks;
    let data = capacity_data(count);
    words_are_weighed((count - 1) as u32);
    assert(data[0] == be32_bytes((count - 1) as u32)[0]);
    assert(data[1] == be32_bytes((count - 1) as u32)[1]);
    assert(data[2] == be32_bytes((count - 1) as u32)[2]);
    assert(data[3] == be32_bytes((count - 1) as u32)[3]);
    assert(be32_bytes(512) =~= seq![0u8, 0u8, 2u8, 0u8]);
    assert(data.subrange(4, 8) =~= be32_bytes(512));
    assert(decided(cbw, shared) == (
        shared,
        Decision::<Seq<u8>>::Respond { data, clears_sense: false },
    ));
}

/// READ CAPACITY(16), code 0x9e with service action 0x10: the same in a longer form.
pub proof fn long_capacity_is_told(cbw: CbwView, shared: SharedState)
    requires
        cbw.command[0] == 0x9e,
        cbw.command[1] % 32 == 0x10,
        cbw.direction == Direction::In || cbw.transfer_len == 0,
        shared.attached,
        !shared.ejected,
        shared.blocks > 0,
    ensures
        decided(cbw, shared) matches (after, Decision::Respond { data, clears_sense }) && {
            &&& after == shared
            &&& !clears_sense
            &&& data.len() == 32
            &&& data[0] == 0 && data[1] == 0 && data[2] == 0 && data[3] == 0
            &&& 16777216 * data[4] + 65536 * data[5] + 256 * data[6] + data[7] == shared.blocks - 1
            &&& data[8] == 0 && data[9] == 0 && data[10] == 2 && data[11] == 0
            &&& forall|i: int| 12 <= i < 32 ==> #[trigger] data[i] == 0
        },
{
    let count = shared.blocks;
    let data = long_capacity_data(count);
    words_are_weighed((count - 1) as u32);
    assert(data[4] == be32_bytes((count - 1) as u32)[0]);
    assert(data[5] == be32_bytes((count - 1) as u32)[1]);
    assert(data[6] == be32_bytes((count - 1) as u32)[2]);
    assert(data[7] == be32_bytes((count - 1) as u32)[3]);
    assert(be32_bytes(512) =~= seq![0u8, 0u8, 2u8, 0u8]);
    assert(data.subrange(8, 12) =~= be32_bytes(512));
    assert(data.subrange(8, 12)[0] == data[8] && data.subrange(8, 12)[2] == data[10]);
    assert(decided(cbw, shared) == (
        shared,
        Decision::<Seq<u8>>::Respond { data, clears_sense: false },
    ));
}

/// READ FORMAT CAPACITIES, code 0x23: one formatted medium with all blocks of the card.
pub proof fn format_capacity_is_told(cbw: CbwView, shared: SharedState)
    requires
        cbw.command[0] == 0x23,
        cbw.direction == Direction::In || cbw.transfer_len == 0,
        shared.attached,
        !shared.ejected,
    ensures
        decided(cbw, shared) matches (after, Decision::Respond { data, clears_sense }) && {
            &&& after == shared
            &&& !clears_sense
            &&& data.len() == 12
            &&& data[0] == 0 && data[1] == 0 && data[2] == 0 && data[3] == 8
            &&& 16777216 * data[4] + 65536 * data[5] + 256 * data[6] + data[7] == shared.blocks
            &&& data[8] == 2 && data[9] == 0 && data[10] == 2 && data[11] == 0
        },
{
}

/// The capacity of a card that is away is not told: the command fails, and the short form
/// leaves the sense that there is no medium.
pub proof fn no_card_has_no_capacity(cbw: CbwView, shared: SharedState)
    requires
        !shared.attached || shared.ejected || shared.blocks == 0,
        cbw.command[0] == 0x25 || cbw.command[0] == 0x9e && cbw.command[1] % 32 == 0x10,
    ensures
        decided(cbw, shared).1 == (Decision::<Seq<u8>>::Finish {
            residue: cbw.transfer_len,
            status: CommandStatus::Failed,
        }),
        cbw.command[0] == 0x25 ==> decided(cbw, shared).0 == (SharedState {
            sense: Sense { key: 2, asc: 0x3a, ascq: 0 },
            ..shared
        }),
        cbw.command[0] == 0x9e ==> decided(cbw, shared).0 == shared,
{
}

/// INQUIRY, code 0x12: a removable disk of vendor, product and revision.
pub proof fn disk_introduces_itself(cbw: CbwView, shared: SharedState)
    requires
        cbw.command[0] == 0x12,
        cbw.command[1] % 2 == 0,
        cbw.command[2] == 0,
        cbw.direction == Direction::In || cbw.transfer_len == 0,
    ensures
        decided(cbw, shared) matches (after, Decision::Respond { data, clears_sense }) && {
            &&& after == shared
            &&& !clears_sense
            &&& data.len() == 36
            &&& data.take(8) == seq![0u8, 0x80u8, 5u8, 2u8, 31u8, 0u8, 0u8, 0u8]
            &&& data.subrange(8, 16) == seq![
                0x52u8,
                0x41u8,
                0x54u8,
                0x50u8,
                0x55u8,
                0x54u8,
                0x45u8,
                0x52u8,
            ]
            &&& data.subrange(16, 23) == seq![
                0x53u8,
                0x44u8,
                0x20u8,
                0x43u8,
                0x41u8,
                0x52u8,
                0x44u8,
            ]
            &&& forall|i: int| 23 <= i < 32 ==> #[trigger] data[i] == 0x20
            &&& data.subrange(32, 36) == seq![0x31u8, 0x2eu8, 0x30u8, 0x20u8]
        },
{
    inquiry_bytes();
}

/// ASCII text is one byte for each character.
pub(crate) proof fn ascii_bytes(s: Seq<char>)
    requires
        is_ascii_chars(s),
    ensures
        encode_utf8(s).len() == s.len(),
        forall|i: int| 0 <= i < s.len() ==> #[trigger] encode_utf8(s)[i] == s[i] as u8,
{
    is_ascii_chars_encode_utf8(s);
}

proof fn inquiry_bytes()
    ensures
        ({
            let data = inquiry_data();
            &&& data.len() == 36
            &&& data.take(8) == seq![0u8, 0x80u8, 5u8, 2u8, 31u8, 0u8, 0u8, 0u8]
            &&& data.subrange(8, 16) == seq![
                0x52u8,
                0x41u8,
                0x54u8,
                0x50u8,
                0x55u8,
                0x54u8,
                0x45u8,
                0x52u8,
            ]
            &&& data.subrange(16, 23) == seq![
                0x53u8,
                0x44u8,
                0x20u8,
                0x43u8,
                0x41u8,
                0x52u8,
                0x44u8,
            ]
            &&& forall|i: int| 23 <= i < 32 ==> #[trigger] data[i] == 0x20
            &&& data.subrange(32, 36) == seq![0x31u8, 0x2eu8, 0x30u8, 0x20u8]
        }),
{
    reveal_strlit("RATPUTER");
    reveal_strlit("SD CARD         ");
    reveal_strlit("1.0 ");
    ascii_bytes("RATPUTER"@);
    ascii_bytes("SD CARD         "@);
    ascii_bytes("1.0 "@);
    let data = inquiry_data();
    assert(data.take(8) =~= seq![0u8, 0x80u8, 5u8, 2u8, 31u8, 0u8, 0u8, 0u8]);
    assert(data.subrange(8, 16) =~= seq![
        0x52u8,
        0x41u8,
        0x54u8,
        0x50u8,
        0x55u8,
        0x54u8,
        0x45u8,
        0x52u8,
    ]);
    assert(data.subrange(16, 23) =~= seq![
        0x53u8,
        0x44u8,
        0x20u8,
        0x43u8,
        0x41u8,
        0x52u8,
        0x44u8,
    ]);
    assert(data.subrange(32, 36) =~= seq![0x31u8, 0x2eu8, 0x30u8, 0x20u8]);
}

/// INQUIRY for vital product data: the pages that there are, a serial number, and an empty
/// identification; any other page is an invalid field.
pub proof fn vital_pages_are_told(cbw: CbwView, shared: SharedState)
    requires
        cbw.command[0] == 0x12,
        cbw.command[1] % 2 == 1,
        cbw.direction == Direction::In || cbw.transfer_len == 0,
    ensures
        cbw.command[2] == 0 ==> answered_with(
            cbw,
            shared,
            seq![0u8, 0u8, 0u8, 3u8, 0u8, 0x80u8, 0x83u8],
        ),
        cbw.command[2] == 0x83 ==> answered_with(cbw, shared, seq![0u8, 0x83u8, 0u8, 0u8]),
        cbw.command[2] == 0x80 ==> (decided(cbw, shared) matches (
            after,
            Decision::Respond { data, clears_sense },
        ) && {
            &&& after == shared
            &&& !clears_sense
            &&& data == seq![
                0u8,
                0x80u8,
                0u8,
                12u8,
                0x52u8,
                0x41u8,
                0x54u8,
                0x50u8,
                0x55u8,
                0x54u8,
                0x45u8,
                0x52u8,
                0x2du8,
                0x41u8,
                0x44u8,
                0x56u8,
            ]
        }),
        cbw.command[2] != 0 && cbw.command[2] != 0x80 && cbw.command[2] != 0x83 ==> decided(
            cbw,
            shared,
        ) == (
            SharedState { sense: Sense { key: 5, asc: 0x24, ascq: 0 }, ..shared },
            Decision::<Seq<u8>>::Finish {
                residue: cbw.transfer_len,
                status: CommandStatus::Failed,
            },
        ),
{
    reveal_strlit("RATPUTER-ADV");
    ascii_bytes("RATPUTER-ADV"@);
    assert(vital_page(0x80)->0 =~= seq![
        0u8,
        0x80u8,
        0u8,
        12u8,
        0x52u8,
        0x41u8,
        0x54u8,
        0x50u8,
        0x55u8,
        0x54u8,
        0x45u8,
        0x52u8,
        0x2du8,
        0x41u8,
        0x44u8,
        0x56u8,
    ]);
}

/// A page without the flag for vital product data is an invalid field.
pub proof fn plain_pages_are_refused(cbw: CbwView, shared: SharedState)
    requires
        cbw.command[0] == 0x12,
        cbw.command[1] % 2 == 0,
        cbw.command[2] != 0,
    ensures
        decided(cbw, shared) == (
            SharedState { sense: Sense { key: 5, asc: 0x24, ascq: 0 }, ..shared },
            Decision::<Seq<u8>>::Finish {
                residue: cbw.transfer_len,
                status: CommandStatus::Failed,
            },
        ),
{
}

/// MODE SENSE(6) and (10), codes 0x1a and 0x5a: no page and no protection against writing.
/// REPORT LUNS, code 0xa0: one unit, number 0.
pub proof fn modes_and_units_are_told(cbw: CbwView, shared: SharedState)
    requires
        cbw.direction == Direction::In || cbw.transfer_len == 0,
    ensures
        cbw.command[0] == 0x1a ==> answered_with(cbw, shared, seq![3u8, 0u8, 0u8, 0u8]),
        cbw.command[0] == 0x5a ==> answered_with(
            cbw,
            shared,
            seq![0u8, 6u8, 0u8, 0u8, 0u8, 0u8, 0u8, 0u8],
        ),
        cbw.command[0] == 0xa0 ==> answered_with(
            cbw,
            shared,
            seq![0u8, 0u8, 0u8, 8u8, 0u8, 0u8, 0u8, 0u8, 0u8, 0u8, 0u8, 0u8, 0u8, 0u8, 0u8, 0u8],
        ),
{
    assert(crate::msc::scsi::luns_data() =~= seq![
        0u8,
        0u8,
        0u8,
        8u8,
        0u8,
        0u8,
        0u8,
        0u8,
        0u8,
        0u8,
        0u8,
        0u8,
        0u8,
        0u8,
        0u8,
        0u8,
    ]);
}

/// START STOP UNIT, code 0x1b, with the load/eject bit: ejects the card, or loads it again.
/// Without that bit nothing changes.
pub proof fn card_is_ejected_and_loaded(cbw: CbwView, shared: SharedState)
    requires
        cbw.command[0] == 0x1b,
        cbw.transfer_len == 0,
    ensures
        decided(cbw, shared).1 == (Decision::<Seq<u8>>::Finish {
            residue: 0,
            status: CommandStatus::Passed,
        }),
        cbw.command[4] % 4 == 2 ==> decided(cbw, shared).0 == (SharedState {
            ejected: true,
            ..shared
        }),
        cbw.command[4] % 4 == 3 ==> decided(cbw, shared).0 == (SharedState {
            ejected: false,
            ..shared
        }),
        cbw.command[4] % 4 < 2 ==> decided(cbw, shared).0 == shared,
{
}

/// PREVENT REMOVAL, SYNCHRONIZE CACHE and VERIFY without bytes to compare, codes 0x1e, 0x35
/// and 0x2f, pass with nothing to do, as everything is on the card already; data with them
/// are a phase error.
pub proof fn commands_without_data_pass(cbw: CbwView, shared: SharedState)
    requires
        cbw.command[0] == 0x1e || cbw.command[0] == 0x35 || cbw.command[0] == 0x2f
            && cbw.command[1] / 2 % 2 == 0,
    ensures
        cbw.transfer_len == 0 ==> decided(cbw, shared) == (
            shared,
            Decision::<Seq<u8>>::Finish { residue: 0, status: CommandStatus::Passed },
        ),
        cbw.transfer_len != 0 ==> decided(cbw, shared) == (
            SharedState { sense: Sense { key: 5, asc: 0x24, ascq: 0 }, ..shared },
            Decision::<Seq<u8>>::Finish {
                residue: cbw.transfer_len,
                status: CommandStatus::PhaseError,
            },
        ),
{
}

/// A command that the disk does not know fails, and the sense says so.
pub proof fn unknown_commands_fail(cbw: CbwView, shared: SharedState)
    requires
        cbw.command[0] != 0 && cbw.command[0] != 3 && cbw.command[0] != 0x12 && cbw.command[0]
            != 0x1a && cbw.command[0] != 0x1b && cbw.command[0] != 0x1e && cbw.command[0] != 0x23
            && cbw.command[0] != 0x25 && cbw.command[0] != 0x28 && cbw.command[0] != 0x2a
            && cbw.command[0] != 0x35 && cbw.command[0] != 0x5a && cbw.command[0] != 0xa0,
        cbw.command[0] == 0x2f ==> cbw.command[1] / 2 % 2 == 1,
        cbw.command[0] == 0x9e ==> cbw.command[1] % 32 != 0x10,
    ensures
        decided(cbw, shared) == (
            SharedState { sense: Sense { key: 5, asc: 0x20, ascq: 0 }, ..shared },
            Decision::<Seq<u8>>::Finish {
                residue: cbw.transfer_len,
                status: CommandStatus::Failed,
            },
        ),
{
}

/// Where the host means to send data and the command has some to give, nothing moves: a
/// phase error.
pub proof fn replies_need_the_right_direction(cbw: CbwView, shared: SharedState)
    requires
        cbw.direction == Direction::Out,
        cbw.transfer_len != 0,
        cbw.command[0] == 3 || cbw.command[0] == 0x1a || cbw.command[0] == 0x23
            || cbw.command[0] == 0x5a || cbw.command[0] == 0xa0,
    ensures
        decided(cbw, shared) == (
            shared,
            Decision::<Seq<u8>>::Finish {
                residue: cbw.transfer_len,
                status: CommandStatus::PhaseError,
            },
        ),
{
}

/// Commands without data that announce some anyhow move none: a phase error.
pub proof fn readiness_moves_no_data(cbw: CbwView, shared: SharedState)
    requires
        cbw.command[0] == 0 || cbw.command[0] == 0x1b,
        cbw.transfer_len != 0,
    ensures
        decided(cbw, shared) == (
            shared,
            Decision::<Seq<u8>>::Finish {
                residue: cbw.transfer_len,
                status: CommandStatus::PhaseError,
            },
        ),
{
}

// ---------------------------------------------------------------------------
// Replies on the wire
// ---------------------------------------------------------------------------

/// What the host is sent of a reply: all its packets, one after another.
pub open spec fn reply_sent(v: Both, count: nat) -> Seq<u8>
    decreases count,
{
    if count == 0 {
        Seq::empty()
    } else {
        let packet = match (v.device.stage, device_query(v.device)) {
            (DeviceStage::Respond { .. }, DeviceQuery::WritePacket(packet)) => packet,
            _ => Seq::empty(),
        };
        packet + reply_sent(device_next(v, DeviceReply::Sent(true)), (count - 1) as nat)
    }
}

/// The device after the host took so many packets.
pub open spec fn reply_taken(v: Both, count: nat) -> Both
    decreases count,
{
    if count == 0 {
        v
    } else {
        reply_taken(device_next(v, DeviceReply::Sent(true)), (count - 1) as nat)
    }
}

proof fn reply_goes_on(
    v: Both,
    tag: u32,
    transfer_len: u32,
    data: Seq<u8>,
    sent: usize,
    clears_sense: bool,
)
    requires
        v.device.stage == (DeviceStage::<Seq<u8>>::Respond {
            tag,
            transfer_len,
            data,
            sent,
            clears_sense,
        }),
        sent < data.len() <= transfer_len,
    ensures
        ({
            let count = ((data.len() - sent + 63) / 64) as nat;
            &&& reply_sent(v, count) == data.skip(sent as int)
            &&& reply_taken(v, count) == packets_sent(
                v,
                tag,
                transfer_len,
                data.len() as int,
                clears_sense,
            )
        }),
    decreases data.len() - sent,
{
    reveal(on_respond);
    let count = ((data.len() - sent + 63) / 64) as nat;
    let next = device_next(v, DeviceReply::Sent(true));
    let end = if sent + 64 <= data.len() {
        sent + 64
    } else {
        data.len() as int
    };
    reveal_with_fuel(reply_sent, 2);
    reveal_with_fuel(reply_taken, 2);
    if end < data.len() {
        reply_goes_on(next, tag, transfer_len, data, (sent + 64) as usize, clears_sense);
        assert(count == 1 + ((data.len() - (sent + 64) + 63) / 64));
        assert(data.subrange(sent as int, end) + data.skip(end) =~= data.skip(sent as int));
    } else {
        assert(count == 1);
        assert(data.subrange(sent as int, end) + Seq::<u8>::empty() =~= data.skip(sent as int));
    }
}

/// A reply goes out in packets of 64 bytes, cut to what the host expects. Where the host
/// expects more and the last packet was full, an empty one ends it. The status then passes
/// with what was not sent as residue, and a sense that was told is forgotten.
pub proof fn replies_are_sent_whole(v: Both, cbw: CbwView, data: Seq<u8>, clears_sense: bool)
    ensures
        ({
            let start = respond_with(v, cbw, data, clears_sense);
            let len = if data.len() < cbw.transfer_len {
                data.len() as int
            } else {
                cbw.transfer_len as int
            };
            let packets = ((len + 63) / 64) as nat;
            let taken = reply_taken(start, packets);
            let short = len < cbw.transfer_len && len % 64 == 0;
            let end = if short {
                device_next(taken, DeviceReply::Sent(true))
            } else {
                taken
            };
            &&& reply_sent(start, packets) == data.take(len)
            &&& short ==> device_query(taken.device) == DeviceQuery::<Seq<u8>>::WritePacket(
                Seq::empty(),
            )
            &&& end.device.stage == (DeviceStage::<Seq<u8>>::Status {
                csw: csw_bytes(cbw.tag, (cbw.transfer_len - len) as u32, CommandStatus::Passed),
            })
            &&& end.device.cache == v.device.cache
            &&& end.shared == if clears_sense {
                SharedState { sense: Sense { key: 0, asc: 0, ascq: 0 }, ..v.shared }
            } else {
                v.shared
            }
        }),
{
    let len = if data.len() < cbw.transfer_len {
        data.len() as int
    } else {
        cbw.transfer_len as int
    };
    let start = respond_with(v, cbw, data, clears_sense);
    if len == 0 {
        assert(data.take(0) =~= Seq::<u8>::empty());
    } else {
        let cut = data.take(len);
        reply_goes_on(start, cbw.tag, cbw.transfer_len, cut, 0, clears_sense);
        assert(cut.skip(0) =~= cut);
    }
}

/// A reply that the host does not take ends with a phase error.
pub proof fn broken_replies_end(v: Both)
    requires
        v.device.stage is Respond,
    ensures
        v.device.stage matches DeviceStage::Respond { tag, transfer_len, .. } && device_next(
            v,
            DeviceReply::Sent(false),
        ).device.stage == (DeviceStage::<Seq<u8>>::Status {
            csw: csw_bytes(tag, transfer_len, CommandStatus::PhaseError),
        }),
{
    reveal(on_respond);
}

/// A packet of a read that the host does not take, or one of a write that is not whole,
/// ends the command with a phase error and what was not moved.
pub proof fn broken_transfers_end(v: Both, reply: DeviceReply)
    requires
        v.device.stage is Send && reply == DeviceReply::Sent(false) || v.device.stage is Collect
            && (packet_of(reply) matches Some(packet) ==> packet.len() != 64),
    ensures
        ({
            let next = device_next(v, reply);
            &&& next.shared == v.shared
            &&& v.device.stage matches DeviceStage::Send { job, .. } ==> next.device.stage == (
            DeviceStage::<Seq<u8>>::Status {
                csw: csw_bytes(job.tag, job.residue, CommandStatus::PhaseError),
            })
            &&& v.device.stage matches DeviceStage::Collect { job, .. } ==> next.device.stage == (
            DeviceStage::<Seq<u8>>::Status {
                csw: csw_bytes(job.tag, job.residue, CommandStatus::PhaseError),
            })
        }),
{
    reveal(on_send);
    reveal(on_collect);
}

/// What the host sends for blocks beyond the card is taken and thrown away before the
/// command fails.
pub proof fn refused_data_are_thrown_away(v: Both, cbw: CbwView, length: u32)
    requires
        v.shared.generation == v.device.cache_generation,
        decided(cbw, v.shared).1 == (Decision::<Seq<u8>>::Refuse { length }),
        length > 0,
    ensures
        ({
            let next = execute(v, cbw);
            &&& next.shared == decided(cbw, v.shared).0
            &&& next.device.stage == (DeviceStage::<Seq<u8>>::Discard {
                tag: cbw.tag,
                length,
                residue: cbw.transfer_len,
            })
        }),
{
}

/// A disabled endpoint is waited for, and then the device takes commands again.
pub proof fn endpoints_are_waited_for(v: Both)
    ensures
        v.device.stage is Command ==> device_next(v, DeviceReply::Disabled).device.stage
            == DeviceStage::<Seq<u8>>::WaitOut,
        v.device.stage is WaitOut ==> device_query(v.device) == DeviceQuery::<
            Seq<u8>,
        >::WaitOutEnabled && device_next(v, DeviceReply::Enabled).device.stage == DeviceStage::<
            Seq<u8>,
        >::Command,
        v.device.stage is Status ==> device_next(v, DeviceReply::Sent(false)).device.stage
            == DeviceStage::<Seq<u8>>::WaitIn,
        v.device.stage is WaitIn ==> device_query(v.device) == DeviceQuery::<
            Seq<u8>,
        >::WaitInEnabled && device_next(v, DeviceReply::Enabled).device.stage == DeviceStage::<
            Seq<u8>,
        >::Command,
{
    reveal(on_command);
}

// ---------------------------------------------------------------------------
// The control pipe and the bus
// ---------------------------------------------------------------------------

/// The two requests of the class: how many units there are, which is one, numbered zero, and a
/// reset. Both must be asked of this interface and in full; what is asked of others is left to
/// them.
pub proof fn control_requests_are_answered(
    request: ControlRequest,
    interface: u8,
    data_len: int,
)
    ensures
        asked(request, interface) is Pass <==> !request.class_interface || request.index
            != interface,
        ordered(request, interface, data_len) is Pass <==> !request.class_interface || request.index
            != interface,
        request.class_interface && request.index == interface ==> {
            &&& request.request == 0xfe && request.value == 0 && request.length == 1 ==> asked(
                request,
                interface,
            ) == ControlReply::AcceptedByte(0)
            &&& request.request != 0xfe || request.value != 0 || request.length != 1 ==> asked(
                request,
                interface,
            ) == ControlReply::Rejected
            &&& request.request == 0xff && request.value == 0 && request.length == 0 && data_len
                == 0 ==> ordered(request, interface, data_len) == ControlReply::Accepted
            &&& request.request != 0xff || request.value != 0 || request.length != 0 || data_len
                != 0 ==> ordered(request, interface, data_len) == ControlReply::Rejected
        },
{
}

/// The host has configured the disk from when it says so until the bus is reset or disabled;
/// nothing else of the state changes with the bus.
pub proof fn bus_is_followed(shared: SharedState, enabled: bool, configured: bool)
    ensures
        shared.with_bus(true, true).configured,
        !shared.with_bus(true, false).configured,
        !shared.with_bus(false, configured).configured,
        shared.with_bus(true, shared.configured) == shared,
        ({
            let after = shared.with_bus(enabled, configured);
            &&& after.blocks == shared.blocks && after.attached == shared.attached
            &&& after.ejected == shared.ejected && after.sense == shared.sense
            &&& after.stats == shared.stats && after.generation == shared.generation
        }),
        shared.attached && !shared.ejected ==> shared.usable_blocks() == shared.blocks,
        !shared.attached || shared.ejected ==> shared.usable_blocks() == 0,
{
}

// ---------------------------------------------------------------------------
// The card's share in it
// ---------------------------------------------------------------------------

/// Blocks that are not at hand are read with their neighbours: eight from a multiple of eight,
/// as far as the card goes. A card that is away fails the read: a medium error, of the kind of a
/// read that could not be mended.
pub proof fn blocks_are_read_by_eights(v: Both, job: ReadJob)
    requires
        job.current < job.end <= job.capacity,
        line_position(v.device.cache.lines, job.current as int) == v.device.cache.lines.len(),
        v.device.cache.lines.len() == 4,
    ensures
        ({
            let after = next_read(v, job);
            let start = 8 * (job.current / 8);
            &&& v.shared.attached && start + 8 <= job.capacity ==> device_query(after.device)
                == (DeviceQuery::<Seq<u8>>::ReadBlocks { lba: start as u32, count: 8 })
            &&& v.shared.attached && start + 8 > job.capacity ==> device_query(after.device)
                == (DeviceQuery::<Seq<u8>>::ReadBlocks {
                lba: start as u32,
                count: (job.capacity - start) as u32,
            })
            &&& !v.shared.attached ==> after.shared.sense == (Sense { key: 3, asc: 0x11, ascq: 0 })
                && device_query(after.device) == DeviceQuery::WritePacket(
                csw_bytes(job.tag, job.residue, CommandStatus::Failed),
            )
        }),
{
}

/// A read ends with its last block, and passes with what is left untransferred.
pub proof fn finished_reads_pass(v: Both, job: ReadJob)
    requires
        job.current >= job.end,
    ensures
        device_query(next_read(v, job).device) == DeviceQuery::WritePacket(
            csw_bytes(job.tag, job.residue, CommandStatus::Passed),
        ),
        next_read(v, job).shared == v.shared,
{
}

/// A card that does not give the blocks it is asked for, or gives too few, fails the read.
pub proof fn unreadable_blocks_fail(
    v: Both,
    job: ReadJob,
    index: usize,
    start: u32,
    len: u32,
    blocks: Vec<u8>,
)
    requires
        v.device.stage == (DeviceStage::<Seq<u8>>::Load { job, index, start, len }),
    ensures
        device_query(v.device) == (DeviceQuery::<Seq<u8>>::ReadBlocks { lba: start, count: len }),
        ({
            let after = device_next(v, DeviceReply::Blocks(None));
            &&& after.shared.sense == (Sense { key: 3, asc: 0x11, ascq: 0 })
            &&& device_query(after.device) == DeviceQuery::WritePacket(
                csw_bytes(job.tag, job.residue, CommandStatus::Failed),
            )
        }),
        blocks@.len() != 512 * len ==> device_next(v, DeviceReply::Blocks(Some(blocks))).shared.sense
            == (Sense { key: 3, asc: 0x11, ascq: 0 }),
{
    reveal(on_load);
}

/// What was sent to the host is counted, in blocks, and so is how much of it was at hand.
pub proof fn reads_are_counted(
    v: Both,
    job: ReadJob,
    index: usize,
    from: usize,
    to: usize,
    sent: usize,
    hit: bool,
)
    requires
        v.device.stage == (DeviceStage::<Seq<u8>>::Send { job, index, from, to, sent, hit }),
        from <= sent < to,
        from % 512 == 0,
        to % 512 == 0,
        sent + 64 == to,
        v.shared.attached,
        v.shared.stats.read_blocks + (to - from) / 512 <= u32::MAX,
        v.shared.stats.cache_hit_blocks + (to - from) / 512 <= u32::MAX,
    ensures
        ({
            let after = device_next(v, DeviceReply::Sent(true)).shared;
            let moved = (to - from) / 512;
            &&& after.stats.read_blocks == v.shared.stats.read_blocks + moved
            &&& hit ==> after.stats.cache_hit_blocks == v.shared.stats.cache_hit_blocks + moved
            &&& !hit ==> after.stats.cache_hit_blocks == v.shared.stats.cache_hit_blocks
            &&& after.stats.write_blocks == v.shared.stats.write_blocks
        }),
{
    reveal(on_send);
}

/// What is written is collected eight blocks at a time, or what is left of them.
pub proof fn writes_are_collected_by_eights(v: Both, job: WriteJob)
    ensures
        job.current >= job.end ==> device_query(next_write(v, job).device)
            == DeviceQuery::WritePacket(csw_bytes(job.tag, job.residue, CommandStatus::Passed)),
        job.current < job.end ==> {
            let after = next_write(v, job);
            &&& device_query(after.device) == DeviceQuery::<Seq<u8>>::ReadPacket(64)
            &&& after.device.stage matches DeviceStage::Collect { job: taken, data, want } && taken
                == job && data.len() == 0 && want == if job.end - job.current <= 8 {
                512 * (job.end - job.current)
            } else {
                4096
            }
        },
{
}

/// What was written is counted; what could not be is a medium error, of the kind of a write, and
/// the rest of the host's data is thrown away.
pub proof fn writes_are_counted(v: Both, job: WriteJob, data: Seq<u8>)
    requires
        v.device.stage == (DeviceStage::Store { job, data }),
        data.len() % 512 == 0,
        0 < data.len() <= job.residue,
        v.shared.stats.write_blocks + data.len() / 512 <= u32::MAX,
    ensures
        device_query(v.device) == (DeviceQuery::WriteBlocks { lba: job.current, data }),
        ({
            let after = device_next(v, DeviceReply::Written(true)).shared;
            &&& after.stats.write_blocks == v.shared.stats.write_blocks + data.len() / 512
            &&& after.stats.read_blocks == v.shared.stats.read_blocks
            &&& after.sense == v.shared.sense
        }),
        ({
            let after = device_next(v, DeviceReply::Written(false));
            &&& after.shared.sense == (Sense { key: 3, asc: 0x0c, ascq: 0 })
            &&& after.shared.stats == v.shared.stats
            &&& job.residue == data.len() ==> device_query(after.device)
                == DeviceQuery::WritePacket(csw_bytes(job.tag, job.residue, CommandStatus::Failed))
            &&& job.residue > data.len() ==> after.device.stage == (DeviceStage::<
                Seq<u8>,
            >::Discard {
                tag: job.tag,
                length: (job.residue - data.len()) as u32,
                residue: job.residue,
            })
        }),
{
    reveal(on_store);
}

/// Blocks that were at hand count as such, and blocks that had to be read do not; either way the
/// host gets them from the line that they are in, from the block that is next.
pub proof fn hits_are_told_from_misses(
    v: Both,
    job: ReadJob,
    index: usize,
    start: u32,
    len: u32,
    blocks: Vec<u8>,
)
    requires
        start <= job.current < job.end,
        job.current < start + len,
        len <= 8,
        index < v.device.cache.lines.len(),
        blocks@.len() == 512 * len,
    ensures
        v.device.stage == (DeviceStage::<Seq<u8>>::Load { job, index, start, len }) ==> (device_next(
            v,
            DeviceReply::Blocks(Some(blocks)),
        ).device.stage matches DeviceStage::Send { job: taken, index: line, from, sent, hit, .. }
            && taken == job && line == index && !hit && from == 512 * (job.current - start)
            && sent == from),
        ({
            let at = line_position(v.device.cache.lines, job.current as int);
            at == index ==> (next_read(v, job).device.stage matches DeviceStage::Send {
                job: taken,
                index: line,
                hit,
                ..
            } && taken == job && line == index && hit)
        }),
{
    reveal(on_load);
}

} // verus!
