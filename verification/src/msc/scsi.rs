//! Commands of the host: their wrapper, the state they act on, and what each of
//! them leads to.

use crate::bytes::{
    be16, be32, be32_bytes, le32, le32_bytes, push_be32, push_le32, push_zeros, read_be16,
    read_be32, read_le32, zeros,
};
use crate::msc::cache::BLOCK_LEN;
use vstd::prelude::*;
use vstd::string::*;
use vstd::utf8::*;

verus! {

pub const BULK_PACKET_SIZE: usize = 64;

pub const CBW_SIGNATURE: u32 = 0x4342_5355;

pub const CSW_SIGNATURE: u32 = 0x5342_5355;

pub const CBW_LEN: usize = 31;

pub const REQ_GET_MAX_LUN: u8 = 0xfe;

pub const REQ_BULK_ONLY_RESET: u8 = 0xff;

pub const SCSI_TEST_UNIT_READY: u8 = 0x00;

pub const SCSI_REQUEST_SENSE: u8 = 0x03;

pub const SCSI_INQUIRY: u8 = 0x12;

pub const SCSI_MODE_SENSE_6: u8 = 0x1a;

pub const SCSI_START_STOP_UNIT: u8 = 0x1b;

pub const SCSI_PREVENT_ALLOW_REMOVAL: u8 = 0x1e;

pub const SCSI_READ_FORMAT_CAPACITIES: u8 = 0x23;

pub const SCSI_READ_CAPACITY_10: u8 = 0x25;

pub const SCSI_READ_10: u8 = 0x28;

pub const SCSI_WRITE_10: u8 = 0x2a;

pub const SCSI_VERIFY_10: u8 = 0x2f;

pub const SCSI_SYNCHRONIZE_CACHE_10: u8 = 0x35;

pub const SCSI_MODE_SENSE_10: u8 = 0x5a;

pub const SCSI_SERVICE_ACTION_IN_16: u8 = 0x9e;

pub const SCSI_REPORT_LUNS: u8 = 0xa0;

pub const SENSE_NOT_READY: u8 = 0x02;

pub const SENSE_MEDIUM_ERROR: u8 = 0x03;

pub const SENSE_ILLEGAL_REQUEST: u8 = 0x05;

pub const ASC_MEDIUM_NOT_PRESENT: u8 = 0x3a;

pub const ASC_UNRECOVERED_READ: u8 = 0x11;

pub const ASC_WRITE_ERROR: u8 = 0x0c;

pub const ASC_INVALID_COMMAND: u8 = 0x20;

pub const ASC_INVALID_FIELD: u8 = 0x24;

/// Why the last command failed.
#[derive(Clone, Copy, Debug, PartialEq, Eq, Structural)]
pub struct Sense {
    pub key: u8,
    pub asc: u8,
    pub ascq: u8,
}

/// Nothing went wrong.
pub open spec fn no_sense() -> Sense {
    Sense { key: 0, asc: 0, ascq: 0 }
}

impl Default for Sense {
    fn default() -> (sense: Self)
        ensures
            sense == no_sense(),
    {
        Sense { key: 0, asc: 0, ascq: 0 }
    }
}

/// Transfer counters shown on the USB DISK screen, in 512-byte blocks.
#[derive(Clone, Copy, Debug, PartialEq, Eq, Structural)]
pub struct Stats {
    pub read_blocks: u32,
    pub write_blocks: u32,
    pub cache_hit_blocks: u32,
}

impl Default for Stats {
    fn default() -> (stats: Self)
        ensures
            stats == (Stats { read_blocks: 0, write_blocks: 0, cache_hit_blocks: 0 }),
    {
        Stats { read_blocks: 0, write_blocks: 0, cache_hit_blocks: 0 }
    }
}

/// What the device and the firmware's screen both see.
#[derive(Clone, Copy, Debug, PartialEq, Eq, Structural)]
pub struct SharedState {
    /// Card capacity, read once on attach.
    pub blocks: u32,
    /// Bumped on every attach so the device drops blocks cached in an earlier
    /// session; the firmware may have rewritten the card in between.
    pub generation: u32,
    pub attached: bool,
    pub configured: bool,
    pub ejected: bool,
    pub sense: Sense,
    pub stats: Stats,
}

impl Default for SharedState {
    fn default() -> (shared: Self)
        ensures
            shared == (SharedState {
                blocks: 0,
                generation: 0,
                attached: false,
                configured: false,
                ejected: false,
                sense: no_sense(),
                stats: Stats { read_blocks: 0, write_blocks: 0, cache_hit_blocks: 0 },
            }),
    {
        SharedState {
            blocks: 0,
            generation: 0,
            attached: false,
            configured: false,
            ejected: false,
            sense: Sense::default(),
            stats: Stats::default(),
        }
    }
}

impl SharedState {
    /// The blocks that the host can use: none while the card is away or ejected.
    pub open spec fn usable_blocks(self) -> u32 {
        if self.attached && !self.ejected {
            self.blocks
        } else {
            0
        }
    }

    /// The state with another sense.
    pub open spec fn with_sense(self, key: u8, asc: u8) -> SharedState {
        SharedState { sense: Sense { key, asc, ascq: 0 }, ..self }
    }

    /// The state with the bus enabled or not; only on an enabled bus is the disk configured.
    pub open spec fn with_bus(self, enabled: bool, configured: bool) -> SharedState {
        SharedState { configured: enabled && configured, ..self }
    }

    /// A card of `blocks` blocks is handed to the host.
    pub fn attach(&mut self, blocks: u32)
        ensures
            *final(self) == (SharedState {
                blocks,
                generation: old(self).generation.wrapping_add(1),
                attached: true,
                configured: old(self).configured,
                ejected: false,
                sense: no_sense(),
                stats: Stats { read_blocks: 0, write_blocks: 0, cache_hit_blocks: 0 },
            }),
    {
        self.blocks = blocks;
        self.generation = self.generation.wrapping_add(1);
        self.attached = true;
        self.ejected = false;
        self.sense = Sense::default();
        self.stats = Stats::default();
    }

    /// The card is taken back.
    pub fn detach(&mut self)
        ensures
            *final(self) == (SharedState {
                blocks: 0,
                attached: false,
                configured: false,
                ejected: false,
                ..*old(self)
            }),
    {
        self.blocks = 0;
        self.attached = false;
        self.configured = false;
        self.ejected = false;
    }

    pub fn attached(&self) -> (attached: bool)
        ensures
            attached == self.attached,
    {
        self.attached
    }

    pub fn configured(&self) -> (configured: bool)
        ensures
            configured == self.configured,
    {
        self.configured
    }

    pub fn ejected(&self) -> (ejected: bool)
        ensures
            ejected == self.ejected,
    {
        self.ejected
    }

    pub fn stats(&self) -> (stats: Stats)
        ensures
            stats == self.stats,
    {
        self.stats
    }

    pub fn ready(&self) -> (ready: bool)
        ensures
            ready == (self.usable_blocks() != 0),
    {
        self.block_count() != 0
    }

    pub fn block_count(&self) -> (count: u32)
        ensures
            count == self.usable_blocks(),
    {
        if self.attached && !self.ejected {
            self.blocks
        } else {
            0
        }
    }

    pub fn set_sense(&mut self, key: u8, asc: u8, ascq: u8)
        ensures
            *final(self) == (SharedState { sense: Sense { key, asc, ascq }, ..*old(self) }),
    {
        self.sense = Sense { key, asc, ascq };
    }

    /// The bus was reset.
    pub fn bus_reset(&mut self)
        ensures
            *final(self) == old(self).with_bus(false, false),
    {
        self.configured = false;
    }

    /// The bus was switched on or off.
    pub fn bus_enabled(&mut self, enabled: bool)
        ensures
            *final(self) == old(self).with_bus(enabled, old(self).configured),
    {
        if !enabled {
            self.configured = false;
        }
    }

    /// The host chose the device's configuration, or gave it up.
    pub fn bus_configured(&mut self, configured: bool)
        ensures
            *final(self) == old(self).with_bus(true, configured),
    {
        self.configured = configured;
    }
}

// ---------------------------------------------------------------------------
// Control requests
// ---------------------------------------------------------------------------

/// A request on the control endpoint.
#[derive(Clone, Copy, Debug, PartialEq, Eq, Structural)]
pub struct ControlRequest {
    /// The request is of the class kind and for an interface.
    pub class_interface: bool,
    pub index: u16,
    pub request: u8,
    pub value: u16,
    pub length: u16,
}

/// The answer to a control request.
#[derive(Clone, Copy, Debug, PartialEq, Eq, Structural)]
pub enum ControlReply {
    /// The request is for somebody else.
    Pass,
    Rejected,
    Accepted,
    /// One byte is sent back.
    AcceptedByte(u8),
}

/// The answer to a question of the host on the control pipe.
pub open spec fn asked(request: ControlRequest, interface: u8) -> ControlReply {
    if !request.class_interface || request.index != interface {
        ControlReply::Pass
    } else if request.request == REQ_GET_MAX_LUN && request.value == 0 && request.length == 1 {
        ControlReply::AcceptedByte(0)
    } else {
        ControlReply::Rejected
    }
}

/// The answer to an order of the host on the control pipe.
pub open spec fn ordered(request: ControlRequest, interface: u8, data_len: int) -> ControlReply {
    if !request.class_interface || request.index != interface {
        ControlReply::Pass
    } else if request.request == REQ_BULK_ONLY_RESET && request.value == 0 && request.length == 0
        && data_len == 0 {
        ControlReply::Accepted
    } else {
        ControlReply::Rejected
    }
}

/// A request that asks for data: there is one logical unit, number 0.
pub fn control_in(request: ControlRequest, interface: u8) -> (reply: ControlReply)
    ensures
        reply == asked(request, interface),
{
    if !request.class_interface || request.index != interface as u16 {
        return ControlReply::Pass;
    }
    if request.request == REQ_GET_MAX_LUN && request.value == 0 && request.length == 1 {
        ControlReply::AcceptedByte(0)
    } else {
        ControlReply::Rejected
    }
}

/// A request that brings data: a reset forgets the sense.
pub fn control_out(
    shared: &mut SharedState,
    request: ControlRequest,
    interface: u8,
    data_len: usize,
) -> (reply: ControlReply)
    ensures
        reply == ordered(request, interface, data_len as int),
        *final(shared) == if reply == ControlReply::Accepted {
            SharedState { sense: no_sense(), ..*old(shared) }
        } else {
            *old(shared)
        },
{
    if !request.class_interface || request.index != interface as u16 {
        return ControlReply::Pass;
    }
    if request.request == REQ_BULK_ONLY_RESET && request.value == 0 && request.length == 0
        && data_len == 0 {
        shared.sense = Sense::default();
        ControlReply::Accepted
    } else {
        ControlReply::Rejected
    }
}

// ---------------------------------------------------------------------------
// Command and status wrappers
// ---------------------------------------------------------------------------

/// Which way the data of a command go, seen from the host.
#[derive(Clone, Copy, Debug, PartialEq, Eq, Structural)]
pub enum Direction {
    Out,
    In,
}

/// A command of the host.
pub struct Cbw {
    pub tag: u32,
    pub transfer_len: u32,
    pub direction: Direction,
    pub lun: u8,
    pub command_len: u8,
    /// Sixteen bytes.
    pub command: Vec<u8>,
}

/// What a [`Cbw`] holds.
#[verifier::ext_equal]
pub struct CbwView {
    pub tag: u32,
    pub transfer_len: u32,
    pub direction: Direction,
    pub lun: u8,
    pub command_len: u8,
    pub command: Seq<u8>,
}

impl View for Cbw {
    type V = CbwView;

    open spec fn view(&self) -> CbwView {
        CbwView {
            tag: self.tag,
            transfer_len: self.transfer_len,
            direction: self.direction,
            lun: self.lun,
            command_len: self.command_len,
            command: self.command@,
        }
    }
}

impl CbwView {
    pub open spec fn wf(self) -> bool {
        self.command.len() == 16
    }
}

/// Bytes that are a valid command wrapper.
pub open spec fn is_cbw(bytes: Seq<u8>) -> bool {
    &&& bytes.len() == CBW_LEN
    &&& le32(bytes.subrange(0, 4)) == CBW_SIGNATURE
    &&& 0 < bytes[14] % 32 <= 16
    &&& bytes[13] <= 15
    &&& bytes[12] % 128 == 0
}

/// The command in a valid wrapper.
pub open spec fn cbw_of(bytes: Seq<u8>) -> CbwView {
    CbwView {
        tag: le32(bytes.subrange(4, 8)) as u32,
        transfer_len: le32(bytes.subrange(8, 12)) as u32,
        direction: if bytes[12] < 128 {
            Direction::Out
        } else {
            Direction::In
        },
        lun: bytes[13],
        command_len: bytes[14] % 32,
        command: bytes.subrange(15, 31),
    }
}

impl Cbw {
    /// The command in a wrapper, if it is a valid one.
    pub fn parse(bytes: &[u8]) -> (cbw: Option<Self>)
        ensures
            cbw is Some <==> is_cbw(bytes@),
            cbw matches Some(cbw) ==> cbw@ == cbw_of(bytes@) && cbw@.wf(),
    {
        if bytes.len() != CBW_LEN || read_le32(bytes, 0) != CBW_SIGNATURE {
            return None;
        }
        let command_len: u8 = bytes[14] % 32;
        if command_len == 0 || command_len > 16 || bytes[13] > 15 || bytes[12] % 128 != 0 {
            return None;
        }
        Some(
            Cbw {
                tag: read_le32(bytes, 4),
                transfer_len: read_le32(bytes, 8),
                direction: if bytes[12] < 128 {
                    Direction::Out
                } else {
                    Direction::In
                },
                lun: bytes[13],
                command_len,
                command: crate::bytes::copy_range(bytes, 15, 31),
            },
        )
    }
}

/// How a command ended.
#[derive(Clone, Copy, Debug, PartialEq, Eq, Structural)]
pub enum CommandStatus {
    Passed,
    Failed,
    PhaseError,
}

/// The status wrapper that ends a command.
pub open spec fn csw_bytes(tag: u32, residue: u32, status: CommandStatus) -> Seq<u8> {
    le32_bytes(CSW_SIGNATURE) + le32_bytes(tag) + le32_bytes(residue) + seq![
        match status {
            CommandStatus::Passed => 0u8,
            CommandStatus::Failed => 1u8,
            CommandStatus::PhaseError => 2u8,
        },
    ]
}

/// The status wrapper that ends a command.
pub fn make_csw(tag: u32, residue: u32, status: CommandStatus) -> (bytes: Vec<u8>)
    ensures
        bytes@ == csw_bytes(tag, residue, status),
{
    let mut bytes: Vec<u8> = Vec::new();
    push_le32(&mut bytes, CSW_SIGNATURE);
    push_le32(&mut bytes, tag);
    push_le32(&mut bytes, residue);
    bytes.push(
        match status {
            CommandStatus::Passed => 0u8,
            CommandStatus::Failed => 1u8,
            CommandStatus::PhaseError => 2u8,
        },
    );
    assert(bytes@ =~= csw_bytes(tag, residue, status));
    bytes
}

/// The host reads back from a status wrapper what the device put into it.
pub proof fn csw_reads_back(tag: u32, residue: u32, status: CommandStatus)
    ensures
        ({
            let bytes = csw_bytes(tag, residue, status);
            &&& bytes.len() == 13
            &&& le32(bytes.subrange(0, 4)) == CSW_SIGNATURE
            &&& le32(bytes.subrange(4, 8)) == tag
            &&& le32(bytes.subrange(8, 12)) == residue
            &&& bytes[12] == 0 <==> status == CommandStatus::Passed
            &&& bytes[12] == 1 <==> status == CommandStatus::Failed
        }),
{
    let bytes = csw_bytes(tag, residue, status);
    crate::bytes::words_read_back(CSW_SIGNATURE);
    crate::bytes::words_read_back(tag);
    crate::bytes::words_read_back(residue);
    assert(bytes.subrange(0, 4) =~= le32_bytes(CSW_SIGNATURE));
    assert(bytes.subrange(4, 8) =~= le32_bytes(tag));
    assert(bytes.subrange(8, 12) =~= le32_bytes(residue));
}

// ---------------------------------------------------------------------------
// What commands lead to
// ---------------------------------------------------------------------------

/// What a command leads to.
pub enum Decision<B> {
    /// The command is over.
    Finish { residue: u32, status: CommandStatus },
    /// Data are sent; a sense that was reported is forgotten.
    Respond { data: B, clears_sense: bool },
    /// Blocks are read, from a card of `capacity` blocks.
    Read { lba: u32, blocks: u32, capacity: u32 },
    /// Blocks are written.
    Write { lba: u32, blocks: u32 },
    /// The host's data are thrown away, and the command fails.
    Refuse { length: u32 },
}

impl Decision<Vec<u8>> {
    pub open spec fn view(self) -> Decision<Seq<u8>> {
        match self {
            Decision::Finish { residue, status } => Decision::Finish { residue, status },
            Decision::Respond { data, clears_sense } => Decision::Respond {
                data: data@,
                clears_sense,
            },
            Decision::Read { lba, blocks, capacity } => Decision::Read { lba, blocks, capacity },
            Decision::Write { lba, blocks } => Decision::Write { lba, blocks },
            Decision::Refuse { length } => Decision::Refuse { length },
        }
    }
}

/// The command is over with nothing moved.
pub open spec fn finish(cbw: CbwView, status: CommandStatus) -> Decision<Seq<u8>> {
    Decision::Finish { residue: cbw.transfer_len, status }
}

/// Data for the host, unless it means to send some itself.
pub open spec fn respond(cbw: CbwView, data: Seq<u8>) -> Decision<Seq<u8>> {
    if cbw.direction != Direction::In && cbw.transfer_len != 0 {
        finish(cbw, CommandStatus::PhaseError)
    } else {
        Decision::Respond { data, clears_sense: cbw.command[0] == SCSI_REQUEST_SENSE }
    }
}

/// The reply to REQUEST SENSE.
pub open spec fn sense_data(sense: Sense) -> Seq<u8> {
    seq![
        0x70u8,
        0u8,
        sense.key,
        0u8,
        0u8,
        0u8,
        0u8,
        10u8,
        0u8,
        0u8,
        0u8,
        0u8,
        sense.asc,
        sense.ascq,
        0u8,
        0u8,
        0u8,
        0u8,
    ]
}

/// The reply to INQUIRY: a removable disk.
pub open spec fn inquiry_data() -> Seq<u8> {
    seq![0u8, 0x80u8, 0x05u8, 0x02u8, 31u8, 0u8, 0u8, 0u8] + encode_utf8("RATPUTER"@)
        + encode_utf8("SD CARD         "@) + encode_utf8("1.0 "@)
}

/// The vital product data pages of INQUIRY.
pub open spec fn vital_page(page: u8) -> Option<Seq<u8>> {
    if page == 0x00 {
        Some(seq![0u8, 0u8, 0u8, 3u8, 0u8, 0x80u8, 0x83u8])
    } else if page == 0x80 {
        Some(seq![0u8, 0x80u8, 0u8, 12u8] + encode_utf8("RATPUTER-ADV"@))
    } else if page == 0x83 {
        Some(seq![0u8, 0x83u8, 0u8, 0u8])
    } else {
        None
    }
}

pub open spec fn inquiry_decision(cbw: CbwView, shared: SharedState) -> (
    SharedState,
    Decision<Seq<u8>>,
) {
    let vital = cbw.command[1] % 2 == 1;
    let page = cbw.command[2];
    let invalid = (
        shared.with_sense(SENSE_ILLEGAL_REQUEST, ASC_INVALID_FIELD),
        finish(cbw, CommandStatus::Failed),
    );
    if !vital {
        if page != 0 {
            invalid
        } else {
            (shared, respond(cbw, inquiry_data()))
        }
    } else {
        match vital_page(page) {
            Some(data) => (shared, respond(cbw, data)),
            None => invalid,
        }
    }
}

/// A command that moves no data.
pub open spec fn no_data_decision(cbw: CbwView, shared: SharedState) -> (
    SharedState,
    Decision<Seq<u8>>,
) {
    if cbw.transfer_len == 0 {
        (shared, Decision::Finish { residue: 0, status: CommandStatus::Passed })
    } else {
        (
            shared.with_sense(SENSE_ILLEGAL_REQUEST, ASC_INVALID_FIELD),
            finish(cbw, CommandStatus::PhaseError),
        )
    }
}

pub open spec fn ready_decision(cbw: CbwView, shared: SharedState) -> (
    SharedState,
    Decision<Seq<u8>>,
) {
    if cbw.transfer_len != 0 {
        (shared, finish(cbw, CommandStatus::PhaseError))
    } else if shared.usable_blocks() != 0 {
        (shared, Decision::Finish { residue: 0, status: CommandStatus::Passed })
    } else {
        (
            shared.with_sense(SENSE_NOT_READY, ASC_MEDIUM_NOT_PRESENT),
            Decision::Finish { residue: 0, status: CommandStatus::Failed },
        )
    }
}

/// START STOP UNIT: the host loads or ejects the card.
pub open spec fn start_stop_decision(cbw: CbwView, shared: SharedState) -> (
    SharedState,
    Decision<Seq<u8>>,
) {
    if cbw.transfer_len != 0 {
        (shared, finish(cbw, CommandStatus::PhaseError))
    } else {
        (
            if cbw.command[4] / 2 % 2 == 1 {
                SharedState { ejected: cbw.command[4] % 2 == 0, ..shared }
            } else {
                shared
            },
            Decision::Finish { residue: 0, status: CommandStatus::Passed },
        )
    }
}

/// The reply to READ CAPACITY(10): the last block and the length of a block.
pub open spec fn capacity_data(count: u32) -> Seq<u8> {
    be32_bytes((count - 1) as u32) + be32_bytes(512)
}

/// The reply to READ CAPACITY(16).
pub open spec fn long_capacity_data(count: u32) -> Seq<u8> {
    zeros(4) + be32_bytes((count - 1) as u32) + be32_bytes(512) + zeros(20)
}

/// The reply to READ FORMAT CAPACITIES.
pub open spec fn format_capacity_data(count: u32) -> Seq<u8> {
    seq![0u8, 0u8, 0u8, 8u8] + be32_bytes(count) + seq![2u8, 0u8, 2u8, 0u8]
}

/// The reply to REPORT LUNS.
pub open spec fn luns_data() -> Seq<u8> {
    be32_bytes(8) + zeros(12)
}

pub open spec fn capacity_decision(cbw: CbwView, shared: SharedState) -> (
    SharedState,
    Decision<Seq<u8>>,
) {
    let count = shared.usable_blocks();
    if count == 0 {
        (
            shared.with_sense(SENSE_NOT_READY, ASC_MEDIUM_NOT_PRESENT),
            finish(cbw, CommandStatus::Failed),
        )
    } else {
        (shared, respond(cbw, capacity_data(count)))
    }
}

pub open spec fn long_capacity_decision(cbw: CbwView, shared: SharedState) -> (
    SharedState,
    Decision<Seq<u8>>,
) {
    let count = shared.usable_blocks();
    if count == 0 {
        (shared, finish(cbw, CommandStatus::Failed))
    } else {
        (shared, respond(cbw, long_capacity_data(count)))
    }
}

/// READ(10) and WRITE(10): the first block and the number of blocks.
pub open spec fn block_range(command: Seq<u8>) -> (u32, u32) {
    (be32(command.subrange(2, 6)) as u32, be16(command.subrange(7, 9)) as u32)
}

/// READ(10): blocks that the card has, in the direction and of the length that
/// the host announced.
pub open spec fn read_decision(cbw: CbwView, shared: SharedState) -> (
    SharedState,
    Decision<Seq<u8>>,
) {
    let (lba, blocks) = block_range(cbw.command);
    if cbw.direction != Direction::In || cbw.transfer_len != blocks * BLOCK_LEN {
        (shared, finish(cbw, CommandStatus::PhaseError))
    } else if blocks == 0 {
        (shared, Decision::Finish { residue: 0, status: CommandStatus::Passed })
    } else if lba + blocks > shared.usable_blocks() {
        (
            shared.with_sense(SENSE_ILLEGAL_REQUEST, ASC_INVALID_FIELD),
            finish(cbw, CommandStatus::Failed),
        )
    } else {
        (shared, Decision::Read { lba, blocks, capacity: shared.usable_blocks() })
    }
}

/// WRITE(10): likewise; what the host sends for other blocks is thrown away.
pub open spec fn write_decision(cbw: CbwView, shared: SharedState) -> (
    SharedState,
    Decision<Seq<u8>>,
) {
    let (lba, blocks) = block_range(cbw.command);
    if cbw.direction != Direction::Out || cbw.transfer_len != blocks * BLOCK_LEN {
        (shared, finish(cbw, CommandStatus::PhaseError))
    } else if blocks == 0 {
        (shared, Decision::Finish { residue: 0, status: CommandStatus::Passed })
    } else if lba + blocks > shared.usable_blocks() {
        (
            shared.with_sense(SENSE_ILLEGAL_REQUEST, ASC_INVALID_FIELD),
            Decision::Refuse { length: cbw.transfer_len },
        )
    } else {
        (shared, Decision::Write { lba, blocks })
    }
}

/// What a command leads to.
pub open spec fn decided(cbw: CbwView, shared: SharedState) -> (SharedState, Decision<Seq<u8>>) {
    let code = cbw.command[0];
    if code == SCSI_TEST_UNIT_READY {
        ready_decision(cbw, shared)
    } else if code == SCSI_REQUEST_SENSE {
        (shared, respond(cbw, sense_data(shared.sense)))
    } else if code == SCSI_INQUIRY {
        inquiry_decision(cbw, shared)
    } else if code == SCSI_MODE_SENSE_6 {
        (shared, respond(cbw, seq![3u8, 0u8, 0u8, 0u8]))
    } else if code == SCSI_MODE_SENSE_10 {
        (shared, respond(cbw, seq![0u8, 6u8, 0u8, 0u8, 0u8, 0u8, 0u8, 0u8]))
    } else if code == SCSI_START_STOP_UNIT {
        start_stop_decision(cbw, shared)
    } else if code == SCSI_PREVENT_ALLOW_REMOVAL || code == SCSI_SYNCHRONIZE_CACHE_10 {
        no_data_decision(cbw, shared)
    } else if code == SCSI_READ_FORMAT_CAPACITIES {
        (shared, respond(cbw, format_capacity_data(shared.usable_blocks())))
    } else if code == SCSI_READ_CAPACITY_10 {
        capacity_decision(cbw, shared)
    } else if code == SCSI_SERVICE_ACTION_IN_16 && cbw.command[1] % 32 == 0x10 {
        long_capacity_decision(cbw, shared)
    } else if code == SCSI_REPORT_LUNS {
        (shared, respond(cbw, luns_data()))
    } else if code == SCSI_READ_10 {
        read_decision(cbw, shared)
    } else if code == SCSI_WRITE_10 {
        write_decision(cbw, shared)
    } else if code == SCSI_VERIFY_10 && cbw.command[1] / 2 % 2 == 0 {
        no_data_decision(cbw, shared)
    } else {
        (
            shared.with_sense(SENSE_ILLEGAL_REQUEST, ASC_INVALID_COMMAND),
            finish(cbw, CommandStatus::Failed),
        )
    }
}

impl Cbw {
    fn finish(&self, status: CommandStatus) -> (decision: Decision<Vec<u8>>)
        ensures
            decision.view() == finish(self@, status),
    {
        Decision::Finish { residue: self.transfer_len, status }
    }

    fn passed(&self) -> (decision: Decision<Vec<u8>>)
        ensures
            decision.view() == (Decision::<Seq<u8>>::Finish {
                residue: 0,
                status: CommandStatus::Passed,
            }),
    {
        Decision::Finish { residue: 0, status: CommandStatus::Passed }
    }

    fn respond(&self, data: Vec<u8>) -> (decision: Decision<Vec<u8>>)
        requires
            self@.wf(),
        ensures
            decision.view() == respond(self@, data@),
    {
        if self.direction != Direction::In && self.transfer_len != 0 {
            self.finish(CommandStatus::PhaseError)
        } else {
            Decision::Respond { data, clears_sense: self.command[0] == SCSI_REQUEST_SENSE }
        }
    }

    fn no_data(&self, shared: &mut SharedState) -> (decision: Decision<Vec<u8>>)
        ensures
            (*final(shared), decision.view()) == no_data_decision(self@, *old(shared)),
    {
        if self.transfer_len == 0 {
            self.passed()
        } else {
            shared.set_sense(SENSE_ILLEGAL_REQUEST, ASC_INVALID_FIELD, 0);
            self.finish(CommandStatus::PhaseError)
        }
    }

    fn test_unit_ready(&self, shared: &mut SharedState) -> (decision: Decision<Vec<u8>>)
        ensures
            (*final(shared), decision.view()) == ready_decision(self@, *old(shared)),
    {
        if self.transfer_len != 0 {
            return self.finish(CommandStatus::PhaseError);
        }
        if shared.ready() {
            self.passed()
        } else {
            shared.set_sense(SENSE_NOT_READY, ASC_MEDIUM_NOT_PRESENT, 0);
            Decision::Finish { residue: 0, status: CommandStatus::Failed }
        }
    }

    fn start_stop(&self, shared: &mut SharedState) -> (decision: Decision<Vec<u8>>)
        requires
            self@.wf(),
        ensures
            (*final(shared), decision.view()) == start_stop_decision(self@, *old(shared)),
    {
        if self.transfer_len != 0 {
            return self.finish(CommandStatus::PhaseError);
        }
        let load_eject = self.command[4] / 2 % 2 == 1;
        let start = self.command[4] % 2 == 1;
        if load_eject {
            shared.ejected = !start;
        }
        self.passed()
    }

    fn request_sense(&self, shared: &SharedState) -> (decision: Decision<Vec<u8>>)
        requires
            self@.wf(),
        ensures
            decision.view() == respond(self@, sense_data(shared.sense)),
    {
        let sense = shared.sense;
        let mut data: Vec<u8> = Vec::new();
        data.push(0x70);
        data.push(0);
        data.push(sense.key);
        push_zeros(&mut data, 4);
        data.push(10);
        push_zeros(&mut data, 4);
        data.push(sense.asc);
        data.push(sense.ascq);
        push_zeros(&mut data, 4);
        assert(data@ =~= sense_data(sense));
        self.respond(data)
    }

    fn inquiry(&self, shared: &mut SharedState) -> (decision: Decision<Vec<u8>>)
        requires
            self@.wf(),
        ensures
            (*final(shared), decision.view()) == inquiry_decision(self@, *old(shared)),
    {
        let vital = self.command[1] % 2 == 1;
        let page: u8 = self.command[2];
        let mut data: Vec<u8> = Vec::new();
        if !vital {
            if page != 0 {
                shared.set_sense(SENSE_ILLEGAL_REQUEST, ASC_INVALID_FIELD, 0);
                return self.finish(CommandStatus::Failed);
            }
            data.push(0);
            data.push(0x80);
            data.push(0x05);
            data.push(0x02);
            data.push(31);
            push_zeros(&mut data, 3);
            data.extend_from_slice("RATPUTER".as_bytes());
            data.extend_from_slice("SD CARD         ".as_bytes());
            data.extend_from_slice("1.0 ".as_bytes());
            assert(data@ =~= inquiry_data());
            return self.respond(data);
        }
        if page == 0x00 {
            data.push(0);
            data.push(0);
            data.push(0);
            data.push(3);
            data.push(0);
            data.push(0x80);
            data.push(0x83);
            assert(data@ =~= vital_page(page)->0);
        } else if page == 0x80 {
            data.push(0);
            data.push(0x80);
            data.push(0);
            data.push(12);
            data.extend_from_slice("RATPUTER-ADV".as_bytes());
            assert(data@ =~= vital_page(page)->0);
        } else if page == 0x83 {
            data.push(0);
            data.push(0x83);
            data.push(0);
            data.push(0);
            assert(data@ =~= vital_page(page)->0);
        } else {
            shared.set_sense(SENSE_ILLEGAL_REQUEST, ASC_INVALID_FIELD, 0);
            return self.finish(CommandStatus::Failed);
        }
        self.respond(data)
    }

    fn mode_sense_6(&self) -> (decision: Decision<Vec<u8>>)
        requires
            self@.wf(),
        ensures
            decision.view() == respond(self@, seq![3u8, 0u8, 0u8, 0u8]),
    {
        // Four-byte header, no block descriptor and no mode pages.
        let mut data: Vec<u8> = Vec::new();
        data.push(3);
        push_zeros(&mut data, 3);
        assert(data@ =~= seq![3u8, 0u8, 0u8, 0u8]);
        self.respond(data)
    }

    fn mode_sense_10(&self) -> (decision: Decision<Vec<u8>>)
        requires
            self@.wf(),
        ensures
            decision.view() == respond(self@, seq![0u8, 6u8, 0u8, 0u8, 0u8, 0u8, 0u8, 0u8]),
    {
        let mut data: Vec<u8> = Vec::new();
        data.push(0);
        data.push(6);
        push_zeros(&mut data, 6);
        assert(data@ =~= seq![0u8, 6u8, 0u8, 0u8, 0u8, 0u8, 0u8, 0u8]);
        self.respond(data)
    }

    fn read_capacity_10(&self, shared: &mut SharedState) -> (decision: Decision<Vec<u8>>)
        requires
            self@.wf(),
        ensures
            (*final(shared), decision.view()) == capacity_decision(self@, *old(shared)),
    {
        let count: u32 = shared.block_count();
        if count == 0 {
            shared.set_sense(SENSE_NOT_READY, ASC_MEDIUM_NOT_PRESENT, 0);
            return self.finish(CommandStatus::Failed);
        }
        let mut data: Vec<u8> = Vec::new();
        push_be32(&mut data, count - 1);
        push_be32(&mut data, 512);
        assert(data@ =~= capacity_data(count));
        self.respond(data)
    }

    fn read_capacity_16(&self, shared: &SharedState) -> (decision: Decision<Vec<u8>>)
        requires
            self@.wf(),
        ensures
            (*shared, decision.view()) == long_capacity_decision(self@, *shared),
    {
        let count: u32 = shared.block_count();
        if count == 0 {
            return self.finish(CommandStatus::Failed);
        }
        let mut data: Vec<u8> = Vec::new();
        push_zeros(&mut data, 4);
        push_be32(&mut data, count - 1);
        push_be32(&mut data, 512);
        push_zeros(&mut data, 20);
        assert(data@ =~= long_capacity_data(count));
        self.respond(data)
    }

    fn read_format_capacities(&self, shared: &SharedState) -> (decision: Decision<Vec<u8>>)
        requires
            self@.wf(),
        ensures
            decision.view() == respond(self@, format_capacity_data(shared.usable_blocks())),
    {
        let count: u32 = shared.block_count();
        let mut data: Vec<u8> = Vec::new();
        push_zeros(&mut data, 3);
        data.push(8);
        push_be32(&mut data, count);
        data.push(2);
        data.push(0);
        data.push(2);
        data.push(0);
        assert(data@ =~= format_capacity_data(count));
        self.respond(data)
    }

    fn report_luns(&self) -> (decision: Decision<Vec<u8>>)
        requires
            self@.wf(),
        ensures
            decision.view() == respond(self@, luns_data()),
    {
        let mut data: Vec<u8> = Vec::new();
        push_be32(&mut data, 8);
        push_zeros(&mut data, 12);
        assert(data@ =~= luns_data());
        self.respond(data)
    }

    fn read_10(&self, shared: &mut SharedState) -> (decision: Decision<Vec<u8>>)
        requires
            self@.wf(),
        ensures
            (*final(shared), decision.view()) == read_decision(self@, *old(shared)),
    {
        let lba: u32 = read_be32(self.command.as_slice(), 2);
        let blocks: u32 = read_be16(self.command.as_slice(), 7);
        if self.direction != Direction::In || self.transfer_len != blocks * 512 {
            return self.finish(CommandStatus::PhaseError);
        }
        if blocks == 0 {
            return self.passed();
        }
        let capacity: u32 = shared.block_count();
        if lba as u64 + blocks as u64 > capacity as u64 {
            shared.set_sense(SENSE_ILLEGAL_REQUEST, ASC_INVALID_FIELD, 0);
            return self.finish(CommandStatus::Failed);
        }
        Decision::Read { lba, blocks, capacity }
    }

    fn write_10(&self, shared: &mut SharedState) -> (decision: Decision<Vec<u8>>)
        requires
            self@.wf(),
        ensures
            (*final(shared), decision.view()) == write_decision(self@, *old(shared)),
    {
        let lba: u32 = read_be32(self.command.as_slice(), 2);
        let blocks: u32 = read_be16(self.command.as_slice(), 7);
        if self.direction != Direction::Out || self.transfer_len != blocks * 512 {
            return self.finish(CommandStatus::PhaseError);
        }
        if blocks == 0 {
            return self.passed();
        }
        if lba as u64 + blocks as u64 > shared.block_count() as u64 {
            shared.set_sense(SENSE_ILLEGAL_REQUEST, ASC_INVALID_FIELD, 0);
            return Decision::Refuse { length: self.transfer_len };
        }
        Decision::Write { lba, blocks }
    }

    /// Decides what the command leads to.
    pub fn decide(&self, shared: &mut SharedState) -> (decision: Decision<Vec<u8>>)
        requires
            self@.wf(),
        ensures
            (*final(shared), decision.view()) == decided(self@, *old(shared)),
    {
        let code: u8 = self.command[0];
        if code == SCSI_TEST_UNIT_READY {
            self.test_unit_ready(shared)
        } else if code == SCSI_REQUEST_SENSE {
            self.request_sense(shared)
        } else if code == SCSI_INQUIRY {
            self.inquiry(shared)
        } else if code == SCSI_MODE_SENSE_6 {
            self.mode_sense_6()
        } else if code == SCSI_MODE_SENSE_10 {
            self.mode_sense_10()
        } else if code == SCSI_START_STOP_UNIT {
            self.start_stop(shared)
        } else if code == SCSI_PREVENT_ALLOW_REMOVAL || code == SCSI_SYNCHRONIZE_CACHE_10 {
            self.no_data(shared)
        } else if code == SCSI_READ_FORMAT_CAPACITIES {
            self.read_format_capacities(shared)
        } else if code == SCSI_READ_CAPACITY_10 {
            self.read_capacity_10(shared)
        } else if code == SCSI_SERVICE_ACTION_IN_16 && self.command[1] % 32 == 0x10 {
            self.read_capacity_16(shared)
        } else if code == SCSI_REPORT_LUNS {
            self.report_luns()
        } else if code == SCSI_READ_10 {
            self.read_10(shared)
        } else if code == SCSI_WRITE_10 {
            self.write_10(shared)
        } else if code == SCSI_VERIFY_10 && self.command[1] / 2 % 2 == 0 {
            self.no_data(shared)
        } else {
            shared.set_sense(SENSE_ILLEGAL_REQUEST, ASC_INVALID_COMMAND, 0);
            self.finish(CommandStatus::Failed)
        }
    }
}

} // verus!
