use ratputer::msc::cache::{BlockCache, CACHE_LINES, LINE_BLOCKS, STREAM_LINE};
use ratputer::msc::device::{DeviceQuery, DeviceReply, MscClass};
use ratputer::msc::scsi::{
    control_in, control_out, make_csw, Cbw, CommandStatus, ControlReply, ControlRequest, Direction,
    SharedState,
};

struct Host {
    device: MscClass,
    shared: SharedState,
    card: Vec<u8>,
    card_reads: usize,
    broken: bool,
    /// How many times the card takes blocks before it stops.
    stores: usize,
}

struct Outcome {
    data: Vec<u8>,
    tag: u32,
    residue: u32,
    status: u8,
}

fn cbw(tag: u32, length: u32, into: bool, command: &[u8]) -> Vec<u8> {
    let mut bytes = Vec::new();
    bytes.extend_from_slice(&0x4342_5355_u32.to_le_bytes());
    bytes.extend_from_slice(&tag.to_le_bytes());
    bytes.extend_from_slice(&length.to_le_bytes());
    bytes.push(if into { 0x80 } else { 0 });
    bytes.push(0);
    bytes.push(command.len() as u8);
    bytes.extend_from_slice(command);
    bytes.resize(31, 0);
    bytes
}

fn rw(code: u8, lba: u32, blocks: u16) -> Vec<u8> {
    let mut command = vec![code, 0];
    command.extend_from_slice(&lba.to_be_bytes());
    command.push(0);
    command.extend_from_slice(&blocks.to_be_bytes());
    command.push(0);
    command
}

impl Host {
    fn new(blocks: u32) -> Self {
        let mut shared = SharedState::default();
        shared.attach(blocks);
        Host {
            device: MscClass::new(),
            shared,
            card: (0..blocks * 512).map(|i| (i / 3) as u8).collect(),
            card_reads: 0,
            broken: false,
            stores: usize::MAX,
        }
    }

    /// Runs one command; `input` is what the host sends after it.
    fn run(&mut self, command: Vec<u8>, input: &[u8]) -> Outcome {
        let mut sent = Vec::new();
        let mut input = input.to_vec();
        let mut first = Some(command);
        loop {
            let reply = match self.device.query() {
                DeviceQuery::ReadCommand => match first.take() {
                    Some(command) => DeviceReply::Packet(command),
                    None => break,
                },
                DeviceQuery::WritePacket(packet) => {
                    assert!(packet.len() <= 64);
                    sent.extend_from_slice(&packet);
                    DeviceReply::Sent(true)
                }
                DeviceQuery::ReadPacket(len) => {
                    assert!(len <= 64 && len <= input.len());
                    DeviceReply::Packet(input.drain(..len).collect())
                }
                DeviceQuery::ReadBlocks { lba, count } => {
                    self.card_reads += 1;
                    let from = lba as usize * 512;
                    let to = from + count as usize * 512;
                    DeviceReply::Blocks(if self.broken {
                        None
                    } else {
                        Some(self.card[from..to].to_vec())
                    })
                }
                DeviceQuery::WriteBlocks { lba, data } => {
                    let from = lba as usize * 512;
                    let takes = !self.broken && self.stores > 0;
                    if takes {
                        self.stores -= 1;
                        self.card[from..from + data.len()].copy_from_slice(&data);
                    }
                    DeviceReply::Written(takes)
                }
                DeviceQuery::WaitOutEnabled | DeviceQuery::WaitInEnabled => DeviceReply::Enabled,
            };
            self.device.resume(&mut self.shared, reply);
        }
        assert!(input.is_empty());
        let csw = sent.split_off(sent.len() - 13);
        assert_eq!(csw[..4], 0x5342_5355_u32.to_le_bytes());
        Outcome {
            data: sent,
            tag: u32::from_le_bytes([csw[4], csw[5], csw[6], csw[7]]),
            residue: u32::from_le_bytes([csw[8], csw[9], csw[10], csw[11]]),
            status: csw[12],
        }
    }

    fn read(&mut self, lba: u32, blocks: u16) -> Outcome {
        self.run(cbw(7, u32::from(blocks) * 512, true, &rw(0x28, lba, blocks)), &[])
    }
}

#[test]
fn commands_are_parsed() {
    let bytes = cbw(0x0102_0304, 512, true, &[0x12, 1, 2]);
    let command = Cbw::parse(&bytes).unwrap();
    assert_eq!((command.tag, command.transfer_len), (0x0102_0304, 512));
    assert_eq!(command.direction, Direction::In);
    assert_eq!(command.command_len, 3);
    assert_eq!(command.command[..3], [0x12, 1, 2]);
    assert!(Cbw::parse(&bytes[..30]).is_none());
    let mut wrong = bytes.clone();
    wrong[0] = 0;
    assert!(Cbw::parse(&wrong).is_none());
    let csw = make_csw(5, 6, CommandStatus::PhaseError);
    assert_eq!(csw, [0x55, 0x53, 0x42, 0x53, 5, 0, 0, 0, 6, 0, 0, 0, 2]);
}

#[test]
fn requests_on_the_control_endpoint() {
    let mut shared = SharedState::default();
    let request = ControlRequest {
        class_interface: true,
        index: 0,
        request: 0xfe,
        value: 0,
        length: 1,
    };
    assert_eq!(control_in(request, 0), ControlReply::AcceptedByte(0));
    assert_eq!(control_in(request, 1), ControlReply::Pass);
    let other = ControlRequest { request: 0x01, ..request };
    assert_eq!(control_in(other, 0), ControlReply::Rejected);
    let reset = ControlRequest { request: 0xff, length: 0, ..request };
    assert_eq!(control_out(&mut shared, reset, 0, 0), ControlReply::Accepted);
    let foreign = ControlRequest { class_interface: false, ..reset };
    assert_eq!(control_out(&mut shared, foreign, 0, 0), ControlReply::Pass);
}

#[test]
fn capacity_and_inquiry() {
    let mut host = Host::new(1000);
    let outcome = host.run(cbw(1, 8, true, &[0x25]), &[]);
    assert_eq!(outcome.data, [0, 0, 3, 231, 0, 0, 2, 0]);
    assert_eq!((outcome.tag, outcome.residue, outcome.status), (1, 0, 0));
    let outcome = host.run(cbw(2, 36, true, &[0x12, 0, 0, 0, 36]), &[]);
    assert_eq!(outcome.data.len(), 36);
    assert_eq!(outcome.status, 0);
    let outcome = host.run(cbw(3, 0, false, &[0x00]), &[]);
    assert_eq!((outcome.tag, outcome.status), (3, 0));
}

#[test]
fn blocks_are_read_through_the_cache() {
    let mut host = Host::new(64);
    let outcome = host.read(3, 2);
    assert_eq!((outcome.status, outcome.residue), (0, 0));
    assert_eq!(outcome.data, host.card[3 * 512..5 * 512]);
    assert_eq!(host.card_reads, 1);
    let outcome = host.read(4, 1);
    assert_eq!(outcome.data, host.card[4 * 512..5 * 512]);
    assert_eq!(host.card_reads, 1);
    assert_eq!(host.shared.stats.read_blocks, 3);
    assert_eq!(host.shared.stats.cache_hit_blocks, 1);
    let outcome = host.read(0, 64);
    assert_eq!(outcome.data, host.card);
}

#[test]
fn blocks_that_were_written_read_back() {
    let mut host = Host::new(64);
    host.read(8, 8);
    let data: Vec<u8> = (0..1024).map(|i| (i * 5) as u8).collect();
    let outcome = host.run(cbw(9, 1024, false, &rw(0x2a, 10, 2)), &data);
    assert_eq!((outcome.tag, outcome.status, outcome.residue), (9, 0, 0));
    assert_eq!(host.card[10 * 512..12 * 512], data);
    assert_eq!(host.shared.stats.write_blocks, 2);
    let outcome = host.read(10, 2);
    assert_eq!(outcome.data, data);
    let outcome = host.read(9, 1);
    assert_eq!(outcome.data, host.card[9 * 512..10 * 512]);
}

#[test]
fn a_long_write_changes_only_its_blocks() {
    let mut host = Host::new(64);
    let before = host.card.clone();
    let data: Vec<u8> = (0..20 * 512).map(|i| (i * 7 + i / 512) as u8).collect();
    let outcome = host.run(cbw(3, 20 * 512, false, &rw(0x2a, 5, 20)), &data);
    assert_eq!((outcome.tag, outcome.status, outcome.residue), (3, 0, 0));
    assert_eq!(host.card[5 * 512..25 * 512], data);
    assert_eq!(host.card[..5 * 512], before[..5 * 512]);
    assert_eq!(host.card[25 * 512..], before[25 * 512..]);
    assert_eq!(host.read(5, 20).data, data);
}

#[test]
fn a_write_that_the_card_refuses_leaves_a_residue() {
    let mut host = Host::new(64);
    let data: Vec<u8> = (0..20 * 512).map(|i| (i * 7) as u8).collect();
    host.stores = 1;
    let outcome = host.run(cbw(3, 20 * 512, false, &rw(0x2a, 5, 20)), &data);
    assert_eq!((outcome.tag, outcome.status), (3, 1));
    assert_eq!(outcome.residue, (20 - LINE_BLOCKS) * 512);
    let taken = LINE_BLOCKS as usize * 512;
    assert_eq!(host.card[5 * 512..5 * 512 + taken], data[..taken]);
    let sense = host.run(cbw(4, 18, true, &[0x03, 0, 0, 0, 18]), &[]);
    assert_eq!((sense.data[2], sense.data[12], sense.data[13]), (0x03, 0x0c, 0));
}

#[test]
fn a_card_that_comes_back_is_read_anew() {
    let mut host = Host::new(64);
    host.read(0, 1);
    host.shared.detach();
    host.card[0] ^= 0xff;
    host.shared.attach(64);
    let outcome = host.read(0, 1);
    assert_eq!(outcome.data, host.card[..512]);
}

#[test]
fn commands_fail_with_a_sense() {
    let mut host = Host::new(64);
    let outcome = host.read(64, 1);
    assert_eq!(outcome.status, 1);
    let sense = host.run(cbw(4, 18, true, &[0x03, 0, 0, 0, 18]), &[]);
    assert_eq!(sense.data[2], 0x05);
    host.broken = true;
    let outcome = host.read(0, 1);
    assert_eq!((outcome.status, outcome.residue), (1, 512));
    let sense = host.run(cbw(4, 18, true, &[0x03, 0, 0, 0, 18]), &[]);
    assert_eq!((sense.data[2], sense.data[12]), (0x03, 0x11));
    let outcome = host.run(cbw(5, 512, false, &rw(0x2a, 0, 1)), &[0; 512]);
    assert_eq!(outcome.status, 1);
    let sense = host.run(cbw(4, 18, true, &[0x03, 0, 0, 0, 18]), &[]);
    assert_eq!((sense.data[2], sense.data[12]), (0x03, 0x0c));
    let outcome = host.run(cbw(6, 0, false, &[0xab]), &[]);
    assert_eq!(outcome.status, 1);
    let sense = host.run(cbw(4, 18, true, &[0x03, 0, 0, 0, 18]), &[]);
    assert_eq!((sense.data[2], sense.data[12]), (0x05, 0x20));
    host.shared.detach();
    let outcome = host.run(cbw(8, 0, false, &[0x00]), &[]);
    assert_eq!(outcome.status, 1);
    let sense = host.run(cbw(4, 18, true, &[0x03, 0, 0, 0, 18]), &[]);
    assert_eq!((sense.data[2], sense.data[12]), (0x02, 0x3a));
}

#[test]
fn ejecting_takes_the_card_away() {
    let mut host = Host::new(64);
    let outcome = host.run(cbw(1, 0, false, &[0x1b, 0, 0, 0, 0x02]), &[]);
    assert_eq!(outcome.status, 0);
    assert!(host.shared.ejected());
    assert_eq!(host.read(0, 1).status, 1);
}

#[test]
fn streams_leave_the_small_lines_alone() {
    let mut cache = BlockCache::new();
    for (index, start) in [(0, 0), (1, 100), (2, 200)] {
        assert!(cache.find(start).is_none());
        assert_eq!(cache.victim(false), index);
        cache.fill(index, start, 8, vec![1; 4096]);
    }
    assert_eq!(cache.victim(true), STREAM_LINE);
    assert_eq!(cache.find(0), Some(0));
    assert_eq!(cache.find(107), Some(1));
    assert_eq!(cache.find(108), None);
    assert_eq!(cache.victim(false), 2);
    assert!(2 < CACHE_LINES);
    cache.update(100, &[9; 512]);
    assert_eq!(cache.find(100), Some(1));
    cache.drop_line(1);
    assert_eq!(cache.find(100), None);
    cache.invalidate();
    assert_eq!(cache.find(0), None);
}
