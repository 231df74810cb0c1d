use ratputer::sdblock::{
    find_partition, BlockRead, BlockWrite, Partition, SdBlockDevice, SdBlockError, SeekFrom,
    WriteQuery, WriteReply,
};

fn mbr(entries: &[(u8, u32, u32)]) -> Vec<u8> {
    let mut block = vec![0_u8; 512];
    block[510] = 0x55;
    block[511] = 0xaa;
    for (i, (kind, start, length)) in entries.iter().enumerate() {
        let at = 0x1be + i * 16;
        block[at + 4] = *kind;
        block[at + 8..at + 12].copy_from_slice(&start.to_le_bytes());
        block[at + 12..at + 16].copy_from_slice(&length.to_le_bytes());
    }
    block
}

#[test]
fn the_first_partition_is_found() {
    let block = mbr(&[(0, 1, 5), (12, 2, 0), (11, 2048, 4096), (11, 9000, 10)]);
    assert_eq!(
        find_partition(Some(&block)),
        Ok(Partition { start: 2048, length: 4096 })
    );
    assert_eq!(find_partition(None), Err(SdBlockError::Device));
    assert_eq!(find_partition(Some(&mbr(&[]))), Err(SdBlockError::NoPartition));
    let mut unsigned = mbr(&[(11, 1, 1)]);
    unsigned[511] = 0;
    assert_eq!(find_partition(Some(&unsigned)), Err(SdBlockError::NoPartition));
}

#[test]
fn partitions_must_lie_on_the_card() {
    let partition = Partition { start: 10, length: 20 };
    let device = SdBlockDevice::mount(partition, Some(30)).unwrap();
    assert_eq!((device.base, device.size, device.pos), (5120, 10_240, 0));
    assert_eq!(SdBlockDevice::mount(partition, Some(29)).err(), Some(SdBlockError::OutOfRange));
    assert_eq!(SdBlockDevice::mount(partition, None).err(), Some(SdBlockError::Device));
}

#[test]
fn errors_are_told_apart() {
    assert!(SdBlockError::OutOfRange.is_invalid_input());
    assert!(SdBlockError::InvalidPosition.is_invalid_input());
    assert!(!SdBlockError::Device.is_invalid_input());
    assert!(!SdBlockError::NoPartition.is_invalid_input());
    assert_eq!(SdBlockError::Device.message(), "SD block transfer failed");
    assert_eq!(SdBlockError::NoPartition.message(), "no usable MBR partition");
    assert_eq!(SdBlockError::OutOfRange.message(), "I/O past partition end");
    assert_eq!(SdBlockError::InvalidPosition.message(), "invalid seek position");
}

fn device() -> SdBlockDevice {
    SdBlockDevice::mount(Partition { start: 2, length: 40 }, Some(64)).unwrap()
}

fn card() -> Vec<u8> {
    (0..64 * 512_u32).map(|i| (i * 7 / 3) as u8).collect()
}

fn read(card: &[u8], mut job: BlockRead) -> Result<Vec<u8>, SdBlockError> {
    while let Some((block, count)) = job.query() {
        assert!(count >= 1);
        let from = block as usize * 512;
        job.resume(Some(&card[from..from + count as usize * 512]))?;
    }
    Ok(job.done)
}

fn write(card: &mut [u8], mut job: BlockWrite) {
    while let Some(query) = job.query() {
        let reply = match query {
            WriteQuery::Read { block } => {
                let from = block as usize * 512;
                WriteReply::Block(Some(card[from..from + 512].to_vec()))
            }
            WriteQuery::Write { block, data } => {
                let from = block as usize * 512;
                card[from..from + data.len()].copy_from_slice(&data);
                WriteReply::Written(true)
            }
        };
        job.resume(reply).unwrap();
    }
}

#[test]
fn seeking_stays_in_the_partition() {
    let mut device = device();
    assert_eq!(device.seek(SeekFrom::Start(100)), Ok(100));
    assert_eq!(device.seek(SeekFrom::Current(-50)), Ok(50));
    assert_eq!(device.seek(SeekFrom::End(-1)), Ok(20_479));
    assert_eq!(device.seek(SeekFrom::End(0)), Ok(20_480));
    assert_eq!(device.seek(SeekFrom::End(1)), Err(SdBlockError::InvalidPosition));
    assert_eq!(device.seek(SeekFrom::Start(u64::MAX)), Err(SdBlockError::InvalidPosition));
    assert_eq!(device.seek(SeekFrom::Current(-20_481)), Err(SdBlockError::InvalidPosition));
    assert_eq!(device.pos, 20_480);
}

#[test]
fn reads_give_what_the_card_holds() {
    let card = card();
    let mut device = device();
    for (at, len) in [(0, 1), (0, 512), (5, 1000), (511, 2), (100, 20_380), (20_480, 0)] {
        device.seek(SeekFrom::Start(at)).unwrap();
        let data = read(&card, device.read(len).unwrap()).unwrap();
        let from = 1024 + at as usize;
        assert_eq!(data, card[from..from + len]);
    }
    device.seek(SeekFrom::Start(20_479)).unwrap();
    assert_eq!(device.read(2).err(), Some(SdBlockError::OutOfRange));
}

#[test]
fn writes_change_their_bytes_only() {
    let mut device = device();
    for (at, len) in [(0_usize, 1_usize), (3, 5), (0, 512), (500, 30), (700, 9000), (0, 20_480)] {
        let mut changed = card();
        let data: Vec<u8> = (0..len).map(|i| !(i as u8)).collect();
        device.seek(SeekFrom::Start(at as u64)).unwrap();
        write(&mut changed, device.write(data.clone()).unwrap());
        let mut wanted = card();
        wanted[1024 + at..1024 + at + len].copy_from_slice(&data);
        assert_eq!(changed, wanted);
        assert_eq!(read(&changed, device.read(len).unwrap()).unwrap(), data);
    }
    device.seek(SeekFrom::Start(20_480)).unwrap();
    assert_eq!(device.write(vec![1]).err(), Some(SdBlockError::OutOfRange));
}

#[test]
fn a_failing_card_is_reported() {
    let mut job = device().read(600).unwrap();
    assert_eq!(job.resume(None), Err(SdBlockError::Device));
    let mut job = device().write(vec![1, 2, 3]).unwrap();
    assert_eq!(job.resume(WriteReply::Block(None)), Err(SdBlockError::Device));
    let mut job = device().write(vec![0; 512]).unwrap();
    assert_eq!(job.resume(WriteReply::Written(false)), Err(SdBlockError::Device));
    let mut device = device();
    device.advance(512);
    assert_eq!(device.pos, 512);
    assert_eq!(device.check_range(20_480 - 512), Ok(()));
    assert_eq!(device.check_range(20_480 - 511), Err(SdBlockError::OutOfRange));
}
