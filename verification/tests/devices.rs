use ratputer::battery::{percent_from_mv, AdcEvent, Battery, SampleStep, MAX_POLLS_PER_SAMPLE};
use ratputer::keyboard::{KeyQuery, KeyStage, Keyboard, NavKey};
use ratputer::msc::scsi::SharedState;
use ratputer::net::{parse_reply, sntp_query, sntp_request, SntpError, SntpEvent, SntpStage};
use ratputer::ftp::command::Ipv4;
use ratputer::usbdisk::{keep_polling, UsbDisk, UsbDiskState, UsbStart, POLL_BUDGET_MICROS};

#[test]
fn charge_follows_the_curve() {
    let points = [
        (5000, 100), (4150, 100), (4060, 90), (3980, 80), (3920, 70), (3870, 60), (3820, 50),
        (3790, 40), (3770, 30), (3740, 20), (3680, 10), (3400, 0), (3399, 0), (0, 0),
    ];
    for (millivolts, percent) in points {
        assert_eq!(percent_from_mv(millivolts), percent);
    }
    assert_eq!(percent_from_mv(4105), 95);
    assert_eq!(percent_from_mv(3540), 5);
}

#[test]
fn charge_never_falls_as_the_voltage_rises() {
    let mut last = 0;
    for millivolts in 3300..4300 {
        let percent = percent_from_mv(millivolts);
        assert!(percent >= last && percent <= 100);
        last = percent;
    }
}

#[test]
fn a_sample_averages_and_smooths() {
    let mut battery = Battery::new();
    for _ in 0..7 {
        assert_eq!(battery.sample_percent(AdcEvent::Value(2000)), SampleStep::More);
    }
    assert_eq!(battery.sample_percent(AdcEvent::WouldBlock), SampleStep::More);
    // 4000 mV at the battery
    assert_eq!(battery.sample_percent(AdcEvent::Value(2000)), SampleStep::Ready(82));
    assert_eq!(battery.filtered_mv, Some(4000));
    for _ in 0..7 {
        battery.sample_percent(AdcEvent::Value(1800));
    }
    // (3 * 4000 + 3600) / 4
    assert_eq!(battery.sample_percent(AdcEvent::Value(1800)), SampleStep::Ready(66));
    assert_eq!(battery.filtered_mv, Some(3900));
}

#[test]
fn a_sample_can_fail() {
    let mut battery = Battery::new();
    battery.sample_percent(AdcEvent::Value(2000));
    assert_eq!(battery.sample_percent(AdcEvent::Failed), SampleStep::Failed);
    assert_eq!(battery, Battery::new());
    for _ in 1..MAX_POLLS_PER_SAMPLE {
        assert_eq!(battery.sample_percent(AdcEvent::WouldBlock), SampleStep::More);
    }
    assert_eq!(battery.sample_percent(AdcEvent::WouldBlock), SampleStep::Failed);
}

fn ready_keyboard() -> Keyboard {
    let mut keyboard = Keyboard::new();
    let mut writes = Vec::new();
    while let Some(KeyQuery::Write { register, value }) = keyboard.query() {
        writes.push((register, value));
        assert_eq!(keyboard.resume(None), None);
    }
    assert_eq!(writes, [(0x1d, 0x7f), (0x1e, 0xff), (0x1f, 0x00), (0x01, 0x01)]);
    assert_eq!(keyboard.query(), Some(KeyQuery::Read { register: 4 }));
    assert_eq!(keyboard.resume(Some(0x85)), None);
    assert_eq!(keyboard.resume(Some(0)), None);
    assert_eq!(keyboard.stage, KeyStage::Ready);
    keyboard
}

fn press(keyboard: &mut Keyboard, event: u8) -> Option<NavKey> {
    keyboard.next_nav_key();
    assert_eq!(keyboard.query(), Some(KeyQuery::Read { register: 3 }));
    assert_eq!(keyboard.resume(Some(0x11)), None);
    assert_eq!(keyboard.query(), Some(KeyQuery::Read { register: 4 }));
    let key = keyboard.resume(Some(event));
    assert_eq!(keyboard.query(), None);
    key
}

#[test]
fn keys_by_their_events() {
    let mut keyboard = ready_keyboard();
    assert_eq!(press(&mut keyboard, 0x80 | 2), Some(NavKey::Tab));
    assert_eq!(press(&mut keyboard, 0x80 | 54), Some(NavKey::ArrowLeft));
    assert_eq!(press(&mut keyboard, 0x80 | 57), Some(NavKey::ArrowUp));
    assert_eq!(press(&mut keyboard, 0x80 | 58), Some(NavKey::ArrowDown));
    assert_eq!(press(&mut keyboard, 0x80 | 64), Some(NavKey::ArrowRight));
    assert_eq!(press(&mut keyboard, 0x80 | 65), Some(NavKey::Backspace));
    assert_eq!(press(&mut keyboard, 0x80 | 67), Some(NavKey::Enter));
    assert_eq!(press(&mut keyboard, 0x80 | 68), Some(NavKey::Space));
    assert_eq!(press(&mut keyboard, 0x80 | 11), Some(NavKey::Other(8)));
    assert_eq!(press(&mut keyboard, 0x80), Some(NavKey::Other(255)));
    assert_eq!(press(&mut keyboard, 2), None);
    assert_eq!(press(&mut keyboard, 0xff), None);
}

#[test]
fn no_event_and_no_answer_press_nothing() {
    let mut keyboard = ready_keyboard();
    keyboard.next_nav_key();
    assert_eq!(keyboard.resume(Some(0x10)), None);
    assert_eq!(keyboard.stage, KeyStage::Ready);
    keyboard.next_nav_key();
    assert_eq!(keyboard.resume(None), None);
    assert_eq!(keyboard.stage, KeyStage::Ready);
    let mut noisy = Keyboard { stage: KeyStage::Drain(11) };
    let mut reads = 0;
    while noisy.query().is_some() {
        noisy.resume(Some(0x81));
        reads += 1;
    }
    assert_eq!(reads, 11);
}

fn reply(mode: u8, stratum: u8, seconds: u32) -> Vec<u8> {
    let mut data = vec![0_u8; 48];
    data[0] = 0x18 | mode;
    data[1] = stratum;
    data[40..44].copy_from_slice(&seconds.to_be_bytes());
    data
}

#[test]
fn sntp_replies() {
    assert_eq!(parse_reply(&reply(4, 2, 2_208_988_800)), Ok(0));
    assert_eq!(parse_reply(&reply(4, 1, 3_913_056_000)), Ok(1_704_067_200));
    assert_eq!(parse_reply(&reply(4, 2, 2_208_988_799)), Err(SntpError::BadReply));
    assert_eq!(parse_reply(&reply(3, 2, 3_913_056_000)), Err(SntpError::BadReply));
    assert_eq!(parse_reply(&reply(4, 0, 3_913_056_000)), Err(SntpError::BadReply));
    assert_eq!(parse_reply(&reply(4, 2, 3_913_056_000)[..47]), Err(SntpError::BadReply));
    let request = sntp_request();
    assert_eq!(request.len(), 48);
    assert_eq!(request[0], 0x1b);
    assert!(request[1..].iter().all(|byte| *byte == 0));
}

#[test]
fn sntp_query_runs_to_its_end() {
    let server = Ipv4 { a: 10, b: 0, c: 0, d: 1 };
    let stray = Ipv4 { a: 10, b: 0, c: 0, d: 2 };
    let data = reply(4, 2, 3_913_056_000);
    let stage = sntp_query(SntpStage::Resolve, SntpEvent::Resolved(Some(server)));
    assert!(matches!(stage, SntpStage::Bind { server: s } if s == server));
    let stage = sntp_query(stage, SntpEvent::Bound(true));
    let stage = sntp_query(stage, SntpEvent::Sent(true));
    let stage = sntp_query(
        stage,
        SntpEvent::Datagram { from: stray, port: 123, data: &data },
    );
    let stage = sntp_query(
        stage,
        SntpEvent::Datagram { from: server, port: 124, data: &data },
    );
    assert!(matches!(stage, SntpStage::Receive { .. }));
    let stage = sntp_query(
        stage,
        SntpEvent::Datagram { from: server, port: 123, data: &data },
    );
    assert!(matches!(stage, SntpStage::Finished(Ok(1_704_067_200))));
}

#[test]
fn sntp_query_fails_in_its_ways() {
    let stage = sntp_query(SntpStage::Resolve, SntpEvent::Resolved(None));
    let fallback = Ipv4 { a: 162, b: 159, c: 200, d: 1 };
    assert!(matches!(stage, SntpStage::Bind { server } if server == fallback));
    assert!(matches!(
        sntp_query(stage, SntpEvent::Bound(false)),
        SntpStage::Finished(Err(SntpError::Socket))
    ));
    let stage = sntp_query(stage, SntpEvent::Bound(true));
    assert!(matches!(
        sntp_query(stage, SntpEvent::Sent(false)),
        SntpStage::Finished(Err(SntpError::Send))
    ));
    assert!(matches!(
        sntp_query(stage, SntpEvent::TimedOut),
        SntpStage::Finished(Err(SntpError::Timeout))
    ));
    let done = SntpStage::Finished(Ok(7));
    assert!(matches!(
        sntp_query(done, SntpEvent::TimedOut),
        SntpStage::Finished(Ok(7))
    ));
}

#[test]
fn usb_disk_changes_state() {
    let mut shared = SharedState::default();
    let mut disk = UsbDisk::new();
    assert!(disk.available());
    assert!(!disk.attach(&mut shared, 100));
    assert_eq!(disk.initialize(), UsbStart::Build);
    assert_eq!(disk.initialize(), UsbStart::Running);
    assert!(disk.attach(&mut shared, 100));
    assert_eq!(shared.generation, 1);
    assert_eq!(disk.state(&shared), UsbDiskState::Waiting);
    assert!(disk.can_detach(&shared));
    shared.bus_configured(true);
    assert_eq!(disk.state(&shared), UsbDiskState::Mounted);
    assert!(!disk.can_detach(&shared));
    shared.ejected = true;
    assert_eq!(disk.state(&shared), UsbDiskState::Ejected);
    assert!(disk.can_detach(&shared));
    assert!(disk.detach(&mut shared));
    assert_eq!(disk.state(&shared), UsbDiskState::Inactive);
    assert_eq!(shared.block_count(), 0);
    assert!(!disk.detach(&mut shared));
    assert!(disk.available());
}

#[test]
fn usb_disk_without_a_controller() {
    let mut disk = UsbDisk {
        controller: false,
        running: false,
        active: false,
        init_attempted: false,
    };
    assert!(disk.available());
    assert_eq!(disk.initialize(), UsbStart::Unavailable);
    assert!(!disk.available());
}

#[test]
fn usb_is_driven_while_it_moves() {
    assert!(keep_polling(0, false));
    assert!(keep_polling(POLL_BUDGET_MICROS - 1, false));
    assert!(!keep_polling(POLL_BUDGET_MICROS, false));
    assert!(keep_polling(POLL_BUDGET_MICROS, true));
}
