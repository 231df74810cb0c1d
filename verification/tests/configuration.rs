use ratputer::storage::{
    fmt_fat_mtime, local_now_seconds, now_ymdhms, save_start, save_step, set_local_time,
    valid_ftp_credential, AuthKind, ClockConfig, ConfigLoad, DstRule, FatClock, FatDateTime,
    FtpConfig, LoadStage, LocalTime, SaveEvent, SaveStage, SavedNetwork, StorageError, WifiConfig,
    MAX_CONFIG_BYTES, MAX_SAVED_NETWORKS,
};

fn network(ssid: &str, password: &str) -> SavedNetwork {
    SavedNetwork {
        ssid: String::from(ssid),
        password: String::from(password),
        auth: AuthKind::Wpa2,
    }
}

fn names(config: &WifiConfig) -> Vec<String> {
    config.networks.iter().map(|n| n.ssid.clone()).collect()
}

#[test]
fn defaults() {
    let config = WifiConfig::default();
    assert_eq!(config.version, 1);
    assert_eq!(config.clock.utc_offset_minutes, 60);
    assert_eq!(config.clock.dst, DstRule::Eu);
    assert_eq!(config.clock.ntp_server, "pool.ntp.org");
    assert_eq!(config.ftp.user, "rat");
    assert_eq!(config.ftp.password, "cheese");
    assert!(config.networks.is_empty());
    assert_eq!(AuthKind::default(), AuthKind::Wpa2);
}

#[test]
fn upsert_replaces_by_name() {
    let mut config = WifiConfig::default();
    config.upsert(network("home", "one"));
    config.upsert(network("work", "two"));
    config.upsert(network("home", "three"));
    assert_eq!(names(&config), ["home", "work"]);
    assert_eq!(config.networks[0].password, "three");
    config.upsert(network("home", "three"));
    assert_eq!(names(&config), ["home", "work"]);
}

#[test]
fn upsert_drops_the_oldest_of_a_full_list() {
    let mut config = WifiConfig::default();
    for i in 0..MAX_SAVED_NETWORKS {
        config.upsert(network(&format!("net{i}"), ""));
    }
    assert_eq!(config.networks.len(), 12);
    config.upsert(network("new", ""));
    assert_eq!(config.networks.len(), 12);
    assert_eq!(config.networks[0].ssid, "net1");
    assert_eq!(config.networks[11].ssid, "new");
}

#[test]
fn remove_by_position() {
    let mut config = WifiConfig::default();
    config.upsert(network("a", ""));
    config.upsert(network("b", ""));
    assert!(!config.remove(2));
    assert!(config.remove(0));
    assert_eq!(names(&config), ["b"]);
    assert!(config.remove(0));
    assert!(!config.remove(0));
}

#[test]
fn validation_refuses_other_versions() {
    let config = WifiConfig {
        version: 2,
        ..WifiConfig::default()
    };
    assert!(matches!(
        config.validate(),
        Err(StorageError::UnsupportedVersion)
    ));
}

#[test]
fn validation_repairs_the_rest() {
    let mut networks = vec![network("", "x"), network("ok", "pw")];
    networks.push(network(&"s".repeat(33), ""));
    networks.push(network("long", &"p".repeat(65)));
    networks.push(network(&"s".repeat(32), &"p".repeat(64)));
    let config = WifiConfig {
        version: 1,
        clock: ClockConfig {
            utc_offset_minutes: 841,
            dst: DstRule::Off,
            ntp_server: String::new(),
        },
        ftp: FtpConfig {
            user: String::from("two words"),
            password: String::new(),
        },
        networks,
    };
    let config = config.validate().unwrap();
    assert_eq!(names(&config), [String::from("ok"), "s".repeat(32)]);
    assert_eq!(config.clock.utc_offset_minutes, 60);
    assert_eq!(config.clock.dst, DstRule::Off);
    assert_eq!(config.clock.ntp_server, "pool.ntp.org");
    assert_eq!(config.ftp.user, "rat");
    assert_eq!(config.ftp.password, "cheese");
}

#[test]
fn validation_keeps_good_values() {
    let config = WifiConfig {
        version: 1,
        clock: ClockConfig {
            utc_offset_minutes: -720,
            dst: DstRule::Eu,
            ntp_server: String::from("time.example"),
        },
        ftp: FtpConfig {
            user: String::from("mouse"),
            password: String::from("gouda!"),
        },
        networks: Vec::new(),
    };
    let config = config.validate().unwrap();
    assert_eq!(config.clock.utc_offset_minutes, -720);
    assert_eq!(config.clock.ntp_server, "time.example");
    assert_eq!(config.ftp.user, "mouse");
    assert_eq!(config.ftp.password, "gouda!");
}

#[test]
fn credentials_are_short_and_graphic() {
    assert!(valid_ftp_credential("a"));
    assert!(valid_ftp_credential(&"~".repeat(32)));
    assert!(!valid_ftp_credential(""));
    assert!(!valid_ftp_credential(&"a".repeat(33)));
    assert!(!valid_ftp_credential("a b"));
    assert!(!valid_ftp_credential("zażółć"));
}

#[test]
fn loading_a_file() {
    let mut load = ConfigLoad::new();
    load.opened(true);
    load.opened(true);
    load.read(Some(b"version".as_slice()));
    load.read(Some(b" = 1".as_slice()));
    assert!(matches!(load.text(), Err(StorageError::Sd)));
    load.read(Some(b"".as_slice()));
    assert_eq!(load.stage, LoadStage::Finished);
    assert_eq!(load.text().unwrap(), "version = 1");
}

#[test]
fn loading_fails_in_its_ways() {
    let mut load = ConfigLoad::new();
    load.opened(false);
    assert!(matches!(load.text(), Err(StorageError::Missing)));

    let mut load = ConfigLoad::new();
    load.opened(true);
    load.opened(false);
    assert!(matches!(load.text(), Err(StorageError::Missing)));

    let mut load = ConfigLoad::new();
    load.opened(true);
    load.opened(true);
    load.read(None);
    assert!(matches!(load.text(), Err(StorageError::Sd)));

    let mut load = ConfigLoad::new();
    load.opened(true);
    load.opened(true);
    load.read(Some(vec![b'x'; MAX_CONFIG_BYTES].as_slice()));
    assert_eq!(load.stage, LoadStage::Content);
    load.read(Some(b"x".as_slice()));
    assert!(matches!(load.text(), Err(StorageError::TooLarge)));

    let mut load = ConfigLoad::new();
    load.opened(true);
    load.opened(true);
    load.read(Some([0xff, 0xfe].as_slice()));
    load.read(Some(b"".as_slice()));
    assert!(matches!(load.text(), Err(StorageError::InvalidToml)));
}

#[test]
fn saving_takes_its_steps() {
    let stage = save_start("version = 1");
    assert_eq!(stage, SaveStage::OpenDirectory);
    let stage = save_step(stage, SaveEvent::Error);
    assert_eq!(stage, SaveStage::CreateDirectory);
    let stage = save_step(stage, SaveEvent::Done);
    assert_eq!(stage, SaveStage::FindFile);
    let stage = save_step(stage, SaveEvent::Absent);
    assert_eq!(stage, SaveStage::CreateFile);
    let stage = save_step(stage, SaveEvent::Done);
    assert_eq!(stage, SaveStage::Write);
    assert_eq!(save_step(stage, SaveEvent::Done), SaveStage::Finished);
    assert_eq!(
        save_step(stage, SaveEvent::Error),
        SaveStage::Failed(StorageError::Sd)
    );
    assert_eq!(
        save_start(&"x".repeat(MAX_CONFIG_BYTES + 1)),
        SaveStage::Failed(StorageError::TooLarge)
    );
}

#[test]
fn local_time_is_kept() {
    let mut local = LocalTime { seconds: 0 };
    assert_eq!(local_now_seconds(&local), None);
    set_local_time(&mut local, 1_709_210_096);
    assert_eq!(local_now_seconds(&local), Some(1_709_210_096));
    assert_eq!(now_ymdhms(&local), "20240229123456");
}

#[test]
fn fat_stamps_hold_two_second_steps() {
    let stamp = FatDateTime::new(2024, 2, 29, 12, 34, 57);
    assert_eq!(fmt_fat_mtime(stamp), "20240229123456");
    let (date, time, tenth) = FatDateTime::new(1980, 1, 1, 0, 0, 0).to_raw();
    assert_eq!((date, time), (0x21, 0));
    let again = FatDateTime::from_raw(date, time, tenth);
    assert_eq!(fmt_fat_mtime(again), "19800101000000");
}

#[test]
fn fat_clock_follows_the_local_time() {
    let mut local = LocalTime { seconds: 0 };
    assert_eq!(fmt_fat_mtime(FatClock { local }.now()), "20260101000000");
    set_local_time(&mut local, 1_709_210_096);
    assert_eq!(fmt_fat_mtime(FatClock { local }.now()), "20240229123456");
}
