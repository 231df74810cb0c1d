use ratputer::debug::{DebugCommand, DebugConsole, DebugKey, DebugText, Transmit};
use ratputer::ftp::command::Ipv4;
use ratputer::ftp::session::{FtpStats, FtpStatus};
use ratputer::msc::scsi::Stats;
use ratputer::screen::console::{
    answer, answer_key, send_answer, status_answer, AnswerLine, FollowUp, LineKind, NetworkReport,
    RadioState, StatusReport,
};
use ratputer::screen::ftp::{
    keep_polling, leave_ftp, loop_delay_millis, FtpControl, FtpEnv, FtpTask,
};
use ratputer::screen::input::{
    append_debug_text, apply_debug_key, clear_text, refuse_debug_key, route_key, Arrow, KeyEffect,
    KeyInput, Passwords, ScreenKey,
};
use ratputer::screen::lines::{
    byte_size_text, clock_text, display_ssid, ftp_address_text, ftp_login_text, ftp_state_text,
    ftp_stats_text, saved_network_model, scan_network_model, truncate_ascii, usb_size_text,
    usb_stats_text, view_name,
};
use ratputer::screen::top::{link_state, Schedule};
use ratputer::screen::usb::{adopt_config, UsbControl, UsbTask};
use ratputer::storage::{AuthKind, FtpConfig, SavedNetwork, StorageError, WifiConfig};
use ratputer::usbdisk::{CardOwner, UsbDiskState};
use ratputer::wifi::ScanNetwork;

const NONE: Passwords<'static> = Passwords { wifi: "", ftp: "" };

fn pressed(effect: KeyEffect<String>) -> Option<&'static str> {
    match effect {
        KeyEffect::Press(key) => Some(key.name()),
        _ => None,
    }
}

fn wifi_password(effect: KeyEffect<String>) -> Option<String> {
    match effect {
        KeyEffect::WifiPassword(password) => Some(password),
        _ => None,
    }
}

fn ftp_password(effect: KeyEffect<String>) -> Option<String> {
    match effect {
        KeyEffect::FtpPassword(password) => Some(password),
        _ => None,
    }
}

fn saved(ssid: &str) -> SavedNetwork {
    SavedNetwork {
        ssid: String::from(ssid),
        password: String::from("pw"),
        auth: AuthKind::WpaWpa2,
    }
}

fn scanned(ssid: &str, signal_strength: i8, auth: AuthKind, supported: bool) -> ScanNetwork {
    ScanNetwork {
        ssid: String::from(ssid),
        signal_strength,
        auth,
        supported,
    }
}

#[test]
fn text_is_cut_to_the_font() {
    assert_eq!(truncate_ascii("abc", 2), "ab");
    assert_eq!(truncate_ascii("abc", 5), "abc");
    assert_eq!(truncate_ascii("żaba", 3), "?ab");
    assert_eq!(display_ssid("abcdefghijklmnopqrstuvw"), "abcdefghijklmnopqr");
}

#[test]
fn lists_of_networks() {
    let mut config = WifiConfig::default();
    config.upsert(saved("home"));
    config.upsert(saved("a very long network name"));
    assert_eq!(saved_network_model(&config), ["home", "a very long networ"]);
    let networks = [
        scanned("home", -42, AuthKind::Wpa2, true),
        scanned("cafe", 7, AuthKind::Open, true),
        scanned("ent", -90, AuthKind::Wpa2, false),
    ];
    assert_eq!(scan_network_model(&networks), ["home -42 *", "cafe 7  ", "ent -90 !"]);
}

#[test]
fn views_have_names() {
    let names = [
        "menu", "rat", "wifi_menu", "wifi_saved", "wifi_scan", "wifi_password", "about",
        "usb_disk", "ftp", "ftp_password",
    ];
    for (view, name) in names.iter().enumerate() {
        assert_eq!(view_name(view as i32), *name);
    }
    assert_eq!(view_name(10), "unknown");
    assert_eq!(view_name(-1), "unknown");
}

#[test]
fn sizes_are_short() {
    assert_eq!(byte_size_text(1023), "0K");
    assert_eq!(byte_size_text(1_048_575), "1023K");
    assert_eq!(byte_size_text(1_048_576), "1M");
    assert_eq!(usb_size_text(19_999), "9999K");
    assert_eq!(usb_size_text(20_000), "9M");
    let stats = Stats { read_blocks: 2468, write_blocks: 112, cache_hit_blocks: 2150 };
    assert_eq!(usb_stats_text(stats), "R 1234K W 56K C 87%");
    assert_eq!(usb_stats_text(Stats::default()), "R 0K W 0K C 0%");
    let stats = FtpStats { sent_bytes: 2048, received_bytes: 3_145_728 };
    assert_eq!(ftp_stats_text(stats, 65_535), "UP 2K  DOWN 3M  FREE 63K");
}

#[test]
fn ftp_screen_lines() {
    let config = FtpConfig { user: String::from("rat"), password: String::from("cheese") };
    assert_eq!(ftp_login_text(&config), "USER:rat PASS:cheese");
    let config = FtpConfig { user: "u".repeat(32), password: String::from("x") };
    assert_eq!(ftp_login_text(&config).len(), 27);
    assert_eq!(ftp_state_text(FtpStatus::Transfer, "RETR a.txt", None), "RETR a.txt");
    assert_eq!(ftp_state_text(FtpStatus::Transfer, "", None), "TRANSFER IN PROGRESS");
    assert_eq!(
        ftp_state_text(FtpStatus::Connected, "RETR", Some("10.0.0.1:5000")),
        "CLIENT CONNECTED 10.0.0.1:500"
    );
    let ip = Ipv4 { a: 192, b: 168, c: 1, d: 20 };
    assert_eq!(ftp_address_text(Some(ip)), "FTP://192.168.1.20:21");
    assert_eq!(ftp_address_text(None), "NO IP YET");
    assert_eq!(clock_text(Some((7, 5))), "07:05");
    assert_eq!(clock_text(None), "--:--");
}

#[test]
fn keys_navigate_outside_text_entry() {
    let key = |input| pressed(route_key(false, 0, input, &NONE));
    assert_eq!(key(KeyInput::Char(' ')), Some("space"));
    assert_eq!(key(KeyInput::Char(',')), Some("left"));
    assert_eq!(key(KeyInput::Char(';')), Some("up"));
    assert_eq!(key(KeyInput::Char('.')), Some("down"));
    assert_eq!(key(KeyInput::Char('/')), Some("right"));
    assert_eq!(key(KeyInput::Char('a')), None);
    assert_eq!(key(KeyInput::Modifier), None);
    assert_eq!(key(KeyInput::Enter), Some("enter"));
    assert_eq!(key(KeyInput::Backspace), Some("back"));
    assert_eq!(key(KeyInput::Escape), Some("back"));
    assert_eq!(key(KeyInput::Delete), Some("delete"));
    assert_eq!(key(KeyInput::Tab), Some("tab"));
    assert_eq!(key(KeyInput::Arrow(Arrow::Up)), Some("up"));
    assert_eq!(key(KeyInput::Arrow(Arrow::Down)), Some("down"));
    assert_eq!(key(KeyInput::Arrow(Arrow::Left)), Some("left"));
    assert_eq!(key(KeyInput::Arrow(Arrow::Right)), Some("right"));
    assert_eq!(pressed(route_key(true, 0, KeyInput::Enter, &NONE)), None);
}

#[test]
fn passwords_are_typed() {
    let both = Passwords { wifi: "se", ftp: "ch" };
    let wifi = |input| wifi_password(route_key(false, 5, input, &both));
    let ftp = |input| ftp_password(route_key(false, 9, input, &both));
    assert_eq!(wifi(KeyInput::Char('c')).unwrap(), "sec");
    assert_eq!(wifi(KeyInput::Char(' ')).unwrap(), "se ");
    assert_eq!(wifi(KeyInput::Char(',')).unwrap(), "se,");
    assert_eq!(wifi(KeyInput::Char('\u{7f}')), None);
    assert_eq!(wifi(KeyInput::Char('ż')), None);
    assert_eq!(wifi(KeyInput::Backspace).unwrap(), "s");
    assert_eq!(ftp(KeyInput::Char('e')).unwrap(), "che");
    assert_eq!(ftp(KeyInput::Char(' ')), None);
    assert_eq!(ftp(KeyInput::Backspace).unwrap(), "c");
    assert_eq!(wifi_password(route_key(false, 5, KeyInput::Backspace, &NONE)).unwrap(), "");
    let long = "x".repeat(64);
    let full = Passwords { wifi: &long, ftp: &long[..32] };
    assert_eq!(wifi_password(route_key(false, 5, KeyInput::Char('y'), &full)), None);
    assert_eq!(ftp_password(route_key(false, 9, KeyInput::Char('y'), &full)), None);
}

#[test]
fn the_console_types_passwords() {
    let both = Passwords { wifi: "se", ftp: "ch" };
    let effect = append_debug_text(5, "cret word", &both).unwrap_or(KeyEffect::Nothing);
    assert_eq!(wifi_password(effect).unwrap(), "secret word");
    let effect = append_debug_text(9, "eese", &both).unwrap_or(KeyEffect::Nothing);
    assert_eq!(ftp_password(effect).unwrap(), "cheese");
    let reason = |view, text: &str| append_debug_text(view, text, &both).err();
    assert_eq!(reason(5, &"x".repeat(63)), Some("wifi_text_too_long"));
    assert_eq!(reason(9, "a b"), Some("ftp_text_disallows_spaces"));
    assert_eq!(reason(9, &"x".repeat(31)), Some("ftp_text_too_long"));
    assert_eq!(reason(0, "x"), Some("text_entry_not_active"));
    assert_eq!(wifi_password(apply_debug_key(5, DebugKey::Backspace, &both)).unwrap(), "s");
    assert_eq!(ftp_password(apply_debug_key(9, DebugKey::Backspace, &both)).unwrap(), "c");
    assert_eq!(pressed(apply_debug_key(0, DebugKey::Backspace, &both)), Some("back"));
    assert_eq!(pressed(apply_debug_key(5, DebugKey::Space, &both)), Some("space"));
    assert!(clear_text(5).is_ok() && clear_text(9).is_ok());
    assert_eq!(clear_text(8).err(), Some("text_entry_not_active"));
}

#[test]
fn the_console_keeps_off_the_usb_disk() {
    assert_eq!(
        refuse_debug_key(false, 0, 2, DebugKey::Enter),
        Some("usb_disk_requires_physical_input")
    );
    assert_eq!(refuse_debug_key(false, 0, 1, DebugKey::Enter), None);
    assert_eq!(refuse_debug_key(false, 0, 2, DebugKey::Down), None);
    assert_eq!(refuse_debug_key(true, 0, 0, DebugKey::Down), Some("input_busy"));
}

fn said(lines: &[AnswerLine]) -> Vec<String> {
    lines
        .iter()
        .map(|line| {
            let kind = match line.kind {
                LineKind::Fine => "OK",
                LineKind::Data => "-",
                LineKind::Error => "ERROR",
            };
            format!("{kind} {}", line.pieces.concat())
        })
        .collect()
}

#[test]
fn commands_are_answered() {
    let ask = |command: DebugCommand, discard| answer(&command, discard, 0, 0, &NONE);
    assert_eq!(said(&ask(DebugCommand::Ping, true).lines), ["OK PONG protocol=1"]);
    let help = ask(DebugCommand::Help, false);
    assert_eq!(help.lines.len(), 7);
    assert_eq!(said(&help.lines)[4], "- TEXT <printable ASCII>");
    assert_eq!(ask(DebugCommand::Status, false).follow, FollowUp::Status);
    let reboot = ask(DebugCommand::Reboot, false);
    assert_eq!(said(&reboot.lines), ["OK rebooting"]);
    assert_eq!(reboot.follow, FollowUp::Reboot);
    let invalid = ask(DebugCommand::Invalid { reason: "bad_key" }, false);
    assert_eq!(said(&invalid.lines), ["ERROR bad_key"]);
    let key = ask(DebugCommand::Key { key: DebugKey::Down }, false);
    assert!(key.lines.is_empty());
    assert_eq!(key.follow, FollowUp::Key(DebugKey::Down));
    assert!(matches!(key.effect, KeyEffect::Press(ScreenKey::Down)));
    let busy = ask(DebugCommand::Key { key: DebugKey::Down }, true);
    assert_eq!(said(&busy.lines), ["ERROR input_busy"]);
    let text = || DebugCommand::Text { text: DebugText { text: String::from("x") } };
    assert_eq!(said(&ask(text(), true).lines), ["ERROR input_busy"]);
    assert_eq!(said(&ask(text(), false).lines), ["ERROR text_entry_not_active"]);
    let typed = answer(&text(), false, 5, 0, &NONE);
    assert_eq!(said(&typed.lines), ["OK text_accepted"]);
    assert_eq!(wifi_password(typed.effect).unwrap(), "x");
    let cleared = answer(&DebugCommand::Clear, false, 9, 0, &NONE);
    assert_eq!(said(&cleared.lines), ["OK ftp_text_cleared"]);
    assert_eq!(said(&answer_key(DebugKey::Enter, 3)), ["OK key=Enter view=3 name=wifi_saved"]);
}

#[test]
fn the_state_is_told() {
    let known = [saved("ho\"me")];
    let found = [scanned("cafe", -5, AuthKind::Open, true)];
    let report = StatusReport {
        uptime_ms: 1234,
        heap_free: 60_000,
        view_state: 8,
        menu_index: 3,
        wifi_menu_index: 0,
        saved_index: -1,
        scan_index: 2,
        link_state: 3,
        radio: RadioState::Idle,
        wifi_status: "READY",
        network: Some(NetworkReport {
            link_up: true,
            online: true,
            ipv4: Some(Ipv4 { a: 10, b: 0, c: 0, d: 7 }),
        }),
        storage_mounted: true,
        usb_exported: false,
        usb_state: UsbDiskState::Inactive,
        usb_status: "CONNECT USB CABLE",
        ftp_status: "LISTENING :21",
        ftp_peer: Some("10.0.0.9:40000"),
        ftp_addr: "FTP://10.0.0.7:21",
        clock_text: "12:34",
        clock_synced: true,
        battery_percent: 87,
        link_ssid: "home",
        saved: &known,
        scanned: &found,
    };
    assert_eq!(
        said(&status_answer(&report)),
        [
            "OK status",
            "- system uptime_ms=1234 heap_free=60000",
            "- ui view=8 name=ftp menu=3 wifi_menu=0 saved=-1 scan=2",
            "- wifi link=3 radio=idle status=\"READY\"",
            "- network link_up=true online=true ipv4=Some(10.0.0.7)",
            "- storage mounted=true usb_exported=false",
            "- usb state=Inactive status=\"CONNECT USB CABLE\"",
            "- ftp state=\"LISTENING :21\" peer=Some(\"10.0.0.9:40000\") \
             address=\"FTP://10.0.0.7:21\"",
            "- top clock=\"12:34\" synced=true battery=87 ssid=\"home\"",
            "- lists saved=1 scan=1",
            "- saved index=0 ssid=\"ho\\\"me\" auth=WpaWpa2",
            "- scan index=0 ssid=\"cafe\" rssi=-5 auth=Open supported=true",
        ]
    );
    let lines = status_answer(&report);
    assert_eq!(
        lines[2].pieces,
        [
            "ui view=", "8", " name=", "ftp", " menu=", "3", " wifi_menu=", "0", " saved=", "-",
            "1", " scan=", "2",
        ]
    );
    assert_eq!(
        lines[4].pieces,
        [
            "network link_up=", "true", " online=", "true", " ipv4=", "Some", "(", "10", ".", "0",
            ".", "0", ".", "7", ")",
        ]
    );
    assert_eq!(
        lines[10].pieces,
        ["saved index=", "0", " ssid=", "\"", "ho", "\\\"", "me", "\"", " auth=", "WpaWpa2"]
    );
    let report = StatusReport { network: None, ftp_peer: None, ..report };
    let lines = said(&status_answer(&report));
    assert_eq!(lines[4], "- network unavailable");
    assert_eq!(
        lines[7],
        "- ftp state=\"LISTENING :21\" peer=None address=\"FTP://10.0.0.7:21\""
    );
}

#[test]
fn answers_reach_the_queue() {
    let mut console = DebugConsole::new();
    while console.service().is_some() {
        console.serviced();
    }
    send_answer(&mut console, &answer_key(DebugKey::Up, 0));
    let mut out = Vec::new();
    while let Some(Transmit::Byte(byte)) = console.service() {
        out.push(byte);
        console.serviced();
    }
    assert_eq!(
        String::from_utf8(out).unwrap(),
        "[rat] OK key=Up view=0 name=menu\r\nrat> "
    );
}

#[test]
fn the_card_goes_to_the_host_and_back() {
    let mut control = UsbControl::new(true, true, 0);
    assert_eq!(control.status, "CONNECT USB CABLE");
    assert_eq!(control.act(1, true, true), UsbTask::Nothing);
    assert_eq!(control.status, "SD IN USE BY FTP");
    assert_eq!(control.act(1, false, true), UsbTask::Export);
    control.exported(true, false);
    assert_eq!(control.card, CardOwner::Host);
    control.show(UsbDiskState::Mounted, Stats::default(), 10);
    assert_eq!(control.status, "SD MOUNTED ON PC");
    assert_eq!(control.stats, "R 0K W 0K C 0%");
    let stats = Stats { read_blocks: 2, write_blocks: 4, cache_hit_blocks: 1 };
    control.show(UsbDiskState::Mounted, stats, 400_000);
    assert_eq!(control.stats, "R 0K W 0K C 0%");
    control.show(UsbDiskState::Mounted, stats, 500_010);
    assert_eq!(control.stats, "R 1K W 2K C 50%");
    assert_eq!(control.act(1, false, false), UsbTask::Nothing);
    assert_eq!(control.act(2, false, false), UsbTask::Nothing);
    assert_eq!(control.status, "EJECT OR PRESS EXIT AGAIN");
    assert_eq!(control.act(2, false, false), UsbTask::TakeBack);
    control.taken_back(true);
    assert_eq!((control.card, control.force_exit), (CardOwner::Firmware, false));
    assert_eq!(control.act(2, false, true), UsbTask::Nothing);
}

#[test]
fn the_usb_screen_tells_what_is_wrong() {
    let mut control = UsbControl::new(false, false, 0);
    assert_eq!(control.status, "USB INIT ERROR");
    assert_eq!(control.act(1, false, true), UsbTask::Nothing);
    assert_eq!(control.status, "SD ALREADY IN USE");
    let mut control = UsbControl::new(true, true, 0);
    control.act(1, false, true);
    control.exported(false, true);
    assert_eq!((control.status.as_str(), control.card), ("USB INIT ERROR", CardOwner::Firmware));
    control.act(1, false, true);
    control.exported(true, false);
    for (state, line) in [
        (UsbDiskState::Waiting, "CONNECT USB CABLE"),
        (UsbDiskState::Ejected, "SAFE TO EXIT"),
        (UsbDiskState::Inactive, "USB NOT ACTIVE"),
    ] {
        control.show(state, Stats::default(), 0);
        assert_eq!(control.status, line);
    }
    assert_eq!(control.act(2, false, true), UsbTask::TakeBack);
}

#[test]
fn configuration_after_reading_the_card() {
    let mut current = WifiConfig::default();
    current.upsert(saved("home"));
    let mut other = WifiConfig::default();
    other.upsert(saved("work"));
    let (config, good) = adopt_config(Ok(other), current);
    assert!(good && config.networks[0].ssid == "work");
    let (config, good) = adopt_config(Err(StorageError::Sd), config);
    assert!(!good && config.networks[0].ssid == "work");
    let (config, good) = adopt_config(Err(StorageError::Missing), config);
    assert!(good && config.networks.is_empty());
}

fn env() -> FtpEnv {
    FtpEnv { card: CardOwner::Firmware, network: true, running: false, heap_free: 100_000 }
}

#[test]
fn the_ftp_server_starts_and_stops() {
    let mut config = WifiConfig::default();
    let mut control = FtpControl::new(&config, 0);
    assert_eq!((control.status.as_str(), control.user.as_str()), ("STOPPED", "USER:rat PASS:cheese"));
    let low = FtpEnv { heap_free: 32 * 1024 - 1, ..env() };
    assert_eq!(control.act(&mut config, 1, low), FtpTask::Nothing);
    assert_eq!(control.status, "LOW MEMORY");
    assert_eq!(control.act(&mut config, 1, env()), FtpTask::Start { create: true });
    control.started(&config, true);
    assert_eq!(control.status, "WAITING FOR WI-FI");
    assert_eq!(control.act(&mut config, 1, low), FtpTask::Start { create: false });
    control.started(&config, false);
    assert_eq!(control.status, "SD VOLUME ERROR");
    let running = FtpEnv { running: true, ..env() };
    assert_eq!(control.act(&mut config, 2, running), FtpTask::Stop);
    assert_eq!(control.status, "STOPPED");
    assert_eq!(control.act(&mut config, 2, env()), FtpTask::Nothing);
    let away = FtpEnv { card: CardOwner::Host, ..env() };
    assert_eq!(control.act(&mut config, 1, away), FtpTask::Nothing);
    assert_eq!(control.status, "SD OR WI-FI UNAVAILABLE");
    assert_eq!(leave_ftp(0, running), FtpTask::Stop);
    assert_eq!(leave_ftp(8, running), FtpTask::Nothing);
    assert_eq!(leave_ftp(9, running), FtpTask::Nothing);
    assert_eq!(leave_ftp(0, env()), FtpTask::Nothing);
}

#[test]
fn the_ftp_password_changes() {
    let mut config = WifiConfig::default();
    let mut control = FtpControl::new(&config, 0);
    let running = FtpEnv { running: true, ..env() };
    assert_eq!(control.act(&mut config, 3, running), FtpTask::Stop);
    assert_eq!((control.password.as_str(), control.status.as_str()), ("cheese", "TYPE NEW PASSWORD"));
    control.password = String::from("two words");
    assert_eq!(control.act(&mut config, 4, env()), FtpTask::Nothing);
    assert_eq!(control.status, "1-32 ASCII, NO SPACES");
    control.password = String::from("gouda");
    let away = FtpEnv { card: CardOwner::Host, ..env() };
    assert_eq!(control.act(&mut config, 4, away), FtpTask::Nothing);
    assert_eq!(control.status, "SD BUSY");
    assert_eq!(config.ftp.password, "cheese");
    assert_eq!(control.act(&mut config, 4, env()), FtpTask::Save);
    assert_eq!(config.ftp.password, "gouda");
    assert_eq!(control.saved(&config, false, env()), FtpTask::Nothing);
    assert_eq!(control.status, "SD SAVE FAILED");
    assert_eq!(control.saved(&config, true, env()), FtpTask::Start { create: true });
    assert_eq!((control.user.as_str(), control.view_state), ("USER:rat PASS:gouda", 8));
    control.view_state = 9;
    assert_eq!(control.act(&mut config, 5, env()), FtpTask::Start { create: false });
    assert_eq!(control.view_state, 8);
}

#[test]
fn the_ftp_screen_shows_the_server() {
    let config = WifiConfig::default();
    let mut control = FtpControl::new(&config, 0);
    let stats = FtpStats { sent_bytes: 2048, received_bytes: 0 };
    control.show(FtpStatus::Listening, "", None, None, stats, 2048, 0);
    assert_eq!(control.status, "LISTENING :21");
    assert_eq!(control.addr, "NO IP YET");
    assert_eq!(control.stats, "UP 2K  DOWN 0K  FREE 2K");
    let stats = FtpStats { sent_bytes: 4096, received_bytes: 0 };
    control.show(FtpStatus::Listening, "", None, None, stats, 2048, 499_999);
    assert_eq!(control.stats, "UP 2K  DOWN 0K  FREE 2K");
    assert!(keep_polling(14_999, FtpStatus::Transfer));
    assert!(!keep_polling(15_000, FtpStatus::Transfer));
    assert!(!keep_polling(0, FtpStatus::Connected));
    assert_eq!((loop_delay_millis(true), loop_delay_millis(false)), (1, 10));
}

#[test]
fn things_are_due_in_their_time() {
    let mut schedule = Schedule::new(1_000);
    assert!(!schedule.splash_ends(3_500_999));
    assert!(schedule.discards_input(false));
    assert!(schedule.tick(0, false, 251_000));
    assert!(!schedule.tick(0, false, 300_000));
    assert_eq!(schedule.frame, 1);
    assert!(schedule.splash_ends(3_501_000));
    assert!(!schedule.splash_ends(9_000_000));
    assert!(!schedule.discards_input(false) && schedule.discards_input(true));
    assert!(!schedule.tick(0, false, 9_000_000));
    for frame in [2, 3, 0, 1] {
        let now = schedule.last_switch + 250_000;
        assert!(schedule.tick(1, false, now));
        assert_eq!(schedule.frame, frame);
    }
    assert!(schedule.battery_due(1_000));
    assert!(!schedule.battery_due(5_000_999));
    assert!(schedule.battery_due(5_001_000));
    assert!(schedule.clock_changes(None));
    assert!(!schedule.clock_changes(None));
    assert!(schedule.clock_changes(Some((1, 2))));
    assert!(!schedule.clock_changes(Some((1, 2))));
    assert!(schedule.clock_changes(Some((1, 3))));
    assert!(schedule.link_changes(0));
    assert!(!schedule.link_changes(0));
    assert!(!schedule.reboots(true));
    schedule.request_reboot();
    assert!(!schedule.reboots(false) && schedule.reboots(true));
}

#[test]
fn the_clock_is_synchronised_in_time() {
    let mut schedule = Schedule::new(0);
    assert!(schedule.sntp_due(true, false, 0));
    assert!(!schedule.sntp_due(false, false, 0) && !schedule.sntp_due(true, true, 0));
    schedule.sntp_finished(false, 1_000);
    assert!(!schedule.sntp_due(true, false, 30_000_999));
    assert!(schedule.sntp_due(true, false, 30_001_000));
    schedule.sntp_finished(true, 1_000);
    assert!(!schedule.sntp_due(true, false, 3_600_000_999));
    assert!(schedule.sntp_due(true, false, 3_600_001_000));
    assert!(!schedule.link_seen(true, false, 5_000));
    assert!(schedule.sntp_due(true, false, 5_000));
    assert!(schedule.link_seen(false, false, 6_000));
    assert!(!schedule.link_seen(true, false, 7_000));
    assert!(!schedule.link_seen(false, true, 8_000));
    assert_eq!(link_state(true, true, true), 1);
    assert_eq!(link_state(false, true, true), 3);
    assert_eq!(link_state(false, false, true), 2);
    assert_eq!(link_state(false, false, false), 0);
}
