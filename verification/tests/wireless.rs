use ratputer::storage::{AuthKind, SavedNetwork, WifiConfig};
use ratputer::screen::radio::{RadioStep, WifiControl, WifiQuery, WifiReply};
use ratputer::usbdisk::CardOwner;
use ratputer::wifi::{
    configure, find_network, map_scanned_auth, merge_scan_results, scan_pass, AccessPoint,
    ConnectError, ScanNetwork, ScannedAuth, MAX_SCAN_RESULTS,
};

fn found(ssid: &str, signal_strength: i8) -> ScanNetwork {
    ScanNetwork {
        ssid: String::from(ssid),
        signal_strength,
        auth: AuthKind::Wpa2,
        supported: true,
    }
}

fn open(ssid: &str) -> ScanNetwork {
    ScanNetwork {
        auth: AuthKind::Open,
        ..found(ssid, -50)
    }
}

fn seen(networks: &[ScanNetwork]) -> Vec<(&str, i8)> {
    networks
        .iter()
        .map(|network| (network.ssid.as_str(), network.signal_strength))
        .collect()
}

#[test]
fn protection_of_access_points() {
    assert_eq!(map_scanned_auth(ScannedAuth::Open), (AuthKind::Open, true));
    assert_eq!(map_scanned_auth(ScannedAuth::Wep), (AuthKind::Wep, true));
    assert_eq!(map_scanned_auth(ScannedAuth::Wpa), (AuthKind::Wpa, true));
    assert_eq!(map_scanned_auth(ScannedAuth::Wpa2Personal), (AuthKind::Wpa2, true));
    assert_eq!(map_scanned_auth(ScannedAuth::WpaWpa2Personal), (AuthKind::WpaWpa2, true));
    assert_eq!(map_scanned_auth(ScannedAuth::Other), (AuthKind::Wpa2, false));
}

#[test]
fn hidden_access_points_are_left_out() {
    let points = vec![
        AccessPoint { ssid: String::from("a"), signal_strength: -40, auth: ScannedAuth::Wep },
        AccessPoint { ssid: String::new(), signal_strength: -30, auth: ScannedAuth::Open },
        AccessPoint { ssid: String::from("b"), signal_strength: -60, auth: ScannedAuth::Other },
    ];
    let networks = scan_pass(points);
    assert_eq!(seen(&networks), [("a", -40), ("b", -60)]);
    assert!(networks[0].supported && !networks[1].supported);
}

#[test]
fn passes_are_merged() {
    let mut networks = vec![found("a", -70), found("b", -50)];
    merge_scan_results(&mut networks, vec![found("a", -40), found("c", -60), found("b", -90)]);
    assert_eq!(seen(&networks), [("a", -40), ("b", -50), ("c", -60)]);
    let many = (0..20).map(|i| found(&format!("n{i}"), -100 + i)).collect();
    merge_scan_results(&mut networks, many);
    assert_eq!(networks.len(), MAX_SCAN_RESULTS);
    assert_eq!(seen(&networks)[..3], [("a", -40), ("b", -50), ("c", -60)]);
    assert_eq!(networks[7].ssid, "n15");
    assert_eq!(find_network(&networks, "b"), 1);
    assert_eq!(find_network(&networks, "z"), 8);
}

#[test]
fn configuring_fails_in_its_ways() {
    assert_eq!(configure(AuthKind::Wpa2, true, true, true).is_ok(), true);
    assert_eq!(configure(AuthKind::Open, true, false, true).is_ok(), true);
    assert!(matches!(
        configure(AuthKind::Wpa2, true, false, true),
        Err(ConnectError::InvalidCredentials)
    ));
    assert!(matches!(
        configure(AuthKind::Open, false, true, true),
        Err(ConnectError::InvalidCredentials)
    ));
    assert!(matches!(
        configure(AuthKind::Wep, true, true, false),
        Err(ConnectError::Radio)
    ));
}

fn scan(control: &mut WifiControl, config: &mut WifiConfig, results: Vec<ScanNetwork>) {
    control.step(0);
    assert!(matches!(control.query(), Some(WifiQuery::Scan)));
    control.resume(WifiReply::Scanned(results), config, CardOwner::Firmware, 0);
}

#[test]
fn two_passes_make_a_scan() {
    let mut config = WifiConfig::default();
    let mut control = WifiControl::new(true, true);
    assert_eq!(control.status, "READY");
    control.act(&mut config, 1, 0, true, CardOwner::Firmware, 1);
    assert_eq!(control.status, "SCANNING 1/2 /");
    assert!(control.connecting && control.busy());
    scan(&mut control, &mut config, vec![found("a", -40)]);
    assert!(matches!(control.pending, Some(RadioStep::Scan { pass: 2 })));
    control.spin(3);
    assert_eq!(control.status, "SCANNING 2/2 +");
    scan(&mut control, &mut config, vec![found("b", -30)]);
    assert!(!control.connecting && !control.busy());
    assert_eq!(control.status, "* = PASSWORD  ! = UNSUPPORTED");
    assert_eq!(seen(&control.networks), [("b", -30), ("a", -40)]);
}

#[test]
fn scans_can_find_nothing_or_fail() {
    let mut config = WifiConfig::default();
    let mut control = WifiControl::new(true, false);
    assert_eq!(control.status, "SD ERROR");
    control.act(&mut config, 1, 0, true, CardOwner::Firmware, 0);
    scan(&mut control, &mut config, Vec::new());
    scan(&mut control, &mut config, Vec::new());
    assert_eq!(control.status, "NO NETWORKS FOUND");

    control.act(&mut config, 1, 0, true, CardOwner::Firmware, 0);
    control.step(0);
    control.resume(WifiReply::Failed, &mut config, CardOwner::Firmware, 0);
    assert_eq!(control.status, "SCAN FAILED");

    control.act(&mut config, 1, 0, true, CardOwner::Firmware, 0);
    scan(&mut control, &mut config, vec![found("a", -40)]);
    control.step(0);
    control.resume(WifiReply::Failed, &mut config, CardOwner::Firmware, 0);
    assert_eq!(control.status, "SCAN PARTIAL - SHOWING WHAT WE HAVE");

    control.act(&mut config, 1, 0, false, CardOwner::Firmware, 0);
    assert_eq!(control.status, "WI-FI NOT AVAILABLE");
    assert!(!control.busy());
}

fn join(control: &mut WifiControl, config: &mut WifiConfig, card: CardOwner) {
    assert!(matches!(control.query(), Some(WifiQuery::Configure(_))));
    control.resume(WifiReply::Done, config, card, 2);
    assert_eq!(control.status, "CONNECTING 1/3 -");
    control.step(2);
    assert!(matches!(control.query(), Some(WifiQuery::Connect)));
}

#[test]
fn joining_an_open_network_saves_it() {
    let mut config = WifiConfig::default();
    let mut control = WifiControl::new(true, true);
    control.networks = vec![open("cafe"), found("home", -60)];
    control.act(&mut config, 3, 0, true, CardOwner::Firmware, 0);
    join(&mut control, &mut config, CardOwner::Firmware);
    control.resume(WifiReply::Done, &mut config, CardOwner::Firmware, 0);
    assert_eq!(config.networks[0].ssid, "cafe");
    assert_eq!(control.link_ssid, "cafe");
    assert!(matches!(control.query(), Some(WifiQuery::Save)));
    control.resume(WifiReply::Done, &mut config, CardOwner::Firmware, 0);
    assert_eq!(control.status, "CONNECTED: cafe");
    assert!(!control.connecting);
    assert!(control.query().is_none());
}

#[test]
fn joining_with_a_password() {
    let mut config = WifiConfig::default();
    let mut control = WifiControl::new(true, true);
    control.networks = vec![found("home", -60)];
    control.act(&mut config, 3, 0, true, CardOwner::Firmware, 0);
    assert_eq!((control.status.as_str(), control.view_state), ("TYPE PASSWORD", 5));
    assert!(control.query().is_none());
    control.password = String::from("secret");
    control.act(&mut config, 4, 0, true, CardOwner::Firmware, 0);
    match control.query() {
        Some(WifiQuery::Configure(network)) => {
            assert_eq!((network.ssid.as_str(), network.password.as_str()), ("home", "secret"));
        }
        _ => panic!("no network"),
    }
    join(&mut control, &mut config, CardOwner::Firmware);
    control.resume(WifiReply::Done, &mut config, CardOwner::Firmware, 0);
    control.resume(WifiReply::Failed, &mut config, CardOwner::Firmware, 0);
    assert_eq!(control.status, "CONNECTED - SD SAVE FAILED");
    assert_eq!((control.view_state, control.password.as_str()), (2, ""));
    assert_eq!(config.networks[0].password, "secret");
}

#[test]
fn three_attempts_make_a_failure() {
    let mut config = WifiConfig::default();
    config.upsert(SavedNetwork {
        ssid: String::from("home"),
        password: String::from("secret"),
        auth: AuthKind::Wpa,
    });
    let mut control = WifiControl::new(true, true);
    control.act(&mut config, 2, 1, true, CardOwner::Firmware, 0);
    assert!(control.query().is_none());
    control.act(&mut config, 2, -1, true, CardOwner::Firmware, 0);
    assert!(control.query().is_none());
    control.act(&mut config, 2, 0, true, CardOwner::Firmware, 0);
    join(&mut control, &mut config, CardOwner::Firmware);
    for _ in 0..2 {
        control.resume(WifiReply::Failed, &mut config, CardOwner::Firmware, 0);
        assert!(control.busy());
        control.step(0);
    }
    assert_eq!(control.status, "CONNECTING 3/3 |");
    control.resume(WifiReply::Failed, &mut config, CardOwner::Firmware, 0);
    assert_eq!(control.status, "CONNECTION FAILED");
    assert!(!control.busy() && !control.connecting);
}

#[test]
fn unsupported_networks_are_not_joined() {
    let mut config = WifiConfig::default();
    let mut control = WifiControl::new(true, true);
    control.networks = vec![ScanNetwork { supported: false, ..found("ent", -60) }];
    control.act(&mut config, 3, 0, true, CardOwner::Firmware, 0);
    assert_eq!(control.status, "SECURITY NOT SUPPORTED");
    assert!(control.query().is_none());
}

#[test]
fn the_radio_can_refuse_a_network() {
    let mut config = WifiConfig::default();
    let mut control = WifiControl::new(true, true);
    control.networks = vec![open("cafe")];
    control.act(&mut config, 3, 0, true, CardOwner::Firmware, 0);
    control.resume(WifiReply::Failed, &mut config, CardOwner::Firmware, 0);
    assert_eq!(control.status, "CONNECTION FAILED");
    control.act(&mut config, 3, 0, true, CardOwner::Firmware, 0);
    control.resume(WifiReply::Absent, &mut config, CardOwner::Firmware, 0);
    assert_eq!(control.status, "WI-FI NOT AVAILABLE");
}

#[test]
fn forgetting_a_network() {
    let mut config = WifiConfig::default();
    for ssid in ["a", "b"] {
        config.upsert(SavedNetwork {
            ssid: String::from(ssid),
            password: String::new(),
            auth: AuthKind::Open,
        });
    }
    let mut control = WifiControl::new(true, true);
    control.saved_changed = false;
    control.act(&mut config, 5, 0, true, CardOwner::Firmware, 0);
    assert!(matches!(control.query(), Some(WifiQuery::Save)));
    assert!(control.saved_changed);
    control.resume(WifiReply::Done, &mut config, CardOwner::Firmware, 0);
    assert_eq!(control.status, "NETWORK FORGOTTEN");
    assert_eq!(config.networks.len(), 1);
    assert_eq!(config.networks[0].ssid, "b");
    control.act(&mut config, 5, 7, true, CardOwner::Firmware, 0);
    assert_eq!(config.networks.len(), 1);
}

#[test]
fn nothing_is_saved_on_a_card_of_the_host() {
    let mut config = WifiConfig::default();
    let mut control = WifiControl::new(true, true);
    control.networks = vec![open("cafe")];
    control.act(&mut config, 3, 0, true, CardOwner::Host, 0);
    join(&mut control, &mut config, CardOwner::Host);
    control.resume(WifiReply::Done, &mut config, CardOwner::Host, 0);
    assert!(control.query().is_none());
    assert_eq!(control.status, "CONNECTED - SD SAVE FAILED");
    control.act(&mut config, 5, 0, true, CardOwner::Host, 0);
    assert!(control.query().is_none());
    assert_eq!(control.status, "SD SAVE FAILED");
    assert!(config.networks.is_empty());
}

#[test]
fn nothing_connects_by_itself() {
    let mut config = WifiConfig::default();
    config.upsert(SavedNetwork {
        ssid: String::from("home"),
        password: String::new(),
        auth: AuthKind::Open,
    });
    let mut control = WifiControl::new(true, true);
    for action in [0, 1, 6, -1] {
        control.act(&mut config, action, 0, true, CardOwner::Firmware, 0);
        while control.busy() {
            scan(&mut control, &mut config, vec![open("home")]);
        }
        assert!(control.query().is_none());
    }
    control.link_lost();
    assert_eq!(control.status, "CONNECTION LOST");
    control.reloaded(true);
    assert_eq!((control.status.as_str(), control.view_state), ("SD RELOADED", 0));
    control.reloaded(false);
    assert_eq!(control.status, "SD ERROR AFTER USB");
}
