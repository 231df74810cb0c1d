//! The USB disk screen: the card goes to the host and comes back.

use crate::clock::{has_come, reached};
use crate::msc::scsi::Stats;
use crate::screen::lines::{usb_stats_text, usb_traffic};
use crate::storage::{DstRule, StorageError, WifiConfig};
use crate::usbdisk::{CardOwner, UsbDiskState};
use vstd::prelude::*;
use vstd::string::*;

verus! {

/// Time in microseconds between two refreshes of the counters; every redraw steals
/// time from USB.
pub const STATS_EVERY_MICROS: u64 = 500_000;

/// What has to be done with the card.
#[derive(Clone, Copy, Debug, PartialEq, Eq, Structural)]
pub enum UsbTask {
    Nothing,
    /// Give up the file system and hand the card to the host.
    Export,
    /// Disconnect the host and mount the card again.
    TakeBack,
}

/// The control of the USB disk screen, and what it shows.
pub struct UsbControl {
    pub card: CardOwner,
    /// The state that the screen shows.
    pub shown: Option<UsbDiskState>,
    /// The next exit disconnects even a host that has the card mounted.
    pub force_exit: bool,
    /// When the counters are refreshed next.
    pub stats_at: u64,
    pub status: String,
    pub stats: String,
}

/// What a [`UsbControl`] holds.
#[verifier::ext_equal]
pub struct UsbView {
    pub card: CardOwner,
    pub shown: Option<UsbDiskState>,
    pub force_exit: bool,
    pub stats_at: u64,
    pub status: Seq<char>,
    pub stats: Seq<char>,
}

impl View for UsbControl {
    type V = UsbView;

    open spec fn view(&self) -> UsbView {
        UsbView {
            card: self.card,
            shown: self.shown,
            force_exit: self.force_exit,
            stats_at: self.stats_at,
            status: self.status@,
            stats: self.stats@,
        }
    }
}

/// Who owns a card that the firmware has mounted, or has failed to mount.
pub open spec fn owner_after_mount(mounted: bool) -> CardOwner {
    if mounted {
        CardOwner::Firmware
    } else {
        CardOwner::Nobody
    }
}

fn mount_owner(mounted: bool) -> (owner: CardOwner)
    ensures
        owner == owner_after_mount(mounted),
{
    if mounted {
        CardOwner::Firmware
    } else {
        CardOwner::Nobody
    }
}

/// What a command of the screen leads to: 1 hands the card to the host, 2 takes
/// it back. A host that has the card mounted is disconnected at the second attempt
/// only.
pub open spec fn usb_acted(v: UsbView, action: i32, ftp_running: bool, can_detach: bool) -> (
    UsbTask,
    UsbView,
) {
    if action == 1 && ftp_running {
        (UsbTask::Nothing, UsbView { status: "SD IN USE BY FTP"@, ..v })
    } else if action == 1 && v.card == CardOwner::Firmware {
        (UsbTask::Export, v)
    } else if action == 1 && v.card == CardOwner::Nobody {
        (UsbTask::Nothing, UsbView { status: "SD ALREADY IN USE"@, ..v })
    } else if action == 2 && v.card == CardOwner::Host {
        if can_detach || v.force_exit {
            (UsbTask::TakeBack, v)
        } else {
            (
                UsbTask::Nothing,
                UsbView { status: "EJECT OR PRESS EXIT AGAIN"@, force_exit: true, ..v },
            )
        }
    } else {
        (UsbTask::Nothing, v)
    }
}

/// The state of the USB disk in words.
pub open spec fn state_line(state: UsbDiskState) -> Seq<char> {
    match state {
        UsbDiskState::Waiting => "CONNECT USB CABLE"@,
        UsbDiskState::Mounted => "SD MOUNTED ON PC"@,
        UsbDiskState::Ejected => "SAFE TO EXIT"@,
        UsbDiskState::Inactive => "USB NOT ACTIVE"@,
    }
}

/// What the screen shows of the USB disk.
pub open spec fn usb_shown(v: UsbView, state: UsbDiskState, stats: Stats, now: u64) -> UsbView {
    if v.card != CardOwner::Host {
        v
    } else {
        let told = if v.shown == Some(state) {
            v
        } else {
            UsbView { status: state_line(state), shown: Some(state), ..v }
        };
        if has_come(now, v.stats_at) {
            UsbView {
                stats_at: now.wrapping_add(STATS_EVERY_MICROS),
                stats: usb_traffic(stats),
                ..told
            }
        } else {
            told
        }
    }
}

/// The screen before anything was asked of it.
pub open spec fn usb_first(available: bool, mounted: bool, now: u64) -> UsbView {
    UsbView {
        card: owner_after_mount(mounted),
        shown: None,
        force_exit: false,
        stats_at: now,
        status: if available {
            "CONNECT USB CABLE"@
        } else {
            "USB INIT ERROR"@
        },
        stats: Seq::empty(),
    }
}

/// The screen after the card was to be handed to the host.
pub open spec fn usb_exported(v: UsbView, attached: bool, mounted: bool) -> UsbView {
    if attached {
        UsbView { card: CardOwner::Host, shown: None, force_exit: false, ..v }
    } else {
        UsbView { card: owner_after_mount(mounted), status: "USB INIT ERROR"@, ..v }
    }
}

/// The screen after the card was taken back.
pub open spec fn usb_returned(v: UsbView, mounted: bool) -> UsbView {
    UsbView {
        card: owner_after_mount(mounted),
        shown: None,
        force_exit: false,
        status: "CONNECT USB CABLE"@,
        ..v
    }
}

impl UsbControl {
    /// The screen as the firmware starts.
    pub fn new(available: bool, mounted: bool, now: u64) -> (control: Self)
        ensures
            control@ == usb_first(available, mounted, now),
    {
        let stats = String::new();
        assert(stats@ =~= Seq::<char>::empty());
        UsbControl {
            card: mount_owner(mounted),
            shown: None,
            force_exit: false,
            stats_at: now,
            status: (if available {
                "CONNECT USB CABLE"
            } else {
                "USB INIT ERROR"
            }).to_owned(),
            stats,
        }
    }

    /// Takes a command of the screen.
    pub fn act(&mut self, action: i32, ftp_running: bool, can_detach: bool) -> (task: UsbTask)
        ensures
            (task, final(self)@) == usb_acted(old(self)@, action, ftp_running, can_detach),
    {
        if action == 1 {
            if ftp_running {
                self.status = "SD IN USE BY FTP".to_owned();
                return UsbTask::Nothing;
            }
            match self.card {
                CardOwner::Firmware => {
                    return UsbTask::Export;
                },
                CardOwner::Nobody => {
                    self.status = "SD ALREADY IN USE".to_owned();
                },
                CardOwner::Host => {},
            }
            return UsbTask::Nothing;
        }
        if action == 2 && self.card == CardOwner::Host {
            if can_detach || self.force_exit {
                return UsbTask::TakeBack;
            }
            self.status = "EJECT OR PRESS EXIT AGAIN".to_owned();
            self.force_exit = true;
        }
        UsbTask::Nothing
    }

    /// The card was handed to the host; where that failed, `mounted` says whether
    /// the firmware could mount it again.
    pub fn exported(&mut self, attached: bool, mounted: bool)
        ensures
            final(self)@ == usb_exported(old(self)@, attached, mounted),
    {
        if attached {
            self.card = CardOwner::Host;
            self.shown = None;
            self.force_exit = false;
        } else {
            self.card = mount_owner(mounted);
            self.status = "USB INIT ERROR".to_owned();
        }
    }

    /// The host was disconnected; `mounted` says whether the firmware could mount
    /// the card again.
    pub fn taken_back(&mut self, mounted: bool)
        ensures
            final(self)@ == usb_returned(old(self)@, mounted),
    {
        self.card = mount_owner(mounted);
        self.shown = None;
        self.force_exit = false;
        self.status = "CONNECT USB CABLE".to_owned();
    }

    /// Shows the state of the USB disk and, now and then, its counters.
    pub fn show(&mut self, state: UsbDiskState, stats: Stats, now: u64)
        ensures
            final(self)@ == usb_shown(old(self)@, state, stats, now),
    {
        if self.card != CardOwner::Host {
            return ;
        }
        let known = match self.shown {
            Some(shown) => shown == state,
            None => false,
        };
        if !known {
            self.status =
            (match state {
                UsbDiskState::Waiting => "CONNECT USB CABLE",
                UsbDiskState::Mounted => "SD MOUNTED ON PC",
                UsbDiskState::Ejected => "SAFE TO EXIT",
                UsbDiskState::Inactive => "USB NOT ACTIVE",
            }).to_owned();
            self.shown = Some(state);
        }
        if reached(now, self.stats_at) {
            self.stats_at = now.wrapping_add(STATS_EVERY_MICROS);
            self.stats = usb_stats_text(stats);
        }
    }
}

/// Whether a configuration holds the defaults.
pub open spec fn is_default(config: WifiConfig) -> bool {
    &&& config.version == crate::storage::CONFIG_VERSION
    &&& config.networks@.len() == 0
    &&& config.clock.utc_offset_minutes == 60
    &&& config.clock.dst == DstRule::Eu
    &&& config.clock.ntp_server@ == "pool.ntp.org"@
    &&& config.ftp.user@ == "rat"@
    &&& config.ftp.password@ == "cheese"@
}

/// The configuration after the card was read: what it holds, the defaults if it
/// holds none, and the one in use if it cannot be read. The flag says whether the
/// card is in order.
pub fn adopt_config(loaded: Result<WifiConfig, StorageError>, current: WifiConfig) -> (adopted: (
    WifiConfig,
    bool,
))
    ensures
        match loaded {
            Ok(config) => adopted == (config, true),
            Err(StorageError::Missing) => is_default(adopted.0) && adopted.1,
            Err(_) => adopted == (current, false),
        },
{
    match loaded {
        Ok(config) => (config, true),
        Err(StorageError::Missing) => (WifiConfig::default(), true),
        Err(_) => (current, false),
    }
}

// ---------------------------------------------------------------------------
// Laws
// ---------------------------------------------------------------------------

/// Only one side owns the card at a time: it is handed to the host only by a
/// firmware that has it and serves no files from it, and taken back only from the
/// host.
pub proof fn one_side_owns_the_card(v: UsbView, action: i32, ftp_running: bool, can_detach: bool)
    ensures
        usb_acted(v, action, ftp_running, can_detach).0 == UsbTask::Export ==> v.card
            == CardOwner::Firmware && !ftp_running,
        usb_acted(v, action, ftp_running, can_detach).0 == UsbTask::TakeBack ==> v.card
            == CardOwner::Host,
        usb_acted(v, action, ftp_running, can_detach).1.card == v.card,
{
}

/// The first attempt to leave while the host has the card mounted only warns; the
/// next one takes the card back.
pub proof fn second_exit_forces(v: UsbView, ftp_running: bool)
    requires
        v.card == CardOwner::Host,
        !v.force_exit,
    ensures
        ({
            let (first, warned) = usb_acted(v, 2, ftp_running, false);
            &&& first == UsbTask::Nothing
            &&& warned.status == "EJECT OR PRESS EXIT AGAIN"@
            &&& usb_acted(warned, 2, ftp_running, false).0 == UsbTask::TakeBack
        }),
{
}

/// The card goes to the host only when it is asked for, is at hand, and is not being served over
/// FTP; it is asked back only from the host, which must have let go of it or be asked twice.
pub proof fn card_changes_hands(v: UsbView, action: i32, ftp_running: bool, can_detach: bool)
    ensures
        usb_acted(v, action, ftp_running, can_detach).0 == UsbTask::Export <==> action == 1
            && !ftp_running && v.card == CardOwner::Firmware,
        usb_acted(v, action, ftp_running, can_detach).0 == UsbTask::TakeBack <==> action == 2
            && v.card == CardOwner::Host && (can_detach || v.force_exit),
        usb_acted(v, action, ftp_running, can_detach).1.card == v.card,
        usb_acted(v, 1, true, can_detach).1.status == "SD IN USE BY FTP"@,
        v.card == CardOwner::Nobody ==> usb_acted(v, 1, false, can_detach).1.status
            == "SD ALREADY IN USE"@,
        v.card == CardOwner::Host && !v.force_exit ==> usb_acted(v, 2, ftp_running, false).1.status
            == "EJECT OR PRESS EXIT AGAIN"@ && usb_acted(v, 2, ftp_running, false).1.force_exit,
{
}

/// Who has the card: the host from the moment it is attached, and afterwards the firmware, if it
/// could mount it again.
pub proof fn card_has_an_owner(v: UsbView, available: bool, now: u64, mounted: bool)
    ensures
        usb_exported(v, true, mounted).card == CardOwner::Host,
        usb_exported(v, true, mounted).shown is None && !usb_exported(v, true, mounted).force_exit,
        usb_exported(v, false, true).card == CardOwner::Firmware,
        usb_exported(v, false, false).card == CardOwner::Nobody,
        usb_exported(v, false, mounted).status == "USB INIT ERROR"@,
        usb_returned(v, true).card == CardOwner::Firmware,
        usb_returned(v, false).card == CardOwner::Nobody,
        usb_returned(v, mounted).status == "CONNECT USB CABLE"@,
        usb_returned(v, mounted).shown is None && !usb_returned(v, mounted).force_exit,
        usb_first(available, true, now).card == CardOwner::Firmware,
        usb_first(available, false, now).card == CardOwner::Nobody,
        usb_first(true, mounted, now).status == "CONNECT USB CABLE"@,
        usb_first(false, mounted, now).status == "USB INIT ERROR"@,
        usb_first(available, mounted, now).stats_at == now,
        !usb_first(available, mounted, now).force_exit,
        usb_first(available, mounted, now).shown is None,
        usb_first(available, mounted, now).stats.len() == 0,
{
}

/// While the host has the card its state is told when it changes, and the traffic twice a
/// second; otherwise nothing is.
pub proof fn host_state_is_told(v: UsbView, state: UsbDiskState, stats: Stats, now: u64)
    requires
        v.stats_at < 0x4000_0000_0000_0000,
        now < 0x4000_0000_0000_0000,
    ensures
        v.card != CardOwner::Host ==> usb_shown(v, state, stats, now) == v,
        v.card == CardOwner::Host ==> {
            let after = usb_shown(v, state, stats, now);
            &&& after.shown == Some(state)
            &&& v.shown != Some(state) && state == UsbDiskState::Waiting ==> after.status
                == "CONNECT USB CABLE"@
            &&& v.shown != Some(state) && state == UsbDiskState::Mounted ==> after.status
                == "SD MOUNTED ON PC"@
            &&& v.shown != Some(state) && state == UsbDiskState::Ejected ==> after.status
                == "SAFE TO EXIT"@
            &&& v.shown != Some(state) && state == UsbDiskState::Inactive ==> after.status
                == "USB NOT ACTIVE"@
            &&& v.shown == Some(state) ==> after.status == v.status
            &&& now >= v.stats_at ==> after.stats == usb_traffic(stats) && after.stats_at == now
                + 500_000
            &&& now < v.stats_at ==> after.stats == v.stats && after.stats_at == v.stats_at
            &&& after.card == v.card && after.force_exit == v.force_exit
        },
{
}

/// The configuration of a card that has none: no networks, an hour east of UTC with summer time,
/// the usual time server and the login that the device comes with.
pub proof fn new_cards_have_the_usual_settings(config: WifiConfig)
    requires
        is_default(config),
    ensures
        config.version == 1,
        config.networks@.len() == 0,
        config.clock.utc_offset_minutes == 60,
        config.clock.dst == DstRule::Eu,
        config.clock.ntp_server@ == crate::storage::usable_server(Seq::empty()),
        config.ftp.user@ == seq!['r', 'a', 't'],
        config.ftp.password@ == seq!['c', 'h', 'e', 'e', 's', 'e'],
{
    reveal_strlit("rat");
    reveal_strlit("cheese");
    assert("rat"@ =~= seq!['r', 'a', 't']);
    assert("cheese"@ =~= seq!['c', 'h', 'e', 'e', 's', 'e']);
    assert(vstd::utf8::encode_utf8(Seq::<char>::empty()) =~= Seq::<u8>::empty());
}

} // verus!
