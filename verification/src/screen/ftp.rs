//! The FTP screen: the server runs only while it is open.

use crate::clock::{has_come, reached};
use crate::ftp::command::Ipv4;
use crate::ftp::session::{FtpStats, FtpStatus};
use crate::screen::lines::{
    VIEW_FTP, VIEW_FTP_PASSWORD, address_line, ftp_address_text, ftp_login_text, ftp_state_line,
    ftp_state_text, ftp_stats_text, ftp_traffic, login_line,
};
use crate::storage::{WifiConfig, is_credential, valid_ftp_credential};
use crate::usbdisk::CardOwner;
use vstd::prelude::*;
use vstd::string::*;

verus! {

/// Free memory in bytes without which no server is set up: the buffers of its
/// sockets, and ample room for the screen and the radio.
pub const MIN_FREE_HEAP: u64 = 32 * 1024;

/// Time in microseconds between two refreshes of the counters.
pub const STATS_EVERY_MICROS: u64 = 500_000;

/// Longest time in microseconds that one iteration of the main loop keeps polling
/// a transfer.
pub const BURST_MICROS: u64 = 15_000;

/// What has to be done.
#[derive(Clone, Copy, Debug, PartialEq, Eq, Structural)]
pub enum FtpTask {
    Nothing,
    /// Start the server; `create` says that it has to be set up first.
    Start { create: bool },
    Stop,
    /// Write the configuration to the card.
    Save,
}

/// What a decision depends on.
#[derive(Clone, Copy, Debug, PartialEq, Eq, Structural)]
pub struct FtpEnv {
    pub card: CardOwner,
    /// There is a network.
    pub network: bool,
    /// The server is not stopped.
    pub running: bool,
    pub heap_free: u64,
}

/// The control of the FTP screen, and what it shows.
pub struct FtpControl {
    /// The server has been set up; it is kept from then on.
    pub created: bool,
    /// When the counters are refreshed next.
    pub stats_at: u64,
    pub status: String,
    pub addr: String,
    pub user: String,
    pub stats: String,
    pub password: String,
    pub view_state: i32,
}

/// What a [`FtpControl`] holds.
#[verifier::ext_equal]
pub struct FtpView {
    pub created: bool,
    pub stats_at: u64,
    pub status: Seq<char>,
    pub addr: Seq<char>,
    pub user: Seq<char>,
    pub stats: Seq<char>,
    pub password: Seq<char>,
    pub view_state: i32,
}

impl View for FtpControl {
    type V = FtpView;

    open spec fn view(&self) -> FtpView {
        FtpView {
            created: self.created,
            stats_at: self.stats_at,
            status: self.status@,
            addr: self.addr@,
            user: self.user@,
            stats: self.stats@,
            password: self.password@,
            view_state: self.view_state,
        }
    }
}

impl FtpView {
    pub open spec fn saying(self, status: Seq<char>) -> FtpView {
        FtpView { status, ..self }
    }
}

/// Whether and how the server is started.
pub open spec fn ftp_starting(v: FtpView, env: FtpEnv) -> (FtpTask, FtpView) {
    if env.card != CardOwner::Firmware || !env.network {
        (FtpTask::Nothing, v.saying("SD OR WI-FI UNAVAILABLE"@))
    } else if !v.created && env.heap_free < MIN_FREE_HEAP {
        (FtpTask::Nothing, v.saying("LOW MEMORY"@))
    } else {
        (FtpTask::Start { create: !v.created }, FtpView { created: true, ..v })
    }
}

/// Whether the server has to be stopped.
pub open spec fn stop_task(env: FtpEnv) -> FtpTask {
    if env.running && env.card == CardOwner::Firmware {
        FtpTask::Stop
    } else {
        FtpTask::Nothing
    }
}

/// What a command of the screen leads to: 1 starts the server, 2 stops it, 3 opens
/// the password, 4 takes the new password and 5 leaves it.
pub open spec fn ftp_acted(v: FtpView, password: Seq<char>, action: i32, env: FtpEnv) -> (
    FtpTask,
    FtpView,
) {
    if action == 1 {
        ftp_starting(v, env)
    } else if action == 2 {
        (stop_task(env), v.saying("STOPPED"@))
    } else if action == 3 {
        (stop_task(env), FtpView { password, ..v }.saying("TYPE NEW PASSWORD"@))
    } else if action == 4 {
        if !is_credential(v.password) {
            (FtpTask::Nothing, v.saying("1-32 ASCII, NO SPACES"@))
        } else if env.card == CardOwner::Firmware {
            (FtpTask::Save, v)
        } else {
            (FtpTask::Nothing, v.saying("SD BUSY"@))
        }
    } else if action == 5 {
        ftp_starting(FtpView { view_state: VIEW_FTP, ..v }, env)
    } else {
        (FtpTask::Nothing, v)
    }
}

/// The FTP password after a command of the screen.
pub open spec fn password_acted(v: FtpView, password: Seq<char>, action: i32, env: FtpEnv) -> Seq<
    char,
> {
    if ftp_acted(v, password, action, env).0 == FtpTask::Save {
        v.password
    } else {
        password
    }
}

/// The new password was written to the card, or could not be.
pub open spec fn ftp_saved(
    v: FtpView,
    user: Seq<char>,
    password: Seq<char>,
    success: bool,
    env: FtpEnv,
) -> (FtpTask, FtpView) {
    if success {
        ftp_starting(
            FtpView { user: login_line(user, password), view_state: VIEW_FTP, ..v },
            env,
        )
    } else {
        (FtpTask::Nothing, v.saying("SD SAVE FAILED"@))
    }
}

/// What the screen shows of the server.
pub open spec fn ftp_shown(
    v: FtpView,
    status: FtpStatus,
    activity: Seq<char>,
    peer: Option<Seq<char>>,
    ip: Option<Ipv4>,
    stats: FtpStats,
    heap_free: u64,
    now: u64,
) -> FtpView {
    let told = FtpView {
        status: ftp_state_line(status, activity, peer),
        addr: address_line(ip),
        ..v
    };
    if has_come(now, v.stats_at) {
        FtpView {
            stats_at: now.wrapping_add(STATS_EVERY_MICROS),
            stats: ftp_traffic(stats, heap_free as nat),
            ..told
        }
    } else {
        told
    }
}

/// The screen after the server was started, or could not be.
pub open spec fn ftp_started(
    v: FtpView,
    user: Seq<char>,
    password: Seq<char>,
    success: bool,
) -> FtpView {
    if success {
        FtpView { user: login_line(user, password), ..v }.saying("WAITING FOR WI-FI"@)
    } else {
        v.saying("SD VOLUME ERROR"@)
    }
}

/// What to do when another screen is shown.
pub open spec fn leave_task(view_state: i32, env: FtpEnv) -> FtpTask {
    if view_state == VIEW_FTP || view_state == VIEW_FTP_PASSWORD {
        FtpTask::Nothing
    } else {
        stop_task(env)
    }
}

/// Whether the server is polled once more in this iteration.
pub open spec fn polls_on(elapsed: u64, status: FtpStatus) -> bool {
    elapsed < BURST_MICROS && status == FtpStatus::Transfer
}

/// How long the main loop rests.
pub open spec fn rest_millis(transferring: bool) -> int {
    if transferring {
        1
    } else {
        10
    }
}

impl FtpControl {
    /// The screen as the firmware starts.
    pub fn new(config: &WifiConfig, now: u64) -> (control: Self)
        ensures
            control@ == (FtpView {
                created: false,
                stats_at: now,
                status: "STOPPED"@,
                addr: Seq::empty(),
                user: login_line(config.ftp.user@, config.ftp.password@),
                stats: Seq::empty(),
                password: Seq::empty(),
                view_state: 0,
            }),
    {
        let empty = String::new();
        assert(empty@ =~= Seq::<char>::empty());
        FtpControl {
            created: false,
            stats_at: now,
            status: "STOPPED".to_owned(),
            addr: empty.clone(),
            user: ftp_login_text(&config.ftp),
            stats: empty.clone(),
            password: empty,
            view_state: 0,
        }
    }

    fn say(&mut self, status: &str)
        ensures
            final(self)@ == old(self)@.saying(status@),
    {
        self.status = status.to_owned();
    }

    fn begin(&mut self, env: FtpEnv) -> (task: FtpTask)
        ensures
            (task, final(self)@) == ftp_starting(old(self)@, env),
    {
        if env.card != CardOwner::Firmware || !env.network {
            self.say("SD OR WI-FI UNAVAILABLE");
            return FtpTask::Nothing;
        }
        if !self.created && env.heap_free < MIN_FREE_HEAP {
            self.say("LOW MEMORY");
            return FtpTask::Nothing;
        }
        let create = !self.created;
        self.created = true;
        FtpTask::Start { create }
    }

    /// Takes a command of the screen.
    pub fn act(&mut self, config: &mut WifiConfig, action: i32, env: FtpEnv) -> (task: FtpTask)
        ensures
            (task, final(self)@) == ftp_acted(
                old(self)@,
                old(config).ftp.password@,
                action,
                env,
            ),
            final(config).ftp.password@ == password_acted(
                old(self)@,
                old(config).ftp.password@,
                action,
                env,
            ),
            final(config).ftp.user == old(config).ftp.user,
            final(config).version == old(config).version,
            final(config).clock == old(config).clock,
            final(config).networks == old(config).networks,
    {
        if action == 1 {
            self.begin(env)
        } else if action == 2 {
            self.say("STOPPED");
            stop_ftp(env)
        } else if action == 3 {
            self.password = config.ftp.password.clone();
            self.say("TYPE NEW PASSWORD");
            stop_ftp(env)
        } else if action == 4 {
            if !valid_ftp_credential(self.password.as_str()) {
                self.say("1-32 ASCII, NO SPACES");
                FtpTask::Nothing
            } else if env.card == CardOwner::Firmware {
                config.ftp.password = self.password.clone();
                FtpTask::Save
            } else {
                self.say("SD BUSY");
                FtpTask::Nothing
            }
        } else if action == 5 {
            self.view_state = VIEW_FTP;
            self.begin(env)
        } else {
            FtpTask::Nothing
        }
    }

    /// The new password was written to the card, or could not be.
    pub fn saved(&mut self, config: &WifiConfig, success: bool, env: FtpEnv) -> (task: FtpTask)
        ensures
            (task, final(self)@) == ftp_saved(
                old(self)@,
                config.ftp.user@,
                config.ftp.password@,
                success,
                env,
            ),
    {
        if !success {
            self.say("SD SAVE FAILED");
            return FtpTask::Nothing;
        }
        self.user = ftp_login_text(&config.ftp);
        self.view_state = VIEW_FTP;
        self.begin(env)
    }

    /// The server was started, or could not be.
    pub fn started(&mut self, config: &WifiConfig, success: bool)
        ensures
            final(self)@ == ftp_started(
                old(self)@,
                config.ftp.user@,
                config.ftp.password@,
                success,
            ),
    {
        if success {
            self.user = ftp_login_text(&config.ftp);
            self.say("WAITING FOR WI-FI");
        } else {
            self.say("SD VOLUME ERROR");
        }
    }

    /// Shows what the server is doing and, now and then, its counters.
    pub fn show(
        &mut self,
        status: FtpStatus,
        activity: &str,
        peer: Option<&str>,
        ip: Option<Ipv4>,
        stats: FtpStats,
        heap_free: u64,
        now: u64,
    )
        ensures
            final(self)@ == ftp_shown(
                old(self)@,
                status,
                activity@,
                match peer {
                    Some(peer) => Some(peer@),
                    None => None,
                },
                ip,
                stats,
                heap_free,
                now,
            ),
    {
        self.status = ftp_state_text(status, activity, peer);
        self.addr = ftp_address_text(ip);
        if reached(now, self.stats_at) {
            self.stats_at = now.wrapping_add(STATS_EVERY_MICROS);
            self.stats = ftp_stats_text(stats, heap_free);
        }
    }
}

/// Whether the server has to be stopped.
pub fn stop_ftp(env: FtpEnv) -> (task: FtpTask)
    ensures
        task == stop_task(env),
{
    if env.running && env.card == CardOwner::Firmware {
        FtpTask::Stop
    } else {
        FtpTask::Nothing
    }
}

/// Stops a server whose screen was left, before anything else can use the card.
pub fn leave_ftp(view_state: i32, env: FtpEnv) -> (task: FtpTask)
    ensures
        task == leave_task(view_state, env),
{
    if view_state == VIEW_FTP || view_state == VIEW_FTP_PASSWORD {
        FtpTask::Nothing
    } else {
        stop_ftp(env)
    }
}

/// Whether a transfer is polled on in the same iteration of the main loop, after
/// so many microseconds of it.
pub fn keep_polling(elapsed: u64, status: FtpStatus) -> (yes: bool)
    ensures
        yes == polls_on(elapsed, status),
{
    elapsed < BURST_MICROS && status == FtpStatus::Transfer
}

/// The pause at the end of an iteration of the main loop, in milliseconds.
pub fn loop_delay_millis(transferring: bool) -> (millis: u32)
    ensures
        millis == rest_millis(transferring),
{
    if transferring {
        1
    } else {
        10
    }
}

// ---------------------------------------------------------------------------
// Laws
// ---------------------------------------------------------------------------

/// The server is started, stopped and reconfigured only while the firmware owns
/// the card, and started only where there is a network.
pub proof fn serves_own_card_only(
    v: FtpView,
    user: Seq<char>,
    password: Seq<char>,
    action: i32,
    success: bool,
    env: FtpEnv,
)
    ensures
        ftp_acted(v, password, action, env).0 != FtpTask::Nothing ==> env.card
            == CardOwner::Firmware,
        ftp_acted(v, password, action, env).0 is Start ==> env.network,
        ftp_saved(v, user, password, success, env).0 != FtpTask::Nothing ==> env.card
            == CardOwner::Firmware && env.network,
{
}

/// A password that FTP clients cannot use never becomes the password.
pub proof fn password_stays_usable(v: FtpView, password: Seq<char>, action: i32, env: FtpEnv)
    requires
        is_credential(password),
    ensures
        is_credential(password_acted(v, password, action, env)),
{
}

/// The server starts where the firmware has the card and a network, and, the first time, enough
/// memory; whichever is missing is told.
pub proof fn server_starts_when_it_can(v: FtpView, password: Seq<char>, env: FtpEnv)
    ensures
        env.card == CardOwner::Firmware && env.network && (v.created || env.heap_free >= 32_768)
            ==> ftp_acted(v, password, 1, env).0 == (FtpTask::Start { create: !v.created })
            && ftp_acted(v, password, 1, env).1.created,
        env.card != CardOwner::Firmware || !env.network ==> ftp_acted(v, password, 1, env).0
            == FtpTask::Nothing && ftp_acted(v, password, 1, env).1.status
            == "SD OR WI-FI UNAVAILABLE"@,
        env.card == CardOwner::Firmware && env.network && !v.created && env.heap_free < 32_768
            ==> ftp_acted(v, password, 1, env).0 == FtpTask::Nothing && ftp_acted(
            v,
            password,
            1,
            env,
        ).1.status == "LOW MEMORY"@,
        ftp_acted(v, password, 5, env).0 == ftp_acted(v, password, 1, env).0,
        ftp_acted(v, password, 5, env).1.view_state == 8,
        ftp_acted(v, password, 1, env).1.view_state == v.view_state,
{
}

/// The server stops when it is told to, when a password is typed, and when its screens are left;
/// only a running one is stopped.
pub proof fn server_stops_when_told(v: FtpView, password: Seq<char>, env: FtpEnv, view_state: i32)
    ensures
        env.running && env.card == CardOwner::Firmware ==> {
            &&& ftp_acted(v, password, 2, env).0 == FtpTask::Stop
            &&& ftp_acted(v, password, 3, env).0 == FtpTask::Stop
            &&& view_state != 8 && view_state != 9 ==> leave_task(view_state, env) == FtpTask::Stop
        },
        leave_task(8, env) == FtpTask::Nothing,
        leave_task(9, env) == FtpTask::Nothing,
        !env.running ==> ftp_acted(v, password, 2, env).0 == FtpTask::Nothing && ftp_acted(
            v,
            password,
            3,
            env,
        ).0 == FtpTask::Nothing && leave_task(view_state, env) == FtpTask::Nothing,
        ftp_acted(v, password, 2, env).1.status == "STOPPED"@,
        ftp_acted(v, password, 3, env).1.status == "TYPE NEW PASSWORD"@,
        ftp_acted(v, password, 3, env).1.password == password,
{
}

/// A password that can be typed is kept and saved; one that cannot, or whose card is away, is
/// not, and the old one stays.
pub proof fn password_is_changed(v: FtpView, password: Seq<char>, env: FtpEnv, action: i32)
    ensures
        is_credential(v.password) && env.card == CardOwner::Firmware ==> ftp_acted(
            v,
            password,
            4,
            env,
        ).0 == FtpTask::Save && password_acted(v, password, 4, env) == v.password,
        !is_credential(v.password) ==> ftp_acted(v, password, 4, env).0 == FtpTask::Nothing
            && ftp_acted(v, password, 4, env).1.status == "1-32 ASCII, NO SPACES"@
            && password_acted(v, password, 4, env) == password,
        is_credential(v.password) && env.card != CardOwner::Firmware ==> ftp_acted(
            v,
            password,
            4,
            env,
        ).0 == FtpTask::Nothing && ftp_acted(v, password, 4, env).1.status == "SD BUSY"@
            && password_acted(v, password, 4, env) == password,
        action != 4 ==> password_acted(v, password, action, env) == password,
        action != 4 ==> ftp_acted(v, password, action, env).0 != FtpTask::Save,
{
}

/// What is shown after a password was saved and after the server was started.
pub proof fn saving_and_starting_are_told(
    v: FtpView,
    user: Seq<char>,
    password: Seq<char>,
    env: FtpEnv,
    success: bool,
)
    ensures
        ftp_saved(v, user, password, true, env).1.view_state == 8,
        ftp_saved(v, user, password, true, env).1.user == login_line(user, password),
        ftp_saved(v, user, password, true, env).0 == ftp_acted(v, password, 1, env).0,
        ftp_saved(v, user, password, false, env).0 == FtpTask::Nothing,
        ftp_saved(v, user, password, false, env).1.status == "SD SAVE FAILED"@,
        ftp_saved(v, user, password, false, env).1.view_state == v.view_state,
        ftp_started(v, user, password, true).status == "WAITING FOR WI-FI"@,
        ftp_started(v, user, password, true).user == login_line(user, password),
        ftp_started(v, user, password, false).status == "SD VOLUME ERROR"@,
        ftp_started(v, user, password, false).user == v.user,
{
}

/// The traffic is told twice a second, the state and the address always.
pub proof fn server_state_is_told(
    v: FtpView,
    status: FtpStatus,
    activity: Seq<char>,
    peer: Option<Seq<char>>,
    ip: Option<Ipv4>,
    stats: FtpStats,
    heap_free: u64,
    now: u64,
)
    requires
        v.stats_at < 0x4000_0000_0000_0000,
        now < 0x4000_0000_0000_0000,
    ensures
        ({
            let after = ftp_shown(v, status, activity, peer, ip, stats, heap_free, now);
            &&& after.status == ftp_state_line(status, activity, peer)
            &&& after.addr == address_line(ip)
            &&& now >= v.stats_at ==> after.stats_at == now + 500_000 && after.stats == ftp_traffic(
                stats,
                heap_free as nat,
            )
            &&& now < v.stats_at ==> after.stats_at == v.stats_at && after.stats == v.stats
            &&& after.user == v.user && after.password == v.password && after.view_state
                == v.view_state
        }),
{
}

/// A transfer is polled for fifteen milliseconds on end and rests for one; else the loop rests
/// for ten and polls once.
pub proof fn transfers_are_polled_in_bursts(elapsed: u64, status: FtpStatus)
    ensures
        polls_on(elapsed, FtpStatus::Transfer) <==> elapsed < 15 * 1_000,
        status != FtpStatus::Transfer ==> !polls_on(elapsed, status),
        rest_millis(true) == 1,
        rest_millis(false) == 10,
{
}

} // verus!
