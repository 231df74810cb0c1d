//! The Wi-Fi screens: scanning, connecting and the saved networks.
//!
//! The radio works in steps, one scan pass or one attempt to connect at a time, so
//! that the screens keep moving between them. A control is asked what the radio
//! or the card has to do and is told what came of it.

use crate::screen::lines::{
    LIST_SSID_CHARS, TOP_BAR_SSID_CHARS, VIEW_MENU, VIEW_WIFI_MENU, VIEW_WIFI_PASSWORD,
    display_ssid, shortened, truncate_ascii,
};
use crate::storage::{
    AuthKind, NetworkView, SavedNetwork, WifiConfig, networks_view, upsert_saves_the_network,
    upserted,
};
use crate::text;
use crate::usbdisk::CardOwner;
use crate::wifi::{
    CONNECT_ATTEMPTS, SCAN_PASSES, ScanNetwork, ScanView, find_network, is_best_of, knows,
    list_shows_the_strongest, merge_scan_results, merged_list_is_short_and_sorted,
    merging_keeps_the_strongest, name_position, name_position_found, scan_view, strongest_first,
    with_networks,
};
use vstd::prelude::*;
use vstd::string::*;

verus! {

/// Work of the radio that is due.
pub enum RadioStep<N> {
    Scan { pass: usize },
    Connect { network: N, attempt: usize },
}

impl RadioStep<SavedNetwork> {
    pub open spec fn view(self) -> RadioStep<NetworkView> {
        match self {
            RadioStep::Scan { pass } => RadioStep::Scan { pass },
            RadioStep::Connect { network, attempt } => RadioStep::Connect {
                network: network@,
                attempt,
            },
        }
    }
}

/// What the control waits for.
pub enum WifiStage<N, T> {
    Idle,
    Scanning { pass: usize },
    Connecting { network: N, attempt: usize },
    Configuring { network: N },
    /// A network was joined and is being saved.
    Keeping { ssid: T },
    /// A network was forgotten and the rest is being saved.
    Forgetting,
}

impl WifiStage<SavedNetwork, String> {
    pub open spec fn view(self) -> WifiStage<NetworkView, Seq<char>> {
        match self {
            WifiStage::Idle => WifiStage::Idle,
            WifiStage::Scanning { pass } => WifiStage::Scanning { pass },
            WifiStage::Connecting { network, attempt } => WifiStage::Connecting {
                network: network@,
                attempt,
            },
            WifiStage::Configuring { network } => WifiStage::Configuring { network: network@ },
            WifiStage::Keeping { ssid } => WifiStage::Keeping { ssid: ssid@ },
            WifiStage::Forgetting => WifiStage::Forgetting,
        }
    }
}

/// What the radio or the card has to do.
pub enum WifiQuery<N> {
    /// One scan pass.
    Scan,
    /// One attempt to connect.
    Connect,
    /// Take up the name and the password of a network.
    Configure(N),
    /// Write the configuration to the card.
    Save,
}

impl WifiQuery<SavedNetwork> {
    pub open spec fn view(self) -> WifiQuery<NetworkView> {
        match self {
            WifiQuery::Scan => WifiQuery::Scan,
            WifiQuery::Connect => WifiQuery::Connect,
            WifiQuery::Configure(network) => WifiQuery::Configure(network@),
            WifiQuery::Save => WifiQuery::Save,
        }
    }
}

/// What came of a query. A reply of the wrong kind counts as a failure.
pub enum WifiReply {
    /// There is no radio, or no card.
    Absent,
    Failed,
    Done,
    Scanned(Vec<ScanNetwork>),
}

/// The control of the Wi-Fi screens, and what they show.
pub struct WifiControl {
    pub pending: Option<RadioStep<SavedNetwork>>,
    pub stage: WifiStage<SavedNetwork, String>,
    pub networks: Vec<ScanNetwork>,
    pub status: String,
    /// The progress of the radio covers the screen.
    pub connecting: bool,
    pub selected_ssid: String,
    pub password: String,
    pub saved_index: i32,
    pub scan_index: i32,
    /// The name in the top bar.
    pub link_ssid: String,
    pub view_state: i32,
    /// The list of saved networks is to be shown anew.
    pub saved_changed: bool,
    /// The list of scan results is to be shown anew.
    pub scan_changed: bool,
}

/// What a [`WifiControl`] holds.
#[verifier::ext_equal]
pub struct WifiView {
    pub pending: Option<RadioStep<NetworkView>>,
    pub stage: WifiStage<NetworkView, Seq<char>>,
    pub networks: Seq<ScanView>,
    pub status: Seq<char>,
    pub connecting: bool,
    pub selected_ssid: Seq<char>,
    pub password: Seq<char>,
    pub saved_index: i32,
    pub scan_index: i32,
    pub link_ssid: Seq<char>,
    pub view_state: i32,
    pub saved_changed: bool,
    pub scan_changed: bool,
}

impl View for WifiControl {
    type V = WifiView;

    open spec fn view(&self) -> WifiView {
        WifiView {
            pending: match self.pending {
                Some(step) => Some(step.view()),
                None => None,
            },
            stage: self.stage.view(),
            networks: scan_view(self.networks@),
            status: self.status@,
            connecting: self.connecting,
            selected_ssid: self.selected_ssid@,
            password: self.password@,
            saved_index: self.saved_index,
            scan_index: self.scan_index,
            link_ssid: self.link_ssid@,
            view_state: self.view_state,
            saved_changed: self.saved_changed,
            scan_changed: self.scan_changed,
        }
    }
}

// ---------------------------------------------------------------------------
// Progress
// ---------------------------------------------------------------------------

/// The spinner in a frame.
pub open spec fn spinner(frame: u32) -> Seq<char> {
    if frame % 4 == 0 {
        "|"@
    } else if frame % 4 == 1 {
        "/"@
    } else if frame % 4 == 2 {
        "-"@
    } else {
        "+"@
    }
}

/// How far the radio is.
pub open spec fn busy_text(step: RadioStep<NetworkView>, frame: u32) -> Seq<char> {
    match step {
        RadioStep::Scan { pass } => "SCANNING "@ + text::decimal(pass as nat) + "/"@
            + text::decimal(SCAN_PASSES as nat) + " "@ + spinner(frame),
        RadioStep::Connect { network, attempt } => "CONNECTING "@ + text::decimal(attempt as nat)
            + "/"@ + text::decimal(CONNECT_ATTEMPTS as nat) + " "@ + spinner(frame),
    }
}

fn progress(what: &str, done: usize, all: usize, frame: u32) -> (out: String)
    ensures
        out@ == what@ + text::decimal(done as nat) + "/"@ + text::decimal(all as nat) + " "@
            + spinner(frame),
{
    let mut out = what.to_owned();
    let count = text::decimal_text(done as u64);
    out.append(count.as_str());
    out.append("/");
    let total = text::decimal_text(all as u64);
    out.append(total.as_str());
    out.append(" ");
    out.append(
        if frame % 4 == 0 {
            "|"
        } else if frame % 4 == 1 {
            "/"
        } else if frame % 4 == 2 {
            "-"
        } else {
            "+"
        },
    );
    out
}

/// How far the radio is, with a spinner.
pub fn busy_status(step: &RadioStep<SavedNetwork>, frame: u32) -> (out: String)
    ensures
        out@ == busy_text(step.view(), frame),
{
    match step {
        RadioStep::Scan { pass } => progress("SCANNING ", *pass, SCAN_PASSES, frame),
        RadioStep::Connect { attempt, .. } => progress(
            "CONNECTING ",
            *attempt,
            CONNECT_ATTEMPTS,
            frame,
        ),
    }
}

// ---------------------------------------------------------------------------
// What the control does
// ---------------------------------------------------------------------------

impl WifiView {
    pub open spec fn saying(self, status: Seq<char>) -> WifiView {
        WifiView { status, ..self }
    }

    /// Back at rest with a message and without the progress of the radio.
    pub open spec fn ended(self, status: Seq<char>) -> WifiView {
        WifiView { status, connecting: false, stage: WifiStage::Idle, ..self }
    }

    /// A step is due, and its progress is shown.
    pub open spec fn due(self, step: RadioStep<NetworkView>) -> WifiView {
        WifiView { pending: Some(step), stage: WifiStage::Idle, ..self }
    }

    pub open spec fn busy(self) -> bool {
        self.pending is Some
    }
}

/// What the control asks for.
pub open spec fn wifi_query(v: WifiView) -> Option<WifiQuery<NetworkView>> {
    match v.stage {
        WifiStage::Idle => None,
        WifiStage::Scanning { pass } => Some(WifiQuery::Scan),
        WifiStage::Connecting { network, attempt } => Some(WifiQuery::Connect),
        WifiStage::Configuring { network } => Some(WifiQuery::Configure(network)),
        WifiStage::Keeping { ssid } => Some(WifiQuery::Save),
        WifiStage::Forgetting => Some(WifiQuery::Save),
    }
}

/// Takes up the step that is due, once all else is done.
pub open spec fn stepped(v: WifiView, frame: u32) -> WifiView {
    match v.pending {
        None => v,
        Some(step) => if !(v.stage is Idle) {
            v
        } else {
            WifiView {
                pending: None,
                status: busy_text(step, frame),
                stage: match step {
                    RadioStep::Scan { pass } => WifiStage::Scanning { pass },
                    RadioStep::Connect { network, attempt } => WifiStage::Connecting {
                        network,
                        attempt,
                    },
                },
                ..v
            }
        },
    }
}

/// A joined network has been saved, or could not be.
pub open spec fn kept_network(v: WifiView, ssid: Seq<char>, saved: bool) -> WifiView {
    let told = v.ended(
        if saved {
            "CONNECTED: "@ + shortened(ssid, LIST_SSID_CHARS as int)
        } else {
            "CONNECTED - SD SAVE FAILED"@
        },
    );
    if v.view_state == VIEW_WIFI_PASSWORD {
        WifiView { password: Seq::empty(), view_state: VIEW_WIFI_MENU, ..told }
    } else {
        told
    }
}

/// The network list after a scan pass; anything else leaves it alone.
pub open spec fn merged(before: WifiView, reply: WifiReply, after: Seq<ScanView>) -> bool {
    if before.stage is Scanning && reply is Scanned {
        is_best_of(after, with_networks(before.networks, scan_view(reply->Scanned_0@)))
    } else {
        after == before.networks
    }
}

/// The control after the reply to a scan pass. `v` has the new list of networks.
pub open spec fn scan_next(v: WifiView, pass: usize, reply: WifiReply) -> WifiView {
    match reply {
        WifiReply::Scanned(results) => {
            let shown = WifiView { scan_changed: true, ..v };
            if pass < SCAN_PASSES {
                shown.due(RadioStep::Scan { pass: (pass + 1) as usize })
            } else {
                shown.ended(
                    if v.networks.len() == 0 {
                        "NO NETWORKS FOUND"@
                    } else {
                        "* = PASSWORD  ! = UNSUPPORTED"@
                    },
                )
            }
        },
        WifiReply::Absent => WifiView { stage: WifiStage::Idle, ..v }.saying(
            "WI-FI NOT AVAILABLE"@,
        ),
        _ => v.ended(
            if v.networks.len() == 0 {
                "SCAN FAILED"@
            } else {
                "SCAN PARTIAL - SHOWING WHAT WE HAVE"@
            },
        ),
    }
}

/// The control after the reply to an attempt to connect. The network is saved if
/// the firmware owns the card.
pub open spec fn connect_next(
    v: WifiView,
    network: NetworkView,
    attempt: usize,
    reply: WifiReply,
    card: CardOwner,
) -> WifiView {
    match reply {
        WifiReply::Done => {
            let joined = WifiView {
                link_ssid: shortened(network.ssid, TOP_BAR_SSID_CHARS as int),
                saved_changed: true,
                ..v
            };
            if card == CardOwner::Firmware {
                WifiView { stage: WifiStage::Keeping { ssid: network.ssid }, ..joined }
            } else {
                kept_network(joined, network.ssid, false)
            }
        },
        WifiReply::Absent => v.ended("WI-FI NOT AVAILABLE"@),
        _ => if attempt < CONNECT_ATTEMPTS {
            v.due(RadioStep::Connect { network, attempt: (attempt + 1) as usize })
        } else {
            v.ended("CONNECTION FAILED"@)
        },
    }
}

/// The control after the radio has taken up a network, or has refused it.
pub open spec fn configure_next(
    v: WifiView,
    network: NetworkView,
    reply: WifiReply,
    frame: u32,
) -> WifiView {
    match reply {
        WifiReply::Done => {
            let step = RadioStep::Connect { network, attempt: 1usize };
            WifiView {
                selected_ssid: network.ssid,
                status: busy_text(step, frame),
                connecting: true,
                ..v.due(step)
            }
        },
        WifiReply::Absent => WifiView { stage: WifiStage::Idle, ..v }.saying(
            "WI-FI NOT AVAILABLE"@,
        ),
        _ => WifiView { stage: WifiStage::Idle, ..v }.saying("CONNECTION FAILED"@),
    }
}

/// The control after a reply. `networks` is the list of scan results after it, and
/// `card` says who owns the card.
pub open spec fn wifi_next(
    v: WifiView,
    reply: WifiReply,
    networks: Seq<ScanView>,
    card: CardOwner,
    frame: u32,
) -> WifiView {
    match v.stage {
        WifiStage::Idle => v,
        WifiStage::Scanning { pass } => scan_next(WifiView { networks, ..v }, pass, reply),
        WifiStage::Connecting { network, attempt } => connect_next(
            v,
            network,
            attempt,
            reply,
            card,
        ),
        WifiStage::Configuring { network } => configure_next(v, network, reply, frame),
        WifiStage::Keeping { ssid } => kept_network(v, ssid, reply is Done),
        WifiStage::Forgetting => WifiView { stage: WifiStage::Idle, ..v }.saying(
            if reply is Done {
                "NETWORK FORGOTTEN"@
            } else {
                "SD SAVE FAILED"@
            },
        ),
    }
}

/// The saved networks after a reply: a network that was joined is among them.
pub open spec fn saved_next(v: WifiView, reply: WifiReply, saved: Seq<NetworkView>) -> Seq<
    NetworkView,
> {
    match v.stage {
        WifiStage::Connecting { network, attempt } => if reply is Done {
            upserted(saved, network)
        } else {
            saved
        },
        _ => saved,
    }
}

/// Starts to connect to a network.
pub open spec fn configuring(v: WifiView, network: NetworkView) -> WifiView {
    WifiView { stage: WifiStage::Configuring { network }, ..v }
}

/// A network of the scan was chosen: one without a password is joined, for
/// another the password is asked first.
pub open spec fn chosen(v: WifiView, network: ScanView) -> WifiView {
    if !network.supported {
        v.saying("SECURITY NOT SUPPORTED"@)
    } else if network.auth == AuthKind::Open {
        configuring(
            v,
            NetworkView { ssid: network.ssid, password: Seq::empty(), auth: network.auth },
        )
    } else {
        WifiView {
            selected_ssid: network.ssid,
            password: Seq::empty(),
            view_state: VIEW_WIFI_PASSWORD,
            ..v
        }.saying("TYPE PASSWORD"@)
    }
}

/// The control after a command of the screens: 1 scans, 2 connects to a saved
/// network, 3 to a network of the scan, 4 does so with the password that was
/// typed, and 5 forgets a saved network. The first four wait until the radio is
/// done.
pub open spec fn wifi_acted(
    before: WifiView,
    saved: Seq<NetworkView>,
    action: i32,
    index: i32,
    available: bool,
    card: CardOwner,
    frame: u32,
) -> WifiView {
    let v = WifiView { connecting: false, ..before };
    if !(before.stage is Idle) || action == 0 {
        before
    } else if action == 5 {
        if 0 <= index < saved.len() {
            let shown = WifiView { saved_index: 0, saved_changed: true, ..v };
            if card == CardOwner::Firmware {
                WifiView { stage: WifiStage::Forgetting, ..shown }
            } else {
                shown.saying("SD SAVE FAILED"@)
            }
        } else {
            v
        }
    } else if v.pending is Some {
        v
    } else if action == 1 {
        if !available {
            v.saying("WI-FI NOT AVAILABLE"@)
        } else {
            let step = RadioStep::Scan { pass: 1usize };
            WifiView {
                networks: Seq::empty(),
                scan_changed: true,
                scan_index: 0,
                status: busy_text(step, frame),
                connecting: true,
                ..v.due(step)
            }
        }
    } else if action == 2 {
        if 0 <= index < saved.len() {
            configuring(v, saved[index as int])
        } else {
            v
        }
    } else if action == 3 {
        if 0 <= index < v.networks.len() {
            chosen(v, v.networks[index as int])
        } else {
            v
        }
    } else if action == 4 {
        let at = name_position(v.networks, v.selected_ssid);
        if at < v.networks.len() {
            configuring(
                v,
                NetworkView {
                    ssid: v.networks[at].ssid,
                    password: v.password,
                    auth: v.networks[at].auth,
                },
            )
        } else {
            v
        }
    } else {
        v
    }
}

/// The saved networks after a command of the screens.
pub open spec fn saved_acted(
    before: WifiView,
    saved: Seq<NetworkView>,
    action: i32,
    index: i32,
) -> Seq<NetworkView> {
    if before.stage is Idle && action == 5 && 0 <= index < saved.len() {
        saved.remove(index as int)
    } else {
        saved
    }
}

/// Whether two configurations differ in their networks only.
pub open spec fn same_settings(a: WifiConfig, b: WifiConfig) -> bool {
    a.version == b.version && a.clock == b.clock && a.ftp == b.ftp
}

/// What the control says before anything was asked of it.
pub open spec fn first_status(available: bool, storage_available: bool) -> Seq<char> {
    if !available {
        "WI-FI INIT ERROR"@
    } else if storage_available {
        "READY"@
    } else {
        "SD ERROR"@
    }
}

/// The control with the spinner of a frame.
pub open spec fn spun(v: WifiView, frame: u32) -> WifiView {
    match v.pending {
        Some(step) => v.saying(busy_text(step, frame)),
        None => v,
    }
}

/// The control after the link went down.
pub open spec fn without_link(v: WifiView) -> WifiView {
    v.saying("CONNECTION LOST"@)
}

/// The control after the configuration was read again.
pub open spec fn after_reload(v: WifiView, success: bool) -> WifiView {
    WifiView { saved_changed: true, saved_index: 0, view_state: VIEW_MENU, ..v }.saying(
        if success {
            "SD RELOADED"@
        } else {
            "SD ERROR AFTER USB"@
        },
    )
}

impl WifiControl {
    /// The screens as the firmware starts.
    pub fn new(available: bool, storage_available: bool) -> (control: Self)
        ensures
            control@.pending is None,
            control@.stage is Idle,
            control@.networks.len() == 0,
            control@.status == first_status(available, storage_available),
            !control.connecting,
            control@.selected_ssid.len() == 0,
            control@.password.len() == 0,
            control.saved_index == 0,
            control.scan_index == 0,
            control@.link_ssid.len() == 0,
            control.view_state == VIEW_MENU,
            control.saved_changed,
            control.scan_changed,
    {
        WifiControl {
            pending: None,
            stage: WifiStage::Idle,
            networks: Vec::new(),
            status: (if !available {
                "WI-FI INIT ERROR"
            } else if storage_available {
                "READY"
            } else {
                "SD ERROR"
            }).to_owned(),
            connecting: false,
            selected_ssid: String::new(),
            password: String::new(),
            saved_index: 0,
            scan_index: 0,
            link_ssid: String::new(),
            view_state: VIEW_MENU,
            saved_changed: true,
            scan_changed: true,
        }
    }

    /// Whether the radio has work to do; keys are dropped meanwhile.
    pub fn busy(&self) -> (busy: bool)
        ensures
            busy == self@.busy(),
    {
        self.pending.is_some()
    }

    fn say(&mut self, status: &str)
        ensures
            final(self)@ == old(self)@.saying(status@),
    {
        self.status = status.to_owned();
    }

    fn end(&mut self, status: &str)
        ensures
            final(self)@ == old(self)@.ended(status@),
    {
        self.status = status.to_owned();
        self.connecting = false;
        self.stage = WifiStage::Idle;
    }

    /// Shows the spinner in the next frame.
    pub fn spin(&mut self, frame: u32)
        ensures
            final(self)@ == spun(old(self)@, frame),
    {
        let line = match &self.pending {
            Some(step) => busy_status(step, frame),
            None => {
                return ;
            },
        };
        self.status = line;
    }

    /// Takes up the step that is due, one per iteration of the main loop.
    pub fn step(&mut self, frame: u32)
        ensures
            final(self)@ == stepped(old(self)@, frame),
    {
        match &self.stage {
            WifiStage::Idle => {},
            _ => {
                return ;
            },
        }
        let step = match self.pending.take() {
            Some(step) => step,
            None => {
                return ;
            },
        };
        self.status = busy_status(&step, frame);
        self.stage =
        match step {
            RadioStep::Scan { pass } => WifiStage::Scanning { pass },
            RadioStep::Connect { network, attempt } => WifiStage::Connecting { network, attempt },
        };
    }

    /// What the radio or the card has to do; `None` when nothing.
    pub fn query(&self) -> (query: Option<WifiQuery<SavedNetwork>>)
        ensures
            match wifi_query(self@) {
                Some(wanted) => query matches Some(asked) && asked.view() == wanted,
                None => query is None,
            },
    {
        match &self.stage {
            WifiStage::Idle => None,
            WifiStage::Scanning { .. } => Some(WifiQuery::Scan),
            WifiStage::Connecting { .. } => Some(WifiQuery::Connect),
            WifiStage::Configuring { network } => Some(WifiQuery::Configure(network.clone())),
            WifiStage::Keeping { .. } => Some(WifiQuery::Save),
            WifiStage::Forgetting => Some(WifiQuery::Save),
        }
    }

    fn scanned(&mut self, pass: usize, reply: WifiReply)
        requires
            old(self)@.stage == (WifiStage::<NetworkView, Seq<char>>::Scanning { pass }),
        ensures
            merged(old(self)@, reply, final(self)@.networks),
            final(self)@ == scan_next(
                WifiView { networks: final(self)@.networks, ..old(self)@ },
                pass,
                reply,
            ),
    {
        match reply {
            WifiReply::Scanned(results) => {
                merge_scan_results(&mut self.networks, results);
                self.scan_changed = true;
                if pass < SCAN_PASSES {
                    self.pending = Some(RadioStep::Scan { pass: pass + 1 });
                    self.stage = WifiStage::Idle;
                } else if self.networks.len() == 0 {
                    self.end("NO NETWORKS FOUND");
                } else {
                    self.end("* = PASSWORD  ! = UNSUPPORTED");
                }
            },
            WifiReply::Absent => {
                self.stage = WifiStage::Idle;
                self.say("WI-FI NOT AVAILABLE");
            },
            WifiReply::Failed | WifiReply::Done => {
                if self.networks.len() == 0 {
                    self.end("SCAN FAILED");
                } else {
                    self.end("SCAN PARTIAL - SHOWING WHAT WE HAVE");
                }
            },
        }
    }

    fn keep(&mut self, ssid: &str, saved: bool)
        ensures
            final(self)@ == kept_network(old(self)@, ssid@, saved),
    {
        if saved {
            let mut line = "CONNECTED: ".to_owned();
            let name = display_ssid(ssid);
            line.append(name.as_str());
            self.end(line.as_str());
        } else {
            self.end("CONNECTED - SD SAVE FAILED");
        }
        if self.view_state == VIEW_WIFI_PASSWORD {
            self.password = String::new();
            assert(self.password@ =~= Seq::<char>::empty());
            self.view_state = VIEW_WIFI_MENU;
        }
    }

    fn connected(
        &mut self,
        network: SavedNetwork,
        attempt: usize,
        reply: WifiReply,
        config: &mut WifiConfig,
        card: CardOwner,
    )
        requires
            old(self)@.stage == (WifiStage::<NetworkView, Seq<char>>::Connecting {
                network: network@,
                attempt,
            }),
        ensures
            final(self)@ == connect_next(old(self)@, network@, attempt, reply, card),
            networks_view(final(config).networks@) == saved_next(
                old(self)@,
                reply,
                networks_view(old(config).networks@),
            ),
            same_settings(*final(config), *old(config)),
    {
        match reply {
            WifiReply::Done => {
                let ssid = network.ssid.clone();
                self.link_ssid = truncate_ascii(ssid.as_str(), TOP_BAR_SSID_CHARS);
                config.upsert(network);
                self.saved_changed = true;
                if card == CardOwner::Firmware {
                    self.stage = WifiStage::Keeping { ssid };
                } else {
                    self.keep(ssid.as_str(), false);
                }
            },
            WifiReply::Absent => {
                self.end("WI-FI NOT AVAILABLE");
            },
            WifiReply::Failed | WifiReply::Scanned(_) => {
                if attempt < CONNECT_ATTEMPTS {
                    self.pending = Some(RadioStep::Connect { network, attempt: attempt + 1 });
                    self.stage = WifiStage::Idle;
                } else {
                    self.end("CONNECTION FAILED");
                }
            },
        }
    }

    fn configured(&mut self, network: SavedNetwork, reply: WifiReply, frame: u32)
        requires
            old(self)@.stage == (WifiStage::<NetworkView, Seq<char>>::Configuring {
                network: network@,
            }),
        ensures
            final(self)@ == configure_next(old(self)@, network@, reply, frame),
    {
        self.stage = WifiStage::Idle;
        match reply {
            WifiReply::Done => {
                self.selected_ssid = network.ssid.clone();
                let step = RadioStep::Connect { network, attempt: 1 };
                self.status = busy_status(&step, frame);
                self.connecting = true;
                self.pending = Some(step);
            },
            WifiReply::Absent => {
                self.say("WI-FI NOT AVAILABLE");
            },
            WifiReply::Failed | WifiReply::Scanned(_) => {
                self.say("CONNECTION FAILED");
            },
        }
    }

    /// Takes the reply to a query. A network that was joined is saved, unless the
    /// firmware does not own the card.
    pub fn resume(
        &mut self,
        reply: WifiReply,
        config: &mut WifiConfig,
        card: CardOwner,
        frame: u32,
    )
        ensures
            merged(old(self)@, reply, final(self)@.networks),
            final(self)@ == wifi_next(old(self)@, reply, final(self)@.networks, card, frame),
            networks_view(final(config).networks@) == saved_next(
                old(self)@,
                reply,
                networks_view(old(config).networks@),
            ),
            same_settings(*final(config), *old(config)),
    {
        let mut stage: WifiStage<SavedNetwork, String> = WifiStage::Idle;
        core::mem::swap(&mut stage, &mut self.stage);
        match stage {
            WifiStage::Idle => {
                assert(self@ == old(self)@);
            },
            WifiStage::Scanning { pass } => {
                self.stage = WifiStage::Scanning { pass };
                assert(self@ == old(self)@);
                self.scanned(pass, reply);
            },
            WifiStage::Connecting { network, attempt } => {
                let copy = network.clone();
                self.stage = WifiStage::Connecting { network: copy, attempt };
                assert(self@ == old(self)@);
                self.connected(network, attempt, reply, config, card);
            },
            WifiStage::Configuring { network } => {
                let copy = network.clone();
                self.stage = WifiStage::Configuring { network: copy };
                assert(self@ == old(self)@);
                self.configured(network, reply, frame);
            },
            WifiStage::Keeping { ssid } => {
                let saved = match &reply {
                    WifiReply::Done => true,
                    _ => false,
                };
                self.keep(ssid.as_str(), saved);
            },
            WifiStage::Forgetting => {
                match &reply {
                    WifiReply::Done => {
                        self.say("NETWORK FORGOTTEN");
                    },
                    _ => {
                        self.say("SD SAVE FAILED");
                    },
                }
            },
        }
    }

    fn choose_scanned(&mut self, index: usize)
        requires
            index < old(self)@.networks.len(),
        ensures
            final(self)@ == chosen(old(self)@, old(self)@.networks[index as int]),
    {
        let network = self.networks[index].clone();
        if !network.supported {
            self.say("SECURITY NOT SUPPORTED");
        } else if network.auth == AuthKind::Open {
            let password = String::new();
            assert(password@ =~= Seq::<char>::empty());
            self.stage =
            WifiStage::Configuring {
                network: SavedNetwork { ssid: network.ssid, password, auth: network.auth },
            };
        } else {
            self.selected_ssid = network.ssid;
            self.password = String::new();
            assert(self.password@ =~= Seq::<char>::empty());
            self.view_state = VIEW_WIFI_PASSWORD;
            self.say("TYPE PASSWORD");
        }
    }

    /// Takes a command of the screens.
    pub fn act(
        &mut self,
        config: &mut WifiConfig,
        action: i32,
        index: i32,
        available: bool,
        card: CardOwner,
        frame: u32,
    )
        ensures
            final(self)@ == wifi_acted(
                old(self)@,
                networks_view(old(config).networks@),
                action,
                index,
                available,
                card,
                frame,
            ),
            networks_view(final(config).networks@) == saved_acted(
                old(self)@,
                networks_view(old(config).networks@),
                action,
                index,
            ),
            same_settings(*final(config), *old(config)),
    {
        let idle = match &self.stage {
            WifiStage::Idle => true,
            _ => false,
        };
        if !idle || action == 0 {
            return ;
        }
        self.connecting = false;
        if action == 5 {
            if index >= 0 && config.remove(index as usize) {
                assert(networks_view(config.networks@) =~= networks_view(
                    old(config).networks@,
                ).remove(index as int));
                self.saved_index = 0;
                self.saved_changed = true;
                if card == CardOwner::Firmware {
                    self.stage = WifiStage::Forgetting;
                } else {
                    self.say("SD SAVE FAILED");
                }
            }
        } else if self.pending.is_some() {
        } else if action == 1 {
            if !available {
                self.say("WI-FI NOT AVAILABLE");
            } else {
                self.networks = Vec::new();
                assert(scan_view(self.networks@) =~= Seq::<ScanView>::empty());
                self.scan_changed = true;
                self.scan_index = 0;
                let step = RadioStep::Scan { pass: 1 };
                self.status = busy_status(&step, frame);
                self.connecting = true;
                self.pending = Some(step);
            }
        } else if action == 2 {
            if index >= 0 && (index as usize) < config.networks.len() {
                let network = config.networks[index as usize].clone();
                self.stage = WifiStage::Configuring { network };
            }
        } else if action == 3 {
            if index >= 0 && (index as usize) < self.networks.len() {
                self.choose_scanned(index as usize);
            }
        } else if action == 4 {
            let at = find_network(self.networks.as_slice(), self.selected_ssid.as_str());
            if at < self.networks.len() {
                let network = self.networks[at].clone();
                let password = self.password.clone();
                self.stage =
                WifiStage::Configuring {
                    network: SavedNetwork { ssid: network.ssid, password, auth: network.auth },
                };
            }
        }
    }

    /// The link went down while the radio had nothing to do.
    pub fn link_lost(&mut self)
        ensures
            final(self)@ == without_link(old(self)@),
    {
        self.say("CONNECTION LOST");
    }

    /// The configuration was read again after the card came back.
    pub fn reloaded(&mut self, success: bool)
        ensures
            final(self)@ == after_reload(old(self)@, success),
    {
        self.saved_changed = true;
        self.saved_index = 0;
        self.view_state = VIEW_MENU;
        if success {
            self.say("SD RELOADED");
        } else {
            self.say("SD ERROR AFTER USB");
        }
    }
}

// ---------------------------------------------------------------------------
// Laws
// ---------------------------------------------------------------------------

/// How much the radio has still to do.
pub open spec fn work_left(v: WifiView) -> int {
    let due: int = match v.pending {
        None => 0,
        Some(RadioStep::Scan { pass }) => 2 * (SCAN_PASSES - pass) + 3,
        Some(RadioStep::Connect { network, attempt }) => 2 * (CONNECT_ATTEMPTS - attempt) + 3,
    };
    let open: int = match v.stage {
        WifiStage::Idle => 0,
        WifiStage::Scanning { pass } => 2 * (SCAN_PASSES - pass) + 2,
        WifiStage::Connecting { network, attempt } => 2 * (CONNECT_ATTEMPTS - attempt) + 2,
        WifiStage::Configuring { network } => 2 * CONNECT_ATTEMPTS + 2,
        WifiStage::Keeping { ssid } => 1,
        WifiStage::Forgetting => 1,
    };
    due + open
}

/// Passes and attempts stay within their numbers, and only forgetting a network
/// goes on beside work that is due.
pub open spec fn is_orderly(v: WifiView) -> bool {
    &&& match v.pending {
        None => true,
        Some(RadioStep::Scan { pass }) => 1 <= pass <= SCAN_PASSES,
        Some(RadioStep::Connect { network, attempt }) => 1 <= attempt <= CONNECT_ATTEMPTS,
    }
    &&& match v.stage {
        WifiStage::Scanning { pass } => 1 <= pass <= SCAN_PASSES,
        WifiStage::Connecting { network, attempt } => 1 <= attempt <= CONNECT_ATTEMPTS,
        _ => true,
    }
    &&& v.pending is Some ==> v.stage is Idle || v.stage is Forgetting
}

/// A scan ends after its passes and a connection after its attempts: every step
/// and every reply leaves less to do.
pub proof fn radio_work_ends(
    v: WifiView,
    reply: WifiReply,
    networks: Seq<ScanView>,
    card: CardOwner,
    frame: u32,
)
    requires
        is_orderly(v),
    ensures
        is_orderly(stepped(v, frame)),
        is_orderly(wifi_next(v, reply, networks, card, frame)),
        work_left(v) >= 0,
        v.pending is Some && v.stage is Idle ==> work_left(stepped(v, frame)) < work_left(v),
        wifi_query(v) is Some ==> work_left(wifi_next(v, reply, networks, card, frame))
            < work_left(v),
{
}

/// Commands keep passes and attempts within their numbers.
pub proof fn commands_keep_order(
    v: WifiView,
    saved: Seq<NetworkView>,
    action: i32,
    index: i32,
    available: bool,
    card: CardOwner,
    frame: u32,
)
    requires
        is_orderly(v),
    ensures
        is_orderly(wifi_acted(v, saved, action, index, available, card, frame)),
{
}

/// The control is about to connect to a network.
pub open spec fn wants(v: WifiView, network: NetworkView) -> bool {
    ||| v.pending matches Some(RadioStep::Connect { network: due, attempt }) && due == network
    ||| v.stage matches WifiStage::Connecting { network: tried, attempt } && tried == network
    ||| v.stage matches WifiStage::Configuring { network: chosen } && chosen == network
}

/// The firmware never connects by itself: only a command to connect makes it want
/// a network.
pub proof fn connects_on_command_only(
    v: WifiView,
    network: NetworkView,
    reply: WifiReply,
    networks: Seq<ScanView>,
    saved: Seq<NetworkView>,
    action: i32,
    index: i32,
    available: bool,
    card: CardOwner,
    frame: u32,
)
    requires
        !wants(v, network),
    ensures
        !wants(stepped(v, frame), network),
        !wants(wifi_next(v, reply, networks, card, frame), network),
        wants(wifi_acted(v, saved, action, index, available, card, frame), network) ==> 2 <= action
            <= 4,
{
}

/// The configuration is written only while the firmware owns the card: nothing is
/// asked of a card that the host owns.
pub proof fn saves_on_own_card_only(
    v: WifiView,
    reply: WifiReply,
    networks: Seq<ScanView>,
    saved: Seq<NetworkView>,
    action: i32,
    index: i32,
    available: bool,
    card: CardOwner,
    frame: u32,
)
    requires
        wifi_query(v) != Some(WifiQuery::<NetworkView>::Save),
        card != CardOwner::Firmware,
    ensures
        wifi_query(stepped(v, frame)) != Some(WifiQuery::<NetworkView>::Save),
        wifi_query(wifi_next(v, reply, networks, card, frame)) != Some(
            WifiQuery::<NetworkView>::Save,
        ),
        wifi_query(wifi_acted(v, saved, action, index, available, card, frame)) != Some(
            WifiQuery::<NetworkView>::Save,
        ),
{
}

/// A network that was joined is among the saved ones afterwards, and it is the
/// one that the top bar names.
pub proof fn joined_network_is_kept(
    v: WifiView,
    network: NetworkView,
    attempt: usize,
    networks: Seq<ScanView>,
    saved: Seq<NetworkView>,
    card: CardOwner,
    frame: u32,
)
    requires
        v.stage == (WifiStage::<NetworkView, Seq<char>>::Connecting { network, attempt }),
    ensures
        saved_next(v, WifiReply::Done, saved).contains(network),
        wifi_next(v, WifiReply::Done, networks, card, frame).link_ssid == shortened(
            network.ssid,
            TOP_BAR_SSID_CHARS as int,
        ),
{
    upsert_saves_the_network(saved, network);
}

/// The saved network at the chosen place of the list is the one that is connected to: its
/// name, password and security are handed to the radio, and no other network is wanted. A place
/// past the list wants none.
pub proof fn saved_network_is_tried(
    v: WifiView,
    network: NetworkView,
    saved: Seq<NetworkView>,
    index: i32,
    available: bool,
    card: CardOwner,
    frame: u32,
)
    requires
        v.stage is Idle,
        v.pending is None,
    ensures
        ({
            let after = wifi_acted(v, saved, 2, index, available, card, frame);
            &&& 0 <= index < saved.len() ==> wifi_query(after) == Some(
                WifiQuery::Configure(saved[index as int]),
            ) && (wants(after, network) <==> network == saved[index as int])
            &&& !(0 <= index < saved.len()) ==> wifi_query(after) is None && !wants(after, network)
            &&& after.networks == v.networks && after.view_state == v.view_state
            &&& saved_acted(v, saved, 2, index) == saved
        }),
{
}

/// A network that a scan found is connected to by its name: without a password where it is open,
/// after its password was typed where it is not, and never where its security is not supported.
pub proof fn found_network_is_tried(
    v: WifiView,
    network: NetworkView,
    saved: Seq<NetworkView>,
    index: i32,
    available: bool,
    card: CardOwner,
    frame: u32,
)
    requires
        v.stage is Idle,
        v.pending is None,
    ensures
        ({
            let after = wifi_acted(v, saved, 3, index, available, card, frame);
            let found = v.networks[index as int];
            let here = 0 <= index < v.networks.len();
            let open = NetworkView {
                ssid: found.ssid,
                password: Seq::empty(),
                auth: AuthKind::Open,
            };
            &&& here && found.supported && found.auth == AuthKind::Open ==> wifi_query(after)
                == Some(WifiQuery::Configure(open)) && (wants(after, network) <==> network == open)
            &&& here && found.supported && found.auth != AuthKind::Open ==> {
                &&& wifi_query(after) is None
                &&& !wants(after, network)
                &&& after.selected_ssid == found.ssid
                &&& after.password.len() == 0
                &&& after.view_state == 5
                &&& after.status == "TYPE PASSWORD"@
            }
            &&& here && !found.supported ==> {
                &&& wifi_query(after) is None
                &&& !wants(after, network)
                &&& after.view_state == v.view_state
                &&& after.status == "SECURITY NOT SUPPORTED"@
            }
            &&& !here ==> wifi_query(after) is None && !wants(after, network)
        }),
{
}

/// The typed password goes to the network that it was typed for, the first of that name among
/// those found, with the security that it was found with.
pub proof fn typed_password_is_tried(
    v: WifiView,
    network: NetworkView,
    at: int,
    saved: Seq<NetworkView>,
    index: i32,
    available: bool,
    card: CardOwner,
    frame: u32,
)
    requires
        v.stage is Idle,
        v.pending is None,
        0 <= at <= v.networks.len(),
        at < v.networks.len() ==> v.networks[at].ssid == v.selected_ssid,
        forall|i: int| 0 <= i < at ==> (#[trigger] v.networks[i]).ssid != v.selected_ssid,
    ensures
        ({
            let after = wifi_acted(v, saved, 4, index, available, card, frame);
            let meant = NetworkView {
                ssid: v.selected_ssid,
                password: v.password,
                auth: v.networks[at].auth,
            };
            &&& at < v.networks.len() ==> wifi_query(after) == Some(WifiQuery::Configure(meant))
                && (wants(after, network) <==> network == meant)
            &&& at == v.networks.len() ==> wifi_query(after) is None && !wants(after, network)
        }),
{
    name_position_found(v.networks, v.selected_ssid, at);
}

/// A scan starts anew, with the first pass, where there is a radio.
pub proof fn scans_are_started(
    v: WifiView,
    saved: Seq<NetworkView>,
    index: i32,
    available: bool,
    card: CardOwner,
    frame: u32,
)
    requires
        v.stage is Idle,
        v.pending is None,
    ensures
        ({
            let after = wifi_acted(v, saved, 1, index, available, card, frame);
            let taken = stepped(after, frame);
            &&& available ==> {
                &&& after.pending == Some(RadioStep::<NetworkView>::Scan { pass: 1 })
                &&& after.networks.len() == 0
                &&& after.scan_index == 0
                &&& after.connecting
                &&& wifi_query(after) is None
                &&& wifi_query(taken) == Some(WifiQuery::<NetworkView>::Scan)
                &&& taken.pending is None
            }
            &&& !available ==> {
                &&& after.pending is None
                &&& wifi_query(after) is None
                &&& after.networks == v.networks
                &&& after.status == "WI-FI NOT AVAILABLE"@
            }
        }),
{
}

/// Forgetting takes the network at the chosen place out of the list, and no other, and has the
/// list written where the card is at hand.
pub proof fn networks_are_forgotten(
    v: WifiView,
    saved: Seq<NetworkView>,
    index: i32,
    available: bool,
    card: CardOwner,
    frame: u32,
)
    requires
        v.stage is Idle,
        0 <= index < saved.len(),
    ensures
        saved_acted(v, saved, 5, index) == saved.take(index as int) + saved.skip(index + 1),
        ({
            let after = wifi_acted(v, saved, 5, index, available, card, frame);
            &&& after.saved_changed
            &&& after.pending == v.pending
            &&& card == CardOwner::Firmware ==> wifi_query(after) == Some(
                WifiQuery::<NetworkView>::Save,
            )
            &&& card != CardOwner::Firmware ==> wifi_query(after) is None && after.status
                == "SD SAVE FAILED"@
        }),
{
    assert(saved.remove(index as int) =~= saved.take(index as int) + saved.skip(index + 1));
}

/// Other commands leave the list of saved networks as it is; while work is under way, or where
/// the command is none, everything stays.
pub proof fn other_commands_keep_the_list(
    v: WifiView,
    saved: Seq<NetworkView>,
    action: i32,
    index: i32,
    available: bool,
    card: CardOwner,
    frame: u32,
)
    ensures
        action != 5 ==> saved_acted(v, saved, action, index) == saved,
        !(v.stage is Idle) || action == 0 ==> wifi_acted(
            v,
            saved,
            action,
            index,
            available,
            card,
            frame,
        ) == v && saved_acted(v, saved, action, index) == saved,
        v.stage is Idle && v.pending is Some ==> wifi_acted(
            v,
            saved,
            action,
            index,
            available,
            card,
            frame,
        ).pending == v.pending,
{
}

/// A scan has two passes; then it tells what the signs behind the names mean, or that there is
/// nothing. One that breaks off shows what was found.
pub proof fn scans_have_two_passes(
    v: WifiView,
    results: Vec<ScanNetwork>,
    networks: Seq<ScanView>,
    card: CardOwner,
    frame: u32,
)
    ensures
        v.stage == (WifiStage::<NetworkView, Seq<char>>::Scanning { pass: 1 }) ==> {
            let after = wifi_next(v, WifiReply::Scanned(results), networks, card, frame);
            &&& after.pending == Some(RadioStep::<NetworkView>::Scan { pass: 2 })
            &&& after.stage is Idle
            &&& after.networks == networks
            &&& after.scan_changed
        },
        v.stage == (WifiStage::<NetworkView, Seq<char>>::Scanning { pass: 2 }) ==> {
            let after = wifi_next(v, WifiReply::Scanned(results), networks, card, frame);
            &&& after.pending == v.pending
            &&& after.stage is Idle
            &&& after.networks == networks
            &&& after.scan_changed
            &&& !after.connecting
            &&& networks.len() == 0 ==> after.status == "NO NETWORKS FOUND"@
            &&& networks.len() > 0 ==> after.status == "* = PASSWORD  ! = UNSUPPORTED"@
        },
        v.stage is Scanning ==> {
            let after = wifi_next(v, WifiReply::Failed, networks, card, frame);
            &&& after.pending == v.pending
            &&& after.stage is Idle
            &&& !after.connecting
            &&& after.networks == networks
            &&& networks.len() == 0 ==> after.status == "SCAN FAILED"@
            &&& networks.len() > 0 ==> after.status == "SCAN PARTIAL - SHOWING WHAT WE HAVE"@
        },
        v.stage is Scanning ==> {
            let after = wifi_next(v, WifiReply::Absent, networks, card, frame);
            &&& after.pending == v.pending
            &&& after.stage is Idle
            &&& after.status == "WI-FI NOT AVAILABLE"@
        },
{
}

/// A network that the radio was set up for is tried from the first attempt on; where it could
/// not be set up, it is given up.
pub proof fn attempts_start_with_the_first(
    v: WifiView,
    network: NetworkView,
    networks: Seq<ScanView>,
    card: CardOwner,
    frame: u32,
)
    requires
        v.stage == (WifiStage::<NetworkView, Seq<char>>::Configuring { network }),
    ensures
        ({
            let after = wifi_next(v, WifiReply::Done, networks, card, frame);
            let taken = stepped(after, frame);
            &&& after.pending == Some(RadioStep::Connect { network, attempt: 1 })
            &&& after.stage is Idle
            &&& after.selected_ssid == network.ssid
            &&& after.connecting
            &&& wifi_query(taken) == Some(WifiQuery::<NetworkView>::Connect)
            &&& taken.stage == (WifiStage::<NetworkView, Seq<char>>::Connecting {
                network,
                attempt: 1,
            })
        }),
        ({
            let after = wifi_next(v, WifiReply::Failed, networks, card, frame);
            &&& after.pending == v.pending
            &&& after.stage is Idle
            &&& after.status == "CONNECTION FAILED"@
        }),
        ({
            let after = wifi_next(v, WifiReply::Absent, networks, card, frame);
            &&& after.pending == v.pending
            &&& after.stage is Idle
            &&& after.status == "WI-FI NOT AVAILABLE"@
        }),
{
}

/// A network is tried three times, each attempt for the same network; the third failure is the
/// end.
pub proof fn attempts_are_three(
    v: WifiView,
    network: NetworkView,
    attempt: usize,
    networks: Seq<ScanView>,
    saved: Seq<NetworkView>,
    card: CardOwner,
    frame: u32,
)
    requires
        v.stage == (WifiStage::<NetworkView, Seq<char>>::Connecting { network, attempt }),
        1 <= attempt <= 3,
    ensures
        ({
            let after = wifi_next(v, WifiReply::Failed, networks, card, frame);
            &&& after.stage is Idle
            &&& attempt < 3 ==> after.pending == Some(
                RadioStep::Connect { network, attempt: (attempt + 1) as usize },
            )
            &&& attempt == 3 ==> after.pending == v.pending && !after.connecting && after.status
                == "CONNECTION FAILED"@
            &&& after.link_ssid == v.link_ssid
        }),
        saved_next(v, WifiReply::Failed, saved) == saved,
        ({
            let after = wifi_next(v, WifiReply::Absent, networks, card, frame);
            &&& after.pending == v.pending && after.stage is Idle && !after.connecting
            &&& after.status == "WI-FI NOT AVAILABLE"@
        }),
{
}

/// A network that was joined is shown in the top bar and put into the list of saved networks,
/// which is written where the card is at hand; the password screen is then left.
pub proof fn joined_networks_are_told(
    v: WifiView,
    network: NetworkView,
    attempt: usize,
    networks: Seq<ScanView>,
    saved: Seq<NetworkView>,
    card: CardOwner,
    frame: u32,
    done: bool,
)
    requires
        v.stage == (WifiStage::<NetworkView, Seq<char>>::Connecting { network, attempt }),
    ensures
        saved_next(v, WifiReply::Done, saved).contains(network),
        ({
            let after = wifi_next(v, WifiReply::Done, networks, card, frame);
            let reply = if done {
                WifiReply::Done
            } else {
                WifiReply::Failed
            };
            let told = wifi_next(after, reply, networks, card, frame);
            &&& after.link_ssid == shortened(network.ssid, 15)
            &&& after.saved_changed
            &&& card == CardOwner::Firmware ==> {
                &&& wifi_query(after) == Some(WifiQuery::<NetworkView>::Save)
                &&& told.stage is Idle
                &&& !told.connecting
                &&& done ==> told.status == "CONNECTED: "@ + shortened(network.ssid, 18)
                &&& !done ==> told.status == "CONNECTED - SD SAVE FAILED"@
                &&& v.view_state == 5 ==> told.view_state == 2 && told.password.len() == 0
                &&& v.view_state != 5 ==> told.view_state == v.view_state && told.password
                    == v.password
            }
            &&& card != CardOwner::Firmware ==> {
                &&& after.stage is Idle
                &&& !after.connecting
                &&& after.status == "CONNECTED - SD SAVE FAILED"@
                &&& v.view_state == 5 ==> after.view_state == 2 && after.password.len() == 0
            }
        }),
{
    upsert_saves_the_network(saved, network);
}

/// What is said once the list without a forgotten network was written, or was not.
pub proof fn forgetting_is_told(
    v: WifiView,
    networks: Seq<ScanView>,
    card: CardOwner,
    frame: u32,
)
    requires
        v.stage is Forgetting,
    ensures
        wifi_next(v, WifiReply::Done, networks, card, frame).status == "NETWORK FORGOTTEN"@,
        wifi_next(v, WifiReply::Failed, networks, card, frame).status == "SD SAVE FAILED"@,
        wifi_next(v, WifiReply::Done, networks, card, frame).stage is Idle,
        wifi_next(v, WifiReply::Failed, networks, card, frame).stage is Idle,
{
}

/// The line while the radio works: what it does, which pass or attempt of how many, and a sign
/// that turns with every frame.
pub proof fn work_is_shown(network: NetworkView, count: usize, frame: u32)
    requires
        1 <= count <= 9,
    ensures
        ({
            let digit = (48 + count) as char;
            let turn = "|/-+"@[frame as int % 4];
            &&& busy_text(RadioStep::Scan { pass: count }, frame) == "SCANNING "@ + seq![
                digit,
                '/',
                '2',
                ' ',
                turn,
            ]
            &&& busy_text(RadioStep::Connect { network, attempt: count }, frame)
                == "CONNECTING "@ + seq![digit, '/', '3', ' ', turn]
        }),
{
    reveal_strlit("|/-+");
    reveal_strlit("|");
    reveal_strlit("/");
    reveal_strlit("-");
    reveal_strlit("+");
    reveal_strlit(" ");
    reveal_with_fuel(text::decimal, 2);
    let digit = (48 + count) as char;
    let turn = "|/-+"@[frame as int % 4];
    assert(text::decimal(count as nat) =~= seq![digit]);
    assert(text::decimal(2) =~= seq!['2']);
    assert(text::decimal(3) =~= seq!['3']);
    assert(spinner(frame) =~= seq![turn]);
    assert(busy_text(RadioStep::Scan { pass: count }, frame) =~= "SCANNING "@ + seq![
        digit,
        '/',
        '2',
        ' ',
        turn,
    ]);
    assert(busy_text(RadioStep::Connect { network, attempt: count }, frame) =~= "CONNECTING "@
        + seq![digit, '/', '3', ' ', turn]);
}

/// What the control says by itself: at the start, when the link goes down, when the card is back,
/// and in every frame while the radio has work.
pub proof fn changes_are_said(v: WifiView, step: RadioStep<NetworkView>, success: bool, frame: u32)
    ensures
        first_status(true, true) == "READY"@,
        first_status(true, false) == "SD ERROR"@,
        first_status(false, success) == "WI-FI INIT ERROR"@,
        without_link(v).status == "CONNECTION LOST"@,
        without_link(v).stage == v.stage && without_link(v).pending == v.pending,
        after_reload(v, true).status == "SD RELOADED"@,
        after_reload(v, false).status == "SD ERROR AFTER USB"@,
        after_reload(v, success).view_state == 0,
        after_reload(v, success).saved_index == 0,
        after_reload(v, success).saved_changed,
        v.pending == Some(step) ==> spun(v, frame).status == busy_text(step, frame),
        v.pending is None ==> spun(v, frame) == v,
        spun(v, frame).stage == v.stage && spun(v, frame).pending == v.pending,
{
}

/// A pass adds to what earlier passes found: every network of either is in the list, as strong as
/// it was found, while there are no more than eight; the list changes at no other time.
pub proof fn passes_add_to_the_list(
    v: WifiView,
    results: Vec<ScanNetwork>,
    reply: WifiReply,
    after: Seq<ScanView>,
    ssid: Seq<char>,
    strength: i8,
)
    ensures
        v.stage is Scanning && merged(v, WifiReply::Scanned(results), after) && (knows(
            v.networks,
            ssid,
            strength,
        ) || knows(scan_view(results@), ssid, strength)) && with_networks(
            v.networks,
            scan_view(results@),
        ).len() <= 8 ==> knows(after, ssid, strength),
        v.stage is Scanning && merged(v, WifiReply::Scanned(results), after) ==> after.len() <= 8
            && strongest_first(after),
        !(v.stage is Scanning) && merged(v, reply, after) ==> after == v.networks,
        !(reply is Scanned) && merged(v, reply, after) ==> after == v.networks,
{
    let all = with_networks(v.networks, scan_view(results@));
    if v.stage is Scanning && merged(v, WifiReply::Scanned(results), after) {
        merged_list_is_short_and_sorted(after, all);
        list_shows_the_strongest(after, all);
        if knows(v.networks, ssid, strength) || knows(scan_view(results@), ssid, strength) {
            merging_keeps_the_strongest(v.networks, scan_view(results@), ssid, strength);
            if all.len() <= 8 {
                let i = choose|i: int|
                    0 <= i < all.len() && (#[trigger] all[i]).ssid == ssid
                        && all[i].signal_strength >= strength;
                all.to_multiset_ensures();
                after.to_multiset_ensures();
                assert(all.to_multiset().count(all[i]) > 0);
                assert(after.contains(all[i]));
                let j = choose|j: int| 0 <= j < after.len() && after[j] == all[i];
                assert(after[j].ssid == ssid && after[j].signal_strength >= strength);
            }
        }
    }
}

} // verus!
