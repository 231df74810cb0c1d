//! What the console answers.

use crate::debug::{CommandView, ConsoleView, DebugCommand, DebugConsole, DebugKey, message_queued};
use crate::ftp::command::Ipv4;
use crate::screen::input::{
    KeyEffect, Passwords, append_debug_text, apply_debug_key, clear_effect, clear_text,
    debug_key_effect, debug_text_effect, key_refusal, refuse_debug_key,
};
use crate::screen::lines::{dotted, signed_decimal, view_label, view_name};
use crate::storage::{AuthKind, NetworkView, SavedNetwork};
use crate::text;
use crate::text::texts;
use crate::usbdisk::UsbDiskState;
use crate::wifi::{ScanNetwork, ScanView};
use vstd::prelude::*;
use vstd::string::*;
use vstd::utf8::*;

verus! {

#[derive(Clone, Copy, Debug, PartialEq, Eq, Structural)]
pub enum LineKind {
    Fine,
    Data,
    Error,
}

/// A line of an answer, in the pieces in which it is sent.
pub struct AnswerLine {
    pub kind: LineKind,
    pub pieces: Vec<String>,
}

/// What an [`AnswerLine`] says.
#[verifier::ext_equal]
pub struct LineView {
    pub kind: LineKind,
    pub pieces: Seq<Seq<char>>,
}

impl View for AnswerLine {
    type V = LineView;

    open spec fn view(&self) -> LineView {
        LineView { kind: self.kind, pieces: texts(self.pieces@) }
    }
}

/// What the lines of an answer say.
pub open spec fn lines_view(lines: Seq<AnswerLine>) -> Seq<LineView> {
    lines.map_values(|line: AnswerLine| line@)
}

/// What is left to do for an answer.
#[derive(Clone, Copy, Debug, PartialEq, Eq, Structural)]
pub enum FollowUp {
    Nothing,
    /// Answer with the state of the firmware.
    Status,
    /// Answer with the view once the key has had its effect.
    Key(DebugKey),
    /// Restart once the answer has left.
    Reboot,
}

/// An answer, and what the command does.
pub struct Answer {
    pub lines: Vec<AnswerLine>,
    pub effect: KeyEffect<String>,
    pub follow: FollowUp,
}

/// What an [`Answer`] says.
#[verifier::ext_equal]
pub struct AnswerView {
    pub lines: Seq<LineView>,
    pub effect: KeyEffect<Seq<char>>,
    pub follow: FollowUp,
}

impl View for Answer {
    type V = AnswerView;

    open spec fn view(&self) -> AnswerView {
        AnswerView {
            lines: lines_view(self.lines@),
            effect: self.effect.view(),
            follow: self.follow,
        }
    }
}

// ---------------------------------------------------------------------------
// Commands
// ---------------------------------------------------------------------------

pub open spec fn line(kind: LineKind, pieces: Seq<Seq<char>>) -> LineView {
    LineView { kind, pieces }
}

/// A line in one piece.
pub open spec fn plain_line(kind: LineKind, text: Seq<char>) -> LineView {
    line(kind, seq![text])
}

/// An answer of one line.
pub open spec fn short_answer(kind: LineKind, text: Seq<char>) -> AnswerView {
    AnswerView {
        lines: seq![plain_line(kind, text)],
        effect: KeyEffect::Nothing,
        follow: FollowUp::Nothing,
    }
}

/// The commands that the console knows.
pub open spec fn help_lines() -> Seq<LineView> {
    seq![
        plain_line(LineKind::Fine, "commands"@),
        plain_line(LineKind::Data, "PING"@),
        plain_line(LineKind::Data, "STATUS"@),
        plain_line(
            LineKind::Data,
            "KEY up|down|left|right|enter|back|backspace|delete|tab|space"@,
        ),
        plain_line(LineKind::Data, "TEXT <printable ASCII>"@),
        plain_line(LineKind::Data, "CLEAR"@),
        plain_line(LineKind::Data, "REBOOT"@),
    ]
}

/// What a command is answered. Keys and text are refused while the firmware drops
/// keys.
pub open spec fn answered(
    command: CommandView,
    discard: bool,
    view_state: i32,
    menu_index: i32,
    wifi: Seq<char>,
    ftp: Seq<char>,
) -> AnswerView {
    match command {
        CommandView::Ping => short_answer(LineKind::Fine, "PONG protocol=1"@),
        CommandView::Help => AnswerView {
            lines: help_lines(),
            effect: KeyEffect::Nothing,
            follow: FollowUp::Nothing,
        },
        CommandView::Status => AnswerView {
            lines: Seq::empty(),
            effect: KeyEffect::Nothing,
            follow: FollowUp::Status,
        },
        CommandView::Key(key) => match key_refusal(discard, view_state, menu_index, key) {
            Some(reason) => short_answer(LineKind::Error, reason),
            None => AnswerView {
                lines: Seq::empty(),
                effect: debug_key_effect(view_state, key, wifi, ftp),
                follow: FollowUp::Key(key),
            },
        },
        CommandView::Text(added) => if discard {
            short_answer(LineKind::Error, "input_busy"@)
        } else {
            match debug_text_effect(view_state, added, wifi, ftp) {
                Ok(effect) => AnswerView {
                    effect,
                    ..short_answer(LineKind::Fine, "text_accepted"@)
                },
                Err(reason) => short_answer(LineKind::Error, reason),
            }
        },
        CommandView::Clear => match clear_effect(view_state) {
            Ok(done) => AnswerView { effect: done.0, ..short_answer(LineKind::Fine, done.1) },
            Err(reason) => short_answer(LineKind::Error, reason),
        },
        CommandView::Reboot => AnswerView {
            follow: FollowUp::Reboot,
            ..short_answer(LineKind::Fine, "rebooting"@)
        },
        CommandView::Invalid(reason) => short_answer(LineKind::Error, reason),
    }
}

fn push_pieces(lines: &mut Vec<AnswerLine>, kind: LineKind, pieces: Vec<String>)
    ensures
        lines_view(final(lines)@) == lines_view(old(lines)@).push(line(kind, texts(pieces@))),
{
    let ghost before = lines@;
    lines.push(AnswerLine { kind, pieces });
    assert(lines_view(lines@) =~= lines_view(before).push(line(kind, texts(pieces@))));
}

fn push_line(lines: &mut Vec<AnswerLine>, kind: LineKind, content: &str)
    ensures
        lines_view(final(lines)@) == lines_view(old(lines)@).push(plain_line(kind, content@)),
{
    let mut pieces: Vec<String> = Vec::new();
    pieces.push(content.to_owned());
    assert(texts(pieces@) =~= seq![content@]);
    push_pieces(lines, kind, pieces);
}

fn one_line(kind: LineKind, content: &str) -> (lines: Vec<AnswerLine>)
    ensures
        lines_view(lines@) == seq![plain_line(kind, content@)],
{
    let mut lines: Vec<AnswerLine> = Vec::new();
    push_line(&mut lines, kind, content);
    assert(lines_view(lines@) =~= seq![plain_line(kind, content@)]);
    lines
}

fn say(kind: LineKind, content: &str) -> (answer: Answer)
    ensures
        answer@ == short_answer(kind, content@),
{
    Answer {
        lines: one_line(kind, content),
        effect: KeyEffect::Nothing,
        follow: FollowUp::Nothing,
    }
}

fn no_lines() -> (lines: Vec<AnswerLine>)
    ensures
        lines_view(lines@) == Seq::<LineView>::empty(),
{
    let lines: Vec<AnswerLine> = Vec::new();
    assert(lines_view(lines@) =~= Seq::<LineView>::empty());
    lines
}

fn help() -> (lines: Vec<AnswerLine>)
    ensures
        lines_view(lines@) == help_lines(),
{
    let mut lines = no_lines();
    push_line(&mut lines, LineKind::Fine, "commands");
    push_line(&mut lines, LineKind::Data, "PING");
    push_line(&mut lines, LineKind::Data, "STATUS");
    push_line(
        &mut lines,
        LineKind::Data,
        "KEY up|down|left|right|enter|back|backspace|delete|tab|space",
    );
    push_line(&mut lines, LineKind::Data, "TEXT <printable ASCII>");
    push_line(&mut lines, LineKind::Data, "CLEAR");
    push_line(&mut lines, LineKind::Data, "REBOOT");
    assert(lines_view(lines@) =~= help_lines());
    lines
}

/// Answers a command.
pub fn answer(
    command: &DebugCommand,
    discard: bool,
    view_state: i32,
    menu_index: i32,
    passwords: &Passwords,
) -> (answer: Answer)
    ensures
        answer@ == answered(
            command@,
            discard,
            view_state,
            menu_index,
            passwords.wifi@,
            passwords.ftp@,
        ),
{
    match command {
        DebugCommand::Ping => say(LineKind::Fine, "PONG protocol=1"),
        DebugCommand::Help => Answer {
            lines: help(),
            effect: KeyEffect::Nothing,
            follow: FollowUp::Nothing,
        },
        DebugCommand::Status => Answer {
            lines: no_lines(),
            effect: KeyEffect::Nothing,
            follow: FollowUp::Status,
        },
        DebugCommand::Key { key } => {
            match refuse_debug_key(discard, view_state, menu_index, *key) {
                Some(reason) => say(LineKind::Error, reason),
                None => Answer {
                    lines: no_lines(),
                    effect: apply_debug_key(view_state, *key, passwords),
                    follow: FollowUp::Key(*key),
                },
            }
        },
        DebugCommand::Text { text } => {
            if discard {
                return say(LineKind::Error, "input_busy");
            }
            match append_debug_text(view_state, text.as_str(), passwords) {
                Ok(effect) => Answer {
                    lines: one_line(LineKind::Fine, "text_accepted"),
                    effect,
                    follow: FollowUp::Nothing,
                },
                Err(reason) => say(LineKind::Error, reason),
            }
        },
        DebugCommand::Clear => {
            match clear_text(view_state) {
                Ok((effect, done)) => Answer {
                    lines: one_line(LineKind::Fine, done),
                    effect,
                    follow: FollowUp::Nothing,
                },
                Err(reason) => say(LineKind::Error, reason),
            }
        },
        DebugCommand::Reboot => Answer {
            lines: one_line(LineKind::Fine, "rebooting"),
            effect: KeyEffect::Nothing,
            follow: FollowUp::Reboot,
        },
        DebugCommand::Invalid { reason } => say(LineKind::Error, reason),
    }
}

/// The name of a key of the console.
pub open spec fn key_label(key: DebugKey) -> Seq<char> {
    match key {
        DebugKey::Up => "Up"@,
        DebugKey::Down => "Down"@,
        DebugKey::Left => "Left"@,
        DebugKey::Right => "Right"@,
        DebugKey::Enter => "Enter"@,
        DebugKey::Back => "Back"@,
        DebugKey::Backspace => "Backspace"@,
        DebugKey::Delete => "Delete"@,
        DebugKey::Tab => "Tab"@,
        DebugKey::Space => "Space"@,
    }
}

fn key_name(key: DebugKey) -> (name: &'static str)
    ensures
        name@ == key_label(key),
{
    match key {
        DebugKey::Up => "Up",
        DebugKey::Down => "Down",
        DebugKey::Left => "Left",
        DebugKey::Right => "Right",
        DebugKey::Enter => "Enter",
        DebugKey::Back => "Back",
        DebugKey::Backspace => "Backspace",
        DebugKey::Delete => "Delete",
        DebugKey::Tab => "Tab",
        DebugKey::Space => "Space",
    }
}

/// A label and the pieces of what it says.
pub open spec fn labelled(label: Seq<char>, value: Seq<Seq<char>>) -> Seq<Seq<char>> {
    seq![label] + value
}

/// Appends a label and what it says.
fn put_pieces(out: &mut Vec<String>, label: &str, value: Vec<String>)
    ensures
        texts(final(out)@) == texts(old(out)@) + labelled(label@, texts(value@)),
        old(out)@.len() == 0 ==> texts(final(out)@) == labelled(label@, texts(value@)),
{
    let ghost before = out@;
    let ghost said = value@;
    let mut value = value;
    out.push(label.to_owned());
    out.append(&mut value);
    assert(texts(out@) =~= texts(before) + labelled(label@, texts(said)));
    assert(before.len() == 0 ==> texts(out@) =~= labelled(label@, texts(said)));
}

fn put(out: &mut Vec<String>, label: &str, value: &str)
    ensures
        texts(final(out)@) == texts(old(out)@) + labelled(label@, seq![value@]),
        old(out)@.len() == 0 ==> texts(final(out)@) == labelled(label@, seq![value@]),
{
    let mut pieces: Vec<String> = Vec::new();
    pieces.push(value.to_owned());
    assert(texts(pieces@) =~= seq![value@]);
    put_pieces(out, label, pieces);
}

/// The pieces of a number: a sign is one of its own.
pub open spec fn signed_pieces(value: int) -> Seq<Seq<char>> {
    if value < 0 {
        seq!["-"@, text::decimal((-value) as nat)]
    } else {
        seq![text::decimal(value as nat)]
    }
}

fn put_signed(out: &mut Vec<String>, label: &str, value: i32)
    ensures
        texts(final(out)@) == texts(old(out)@) + labelled(label@, signed_pieces(value as int)),
        old(out)@.len() == 0 ==> texts(final(out)@) == labelled(
            label@,
            signed_pieces(value as int),
        ),
{
    let mut pieces: Vec<String> = Vec::new();
    let wide: i64 = value as i64;
    if wide < 0 {
        pieces.push("-".to_owned());
        pieces.push(text::decimal_text((-wide) as u64));
    } else {
        pieces.push(text::decimal_text(wide as u64));
    }
    assert(texts(pieces@) =~= signed_pieces(value as int));
    put_pieces(out, label, pieces);
}

fn put_number(out: &mut Vec<String>, label: &str, value: u64)
    ensures
        texts(final(out)@) == texts(old(out)@) + labelled(
            label@,
            seq![text::decimal(value as nat)],
        ),
        old(out)@.len() == 0 ==> texts(final(out)@) == labelled(
            label@,
            seq![text::decimal(value as nat)],
        ),
{
    let digits = text::decimal_text(value);
    put(out, label, digits.as_str());
}

fn put_quoted(out: &mut Vec<String>, label: &str, value: &str)
    ensures
        texts(final(out)@) == texts(old(out)@) + labelled(label@, text::quoted(value@)),
        old(out)@.len() == 0 ==> texts(final(out)@) == labelled(label@, text::quoted(value@)),
{
    put_pieces(out, label, text::quoted_pieces(value));
}

pub open spec fn yes_no(value: bool) -> Seq<char> {
    if value {
        "true"@
    } else {
        "false"@
    }
}

fn put_bool(out: &mut Vec<String>, label: &str, value: bool)
    ensures
        texts(final(out)@) == texts(old(out)@) + labelled(label@, seq![yes_no(value)]),
        old(out)@.len() == 0 ==> texts(final(out)@) == labelled(label@, seq![yes_no(value)]),
{
    put(
        out,
        label,
        if value {
            "true"
        } else {
            "false"
        },
    );
}

/// The answer to a key: the view that it led to.
pub open spec fn key_answer(key: DebugKey, view_state: i32) -> Seq<Seq<char>> {
    labelled("key="@, seq![key_label(key)]) + labelled(
        " view="@,
        signed_pieces(view_state as int),
    ) + labelled(" name="@, seq![view_label(view_state)])
}

/// The answer to a key: the view that it led to.
pub fn answer_key(key: DebugKey, view_state: i32) -> (lines: Vec<AnswerLine>)
    ensures
        lines_view(lines@) == seq![line(LineKind::Fine, key_answer(key, view_state))],
{
    let mut out: Vec<String> = Vec::new();
    put(&mut out, "key=", key_name(key));
    put_signed(&mut out, " view=", view_state);
    put(&mut out, " name=", view_name(view_state));
    let mut lines = no_lines();
    push_pieces(&mut lines, LineKind::Fine, out);
    assert(lines_view(lines@) =~= seq![line(LineKind::Fine, key_answer(key, view_state))]);
    lines
}

// ---------------------------------------------------------------------------
// State of the firmware
// ---------------------------------------------------------------------------

/// What the radio is doing.
#[derive(Clone, Copy, Debug, PartialEq, Eq, Structural)]
pub enum RadioState {
    Idle,
    Scan,
    Connect,
}

/// The network.
#[derive(Clone, Copy, Debug, PartialEq, Eq, Structural)]
pub struct NetworkReport {
    pub link_up: bool,
    pub online: bool,
    pub ipv4: Option<Ipv4>,
}

/// The state of the firmware.
pub struct StatusReport<'a> {
    pub uptime_ms: u64,
    pub heap_free: u64,
    pub view_state: i32,
    pub menu_index: i32,
    pub wifi_menu_index: i32,
    pub saved_index: i32,
    pub scan_index: i32,
    pub link_state: i32,
    pub radio: RadioState,
    pub wifi_status: &'a str,
    pub network: Option<NetworkReport>,
    pub storage_mounted: bool,
    pub usb_exported: bool,
    pub usb_state: UsbDiskState,
    pub usb_status: &'a str,
    pub ftp_status: &'a str,
    pub ftp_peer: Option<&'a str>,
    pub ftp_addr: &'a str,
    pub clock_text: &'a str,
    pub clock_synced: bool,
    pub battery_percent: i32,
    pub link_ssid: &'a str,
    pub saved: &'a [SavedNetwork],
    pub scanned: &'a [ScanNetwork],
}

pub open spec fn radio_label(radio: RadioState) -> Seq<char> {
    match radio {
        RadioState::Idle => "idle"@,
        RadioState::Scan => "scan"@,
        RadioState::Connect => "connect"@,
    }
}

pub open spec fn usb_label(state: UsbDiskState) -> Seq<char> {
    match state {
        UsbDiskState::Inactive => "Inactive"@,
        UsbDiskState::Waiting => "Waiting"@,
        UsbDiskState::Mounted => "Mounted"@,
        UsbDiskState::Ejected => "Ejected"@,
    }
}

pub open spec fn auth_label(auth: AuthKind) -> Seq<char> {
    match auth {
        AuthKind::Open => "Open"@,
        AuthKind::Wep => "Wep"@,
        AuthKind::Wpa => "Wpa"@,
        AuthKind::Wpa2 => "Wpa2"@,
        AuthKind::WpaWpa2 => "WpaWpa2"@,
    }
}

fn auth_name(auth: AuthKind) -> (name: &'static str)
    ensures
        name@ == auth_label(auth),
{
    match auth {
        AuthKind::Open => "Open",
        AuthKind::Wep => "Wep",
        AuthKind::Wpa => "Wpa",
        AuthKind::Wpa2 => "Wpa2",
        AuthKind::WpaWpa2 => "WpaWpa2",
    }
}

pub open spec fn system_line(report: StatusReport) -> Seq<Seq<char>> {
    labelled("system uptime_ms="@, seq![text::decimal(report.uptime_ms as nat)]) + labelled(
        " heap_free="@,
        seq![text::decimal(report.heap_free as nat)],
    )
}

pub open spec fn ui_line(report: StatusReport) -> Seq<Seq<char>> {
    labelled("ui view="@, signed_pieces(report.view_state as int)) + labelled(
        " name="@,
        seq![view_label(report.view_state)],
    ) + labelled(" menu="@, signed_pieces(report.menu_index as int)) + labelled(
        " wifi_menu="@,
        signed_pieces(report.wifi_menu_index as int),
    ) + labelled(" saved="@, signed_pieces(report.saved_index as int)) + labelled(
        " scan="@,
        signed_pieces(report.scan_index as int),
    )
}

pub open spec fn wifi_line(report: StatusReport) -> Seq<Seq<char>> {
    labelled("wifi link="@, signed_pieces(report.link_state as int)) + labelled(
        " radio="@,
        seq![radio_label(report.radio)],
    ) + labelled(" status="@, text::quoted(report.wifi_status@))
}

/// The pieces of something that is there, in its brackets.
pub open spec fn some_of(value: Seq<Seq<char>>) -> Seq<Seq<char>> {
    seq!["Some"@, "("@] + value + seq![")"@]
}

/// An address, number by number.
pub open spec fn address_pieces(ip: Ipv4) -> Seq<Seq<char>> {
    seq![
        text::decimal(ip.a as nat),
        "."@,
        text::decimal(ip.b as nat),
        "."@,
        text::decimal(ip.c as nat),
        "."@,
        text::decimal(ip.d as nat),
    ]
}

/// An address that may be missing.
pub open spec fn some_address(ip: Option<Ipv4>) -> Seq<Seq<char>> {
    match ip {
        Some(ip) => some_of(address_pieces(ip)),
        None => seq!["None"@],
    }
}

pub open spec fn network_line(report: StatusReport) -> Seq<Seq<char>> {
    match report.network {
        Some(network) => labelled("network link_up="@, seq![yes_no(network.link_up)]) + labelled(
            " online="@,
            seq![yes_no(network.online)],
        ) + labelled(" ipv4="@, some_address(network.ipv4)),
        None => seq!["network unavailable"@],
    }
}

pub open spec fn storage_line(report: StatusReport) -> Seq<Seq<char>> {
    labelled("storage mounted="@, seq![yes_no(report.storage_mounted)]) + labelled(
        " usb_exported="@,
        seq![yes_no(report.usb_exported)],
    )
}

pub open spec fn usb_line(report: StatusReport) -> Seq<Seq<char>> {
    labelled("usb state="@, seq![usb_label(report.usb_state)]) + labelled(
        " status="@,
        text::quoted(report.usb_status@),
    )
}

/// A text that may be missing.
pub open spec fn some_text(value: Option<&str>) -> Seq<Seq<char>> {
    match value {
        Some(value) => some_of(text::quoted(value@)),
        None => seq!["None"@],
    }
}

pub open spec fn ftp_line(report: StatusReport) -> Seq<Seq<char>> {
    labelled("ftp state="@, text::quoted(report.ftp_status@)) + labelled(
        " peer="@,
        some_text(report.ftp_peer),
    ) + labelled(" address="@, text::quoted(report.ftp_addr@))
}

pub open spec fn top_line(report: StatusReport) -> Seq<Seq<char>> {
    labelled("top clock="@, text::quoted(report.clock_text@)) + labelled(
        " synced="@,
        seq![yes_no(report.clock_synced)],
    ) + labelled(" battery="@, signed_pieces(report.battery_percent as int)) + labelled(
        " ssid="@,
        text::quoted(report.link_ssid@),
    )
}

pub open spec fn lists_line(report: StatusReport) -> Seq<Seq<char>> {
    labelled("lists saved="@, seq![text::decimal(report.saved@.len())]) + labelled(
        " scan="@,
        seq![text::decimal(report.scanned@.len())],
    )
}

pub open spec fn saved_line(index: int, network: NetworkView) -> Seq<Seq<char>> {
    labelled("saved index="@, seq![text::decimal(index as nat)]) + labelled(
        " ssid="@,
        text::quoted(network.ssid),
    ) + labelled(" auth="@, seq![auth_label(network.auth)])
}

pub open spec fn found_line(index: int, network: ScanView) -> Seq<Seq<char>> {
    labelled("scan index="@, seq![text::decimal(index as nat)]) + labelled(
        " ssid="@,
        text::quoted(network.ssid),
    ) + labelled(" rssi="@, signed_pieces(network.signal_strength as int)) + labelled(
        " auth="@,
        seq![auth_label(network.auth)],
    ) + labelled(" supported="@, seq![yes_no(network.supported)])
}

/// The state of the firmware, one line for each part of it.
pub open spec fn status_text(report: StatusReport) -> Seq<LineView> {
    seq![
        plain_line(LineKind::Fine, "status"@),
        line(LineKind::Data, system_line(report)),
        line(LineKind::Data, ui_line(report)),
        line(LineKind::Data, wifi_line(report)),
        line(LineKind::Data, network_line(report)),
        line(LineKind::Data, storage_line(report)),
        line(LineKind::Data, usb_line(report)),
        line(LineKind::Data, ftp_line(report)),
        line(LineKind::Data, top_line(report)),
        line(LineKind::Data, lists_line(report)),
    ] + Seq::new(
        report.saved@.len(),
        |i: int| line(LineKind::Data, saved_line(i, report.saved@[i]@)),
    ) + Seq::new(
        report.scanned@.len(),
        |i: int| line(LineKind::Data, found_line(i, report.scanned@[i]@)),
    )
}

fn ui_text(report: &StatusReport) -> (out: Vec<String>)
    ensures
        texts(out@) == ui_line(*report),
{
    let mut out: Vec<String> = Vec::new();
    put_signed(&mut out, "ui view=", report.view_state);
    put(&mut out, " name=", view_name(report.view_state));
    put_signed(&mut out, " menu=", report.menu_index);
    put_signed(&mut out, " wifi_menu=", report.wifi_menu_index);
    put_signed(&mut out, " saved=", report.saved_index);
    put_signed(&mut out, " scan=", report.scan_index);
    out
}

fn wifi_text(report: &StatusReport) -> (out: Vec<String>)
    ensures
        texts(out@) == wifi_line(*report),
{
    let mut out: Vec<String> = Vec::new();
    put_signed(&mut out, "wifi link=", report.link_state);
    put(
        &mut out,
        " radio=",
        match report.radio {
            RadioState::Idle => "idle",
            RadioState::Scan => "scan",
            RadioState::Connect => "connect",
        },
    );
    put_quoted(&mut out, " status=", report.wifi_status);
    out
}

fn in_brackets(value: Vec<String>) -> (out: Vec<String>)
    ensures
        texts(out@) == some_of(texts(value@)),
{
    let ghost said = value@;
    let mut value = value;
    let mut out: Vec<String> = Vec::new();
    out.push("Some".to_owned());
    out.push("(".to_owned());
    out.append(&mut value);
    out.push(")".to_owned());
    assert(texts(out@) =~= some_of(texts(said)));
    out
}

fn missing() -> (out: Vec<String>)
    ensures
        texts(out@) == seq!["None"@],
{
    let mut out: Vec<String> = Vec::new();
    out.push("None".to_owned());
    assert(texts(out@) =~= seq!["None"@]);
    out
}

fn address_text(ip: Option<Ipv4>) -> (out: Vec<String>)
    ensures
        texts(out@) == some_address(ip),
{
    match ip {
        Some(ip) => {
            let mut out: Vec<String> = Vec::new();
            out.push(text::decimal_text(ip.a as u64));
            out.push(".".to_owned());
            out.push(text::decimal_text(ip.b as u64));
            out.push(".".to_owned());
            out.push(text::decimal_text(ip.c as u64));
            out.push(".".to_owned());
            out.push(text::decimal_text(ip.d as u64));
            assert(texts(out@) =~= address_pieces(ip));
            in_brackets(out)
        },
        None => missing(),
    }
}

fn network_text(report: &StatusReport) -> (out: Vec<String>)
    ensures
        texts(out@) == network_line(*report),
{
    let mut out: Vec<String> = Vec::new();
    match report.network {
        Some(network) => {
            put_bool(&mut out, "network link_up=", network.link_up);
            put_bool(&mut out, " online=", network.online);
            put_pieces(&mut out, " ipv4=", address_text(network.ipv4));
        },
        None => {
            out.push("network unavailable".to_owned());
            assert(texts(out@) =~= network_line(*report));
        },
    }
    out
}

fn ftp_text(report: &StatusReport) -> (out: Vec<String>)
    ensures
        texts(out@) == ftp_line(*report),
{
    let mut out: Vec<String> = Vec::new();
    put_quoted(&mut out, "ftp state=", report.ftp_status);
    let peer = match report.ftp_peer {
        Some(name) => in_brackets(text::quoted_pieces(name)),
        None => missing(),
    };
    put_pieces(&mut out, " peer=", peer);
    put_quoted(&mut out, " address=", report.ftp_addr);
    out
}

fn top_text(report: &StatusReport) -> (out: Vec<String>)
    ensures
        texts(out@) == top_line(*report),
{
    let mut out: Vec<String> = Vec::new();
    put_quoted(&mut out, "top clock=", report.clock_text);
    put_bool(&mut out, " synced=", report.clock_synced);
    put_signed(&mut out, " battery=", report.battery_percent);
    put_quoted(&mut out, " ssid=", report.link_ssid);
    out
}

fn push_parts(lines: &mut Vec<AnswerLine>, report: &StatusReport)
    ensures
        lines_view(final(lines)@) == lines_view(old(lines)@) + seq![
            plain_line(LineKind::Fine, "status"@),
            line(LineKind::Data, system_line(*report)),
            line(LineKind::Data, ui_line(*report)),
            line(LineKind::Data, wifi_line(*report)),
            line(LineKind::Data, network_line(*report)),
            line(LineKind::Data, storage_line(*report)),
            line(LineKind::Data, usb_line(*report)),
            line(LineKind::Data, ftp_line(*report)),
            line(LineKind::Data, top_line(*report)),
            line(LineKind::Data, lists_line(*report)),
        ],
{
    push_line(lines, LineKind::Fine, "status");
    let mut system: Vec<String> = Vec::new();
    put_number(&mut system, "system uptime_ms=", report.uptime_ms);
    put_number(&mut system, " heap_free=", report.heap_free);
    push_pieces(lines, LineKind::Data, system);
    push_pieces(lines, LineKind::Data, ui_text(report));
    push_pieces(lines, LineKind::Data, wifi_text(report));
    push_pieces(lines, LineKind::Data, network_text(report));
    let mut storage: Vec<String> = Vec::new();
    put_bool(&mut storage, "storage mounted=", report.storage_mounted);
    put_bool(&mut storage, " usb_exported=", report.usb_exported);
    push_pieces(lines, LineKind::Data, storage);
    let mut usb: Vec<String> = Vec::new();
    put(
        &mut usb,
        "usb state=",
        match report.usb_state {
            UsbDiskState::Inactive => "Inactive",
            UsbDiskState::Waiting => "Waiting",
            UsbDiskState::Mounted => "Mounted",
            UsbDiskState::Ejected => "Ejected",
        },
    );
    put_quoted(&mut usb, " status=", report.usb_status);
    push_pieces(lines, LineKind::Data, usb);
    push_pieces(lines, LineKind::Data, ftp_text(report));
    push_pieces(lines, LineKind::Data, top_text(report));
    let mut lists: Vec<String> = Vec::new();
    put_number(&mut lists, "lists saved=", report.saved.len() as u64);
    put_number(&mut lists, " scan=", report.scanned.len() as u64);
    push_pieces(lines, LineKind::Data, lists);
}

/// The state of the firmware, for the console.
pub fn status_answer(report: &StatusReport) -> (lines: Vec<AnswerLine>)
    ensures
        lines_view(lines@) == status_text(*report),
{
    let mut lines = no_lines();
    push_parts(&mut lines, report);
    let ghost parts = lines_view(lines@);
    let ghost saved = Seq::new(
        report.saved@.len(),
        |i: int| line(LineKind::Data, saved_line(i, report.saved@[i]@)),
    );
    let ghost found = Seq::new(
        report.scanned@.len(),
        |i: int| line(LineKind::Data, found_line(i, report.scanned@[i]@)),
    );
    let mut i: usize = 0;
    while i < report.saved.len()
        invariant
            i <= report.saved@.len(),
            saved == Seq::new(
                report.saved@.len(),
                |i: int| line(LineKind::Data, saved_line(i, report.saved@[i]@)),
            ),
            lines_view(lines@) == parts + saved.take(i as int),
        decreases report.saved@.len() - i,
    {
        let network = &report.saved[i];
        let mut out: Vec<String> = Vec::new();
        put_number(&mut out, "saved index=", i as u64);
        put_quoted(&mut out, " ssid=", network.ssid.as_str());
        put(&mut out, " auth=", auth_name(network.auth));
        push_pieces(&mut lines, LineKind::Data, out);
        assert(saved.take(i + 1) =~= saved.take(i as int).push(saved[i as int]));
        i += 1;
    }
    assert(saved.take(i as int) =~= saved);
    let mut j: usize = 0;
    while j < report.scanned.len()
        invariant
            j <= report.scanned@.len(),
            found == Seq::new(
                report.scanned@.len(),
                |i: int| line(LineKind::Data, found_line(i, report.scanned@[i]@)),
            ),
            lines_view(lines@) == parts + saved + found.take(j as int),
        decreases report.scanned@.len() - j,
    {
        let network = &report.scanned[j];
        let mut out: Vec<String> = Vec::new();
        put_number(&mut out, "scan index=", j as u64);
        put_quoted(&mut out, " ssid=", network.ssid.as_str());
        put_signed(&mut out, " rssi=", network.signal_strength as i32);
        put(&mut out, " auth=", auth_name(network.auth));
        put_bool(&mut out, " supported=", network.supported);
        push_pieces(&mut lines, LineKind::Data, out);
        assert(found.take(j + 1) =~= found.take(j as int).push(found[j as int]));
        j += 1;
    }
    assert(found.take(j as int) =~= found);
    lines
}

// ---------------------------------------------------------------------------
// Sending
// ---------------------------------------------------------------------------

/// What stands before the lines of a kind.
pub open spec fn line_prefix(kind: LineKind) -> Seq<char> {
    match kind {
        LineKind::Fine => "[rat] OK "@,
        LineKind::Data => "[rat] "@,
        LineKind::Error => "[rat] ERROR "@,
    }
}

/// The output queue after some lines.
pub open spec fn lines_queued(queue: Seq<u8>, lines: Seq<LineView>) -> Seq<u8>
    decreases lines.len(),
{
    if lines.len() == 0 {
        queue
    } else {
        message_queued(
            lines_queued(queue, lines.drop_last()),
            line_prefix(lines.last().kind),
            lines.last().pieces,
        )
    }
}

/// The console after the lines of an answer and the next prompt.
pub open spec fn answer_sent(v: ConsoleView, lines: Seq<LineView>) -> ConsoleView {
    (ConsoleView { tx: lines_queued(v.tx, lines), ..v }).written(encode_utf8("rat> "@))
}

/// Queues the lines of an answer, and then the prompt.
pub fn send_answer(console: &mut DebugConsole, lines: &Vec<AnswerLine>)
    requires
        old(console).wf(),
    ensures
        final(console).wf(),
        final(console)@ == answer_sent(old(console)@, lines_view(lines@)),
{
    let ghost all = lines_view(lines@);
    let mut i: usize = 0;
    assert(all.take(0) =~= Seq::<LineView>::empty());
    while i < lines.len()
        invariant
            i <= lines@.len(),
            all == lines_view(lines@),
            console.wf(),
            console@ == (ConsoleView {
                tx: lines_queued(old(console)@.tx, all.take(i as int)),
                ..old(console)@
            }),
        decreases lines@.len() - i,
    {
        assert(all.take(i + 1).drop_last() =~= all.take(i as int));
        assert(all.take(i + 1).last() == lines@[i as int]@);
        match lines[i].kind {
            LineKind::Fine => {
                console.ok(lines[i].pieces.as_slice());
            },
            LineKind::Data => {
                console.data(lines[i].pieces.as_slice());
            },
            LineKind::Error => {
                console.error(lines[i].pieces.as_slice());
            },
        }
        i += 1;
    }
    assert(all.take(i as int) =~= all);
    console.end();
}

// ---------------------------------------------------------------------------
// Laws
// ---------------------------------------------------------------------------

/// Nothing that the console says while keys are dropped reaches the screens.
pub proof fn busy_console_presses_nothing(
    command: CommandView,
    view_state: i32,
    menu_index: i32,
    wifi: Seq<char>,
    ftp: Seq<char>,
)
    requires
        !(command is Clear),
    ensures
        answered(command, true, view_state, menu_index, wifi, ftp).effect == KeyEffect::<
            Seq<char>,
        >::Nothing,
{
}

/// The console cannot open the USB disk, which would take the connector away from
/// it.
pub proof fn console_keeps_its_connector(
    discard: bool,
    key: DebugKey,
    wifi: Seq<char>,
    ftp: Seq<char>,
)
    ensures
        answered(
            CommandView::Key(key),
            discard,
            crate::screen::lines::VIEW_MENU,
            crate::screen::input::MENU_USB_DISK,
            wifi,
            ftp,
        ).effect != KeyEffect::<Seq<char>>::Press(crate::screen::input::ScreenKey::Enter),
{
}

// ---------------------------------------------------------------------------
// Laws of the answers
// ---------------------------------------------------------------------------

/// The pieces of a line, said one after another.
pub open spec fn spoken(pieces: Seq<Seq<char>>) -> Seq<char>
    decreases pieces.len(),
{
    if pieces.len() == 0 {
        Seq::empty()
    } else {
        pieces[0] + spoken(pieces.skip(1))
    }
}

proof fn spoken_together(a: Seq<Seq<char>>, b: Seq<Seq<char>>)
    ensures
        spoken(a + b) == spoken(a) + spoken(b),
    decreases a.len(),
{
    if a.len() == 0 {
        assert(a + b =~= b);
        assert(spoken(a) + spoken(b) =~= spoken(b));
    } else {
        spoken_together(a.skip(1), b);
        assert((a + b).skip(1) =~= a.skip(1) + b);
        assert(spoken(a + b) =~= spoken(a) + spoken(b));
    }
}

proof fn spoken_alone(piece: Seq<char>)
    ensures
        spoken(seq![piece]) == piece,
{
    reveal_with_fuel(spoken, 2);
    assert(spoken(seq![piece]) =~= piece);
}

proof fn spoken_with_label(label: Seq<char>, value: Seq<Seq<char>>)
    ensures
        spoken(labelled(label, value)) == label + spoken(value),
{
    spoken_together(seq![label], value);
    spoken_alone(label);
}

proof fn numbers_are_spoken(value: int)
    ensures
        spoken(signed_pieces(value)) == signed_decimal(value),
{
    if value < 0 {
        let digits = text::decimal((-value) as nat);
        spoken_together(seq!["-"@], seq![digits]);
        spoken_alone("-"@);
        spoken_alone(digits);
        assert(signed_pieces(value) =~= seq!["-"@] + seq![digits]);
    } else {
        spoken_alone(text::decimal(value as nat));
    }
}

/// The answers to the commands that need no more than a word, and what follows them.
pub proof fn commands_are_answered(
    discard: bool,
    view_state: i32,
    menu_index: i32,
    wifi: Seq<char>,
    ftp: Seq<char>,
    reason: Seq<char>,
)
    ensures
        ({
            let answer = answered(CommandView::Ping, discard, view_state, menu_index, wifi, ftp);
            &&& answer.lines.len() == 1
            &&& answer.lines[0].kind == LineKind::Fine
            &&& answer.lines[0].pieces == seq!["PONG protocol=1"@]
            &&& answer.effect is Nothing && answer.follow == FollowUp::Nothing
        }),
        ({
            let answer = answered(CommandView::Status, discard, view_state, menu_index, wifi, ftp);
            &&& answer.lines.len() == 0
            &&& answer.effect is Nothing && answer.follow == FollowUp::Status
        }),
        ({
            let answer = answered(CommandView::Reboot, discard, view_state, menu_index, wifi, ftp);
            &&& answer.lines.len() == 1
            &&& answer.lines[0].kind == LineKind::Fine
            &&& answer.lines[0].pieces == seq!["rebooting"@]
            &&& answer.effect is Nothing && answer.follow == FollowUp::Reboot
        }),
        ({
            let answer = answered(
                CommandView::Invalid(reason),
                discard,
                view_state,
                menu_index,
                wifi,
                ftp,
            );
            &&& answer.lines.len() == 1
            &&& answer.lines[0].kind == LineKind::Error
            &&& answer.lines[0].pieces == seq![reason]
            &&& answer.effect is Nothing && answer.follow == FollowUp::Nothing
        }),
{
}

/// Help is a line that says so and one for each command.
pub proof fn help_names_the_commands(i: int)
    ensures
        help_lines().len() == 7,
        help_lines()[0].kind == LineKind::Fine && help_lines()[0].pieces == seq!["commands"@],
        1 <= i < 7 ==> help_lines()[i].kind == LineKind::Data && help_lines()[i].pieces.len() == 1,
        help_lines()[1].pieces[0] == "PING"@,
        help_lines()[2].pieces[0] == "STATUS"@,
        help_lines()[3].pieces[0]
            == "KEY up|down|left|right|enter|back|backspace|delete|tab|space"@,
        help_lines()[4].pieces[0] == "TEXT <printable ASCII>"@,
        help_lines()[5].pieces[0] == "CLEAR"@,
        help_lines()[6].pieces[0] == "REBOOT"@,
{
}

/// A key does what it does on the screen and is answered once the screen has moved; text and
/// clearing are answered at once. What is refused has no effect.
pub proof fn keys_and_text_are_answered(
    key: DebugKey,
    added: Seq<char>,
    discard: bool,
    view_state: i32,
    menu_index: i32,
    wifi: Seq<char>,
    ftp: Seq<char>,
)
    ensures
        ({
            let answer = answered(
                CommandView::Key(key),
                discard,
                view_state,
                menu_index,
                wifi,
                ftp,
            );
            match key_refusal(discard, view_state, menu_index, key) {
                Some(reason) => answer.lines == seq![
                    LineView { kind: LineKind::Error, pieces: seq![reason] },
                ] && answer.effect is Nothing && answer.follow == FollowUp::Nothing,
                None => answer.lines.len() == 0 && answer.effect == debug_key_effect(
                    view_state,
                    key,
                    wifi,
                    ftp,
                ) && answer.follow == FollowUp::Key(key),
            }
        }),
        ({
            let answer = answered(
                CommandView::Text(added),
                false,
                view_state,
                menu_index,
                wifi,
                ftp,
            );
            &&& answer.follow == FollowUp::Nothing
            &&& match debug_text_effect(view_state, added, wifi, ftp) {
                Ok(effect) => answer.effect == effect && answer.lines == seq![
                    LineView { kind: LineKind::Fine, pieces: seq!["text_accepted"@] },
                ],
                Err(reason) => answer.effect is Nothing && answer.lines == seq![
                    LineView { kind: LineKind::Error, pieces: seq![reason] },
                ],
            }
        }),
        ({
            let answer = answered(CommandView::Text(added), true, view_state, menu_index, wifi, ftp);
            answer.effect is Nothing && answer.lines == seq![
                LineView { kind: LineKind::Error, pieces: seq!["input_busy"@] },
            ]
        }),
        ({
            let answer = answered(CommandView::Clear, discard, view_state, menu_index, wifi, ftp);
            &&& answer.follow == FollowUp::Nothing
            &&& match clear_effect(view_state) {
                Ok(done) => answer.effect == done.0 && answer.lines == seq![
                    LineView { kind: LineKind::Fine, pieces: seq![done.1] },
                ],
                Err(reason) => answer.effect is Nothing && answer.lines == seq![
                    LineView { kind: LineKind::Error, pieces: seq![reason] },
                ],
            }
        }),
{
}

/// Keys, radio states, states of the disk and kinds of security by name.
pub proof fn states_have_their_names()
    ensures
        key_label(DebugKey::Up) == "Up"@,
        key_label(DebugKey::Down) == "Down"@,
        key_label(DebugKey::Left) == "Left"@,
        key_label(DebugKey::Right) == "Right"@,
        key_label(DebugKey::Enter) == "Enter"@,
        key_label(DebugKey::Back) == "Back"@,
        key_label(DebugKey::Backspace) == "Backspace"@,
        key_label(DebugKey::Delete) == "Delete"@,
        key_label(DebugKey::Tab) == "Tab"@,
        key_label(DebugKey::Space) == "Space"@,
        radio_label(RadioState::Idle) == "idle"@,
        radio_label(RadioState::Scan) == "scan"@,
        radio_label(RadioState::Connect) == "connect"@,
        usb_label(UsbDiskState::Inactive) == "Inactive"@,
        usb_label(UsbDiskState::Waiting) == "Waiting"@,
        usb_label(UsbDiskState::Mounted) == "Mounted"@,
        usb_label(UsbDiskState::Ejected) == "Ejected"@,
        auth_label(AuthKind::Open) == "Open"@,
        auth_label(AuthKind::Wep) == "Wep"@,
        auth_label(AuthKind::Wpa) == "Wpa"@,
        auth_label(AuthKind::Wpa2) == "Wpa2"@,
        auth_label(AuthKind::WpaWpa2) == "WpaWpa2"@,
        yes_no(true) == "true"@,
        yes_no(false) == "false"@,
{
}

/// The answer to a key: which it was, and where it has led.
pub proof fn key_answer_is_told(key: DebugKey, view_state: i32)
    ensures
        spoken(key_answer(key, view_state)) == "key="@ + key_label(key) + " view="@
            + signed_decimal(view_state as int) + " name="@ + view_label(view_state),
{
    let one = labelled("key="@, seq![key_label(key)]);
    let two = labelled(" view="@, signed_pieces(view_state as int));
    let three = labelled(" name="@, seq![view_label(view_state)]);
    spoken_together(one + two, three);
    spoken_together(one, two);
    spoken_with_label("key="@, seq![key_label(key)]);
    spoken_with_label(" view="@, signed_pieces(view_state as int));
    spoken_with_label(" name="@, seq![view_label(view_state)]);
    spoken_alone(key_label(key));
    spoken_alone(view_label(view_state));
    numbers_are_spoken(view_state as int);
    assert(spoken(key_answer(key, view_state)) =~= "key="@ + key_label(key) + " view="@
        + signed_decimal(view_state as int) + " name="@ + view_label(view_state));
}

/// How long the device has run, and how much memory is free.
pub proof fn system_is_told(report: StatusReport)
    ensures
        spoken(system_line(report)) == "system uptime_ms="@ + text::decimal(report.uptime_ms as nat) + " heap_free="@ + text::decimal(report.heap_free as nat),
{
    let part0 = labelled("system uptime_ms="@, seq![text::decimal(report.uptime_ms as nat)]);
    let part1 = labelled(" heap_free="@, seq![text::decimal(report.heap_free as nat)]);
    spoken_together(part0, part1);
    spoken_with_label("system uptime_ms="@, seq![text::decimal(report.uptime_ms as nat)]);
    spoken_alone(text::decimal(report.uptime_ms as nat));
    spoken_with_label(" heap_free="@, seq![text::decimal(report.heap_free as nat)]);
    spoken_alone(text::decimal(report.heap_free as nat));
    assert(spoken(system_line(report)) =~= "system uptime_ms="@ + text::decimal(report.uptime_ms as nat) + " heap_free="@ + text::decimal(report.heap_free as nat));
}

/// The screen that is shown, and the places in its lists.
pub proof fn screen_is_told(report: StatusReport)
    ensures
        spoken(ui_line(report)) == "ui view="@ + signed_decimal(report.view_state as int) + " name="@ + view_label(report.view_state) + " menu="@ + signed_decimal(report.menu_index as int) + " wifi_menu="@ + signed_decimal(report.wifi_menu_index as int) + " saved="@ + signed_decimal(report.saved_index as int) + " scan="@ + signed_decimal(report.scan_index as int),
{
    let part0 = labelled("ui view="@, signed_pieces(report.view_state as int));
    let part1 = labelled(" name="@, seq![view_label(report.view_state)]);
    let part2 = labelled(" menu="@, signed_pieces(report.menu_index as int));
    let part3 = labelled(" wifi_menu="@, signed_pieces(report.wifi_menu_index as int));
    let part4 = labelled(" saved="@, signed_pieces(report.saved_index as int));
    let part5 = labelled(" scan="@, signed_pieces(report.scan_index as int));
    spoken_together(part0, part1);
    spoken_together(part0 + part1, part2);
    spoken_together(part0 + part1 + part2, part3);
    spoken_together(part0 + part1 + part2 + part3, part4);
    spoken_together(part0 + part1 + part2 + part3 + part4, part5);
    spoken_with_label("ui view="@, signed_pieces(report.view_state as int));
    numbers_are_spoken(report.view_state as int);
    spoken_with_label(" name="@, seq![view_label(report.view_state)]);
    spoken_alone(view_label(report.view_state));
    spoken_with_label(" menu="@, signed_pieces(report.menu_index as int));
    numbers_are_spoken(report.menu_index as int);
    spoken_with_label(" wifi_menu="@, signed_pieces(report.wifi_menu_index as int));
    numbers_are_spoken(report.wifi_menu_index as int);
    spoken_with_label(" saved="@, signed_pieces(report.saved_index as int));
    numbers_are_spoken(report.saved_index as int);
    spoken_with_label(" scan="@, signed_pieces(report.scan_index as int));
    numbers_are_spoken(report.scan_index as int);
    assert(spoken(ui_line(report)) =~= "ui view="@ + signed_decimal(report.view_state as int) + " name="@ + view_label(report.view_state) + " menu="@ + signed_decimal(report.menu_index as int) + " wifi_menu="@ + signed_decimal(report.wifi_menu_index as int) + " saved="@ + signed_decimal(report.saved_index as int) + " scan="@ + signed_decimal(report.scan_index as int));
}

/// The bars of the link, what the radio does, and what the Wi-Fi screen says.
pub proof fn radio_is_told(report: StatusReport)
    ensures
        spoken(wifi_line(report)) == "wifi link="@ + signed_decimal(report.link_state as int) + " radio="@ + radio_label(report.radio) + " status="@ + spoken(text::quoted(report.wifi_status@)),
{
    let part0 = labelled("wifi link="@, signed_pieces(report.link_state as int));
    let part1 = labelled(" radio="@, seq![radio_label(report.radio)]);
    let part2 = labelled(" status="@, text::quoted(report.wifi_status@));
    spoken_together(part0, part1);
    spoken_together(part0 + part1, part2);
    spoken_with_label("wifi link="@, signed_pieces(report.link_state as int));
    numbers_are_spoken(report.link_state as int);
    spoken_with_label(" radio="@, seq![radio_label(report.radio)]);
    spoken_alone(radio_label(report.radio));
    spoken_with_label(" status="@, text::quoted(report.wifi_status@));
    assert(spoken(wifi_line(report)) =~= "wifi link="@ + signed_decimal(report.link_state as int) + " radio="@ + radio_label(report.radio) + " status="@ + spoken(text::quoted(report.wifi_status@)));
}

/// Who has the card.
pub proof fn card_is_told(report: StatusReport)
    ensures
        spoken(storage_line(report)) == "storage mounted="@ + yes_no(report.storage_mounted) + " usb_exported="@ + yes_no(report.usb_exported),
{
    let part0 = labelled("storage mounted="@, seq![yes_no(report.storage_mounted)]);
    let part1 = labelled(" usb_exported="@, seq![yes_no(report.usb_exported)]);
    spoken_together(part0, part1);
    spoken_with_label("storage mounted="@, seq![yes_no(report.storage_mounted)]);
    spoken_alone(yes_no(report.storage_mounted));
    spoken_with_label(" usb_exported="@, seq![yes_no(report.usb_exported)]);
    spoken_alone(yes_no(report.usb_exported));
    assert(spoken(storage_line(report)) =~= "storage mounted="@ + yes_no(report.storage_mounted) + " usb_exported="@ + yes_no(report.usb_exported));
}

/// The state of the disk, and what its screen says.
pub proof fn disk_is_told(report: StatusReport)
    ensures
        spoken(usb_line(report)) == "usb state="@ + usb_label(report.usb_state) + " status="@ + spoken(text::quoted(report.usb_status@)),
{
    let part0 = labelled("usb state="@, seq![usb_label(report.usb_state)]);
    let part1 = labelled(" status="@, text::quoted(report.usb_status@));
    spoken_together(part0, part1);
    spoken_with_label("usb state="@, seq![usb_label(report.usb_state)]);
    spoken_alone(usb_label(report.usb_state));
    spoken_with_label(" status="@, text::quoted(report.usb_status@));
    assert(spoken(usb_line(report)) =~= "usb state="@ + usb_label(report.usb_state) + " status="@ + spoken(text::quoted(report.usb_status@)));
}

/// What the FTP screen says, whom it serves, and where.
pub proof fn server_is_told(report: StatusReport)
    ensures
        spoken(ftp_line(report)) == "ftp state="@ + spoken(text::quoted(report.ftp_status@)) + " peer="@ + spoken(some_text(report.ftp_peer)) + " address="@ + spoken(text::quoted(report.ftp_addr@)),
{
    let part0 = labelled("ftp state="@, text::quoted(report.ftp_status@));
    let part1 = labelled(" peer="@, some_text(report.ftp_peer));
    let part2 = labelled(" address="@, text::quoted(report.ftp_addr@));
    spoken_together(part0, part1);
    spoken_together(part0 + part1, part2);
    spoken_with_label("ftp state="@, text::quoted(report.ftp_status@));
    spoken_with_label(" peer="@, some_text(report.ftp_peer));
    spoken_with_label(" address="@, text::quoted(report.ftp_addr@));
    assert(spoken(ftp_line(report)) =~= "ftp state="@ + spoken(text::quoted(report.ftp_status@)) + " peer="@ + spoken(some_text(report.ftp_peer)) + " address="@ + spoken(text::quoted(report.ftp_addr@)));
}

/// The clock, whether it was set, the battery, and the network in the top bar.
pub proof fn top_bar_is_told(report: StatusReport)
    ensures
        spoken(top_line(report)) == "top clock="@ + spoken(text::quoted(report.clock_text@)) + " synced="@ + yes_no(report.clock_synced) + " battery="@ + signed_decimal(report.battery_percent as int) + " ssid="@ + spoken(text::quoted(report.link_ssid@)),
{
    let part0 = labelled("top clock="@, text::quoted(report.clock_text@));
    let part1 = labelled(" synced="@, seq![yes_no(report.clock_synced)]);
    let part2 = labelled(" battery="@, signed_pieces(report.battery_percent as int));
    let part3 = labelled(" ssid="@, text::quoted(report.link_ssid@));
    spoken_together(part0, part1);
    spoken_together(part0 + part1, part2);
    spoken_together(part0 + part1 + part2, part3);
    spoken_with_label("top clock="@, text::quoted(report.clock_text@));
    spoken_with_label(" synced="@, seq![yes_no(report.clock_synced)]);
    spoken_alone(yes_no(report.clock_synced));
    spoken_with_label(" battery="@, signed_pieces(report.battery_percent as int));
    numbers_are_spoken(report.battery_percent as int);
    spoken_with_label(" ssid="@, text::quoted(report.link_ssid@));
    assert(spoken(top_line(report)) =~= "top clock="@ + spoken(text::quoted(report.clock_text@)) + " synced="@ + yes_no(report.clock_synced) + " battery="@ + signed_decimal(report.battery_percent as int) + " ssid="@ + spoken(text::quoted(report.link_ssid@)));
}

/// How many networks are saved and found.
pub proof fn lists_are_counted(report: StatusReport)
    ensures
        spoken(lists_line(report)) == "lists saved="@ + text::decimal(report.saved@.len()) + " scan="@ + text::decimal(report.scanned@.len()),
{
    let part0 = labelled("lists saved="@, seq![text::decimal(report.saved@.len())]);
    let part1 = labelled(" scan="@, seq![text::decimal(report.scanned@.len())]);
    spoken_together(part0, part1);
    spoken_with_label("lists saved="@, seq![text::decimal(report.saved@.len())]);
    spoken_alone(text::decimal(report.saved@.len()));
    spoken_with_label(" scan="@, seq![text::decimal(report.scanned@.len())]);
    spoken_alone(text::decimal(report.scanned@.len()));
    assert(spoken(lists_line(report)) =~= "lists saved="@ + text::decimal(report.saved@.len()) + " scan="@ + text::decimal(report.scanned@.len()));
}

/// A saved network: its place, name and security, and never its password.
pub proof fn saved_network_is_told(index: int, network: NetworkView)
    ensures
        spoken(saved_line(index, network)) == "saved index="@ + text::decimal(index as nat) + " ssid="@ + spoken(text::quoted(network.ssid)) + " auth="@ + auth_label(network.auth),
{
    let part0 = labelled("saved index="@, seq![text::decimal(index as nat)]);
    let part1 = labelled(" ssid="@, text::quoted(network.ssid));
    let part2 = labelled(" auth="@, seq![auth_label(network.auth)]);
    spoken_together(part0, part1);
    spoken_together(part0 + part1, part2);
    spoken_with_label("saved index="@, seq![text::decimal(index as nat)]);
    spoken_alone(text::decimal(index as nat));
    spoken_with_label(" ssid="@, text::quoted(network.ssid));
    spoken_with_label(" auth="@, seq![auth_label(network.auth)]);
    spoken_alone(auth_label(network.auth));
    assert(spoken(saved_line(index, network)) =~= "saved index="@ + text::decimal(index as nat) + " ssid="@ + spoken(text::quoted(network.ssid)) + " auth="@ + auth_label(network.auth));
}

/// A network that was found: its place, name, strength and security.
pub proof fn found_network_is_told(index: int, network: ScanView)
    ensures
        spoken(found_line(index, network)) == "scan index="@ + text::decimal(index as nat) + " ssid="@ + spoken(text::quoted(network.ssid)) + " rssi="@ + signed_decimal(network.signal_strength as int) + " auth="@ + auth_label(network.auth) + " supported="@ + yes_no(network.supported),
{
    let part0 = labelled("scan index="@, seq![text::decimal(index as nat)]);
    let part1 = labelled(" ssid="@, text::quoted(network.ssid));
    let part2 = labelled(" rssi="@, signed_pieces(network.signal_strength as int));
    let part3 = labelled(" auth="@, seq![auth_label(network.auth)]);
    let part4 = labelled(" supported="@, seq![yes_no(network.supported)]);
    spoken_together(part0, part1);
    spoken_together(part0 + part1, part2);
    spoken_together(part0 + part1 + part2, part3);
    spoken_together(part0 + part1 + part2 + part3, part4);
    spoken_with_label("scan index="@, seq![text::decimal(index as nat)]);
    spoken_alone(text::decimal(index as nat));
    spoken_with_label(" ssid="@, text::quoted(network.ssid));
    spoken_with_label(" rssi="@, signed_pieces(network.signal_strength as int));
    numbers_are_spoken(network.signal_strength as int);
    spoken_with_label(" auth="@, seq![auth_label(network.auth)]);
    spoken_alone(auth_label(network.auth));
    spoken_with_label(" supported="@, seq![yes_no(network.supported)]);
    spoken_alone(yes_no(network.supported));
    assert(spoken(found_line(index, network)) =~= "scan index="@ + text::decimal(index as nat) + " ssid="@ + spoken(text::quoted(network.ssid)) + " rssi="@ + signed_decimal(network.signal_strength as int) + " auth="@ + auth_label(network.auth) + " supported="@ + yes_no(network.supported));
}

/// The link, the network and the address, in the form of a value that may be missing.
pub proof fn network_is_told(report: StatusReport, ip: Ipv4, peer: &str)
    ensures
        report.network is None ==> spoken(network_line(report)) == "network unavailable"@,
        report.network matches Some(network) ==> spoken(network_line(report))
            == "network link_up="@ + yes_no(network.link_up) + " online="@ + yes_no(network.online)
            + " ipv4="@ + spoken(some_address(network.ipv4)),
        spoken(some_address(None)) == "None"@,
        spoken(some_address(Some(ip))) == "Some"@ + seq!['('] + dotted(ip) + seq![')'],
        spoken(some_text(None)) == "None"@,
        spoken(some_text(Some(peer))) == "Some"@ + seq!['('] + spoken(text::quoted(peer@))
            + seq![')'],
{
    spoken_alone("network unavailable"@);
    spoken_alone("None"@);
    if report.network is Some {
        let network = report.network->Some_0;
        let one = labelled("network link_up="@, seq![yes_no(network.link_up)]);
        let two = labelled(" online="@, seq![yes_no(network.online)]);
        let three = labelled(" ipv4="@, some_address(network.ipv4));
        spoken_together(one + two, three);
        spoken_together(one, two);
        spoken_with_label("network link_up="@, seq![yes_no(network.link_up)]);
        spoken_with_label(" online="@, seq![yes_no(network.online)]);
        spoken_with_label(" ipv4="@, some_address(network.ipv4));
        spoken_alone(yes_no(network.link_up));
        spoken_alone(yes_no(network.online));
        assert(spoken(network_line(report)) =~= "network link_up="@ + yes_no(network.link_up)
            + " online="@ + yes_no(network.online) + " ipv4="@ + spoken(
            some_address(network.ipv4),
        ));
    }
    brackets_are_spoken(address_pieces(ip));
    brackets_are_spoken(text::quoted(peer@));
    let pieces = address_pieces(ip);
    reveal_with_fuel(spoken, 8);
    assert(spoken(pieces) =~= dotted(ip));
}

proof fn brackets_are_spoken(value: Seq<Seq<char>>)
    ensures
        spoken(some_of(value)) == "Some"@ + seq!['('] + spoken(value) + seq![')'],
{
    reveal_strlit("(");
    reveal_strlit(")");
    let first = seq!["Some"@, "("@];
    spoken_together(first + value, seq![")"@]);
    spoken_together(first, value);
    spoken_together(seq!["Some"@], seq!["("@]);
    spoken_alone("Some"@);
    spoken_alone("("@);
    spoken_alone(")"@);
    assert(first =~= seq!["Some"@] + seq!["("@]);
    assert(spoken(some_of(value)) =~= "Some"@ + seq!['('] + spoken(value) + seq![')']);
}

/// The whole status: a line that says so, nine about the device, and one for each network, saved
/// ones first.
pub proof fn status_tells_all(report: StatusReport, i: int)
    ensures
        ({
            let lines = status_text(report);
            &&& lines.len() == 10 + report.saved@.len() + report.scanned@.len()
            &&& lines[0].kind == LineKind::Fine && lines[0].pieces == seq!["status"@]
            &&& 1 <= i < lines.len() ==> lines[i].kind == LineKind::Data
            &&& lines[1].pieces == system_line(report)
            &&& lines[2].pieces == ui_line(report)
            &&& lines[3].pieces == wifi_line(report)
            &&& lines[4].pieces == network_line(report)
            &&& lines[5].pieces == storage_line(report)
            &&& lines[6].pieces == usb_line(report)
            &&& lines[7].pieces == ftp_line(report)
            &&& lines[8].pieces == top_line(report)
            &&& lines[9].pieces == lists_line(report)
            &&& 10 <= i < 10 + report.saved@.len() ==> lines[i].pieces == saved_line(
                i - 10,
                report.saved@[i - 10]@,
            )
            &&& 10 + report.saved@.len() <= i < lines.len() ==> lines[i].pieces == found_line(
                i - 10 - report.saved@.len(),
                report.scanned@[i - 10 - report.saved@.len()]@,
            )
        }),
{
}

/// Each kind of line has its prefix.
pub proof fn lines_have_their_prefix()
    ensures
        line_prefix(LineKind::Fine) == "[rat] OK "@,
        line_prefix(LineKind::Data) == "[rat] "@,
        line_prefix(LineKind::Error) == "[rat] ERROR "@,
{
}

/// An answer goes out line after line, and the prompt behind it.
pub proof fn answers_end_with_the_prompt(v: ConsoleView, lines: Seq<LineView>, line: LineView)
    ensures
        answer_sent(v, lines) == crate::debug::prompted(
            ConsoleView { tx: lines_queued(v.tx, lines), ..v },
        ),
        lines_queued(v.tx, Seq::empty()) == v.tx,
        lines_queued(v.tx, lines.push(line)) == message_queued(
            lines_queued(v.tx, lines),
            line_prefix(line.kind),
            line.pieces,
        ),
{
    assert(lines.push(line).drop_last() =~= lines);
}

} // verus!
