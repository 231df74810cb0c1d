//! The lines that the screens show.

use crate::ftp::command::Ipv4;
use crate::ftp::session::{FtpStats, FtpStatus};
use crate::msc::scsi::Stats;
use crate::storage::{AuthKind, FtpConfig, NetworkView, WifiConfig, networks_view};
use crate::text;
use crate::wifi::{ScanNetwork, ScanView, scan_view};
use vstd::prelude::*;
use vstd::string::*;

verus! {

/// Characters of a network's name in a list.
pub const LIST_SSID_CHARS: usize = 18;

/// Characters of a network's name in the top bar.
pub const TOP_BAR_SSID_CHARS: usize = 15;

/// Characters of the login on the FTP screen.
pub const LOGIN_CHARS: usize = 27;

// ---------------------------------------------------------------------------
// Short text
// ---------------------------------------------------------------------------

/// What the font has for a character.
pub open spec fn glyph(c: char) -> char {
    if c <= '\u{7f}' {
        c
    } else {
        '?'
    }
}

/// The first characters of a text, in the characters that the font has.
pub open spec fn shortened(s: Seq<char>, max_chars: int) -> Seq<char> {
    s.take(if s.len() <= max_chars {
        s.len() as int
    } else {
        max_chars
    }).map_values(|c: char| glyph(c))
}

/// The first characters of a text; what the font lacks is a question mark.
pub fn truncate_ascii(text: &str, max_chars: usize) -> (out: String)
    ensures
        out@ == shortened(text@, max_chars as int),
{
    let chars = text::chars_of(text);
    let count: usize = if chars.len() <= max_chars {
        chars.len()
    } else {
        max_chars
    };
    let mut out = String::new();
    let mut i: usize = 0;
    while i < count
        invariant
            i <= count <= chars@.len(),
            out@ == chars@.take(i as int).map_values(|c: char| glyph(c)),
        decreases count - i,
    {
        let c = chars[i];
        out.push(
            if c <= '\u{7f}' {
                c
            } else {
                '?'
            },
        );
        i += 1;
        assert(out@ =~= chars@.take(i as int).map_values(|c: char| glyph(c)));
    }
    assert(out@ =~= shortened(text@, max_chars as int));
    out
}

/// A network's name in a list.
pub fn display_ssid(ssid: &str) -> (out: String)
    ensures
        out@ == shortened(ssid@, LIST_SSID_CHARS as int),
{
    truncate_ascii(ssid, LIST_SSID_CHARS)
}

// ---------------------------------------------------------------------------
// Lists of networks
// ---------------------------------------------------------------------------

/// The list of saved networks.
pub open spec fn saved_lines(networks: Seq<NetworkView>) -> Seq<Seq<char>> {
    networks.map_values(|network: NetworkView| shortened(network.ssid, LIST_SSID_CHARS as int))
}

/// The list of saved networks: their names.
pub fn saved_network_model(config: &WifiConfig) -> (lines: Vec<String>)
    ensures
        text::texts(lines@) == saved_lines(networks_view(config.networks@)),
{
    let mut lines: Vec<String> = Vec::new();
    let mut i: usize = 0;
    while i < config.networks.len()
        invariant
            i <= config.networks@.len(),
            lines@.len() == i,
            forall|j: int|
                0 <= j < i ==> (#[trigger] lines@[j])@ == shortened(
                    config.networks@[j].ssid@,
                    LIST_SSID_CHARS as int,
                ),
        decreases config.networks@.len() - i,
    {
        lines.push(display_ssid(config.networks[i].ssid.as_str()));
        i += 1;
    }
    assert(text::texts(lines@) =~= saved_lines(networks_view(config.networks@)));
    lines
}

/// An integer in decimal, with a sign if it is negative.
pub open spec fn signed_decimal(n: int) -> Seq<char> {
    if n < 0 {
        "-"@ + text::decimal((-n) as nat)
    } else {
        text::decimal(n as nat)
    }
}

pub(crate) fn signed_text(n: i64) -> (out: String)
    requires
        n > i64::MIN,
    ensures
        out@ == signed_decimal(n as int),
{
    if n < 0 {
        let mut out = "-".to_owned();
        let digits = text::decimal_text((-n) as u64);
        out.append(digits.as_str());
        out
    } else {
        text::decimal_text(n as u64)
    }
}

/// The mark behind a network: it wants a password, or cannot be joined.
pub open spec fn security_mark(network: ScanView) -> Seq<char> {
    if !network.supported {
        "!"@
    } else if network.auth == AuthKind::Open {
        " "@
    } else {
        "*"@
    }
}

/// A network in the list of scan results.
pub open spec fn scan_line(network: ScanView) -> Seq<char> {
    shortened(network.ssid, LIST_SSID_CHARS as int) + " "@ + signed_decimal(
        network.signal_strength as int,
    ) + " "@ + security_mark(network)
}

/// The list of scan results.
pub open spec fn scan_lines(networks: Seq<ScanView>) -> Seq<Seq<char>> {
    networks.map_values(|network: ScanView| scan_line(network))
}

fn scan_network_line(network: &ScanNetwork) -> (line: String)
    ensures
        line@ == scan_line(network@),
{
    let mut line = display_ssid(network.ssid.as_str());
    line.append(" ");
    let strength = signed_text(network.signal_strength as i64);
    line.append(strength.as_str());
    line.append(" ");
    line.append(
        if !network.supported {
            "!"
        } else if network.auth == AuthKind::Open {
            " "
        } else {
            "*"
        },
    );
    line
}

/// The list of scan results: name, signal strength and security.
pub fn scan_network_model(networks: &[ScanNetwork]) -> (lines: Vec<String>)
    ensures
        text::texts(lines@) == scan_lines(scan_view(networks@)),
{
    let mut lines: Vec<String> = Vec::new();
    let mut i: usize = 0;
    while i < networks.len()
        invariant
            i <= networks@.len(),
            lines@.len() == i,
            forall|j: int| 0 <= j < i ==> (#[trigger] lines@[j])@ == scan_line(networks@[j]@),
        decreases networks@.len() - i,
    {
        lines.push(scan_network_line(&networks[i]));
        i += 1;
    }
    assert(text::texts(lines@) =~= scan_lines(scan_view(networks@)));
    lines
}

// ---------------------------------------------------------------------------
// Views
// ---------------------------------------------------------------------------

pub const VIEW_MENU: i32 = 0;

pub const VIEW_RAT: i32 = 1;

pub const VIEW_WIFI_MENU: i32 = 2;

pub const VIEW_WIFI_PASSWORD: i32 = 5;

pub const VIEW_FTP: i32 = 8;

pub const VIEW_FTP_PASSWORD: i32 = 9;

/// The names of the views, by their number.
pub open spec fn view_names() -> Seq<Seq<char>> {
    seq![
        "menu"@,
        "rat"@,
        "wifi_menu"@,
        "wifi_saved"@,
        "wifi_scan"@,
        "wifi_password"@,
        "about"@,
        "usb_disk"@,
        "ftp"@,
        "ftp_password"@,
    ]
}

/// The name of a view.
pub open spec fn view_label(view: i32) -> Seq<char> {
    if 0 <= view < view_names().len() {
        view_names()[view as int]
    } else {
        "unknown"@
    }
}

/// The name of a view.
pub fn view_name(view: i32) -> (name: &'static str)
    ensures
        name@ == view_label(view),
{
    match view {
        0 => "menu",
        1 => "rat",
        2 => "wifi_menu",
        3 => "wifi_saved",
        4 => "wifi_scan",
        5 => "wifi_password",
        6 => "about",
        7 => "usb_disk",
        8 => "ftp",
        9 => "ftp_password",
        _ => "unknown",
    }
}

// ---------------------------------------------------------------------------
// Numbers
// ---------------------------------------------------------------------------

/// A number of bytes in KiB, or in MiB from one of them on.
pub open spec fn byte_size(bytes: nat) -> Seq<char> {
    if bytes < 1024 * 1024 {
        text::decimal(bytes / 1024) + "K"@
    } else {
        text::decimal(bytes / (1024 * 1024)) + "M"@
    }
}

pub fn byte_size_text(bytes: u64) -> (out: String)
    ensures
        out@ == byte_size(bytes as nat),
{
    if bytes < 1024 * 1024 {
        let mut out = text::decimal_text(bytes / 1024);
        out.append("K");
        out
    } else {
        let mut out = text::decimal_text(bytes / (1024 * 1024));
        out.append("M");
        out
    }
}

/// The traffic of the FTP server, and the free memory.
pub open spec fn ftp_traffic(stats: FtpStats, heap_free: nat) -> Seq<char> {
    "UP "@ + byte_size(stats.sent_bytes as nat) + "  DOWN "@ + byte_size(
        stats.received_bytes as nat,
    ) + "  FREE "@ + text::decimal(heap_free / 1024) + "K"@
}

pub fn ftp_stats_text(stats: FtpStats, heap_free: u64) -> (out: String)
    ensures
        out@ == ftp_traffic(stats, heap_free as nat),
{
    let mut out = "UP ".to_owned();
    let sent = byte_size_text(stats.sent_bytes);
    out.append(sent.as_str());
    out.append("  DOWN ");
    let received = byte_size_text(stats.received_bytes);
    out.append(received.as_str());
    out.append("  FREE ");
    let free = text::decimal_text(heap_free / 1024);
    out.append(free.as_str());
    out.append("K");
    out
}

/// A number of 512-byte blocks in KiB, or in MiB where that has five digits.
pub open spec fn block_size(blocks: nat) -> Seq<char> {
    if blocks / 2 < 10_000 {
        text::decimal(blocks / 2) + "K"@
    } else {
        text::decimal(blocks / 2 / 1024) + "M"@
    }
}

pub fn usb_size_text(blocks: u32) -> (out: String)
    ensures
        out@ == block_size(blocks as nat),
{
    let kib: u32 = blocks / 2;
    if kib < 10_000 {
        let mut out = text::decimal_text(kib as u64);
        out.append("K");
        out
    } else {
        let mut out = text::decimal_text((kib / 1024) as u64);
        out.append("M");
        out
    }
}

/// How many of a hundred blocks came from the cache.
pub open spec fn hit_rate(stats: Stats) -> nat {
    if stats.read_blocks == 0 {
        0
    } else {
        ((stats.cache_hit_blocks * 100) as nat / stats.read_blocks as nat) % 0x1_0000_0000
    }
}

/// The traffic of the USB disk, and how well its cache does.
pub open spec fn usb_traffic(stats: Stats) -> Seq<char> {
    "R "@ + block_size(stats.read_blocks as nat) + " W "@ + block_size(stats.write_blocks as nat)
        + " C "@ + text::decimal(hit_rate(stats)) + "%"@
}

/// `R 1234K W 56K C 87%`: what the host has read and written, and the hit rate of
/// the read cache.
pub fn usb_stats_text(stats: Stats) -> (out: String)
    ensures
        out@ == usb_traffic(stats),
{
    let hit: u32 = if stats.read_blocks == 0 {
        0
    } else {
        let rate: u64 = stats.cache_hit_blocks as u64 * 100 / stats.read_blocks as u64;
        assert(rate as u32 == rate % 0x1_0000_0000) by (bit_vector);
        rate as u32
    };
    let mut out = "R ".to_owned();
    let read = usb_size_text(stats.read_blocks);
    out.append(read.as_str());
    out.append(" W ");
    let written = usb_size_text(stats.write_blocks);
    out.append(written.as_str());
    out.append(" C ");
    let rate = text::decimal_text(hit as u64);
    out.append(rate.as_str());
    out.append("%");
    out
}

// ---------------------------------------------------------------------------
// FTP screen
// ---------------------------------------------------------------------------

/// The login on the FTP screen.
pub open spec fn login_line(user: Seq<char>, password: Seq<char>) -> Seq<char> {
    shortened("USER:"@ + user + " PASS:"@ + password, LOGIN_CHARS as int)
}

/// The login on the FTP screen; a long password is cut off there.
pub fn ftp_login_text(config: &FtpConfig) -> (out: String)
    ensures
        out@ == login_line(config.user@, config.password@),
{
    let mut line = "USER:".to_owned();
    line.append(config.user.as_str());
    line.append(" PASS:");
    line.append(config.password.as_str());
    truncate_ascii(line.as_str(), LOGIN_CHARS)
}

/// What the FTP server is doing: the file that it moves, or its state and who is
/// connected.
pub open spec fn ftp_state_line(
    status: FtpStatus,
    activity: Seq<char>,
    peer: Option<Seq<char>>,
) -> Seq<char> {
    if status == FtpStatus::Transfer && activity.len() > 0 {
        shortened(activity, 26)
    } else {
        match peer {
            Some(peer) => status.text() + " "@ + shortened(peer, 12),
            None => status.text(),
        }
    }
}

/// What the FTP server is doing.
pub fn ftp_state_text(status: FtpStatus, activity: &str, peer: Option<&str>) -> (out: String)
    ensures
        out@ == ftp_state_line(
            status,
            activity@,
            match peer {
                Some(peer) => Some(peer@),
                None => None,
            },
        ),
{
    if status == FtpStatus::Transfer && text::chars_of(activity).len() > 0 {
        return truncate_ascii(activity, 26);
    }
    match peer {
        Some(peer) => {
            let mut out = status.label().to_owned();
            out.append(" ");
            let who = truncate_ascii(peer, 12);
            out.append(who.as_str());
            out
        },
        None => status.label().to_owned(),
    }
}

/// The four numbers of an address with dots between them.
pub open spec fn dotted(ip: Ipv4) -> Seq<char> {
    text::decimal(ip.a as nat) + "."@ + text::decimal(ip.b as nat) + "."@ + text::decimal(
        ip.c as nat,
    ) + "."@ + text::decimal(ip.d as nat)
}

pub(crate) fn dotted_text(ip: Ipv4) -> (out: String)
    ensures
        out@ == dotted(ip),
{
    let mut out = text::decimal_text(ip.a as u64);
    out.append(".");
    let b = text::decimal_text(ip.b as u64);
    out.append(b.as_str());
    out.append(".");
    let c = text::decimal_text(ip.c as u64);
    out.append(c.as_str());
    out.append(".");
    let d = text::decimal_text(ip.d as u64);
    out.append(d.as_str());
    out
}

/// Where the FTP server can be reached.
pub open spec fn address_line(ip: Option<Ipv4>) -> Seq<char> {
    match ip {
        Some(ip) => "FTP://"@ + dotted(ip) + ":21"@,
        None => "NO IP YET"@,
    }
}

/// Where the FTP server can be reached.
pub fn ftp_address_text(ip: Option<Ipv4>) -> (out: String)
    ensures
        out@ == address_line(ip),
{
    match ip {
        Some(ip) => {
            let mut out = "FTP://".to_owned();
            let address = dotted_text(ip);
            out.append(address.as_str());
            out.append(":21");
            out
        },
        None => "NO IP YET".to_owned(),
    }
}

// ---------------------------------------------------------------------------
// Top bar
// ---------------------------------------------------------------------------

/// The time in the top bar.
pub open spec fn clock_line(time: Option<(u8, u8)>) -> Seq<char> {
    match time {
        Some((hours, minutes)) => text::zero_padded(hours as nat, 2) + ":"@ + text::zero_padded(
            minutes as nat,
            2,
        ),
        None => "--:--"@,
    }
}

/// The time in the top bar: hours and minutes, once it is known.
pub fn clock_text(time: Option<(u8, u8)>) -> (out: String)
    ensures
        out@ == clock_line(time),
{
    match time {
        Some((hours, minutes)) => {
            let mut out = text::zero_pad(hours as u64, 2);
            out.append(":");
            let minutes = text::zero_pad(minutes as u64, 2);
            out.append(minutes.as_str());
            out
        },
        None => "--:--".to_owned(),
    }
}

// ---------------------------------------------------------------------------
// Laws
// ---------------------------------------------------------------------------

/// A shortened text has the first characters of the text, with a question mark for each that is
/// not of the 128 the font has.
pub proof fn short_text_is_the_start(s: Seq<char>, max_chars: int, i: int)
    requires
        max_chars >= 0,
    ensures
        ({
            let out = shortened(s, max_chars);
            &&& out.len() <= max_chars
            &&& out.len() <= s.len()
            &&& s.len() <= max_chars ==> out.len() == s.len()
            &&& s.len() > max_chars ==> out.len() == max_chars
            &&& 0 <= i < out.len() && (s[i] as int) < 128 ==> out[i] == s[i]
            &&& 0 <= i < out.len() && (s[i] as int) >= 128 ==> out[i] == '?'
        }),
{
}

/// The lists show one line per network, in the order of the networks: the name, of which
/// eighteen characters fit, and of those found also the strength and a mark for the security.
pub proof fn lists_show_their_networks(
    saved: Seq<NetworkView>,
    found: Seq<ScanView>,
    i: int,
)
    ensures
        saved_lines(saved).len() == saved.len(),
        scan_lines(found).len() == found.len(),
        0 <= i < saved.len() ==> saved_lines(saved)[i] == shortened(saved[i].ssid, 18),
        0 <= i < found.len() ==> {
            let mark = if !found[i].supported {
                '!'
            } else if found[i].auth == AuthKind::Open {
                ' '
            } else {
                '*'
            };
            scan_lines(found)[i] == shortened(found[i].ssid, 18) + seq![' '] + signed_decimal(
                found[i].signal_strength as int,
            ) + seq![' ', mark]
        },
{
    reveal_strlit(" ");
    reveal_strlit("!");
    reveal_strlit("*");
    if 0 <= i < found.len() {
        let mark = if !found[i].supported {
            '!'
        } else if found[i].auth == AuthKind::Open {
            ' '
        } else {
            '*'
        };
        assert(security_mark(found[i]) =~= seq![mark]);
        assert(scan_lines(found)[i] =~= shortened(found[i].ssid, 18) + seq![' ']
            + signed_decimal(found[i].signal_strength as int) + seq![' ', mark]);
    }
}

/// A negative number is a minus sign before the number without it.
pub proof fn signs_stand_before_numbers(n: nat)
    ensures
        signed_decimal(n as int) == text::decimal(n),
        n > 0 ==> signed_decimal(-n) == seq!['-'] + text::decimal(n),
{
    reveal_strlit("-");
    assert("-"@ =~= seq!['-']);
}

/// Sizes are told in whole kilobytes up to a megabyte and in megabytes from there on; blocks of
/// the card, half a kilobyte each, up to ten thousand kilobytes.
pub proof fn sizes_are_rounded_down(bytes: nat, blocks: nat)
    ensures
        bytes < 1_048_576 ==> byte_size(bytes) == text::decimal(bytes / 1_024) + seq!['K'],
        bytes >= 1_048_576 ==> byte_size(bytes) == text::decimal(bytes / 1_048_576) + seq!['M'],
        blocks < 20_000 ==> block_size(blocks) == text::decimal(blocks / 2) + seq!['K'],
        blocks >= 20_000 ==> block_size(blocks) == text::decimal(blocks / 2_048) + seq!['M'],
{
    reveal_strlit("K");
    reveal_strlit("M");
    assert("K"@ =~= seq!['K']);
    assert("M"@ =~= seq!['M']);
    assert(blocks / 2 / 1_024 == blocks / 2_048);
}

/// The traffic lines: what went up and down and the memory that is free, and the blocks read and
/// written with the share of those found in the cache.
pub proof fn traffic_is_told(stats: FtpStats, heap_free: nat, blocks: Stats)
    ensures
        ftp_traffic(stats, heap_free) == "UP "@ + byte_size(stats.sent_bytes as nat) + "  DOWN "@
            + byte_size(stats.received_bytes as nat) + "  FREE "@ + text::decimal(
            heap_free / 1_024,
        ) + seq!['K'],
        usb_traffic(blocks) == "R "@ + block_size(blocks.read_blocks as nat) + " W "@
            + block_size(blocks.write_blocks as nat) + " C "@ + text::decimal(hit_rate(blocks))
            + seq!['%'],
        blocks.read_blocks == 0 ==> hit_rate(blocks) == 0,
        0 < blocks.read_blocks && blocks.cache_hit_blocks <= blocks.read_blocks ==> {
            &&& hit_rate(blocks) * blocks.read_blocks <= 100 * blocks.cache_hit_blocks
            &&& 100 * blocks.cache_hit_blocks < (hit_rate(blocks) + 1) * blocks.read_blocks
        },
{
    reveal_strlit("K");
    reveal_strlit("%");
    assert("K"@ =~= seq!['K']);
    assert("%"@ =~= seq!['%']);
    if 0 < blocks.read_blocks && blocks.cache_hit_blocks <= blocks.read_blocks {
        let hits = (blocks.cache_hit_blocks * 100) as nat;
        let reads = blocks.read_blocks as nat;
        let part = hits / reads;
        assert(part * reads <= hits < (part + 1) * reads && part <= 100) by (nonlinear_arith)
            requires
                reads > 0,
                hits <= 100 * reads,
                part == hits / reads,
        ;
        assert(hit_rate(blocks) == part);
    }
}

/// The screens by number.
pub proof fn screens_have_their_names(view: i32)
    ensures
        view_label(0) == "menu"@,
        view_label(1) == "rat"@,
        view_label(2) == "wifi_menu"@,
        view_label(3) == "wifi_saved"@,
        view_label(4) == "wifi_scan"@,
        view_label(5) == "wifi_password"@,
        view_label(6) == "about"@,
        view_label(7) == "usb_disk"@,
        view_label(8) == "ftp"@,
        view_label(9) == "ftp_password"@,
        view < 0 || view > 9 ==> view_label(view) == "unknown"@,
{
}

/// The lines of the FTP screen: the login in 27 characters, the address with its port, and the
/// state with the peer in 12, or in 26 what is being transferred.
pub proof fn server_lines_are_told(
    user: Seq<char>,
    password: Seq<char>,
    status: FtpStatus,
    activity: Seq<char>,
    peer: Seq<char>,
    ip: Ipv4,
)
    ensures
        login_line(user, password) == shortened("USER:"@ + user + " PASS:"@ + password, 27),
        address_line(None) == "NO IP YET"@,
        address_line(Some(ip)) == "FTP://"@ + text::decimal(ip.a as nat) + seq!['.']
            + text::decimal(ip.b as nat) + seq!['.'] + text::decimal(ip.c as nat) + seq!['.']
            + text::decimal(ip.d as nat) + seq![':', '2', '1'],
        activity.len() > 0 ==> ftp_state_line(FtpStatus::Transfer, activity, Some(peer))
            == shortened(activity, 26),
        status != FtpStatus::Transfer || activity.len() == 0 ==> ftp_state_line(
            status,
            activity,
            Some(peer),
        ) == status.text() + seq![' '] + shortened(peer, 12) && ftp_state_line(
            status,
            activity,
            None,
        ) == status.text(),
{
    reveal_strlit(".");
    reveal_strlit(" ");
    reveal_strlit(":21");
    assert("."@ =~= seq!['.']);
    assert(" "@ =~= seq![' ']);
    assert(":21"@ =~= seq![':', '2', '1']);
    assert(address_line(Some(ip)) =~= "FTP://"@ + text::decimal(ip.a as nat) + seq!['.']
        + text::decimal(ip.b as nat) + seq!['.'] + text::decimal(ip.c as nat) + seq!['.']
        + text::decimal(ip.d as nat) + seq![':', '2', '1']);
}

/// The clock shows two digits of hours and two of minutes, or dashes.
pub proof fn clock_shows_the_time(hours: u8, minutes: u8)
    requires
        hours < 24,
        minutes < 60,
    ensures
        ({
            let out = clock_line(Some((hours, minutes)));
            &&& out.len() == 5
            &&& text::number_value(out.subrange(0, 2)) == Some(hours as nat)
            &&& out[2] == ':'
            &&& text::number_value(out.subrange(3, 5)) == Some(minutes as nat)
        }),
        clock_line(None) == seq!['-', '-', ':', '-', '-'],
{
    reveal_strlit(":");
    reveal_strlit("--:--");
    assert("--:--"@ =~= seq!['-', '-', ':', '-', '-']);
    text::zero_padding_keeps_the_number(hours as nat, 2);
    text::zero_padding_keeps_the_number(minutes as nat, 2);
    let out = clock_line(Some((hours, minutes)));
    assert(out.subrange(0, 2) =~= text::zero_padded(hours as nat, 2));
    assert(out.subrange(3, 5) =~= text::zero_padded(minutes as nat, 2));
}

} // verus!
