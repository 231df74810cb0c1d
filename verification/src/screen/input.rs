//! Keys: of the keyboard, and those that the console presses for the user.
//!
//! Two screens edit a password in the firmware; everywhere else a key goes to the
//! screen by its name.

use crate::debug::DebugKey;
use crate::screen::lines::{VIEW_FTP_PASSWORD, VIEW_MENU, VIEW_WIFI_PASSWORD};
use crate::storage::is_credential;
use crate::text;
use vstd::prelude::*;
use vstd::string::*;
use vstd::utf8::*;

verus! {

/// Longest Wi-Fi password in bytes.
pub const WIFI_PASSWORD_LEN: usize = 64;

/// Longest FTP password in bytes.
pub const FTP_PASSWORD_LEN: usize = 32;

/// The entry of the main menu that opens the USB disk.
pub const MENU_USB_DISK: i32 = 2;

#[derive(Clone, Copy, Debug, PartialEq, Eq, Structural)]
pub enum Arrow {
    Up,
    Down,
    Left,
    Right,
}

/// What the keyboard reports.
#[derive(Clone, Copy, Debug, PartialEq, Eq, Structural)]
pub enum KeyInput {
    /// A character, with Shift and Fn applied.
    Char(char),
    Enter,
    Backspace,
    Delete,
    Tab,
    Escape,
    Arrow(Arrow),
    Modifier,
}

/// A key as the screens know it.
#[derive(Clone, Copy, Debug, PartialEq, Eq, Structural)]
pub enum ScreenKey {
    Up,
    Down,
    Left,
    Right,
    Enter,
    Back,
    Delete,
    Tab,
    Space,
}

impl ScreenKey {
    /// The name by which the screens know the key.
    pub open spec fn text(self) -> Seq<char> {
        match self {
            ScreenKey::Up => "up"@,
            ScreenKey::Down => "down"@,
            ScreenKey::Left => "left"@,
            ScreenKey::Right => "right"@,
            ScreenKey::Enter => "enter"@,
            ScreenKey::Back => "back"@,
            ScreenKey::Delete => "delete"@,
            ScreenKey::Tab => "tab"@,
            ScreenKey::Space => "space"@,
        }
    }

    pub fn name(self) -> (name: &'static str)
        ensures
            name@ == self.text(),
    {
        match self {
            ScreenKey::Up => "up",
            ScreenKey::Down => "down",
            ScreenKey::Left => "left",
            ScreenKey::Right => "right",
            ScreenKey::Enter => "enter",
            ScreenKey::Back => "back",
            ScreenKey::Delete => "delete",
            ScreenKey::Tab => "tab",
            ScreenKey::Space => "space",
        }
    }
}

/// What a key leads to.
pub enum KeyEffect<T> {
    Nothing,
    /// The screen gets the key.
    Press(ScreenKey),
    /// The Wi-Fi password changes.
    WifiPassword(T),
    /// The FTP password changes.
    FtpPassword(T),
}

impl KeyEffect<String> {
    pub open spec fn view(self) -> KeyEffect<Seq<char>> {
        match self {
            KeyEffect::Nothing => KeyEffect::Nothing,
            KeyEffect::Press(key) => KeyEffect::Press(key),
            KeyEffect::WifiPassword(password) => KeyEffect::WifiPassword(password@),
            KeyEffect::FtpPassword(password) => KeyEffect::FtpPassword(password@),
        }
    }
}

/// The Wi-Fi and the FTP password while they are edited.
pub struct Passwords<'a> {
    pub wifi: &'a str,
    pub ftp: &'a str,
}

// ---------------------------------------------------------------------------
// Editing
// ---------------------------------------------------------------------------

/// A text without its last character.
pub open spec fn shorter(s: Seq<char>) -> Seq<char> {
    if s.len() == 0 {
        s
    } else {
        s.drop_last()
    }
}

/// A character for a Wi-Fi password: printable ASCII.
pub open spec fn is_printable(c: char) -> bool {
    ' ' <= c <= '~'
}

/// What a character does to the password that is edited.
pub open spec fn typed(view: i32, c: char, wifi: Seq<char>, ftp: Seq<char>) -> KeyEffect<Seq<char>> {
    if view == VIEW_WIFI_PASSWORD {
        if is_printable(c) && text::byte_len(wifi) < WIFI_PASSWORD_LEN {
            KeyEffect::WifiPassword(wifi.push(c))
        } else {
            KeyEffect::Nothing
        }
    } else if text::is_graphic(c) && text::byte_len(ftp) < FTP_PASSWORD_LEN {
        KeyEffect::FtpPassword(ftp.push(c))
    } else {
        KeyEffect::Nothing
    }
}

/// What the backspace key leads to.
pub open spec fn backspaced(view: i32, wifi: Seq<char>, ftp: Seq<char>) -> KeyEffect<Seq<char>> {
    if view == VIEW_WIFI_PASSWORD {
        KeyEffect::WifiPassword(shorter(wifi))
    } else if view == VIEW_FTP_PASSWORD {
        KeyEffect::FtpPassword(shorter(ftp))
    } else {
        KeyEffect::Press(ScreenKey::Back)
    }
}

/// Outside text entry the bare `,` `;` `.` `/` keys act as arrows.
pub open spec fn plain_key(c: char) -> KeyEffect<Seq<char>> {
    if c == ' ' {
        KeyEffect::Press(ScreenKey::Space)
    } else if c == ',' {
        KeyEffect::Press(ScreenKey::Left)
    } else if c == ';' {
        KeyEffect::Press(ScreenKey::Up)
    } else if c == '.' {
        KeyEffect::Press(ScreenKey::Down)
    } else if c == '/' {
        KeyEffect::Press(ScreenKey::Right)
    } else {
        KeyEffect::Nothing
    }
}

/// What a key of the keyboard leads to. While the splash screen is up or the radio
/// works, keys are dropped.
pub open spec fn key_effect(
    discard: bool,
    view: i32,
    input: KeyInput,
    wifi: Seq<char>,
    ftp: Seq<char>,
) -> KeyEffect<Seq<char>> {
    if discard {
        KeyEffect::Nothing
    } else {
        match input {
            KeyInput::Char(c) => if view == VIEW_WIFI_PASSWORD || view == VIEW_FTP_PASSWORD {
                typed(view, c, wifi, ftp)
            } else {
                plain_key(c)
            },
            KeyInput::Modifier => KeyEffect::Nothing,
            KeyInput::Enter => KeyEffect::Press(ScreenKey::Enter),
            KeyInput::Backspace => backspaced(view, wifi, ftp),
            KeyInput::Escape => KeyEffect::Press(ScreenKey::Back),
            KeyInput::Delete => KeyEffect::Press(ScreenKey::Delete),
            KeyInput::Tab => KeyEffect::Press(ScreenKey::Tab),
            KeyInput::Arrow(Arrow::Up) => KeyEffect::Press(ScreenKey::Up),
            KeyInput::Arrow(Arrow::Down) => KeyEffect::Press(ScreenKey::Down),
            KeyInput::Arrow(Arrow::Left) => KeyEffect::Press(ScreenKey::Left),
            KeyInput::Arrow(Arrow::Right) => KeyEffect::Press(ScreenKey::Right),
        }
    }
}

fn shorten(password: &str) -> (out: String)
    ensures
        out@ == shorter(password@),
{
    let chars = text::chars_of(password);
    if chars.len() == 0 {
        return String::new();
    }
    let out = text::string_of(chars.as_slice(), 0, chars.len() - 1);
    assert(out@ =~= password@.drop_last());
    out
}

fn extend(password: &str, c: char) -> (out: String)
    ensures
        out@ == password@.push(c),
{
    let mut out = password.to_owned();
    out.push(c);
    out
}

fn backspace(view: i32, passwords: &Passwords) -> (effect: KeyEffect<String>)
    ensures
        effect.view() == backspaced(view, passwords.wifi@, passwords.ftp@),
{
    if view == VIEW_WIFI_PASSWORD {
        KeyEffect::WifiPassword(shorten(passwords.wifi))
    } else if view == VIEW_FTP_PASSWORD {
        KeyEffect::FtpPassword(shorten(passwords.ftp))
    } else {
        KeyEffect::Press(ScreenKey::Back)
    }
}

fn type_char(view: i32, c: char, passwords: &Passwords) -> (effect: KeyEffect<String>)
    ensures
        effect.view() == typed(view, c, passwords.wifi@, passwords.ftp@),
{
    if view == VIEW_WIFI_PASSWORD {
        if ' ' <= c && c <= '~' && text::byte_length(passwords.wifi) < WIFI_PASSWORD_LEN {
            KeyEffect::WifiPassword(extend(passwords.wifi, c))
        } else {
            KeyEffect::Nothing
        }
    } else if '!' <= c && c <= '~' && text::byte_length(passwords.ftp) < FTP_PASSWORD_LEN {
        KeyEffect::FtpPassword(extend(passwords.ftp, c))
    } else {
        KeyEffect::Nothing
    }
}

/// What a key of the keyboard leads to.
pub fn route_key(discard: bool, view: i32, input: KeyInput, passwords: &Passwords) -> (effect:
    KeyEffect<String>)
    ensures
        effect.view() == key_effect(discard, view, input, passwords.wifi@, passwords.ftp@),
{
    if discard {
        return KeyEffect::Nothing;
    }
    match input {
        KeyInput::Char(c) => {
            if view == VIEW_WIFI_PASSWORD || view == VIEW_FTP_PASSWORD {
                type_char(view, c, passwords)
            } else if c == ' ' {
                KeyEffect::Press(ScreenKey::Space)
            } else if c == ',' {
                KeyEffect::Press(ScreenKey::Left)
            } else if c == ';' {
                KeyEffect::Press(ScreenKey::Up)
            } else if c == '.' {
                KeyEffect::Press(ScreenKey::Down)
            } else if c == '/' {
                KeyEffect::Press(ScreenKey::Right)
            } else {
                KeyEffect::Nothing
            }
        },
        KeyInput::Modifier => KeyEffect::Nothing,
        KeyInput::Enter => KeyEffect::Press(ScreenKey::Enter),
        KeyInput::Backspace => backspace(view, passwords),
        KeyInput::Escape => KeyEffect::Press(ScreenKey::Back),
        KeyInput::Delete => KeyEffect::Press(ScreenKey::Delete),
        KeyInput::Tab => KeyEffect::Press(ScreenKey::Tab),
        KeyInput::Arrow(Arrow::Up) => KeyEffect::Press(ScreenKey::Up),
        KeyInput::Arrow(Arrow::Down) => KeyEffect::Press(ScreenKey::Down),
        KeyInput::Arrow(Arrow::Left) => KeyEffect::Press(ScreenKey::Left),
        KeyInput::Arrow(Arrow::Right) => KeyEffect::Press(ScreenKey::Right),
    }
}

// ---------------------------------------------------------------------------
// Keys and text of the console
// ---------------------------------------------------------------------------

/// What a key of the console leads to.
pub open spec fn debug_key_effect(
    view: i32,
    key: DebugKey,
    wifi: Seq<char>,
    ftp: Seq<char>,
) -> KeyEffect<Seq<char>> {
    match key {
        DebugKey::Up => KeyEffect::Press(ScreenKey::Up),
        DebugKey::Down => KeyEffect::Press(ScreenKey::Down),
        DebugKey::Left => KeyEffect::Press(ScreenKey::Left),
        DebugKey::Right => KeyEffect::Press(ScreenKey::Right),
        DebugKey::Enter => KeyEffect::Press(ScreenKey::Enter),
        DebugKey::Back => KeyEffect::Press(ScreenKey::Back),
        DebugKey::Delete => KeyEffect::Press(ScreenKey::Delete),
        DebugKey::Tab => KeyEffect::Press(ScreenKey::Tab),
        DebugKey::Space => KeyEffect::Press(ScreenKey::Space),
        DebugKey::Backspace => backspaced(view, wifi, ftp),
    }
}

/// What a key of the console leads to.
pub fn apply_debug_key(view: i32, key: DebugKey, passwords: &Passwords) -> (effect: KeyEffect<
    String,
>)
    ensures
        effect.view() == debug_key_effect(view, key, passwords.wifi@, passwords.ftp@),
{
    match key {
        DebugKey::Up => KeyEffect::Press(ScreenKey::Up),
        DebugKey::Down => KeyEffect::Press(ScreenKey::Down),
        DebugKey::Left => KeyEffect::Press(ScreenKey::Left),
        DebugKey::Right => KeyEffect::Press(ScreenKey::Right),
        DebugKey::Enter => KeyEffect::Press(ScreenKey::Enter),
        DebugKey::Back => KeyEffect::Press(ScreenKey::Back),
        DebugKey::Delete => KeyEffect::Press(ScreenKey::Delete),
        DebugKey::Tab => KeyEffect::Press(ScreenKey::Tab),
        DebugKey::Space => KeyEffect::Press(ScreenKey::Space),
        DebugKey::Backspace => backspace(view, passwords),
    }
}

/// Why a key of the console is refused, if it is. Opening the USB disk takes the
/// connector away from the console, which could then not close it again.
pub open spec fn key_refusal(discard: bool, view: i32, menu_index: i32, key: DebugKey) -> Option<
    Seq<char>,
> {
    if discard {
        Some("input_busy"@)
    } else if key == DebugKey::Enter && view == VIEW_MENU && menu_index == MENU_USB_DISK {
        Some("usb_disk_requires_physical_input"@)
    } else {
        None
    }
}

/// Why a key of the console is refused, if it is.
pub fn refuse_debug_key(discard: bool, view: i32, menu_index: i32, key: DebugKey) -> (reason:
    Option<&'static str>)
    ensures
        match key_refusal(discard, view, menu_index, key) {
            Some(wanted) => reason matches Some(reason) && reason@ == wanted,
            None => reason is None,
        },
{
    if discard {
        Some("input_busy")
    } else if key == DebugKey::Enter && view == VIEW_MENU && menu_index == MENU_USB_DISK {
        Some("usb_disk_requires_physical_input")
    } else {
        None
    }
}

/// Whether every character leaves a mark on paper.
pub open spec fn all_graphic(s: Seq<char>) -> bool {
    forall|i: int| 0 <= i < s.len() ==> text::is_graphic(#[trigger] s[i])
}

fn is_all_graphic(value: &str) -> (yes: bool)
    ensures
        yes == all_graphic(value@),
{
    let chars = text::chars_of(value);
    let mut i: usize = 0;
    while i < chars.len()
        invariant
            i <= chars@.len(),
            chars@ == value@,
            forall|j: int| 0 <= j < i ==> text::is_graphic(#[trigger] chars@[j]),
        decreases chars@.len() - i,
    {
        let c = chars[i];
        if !('!' <= c && c <= '~') {
            assert(!text::is_graphic(value@[i as int]));
            return false;
        }
        i += 1;
    }
    true
}

/// What text of the console leads to, or why it is refused.
pub open spec fn debug_text_effect(
    view: i32,
    added: Seq<char>,
    wifi: Seq<char>,
    ftp: Seq<char>,
) -> Result<KeyEffect<Seq<char>>, Seq<char>> {
    if view == VIEW_WIFI_PASSWORD {
        if text::byte_len(wifi) + text::byte_len(added) > WIFI_PASSWORD_LEN {
            Err("wifi_text_too_long"@)
        } else {
            Ok(KeyEffect::WifiPassword(wifi + added))
        }
    } else if view == VIEW_FTP_PASSWORD {
        if !all_graphic(added) {
            Err("ftp_text_disallows_spaces"@)
        } else if text::byte_len(ftp) + text::byte_len(added) > FTP_PASSWORD_LEN {
            Err("ftp_text_too_long"@)
        } else {
            Ok(KeyEffect::FtpPassword(ftp + added))
        }
    } else {
        Err("text_entry_not_active"@)
    }
}

/// Whether two texts together have at most `limit` bytes.
fn fits_together(a: &str, b: &str, limit: usize) -> (fits: bool)
    ensures
        fits == (text::byte_len(a@) + text::byte_len(b@) <= limit),
{
    let left: usize = text::byte_length(a);
    let right: usize = text::byte_length(b);
    right <= limit && left <= limit - right
}

/// What text of the console leads to, or why it is refused.
pub fn append_debug_text(view: i32, added: &str, passwords: &Passwords) -> (result: Result<
    KeyEffect<String>,
    &'static str,
>)
    ensures
        match debug_text_effect(view, added@, passwords.wifi@, passwords.ftp@) {
            Ok(wanted) => result matches Ok(effect) && effect.view() == wanted,
            Err(wanted) => result matches Err(reason) && reason@ == wanted,
        },
{
    if view == VIEW_WIFI_PASSWORD {
        if !fits_together(passwords.wifi, added, WIFI_PASSWORD_LEN) {
            return Err("wifi_text_too_long");
        }
        let mut password = passwords.wifi.to_owned();
        password.append(added);
        Ok(KeyEffect::WifiPassword(password))
    } else if view == VIEW_FTP_PASSWORD {
        if !is_all_graphic(added) {
            return Err("ftp_text_disallows_spaces");
        }
        if !fits_together(passwords.ftp, added, FTP_PASSWORD_LEN) {
            return Err("ftp_text_too_long");
        }
        let mut password = passwords.ftp.to_owned();
        password.append(added);
        Ok(KeyEffect::FtpPassword(password))
    } else {
        Err("text_entry_not_active")
    }
}

/// What clearing the text from the console leads to and what it is answered, or
/// why it is refused.
pub open spec fn clear_effect(view: i32) -> Result<(KeyEffect<Seq<char>>, Seq<char>), Seq<char>> {
    if view == VIEW_WIFI_PASSWORD {
        Ok((KeyEffect::WifiPassword(Seq::empty()), "wifi_text_cleared"@))
    } else if view == VIEW_FTP_PASSWORD {
        Ok((KeyEffect::FtpPassword(Seq::empty()), "ftp_text_cleared"@))
    } else {
        Err("text_entry_not_active"@)
    }
}

/// What clearing the text from the console leads to, or why it is refused.
pub fn clear_text(view: i32) -> (result: Result<(KeyEffect<String>, &'static str), &'static str>)
    ensures
        match clear_effect(view) {
            Ok(wanted) => result matches Ok(done) && done.0.view() == wanted.0 && done.1@
                == wanted.1,
            Err(wanted) => result matches Err(reason) && reason@ == wanted,
        },
{
    let empty = String::new();
    assert(empty@ =~= Seq::<char>::empty());
    if view == VIEW_WIFI_PASSWORD {
        Ok((KeyEffect::WifiPassword(empty), "wifi_text_cleared"))
    } else if view == VIEW_FTP_PASSWORD {
        Ok((KeyEffect::FtpPassword(empty), "ftp_text_cleared"))
    } else {
        Err("text_entry_not_active")
    }
}

// ---------------------------------------------------------------------------
// Laws
// ---------------------------------------------------------------------------

/// Backspace takes back the character typed before it.
pub proof fn backspace_undoes_typing(view: i32, c: char, wifi: Seq<char>, ftp: Seq<char>)
    ensures
        match key_effect(false, view, KeyInput::Char(c), wifi, ftp) {
            KeyEffect::WifiPassword(password) => key_effect(
                false,
                view,
                KeyInput::Backspace,
                password,
                ftp,
            ) == KeyEffect::WifiPassword(wifi),
            KeyEffect::FtpPassword(password) => key_effect(
                false,
                view,
                KeyInput::Backspace,
                wifi,
                password,
            ) == KeyEffect::FtpPassword(ftp),
            _ => true,
        },
{
    assert(wifi.push(c).drop_last() =~= wifi);
    assert(ftp.push(c).drop_last() =~= ftp);
}

/// A Wi-Fi password that can be typed here.
pub open spec fn is_wifi_entry(s: Seq<char>) -> bool {
    s.len() <= WIFI_PASSWORD_LEN && forall|i: int|
        0 <= i < s.len() ==> is_printable(#[trigger] s[i])
}

/// An FTP password while it is typed: one that may be saved, or nothing yet.
pub open spec fn is_ftp_entry(s: Seq<char>) -> bool {
    s.len() == 0 || is_credential(s)
}

/// What becomes of an effect keeps both passwords such as can be typed.
pub open spec fn keeps_entries(effect: KeyEffect<Seq<char>>) -> bool {
    match effect {
        KeyEffect::WifiPassword(password) => is_wifi_entry(password),
        KeyEffect::FtpPassword(password) => is_ftp_entry(password),
        _ => true,
    }
}

/// Whatever key is pressed, no password grows too long or takes a character that
/// it may not hold.
pub proof fn keys_keep_passwords(
    discard: bool,
    view: i32,
    input: KeyInput,
    wifi: Seq<char>,
    ftp: Seq<char>,
)
    requires
        is_wifi_entry(wifi),
        is_ftp_entry(ftp),
    ensures
        keeps_entries(key_effect(discard, view, input, wifi, ftp)),
{
    is_ascii_chars_encode_utf8(wifi);
    is_ascii_chars_encode_utf8(ftp);
}

/// Whatever the console types, no password grows too long or takes a character
/// that it may not hold.
pub proof fn console_keeps_passwords(
    view: i32,
    key: DebugKey,
    added: Seq<char>,
    wifi: Seq<char>,
    ftp: Seq<char>,
)
    requires
        is_wifi_entry(wifi),
        is_ftp_entry(ftp),
        crate::debug::is_typeable(added),
    ensures
        keeps_entries(debug_key_effect(view, key, wifi, ftp)),
        debug_text_effect(view, added, wifi, ftp) matches Ok(effect) ==> keeps_entries(effect),
        clear_effect(view) matches Ok(done) ==> keeps_entries(done.0),
{
    is_ascii_chars_encode_utf8(wifi);
    is_ascii_chars_encode_utf8(ftp);
    is_ascii_chars_encode_utf8(added);
}

/// A character that is typed goes to the end of the password that is on the screen: of the
/// Wi-Fi password up to 64 bytes of characters from blank to tilde, of the FTP password up to 32
/// of those that are not blank. All others do nothing.
pub proof fn typing_extends_the_password(c: char, wifi: Seq<char>, ftp: Seq<char>)
    ensures
        32 <= c as int <= 126 && encode_utf8(wifi).len() < 64 ==> key_effect(
            false,
            5,
            KeyInput::Char(c),
            wifi,
            ftp,
        ) == KeyEffect::WifiPassword(wifi + seq![c]),
        !(32 <= c as int <= 126) || encode_utf8(wifi).len() >= 64 ==> key_effect(
            false,
            5,
            KeyInput::Char(c),
            wifi,
            ftp,
        ) is Nothing,
        33 <= c as int <= 126 && encode_utf8(ftp).len() < 32 ==> key_effect(
            false,
            9,
            KeyInput::Char(c),
            wifi,
            ftp,
        ) == KeyEffect::FtpPassword(ftp + seq![c]),
        !(33 <= c as int <= 126) || encode_utf8(ftp).len() >= 32 ==> key_effect(
            false,
            9,
            KeyInput::Char(c),
            wifi,
            ftp,
        ) is Nothing,
{
    assert(wifi.push(c) =~= wifi + seq![c]);
    assert(ftp.push(c) =~= ftp + seq![c]);
}

/// Backspace takes the last character off the password on the screen, and goes back on all other
/// screens.
pub proof fn backspace_shortens_the_password(view: i32, c: char, wifi: Seq<char>, ftp: Seq<char>)
    ensures
        key_effect(false, 5, KeyInput::Backspace, wifi + seq![c], ftp) == KeyEffect::WifiPassword(
            wifi,
        ),
        key_effect(false, 9, KeyInput::Backspace, wifi, ftp + seq![c]) == KeyEffect::FtpPassword(
            ftp,
        ),
        key_effect(false, 5, KeyInput::Backspace, Seq::empty(), ftp) == KeyEffect::WifiPassword(
            Seq::<char>::empty(),
        ),
        key_effect(false, 9, KeyInput::Backspace, wifi, Seq::empty()) == KeyEffect::FtpPassword(
            Seq::<char>::empty(),
        ),
        view != 5 && view != 9 ==> key_effect(false, view, KeyInput::Backspace, wifi, ftp)
            == KeyEffect::<Seq<char>>::Press(ScreenKey::Back),
{
    assert((wifi + seq![c]).drop_last() =~= wifi);
    assert((ftp + seq![c]).drop_last() =~= ftp);
}

/// The keys of the screens: those named so, and where no password is typed the four keys that
/// carry the arrows and the blank. All other characters do nothing there.
pub proof fn keys_move_the_screens(view: i32, c: char, wifi: Seq<char>, ftp: Seq<char>)
    ensures
        key_effect(false, view, KeyInput::Enter, wifi, ftp) == KeyEffect::<Seq<char>>::Press(
            ScreenKey::Enter,
        ),
        key_effect(false, view, KeyInput::Escape, wifi, ftp) == KeyEffect::<Seq<char>>::Press(
            ScreenKey::Back,
        ),
        key_effect(false, view, KeyInput::Delete, wifi, ftp) == KeyEffect::<Seq<char>>::Press(
            ScreenKey::Delete,
        ),
        key_effect(false, view, KeyInput::Tab, wifi, ftp) == KeyEffect::<Seq<char>>::Press(
            ScreenKey::Tab,
        ),
        key_effect(false, view, KeyInput::Modifier, wifi, ftp) is Nothing,
        key_effect(false, view, KeyInput::Arrow(Arrow::Up), wifi, ftp) == KeyEffect::<
            Seq<char>,
        >::Press(ScreenKey::Up),
        key_effect(false, view, KeyInput::Arrow(Arrow::Down), wifi, ftp) == KeyEffect::<
            Seq<char>,
        >::Press(ScreenKey::Down),
        key_effect(false, view, KeyInput::Arrow(Arrow::Left), wifi, ftp) == KeyEffect::<
            Seq<char>,
        >::Press(ScreenKey::Left),
        key_effect(false, view, KeyInput::Arrow(Arrow::Right), wifi, ftp) == KeyEffect::<
            Seq<char>,
        >::Press(ScreenKey::Right),
        view != 5 && view != 9 ==> {
            let effect = key_effect(false, view, KeyInput::Char(c), wifi, ftp);
            &&& effect == KeyEffect::<Seq<char>>::Press(ScreenKey::Up) <==> c == ';'
            &&& effect == KeyEffect::<Seq<char>>::Press(ScreenKey::Down) <==> c == '.'
            &&& effect == KeyEffect::<Seq<char>>::Press(ScreenKey::Left) <==> c == ','
            &&& effect == KeyEffect::<Seq<char>>::Press(ScreenKey::Right) <==> c == '/'
            &&& effect == KeyEffect::<Seq<char>>::Press(ScreenKey::Space) <==> c == ' '
            &&& effect is Nothing <==> c != ';' && c != '.' && c != ',' && c != '/' && c != ' '
        },
{
}

/// Keys that are to be dropped do nothing, whichever they are.
pub proof fn dropped_keys_do_nothing(
    view: i32,
    input: KeyInput,
    wifi: Seq<char>,
    ftp: Seq<char>,
)
    ensures
        key_effect(true, view, input, wifi, ftp) is Nothing,
{
}

/// A key of the console does what the key of that name does.
pub proof fn console_keys_are_keys(view: i32, wifi: Seq<char>, ftp: Seq<char>)
    ensures
        debug_key_effect(view, DebugKey::Up, wifi, ftp) == key_effect(
            false,
            view,
            KeyInput::Arrow(Arrow::Up),
            wifi,
            ftp,
        ),
        debug_key_effect(view, DebugKey::Down, wifi, ftp) == key_effect(
            false,
            view,
            KeyInput::Arrow(Arrow::Down),
            wifi,
            ftp,
        ),
        debug_key_effect(view, DebugKey::Left, wifi, ftp) == key_effect(
            false,
            view,
            KeyInput::Arrow(Arrow::Left),
            wifi,
            ftp,
        ),
        debug_key_effect(view, DebugKey::Right, wifi, ftp) == key_effect(
            false,
            view,
            KeyInput::Arrow(Arrow::Right),
            wifi,
            ftp,
        ),
        debug_key_effect(view, DebugKey::Enter, wifi, ftp) == key_effect(
            false,
            view,
            KeyInput::Enter,
            wifi,
            ftp,
        ),
        debug_key_effect(view, DebugKey::Back, wifi, ftp) == key_effect(
            false,
            view,
            KeyInput::Escape,
            wifi,
            ftp,
        ),
        debug_key_effect(view, DebugKey::Delete, wifi, ftp) == key_effect(
            false,
            view,
            KeyInput::Delete,
            wifi,
            ftp,
        ),
        debug_key_effect(view, DebugKey::Tab, wifi, ftp) == key_effect(
            false,
            view,
            KeyInput::Tab,
            wifi,
            ftp,
        ),
        debug_key_effect(view, DebugKey::Backspace, wifi, ftp) == key_effect(
            false,
            view,
            KeyInput::Backspace,
            wifi,
            ftp,
        ),
        debug_key_effect(view, DebugKey::Space, wifi, ftp) == KeyEffect::<Seq<char>>::Press(
            ScreenKey::Space,
        ),
{
}

/// The screens know their keys by these names.
pub proof fn screen_keys_have_their_names(key: ScreenKey)
    ensures
        key.text() == "up"@ <==> key == ScreenKey::Up,
        key.text() == "down"@ <==> key == ScreenKey::Down,
        key.text() == "left"@ <==> key == ScreenKey::Left,
        key.text() == "right"@ <==> key == ScreenKey::Right,
        key.text() == "enter"@ <==> key == ScreenKey::Enter,
        key.text() == "back"@ <==> key == ScreenKey::Back,
        key.text() == "delete"@ <==> key == ScreenKey::Delete,
        key.text() == "tab"@ <==> key == ScreenKey::Tab,
        key.text() == "space"@ <==> key == ScreenKey::Space,
{
    reveal_strlit("up");
    reveal_strlit("down");
    reveal_strlit("left");
    reveal_strlit("right");
    reveal_strlit("enter");
    reveal_strlit("back");
    reveal_strlit("delete");
    reveal_strlit("tab");
    reveal_strlit("space");
    assert("up"@[0] == 'u' && "down"@[0] == 'd' && "left"@[0] == 'l' && "right"@[0] == 'r');
    assert("enter"@[0] == 'e' && "back"@[0] == 'b' && "delete"@[0] == 'd' && "tab"@[0] == 't');
    assert("space"@[0] == 's' && "down"@.len() == 4 && "delete"@.len() == 6);
}

/// Keys of the console are refused while keys are dropped, and the one that would hand the card
/// to the host, which takes a finger.
pub proof fn console_keys_are_refused(discard: bool, view: i32, menu_index: i32, key: DebugKey)
    ensures
        key_refusal(true, view, menu_index, key) == Some("input_busy"@),
        key_refusal(false, 0, 2, DebugKey::Enter) == Some("usb_disk_requires_physical_input"@),
        view != 0 || menu_index != 2 || key != DebugKey::Enter ==> key_refusal(
            false,
            view,
            menu_index,
            key,
        ) is None,
{
}

/// Text from the console is added to the password on the screen where it fits and may stand in
/// it, and refused with the reason where not; clearing empties it.
pub proof fn console_text_is_added(
    view: i32,
    added: Seq<char>,
    wifi: Seq<char>,
    ftp: Seq<char>,
)
    ensures
        encode_utf8(wifi).len() + encode_utf8(added).len() <= 64 ==> debug_text_effect(
            5,
            added,
            wifi,
            ftp,
        ) == Ok::<KeyEffect<Seq<char>>, Seq<char>>(KeyEffect::WifiPassword(wifi + added)),
        encode_utf8(wifi).len() + encode_utf8(added).len() > 64 ==> debug_text_effect(
            5,
            added,
            wifi,
            ftp,
        ) == Err::<KeyEffect<Seq<char>>, Seq<char>>("wifi_text_too_long"@),
        (forall|i: int| 0 <= i < added.len() ==> '!' <= #[trigger] added[i] <= '~') ==> {
            &&& encode_utf8(ftp).len() + encode_utf8(added).len() <= 32 ==> debug_text_effect(
                9,
                added,
                wifi,
                ftp,
            ) == Ok::<KeyEffect<Seq<char>>, Seq<char>>(KeyEffect::FtpPassword(ftp + added))
            &&& encode_utf8(ftp).len() + encode_utf8(added).len() > 32 ==> debug_text_effect(
                9,
                added,
                wifi,
                ftp,
            ) == Err::<KeyEffect<Seq<char>>, Seq<char>>("ftp_text_too_long"@)
        },
        (exists|i: int| 0 <= i < added.len() && !('!' <= #[trigger] added[i] <= '~'))
            ==> debug_text_effect(9, added, wifi, ftp) == Err::<KeyEffect<Seq<char>>, Seq<char>>(
            "ftp_text_disallows_spaces"@,
        ),
        view != 5 && view != 9 ==> debug_text_effect(view, added, wifi, ftp) == Err::<
            KeyEffect<Seq<char>>,
            Seq<char>,
        >("text_entry_not_active"@),
        clear_effect(5) == Ok::<(KeyEffect<Seq<char>>, Seq<char>), Seq<char>>(
            (KeyEffect::WifiPassword(Seq::empty()), "wifi_text_cleared"@),
        ),
        clear_effect(9) == Ok::<(KeyEffect<Seq<char>>, Seq<char>), Seq<char>>(
            (KeyEffect::FtpPassword(Seq::empty()), "ftp_text_cleared"@),
        ),
        view != 5 && view != 9 ==> clear_effect(view) == Err::<
            (KeyEffect<Seq<char>>, Seq<char>),
            Seq<char>,
        >("text_entry_not_active"@),
{
}

} // verus!
