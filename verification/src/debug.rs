//! Interactive command shell over the USB serial port.
//!
//! The console shares the stream with normal firmware logs, so its own output is
//! prefixed with `[rat]`. All transmission is queued and non-blocking: a
//! disconnected host must never stall the user interface or the network loop.

use crate::text;
use crate::text::{position, texts};
use vstd::prelude::*;
use vstd::string::*;
use vstd::utf8::*;

verus! {

pub const RX_LINE_LEN: usize = 192;

pub const TEXT_LEN: usize = 96;

pub const TX_QUEUE_LEN: usize = 4096;

#[derive(Clone, Copy, Debug, PartialEq, Eq, Structural)]
pub enum DebugKey {
    Up,
    Down,
    Left,
    Right,
    Enter,
    Back,
    Backspace,
    Delete,
    Tab,
    Space,
}

/// Text that is typed for the user: 1 to 96 printable ASCII characters.
#[derive(Debug)]
pub struct DebugText {
    pub text: String,
}

impl DebugText {
    pub fn as_str(&self) -> (text: &str)
        ensures
            text@ == self.text@,
    {
        self.text.as_str()
    }
}

/// A command of the console.
#[derive(Debug)]
pub enum DebugCommand {
    Ping,
    Help,
    Status,
    Key { key: DebugKey },
    Text { text: DebugText },
    Clear,
    Reboot,
    Invalid { reason: &'static str },
}

/// What a [`DebugCommand`] says.
pub enum CommandView {
    Ping,
    Help,
    Status,
    Key(DebugKey),
    Text(Seq<char>),
    Clear,
    Reboot,
    Invalid(Seq<char>),
}

impl View for DebugCommand {
    type V = CommandView;

    open spec fn view(&self) -> CommandView {
        match self {
            DebugCommand::Ping => CommandView::Ping,
            DebugCommand::Help => CommandView::Help,
            DebugCommand::Status => CommandView::Status,
            DebugCommand::Key { key } => CommandView::Key(*key),
            DebugCommand::Text { text } => CommandView::Text(text.text@),
            DebugCommand::Clear => CommandView::Clear,
            DebugCommand::Reboot => CommandView::Reboot,
            DebugCommand::Invalid { reason } => CommandView::Invalid(reason@),
        }
    }
}

// ---------------------------------------------------------------------------
// Command lines
// ---------------------------------------------------------------------------

/// The key that a word names.
pub open spec fn key_of(word: Seq<char>) -> Option<DebugKey> {
    if text::same_ignoring_case(word, "up"@) {
        Some(DebugKey::Up)
    } else if text::same_ignoring_case(word, "down"@) {
        Some(DebugKey::Down)
    } else if text::same_ignoring_case(word, "left"@) {
        Some(DebugKey::Left)
    } else if text::same_ignoring_case(word, "right"@) {
        Some(DebugKey::Right)
    } else if text::same_ignoring_case(word, "enter"@) {
        Some(DebugKey::Enter)
    } else if text::same_ignoring_case(word, "back"@) {
        Some(DebugKey::Back)
    } else if text::same_ignoring_case(word, "backspace"@) {
        Some(DebugKey::Backspace)
    } else if text::same_ignoring_case(word, "delete"@) {
        Some(DebugKey::Delete)
    } else if text::same_ignoring_case(word, "tab"@) {
        Some(DebugKey::Tab)
    } else if text::same_ignoring_case(word, "space"@) {
        Some(DebugKey::Space)
    } else {
        None
    }
}

/// Text that can be typed for the user.
pub open spec fn is_typeable(s: Seq<char>) -> bool {
    &&& 1 <= s.len() <= TEXT_LEN
    &&& forall|i: int| 0 <= i < s.len() ==> ' ' <= #[trigger] s[i] <= '~'
}

/// What a name and the text after it say.
pub open spec fn command_of(name: Seq<char>, argument: Option<Seq<char>>) -> CommandView {
    if text::same_ignoring_case(name, "PING"@) {
        CommandView::Ping
    } else if text::same_ignoring_case(name, "HELP"@) {
        CommandView::Help
    } else if text::same_ignoring_case(name, "STATUS"@) {
        CommandView::Status
    } else if text::same_ignoring_case(name, "CLEAR"@) {
        CommandView::Clear
    } else if text::same_ignoring_case(name, "REBOOT"@) {
        CommandView::Reboot
    } else if text::same_ignoring_case(name, "KEY"@) {
        match argument {
            Some(argument) => match key_of(text::trimmed(argument)) {
                Some(key) => CommandView::Key(key),
                None => CommandView::Invalid("bad_key"@),
            },
            None => CommandView::Invalid("bad_key"@),
        }
    } else if text::same_ignoring_case(name, "TEXT"@) {
        match argument {
            Some(argument) => if is_typeable(argument) {
                CommandView::Text(argument)
            } else {
                CommandView::Invalid("text_must_be_1_96_printable_ascii"@)
            },
            None => CommandView::Invalid("missing_text"@),
        }
    } else {
        CommandView::Invalid("unknown_command"@)
    }
}

/// What a line says; nothing where it is blank.
pub open spec fn parsed(line: Seq<u8>) -> Option<CommandView> {
    if !valid_utf8(line) {
        Some(CommandView::Invalid("non_ascii_command"@))
    } else {
        let words = text::trimmed(decode_utf8(line));
        let space = position(words, ' ');
        if words.len() == 0 {
            None
        } else if space < words.len() {
            Some(command_of(words.take(space), Some(words.skip(space + 1))))
        } else {
            Some(command_of(words, None))
        }
    }
}

fn find_key(word: &str) -> (key: Option<DebugKey>)
    ensures
        key == key_of(word@),
{
    if text::eq_ignoring_case(word, "up") {
        Some(DebugKey::Up)
    } else if text::eq_ignoring_case(word, "down") {
        Some(DebugKey::Down)
    } else if text::eq_ignoring_case(word, "left") {
        Some(DebugKey::Left)
    } else if text::eq_ignoring_case(word, "right") {
        Some(DebugKey::Right)
    } else if text::eq_ignoring_case(word, "enter") {
        Some(DebugKey::Enter)
    } else if text::eq_ignoring_case(word, "back") {
        Some(DebugKey::Back)
    } else if text::eq_ignoring_case(word, "backspace") {
        Some(DebugKey::Backspace)
    } else if text::eq_ignoring_case(word, "delete") {
        Some(DebugKey::Delete)
    } else if text::eq_ignoring_case(word, "tab") {
        Some(DebugKey::Tab)
    } else if text::eq_ignoring_case(word, "space") {
        Some(DebugKey::Space)
    } else {
        None
    }
}

fn typeable(argument: &str) -> (yes: bool)
    ensures
        yes == is_typeable(argument@),
{
    let chars = text::chars_of(argument);
    if chars.len() == 0 || chars.len() > TEXT_LEN {
        return false;
    }
    let mut i: usize = 0;
    while i < chars.len()
        invariant
            i <= chars@.len(),
            chars@ == argument@,
            forall|j: int| 0 <= j < i ==> ' ' <= #[trigger] chars@[j] <= '~',
        decreases chars@.len() - i,
    {
        let c = chars[i];
        if !(' ' <= c && c <= '~') {
            assert(!(' ' <= argument@[i as int] <= '~'));
            return false;
        }
        i += 1;
    }
    true
}

fn find_command(name: &str, argument: Option<String>) -> (command: DebugCommand)
    ensures
        command@ == command_of(name@, text::opt_text(argument)),
{
    if text::eq_ignoring_case(name, "PING") {
        DebugCommand::Ping
    } else if text::eq_ignoring_case(name, "HELP") {
        DebugCommand::Help
    } else if text::eq_ignoring_case(name, "STATUS") {
        DebugCommand::Status
    } else if text::eq_ignoring_case(name, "CLEAR") {
        DebugCommand::Clear
    } else if text::eq_ignoring_case(name, "REBOOT") {
        DebugCommand::Reboot
    } else if text::eq_ignoring_case(name, "KEY") {
        let key = match argument {
            Some(argument) => find_key(text::trim(argument.as_str()).as_str()),
            None => None,
        };
        match key {
            Some(key) => DebugCommand::Key { key },
            None => DebugCommand::Invalid { reason: "bad_key" },
        }
    } else if text::eq_ignoring_case(name, "TEXT") {
        match argument {
            Some(argument) => if typeable(argument.as_str()) {
                DebugCommand::Text { text: DebugText { text: argument } }
            } else {
                DebugCommand::Invalid { reason: "text_must_be_1_96_printable_ascii" }
            },
            None => DebugCommand::Invalid { reason: "missing_text" },
        }
    } else {
        DebugCommand::Invalid { reason: "unknown_command" }
    }
}

/// Reads a command line; `None` where it is blank.
pub fn parse_command(line: &[u8]) -> (command: Option<DebugCommand>)
    ensures
        match parsed(line@) {
            Some(wanted) => command matches Some(found) && found@ == wanted,
            None => command is None,
        },
{
    let whole = match text::utf8_text(line) {
        None => {
            return Some(DebugCommand::Invalid { reason: "non_ascii_command" });
        },
        Some(whole) => whole,
    };
    proof {
        encode_utf8_decode_utf8(whole@);
    }
    let words = text::trim(whole);
    let chars = text::chars_of(words.as_str());
    if chars.len() == 0 {
        return None;
    }
    let space: usize = text::find_char(chars.as_slice(), ' ');
    if space < chars.len() {
        let name = text::string_of(chars.as_slice(), 0, space);
        assert(name@ =~= chars@.take(space as int));
        let argument = text::string_of(chars.as_slice(), space + 1, chars.len());
        assert(argument@ =~= chars@.skip(space + 1));
        Some(find_command(name.as_str(), Some(argument)))
    } else {
        Some(find_command(words.as_str(), None))
    }
}

// ---------------------------------------------------------------------------
// The output queue
// ---------------------------------------------------------------------------

/// Bytes that wait to be sent, in a ring of fixed size.
pub struct TxQueue {
    pub ring: Vec<u8>,
    pub head: usize,
    pub len: usize,
}

impl TxQueue {
    pub open spec fn wf(self) -> bool {
        &&& self.ring@.len() == TX_QUEUE_LEN
        &&& self.head < TX_QUEUE_LEN
        &&& self.len <= TX_QUEUE_LEN
    }
}

impl View for TxQueue {
    type V = Seq<u8>;

    open spec fn view(&self) -> Seq<u8> {
        Seq::new(self.len as nat, |i: int| self.ring@[slot(self.head as int, i)])
    }
}

/// The place in the ring of the byte with a given number.
pub open spec fn slot(head: int, i: int) -> int {
    (head + i) % 4096
}

/// A queue after a text: one that does not fit is left out as a whole.
pub open spec fn queued(queue: Seq<u8>, bytes: Seq<u8>) -> Seq<u8> {
    if bytes.len() > TX_QUEUE_LEN - queue.len() {
        queue
    } else {
        queue + bytes
    }
}

impl TxQueue {
    pub fn new() -> (queue: Self)
        ensures
            queue.wf(),
            queue@ == Seq::<u8>::empty(),
    {
        let queue = TxQueue { ring: vec![0u8; TX_QUEUE_LEN], head: 0, len: 0 };
        assert(queue@ =~= Seq::<u8>::empty());
        queue
    }

    fn push(&mut self, byte: u8)
        requires
            old(self).wf(),
            old(self).len < TX_QUEUE_LEN,
        ensures
            final(self).wf(),
            final(self)@ == old(self)@.push(byte),
    {
        let ghost before = self@;
        let tail: usize = (self.head + self.len) % 4096;
        self.ring.set(tail, byte);
        self.len += 1;
        assert forall|i: int| 0 <= i < before.len() implies #[trigger] slot(self.head as int, i)
            != tail by {
            slots_differ(self.head as int, i, before.len() as int);
        }
        assert(self@ =~= before.push(byte));
    }

    /// Queues a text if all of it fits; `false` otherwise.
    pub fn write(&mut self, bytes: &[u8]) -> (fits: bool)
        requires
            old(self).wf(),
        ensures
            final(self).wf(),
            fits == (bytes@.len() <= TX_QUEUE_LEN - old(self)@.len()),
            final(self)@ == queued(old(self)@, bytes@),
    {
        if bytes.len() > TX_QUEUE_LEN - self.len {
            return false;
        }
        let ghost before = self@;
        let mut i: usize = 0;
        assert(before + bytes@.take(0) =~= before);
        while i < bytes.len()
            invariant
                self.wf(),
                i <= bytes@.len(),
                before.len() + bytes@.len() <= TX_QUEUE_LEN,
                self@ == before + bytes@.take(i as int),
                self.len == before.len() + i,
            decreases bytes@.len() - i,
        {
            self.push(bytes[i]);
            i += 1;
            assert(self@ =~= before + bytes@.take(i as int));
        }
        assert(bytes@.take(i as int) =~= bytes@);
        true
    }

    /// The byte that is sent next.
    pub fn first(&self) -> (byte: Option<u8>)
        requires
            self.wf(),
        ensures
            byte is Some <==> self@.len() > 0,
            byte matches Some(byte) ==> byte == self@[0],
    {
        if self.len > 0 {
            Some(self.ring[self.head])
        } else {
            None
        }
    }

    /// The byte was sent.
    pub fn drop_first(&mut self)
        requires
            old(self).wf(),
            old(self)@.len() > 0,
        ensures
            final(self).wf(),
            final(self)@ == old(self)@.skip(1),
    {
        let ghost before = self@;
        self.head = (self.head + 1) % 4096;
        self.len -= 1;
        assert forall|i: int| 0 <= i < before.len() - 1 implies #[trigger] slot(
            self.head as int,
            i,
        ) == slot(old(self).head as int, i + 1) by {
            slot_after(old(self).head as int, i);
        }
        assert(self@ =~= before.skip(1));
    }
}

/// Places of a ring less than its size apart are different.
proof fn slots_differ(head: int, i: int, j: int)
    requires
        0 <= head,
        0 <= i < j < 4096,
    ensures
        slot(head, i) != slot(head, j),
{
}

/// The places of a ring after its head has moved on.
proof fn slot_after(head: int, i: int)
    requires
        0 <= head,
        0 <= i,
    ensures
        slot((head + 1) % 4096, i) == slot(head, i + 1),
{
}

// ---------------------------------------------------------------------------
// The console
// ---------------------------------------------------------------------------

/// The console: a line editor in front of a command parser.
pub struct DebugConsole {
    pub rx_line: Vec<u8>,
    pub rx_overflow: bool,
    /// Where in an escape sequence of the terminal the input is.
    pub escape: EscapeState,
    /// Suppress LF after a CR so CRLF terminals submit one command, not two.
    pub last_was_cr: bool,
    pub tx: TxQueue,
    /// Bytes were sent that have not been flushed.
    pub tx_dirty: bool,
}

#[derive(Clone, Copy, Debug, PartialEq, Eq, Structural)]
pub enum EscapeState {
    /// Ordinary input.
    Plain,
    /// ESC received.
    Escape,
    /// CSI sequence in progress.
    Sequence,
}

/// What a [`DebugConsole`] holds.
#[verifier::ext_equal]
pub struct ConsoleView {
    pub line: Seq<u8>,
    pub overflow: bool,
    pub escape: EscapeState,
    pub last_was_cr: bool,
    pub tx: Seq<u8>,
    pub dirty: bool,
}

impl View for DebugConsole {
    type V = ConsoleView;

    open spec fn view(&self) -> ConsoleView {
        ConsoleView {
            line: self.rx_line@,
            overflow: self.rx_overflow,
            escape: self.escape,
            last_was_cr: self.last_was_cr,
            tx: self.tx@,
            dirty: self.tx_dirty,
        }
    }
}

impl ConsoleView {
    /// The console after a text was queued.
    pub open spec fn written(self, bytes: Seq<u8>) -> ConsoleView {
        ConsoleView { tx: queued(self.tx, bytes), ..self }
    }

    /// The console after the last character was taken back, on the screen too.
    pub open spec fn erased(self) -> ConsoleView {
        ConsoleView { line: self.line.drop_last(), ..self }.written(seq![8u8, 32u8, 8u8])
    }

    /// The console after the whole line was taken back.
    pub open spec fn all_erased(self) -> ConsoleView
        decreases self.line.len(),
    {
        if self.line.len() == 0 {
            self
        } else {
            self.erased().all_erased()
        }
    }
}

/// An escape sequence goes on: `ESC [` begins one that a letter ends.
pub open spec fn escape_next(escape: EscapeState, byte: u8) -> EscapeState {
    match escape {
        EscapeState::Escape => if byte == 0x5b {
            EscapeState::Sequence
        } else {
            EscapeState::Plain
        },
        EscapeState::Sequence => if 0x40 <= byte <= 0x7e {
            EscapeState::Plain
        } else {
            EscapeState::Sequence
        },
        EscapeState::Plain => EscapeState::Plain,
    }
}

/// The console after a byte that ends no line.
pub open spec fn edited(v: ConsoleView, byte: u8) -> ConsoleView {
    if v.escape != EscapeState::Plain {
        ConsoleView { escape: escape_next(v.escape, byte), ..v }
    } else if byte == 0x1b {
        ConsoleView { escape: EscapeState::Escape, ..v }
    } else if byte == 0x08 || byte == 0x7f {
        if v.line.len() > 0 {
            v.erased()
        } else {
            v
        }
    } else if byte == 0x15 {
        ConsoleView { overflow: false, ..v.all_erased() }
    } else if 0x20 <= byte <= 0x7e {
        if v.line.len() < RX_LINE_LEN {
            ConsoleView { line: v.line.push(byte), ..v }.written(seq![byte])
        } else if !v.overflow {
            ConsoleView { overflow: true, ..v }.written(seq![7u8])
        } else {
            v
        }
    } else {
        v
    }
}

/// What the line says: nothing of one that grew too long.
pub open spec fn line_command(v: ConsoleView) -> Option<CommandView> {
    if v.overflow {
        Some(CommandView::Invalid("line_too_long"@))
    } else {
        parsed(v.line)
    }
}

/// The console with another prompt.
pub open spec fn prompted(v: ConsoleView) -> ConsoleView {
    v.written(encode_utf8("rat> "@))
}

/// The console after the end of a line; a blank one is answered with a prompt.
pub open spec fn line_ended(v: ConsoleView) -> ConsoleView {
    let next = ConsoleView {
        line: Seq::empty(),
        overflow: false,
        escape: EscapeState::Plain,
        ..v.written(seq![13u8, 10u8])
    };
    if line_command(v) is None {
        prompted(next)
    } else {
        next
    }
}

/// The console after a byte.
pub open spec fn received(v: ConsoleView, byte: u8) -> ConsoleView {
    if byte == 13 {
        line_ended(ConsoleView { last_was_cr: true, ..v })
    } else if byte == 10 {
        if v.last_was_cr {
            ConsoleView { last_was_cr: false, ..v }
        } else {
            line_ended(v)
        }
    } else {
        edited(ConsoleView { last_was_cr: false, ..v }, byte)
    }
}

/// The command that a byte completes.
pub open spec fn completed(v: ConsoleView, byte: u8) -> Option<CommandView> {
    if byte == 13 || (byte == 10 && !v.last_was_cr) {
        line_command(v)
    } else {
        None
    }
}

/// What the USB port is asked to do.
#[derive(Clone, Copy, Debug, PartialEq, Eq, Structural)]
pub enum Transmit {
    Byte(u8),
    Flush,
}

/// What a console wants of the USB port.
pub open spec fn wanted_by(v: ConsoleView) -> Option<Transmit> {
    if v.tx.len() > 0 {
        Some(Transmit::Byte(v.tx[0]))
    } else if v.dirty {
        Some(Transmit::Flush)
    } else {
        None
    }
}

/// The console once the USB port has done what was wanted.
pub open spec fn transmitted(v: ConsoleView) -> ConsoleView {
    if v.tx.len() > 0 {
        ConsoleView { tx: v.tx.skip(1), dirty: true, ..v }
    } else {
        ConsoleView { dirty: false, ..v }
    }
}

/// The console once the USB port has done `count` things that were wanted.
pub open spec fn transmitted_after(v: ConsoleView, count: nat) -> ConsoleView
    decreases count,
{
    if count == 0 {
        v
    } else {
        transmitted(transmitted_after(v, (count - 1) as nat))
    }
}

/// The queue after some pieces of text, one after another, up to the first that does
/// not fit.
pub open spec fn pieces_queued(queue: Seq<u8>, pieces: Seq<Seq<char>>) -> Seq<u8>
    decreases pieces.len(),
{
    if pieces.len() == 0 || encode_utf8(pieces[0]).len() > TX_QUEUE_LEN - queue.len() {
        queue
    } else {
        pieces_queued(queue + encode_utf8(pieces[0]), pieces.skip(1))
    }
}

/// The queue after a message that comes in pieces: its prefix, the pieces and the end
/// of its line, up to what does not fit.
pub open spec fn message_queued(
    queue: Seq<u8>,
    prefix: Seq<char>,
    message: Seq<Seq<char>>,
) -> Seq<u8> {
    pieces_queued(queue, seq![prefix] + message + seq!["\r\n"@])
}

/// The console with its greeting and the first prompt.
pub open spec fn console_first() -> ConsoleView {
    ConsoleView {
        line: Seq::empty(),
        overflow: false,
        escape: EscapeState::Plain,
        last_was_cr: false,
        tx: queued(
            Seq::empty(),
            encode_utf8("\r\n[rat] RATPUTER USB console - type 'help' for commands\r\nrat> "@),
        ),
        dirty: false,
    }
}

/// The console after a line that reports success.
pub open spec fn ok_said(v: ConsoleView, message: Seq<Seq<char>>) -> ConsoleView {
    ConsoleView { tx: message_queued(v.tx, "[rat] OK "@, message), ..v }
}

/// The console after a line that tells something.
pub open spec fn data_said(v: ConsoleView, message: Seq<Seq<char>>) -> ConsoleView {
    ConsoleView { tx: message_queued(v.tx, "[rat] "@, message), ..v }
}

/// The console after a line that reports an error.
pub open spec fn error_said(v: ConsoleView, message: Seq<Seq<char>>) -> ConsoleView {
    ConsoleView { tx: message_queued(v.tx, "[rat] ERROR "@, message), ..v }
}

impl DebugConsole {
    pub open spec fn wf(self) -> bool {
        self.tx.wf() && self.rx_line@.len() <= RX_LINE_LEN
    }

    /// A console that greets its user.
    pub fn new() -> (console: Self)
        ensures
            console.wf(),
            console@ == console_first(),
    {
        let mut console = DebugConsole {
            rx_line: Vec::new(),
            rx_overflow: false,
            escape: EscapeState::Plain,
            last_was_cr: false,
            tx: TxQueue::new(),
            tx_dirty: false,
        };
        let _ = console.tx.write(
            "\r\n[rat] RATPUTER USB console - type 'help' for commands\r\nrat> ".as_bytes(),
        );
        console
    }

    fn write_str(&mut self, value: &str)
        requires
            old(self).wf(),
        ensures
            final(self).wf(),
            final(self)@ == old(self)@.written(encode_utf8(value@)),
    {
        let _ = self.tx.write(value.as_bytes());
    }

    fn write_bytes(&mut self, bytes: Vec<u8>)
        requires
            old(self).wf(),
        ensures
            final(self).wf(),
            final(self)@ == old(self)@.written(bytes@),
    {
        let _ = self.tx.write(bytes.as_slice());
    }

    fn erase(&mut self)
        requires
            old(self).wf(),
            old(self)@.line.len() > 0,
        ensures
            final(self).wf(),
            final(self)@ == old(self)@.erased(),
    {
        let ghost before = self@;
        let _ = self.rx_line.pop();
        let mut bytes: Vec<u8> = Vec::new();
        bytes.push(8);
        bytes.push(32);
        bytes.push(8);
        assert(bytes@ =~= seq![8u8, 32u8, 8u8]);
        self.write_bytes(bytes);
    }

    fn handle_byte(&mut self, byte: u8)
        requires
            old(self).wf(),
        ensures
            final(self).wf(),
            final(self)@ == edited(old(self)@, byte),
    {
        match self.escape {
            EscapeState::Escape => {
                self.escape = if byte == 0x5b {
                    EscapeState::Sequence
                } else {
                    EscapeState::Plain
                };
                return ;
            },
            EscapeState::Sequence => {
                self.escape = if 0x40 <= byte && byte <= 0x7e {
                    EscapeState::Plain
                } else {
                    EscapeState::Sequence
                };
                return ;
            },
            EscapeState::Plain => {},
        }
        if byte == 0x1b {
            self.escape = EscapeState::Escape;
        } else if byte == 0x08 || byte == 0x7f {
            if self.rx_line.len() > 0 {
                self.erase();
            }
        } else if byte == 0x15 {
            // Ctrl+U clears the current command line in terminals that send it.
            while self.rx_line.len() > 0
                invariant
                    self.wf(),
                    self@.all_erased() == old(self)@.all_erased(),
                decreases self@.line.len(),
            {
                self.erase();
            }
            self.rx_overflow = false;
        } else if 0x20 <= byte && byte <= 0x7e {
            let mut echo: Vec<u8> = Vec::new();
            if self.rx_line.len() < RX_LINE_LEN {
                self.rx_line.push(byte);
                echo.push(byte);
                assert(echo@ =~= seq![byte]);
                self.write_bytes(echo);
            } else if !self.rx_overflow {
                self.rx_overflow = true;
                echo.push(7);
                assert(echo@ =~= seq![7u8]);
                self.write_bytes(echo);
            }
        }
    }

    fn finish_line(&mut self) -> (command: Option<DebugCommand>)
        requires
            old(self).wf(),
        ensures
            final(self).wf(),
            final(self)@ == line_ended(old(self)@),
            match line_command(old(self)@) {
                Some(wanted) => command matches Some(found) && found@ == wanted,
                None => command is None,
            },
    {
        let mut end: Vec<u8> = Vec::new();
        end.push(13);
        end.push(10);
        assert(end@ =~= seq![13u8, 10u8]);
        self.write_bytes(end);
        let command = if self.rx_overflow {
            Some(DebugCommand::Invalid { reason: "line_too_long" })
        } else {
            parse_command(self.rx_line.as_slice())
        };
        self.rx_line = Vec::new();
        assert(self.rx_line@ =~= Seq::<u8>::empty());
        self.rx_overflow = false;
        self.escape = EscapeState::Plain;
        if command.is_none() {
            self.prompt();
        }
        command
    }

    /// Takes a byte that the host sent; gives the command that it completes.
    pub fn poll(&mut self, byte: u8) -> (command: Option<DebugCommand>)
        requires
            old(self).wf(),
        ensures
            final(self).wf(),
            final(self)@ == received(old(self)@, byte),
            match completed(old(self)@, byte) {
                Some(wanted) => command matches Some(found) && found@ == wanted,
                None => command is None,
            },
    {
        if byte == 13 {
            self.last_was_cr = true;
            self.finish_line()
        } else if byte == 10 {
            if self.last_was_cr {
                self.last_was_cr = false;
                None
            } else {
                self.finish_line()
            }
        } else {
            self.last_was_cr = false;
            self.handle_byte(byte);
            None
        }
    }

    /// What the USB port is to do next, if anything: take the oldest byte in the
    /// queue, or flush once the last of them has been taken.
    pub fn service(&self) -> (wanted: Option<Transmit>)
        requires
            self.wf(),
        ensures
            wanted == wanted_by(self@),
    {
        match self.tx.first() {
            Some(byte) => Some(Transmit::Byte(byte)),
            None => if self.tx_dirty {
                Some(Transmit::Flush)
            } else {
                None
            },
        }
    }

    /// The USB port has done what was wanted of it.
    pub fn serviced(&mut self)
        requires
            old(self).wf(),
        ensures
            final(self).wf(),
            final(self)@ == transmitted(old(self)@),
    {
        if self.tx.len > 0 {
            self.tx.drop_first();
            self.tx_dirty = true;
        } else {
            self.tx_dirty = false;
        }
    }

    pub fn output_idle(&self) -> (idle: bool)
        requires
            self.wf(),
        ensures
            idle == (self@.tx.len() == 0 && !self@.dirty),
    {
        self.tx.len == 0 && !self.tx_dirty
    }

    fn message(&mut self, prefix: &str, message: &[String])
        requires
            old(self).wf(),
        ensures
            final(self).wf(),
            final(self)@ == (ConsoleView {
                tx: message_queued(old(self)@.tx, prefix@, texts(message@)),
                ..old(self)@
            }),
    {
        let ghost parts = texts(message@);
        let ghost all = seq![prefix@] + parts + seq!["\r\n"@];
        assert(all.skip(1) =~= parts.skip(0) + seq!["\r\n"@]);
        if !self.tx.write(prefix.as_bytes()) {
            return ;
        }
        let mut i: usize = 0;
        while i < message.len()
            invariant
                i <= message@.len(),
                parts == texts(message@),
                all == seq![prefix@] + parts + seq!["\r\n"@],
                self.wf(),
                self@ == (ConsoleView { tx: self@.tx, ..old(self)@ }),
                pieces_queued(old(self)@.tx, all) == pieces_queued(
                    self@.tx,
                    parts.skip(i as int) + seq!["\r\n"@],
                ),
            decreases message@.len() - i,
        {
            let ghost rest = parts.skip(i as int) + seq!["\r\n"@];
            assert(rest[0] == message@[i as int]@);
            assert(rest.skip(1) =~= parts.skip(i + 1) + seq!["\r\n"@]);
            if !self.tx.write(message[i].as_str().as_bytes()) {
                return ;
            }
            i += 1;
        }
        let ghost rest = parts.skip(i as int) + seq!["\r\n"@];
        assert(rest =~= seq!["\r\n"@]);
        assert(rest.skip(1) =~= Seq::<Seq<char>>::empty());
        proof {
            reveal_with_fuel(pieces_queued, 2);
        }
        self.write_str("\r\n");
    }

    /// Answers a command with what comes in these pieces.
    pub fn ok(&mut self, message: &[String])
        requires
            old(self).wf(),
        ensures
            final(self).wf(),
            final(self)@ == ok_said(old(self)@, texts(message@)),
    {
        self.message("[rat] OK ", message);
    }

    /// Goes on with an answer.
    pub fn data(&mut self, message: &[String])
        requires
            old(self).wf(),
        ensures
            final(self).wf(),
            final(self)@ == data_said(old(self)@, texts(message@)),
    {
        self.message("[rat] ", message);
    }

    /// Refuses a command.
    pub fn error(&mut self, message: &[String])
        requires
            old(self).wf(),
        ensures
            final(self).wf(),
            final(self)@ == error_said(old(self)@, texts(message@)),
    {
        self.message("[rat] ERROR ", message);
    }

    /// A command has been answered: the next one can come.
    pub fn end(&mut self)
        requires
            old(self).wf(),
        ensures
            final(self).wf(),
            final(self)@ == prompted(old(self)@),
    {
        self.prompt();
    }

    fn prompt(&mut self)
        requires
            old(self).wf(),
        ensures
            final(self).wf(),
            final(self)@ == prompted(old(self)@),
    {
        self.write_str("rat> ");
    }
}

// ---------------------------------------------------------------------------
// Laws of the console
// ---------------------------------------------------------------------------

/// The queue is sent byte by byte in its order, then flushed, and then nothing is
/// left to do.
pub proof fn output_is_sent_in_order(v: ConsoleView, count: nat)
    requires
        count <= v.tx.len(),
    ensures
        count < v.tx.len() ==> wanted_by(transmitted_after(v, count)) == Some(
            Transmit::Byte(v.tx[count as int]),
        ),
        count == v.tx.len() && (v.tx.len() > 0 || v.dirty) ==> {
            &&& wanted_by(transmitted_after(v, count)) == Some(Transmit::Flush)
            &&& wanted_by(transmitted_after(v, count + 1)) is None
        },
        transmitted_after(v, count).tx == v.tx.skip(count as int),
        count > 0 ==> transmitted_after(v, count).dirty,
    decreases count,
{
    if count == 0 {
        assert(v.tx.skip(0) =~= v.tx);
    } else {
        output_is_sent_in_order(v, (count - 1) as nat);
        assert(v.tx.skip(count - 1).skip(1) =~= v.tx.skip(count as int));
    }
}

/// What was queued first is sent first, and nothing that was queued is changed by
/// what comes after it.
pub proof fn output_keeps_its_order(queue: Seq<u8>, bytes: Seq<u8>)
    requires
        queue.len() <= TX_QUEUE_LEN,
    ensures
        queued(queue, bytes).take(queue.len() as int) == queue,
        queued(queue, bytes).len() <= TX_QUEUE_LEN,
        bytes.len() + queue.len() <= TX_QUEUE_LEN ==> queued(queue, bytes).skip(
            queue.len() as int,
        ) == bytes,
{
    assert(queued(queue, bytes).take(queue.len() as int) =~= queue);
    if bytes.len() + queue.len() <= TX_QUEUE_LEN {
        assert(queued(queue, bytes).skip(queue.len() as int) =~= bytes);
    }
}

/// Pieces of text, one after another, as bytes.
pub open spec fn pieces_bytes(pieces: Seq<Seq<char>>) -> Seq<u8>
    decreases pieces.len(),
{
    if pieces.len() == 0 {
        Seq::empty()
    } else {
        encode_utf8(pieces[0]) + pieces_bytes(pieces.skip(1))
    }
}

/// A message that there is room for is queued whole.
pub proof fn message_with_room_is_queued(queue: Seq<u8>, pieces: Seq<Seq<char>>)
    requires
        queue.len() + pieces_bytes(pieces).len() <= TX_QUEUE_LEN,
    ensures
        pieces_queued(queue, pieces) == queue + pieces_bytes(pieces),
    decreases pieces.len(),
{
    if pieces.len() > 0 {
        message_with_room_is_queued(queue + encode_utf8(pieces[0]), pieces.skip(1));
        assert((queue + encode_utf8(pieces[0])) + pieces_bytes(pieces.skip(1)) =~= queue
            + pieces_bytes(pieces));
    } else {
        assert(queue + pieces_bytes(pieces) =~= queue);
    }
}

/// A terminal that ends its lines with CR LF submits each command once.
pub proof fn carriage_return_line_feed_is_one_end(v: ConsoleView)
    ensures
        completed(received(v, 13), 10) is None,
        received(received(v, 13), 10) == (ConsoleView { last_was_cr: false, ..received(v, 13) }),
{
}

/// A printable character that has room is echoed and can be taken back: the line
/// is then as it was.
pub proof fn backspace_takes_back(v: ConsoleView, byte: u8)
    requires
        v.escape == EscapeState::Plain,
        0x20 <= byte <= 0x7e,
        v.line.len() < RX_LINE_LEN,
    ensures
        received(received(v, byte), 8).line == v.line,
        received(received(v, byte), 8).overflow == v.overflow,
{
    assert(v.line.push(byte).drop_last() =~= v.line);
}

/// The console after some bytes.
pub open spec fn received_all(v: ConsoleView, bytes: Seq<u8>) -> ConsoleView
    decreases bytes.len(),
{
    if bytes.len() == 0 {
        v
    } else {
        received(received_all(v, bytes.drop_last()), bytes.last())
    }
}

/// Nothing of a line has come yet.
pub open spec fn awaits_line(v: ConsoleView) -> bool {
    v.line.len() == 0 && !v.overflow && v.escape == EscapeState::Plain
}

/// Printable ASCII.
pub open spec fn is_printable(bytes: Seq<u8>) -> bool {
    forall|i: int| 0 <= i < bytes.len() ==> 0x20 <= #[trigger] bytes[i] <= 0x7e
}

/// What is typed from the start of a line on becomes the line, up to its length.
proof fn typed_line_is_kept(v: ConsoleView, typed: Seq<u8>)
    requires
        awaits_line(v),
        is_printable(typed),
    ensures
        ({
            let after = received_all(v, typed);
            &&& typed.len() <= RX_LINE_LEN ==> after.line == typed
            &&& typed.len() > RX_LINE_LEN ==> after.line.len() == RX_LINE_LEN
            &&& after.overflow == (typed.len() > RX_LINE_LEN)
            &&& after.escape == EscapeState::Plain
        }),
    decreases typed.len(),
{
    if typed.len() > 0 {
        typed_line_is_kept(v, typed.drop_last());
        assert(0x20 <= typed[typed.len() - 1] <= 0x7e);
        assert(typed.drop_last().push(typed.last()) =~= typed);
    } else {
        assert(v.line =~= typed);
    }
}

/// A line that is typed and ended submits one command, that of the line, or the
/// complaint about one that is too long: nothing before its end submits any, a line
/// feed behind the carriage return submits none, and the next line can come.
pub proof fn typed_line_is_submitted(v: ConsoleView, typed: Seq<u8>)
    requires
        awaits_line(v),
        is_printable(typed),
    ensures
        forall|i: int|
            0 <= i < typed.len() ==> completed(
                received_all(v, typed.take(i)),
                #[trigger] typed[i],
            ) is None,
        completed(received_all(v, typed), 13) == if typed.len() <= RX_LINE_LEN {
            parsed(typed)
        } else {
            Some(CommandView::Invalid("line_too_long"@))
        },
        ({
            let ended = received(received_all(v, typed), 13);
            &&& awaits_line(ended)
            &&& completed(ended, 10) is None
            &&& awaits_line(received(ended, 10))
        }),
{
    typed_line_is_kept(v, typed);
}

// ---------------------------------------------------------------------------
// Laws of the words
// ---------------------------------------------------------------------------

/// The commands, in small letters or capitals: those without an argument, and what becomes of
/// any other word.
pub proof fn words_are_commands(name: Seq<char>, argument: Option<Seq<char>>)
    ensures
        ({
            let word = text::uppercase(name);
            let command = command_of(name, argument);
            &&& command is Ping <==> word == seq!['P', 'I', 'N', 'G']
            &&& command is Help <==> word == seq!['H', 'E', 'L', 'P']
            &&& command is Status <==> word == seq!['S', 'T', 'A', 'T', 'U', 'S']
            &&& command is Clear <==> word == seq!['C', 'L', 'E', 'A', 'R']
            &&& command is Reboot <==> word == seq!['R', 'E', 'B', 'O', 'O', 'T']
            &&& command is Key ==> word == seq!['K', 'E', 'Y']
            &&& command is Text ==> word == seq!['T', 'E', 'X', 'T']
            &&& word == seq!['K', 'E', 'Y'] ==> command == match argument {
                Some(argument) => match key_of(text::trimmed(argument)) {
                    Some(key) => CommandView::Key(key),
                    None => CommandView::Invalid("bad_key"@),
                },
                None => CommandView::Invalid("bad_key"@),
            }
            &&& word == seq!['T', 'E', 'X', 'T'] ==> match argument {
                Some(argument) => {
                    &&& is_typeable(argument) ==> command == CommandView::Text(argument)
                    &&& !is_typeable(argument) ==> command == CommandView::Invalid(
                        "text_must_be_1_96_printable_ascii"@,
                    )
                },
                None => command == CommandView::Invalid("missing_text"@),
            }
            &&& word != seq!['P', 'I', 'N', 'G'] && word != seq!['H', 'E', 'L', 'P'] && word
                != seq!['S', 'T', 'A', 'T', 'U', 'S'] && word != seq!['C', 'L', 'E', 'A', 'R']
                && word != seq!['R', 'E', 'B', 'O', 'O', 'T'] && word != seq!['K', 'E', 'Y']
                && word != seq!['T', 'E', 'X', 'T'] ==> command == CommandView::Invalid(
                "unknown_command"@,
            )
        }),
{
    reveal_strlit("PING");
    reveal_strlit("HELP");
    reveal_strlit("STATUS");
    reveal_strlit("CLEAR");
    reveal_strlit("REBOOT");
    reveal_strlit("KEY");
    reveal_strlit("TEXT");
    let ping = seq!['P', 'I', 'N', 'G'];
    let help = seq!['H', 'E', 'L', 'P'];
    let status = seq!['S', 'T', 'A', 'T', 'U', 'S'];
    let clear = seq!['C', 'L', 'E', 'A', 'R'];
    let reboot = seq!['R', 'E', 'B', 'O', 'O', 'T'];
    let key = seq!['K', 'E', 'Y'];
    let typed = seq!['T', 'E', 'X', 'T'];
    assert(text::uppercase("PING"@) =~= ping);
    assert(text::uppercase("HELP"@) =~= help);
    assert(text::uppercase("STATUS"@) =~= status);
    assert(text::uppercase("CLEAR"@) =~= clear);
    assert(text::uppercase("REBOOT"@) =~= reboot);
    assert(text::uppercase("KEY"@) =~= key);
    assert(text::uppercase("TEXT"@) =~= typed);
    assert(ping[0] == 'P' && help[0] == 'H' && status[0] == 'S' && clear[0] == 'C' && reboot[0]
        == 'R' && key[0] == 'K' && typed[0] == 'T');
}

/// The names of the keys, in small letters or capitals.
pub proof fn words_are_keys(word: Seq<char>)
    ensures
        ({
            let name = text::uppercase(word);
            &&& key_of(word) == Some(DebugKey::Up) <==> name == seq!['U', 'P']
            &&& key_of(word) == Some(DebugKey::Down) <==> name == seq!['D', 'O', 'W', 'N']
            &&& key_of(word) == Some(DebugKey::Left) <==> name == seq!['L', 'E', 'F', 'T']
            &&& key_of(word) == Some(DebugKey::Right) <==> name == seq!['R', 'I', 'G', 'H', 'T']
            &&& key_of(word) == Some(DebugKey::Enter) <==> name == seq!['E', 'N', 'T', 'E', 'R']
            &&& key_of(word) == Some(DebugKey::Back) <==> name == seq!['B', 'A', 'C', 'K']
            &&& key_of(word) == Some(DebugKey::Backspace) <==> name == seq![
                'B',
                'A',
                'C',
                'K',
                'S',
                'P',
                'A',
                'C',
                'E',
            ]
            &&& key_of(word) == Some(DebugKey::Delete) <==> name == seq![
                'D',
                'E',
                'L',
                'E',
                'T',
                'E',
            ]
            &&& key_of(word) == Some(DebugKey::Tab) <==> name == seq!['T', 'A', 'B']
            &&& key_of(word) == Some(DebugKey::Space) <==> name == seq!['S', 'P', 'A', 'C', 'E']
        }),
{
    reveal_strlit("up");
    reveal_strlit("down");
    reveal_strlit("left");
    reveal_strlit("right");
    reveal_strlit("enter");
    reveal_strlit("back");
    reveal_strlit("backspace");
    reveal_strlit("delete");
    reveal_strlit("tab");
    reveal_strlit("space");
    let up = seq!['U', 'P'];
    let down = seq!['D', 'O', 'W', 'N'];
    let left = seq!['L', 'E', 'F', 'T'];
    let right = seq!['R', 'I', 'G', 'H', 'T'];
    let enter = seq!['E', 'N', 'T', 'E', 'R'];
    let back = seq!['B', 'A', 'C', 'K'];
    let backspace = seq!['B', 'A', 'C', 'K', 'S', 'P', 'A', 'C', 'E'];
    let delete = seq!['D', 'E', 'L', 'E', 'T', 'E'];
    let tab = seq!['T', 'A', 'B'];
    let space = seq!['S', 'P', 'A', 'C', 'E'];
    assert(text::uppercase("up"@) =~= up);
    assert(text::uppercase("down"@) =~= down);
    assert(text::uppercase("left"@) =~= left);
    assert(text::uppercase("right"@) =~= right);
    assert(text::uppercase("enter"@) =~= enter);
    assert(text::uppercase("back"@) =~= back);
    assert(text::uppercase("backspace"@) =~= backspace);
    assert(text::uppercase("delete"@) =~= delete);
    assert(text::uppercase("tab"@) =~= tab);
    assert(text::uppercase("space"@) =~= space);
    assert(up[0] == 'U' && down[0] == 'D' && left[0] == 'L' && right[0] == 'R' && enter[0] == 'E'
        && back[0] == 'B' && backspace[0] == 'B' && delete[0] == 'D' && tab[0] == 'T' && space[0]
        == 'S');
    assert(back.len() == 4 && backspace.len() == 9 && down.len() == 4 && delete.len() == 6);
}

/// What may be typed from the console: one to 96 characters from blank to tilde.
pub proof fn typeable_text_is_printable(s: Seq<char>)
    ensures
        is_typeable(s) <==> s.len() > 0 && s.len() < 97 && forall|i: int|
            0 <= i < s.len() ==> 32 <= (#[trigger] s[i]) as int <= 126,
{
    if is_typeable(s) {
        assert forall|i: int| 0 <= i < s.len() implies 32 <= (#[trigger] s[i]) as int <= 126 by {
            assert(' ' <= s[i] <= '~');
        }
    } else if s.len() > 0 && s.len() < 97 && forall|i: int|
        0 <= i < s.len() ==> 32 <= (#[trigger] s[i]) as int <= 126 {
        assert forall|i: int| 0 <= i < s.len() implies ' ' <= #[trigger] s[i] <= '~' by {
            assert(32 <= s[i] as int <= 126);
        }
    }
}

/// A line is a word and, behind the first blank, its argument as it stands; a line of one word
/// has none, and a blank line is no command.
pub proof fn lines_are_words_and_arguments(name: Seq<char>, argument: Seq<char>)
    requires
        forall|i: int| 0 <= i < name.len() ==> !text::is_space(#[trigger] name[i]),
        argument.len() > 0 ==> !text::is_space(argument.last()),
    ensures
        name.len() > 0 ==> parsed(encode_utf8(name)) == Some(command_of(name, None)),
        name.len() > 0 && argument.len() > 0 ==> parsed(encode_utf8(name + seq![' '] + argument))
            == Some(command_of(name, Some(argument))),
        parsed(Seq::empty()) is None,
{
    let line = name + seq![' '] + argument;
    encode_utf8_valid_utf8(name);
    encode_utf8_decode_utf8(name);
    encode_utf8_valid_utf8(line);
    encode_utf8_decode_utf8(line);
    if name.len() > 0 {
        assert(!text::is_space(name[0]) && !text::is_space(name.last()));
        text::trimming_keeps_what_has_no_space_at_its_ends(name);
        assert(text::is_space(' '));
        text::position_is_first(name, ' ');
        if argument.len() > 0 {
            assert(line[0] == name[0] && line.last() == argument.last());
            text::trimming_keeps_what_has_no_space_at_its_ends(line);
            text::position_is_first(line, ' ');
            let at = position(line, ' ');
            assert(line[name.len() as int] == ' ');
            assert(forall|i: int| 0 <= i < name.len() ==> line[i] == name[i]);
            assert(at == name.len());
            assert(line.take(at) =~= name);
            assert(line.skip(at + 1) =~= argument);
        }
    }
    let none = Seq::<char>::empty();
    encode_utf8_valid_utf8(none);
    encode_utf8_decode_utf8(none);
    assert(encode_utf8(none) =~= Seq::<u8>::empty());
    assert(text::trimmed(none) =~= none) by {
        text::trimming_keeps_the_middle(none);
    }
}

/// Lines that are no text, and lines that were too long, are told so.
pub proof fn bad_lines_are_told(v: ConsoleView, line: Seq<u8>)
    ensures
        !valid_utf8(line) ==> parsed(line) == Some(CommandView::Invalid("non_ascii_command"@)),
        v.overflow ==> line_command(v) == Some(CommandView::Invalid("line_too_long"@)),
        !v.overflow ==> line_command(v) == parsed(v.line),
{
}

/// Editing a line: printable bytes are kept and echoed, 192 at most, and the first that does not
/// fit rings the bell; backspace and delete take the last one back, on the screen too; control-U
/// takes the whole line. Other bytes do nothing.
pub proof fn lines_are_edited(v: ConsoleView, byte: u8)
    requires
        v.escape == EscapeState::Plain,
        v.line.len() <= 192,
        v.tx.len() + 3 <= 4096,
    ensures
        32 <= byte <= 126 && v.line.len() < 192 ==> edited(v, byte) == (ConsoleView {
            line: v.line + seq![byte],
            tx: v.tx + seq![byte],
            ..v
        }),
        32 <= byte <= 126 && v.line.len() == 192 && !v.overflow ==> edited(v, byte) == (ConsoleView {
            overflow: true,
            tx: v.tx + seq![7u8],
            ..v
        }),
        32 <= byte <= 126 && v.line.len() == 192 && v.overflow ==> edited(v, byte) == v,
        (byte == 8 || byte == 127) && v.line.len() > 0 ==> edited(v, byte) == (ConsoleView {
            line: v.line.take(v.line.len() - 1),
            tx: v.tx + seq![8u8, 32u8, 8u8],
            ..v
        }),
        (byte == 8 || byte == 127) && v.line.len() == 0 ==> edited(v, byte) == v,
        byte == 21 ==> edited(v, byte).line.len() == 0 && !edited(v, byte).overflow && edited(
            v,
            byte,
        ).escape == EscapeState::Plain,
        byte == 27 ==> edited(v, byte) == (ConsoleView { escape: EscapeState::Escape, ..v }),
        byte < 32 && byte != 8 && byte != 21 && byte != 27 || byte > 127 ==> edited(v, byte) == v,
{
    assert(v.line.push(byte) =~= v.line + seq![byte]);
    if v.line.len() > 0 {
        assert(v.line.drop_last() =~= v.line.take(v.line.len() - 1));
    }
    if byte == 21 {
        erasing_empties_the_line(v);
    }
}

proof fn erasing_empties_the_line(v: ConsoleView)
    ensures
        v.all_erased().line.len() == 0,
        v.all_erased().escape == v.escape,
    decreases v.line.len(),
{
    if v.line.len() > 0 {
        erasing_empties_the_line(v.erased());
    }
}

/// What the arrow keys send is passed over: an escape, a bracket, and all up to the letter or
/// sign that ends it. An escape before any other byte is passed over with that byte.
pub proof fn escapes_are_passed_over(v: ConsoleView, byte: u8)
    ensures
        v.escape == EscapeState::Escape ==> edited(v, 91) == (ConsoleView {
            escape: EscapeState::Sequence,
            ..v
        }),
        v.escape == EscapeState::Escape && byte != 91 ==> edited(v, byte) == (ConsoleView {
            escape: EscapeState::Plain,
            ..v
        }),
        v.escape == EscapeState::Sequence && 64 <= byte <= 126 ==> edited(v, byte) == (ConsoleView {
            escape: EscapeState::Plain,
            ..v
        }),
        v.escape == EscapeState::Sequence && !(64 <= byte <= 126) ==> edited(v, byte) == v,
{
}

/// Either end of a line submits it, and both together submit it once; the end is echoed, the
/// line is then empty, and without a command the prompt comes again.
pub proof fn line_ends_submit(v: ConsoleView, byte: u8)
    requires
        v.tx.len() + 7 <= 4096,
    ensures
        completed(v, 13) == line_command(v),
        !v.last_was_cr ==> completed(v, 10) == line_command(v),
        v.last_was_cr ==> completed(v, 10) is None && received(v, 10).line == v.line,
        byte != 10 && byte != 13 ==> completed(v, byte) is None,
        ({
            let after = received(v, 13);
            &&& after.line.len() == 0
            &&& !after.overflow
            &&& after.escape == EscapeState::Plain
            &&& after.last_was_cr
            &&& line_command(v) is Some ==> after.tx == v.tx + seq![13u8, 10u8]
            &&& line_command(v) is None ==> after.tx == v.tx + seq![
                13u8,
                10u8,
                114u8,
                97u8,
                116u8,
                62u8,
                32u8,
            ]
        }),
{
    prompt_is_five_bytes();
    let marked = ConsoleView { last_was_cr: true, ..v };
    assert(line_command(marked) == line_command(v));
    assert(v.tx + seq![13u8, 10u8] + seq![114u8, 97u8, 116u8, 62u8, 32u8] =~= v.tx + seq![
        13u8,
        10u8,
        114u8,
        97u8,
        116u8,
        62u8,
        32u8,
    ]);
}

proof fn prompt_is_five_bytes()
    ensures
        encode_utf8("rat> "@) == seq![114u8, 97u8, 116u8, 62u8, 32u8],
{
    reveal_strlit("rat> ");
    let prompt = "rat> "@;
    assert(is_ascii_chars(prompt));
    is_ascii_chars_encode_utf8(prompt);
    assert(encode_utf8(prompt) =~= seq![114u8, 97u8, 116u8, 62u8, 32u8]);
}

/// The queue holds 4096 bytes; what does not fit whole is dropped whole.
pub proof fn output_is_queued_whole(queue: Seq<u8>, bytes: Seq<u8>)
    requires
        queue.len() <= 4096,
    ensures
        queue.len() + bytes.len() <= 4096 ==> queued(queue, bytes) == queue + bytes,
        queue.len() + bytes.len() > 4096 ==> queued(queue, bytes) == queue,
{
}

/// What is sent: the bytes of the queue from its front, and, once it is empty, a flush.
pub proof fn output_is_sent_and_flushed(v: ConsoleView)
    ensures
        v.tx.len() > 0 ==> wanted_by(v) == Some(Transmit::Byte(v.tx[0])) && transmitted(v).tx
            == v.tx.skip(1) && transmitted(v).dirty,
        v.tx.len() == 0 && v.dirty ==> wanted_by(v) == Some(Transmit::Flush) && !transmitted(
            v,
        ).dirty && wanted_by(transmitted(v)) is None,
        v.tx.len() == 0 && !v.dirty ==> wanted_by(v) is None,
        transmitted(v).line == v.line,
{
}

/// The lines of the console: the greeting, a prefix for each kind of line and an end of line
/// behind it, all of which go out where there is room.
pub proof fn console_lines_have_their_form(v: ConsoleView, message: Seq<char>)
    requires
        v.tx.len() + encode_utf8(message).len() + 14 <= 4096,
    ensures
        console_first().tx == encode_utf8(
            "\r\n[rat] RATPUTER USB console - type 'help' for commands\r\nrat> "@,
        ),
        console_first().line.len() == 0 && !console_first().overflow && !console_first().dirty,
        !console_first().last_was_cr && console_first().escape == EscapeState::Plain,
        ok_said(v, seq![message]).tx == v.tx + encode_utf8("[rat] OK "@) + encode_utf8(message)
            + seq![13u8, 10u8],
        data_said(v, seq![message]).tx == v.tx + encode_utf8("[rat] "@) + encode_utf8(message)
            + seq![13u8, 10u8],
        error_said(v, seq![message]).tx == v.tx + encode_utf8("[rat] ERROR "@) + encode_utf8(
            message,
        ) + seq![13u8, 10u8],
        prompted(v).tx == v.tx + seq![114u8, 97u8, 116u8, 62u8, 32u8],
{
    prompt_is_five_bytes();
    let greeting = "\r\n[rat] RATPUTER USB console - type 'help' for commands\r\nrat> "@;
    reveal_strlit("\r\n[rat] RATPUTER USB console - type 'help' for commands\r\nrat> ");
    assert(is_ascii_chars(greeting));
    is_ascii_chars_encode_utf8(greeting);
    assert(console_first().tx =~= encode_utf8(greeting));
    reveal_strlit("[rat] OK ");
    reveal_strlit("[rat] ");
    reveal_strlit("[rat] ERROR ");
    one_line_is_queued(v.tx, "[rat] OK "@, message);
    one_line_is_queued(v.tx, "[rat] "@, message);
    one_line_is_queued(v.tx, "[rat] ERROR "@, message);
}

proof fn one_line_is_queued(queue: Seq<u8>, prefix: Seq<char>, message: Seq<char>)
    requires
        is_ascii_chars(prefix),
        queue.len() + prefix.len() + encode_utf8(message).len() + 2 <= 4096,
    ensures
        message_queued(queue, prefix, seq![message]) == queue + encode_utf8(prefix) + encode_utf8(
            message,
        ) + seq![13u8, 10u8],
{
    is_ascii_chars_encode_utf8(prefix);
    reveal_strlit("\r\n");
    let end = "\r\n"@;
    assert(is_ascii_chars(end));
    is_ascii_chars_encode_utf8(end);
    assert(encode_utf8(end) =~= seq![13u8, 10u8]);
    let pieces = seq![prefix] + seq![message] + seq![end];
    assert(pieces[0] == prefix);
    let second = pieces.skip(1);
    assert(second[0] == message);
    let third = second.skip(1);
    assert(third[0] == end);
    assert(third.skip(1).len() == 0);
    reveal_with_fuel(pieces_queued, 5);
    assert(queue + encode_utf8(prefix) + encode_utf8(message) + encode_utf8(end) =~= queue
        + encode_utf8(prefix) + encode_utf8(message) + seq![13u8, 10u8]);
}

} // verus!
