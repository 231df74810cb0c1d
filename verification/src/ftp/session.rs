//! The state of one FTP client's session.

use crate::ftp::job::{Action, Purpose};
use crate::ftp::listing::ListKind;
use crate::text::{opt_text, texts};
use vstd::prelude::*;
use vstd::string::*;
use vstd::utf8::*;

verus! {

/// What the server is doing, as its screen shows it.
#[derive(Clone, Copy, Debug, PartialEq, Eq, Structural)]
pub enum FtpStatus {
    Stopped,
    /// The network has given no address yet.
    Offline,
    Listening,
    Connected,
    Transfer,
}

impl Default for FtpStatus {
    fn default() -> (status: Self)
        ensures
            status == FtpStatus::Stopped,
    {
        FtpStatus::Stopped
    }
}

impl FtpStatus {
    /// The state in words.
    pub open spec fn text(self) -> Seq<char> {
        match self {
            FtpStatus::Stopped => "STOPPED"@,
            FtpStatus::Offline => "WAITING FOR WI-FI"@,
            FtpStatus::Listening => "LISTENING :21"@,
            FtpStatus::Connected => "CLIENT CONNECTED"@,
            FtpStatus::Transfer => "TRANSFER IN PROGRESS"@,
        }
    }

    pub fn label(self) -> (label: &'static str)
        ensures
            label@ == self.text(),
    {
        match self {
            FtpStatus::Stopped => "STOPPED",
            FtpStatus::Offline => "WAITING FOR WI-FI",
            FtpStatus::Listening => "LISTENING :21",
            FtpStatus::Connected => "CLIENT CONNECTED",
            FtpStatus::Transfer => "TRANSFER IN PROGRESS",
        }
    }
}

/// How much was transferred since the server was started.
#[derive(Clone, Copy, Debug, PartialEq, Eq, Structural)]
pub struct FtpStats {
    pub sent_bytes: u64,
    pub received_bytes: u64,
}

impl Default for FtpStats {
    fn default() -> (stats: Self)
        ensures
            stats.sent_bytes == 0,
            stats.received_bytes == 0,
    {
        FtpStats { sent_bytes: 0, received_bytes: 0 }
    }
}

/// A transfer the client ordered, waiting on the passive connection.
pub struct Pending {
    pub path: Vec<String>,
    pub purpose: Purpose<String>,
    pub since: u64,
}

/// What a [`Pending`] holds.
#[verifier::ext_equal]
pub struct PendingView {
    pub path: Seq<Seq<char>>,
    pub purpose: Purpose<Seq<char>>,
    pub since: u64,
}

impl View for Pending {
    type V = PendingView;

    open spec fn view(&self) -> PendingView {
        PendingView { path: texts(self.path@), purpose: self.purpose.view(), since: self.since }
    }
}

/// What a transfer moves.
pub enum TransferKind<B> {
    List {
        /// `None` = single-entry listing of one file (`done` after one chunk).
        dir: Option<u32>,
        kind: ListKind,
        /// Entries already consumed from the directory across chunks.
        skip: usize,
        done: bool,
        chunk: B,
        chunk_sent: usize,
    },
    Retrieve { file: u32 },
    Store { file: u32 },
}

impl TransferKind<Vec<u8>> {
    pub open spec fn view(self) -> TransferKind<Seq<u8>> {
        match self {
            TransferKind::List { dir, kind, skip, done, chunk, chunk_sent } => TransferKind::List {
                dir,
                kind,
                skip,
                done,
                chunk: chunk@,
                chunk_sent,
            },
            TransferKind::Retrieve { file } => TransferKind::Retrieve { file },
            TransferKind::Store { file } => TransferKind::Store { file },
        }
    }
}

/// Why a transfer broke off.
#[derive(Clone, Copy, Debug, PartialEq, Eq, Structural)]
pub enum Failure {
    Read,
    Write,
    Pipe,
    List,
}

/// A transfer under way.
pub struct Transfer {
    pub topic: String,
    pub kind: TransferKind<Vec<u8>>,
    /// Wait until the preliminary 150 reply has left the control socket before
    /// sending any data (required FTP ordering).
    pub announced: bool,
    /// Data production ended; waiting for the TCP queue to drain.
    pub finishing: bool,
    pub failed: Option<Failure>,
}

/// What a [`Transfer`] holds.
#[verifier::ext_equal]
pub struct TransferView {
    pub topic: Seq<char>,
    pub kind: TransferKind<Seq<u8>>,
    pub announced: bool,
    pub finishing: bool,
    pub failed: Option<Failure>,
}

impl View for Transfer {
    type V = TransferView;

    open spec fn view(&self) -> TransferView {
        TransferView {
            topic: self.topic@,
            kind: self.kind.view(),
            announced: self.announced,
            finishing: self.finishing,
            failed: self.failed,
        }
    }
}

/// One client's session.
pub struct Session {
    pub cwd: Vec<String>,
    pub user: Option<String>,
    pub logged_in: bool,
    pub rest: Option<u64>,
    /// Received bytes that do not make a line yet.
    pub line: Vec<u8>,
    /// Replies that have not been sent yet.
    pub out: Vec<u8>,
    pub peer: String,
    pub pending: Option<Pending>,
    pub transfer: Option<Transfer>,
    /// PASV/EPSV given; waiting for the client to pick a data transfer.
    pub passive_requested: bool,
    pub quit: bool,
    /// When the client last sent something, in microseconds of the timer.
    pub last_activity: u64,
}

/// What a [`Session`] holds.
#[verifier::ext_equal]
pub struct SessionView {
    pub cwd: Seq<Seq<char>>,
    pub user: Option<Seq<char>>,
    pub logged_in: bool,
    pub rest: Option<u64>,
    pub line: Seq<u8>,
    pub out: Seq<u8>,
    pub peer: Seq<char>,
    pub pending: Option<PendingView>,
    pub transfer: Option<TransferView>,
    pub passive_requested: bool,
    pub quit: bool,
    pub last_activity: u64,
}

impl View for Session {
    type V = SessionView;

    open spec fn view(&self) -> SessionView {
        SessionView {
            cwd: texts(self.cwd@),
            user: opt_text(self.user),
            logged_in: self.logged_in,
            rest: self.rest,
            line: self.line@,
            out: self.out@,
            peer: self.peer@,
            pending: match self.pending {
                Some(pending) => Some(pending@),
                None => None,
            },
            transfer: match self.transfer {
                Some(transfer) => Some(transfer@),
                None => None,
            },
            passive_requested: self.passive_requested,
            quit: self.quit,
            last_activity: self.last_activity,
        }
    }
}

/// The bytes of a reply line.
pub open spec fn reply_bytes(reply: Seq<char>) -> Seq<u8> {
    encode_utf8(reply) + seq![13u8, 10u8]
}

impl SessionView {
    /// A transfer is ordered or under way.
    pub open spec fn busy(self) -> bool {
        self.pending is Some || self.transfer is Some
    }

    /// The session after one more reply.
    pub open spec fn said(self, reply: Seq<char>) -> SessionView {
        SessionView { out: self.out + reply_bytes(reply), ..self }
    }

    /// No transfer is ordered while another is under way, only transfers are
    /// ordered, and no more of a chunk is sent than there is.
    pub open spec fn wf(self) -> bool {
        &&& !(self.pending is Some && self.transfer is Some)
        &&& self.pending matches Some(pending) ==> is_transfer(pending.purpose)
        &&& self.transfer matches Some(transfer) ==> transfer_wf(transfer)
    }

    /// The session without its transfer.
    pub open spec fn without_transfer(self) -> SessionView {
        SessionView { pending: None, transfer: None, ..self }
    }
}

/// A purpose that a data connection serves.
pub open spec fn is_transfer(purpose: Purpose<Seq<char>>) -> bool {
    purpose is Retrieve || purpose is Store || purpose is List
}

pub open spec fn transfer_wf(transfer: TransferView) -> bool {
    transfer.kind matches TransferKind::List { chunk, chunk_sent, .. } ==> chunk_sent
        <= chunk.len()
}

/// What closes the file or the directory of a transfer.
pub open spec fn close_actions(transfer: Option<TransferView>) -> Seq<Action> {
    match transfer {
        Some(transfer) => match transfer.kind {
            TransferKind::List { dir: Some(dir), .. } => seq![Action::CloseDir(dir)],
            TransferKind::List { dir: None, .. } => Seq::empty(),
            TransferKind::Retrieve { file } | TransferKind::Store { file } => seq![
                Action::CloseFile(file),
            ],
        },
        None => Seq::empty(),
    }
}

/// Appends what closes the file or the directory of a transfer.
pub(crate) fn close_kind(kind: &TransferKind<Vec<u8>>, actions: &mut Vec<Action>)
    ensures
        final(actions)@ == old(actions)@ + match kind.view() {
            TransferKind::List { dir: Some(dir), .. } => seq![Action::CloseDir(dir)],
            TransferKind::List { dir: None, .. } => Seq::empty(),
            TransferKind::Retrieve { file } | TransferKind::Store { file } => seq![
                Action::CloseFile(file),
            ],
        },
{
    match kind {
        TransferKind::List { dir: Some(dir), .. } => {
            actions.push(Action::CloseDir(*dir));
        },
        TransferKind::List { dir: None, .. } => {},
        TransferKind::Retrieve { file } | TransferKind::Store { file } => {
            actions.push(Action::CloseFile(*file));
        },
    }
}

/// The session of a client that has just connected.
pub open spec fn new_session(peer: Seq<char>, now: u64) -> SessionView {
    SessionView {
        cwd: Seq::empty(),
        user: None,
        logged_in: false,
        rest: None,
        line: Seq::empty(),
        out: Seq::empty(),
        peer,
        pending: None,
        transfer: None,
        passive_requested: false,
        quit: false,
        last_activity: now,
    }
}

impl Session {
    pub fn new(peer: String, now: u64) -> (session: Self)
        ensures
            session@ == new_session(peer@, now),
            session@.wf(),
    {
        Session {
            cwd: Vec::new(),
            user: None,
            logged_in: false,
            rest: None,
            line: Vec::new(),
            out: Vec::new(),
            peer,
            pending: None,
            transfer: None,
            passive_requested: false,
            quit: false,
            last_activity: now,
        }
    }

    /// Queues a reply line.
    pub fn reply(&mut self, text: &str)
        ensures
            final(self)@ == old(self)@.said(text@),
    {
        let ghost before = self.out@;
        self.out.extend_from_slice(text.as_bytes());
        self.out.push(13);
        self.out.push(10);
        assert(self.out@ =~= before + reply_bytes(text@));
    }

    /// A transfer is ordered or under way.
    pub fn busy(&self) -> (busy: bool)
        ensures
            busy == self@.busy(),
    {
        self.pending.is_some() || self.transfer.is_some()
    }

    /// Drops the transfer, ordered or under way, and appends what closes its
    /// file or directory.
    pub fn close_transfer(&mut self, actions: &mut Vec<Action>)
        ensures
            final(self)@ == old(self)@.without_transfer(),
            final(actions)@ == old(actions)@ + close_actions(old(self)@.transfer),
    {
        self.pending = None;
        if let Some(transfer) = self.transfer.take() {
            close_kind(&transfer.kind, actions);
        }
    }
}

} // verus!
