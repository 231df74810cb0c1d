//! FTP commands: reading a command line, what each command does to the session,
//! and what is answered when the card has done its part.

use crate::ftp::job::{Action, FsJob, JobResult, JobStage, JobView, Purpose, Refusal};
use crate::ftp::listing::{line_text, listing_line, timestamp_text, timestamp_ymdhms, ListKind};
use crate::ftp::name::{is_short_name, short_name_fits};
use crate::ftp::path::{
    covers, need_leaf, normalize, normalized, path_covers_cwd, path_split, split_path,
    strip_list_options, without_options,
};
use crate::ftp::session::{
    close_actions, FtpStats, Pending, PendingView, Session, SessionView, Transfer, TransferKind,
    TransferView,
};
use crate::storage::{now_text, now_ymdhms, FtpConfig, LocalTime};
use crate::text;
use crate::text::{decimal, joined, position, texts};
use vstd::prelude::*;
use vstd::string::*;
use vstd::utf8::*;

verus! {

pub const CONTROL_PORT: u16 = 21;

/// Fixed passive-mode data listener, right next to the control port.
pub const DATA_PORT: u16 = 20;

/// An IPv4 address.
#[derive(Clone, Copy, Debug, PartialEq, Eq, Structural)]
pub struct Ipv4 {
    pub a: u8,
    pub b: u8,
    pub c: u8,
    pub d: u8,
}

/// The commands that the server tells apart.
#[derive(Clone, Copy, Debug, PartialEq, Eq, Structural)]
pub enum Verb {
    Abor,
    Stat,
    Noop,
    Quit,
    User,
    Pass,
    Syst,
    Feat,
    Opts,
    /// AUTH, PBSZ and PROT: there is no TLS.
    Security,
    Help,
    Pwd,
    Cwd,
    Cdup,
    Type,
    /// MODE and STRU.
    Mode,
    /// PORT and EPRT: there is no active mode.
    Port,
    Pasv,
    Epsv,
    List,
    Nlst,
    Mlsd,
    Mlst,
    Retr,
    Stor,
    Rest,
    Size,
    Mdtm,
    Dele,
    Rmd,
    Mkd,
    /// RNFR and RNTO.
    Rename,
    Other,
}

/// The command that an upper-case word names.
pub open spec fn verb_of(word: Seq<char>) -> Verb {
    if word == "ABOR"@ {
        Verb::Abor
    } else if word == "STAT"@ {
        Verb::Stat
    } else if word == "NOOP"@ {
        Verb::Noop
    } else if word == "QUIT"@ {
        Verb::Quit
    } else if word == "USER"@ {
        Verb::User
    } else if word == "PASS"@ {
        Verb::Pass
    } else if word == "SYST"@ {
        Verb::Syst
    } else if word == "FEAT"@ {
        Verb::Feat
    } else if word == "OPTS"@ {
        Verb::Opts
    } else if word == "AUTH"@ || word == "PBSZ"@ || word == "PROT"@ {
        Verb::Security
    } else if word == "HELP"@ {
        Verb::Help
    } else if word == "PWD"@ || word == "XPWD"@ {
        Verb::Pwd
    } else if word == "CWD"@ || word == "XCWD"@ {
        Verb::Cwd
    } else if word == "CDUP"@ || word == "XCUP"@ {
        Verb::Cdup
    } else if word == "TYPE"@ {
        Verb::Type
    } else if word == "MODE"@ || word == "STRU"@ {
        Verb::Mode
    } else if word == "PORT"@ || word == "EPRT"@ {
        Verb::Port
    } else if word == "PASV"@ {
        Verb::Pasv
    } else if word == "EPSV"@ {
        Verb::Epsv
    } else if word == "LIST"@ {
        Verb::List
    } else if word == "NLST"@ {
        Verb::Nlst
    } else if word == "MLSD"@ {
        Verb::Mlsd
    } else if word == "MLST"@ {
        Verb::Mlst
    } else if word == "RETR"@ {
        Verb::Retr
    } else if word == "STOR"@ {
        Verb::Stor
    } else if word == "REST"@ {
        Verb::Rest
    } else if word == "SIZE"@ {
        Verb::Size
    } else if word == "MDTM"@ {
        Verb::Mdtm
    } else if word == "DELE"@ {
        Verb::Dele
    } else if word == "RMD"@ || word == "XRMD"@ {
        Verb::Rmd
    } else if word == "MKD"@ || word == "XMKD"@ {
        Verb::Mkd
    } else if word == "RNFR"@ || word == "RNTO"@ {
        Verb::Rename
    } else {
        Verb::Other
    }
}

/// Commands allowed before login, beside USER and PASS.
pub open spec fn before_login(verb: Verb) -> bool {
    verb == Verb::Syst || verb == Verb::Feat || verb == Verb::Security || verb == Verb::Opts || verb
        == Verb::Noop || verb == Verb::Help || verb == Verb::Quit || verb == Verb::Stat
}

/// A command line.
pub enum CommandLine<T> {
    BadEncoding,
    Empty,
    Command { verb: Verb, arg: T },
}

impl CommandLine<String> {
    pub open spec fn view(self) -> CommandLine<Seq<char>> {
        match self {
            CommandLine::BadEncoding => CommandLine::BadEncoding,
            CommandLine::Empty => CommandLine::Empty,
            CommandLine::Command { verb, arg } => CommandLine::Command { verb, arg: arg@ },
        }
    }
}

/// What the bytes of a line say: a word in any case, and after the first space
/// the argument without white space around it.
pub open spec fn command_line(line: Seq<u8>) -> CommandLine<Seq<char>> {
    if !valid_utf8(line) {
        CommandLine::BadEncoding
    } else {
        let command = text::trimmed(decode_utf8(line));
        let space = position(command, ' ');
        if command.len() == 0 {
            CommandLine::Empty
        } else if space < command.len() {
            CommandLine::Command {
                verb: verb_of(text::uppercase(command.take(space))),
                arg: text::trimmed(command.skip(space + 1)),
            }
        } else {
            CommandLine::Command { verb: verb_of(text::uppercase(command)), arg: Seq::empty() }
        }
    }
}

fn find_verb(word: &str) -> (verb: Verb)
    ensures
        verb == verb_of(word@),
{
    if text::same_text(word, "ABOR") {
        Verb::Abor
    } else if text::same_text(word, "STAT") {
        Verb::Stat
    } else if text::same_text(word, "NOOP") {
        Verb::Noop
    } else if text::same_text(word, "QUIT") {
        Verb::Quit
    } else if text::same_text(word, "USER") {
        Verb::User
    } else if text::same_text(word, "PASS") {
        Verb::Pass
    } else if text::same_text(word, "SYST") {
        Verb::Syst
    } else if text::same_text(word, "FEAT") {
        Verb::Feat
    } else if text::same_text(word, "OPTS") {
        Verb::Opts
    } else if text::same_text(word, "AUTH") || text::same_text(word, "PBSZ") || text::same_text(
        word,
        "PROT",
    ) {
        Verb::Security
    } else if text::same_text(word, "HELP") {
        Verb::Help
    } else if text::same_text(word, "PWD") || text::same_text(word, "XPWD") {
        Verb::Pwd
    } else if text::same_text(word, "CWD") || text::same_text(word, "XCWD") {
        Verb::Cwd
    } else if text::same_text(word, "CDUP") || text::same_text(word, "XCUP") {
        Verb::Cdup
    } else if text::same_text(word, "TYPE") {
        Verb::Type
    } else if text::same_text(word, "MODE") || text::same_text(word, "STRU") {
        Verb::Mode
    } else if text::same_text(word, "PORT") || text::same_text(word, "EPRT") {
        Verb::Port
    } else if text::same_text(word, "PASV") {
        Verb::Pasv
    } else if text::same_text(word, "EPSV") {
        Verb::Epsv
    } else if text::same_text(word, "LIST") {
        Verb::List
    } else if text::same_text(word, "NLST") {
        Verb::Nlst
    } else if text::same_text(word, "MLSD") {
        Verb::Mlsd
    } else if text::same_text(word, "MLST") {
        Verb::Mlst
    } else if text::same_text(word, "RETR") {
        Verb::Retr
    } else if text::same_text(word, "STOR") {
        Verb::Stor
    } else if text::same_text(word, "REST") {
        Verb::Rest
    } else if text::same_text(word, "SIZE") {
        Verb::Size
    } else if text::same_text(word, "MDTM") {
        Verb::Mdtm
    } else if text::same_text(word, "DELE") {
        Verb::Dele
    } else if text::same_text(word, "RMD") || text::same_text(word, "XRMD") {
        Verb::Rmd
    } else if text::same_text(word, "MKD") || text::same_text(word, "XMKD") {
        Verb::Mkd
    } else if text::same_text(word, "RNFR") || text::same_text(word, "RNTO") {
        Verb::Rename
    } else {
        Verb::Other
    }
}

/// Reads a command line.
pub fn parse_command_line(line: &[u8]) -> (command: CommandLine<String>)
    ensures
        command.view() == command_line(line@),
{
    match text::utf8_text(line) {
        None => CommandLine::BadEncoding,
        Some(whole) => {
            proof {
                encode_utf8_decode_utf8(whole@);
            }
            let bare = text::trim(whole);
            let chars = text::chars_of(bare.as_str());
            if chars.len() == 0 {
                return CommandLine::Empty;
            }
            let space: usize = text::find_char(chars.as_slice(), ' ');
            if space < chars.len() {
                let word = text::string_of(chars.as_slice(), 0, space);
                assert(word@ =~= chars@.take(space as int));
                let verb = find_verb(text::to_upper(word.as_str()).as_str());
                let tail = text::string_of(chars.as_slice(), space + 1, chars.len());
                assert(tail@ =~= chars@.skip(space + 1));
                let arg = text::trim(tail.as_str());
                CommandLine::Command { verb, arg }
            } else {
                let verb = find_verb(text::to_upper(bare.as_str()).as_str());
                let arg = String::new();
                assert(arg@ =~= Seq::<char>::empty());
                CommandLine::Command { verb, arg }
            }
        },
    }
}

// ---------------------------------------------------------------------------
// What commands do
// ---------------------------------------------------------------------------

/// What the card is asked for on behalf of a command.
pub enum Errand<T> {
    ChangeDir,
    Describe,
    Size,
    Modified,
    Delete,
    RemoveDir,
    /// The path of the new directory, as the reply gives it.
    MakeDir { target: T },
    /// Open what a data connection is waiting for.
    Transfer,
}

impl Errand<String> {
    pub open spec fn view(self) -> Errand<Seq<char>> {
        match self {
            Errand::ChangeDir => Errand::ChangeDir,
            Errand::Describe => Errand::Describe,
            Errand::Size => Errand::Size,
            Errand::Modified => Errand::Modified,
            Errand::Delete => Errand::Delete,
            Errand::RemoveDir => Errand::RemoveDir,
            Errand::MakeDir { target } => Errand::MakeDir { target: target@ },
            Errand::Transfer => Errand::Transfer,
        }
    }
}

/// A job for the card and what it is for.
pub struct Task {
    pub errand: Errand<String>,
    pub job: FsJob,
}

/// What a [`Task`] holds.
#[verifier::ext_equal]
pub struct TaskView {
    pub errand: Errand<Seq<char>>,
    pub job: JobView,
}

impl View for Task {
    type V = TaskView;

    open spec fn view(&self) -> TaskView {
        TaskView { errand: self.errand.view(), job: self.job@ }
    }
}

/// What is left to do for a command.
pub enum Dispatch {
    Done,
    /// The data connection is to be torn down.
    AbortData,
    /// The card has to do something first.
    Run(Task),
}

pub enum DispatchView {
    Done,
    AbortData,
    Run(TaskView),
}

impl View for Dispatch {
    type V = DispatchView;

    open spec fn view(&self) -> DispatchView {
        match self {
            Dispatch::Done => DispatchView::Done,
            Dispatch::AbortData => DispatchView::AbortData,
            Dispatch::Run(task) => DispatchView::Run(task@),
        }
    }
}

/// What a command leads to.
#[verifier::ext_equal]
pub struct Dispatched {
    pub session: SessionView,
    pub actions: Seq<Action>,
    pub next: DispatchView,
}

/// What commands depend on beside the session.
pub struct Env<'a> {
    pub config: &'a FtpConfig,
    pub ip: Option<Ipv4>,
    pub stats: FtpStats,
    /// The topic of the transfer under way.
    pub activity: &'a str,
    /// A reading of the timer, in microseconds.
    pub now: u64,
}

pub struct EnvView {
    pub user: Seq<char>,
    pub password: Seq<char>,
    pub ip: Option<Ipv4>,
    pub stats: FtpStats,
    pub activity: Seq<char>,
    pub now: u64,
}

impl<'a> View for Env<'a> {
    type V = EnvView;

    open spec fn view(&self) -> EnvView {
        EnvView {
            user: self.config.user@,
            password: self.config.password@,
            ip: self.ip,
            stats: self.stats,
            activity: self.activity@,
            now: self.now,
        }
    }
}

/// The command is dealt with.
pub open spec fn done(session: SessionView) -> Dispatched {
    Dispatched { session, actions: Seq::empty(), next: DispatchView::Done }
}

/// The card has to do something for the command first.
pub open spec fn run(
    session: SessionView,
    errand: Errand<Seq<char>>,
    path: Seq<Seq<char>>,
    purpose: Purpose<Seq<char>>,
) -> Dispatched {
    Dispatched {
        session,
        actions: Seq::empty(),
        next: DispatchView::Run(
            TaskView { errand, job: JobView { path, purpose, stage: JobStage::Root } },
        ),
    }
}

/// Commands while a transfer is ordered or under way: only urgent ones and those
/// that change nothing are processed.
pub open spec fn busy_command(session: SessionView, verb: Verb, env: EnvView) -> Dispatched {
    match verb {
        Verb::Abor => Dispatched {
            session: session.without_transfer().said("426 Transfer aborted by ABOR"@).said(
                "226 Abort done"@,
            ),
            actions: close_actions(session.transfer),
            next: DispatchView::AbortData,
        },
        Verb::Stat => done(session.said("211 "@ + env.activity)),
        Verb::Noop => done(session.said("200 OK"@)),
        Verb::Quit => done(SessionView { quit: true, ..session }),
        _ => done(session.said("450 Transfer in progress"@)),
    }
}

/// The replies of commands that always answer the same.
pub open spec fn fixed_replies(verb: Verb) -> Option<Seq<Seq<char>>> {
    match verb {
        Verb::Syst => Some(seq!["215 UNIX Type: L8"@]),
        Verb::Feat => Some(
            seq![
                "211-Features:"@,
                " UTF8"@,
                " MLSD"@,
                " MDTM"@,
                " SIZE"@,
                " REST STREAM"@,
                " PASV"@,
                "211 End"@,
            ],
        ),
        Verb::Opts => Some(seq!["200 OK"@]),
        Verb::Security => Some(seq!["502 Security not supported"@]),
        Verb::Noop => Some(seq!["200 OK"@]),
        Verb::Help => Some(
            seq![
                "214-Commands: USER PASS PWD CWD CDUP LIST NLST MLSD MLST"@,
                " RETR STOR DELE RMD MKD SIZE MDTM REST PASV EPSV QUIT"@,
                "214 Uploads need 8.3 names; no rename"@,
            ],
        ),
        Verb::Type => Some(seq!["200 Binary mode (transfer is always 8-bit)"@]),
        Verb::Mode => Some(seq!["200 OK"@]),
        Verb::Port => Some(seq!["502 Passive mode only"@]),
        Verb::Rename => Some(seq!["502 Rename not supported (8.3)"@]),
        Verb::Other | Verb::Abor => Some(seq!["502 Not implemented"@]),
        _ => None,
    }
}

impl SessionView {
    /// The session after several replies.
    pub open spec fn said_all(self, replies: Seq<Seq<char>>) -> SessionView
        decreases replies.len(),
    {
        if replies.len() == 0 {
            self
        } else {
            self.said_all(replies.drop_last()).said(replies.last())
        }
    }
}

/// An address and the data port as the reply to PASV gives them.
pub open spec fn passive_text(ip: Ipv4) -> Seq<char> {
    "227 Entering Passive Mode ("@ + decimal(ip.a as nat) + ","@ + decimal(ip.b as nat) + ","@
        + decimal(ip.c as nat) + ","@ + decimal(ip.d as nat) + ","@ + decimal(
        (DATA_PORT / 256) as nat,
    ) + ","@ + decimal((DATA_PORT % 256) as nat) + ")"@
}

/// PASV and EPSV: the passive listener is made ready again.
pub open spec fn passive_command(session: SessionView, ip: Option<Ipv4>, reply: Seq<char>) -> Dispatched {
    match ip {
        Some(_) => Dispatched {
            session: SessionView { pending: None, passive_requested: true, ..session }.said(reply),
            actions: Seq::empty(),
            next: DispatchView::AbortData,
        },
        None => done(session.said("425 No IP yet"@)),
    }
}

/// LIST, NLST and MLSD: the listing waits for the data connection.
pub open spec fn list_command(session: SessionView, verb: Verb, arg: Seq<char>, now: u64) -> Dispatched {
    let wanted = if verb == Verb::Mlsd {
        arg
    } else {
        without_options(text::trimmed(arg))
    };
    let (path, leaf) = path_split(session.cwd, wanted);
    let kind = match verb {
        Verb::Nlst => ListKind::Names,
        Verb::Mlsd => ListKind::Machine,
        _ => ListKind::List,
    };
    if !session.passive_requested {
        done(session.said("425 Use PASV or EPSV first"@))
    } else {
        done(
            SessionView {
                pending: Some(
                    PendingView { path, purpose: Purpose::List { leaf, kind }, since: now },
                ),
                ..session
            },
        )
    }
}

/// RETR: the file waits for the data connection; the restart offset is used up.
pub open spec fn retr_command(session: SessionView, arg: Seq<char>, now: u64) -> Dispatched {
    let (path, leaf) = path_split(session.cwd, arg);
    match leaf {
        None => done(session.said("501 File name required"@)),
        Some(leaf) => if !session.passive_requested {
            done(session.said("425 Use PASV or EPSV first"@))
        } else {
            let offset = match session.rest {
                Some(offset) => offset,
                None => 0,
            };
            done(
                SessionView {
                    rest: None,
                    pending: Some(
                        PendingView {
                            path,
                            purpose: Purpose::Retrieve { leaf, offset },
                            since: now,
                        },
                    ),
                    ..session
                },
            )
        },
    }
}

/// STOR: the file waits for the data connection; uploads cannot be resumed.
pub open spec fn stor_command(session: SessionView, arg: Seq<char>, now: u64) -> Dispatched {
    let (path, leaf) = path_split(session.cwd, arg);
    match leaf {
        None => done(session.said("501 File name required"@)),
        Some(leaf) => if !session.passive_requested {
            done(session.said("425 Use PASV or EPSV first"@))
        } else if session.rest is Some {
            done(SessionView { rest: None, ..session }.said("504 Cannot resume uploads"@))
        } else {
            done(
                SessionView {
                    pending: Some(PendingView { path, purpose: Purpose::Store(leaf), since: now }),
                    ..session
                },
            )
        },
    }
}

/// REST: the offset that the next download starts from.
pub open spec fn rest_command(session: SessionView, arg: Seq<char>) -> Dispatched {
    match text::number_value(arg) {
        Some(offset) if offset <= u64::MAX => done(
            SessionView { rest: Some(offset as u64), ..session }.said("350 Restart stored"@),
        ),
        _ => done(session.said("501 Bad offset"@)),
    }
}

/// MLST: the directory itself, or an entry of it.
pub open spec fn mlst_command(session: SessionView, arg: Seq<char>) -> Dispatched {
    let (path, leaf) = path_split(session.cwd, arg);
    match leaf {
        None => run(session, Errand::Describe, path, Purpose::Visit),
        Some(leaf) => run(session, Errand::Describe, path, Purpose::Inspect(leaf)),
    }
}

/// SIZE and MDTM: look up an entry.
pub open spec fn inspect_command(
    session: SessionView,
    errand: Errand<Seq<char>>,
    arg: Seq<char>,
) -> Dispatched {
    let (path, leaf) = path_split(session.cwd, arg);
    match leaf {
        None => done(session.said("550 No such file or directory"@)),
        Some(leaf) => run(session, errand, path, Purpose::Inspect(leaf)),
    }
}

/// DELE: delete a file.
pub open spec fn dele_command(session: SessionView, arg: Seq<char>) -> Dispatched {
    let (path, leaf) = path_split(session.cwd, arg);
    match leaf {
        None => done(session.said("501 File name required"@)),
        Some(leaf) => run(session, Errand::Delete, path, Purpose::Delete(leaf)),
    }
}

/// RMD: remove a directory, unless the current one lies in it.
pub open spec fn rmd_command(session: SessionView, arg: Seq<char>) -> Dispatched {
    let (path, leaf) = path_split(session.cwd, arg);
    match leaf {
        None => done(session.said("501 Directory name required"@)),
        Some(leaf) => if covers(session.cwd, normalized(session.cwd, arg)) {
            done(session.said("550 Cannot remove current directory"@))
        } else {
            run(session, Errand::RemoveDir, path, Purpose::RemoveDir(leaf))
        },
    }
}

/// MKD: make a directory.
pub open spec fn mkd_command(session: SessionView, arg: Seq<char>) -> Dispatched {
    let (path, leaf) = path_split(session.cwd, arg);
    match leaf {
        None => done(session.said("501 Directory name required"@)),
        Some(leaf) => run(
            session,
            Errand::MakeDir { target: joined(normalized(session.cwd, arg), "/"@) },
            path,
            Purpose::MakeDir(leaf),
        ),
    }
}

/// Commands of a client that may use them, while no transfer is in the way.
pub open spec fn ready_command(
    session: SessionView,
    verb: Verb,
    arg: Seq<char>,
    env: EnvView,
) -> Dispatched {
    match verb {
        Verb::Quit => done(SessionView { quit: true, ..session.said("221 Bye"@) }),
        Verb::Stat => done(
            session.said(
                "211 OK, sent "@ + decimal(env.stats.sent_bytes as nat) + " B, received "@
                    + decimal(env.stats.received_bytes as nat) + " B"@,
            ),
        ),
        Verb::Pwd => done(
            session.said("257 \"/"@ + joined(session.cwd, "/"@) + "\" is current"@),
        ),
        Verb::Cwd => run(
            session,
            Errand::ChangeDir,
            normalized(session.cwd, arg),
            Purpose::Visit,
        ),
        Verb::Cdup => done(
            SessionView {
                cwd: if session.cwd.len() > 0 {
                    session.cwd.drop_last()
                } else {
                    session.cwd
                },
                ..session
            }.said("250 Directory changed"@),
        ),
        Verb::Pasv => match env.ip {
            Some(ip) => passive_command(session, env.ip, passive_text(ip)),
            None => passive_command(session, env.ip, Seq::empty()),
        },
        Verb::Epsv => passive_command(
            session,
            env.ip,
            "229 (|||"@ + decimal(DATA_PORT as nat) + "|)"@,
        ),
        Verb::List | Verb::Nlst | Verb::Mlsd => list_command(session, verb, arg, env.now),
        Verb::Mlst => mlst_command(session, arg),
        Verb::Retr => retr_command(session, arg, env.now),
        Verb::Stor => stor_command(session, arg, env.now),
        Verb::Rest => rest_command(session, arg),
        Verb::Size => inspect_command(session, Errand::Size, arg),
        Verb::Mdtm => inspect_command(session, Errand::Modified, arg),
        Verb::Dele => dele_command(session, arg),
        Verb::Rmd => rmd_command(session, arg),
        Verb::Mkd => mkd_command(session, arg),
        _ => match fixed_replies(verb) {
            Some(replies) => done(session.said_all(replies)),
            None => done(session),
        },
    }
}

/// What a command leads to.
#[verifier::opaque]
pub open spec fn command(
    session: SessionView,
    verb: Verb,
    arg: Seq<char>,
    env: EnvView,
) -> Dispatched {
    if session.busy() {
        busy_command(session, verb, env)
    } else if verb == Verb::User {
        done(
            SessionView { user: Some(arg), logged_in: false, ..session }.said(
                "331 Password required"@,
            ),
        )
    } else if verb == Verb::Pass {
        if session.user == Some(env.user) && arg == env.password {
            done(
                SessionView { logged_in: true, ..session }.said("230 Logged in, SD card shared"@),
            )
        } else {
            done(session.said("530 Wrong user or password"@))
        }
    } else if !session.logged_in && !before_login(verb) {
        done(session.said("530 Log in first"@))
    } else {
        ready_command(session, verb, arg, env)
    }
}

/// What a command line leads to.
pub open spec fn dispatched(session: SessionView, line: Seq<u8>, env: EnvView) -> Dispatched {
    match command_line(line) {
        CommandLine::BadEncoding => done(session.said("500 Bad command encoding"@)),
        CommandLine::Empty => done(session),
        CommandLine::Command { verb, arg } => command(session, verb, arg, env),
    }
}

// ---------------------------------------------------------------------------
// The dispatcher
// ---------------------------------------------------------------------------

impl Session {
    fn fixed_command(&mut self, verb: Verb)
        requires
            fixed_replies(verb) is Some,
        ensures
            final(self)@ == old(self)@.said_all(fixed_replies(verb)->0),
    {
        let ghost start = self@;
        let ghost replies = fixed_replies(verb)->0;
        proof {
            reveal_with_fuel(SessionView::said_all, 9);
        }
        match verb {
            Verb::Syst => self.reply("215 UNIX Type: L8"),
            Verb::Feat => {
                self.reply("211-Features:");
                self.reply(" UTF8");
                self.reply(" MLSD");
                self.reply(" MDTM");
                self.reply(" SIZE");
                self.reply(" REST STREAM");
                self.reply(" PASV");
                self.reply("211 End");
            },
            Verb::Opts | Verb::Noop | Verb::Mode => self.reply("200 OK"),
            Verb::Security => self.reply("502 Security not supported"),
            Verb::Help => {
                self.reply("214-Commands: USER PASS PWD CWD CDUP LIST NLST MLSD MLST");
                self.reply(" RETR STOR DELE RMD MKD SIZE MDTM REST PASV EPSV QUIT");
                self.reply("214 Uploads need 8.3 names; no rename");
            },
            Verb::Type => self.reply("200 Binary mode (transfer is always 8-bit)"),
            Verb::Port => self.reply("502 Passive mode only"),
            Verb::Rename => self.reply("502 Rename not supported (8.3)"),
            _ => self.reply("502 Not implemented"),
        }
    }

    fn busy_command(&mut self, verb: Verb, env: &Env, actions: &mut Vec<Action>) -> (next: Dispatch)
        ensures
            final(self)@ == busy_command(old(self)@, verb, env@).session,
            final(actions)@ == old(actions)@ + busy_command(old(self)@, verb, env@).actions,
            next@ == busy_command(old(self)@, verb, env@).next,
    {
        match verb {
            Verb::Abor => {
                self.close_transfer(actions);
                self.reply("426 Transfer aborted by ABOR");
                self.reply("226 Abort done");
                return Dispatch::AbortData;
            },
            Verb::Stat => {
                let mut reply = "211 ".to_owned();
                reply.append(env.activity);
                self.reply(reply.as_str());
            },
            Verb::Noop => self.reply("200 OK"),
            Verb::Quit => {
                self.quit = true;
            },
            _ => self.reply("450 Transfer in progress"),
        }
        Dispatch::Done
    }

    fn passive_command(&mut self, ip: Option<Ipv4>, reply: &str) -> (next: Dispatch)
        ensures
            final(self)@ == passive_command(old(self)@, ip, reply@).session,
            next@ == passive_command(old(self)@, ip, reply@).next,
    {
        match ip {
            Some(_) => {
                self.pending = None;
                self.passive_requested = true;
                self.reply(reply);
                Dispatch::AbortData
            },
            None => {
                self.reply("425 No IP yet");
                Dispatch::Done
            },
        }
    }

    fn list_command(&mut self, verb: Verb, arg: &str, now: u64)
        ensures
            final(self)@ == list_command(old(self)@, verb, arg@, now).session,
    {
        let machine = match verb {
            Verb::Mlsd => true,
            _ => false,
        };
        let wanted = if machine {
            arg.to_owned()
        } else {
            strip_list_options(arg)
        };
        let (path, leaf) = split_path(self.cwd.as_slice(), wanted.as_str());
        if !self.passive_requested {
            self.reply("425 Use PASV or EPSV first");
            return ;
        }
        let kind = match verb {
            Verb::Nlst => ListKind::Names,
            Verb::Mlsd => ListKind::Machine,
            _ => ListKind::List,
        };
        self.pending = Some(Pending { path, purpose: Purpose::List { leaf, kind }, since: now });
    }

    fn retr_command(&mut self, arg: &str, now: u64)
        ensures
            final(self)@ == retr_command(old(self)@, arg@, now).session,
    {
        match need_leaf(self.cwd.as_slice(), arg) {
            None => self.reply("501 File name required"),
            Some((path, leaf)) => {
                if !self.passive_requested {
                    self.reply("425 Use PASV or EPSV first");
                    return ;
                }
                let offset: u64 = match self.rest {
                    Some(offset) => offset,
                    None => 0,
                };
                self.rest = None;
                self.pending = Some(
                    Pending { path, purpose: Purpose::Retrieve { leaf, offset }, since: now },
                );
            },
        }
    }

    fn stor_command(&mut self, arg: &str, now: u64)
        ensures
            final(self)@ == stor_command(old(self)@, arg@, now).session,
    {
        match need_leaf(self.cwd.as_slice(), arg) {
            None => self.reply("501 File name required"),
            Some((path, leaf)) => {
                if !self.passive_requested {
                    self.reply("425 Use PASV or EPSV first");
                    return ;
                }
                if self.rest.is_some() {
                    self.rest = None;
                    self.reply("504 Cannot resume uploads");
                    return ;
                }
                self.pending = Some(Pending { path, purpose: Purpose::Store(leaf), since: now });
            },
        }
    }

    fn rest_command(&mut self, arg: &str)
        ensures
            final(self)@ == rest_command(old(self)@, arg@).session,
    {
        match text::parse_number(arg) {
            Some(offset) => {
                self.rest = Some(offset);
                self.reply("350 Restart stored");
            },
            None => self.reply("501 Bad offset"),
        }
    }

    fn inspect_command(&mut self, errand: Errand<String>, arg: &str) -> (next: Dispatch)
        ensures
            final(self)@ == inspect_command(old(self)@, errand.view(), arg@).session,
            next@ == inspect_command(old(self)@, errand.view(), arg@).next,
    {
        match need_leaf(self.cwd.as_slice(), arg) {
            None => {
                self.reply("550 No such file or directory");
                Dispatch::Done
            },
            Some((path, leaf)) => Dispatch::Run(
                Task { errand, job: FsJob::new(path, Purpose::Inspect(leaf)) },
            ),
        }
    }

    fn mlst_command(&self, arg: &str) -> (next: Dispatch)
        ensures
            next@ == mlst_command(self@, arg@).next,
    {
        let (path, leaf) = split_path(self.cwd.as_slice(), arg);
        let purpose = match leaf {
            None => Purpose::Visit,
            Some(leaf) => Purpose::Inspect(leaf),
        };
        Dispatch::Run(Task { errand: Errand::Describe, job: FsJob::new(path, purpose) })
    }

    fn dele_command(&mut self, arg: &str) -> (next: Dispatch)
        ensures
            final(self)@ == dele_command(old(self)@, arg@).session,
            next@ == dele_command(old(self)@, arg@).next,
    {
        match need_leaf(self.cwd.as_slice(), arg) {
            None => {
                self.reply("501 File name required");
                Dispatch::Done
            },
            Some((path, leaf)) => Dispatch::Run(
                Task { errand: Errand::Delete, job: FsJob::new(path, Purpose::Delete(leaf)) },
            ),
        }
    }

    fn rmd_command(&mut self, arg: &str) -> (next: Dispatch)
        ensures
            final(self)@ == rmd_command(old(self)@, arg@).session,
            next@ == rmd_command(old(self)@, arg@).next,
    {
        match need_leaf(self.cwd.as_slice(), arg) {
            None => {
                self.reply("501 Directory name required");
                Dispatch::Done
            },
            Some((path, leaf)) => {
                let target = normalize(self.cwd.as_slice(), arg);
                if path_covers_cwd(self.cwd.as_slice(), target.as_slice()) {
                    self.reply("550 Cannot remove current directory");
                    return Dispatch::Done;
                }
                Dispatch::Run(
                    Task {
                        errand: Errand::RemoveDir,
                        job: FsJob::new(path, Purpose::RemoveDir(leaf)),
                    },
                )
            },
        }
    }

    fn mkd_command(&mut self, arg: &str) -> (next: Dispatch)
        ensures
            final(self)@ == mkd_command(old(self)@, arg@).session,
            next@ == mkd_command(old(self)@, arg@).next,
    {
        match need_leaf(self.cwd.as_slice(), arg) {
            None => {
                self.reply("501 Directory name required");
                Dispatch::Done
            },
            Some((path, leaf)) => {
                let created = normalize(self.cwd.as_slice(), arg);
                let target = text::join(created.as_slice(), "/");
                Dispatch::Run(
                    Task {
                        errand: Errand::MakeDir { target },
                        job: FsJob::new(path, Purpose::MakeDir(leaf)),
                    },
                )
            },
        }
    }

    fn stat_command(&mut self, stats: FtpStats)
        ensures
            final(self)@ == old(self)@.said(
                "211 OK, sent "@ + decimal(stats.sent_bytes as nat) + " B, received "@ + decimal(
                    stats.received_bytes as nat,
                ) + " B"@,
            ),
    {
        let mut reply = "211 OK, sent ".to_owned();
        let sent = text::decimal_text(stats.sent_bytes);
        reply.append(sent.as_str());
        reply.append(" B, received ");
        let received = text::decimal_text(stats.received_bytes);
        reply.append(received.as_str());
        reply.append(" B");
        self.reply(reply.as_str());
    }

    fn pwd_command(&mut self)
        ensures
            final(self)@ == old(self)@.said(
                "257 \"/"@ + joined(old(self)@.cwd, "/"@) + "\" is current"@,
            ),
    {
        let mut reply = "257 \"/".to_owned();
        let path = text::join(self.cwd.as_slice(), "/");
        reply.append(path.as_str());
        reply.append("\" is current");
        self.reply(reply.as_str());
    }

    fn cdup_command(&mut self)
        ensures
            final(self)@ == (SessionView {
                cwd: if old(self)@.cwd.len() > 0 {
                    old(self)@.cwd.drop_last()
                } else {
                    old(self)@.cwd
                },
                ..old(self)@
            }).said("250 Directory changed"@),
    {
        let ghost before = texts(self.cwd@);
        let _ = self.cwd.pop();
        assert(before.len() > 0 ==> texts(self.cwd@) =~= before.drop_last());
        assert(before.len() == 0 ==> texts(self.cwd@) =~= before);
        self.reply("250 Directory changed");
    }

    fn ready_command(&mut self, verb: Verb, arg: &str, env: &Env) -> (next: Dispatch)
        requires
            verb != Verb::User,
            verb != Verb::Pass,
        ensures
            final(self)@ == ready_command(old(self)@, verb, arg@, env@).session,
            ready_command(old(self)@, verb, arg@, env@).actions == Seq::<Action>::empty(),
            next@ == ready_command(old(self)@, verb, arg@, env@).next,
    {
        match verb {
            Verb::Quit => {
                self.reply("221 Bye");
                self.quit = true;
                Dispatch::Done
            },
            Verb::Stat => {
                self.stat_command(env.stats);
                Dispatch::Done
            },
            Verb::Pwd => {
                self.pwd_command();
                Dispatch::Done
            },
            Verb::Cwd => {
                let target = normalize(self.cwd.as_slice(), arg);
                Dispatch::Run(
                    Task { errand: Errand::ChangeDir, job: FsJob::new(target, Purpose::Visit) },
                )
            },
            Verb::Cdup => {
                self.cdup_command();
                Dispatch::Done
            },
            Verb::Pasv => {
                let reply = match env.ip {
                    Some(ip) => passive_reply(ip),
                    None => String::new(),
                };
                self.passive_command(env.ip, reply.as_str())
            },
            Verb::Epsv => {
                let mut reply = "229 (|||".to_owned();
                let port = text::decimal_text(DATA_PORT as u64);
                reply.append(port.as_str());
                reply.append("|)");
                self.passive_command(env.ip, reply.as_str())
            },
            Verb::List | Verb::Nlst | Verb::Mlsd => {
                self.list_command(verb, arg, env.now);
                Dispatch::Done
            },
            Verb::Mlst => self.mlst_command(arg),
            Verb::Retr => {
                self.retr_command(arg, env.now);
                Dispatch::Done
            },
            Verb::Stor => {
                self.stor_command(arg, env.now);
                Dispatch::Done
            },
            Verb::Rest => {
                self.rest_command(arg);
                Dispatch::Done
            },
            Verb::Size => self.inspect_command(Errand::Size, arg),
            Verb::Mdtm => self.inspect_command(Errand::Modified, arg),
            Verb::Dele => self.dele_command(arg),
            Verb::Rmd => self.rmd_command(arg),
            Verb::Mkd => self.mkd_command(arg),
            _ => {
                self.fixed_command(verb);
                Dispatch::Done
            },
        }
    }

    fn command(&mut self, verb: Verb, arg: &str, env: &Env, actions: &mut Vec<Action>) -> (next:
        Dispatch)
        ensures
            final(self)@ == command(old(self)@, verb, arg@, env@).session,
            final(actions)@ == old(actions)@ + command(old(self)@, verb, arg@, env@).actions,
            next@ == command(old(self)@, verb, arg@, env@).next,
    {
        proof {
            reveal(command);
        }
        if self.busy() {
            return self.busy_command(verb, env, actions);
        }
        match verb {
            Verb::User => {
                self.user = Some(arg.to_owned());
                self.logged_in = false;
                self.reply("331 Password required");
                return Dispatch::Done;
            },
            Verb::Pass => {
                let user_ok = match &self.user {
                    Some(user) => text::same_text(user.as_str(), env.config.user.as_str()),
                    None => false,
                };
                if user_ok && text::same_text(arg, env.config.password.as_str()) {
                    self.logged_in = true;
                    self.reply("230 Logged in, SD card shared");
                } else {
                    self.reply("530 Wrong user or password");
                }
                return Dispatch::Done;
            },
            _ => {},
        }
        if !self.logged_in && !allowed_before_login(verb) {
            self.reply("530 Log in first");
            return Dispatch::Done;
        }
        self.ready_command(verb, arg, env)
    }

    /// Does what a command line says, as far as it can be done without the card.
    pub fn handle_command_line(
        &mut self,
        line: &[u8],
        env: &Env,
        actions: &mut Vec<Action>,
    ) -> (next: Dispatch)
        ensures
            final(self)@ == dispatched(old(self)@, line@, env@).session,
            final(actions)@ == old(actions)@ + dispatched(old(self)@, line@, env@).actions,
            next@ == dispatched(old(self)@, line@, env@).next,
    {
        match parse_command_line(line) {
            CommandLine::BadEncoding => {
                self.reply("500 Bad command encoding");
                Dispatch::Done
            },
            CommandLine::Empty => Dispatch::Done,
            CommandLine::Command { verb, arg } => self.command(verb, arg.as_str(), env, actions),
        }
    }
}

fn allowed_before_login(verb: Verb) -> (yes: bool)
    ensures
        yes == before_login(verb),
{
    match verb {
        Verb::Syst
        | Verb::Feat
        | Verb::Security
        | Verb::Opts
        | Verb::Noop
        | Verb::Help
        | Verb::Quit
        | Verb::Stat => true,
        _ => false,
    }
}

fn passive_reply(ip: Ipv4) -> (reply: String)
    ensures
        reply@ == passive_text(ip),
{
    let mut reply = "227 Entering Passive Mode (".to_owned();
    let a = text::decimal_text(ip.a as u64);
    reply.append(a.as_str());
    reply.append(",");
    let b = text::decimal_text(ip.b as u64);
    reply.append(b.as_str());
    reply.append(",");
    let c = text::decimal_text(ip.c as u64);
    reply.append(c.as_str());
    reply.append(",");
    let d = text::decimal_text(ip.d as u64);
    reply.append(d.as_str());
    reply.append(",");
    let high = text::decimal_text((DATA_PORT / 256) as u64);
    reply.append(high.as_str());
    reply.append(",");
    let low = text::decimal_text((DATA_PORT % 256) as u64);
    reply.append(low.as_str());
    reply.append(")");
    reply
}

// ---------------------------------------------------------------------------
// When the card has done its part
// ---------------------------------------------------------------------------

/// What a finished task leads to.
#[verifier::ext_equal]
pub struct Finished {
    pub session: SessionView,
    /// The data connection is to be torn down.
    pub abort_data: bool,
}

/// The fact line of the directory that a path leads to.
pub open spec fn directory_facts(path: Seq<Seq<char>>, local: LocalTime) -> Seq<char> {
    "Type=dir;Modify="@ + now_text(local) + "; /"@ + joined(path, "/"@)
}

/// The reply to MLST.
pub open spec fn describe_reply(
    session: SessionView,
    job: JobView,
    result: JobResult,
    local: LocalTime,
) -> SessionView {
    let facts = match (result, job.purpose) {
        (JobResult::Here, _) => Some(directory_facts(job.path, local)),
        (JobResult::Inspected(Some(entry)), Purpose::Inspect(leaf)) => Some(
            line_text(ListKind::Machine, entry, leaf, local),
        ),
        _ => None,
    };
    match facts {
        Some(line) => session.said("250- /"@ + joined(job.path, "/"@)).said(" "@ + line).said(
            "250 End"@,
        ),
        None => if result == JobResult::Missing {
            session.said("550 Path not found"@)
        } else {
            session.said("550 No such file or directory"@)
        },
    }
}

/// The reply to SIZE.
pub open spec fn size_reply(session: SessionView, result: JobResult) -> SessionView {
    match result {
        JobResult::Inspected(Some(entry)) => if entry.directory {
            session.said("550 Is a directory"@)
        } else {
            session.said("213 "@ + decimal(entry.size as nat))
        },
        _ => session.said("550 No such file or directory"@),
    }
}

/// The reply to MDTM.
pub open spec fn modified_reply(session: SessionView, result: JobResult) -> SessionView {
    match result {
        JobResult::Inspected(Some(entry)) => session.said("213 "@ + timestamp_text(entry.mtime)),
        _ => session.said("550 No such file or directory"@),
    }
}

/// The reply to MKD.
pub open spec fn made_reply(
    session: SessionView,
    target: Seq<char>,
    purpose: Purpose<Seq<char>>,
    result: JobResult,
) -> SessionView {
    if result == JobResult::Done(true) {
        session.said("257 \"/"@ + target + "\" created"@)
    } else if purpose matches Purpose::MakeDir(leaf) && !is_short_name(leaf) {
        session.said("553 Use 8.3 names for new directories"@)
    } else {
        session.said("550 Cannot create directory"@)
    }
}

/// The reply to a transfer that cannot start.
pub open spec fn refusal_text(refusal: Refusal) -> Seq<char> {
    match refusal {
        Refusal::NotFound => "550 No such file or directory"@,
        Refusal::IsDirectory => "550 Is a directory"@,
        Refusal::BadOffset => "550 Bad restart offset"@,
        Refusal::EmptyName => "501 Empty file name"@,
        Refusal::BadName => "553 Use 8.3 names (e.g. PHOTO.JPG)"@,
        Refusal::CannotCreate => "550 Cannot create file"@,
        Refusal::PathMissing => "550 Path not found"@,
    }
}

/// The transfer that starts, and its preliminary reply.
pub open spec fn started(job: JobView, result: JobResult, local: LocalTime) -> Result<
    (TransferView, Seq<char>),
    Seq<char>,
> {
    match (result, job.purpose) {
        (JobResult::File { file, size }, Purpose::Retrieve { leaf, .. }) => Ok(
            (
                new_transfer("RETR "@ + leaf, TransferKind::Retrieve { file }),
                "150 Sending "@ + decimal(size as nat) + " bytes"@,
            ),
        ),
        (JobResult::File { file, .. }, Purpose::Store(leaf)) => Ok(
            (
                new_transfer("STOR "@ + leaf, TransferKind::Store { file }),
                "150 Ready for "@ + leaf,
            ),
        ),
        (JobResult::Directory(dir), Purpose::List { kind, .. }) => Ok(
            (
                new_transfer(
                    "LIST /"@ + joined(job.path, "/"@),
                    TransferKind::List {
                        dir: Some(dir),
                        kind,
                        skip: 0,
                        done: false,
                        chunk: Seq::empty(),
                        chunk_sent: 0,
                    },
                ),
                "150 Listing"@,
            ),
        ),
        (JobResult::Single(entry), Purpose::List { leaf: Some(leaf), kind }) => Ok(
            (
                new_transfer(
                    "LIST /"@ + joined(job.path, "/"@),
                    TransferKind::List {
                        dir: None,
                        kind,
                        skip: 0,
                        done: true,
                        chunk: encode_utf8(line_text(kind, entry, leaf, local)) + seq![13u8, 10u8],
                        chunk_sent: 0,
                    },
                ),
                "150 Listing"@,
            ),
        ),
        (JobResult::Refused(refusal), _) => Err(refusal_text(refusal)),
        _ => Err("550 Path not found"@),
    }
}

/// A transfer of which nothing has been sent yet.
pub open spec fn new_transfer(topic: Seq<char>, kind: TransferKind<Seq<u8>>) -> TransferView {
    TransferView { topic, kind, announced: false, finishing: false, failed: None }
}

/// What a finished task leads to.
pub open spec fn finished(
    session: SessionView,
    task: TaskView,
    result: JobResult,
    local: LocalTime,
) -> Finished {
    match task.errand {
        Errand::ChangeDir => Finished {
            session: if result == JobResult::Here {
                SessionView { cwd: task.job.path, ..session }.said("250 Directory changed"@)
            } else {
                session.said("550 No such directory"@)
            },
            abort_data: false,
        },
        Errand::Describe => Finished {
            session: describe_reply(session, task.job, result, local),
            abort_data: false,
        },
        Errand::Size => Finished { session: size_reply(session, result), abort_data: false },
        Errand::Modified => Finished {
            session: modified_reply(session, result),
            abort_data: false,
        },
        Errand::Delete => Finished {
            session: if result == JobResult::Done(true) {
                session.said("250 Deleted"@)
            } else {
                session.said("550 Cannot delete"@)
            },
            abort_data: false,
        },
        Errand::RemoveDir => Finished {
            session: if result == JobResult::Done(true) {
                session.said("250 Directory removed"@)
            } else {
                session.said("550 Not empty or not found"@)
            },
            abort_data: false,
        },
        Errand::MakeDir { target } => Finished {
            session: made_reply(session, target, task.job.purpose, result),
            abort_data: false,
        },
        Errand::Transfer => match started(task.job, result, local) {
            Ok((transfer, greeting)) => Finished {
                session: SessionView {
                    transfer: Some(transfer),
                    passive_requested: false,
                    ..session
                }.said(greeting),
                abort_data: false,
            },
            Err(reply) => Finished {
                session: SessionView { transfer: None, ..session }.said(reply),
                abort_data: true,
            },
        },
    }
}

fn refusal_reply(refusal: Refusal) -> (reply: &'static str)
    ensures
        reply@ == refusal_text(refusal),
{
    match refusal {
        Refusal::NotFound => "550 No such file or directory",
        Refusal::IsDirectory => "550 Is a directory",
        Refusal::BadOffset => "550 Bad restart offset",
        Refusal::EmptyName => "501 Empty file name",
        Refusal::BadName => "553 Use 8.3 names (e.g. PHOTO.JPG)",
        Refusal::CannotCreate => "550 Cannot create file",
        Refusal::PathMissing => "550 Path not found",
    }
}

fn is_done(result: JobResult) -> (yes: bool)
    ensures
        yes == (result == JobResult::Done(true)),
{
    match result {
        JobResult::Done(done) => done,
        _ => false,
    }
}

/// Two texts one after the other.
fn concatenated(front: &str, back: &str) -> (out: String)
    ensures
        out@ == front@ + back@,
{
    let mut out = front.to_owned();
    out.append(back);
    out
}

/// The transfer that starts once its file or directory is open, and its
/// preliminary reply; or the reply that refuses it.
pub fn start_transfer(job: &FsJob, result: JobResult, local: &LocalTime) -> (start: Result<
    (Transfer, String),
    String,
>)
    ensures
        match started(job@, result, *local) {
            Ok((transfer, greeting)) => start matches Ok((exec_transfer, exec_greeting))
                && exec_transfer@ == transfer && exec_greeting@ == greeting,
            Err(reply) => start matches Err(exec_reply) && exec_reply@ == reply,
        },
{
    match (result, &job.purpose) {
        (JobResult::File { file, size }, Purpose::Retrieve { leaf, .. }) => {
            let topic = concatenated("RETR ", leaf.as_str());
            let mut greeting = "150 Sending ".to_owned();
            let digits = text::decimal_text(size);
            greeting.append(digits.as_str());
            greeting.append(" bytes");
            Ok((begin_transfer(topic, TransferKind::Retrieve { file }), greeting))
        },
        (JobResult::File { file, .. }, Purpose::Store(leaf)) => {
            let topic = concatenated("STOR ", leaf.as_str());
            let greeting = concatenated("150 Ready for ", leaf.as_str());
            Ok((begin_transfer(topic, TransferKind::Store { file }), greeting))
        },
        (JobResult::Directory(dir), Purpose::List { kind, .. }) => {
            let path = text::join(job.path.as_slice(), "/");
            let topic = concatenated("LIST /", path.as_str());
            let kind = TransferKind::List {
                dir: Some(dir),
                kind: *kind,
                skip: 0,
                done: false,
                chunk: Vec::new(),
                chunk_sent: 0,
            };
            Ok((begin_transfer(topic, kind), "150 Listing".to_owned()))
        },
        (JobResult::Single(entry), Purpose::List { leaf: Some(leaf), kind }) => {
            let path = text::join(job.path.as_slice(), "/");
            let topic = concatenated("LIST /", path.as_str());
            let line = listing_line(*kind, &entry, leaf.as_str(), local);
            let mut chunk: Vec<u8> = Vec::new();
            chunk.extend_from_slice(line.as_str().as_bytes());
            chunk.push(13);
            chunk.push(10);
            assert(chunk@ =~= encode_utf8(line@) + seq![13u8, 10u8]);
            let kind = TransferKind::List {
                dir: None,
                kind: *kind,
                skip: 0,
                done: true,
                chunk,
                chunk_sent: 0,
            };
            Ok((begin_transfer(topic, kind), "150 Listing".to_owned()))
        },
        (JobResult::Refused(refusal), _) => Err(refusal_reply(refusal).to_owned()),
        _ => Err("550 Path not found".to_owned()),
    }
}

fn begin_transfer(topic: String, kind: TransferKind<Vec<u8>>) -> (transfer: Transfer)
    ensures
        transfer@ == new_transfer(topic@, kind.view()),
{
    Transfer { topic, kind, announced: false, finishing: false, failed: None }
}

impl Session {
    fn describe(&mut self, job: &FsJob, result: JobResult, local: &LocalTime)
        ensures
            final(self)@ == describe_reply(old(self)@, job@, result, *local),
    {
        let facts: Option<String> = match (result, &job.purpose) {
            (JobResult::Here, _) => {
                let mut line = "Type=dir;Modify=".to_owned();
                let now = now_ymdhms(local);
                line.append(now.as_str());
                line.append("; /");
                let path = text::join(job.path.as_slice(), "/");
                line.append(path.as_str());
                Some(line)
            },
            (JobResult::Inspected(Some(entry)), Purpose::Inspect(leaf)) => Some(
                listing_line(ListKind::Machine, &entry, leaf.as_str(), local),
            ),
            _ => None,
        };
        match facts {
            Some(line) => {
                let path = text::join(job.path.as_slice(), "/");
                let first = concatenated("250- /", path.as_str());
                self.reply(first.as_str());
                let second = concatenated(" ", line.as_str());
                self.reply(second.as_str());
                self.reply("250 End");
            },
            None => match result {
                JobResult::Missing => self.reply("550 Path not found"),
                _ => self.reply("550 No such file or directory"),
            },
        }
    }

    fn report_size(&mut self, result: JobResult)
        ensures
            final(self)@ == size_reply(old(self)@, result),
    {
        match result {
            JobResult::Inspected(Some(entry)) => if entry.directory {
                self.reply("550 Is a directory")
            } else {
                let size = text::decimal_text(entry.size as u64);
                let reply = concatenated("213 ", size.as_str());
                self.reply(reply.as_str())
            },
            _ => self.reply("550 No such file or directory"),
        }
    }

    fn report_modified(&mut self, result: JobResult)
        ensures
            final(self)@ == modified_reply(old(self)@, result),
    {
        match result {
            JobResult::Inspected(Some(entry)) => {
                let stamp = timestamp_ymdhms(entry.mtime);
                let reply = concatenated("213 ", stamp.as_str());
                self.reply(reply.as_str())
            },
            _ => self.reply("550 No such file or directory"),
        }
    }

    fn report_made(&mut self, target: &str, purpose: &Purpose<String>, result: JobResult)
        ensures
            final(self)@ == made_reply(old(self)@, target@, purpose.view(), result),
    {
        if is_done(result) {
            let mut reply = "257 \"/".to_owned();
            reply.append(target);
            reply.append("\" created");
            self.reply(reply.as_str());
            return ;
        }
        let fits = match purpose {
            Purpose::MakeDir(leaf) => short_name_fits(leaf.as_str()),
            _ => true,
        };
        if fits {
            self.reply("550 Cannot create directory");
        } else {
            self.reply("553 Use 8.3 names for new directories");
        }
    }

    /// Answers a command, or starts a transfer, when the card has done its part;
    /// `true` when the data connection is to be torn down.
    pub fn finish(&mut self, task: Task, result: JobResult, local: &LocalTime) -> (abort_data: bool)
        ensures
            final(self)@ == finished(old(self)@, task@, result, *local).session,
            abort_data == finished(old(self)@, task@, result, *local).abort_data,
    {
        match &task.errand {
            Errand::ChangeDir => {
                let here = match result {
                    JobResult::Here => true,
                    _ => false,
                };
                if here {
                    self.cwd = text::copy_strings(task.job.path.as_slice());
                    self.reply("250 Directory changed");
                } else {
                    self.reply("550 No such directory");
                }
            },
            Errand::Describe => self.describe(&task.job, result, local),
            Errand::Size => self.report_size(result),
            Errand::Modified => self.report_modified(result),
            Errand::Delete => if is_done(result) {
                self.reply("250 Deleted");
            } else {
                self.reply("550 Cannot delete");
            },
            Errand::RemoveDir => if is_done(result) {
                self.reply("250 Directory removed");
            } else {
                self.reply("550 Not empty or not found");
            },
            Errand::MakeDir { target } => self.report_made(
                target.as_str(),
                &task.job.purpose,
                result,
            ),
            Errand::Transfer => match start_transfer(&task.job, result, local) {
                Ok((transfer, greeting)) => {
                    self.transfer = Some(transfer);
                    self.passive_requested = false;
                    self.reply(greeting.as_str());
                },
                Err(reply) => {
                    self.transfer = None;
                    self.reply(reply.as_str());
                    return true;
                },
            },
        }
        false
    }
}

} // verus!
