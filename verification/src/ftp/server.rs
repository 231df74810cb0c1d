//! The FTP server: one round of work at a time.
//!
//! A round is a sequence of questions to the sockets and to the card
//! ([`FtpServer::query`]); every answer ([`FtpServer::resume`]) yields actions to
//! be performed in their order and moves the round on, until it rests.

use crate::ftp::command::{
    command_line, dispatched, finished, CommandLine, Dispatch, DispatchView, Env, EnvView, Errand,
    Ipv4, Task, TaskView,
};
use crate::ftp::job::{
    job_next, job_query, Action, FsJob, FsQuery, FsReply, JobStage, JobView, Outcome,
};
use crate::ftp::listing::ListKind;
use crate::ftp::session::{
    close_actions, close_kind, new_session, Failure, FtpStats, FtpStatus, Session, SessionView,
    Transfer, TransferKind, TransferView,
};
use crate::storage::{FtpConfig, LocalTime};
use crate::text;
use crate::text::decimal;
use vstd::prelude::*;
use vstd::string::*;

verus! {

/// A command line longer than this is refused.
pub const MAX_COMMAND_LINE: usize = 512;

/// Idle control connections are closed after 5 minutes.
pub const IDLE_TIMEOUT_MICROS: u64 = 300_000_000;

/// The client has this long to open its data connection after ordering a
/// transfer.
pub const DATA_ACCEPT_TIMEOUT_MICROS: u64 = 20_000_000;

/// The state of a TCP socket.
#[derive(Clone, Copy, Debug, PartialEq, Eq, Structural)]
pub enum SocketState {
    Closed,
    Listen,
    SynSent,
    SynReceived,
    Established,
    FinWait1,
    FinWait2,
    CloseWait,
    Closing,
    LastAck,
    TimeWait,
}

/// What became of sending bytes.
#[derive(Clone, Copy, Debug, PartialEq, Eq, Structural)]
pub enum WriteOutcome {
    Wrote(usize),
    Failed,
    /// The socket would have blocked.
    Blocked,
    /// The socket cannot send at the moment.
    NotReady,
}

/// What became of receiving command bytes.
pub enum ReadOutcome {
    Bytes(Vec<u8>),
    /// The client has closed its side.
    Closed,
    Failed,
    Nothing,
}

/// What became of moving bytes between a file and the data connection.
#[derive(Clone, Copy, Debug, PartialEq, Eq, Structural)]
pub enum MoveOutcome {
    Moved(u64),
    Failed,
    Blocked,
    NotReady,
}

/// What a socket's queues look like.
#[derive(Clone, Copy, Debug, PartialEq, Eq, Structural)]
pub struct Queue {
    /// Everything handed to the socket has been sent and acknowledged.
    pub empty: bool,
    pub may_send: bool,
    pub may_recv: bool,
    pub can_recv: bool,
}

/// A run of a listing: its bytes and how many entries it consumed.
pub struct Filled {
    pub chunk: Vec<u8>,
    pub produced: usize,
}

/// A question of a round.
pub enum Query<T, B> {
    /// The network's address, and whether it is up.
    Network,
    ControlState,
    ControlPeer,
    ControlWrite(B),
    ControlRead,
    ControlQueue,
    DataState,
    DataQueue,
    /// Send from a file what the data connection has room for.
    SendFile { file: u32 },
    /// Write to a file what the data connection delivers.
    ReceiveFile { file: u32 },
    SendChunk(B),
    /// Make the next run of a listing.
    FillListing { dir: u32, kind: ListKind, skip: usize },
    Card(FsQuery<T>),
}

impl Query<String, Vec<u8>> {
    pub open spec fn view(self) -> Query<Seq<char>, Seq<u8>> {
        match self {
            Query::Network => Query::Network,
            Query::ControlState => Query::ControlState,
            Query::ControlPeer => Query::ControlPeer,
            Query::ControlWrite(bytes) => Query::ControlWrite(bytes@),
            Query::ControlRead => Query::ControlRead,
            Query::ControlQueue => Query::ControlQueue,
            Query::DataState => Query::DataState,
            Query::DataQueue => Query::DataQueue,
            Query::SendFile { file } => Query::SendFile { file },
            Query::ReceiveFile { file } => Query::ReceiveFile { file },
            Query::SendChunk(bytes) => Query::SendChunk(bytes@),
            Query::FillListing { dir, kind, skip } => Query::FillListing { dir, kind, skip },
            Query::Card(query) => Query::Card(query.view()),
        }
    }
}

/// The answer to a question of a round.
pub enum Reply {
    Network { ip: Option<Ipv4>, online: bool },
    State(SocketState),
    Peer(Option<(Ipv4, u16)>),
    Wrote(WriteOutcome),
    Read(ReadOutcome),
    Queue(Queue),
    Moved(MoveOutcome),
    Filled(Option<Filled>),
    Card(FsReply),
}

/// What a round waits for. `dead` says that neither side of the data connection
/// can be used any more, `fatal` that the session is over.
pub enum Stage<T> {
    /// No round is under way.
    Rest,
    Network,
    /// The control socket's state, to make it listen.
    Arm,
    /// The control socket's state, to see whether a client has come.
    Accept,
    Greet,
    Flush,
    Receive,
    /// The card does something for a command.
    Command(T),
    /// The data socket's state, to make it listen.
    Passive,
    /// The data socket's state, to see whether the connection has come.
    Waiting,
    /// The card opens what a transfer is about.
    Open(T),
    Announce,
    Drain,
    Alive,
    Send { dead: bool },
    Store { dead: bool },
    StoreEnd { dead: bool },
    Chunk { dead: bool },
    Fill { dead: bool },
    Farewell { fatal: bool },
    Leave,
}

impl Stage<Task> {
    pub open spec fn view(self) -> Stage<TaskView> {
        match self {
            Stage::Rest => Stage::Rest,
            Stage::Network => Stage::Network,
            Stage::Arm => Stage::Arm,
            Stage::Accept => Stage::Accept,
            Stage::Greet => Stage::Greet,
            Stage::Flush => Stage::Flush,
            Stage::Receive => Stage::Receive,
            Stage::Command(task) => Stage::Command(task@),
            Stage::Passive => Stage::Passive,
            Stage::Waiting => Stage::Waiting,
            Stage::Open(task) => Stage::Open(task@),
            Stage::Announce => Stage::Announce,
            Stage::Drain => Stage::Drain,
            Stage::Alive => Stage::Alive,
            Stage::Send { dead } => Stage::Send { dead },
            Stage::Store { dead } => Stage::Store { dead },
            Stage::StoreEnd { dead } => Stage::StoreEnd { dead },
            Stage::Chunk { dead } => Stage::Chunk { dead },
            Stage::Fill { dead } => Stage::Fill { dead },
            Stage::Farewell { fatal } => Stage::Farewell { fatal },
            Stage::Leave => Stage::Leave,
        }
    }
}

pub struct FtpServer {
    /// The card's volume is open for the server.
    pub volume: bool,
    pub session: Option<Session>,
    pub control_listening: bool,
    /// The fixed passive listener is armed for this session.
    pub data_listening: bool,
    pub ip: Option<Ipv4>,
    pub stats: FtpStats,
    pub status: FtpStatus,
    pub activity: String,
    pub stage: Stage<Task>,
    /// What is to be performed, in this order.
    pub actions: Vec<Action>,
}

/// What an [`FtpServer`] holds.
#[verifier::ext_equal]
pub struct ServerView {
    pub volume: bool,
    pub session: Option<SessionView>,
    pub control_listening: bool,
    pub data_listening: bool,
    pub ip: Option<Ipv4>,
    pub stats: FtpStats,
    pub status: FtpStatus,
    pub activity: Seq<char>,
    pub stage: Stage<TaskView>,
    pub actions: Seq<Action>,
}

impl View for FtpServer {
    type V = ServerView;

    open spec fn view(&self) -> ServerView {
        ServerView {
            volume: self.volume,
            session: match self.session {
                Some(session) => Some(session@),
                None => None,
            },
            control_listening: self.control_listening,
            data_listening: self.data_listening,
            ip: self.ip,
            stats: self.stats,
            status: self.status,
            activity: self.activity@,
            stage: self.stage.view(),
            actions: self.actions@,
        }
    }
}

// ---------------------------------------------------------------------------
// The course of a round
// ---------------------------------------------------------------------------

/// What rounds depend on beside the server.
pub struct RoundEnv {
    pub user: Seq<char>,
    pub password: Seq<char>,
    pub local: LocalTime,
    pub now: u64,
}

/// Time that has passed between two readings of the timer, which wraps around.
pub open spec fn elapsed(since: u64, now: u64) -> int {
    if now >= since {
        now - since
    } else {
        now - since + 0x1_0000_0000_0000_0000
    }
}

impl ServerView {
    /// One more action.
    pub open spec fn act(self, action: Action) -> ServerView {
        ServerView { actions: self.actions.push(action), ..self }
    }

    /// Several more actions.
    pub open spec fn act_all(self, actions: Seq<Action>) -> ServerView {
        ServerView { actions: self.actions + actions, ..self }
    }

    /// The round goes on with a stage.
    pub open spec fn at(self, stage: Stage<TaskView>) -> ServerView {
        ServerView { stage, ..self }
    }

    /// The session is another one.
    pub open spec fn with(self, session: SessionView) -> ServerView {
        ServerView { session: Some(session), ..self }
    }

    /// The data connection is torn down.
    pub open spec fn abort_data(self) -> ServerView {
        ServerView { data_listening: false, ..self.act(Action::DataAbort) }
    }

    /// What commands depend on beside the session.
    pub open spec fn env(self, env: RoundEnv) -> EnvView {
        EnvView {
            user: env.user,
            password: env.password,
            ip: self.ip,
            stats: self.stats,
            activity: self.activity,
            now: env.now,
        }
    }

    /// A job that is under way never goes beyond its path.
    pub open spec fn wf(self) -> bool {
        match self.stage {
            Stage::Command(task) | Stage::Open(task) => task.job.wf(),
            _ => true,
        }
    }
}

/// The session ends from the server's side.
pub open spec fn end_session(v: ServerView) -> ServerView {
    match v.session {
        Some(session) => ServerView {
            session: None,
            control_listening: false,
            data_listening: false,
            ..v.act_all(close_actions(session.transfer)).act(Action::ControlClose).act(
                Action::DataAbort,
            )
        },
        None => v,
    }
}

/// The session is over: its handles are released, and the sockets follow.
pub open spec fn leaving(v: ServerView, dead: bool) -> ServerView {
    if dead {
        match v.session {
            Some(session) => v.with(session.without_transfer()).act_all(
                close_actions(session.transfer),
            ).at(Stage::Leave),
            None => v.at(Stage::Leave),
        }
    } else {
        v.at(Stage::Rest)
    }
}

/// The end of a session's round: whether the session goes on depends on the
/// control socket where nothing is left to be handed to it.
pub open spec fn farewell(v: ServerView, fatal: bool) -> ServerView {
    match v.session {
        Some(session) if session.out.len() == 0 => v.at(Stage::Farewell { fatal }),
        _ => leaving(v, fatal),
    }
}

/// The data channel's part of a round.
pub open spec fn data_phase(v: ServerView) -> ServerView {
    match v.session {
        None => v.at(Stage::Rest),
        Some(session) => match (session.pending, session.transfer) {
            (Some(_), _) => v.at(Stage::Waiting),
            (None, Some(transfer)) => if !transfer.announced {
                if session.out.len() == 0 {
                    v.at(Stage::Announce)
                } else {
                    farewell(v, false)
                }
            } else if transfer.finishing || transfer.failed is Some {
                v.at(Stage::Drain)
            } else {
                v.at(Stage::Alive)
            },
            (None, None) => if session.passive_requested && !v.data_listening {
                v.at(Stage::Passive)
            } else {
                let ready = if !session.passive_requested && v.data_listening {
                    v.abort_data()
                } else {
                    v
                };
                farewell(ServerView { activity: Seq::empty(), ..ready }, false)
            },
        },
    }
}

/// A client that has been idle for too long is sent away.
pub open spec fn idle_phase(v: ServerView, now: u64) -> ServerView {
    match v.session {
        None => v.at(Stage::Rest),
        Some(session) => if !session.quit && !session.busy() && elapsed(session.last_activity, now)
            >= IDLE_TIMEOUT_MICROS {
            data_phase(
                v.with(SessionView { quit: true, ..session.said("421 Idle timeout"@) }),
            )
        } else {
            data_phase(v)
        },
    }
}

/// The position of the first line end, or the length where there is none.
pub open spec fn line_end(line: Seq<u8>) -> int
    decreases line.len(),
{
    if line.len() == 0 || line[0] == 10 {
        0
    } else {
        1 + line_end(line.skip(1))
    }
}

/// A line without the carriage return before its end.
pub open spec fn bare_line(line: Seq<u8>) -> Seq<u8> {
    if line.len() > 0 && line.last() == 13 {
        line.drop_last()
    } else {
        line
    }
}

/// Complete command lines are handled in arrival order, until one has to wait
/// for the card.
pub open spec fn command_phase(v: ServerView, env: RoundEnv) -> ServerView
    decreases
            match v.session {
                Some(session) => session.line.len(),
                None => 0,
            },
{
    match v.session {
        None => v.at(Stage::Rest),
        Some(session) => {
            let end = line_end(session.line);
            if end < 0 || end >= session.line.len() {
                idle_phase(v, env.now)
            } else {
                let step = dispatched(
                    SessionView { line: session.line.skip(end + 1), ..session },
                    bare_line(session.line.take(end)),
                    v.env(env),
                );
                let next = v.with(step.session).act_all(step.actions);
                match step.next {
                    DispatchView::Run(task) => next.at(Stage::Command(task)),
                    DispatchView::AbortData => if step.session.line.len() < session.line.len() {
                        command_phase(next.abort_data(), env)
                    } else {
                        next
                    },
                    DispatchView::Done => if step.session.line.len() < session.line.len() {
                        command_phase(next, env)
                    } else {
                        next
                    },
                }
            }
        },
    }
}

/// Received bytes join the line; Telnet IAC bytes are left out, and a line that
/// grows too long is thrown away.
pub open spec fn absorbed(session: SessionView, bytes: Seq<u8>, now: u64) -> SessionView {
    let line = session.line + bytes.filter(|byte: u8| byte != 0xff);
    if line.len() > MAX_COMMAND_LINE {
        SessionView { line: Seq::empty(), last_activity: now, ..session.said(
            "500 Command line too long"@,
        ) }
    } else {
        SessionView { line, last_activity: now, ..session }
    }
}

/// A session's round: replies first.
pub open spec fn session_phase(v: ServerView) -> ServerView {
    match v.session {
        None => ServerView { status: FtpStatus::Listening, ..v }.at(Stage::Rest),
        Some(session) => ServerView {
            status: if session.busy() {
                FtpStatus::Transfer
            } else {
                FtpStatus::Connected
            },
            ..v
        }.at(
            if session.out.len() > 0 {
                Stage::Flush
            } else {
                Stage::Receive
            },
        ),
    }
}

/// The control socket listens, or has been told to.
pub open spec fn accept_phase(v: ServerView) -> ServerView {
    if v.session is None {
        v.at(Stage::Accept)
    } else {
        session_phase(v)
    }
}

#[verifier::opaque]
pub open spec fn on_network(v: ServerView, ip: Option<Ipv4>, online: bool) -> ServerView {
    let v = ServerView { ip, ..v };
    if !online {
        let dropped = if v.session is Some {
            end_session(v)
        } else if v.control_listening {
            ServerView { control_listening: false, ..v.act(Action::ControlAbort) }
        } else {
            v
        };
        let silent = if dropped.data_listening {
            dropped.abort_data()
        } else {
            dropped
        };
        ServerView { status: FtpStatus::Offline, ..silent }.at(Stage::Rest)
    } else if !v.control_listening {
        v.at(Stage::Arm)
    } else {
        accept_phase(v)
    }
}

/// The listener is armed from a closed socket; one that is being torn down has to
/// be aborted first.
#[verifier::opaque]
pub open spec fn on_arm(v: ServerView, state: SocketState) -> ServerView {
    accept_phase(
        match state {
            SocketState::Closed => ServerView {
                control_listening: true,
                ..v.act(Action::ControlAccept)
            },
            SocketState::TimeWait
            | SocketState::LastAck
            | SocketState::FinWait1
            | SocketState::FinWait2 => v.act(Action::ControlAbort),
            _ => v,
        },
    )
}

#[verifier::opaque]
pub open spec fn on_accept(v: ServerView, state: SocketState) -> ServerView {
    if state == SocketState::Established {
        v.at(Stage::Greet)
    } else {
        session_phase(v)
    }
}

/// A client's address, or a question mark where it is not known.
pub open spec fn peer_text(peer: Option<(Ipv4, u16)>) -> Seq<char> {
    match peer {
        Some((ip, port)) => decimal(ip.a as nat) + "."@ + decimal(ip.b as nat) + "."@ + decimal(
            ip.c as nat,
        ) + "."@ + decimal(ip.d as nat) + ":"@ + decimal(port as nat),
        None => "?"@,
    }
}

#[verifier::opaque]
pub open spec fn on_greet(v: ServerView, peer: Option<(Ipv4, u16)>, now: u64) -> ServerView {
    session_phase(v.with(new_session(peer_text(peer), now).said("220 RATPUTER SD"@)))
}

#[verifier::opaque]
pub open spec fn on_flush(v: ServerView, outcome: WriteOutcome) -> ServerView {
    match (v.session, outcome) {
        (None, _) => v.at(Stage::Rest),
        (Some(_), WriteOutcome::Failed) => farewell(v, true),
        (Some(session), WriteOutcome::Wrote(count)) => v.with(
            SessionView {
                out: if count < session.out.len() {
                    session.out.skip(count as int)
                } else {
                    Seq::empty()
                },
                ..session
            },
        ).at(Stage::Receive),
        _ => v.at(Stage::Receive),
    }
}

#[verifier::opaque]
pub open spec fn on_receive(v: ServerView, outcome: ReadOutcome, env: RoundEnv) -> ServerView {
    match (v.session, outcome) {
        (None, _) => v.at(Stage::Rest),
        (Some(_), ReadOutcome::Closed) | (Some(_), ReadOutcome::Failed) => farewell(v, true),
        (Some(_), ReadOutcome::Nothing) => command_phase(v, env),
        (Some(session), ReadOutcome::Bytes(bytes)) => command_phase(
            v.with(absorbed(session, bytes@, env.now)),
            env,
        ),
    }
}

#[verifier::opaque]
pub open spec fn on_command(
    v: ServerView,
    task: TaskView,
    reply: FsReply,
    env: RoundEnv,
) -> ServerView {
    let step = job_next(task.job, reply);
    let v = v.at(Stage::Rest).act_all(step.actions);
    match (step.outcome, v.session) {
        (Outcome::Ask(stage), _) => v.at(
            Stage::Command(TaskView { job: JobView { stage, ..task.job }, ..task }),
        ),
        (Outcome::Finish(_), None) => v.at(Stage::Rest),
        (Outcome::Finish(result), Some(session)) => {
            let end = finished(session, task, result, env.local);
            let answered = v.with(end.session);
            command_phase(
                if end.abort_data {
                    answered.abort_data()
                } else {
                    answered
                },
                env,
            )
        },
    }
}

#[verifier::opaque]
pub open spec fn on_passive(v: ServerView, state: SocketState) -> ServerView {
    let armed = match state {
        SocketState::Closed => ServerView { data_listening: true, ..v.act(Action::DataAccept) },
        SocketState::TimeWait
        | SocketState::LastAck
        | SocketState::FinWait1
        | SocketState::FinWait2
        | SocketState::CloseWait => v.act(Action::DataAbort),
        _ => v,
    };
    farewell(ServerView { activity: Seq::empty(), ..armed }, false)
}

/// An ordered transfer starts with the data connection, and is given up when
/// that does not come.
#[verifier::opaque]
pub open spec fn on_waiting(v: ServerView, state: SocketState, now: u64) -> ServerView {
    match v.session {
        None => v.at(Stage::Rest),
        Some(session) => match session.pending {
            None => farewell(v, false),
            Some(pending) => if state == SocketState::Established {
                v.with(SessionView { pending: None, ..session }).at(
                    Stage::Open(
                        TaskView {
                            errand: Errand::Transfer,
                            job: JobView {
                                path: pending.path,
                                purpose: pending.purpose,
                                stage: JobStage::Root,
                            },
                        },
                    ),
                )
            } else if elapsed(pending.since, now) >= DATA_ACCEPT_TIMEOUT_MICROS {
                farewell(
                    v.with(
                        SessionView { pending: None, ..session }.said("425 No data connection"@),
                    ).abort_data(),
                    false,
                )
            } else {
                farewell(v, false)
            },
        },
    }
}

#[verifier::opaque]
pub open spec fn on_open(
    v: ServerView,
    task: TaskView,
    reply: FsReply,
    local: LocalTime,
) -> ServerView {
    let step = job_next(task.job, reply);
    let v = v.at(Stage::Rest).act_all(step.actions);
    match (step.outcome, v.session) {
        (Outcome::Ask(stage), _) => v.at(
            Stage::Open(TaskView { job: JobView { stage, ..task.job }, ..task }),
        ),
        (Outcome::Finish(_), None) => v.at(Stage::Rest),
        (Outcome::Finish(result), Some(session)) => {
            let end = finished(session, task, result, local);
            let answered = v.with(end.session);
            farewell(
                if end.abort_data {
                    answered.abort_data()
                } else {
                    answered
                },
                false,
            )
        },
    }
}

/// The server after a change of the transfer.
pub open spec fn with_transfer(v: ServerView, transfer: TransferView) -> ServerView {
    match v.session {
        Some(session) => v.with(SessionView { transfer: Some(transfer), ..session }),
        None => v,
    }
}

/// The transfer under way.
pub open spec fn transfer_of(v: ServerView) -> Option<TransferView> {
    match v.session {
        Some(session) => session.transfer,
        None => None,
    }
}

#[verifier::opaque]
pub open spec fn on_announce(v: ServerView, queue: Queue) -> ServerView {
    match transfer_of(v) {
        Some(transfer) if queue.empty => farewell(
            with_transfer(v, TransferView { announced: true, ..transfer }),
            false,
        ),
        _ => farewell(v, false),
    }
}

/// A completed or failed transfer ends when the data connection's queue is
/// drained, or the connection is gone.
#[verifier::opaque]
pub open spec fn on_drain(v: ServerView, queue: Queue) -> ServerView {
    match (v.session, transfer_of(v)) {
        (Some(session), Some(transfer)) if queue.empty || !(queue.may_send || queue.may_recv) => {
            let told = if transfer.failed is Some {
                session.said("426 Transfer aborted"@).said("226 Data closed"@)
            } else {
                session.said("226 Finished"@ + " "@ + transfer.topic)
            };
            farewell(
                ServerView {
                    data_listening: false,
                    ..v.with(SessionView { transfer: None, ..told }).act_all(
                        close_actions(session.transfer),
                    ).act(Action::DataClose)
                },
                false,
            )
        },
        _ => farewell(v, false),
    }
}

/// The end of a pump: a dead connection breaks a transfer off, unless all of it
/// was moved.
pub open spec fn settled(v: ServerView, transfer: TransferView, dead: bool) -> ServerView {
    let checked = if transfer.failed is None && dead && !transfer.finishing {
        TransferView { failed: Some(Failure::Pipe), ..transfer }
    } else {
        transfer
    };
    farewell(
        with_transfer(ServerView { activity: transfer.topic, ..v }, checked),
        false,
    )
}

#[verifier::opaque]
pub open spec fn on_alive(v: ServerView, queue: Queue) -> ServerView {
    let dead = !queue.may_send && !queue.may_recv;
    match transfer_of(v) {
        None => farewell(v, false),
        Some(transfer) => match transfer.kind {
            TransferKind::Retrieve { .. } => v.at(Stage::Send { dead }),
            TransferKind::Store { .. } => v.at(Stage::Store { dead }),
            TransferKind::List { dir, done, chunk, chunk_sent, .. } => if chunk_sent
                < chunk.len() {
                v.at(Stage::Chunk { dead })
            } else if done || dir is None {
                settled(v, TransferView { finishing: true, ..transfer }, dead)
            } else {
                v.at(Stage::Fill { dead })
            },
        },
    }
}

/// More bytes sent; the count wraps around.
pub open spec fn sent(v: ServerView, count: u64) -> ServerView {
    ServerView {
        stats: FtpStats { sent_bytes: v.stats.sent_bytes.wrapping_add(count), ..v.stats },
        ..v
    }
}

#[verifier::opaque]
pub open spec fn on_send(v: ServerView, outcome: MoveOutcome, dead: bool) -> ServerView {
    match transfer_of(v) {
        None => farewell(v, false),
        Some(transfer) => match outcome {
            MoveOutcome::Moved(count) => if count == 0 {
                settled(v, TransferView { finishing: true, ..transfer }, dead)
            } else {
                settled(sent(v, count), transfer, dead)
            },
            MoveOutcome::Failed => settled(
                v,
                TransferView { failed: Some(Failure::Read), ..transfer },
                dead,
            ),
            MoveOutcome::Blocked => settled(v, transfer, dead),
            MoveOutcome::NotReady => settled(
                v,
                if dead {
                    TransferView { failed: Some(Failure::Pipe), ..transfer }
                } else {
                    transfer
                },
                dead,
            ),
        },
    }
}

#[verifier::opaque]
pub open spec fn on_store(v: ServerView, outcome: MoveOutcome, dead: bool) -> ServerView {
    match transfer_of(v) {
        None => farewell(v, false),
        Some(transfer) => match outcome {
            MoveOutcome::Moved(count) => ServerView {
                stats: FtpStats {
                    received_bytes: v.stats.received_bytes.wrapping_add(count),
                    ..v.stats
                },
                ..v
            }.at(Stage::Store { dead }),
            MoveOutcome::Failed => settled(
                v.act(Action::DataDiscard),
                TransferView { failed: Some(Failure::Write), ..transfer },
                dead,
            ),
            _ => v.at(Stage::StoreEnd { dead }),
        },
    }
}

/// An upload is complete when the client has closed its side and everything has
/// been taken.
#[verifier::opaque]
pub open spec fn on_store_end(v: ServerView, queue: Queue, dead: bool) -> ServerView {
    match transfer_of(v) {
        None => farewell(v, false),
        Some(transfer) => settled(
            v,
            if !queue.may_recv && !queue.can_recv {
                TransferView { finishing: true, ..transfer }
            } else {
                transfer
            },
            dead,
        ),
    }
}

/// The rest of a listing's run.
pub open spec fn chunk_left(transfer: TransferView) -> Seq<u8> {
    match transfer.kind {
        TransferKind::List { chunk, chunk_sent, .. } => if chunk_sent <= chunk.len() {
            chunk.skip(chunk_sent as int)
        } else {
            Seq::empty()
        },
        _ => Seq::empty(),
    }
}

/// How much of a run the data connection took: never more than is left.
pub open spec fn chunk_moved(transfer: TransferView, count: usize) -> int {
    if count <= chunk_left(transfer).len() {
        count as int
    } else {
        chunk_left(transfer).len() as int
    }
}

/// A listing after so much of its run was sent.
pub open spec fn moved_on(transfer: TransferView, moved: int) -> TransferView {
    match transfer.kind {
        TransferKind::List { dir, kind, skip, done, chunk, chunk_sent } => TransferView {
            kind: TransferKind::List {
                dir,
                kind,
                skip,
                done,
                chunk,
                chunk_sent: (chunk_sent + moved) as usize,
            },
            ..transfer
        },
        _ => transfer,
    }
}

#[verifier::opaque]
pub open spec fn on_chunk(v: ServerView, outcome: WriteOutcome, dead: bool) -> ServerView {
    match transfer_of(v) {
        None => farewell(v, false),
        Some(transfer) => match (transfer.kind, outcome) {
            (TransferKind::List { .. }, WriteOutcome::Wrote(count)) => {
                let moved = chunk_moved(transfer, count);
                settled(sent(v, moved as u64), moved_on(transfer, moved), dead)
            },
            (TransferKind::List { .. }, WriteOutcome::NotReady) => settled(
                v,
                if dead {
                    TransferView { failed: Some(Failure::Pipe), ..transfer }
                } else {
                    transfer
                },
                dead,
            ),
            _ => settled(v, transfer, dead),
        },
    }
}

#[verifier::opaque]
pub open spec fn on_fill(v: ServerView, filled: Option<Filled>, dead: bool) -> ServerView {
    match transfer_of(v) {
        None => farewell(v, false),
        Some(transfer) => match (transfer.kind, filled) {
            (TransferKind::List { dir, kind, skip, .. }, Some(filled)) => settled(
                v,
                TransferView {
                    kind: TransferKind::List {
                        dir,
                        kind,
                        skip: skip.wrapping_add(filled.produced),
                        done: filled.produced == 0,
                        chunk: filled.chunk@,
                        chunk_sent: 0,
                    },
                    ..transfer
                },
                dead,
            ),
            (_, None) => settled(
                v,
                TransferView { failed: Some(Failure::List), ..transfer },
                dead,
            ),
            _ => settled(v, transfer, dead),
        },
    }
}

/// After QUIT the session ends when all replies have left; otherwise when the
/// client has hung up.
#[verifier::opaque]
pub open spec fn on_farewell(v: ServerView, queue: Queue, fatal: bool) -> ServerView {
    match v.session {
        None => v.at(Stage::Rest),
        Some(session) => if session.quit {
            if queue.empty {
                leaving(
                    ServerView { control_listening: false, ..v.act(Action::ControlClose) },
                    true,
                )
            } else {
                leaving(v, fatal)
            }
        } else {
            leaving(v, fatal || (!queue.may_send && queue.empty))
        },
    }
}

#[verifier::opaque]
pub open spec fn on_leave(v: ServerView, state: SocketState) -> ServerView {
    let quiet = match state {
        SocketState::Closed | SocketState::TimeWait | SocketState::LastAck => v,
        _ => v.act(Action::ControlAbort),
    };
    ServerView { session: None, control_listening: false, ..quiet.abort_data() }.at(Stage::Rest)
}

/// The round after an answer. An answer to another question changes nothing.
#[verifier::opaque]
pub open spec fn round_next(v: ServerView, reply: Reply, env: RoundEnv) -> ServerView {
    match (v.stage, reply) {
        (Stage::Network, Reply::Network { ip, online }) => on_network(v, ip, online),
        (Stage::Arm, Reply::State(state)) => on_arm(v, state),
        (Stage::Accept, Reply::State(state)) => on_accept(v, state),
        (Stage::Greet, Reply::Peer(peer)) => on_greet(v, peer, env.now),
        (Stage::Flush, Reply::Wrote(outcome)) => on_flush(v, outcome),
        (Stage::Receive, Reply::Read(outcome)) => on_receive(v, outcome, env),
        (Stage::Command(task), Reply::Card(reply)) => on_command(v, task, reply, env),
        (Stage::Passive, Reply::State(state)) => on_passive(v, state),
        (Stage::Waiting, Reply::State(state)) => on_waiting(v, state, env.now),
        (Stage::Open(task), Reply::Card(reply)) => on_open(v, task, reply, env.local),
        (Stage::Announce, Reply::Queue(queue)) => on_announce(v, queue),
        (Stage::Drain, Reply::Queue(queue)) => on_drain(v, queue),
        (Stage::Alive, Reply::Queue(queue)) => on_alive(v, queue),
        (Stage::Send { dead }, Reply::Moved(outcome)) => on_send(v, outcome, dead),
        (Stage::Store { dead }, Reply::Moved(outcome)) => on_store(v, outcome, dead),
        (Stage::StoreEnd { dead }, Reply::Queue(queue)) => on_store_end(v, queue, dead),
        (Stage::Chunk { dead }, Reply::Wrote(outcome)) => on_chunk(v, outcome, dead),
        (Stage::Fill { dead }, Reply::Filled(filled)) => on_fill(v, filled, dead),
        (Stage::Farewell { fatal }, Reply::Queue(queue)) => on_farewell(v, queue, fatal),
        (Stage::Leave, Reply::State(state)) => on_leave(v, state),
        _ => v,
    }
}

/// What a round asks.
pub open spec fn round_query(v: ServerView) -> Option<Query<Seq<char>, Seq<u8>>> {
    match v.stage {
        Stage::Rest => None,
        Stage::Network => Some(Query::Network),
        Stage::Arm | Stage::Accept | Stage::Leave => Some(Query::ControlState),
        Stage::Greet => Some(Query::ControlPeer),
        Stage::Flush => Some(
            Query::ControlWrite(
                match v.session {
                    Some(session) => session.out,
                    None => Seq::empty(),
                },
            ),
        ),
        Stage::Receive => Some(Query::ControlRead),
        Stage::Command(task) | Stage::Open(task) => Some(Query::Card(job_query(task.job))),
        Stage::Passive | Stage::Waiting => Some(Query::DataState),
        Stage::Announce | Stage::Farewell { .. } => Some(Query::ControlQueue),
        Stage::Drain | Stage::Alive | Stage::StoreEnd { .. } => Some(Query::DataQueue),
        Stage::Send { .. } => match transfer_of(v) {
            Some(transfer) => match transfer.kind {
                TransferKind::Retrieve { file } => Some(Query::SendFile { file }),
                _ => None,
            },
            None => None,
        },
        Stage::Store { .. } => match transfer_of(v) {
            Some(transfer) => match transfer.kind {
                TransferKind::Store { file } => Some(Query::ReceiveFile { file }),
                _ => None,
            },
            None => None,
        },
        Stage::Chunk { .. } => match transfer_of(v) {
            Some(transfer) => Some(Query::SendChunk(chunk_left(transfer))),
            None => None,
        },
        Stage::Fill { .. } => match transfer_of(v) {
            Some(transfer) => match transfer.kind {
                TransferKind::List { dir: Some(dir), kind, skip, .. } => Some(
                    Query::FillListing { dir, kind, skip },
                ),
                _ => None,
            },
            None => None,
        },
    }
}

/// Part of a listing's run was sent; gives how much of it.
fn move_on(transfer: &mut Transfer, count: usize) -> (moved: usize)
    ensures
        old(transfer).kind is List ==> {
            &&& moved == chunk_moved(old(transfer)@, count)
            &&& final(transfer)@ == moved_on(old(transfer)@, moved as int)
        },
{
    match &mut transfer.kind {
        TransferKind::List { chunk, chunk_sent, .. } => {
            let left: usize = if *chunk_sent <= chunk.len() {
                chunk.len() - *chunk_sent
            } else {
                0
            };
            let moved: usize = if count <= left {
                count
            } else {
                left
            };
            *chunk_sent = *chunk_sent + moved;
            moved
        },
        _ => 0,
    }
}

// ---------------------------------------------------------------------------
// Facts
// ---------------------------------------------------------------------------

proof fn line_end_is_first(line: Seq<u8>)
    ensures
        0 <= line_end(line) <= line.len(),
        line_end(line) < line.len() ==> line[line_end(line)] == 10,
        forall|i: int| 0 <= i < line_end(line) ==> line[i] != 10,
    decreases line.len(),
{
    if line.len() > 0 && line[0] != 10 {
        line_end_is_first(line.skip(1));
        assert forall|i: int| 0 <= i < line_end(line) implies line[i] != 10 by {
            if i > 0 {
                assert(line[i] == line.skip(1)[i - 1]);
            }
        }
    }
}

pub(crate) proof fn said_all_keeps(session: SessionView, replies: Seq<Seq<char>>)
    ensures
        session.said_all(replies) == (SessionView { out: session.said_all(replies).out, ..session }),
    decreases replies.len(),
{
    if replies.len() > 0 {
        said_all_keeps(session, replies.drop_last());
    }
}

/// A command leaves alone what has been received after it, and the job that it
/// orders begins at the root.
proof fn dispatched_keeps_line(session: SessionView, line: Seq<u8>, env: EnvView)
    ensures
        dispatched(session, line, env).session.line == session.line,
        dispatched(session, line, env).next matches DispatchView::Run(task) ==> task.job.stage
            == JobStage::Root,
{
    reveal(crate::ftp::command::command);
    if let CommandLine::Command { verb, .. } = command_line(line) {
        if let Some(replies) = crate::ftp::command::fixed_replies(verb) {
            said_all_keeps(session, replies);
        }
    }
}

proof fn tasks_ignore_the_stage(v: ServerView, task: TaskView, reply: FsReply, env: RoundEnv)
    ensures
        on_command(v.at(Stage::Rest), task, reply, env) == on_command(v, task, reply, env),
        on_open(v.at(Stage::Rest), task, reply, env.local) == on_open(v, task, reply, env.local),
{
    reveal(on_command);
    reveal(on_open);
}

// ---------------------------------------------------------------------------
// The server
// ---------------------------------------------------------------------------

impl RoundEnv {
    pub open spec fn of(config: &FtpConfig, local: &LocalTime, now: u64) -> RoundEnv {
        RoundEnv { user: config.user@, password: config.password@, local: *local, now }
    }
}

/// Time that has passed between two readings of the timer.
fn time_since(since: u64, now: u64) -> (micros: u64)
    ensures
        micros == elapsed(since, now),
{
    now.wrapping_sub(since)
}

/// A client's address as text.
fn format_tcp_endpoint(peer: Option<(Ipv4, u16)>) -> (out: String)
    ensures
        out@ == peer_text(peer),
{
    match peer {
        Some((ip, port)) => {
            let mut out = text::decimal_text(ip.a as u64);
            out.append(".");
            let b = text::decimal_text(ip.b as u64);
            out.append(b.as_str());
            out.append(".");
            let c = text::decimal_text(ip.c as u64);
            out.append(c.as_str());
            out.append(".");
            let d = text::decimal_text(ip.d as u64);
            out.append(d.as_str());
            out.append(":");
            let port = text::decimal_text(port as u64);
            out.append(port.as_str());
            out
        },
        None => "?".to_owned(),
    }
}

/// Takes the first complete line out of what has been received.
fn take_line(session: &mut Session) -> (line: Option<Vec<u8>>)
    ensures
        ({
            let received = old(session)@.line;
            let end = line_end(received);
            &&& 0 <= end <= received.len()
            &&& line is Some <==> end < received.len()
            &&& match line {
                None => final(session)@ == old(session)@,
                Some(line) => {
                    &&& line@ == bare_line(received.take(end))
                    &&& final(session)@ == (SessionView {
                        line: received.skip(end + 1),
                        ..old(session)@
                    })
                },
            }
        }),
{
    let ghost received = session.line@;
    let mut end: usize = 0;
    while end < session.line.len() && session.line[end] != 10
        invariant
            session@ == old(session)@,
            received == session.line@,
            end <= received.len(),
            forall|i: int| 0 <= i < end ==> received[i] != 10,
        decreases received.len() - end,
    {
        end += 1;
    }
    proof {
        line_end_is_first(received);
        let at = line_end(received);
        if at < end {
            assert(received[at] != 10);
        }
    }
    if end >= session.line.len() {
        return None;
    }
    let rest = session.line.split_off(end + 1);
    let mut line: Vec<u8> = Vec::new();
    line.extend_from_slice(session.line.as_slice());
    session.line = rest;
    let _ = line.pop();
    if line.len() > 0 && line[line.len() - 1] == 13 {
        let _ = line.pop();
    }
    assert(line@ =~= bare_line(received.take(end as int)));
    assert(session.line@ =~= received.skip(end + 1));
    Some(line)
}

impl FtpServer {
    fn act(&mut self, action: Action)
        ensures
            final(self)@ == old(self)@.act(action),
    {
        self.actions.push(action);
    }

    fn abort_data(&mut self)
        ensures
            final(self)@ == old(self)@.abort_data(),
    {
        self.actions.push(Action::DataAbort);
        self.data_listening = false;
    }

    fn end_session(&mut self)
        ensures
            final(self)@ == end_session(old(self)@),
    {
        if let Some(mut session) = self.session.take() {
            session.close_transfer(&mut self.actions);
            self.actions.push(Action::ControlClose);
            self.control_listening = false;
            self.actions.push(Action::DataAbort);
            self.data_listening = false;
        }
    }

    fn leaving(&mut self, dead: bool)
        ensures
            final(self)@ == leaving(old(self)@, dead),
    {
        if dead {
            if let Some(mut session) = self.session.take() {
                session.close_transfer(&mut self.actions);
                self.session = Some(session);
            }
            self.stage = Stage::Leave;
        } else {
            self.stage = Stage::Rest;
        }
    }

    fn farewell(&mut self, fatal: bool)
        ensures
            final(self)@ == farewell(old(self)@, fatal),
    {
        let silent = match &self.session {
            Some(session) => session.out.len() == 0,
            None => false,
        };
        if silent {
            self.stage = Stage::Farewell { fatal };
        } else {
            self.leaving(fatal);
        }
    }

    fn data_phase(&mut self)
        ensures
            final(self)@ == data_phase(old(self)@),
    {
        match &self.session {
            None => {
                self.stage = Stage::Rest;
            },
            Some(session) => match (&session.pending, &session.transfer) {
                (Some(_), _) => {
                    self.stage = Stage::Waiting;
                },
                (None, Some(transfer)) => if !transfer.announced {
                    if session.out.len() == 0 {
                        self.stage = Stage::Announce;
                    } else {
                        self.farewell(false);
                    }
                } else if transfer.finishing || transfer.failed.is_some() {
                    self.stage = Stage::Drain;
                } else {
                    self.stage = Stage::Alive;
                },
                (None, None) => {
                    let requested = session.passive_requested;
                    if requested && !self.data_listening {
                        self.stage = Stage::Passive;
                    } else {
                        if !requested && self.data_listening {
                            self.abort_data();
                        }
                        self.activity = String::new();
                        assert(self.activity@ =~= Seq::<char>::empty());
                        self.farewell(false);
                    }
                },
            },
        }
    }

    fn idle_phase(&mut self, now: u64)
        ensures
            final(self)@ == idle_phase(old(self)@, now),
    {
        match self.session.take() {
            None => {
                self.stage = Stage::Rest;
            },
            Some(mut session) => {
                if !session.quit && !session.busy() && time_since(session.last_activity, now)
                    >= IDLE_TIMEOUT_MICROS {
                    session.reply("421 Idle timeout");
                    session.quit = true;
                }
                self.session = Some(session);
                self.data_phase();
            },
        }
    }

    fn command_phase(&mut self, config: &FtpConfig, local: &LocalTime, now: u64)
        ensures
            final(self)@ == command_phase(old(self)@, RoundEnv::of(config, local, now)),
            final(self)@.wf(),
    {
        let ghost env = RoundEnv::of(config, local, now);
        loop
            invariant
                env == RoundEnv::of(config, local, now),
                command_phase(self@, env) == command_phase(old(self)@, env),
            decreases
                    match self@.session {
                        Some(session) => session.line.len(),
                        None => 0,
                    },
        {
            let ghost before = self@;
            match self.session.take() {
                None => {
                    self.stage = Stage::Rest;
                    return ;
                },
                Some(mut session) => {
                    let ghost held = session@;
                    let line = match take_line(&mut session) {
                        None => {
                            self.session = Some(session);
                            assert(self@ == before);
                            self.idle_phase(now);
                            return ;
                        },
                        Some(line) => line,
                    };
                    let next = {
                        let surroundings = Env {
                            config,
                            ip: self.ip,
                            stats: self.stats,
                            activity: self.activity.as_str(),
                            now,
                        };
                        proof {
                            dispatched_keeps_line(session@, line@, surroundings@);
                        }
                        session.handle_command_line(
                            line.as_slice(),
                            &surroundings,
                            &mut self.actions,
                        )
                    };
                    self.session = Some(session);
                    match next {
                        Dispatch::Run(task) => {
                            self.stage = Stage::Command(task);
                            return ;
                        },
                        Dispatch::AbortData => {
                            self.abort_data();
                        },
                        Dispatch::Done => {},
                    }
                },
            }
        }
    }

    fn session_phase(&mut self)
        ensures
            final(self)@ == session_phase(old(self)@),
    {
        match &self.session {
            None => {
                self.status = FtpStatus::Listening;
                self.stage = Stage::Rest;
            },
            Some(session) => {
                let silent = session.out.len() == 0;
                self.status = if session.busy() {
                    FtpStatus::Transfer
                } else {
                    FtpStatus::Connected
                };
                self.stage = if silent {
                    Stage::Receive
                } else {
                    Stage::Flush
                };
            },
        }
    }

    fn accept_phase(&mut self)
        ensures
            final(self)@ == accept_phase(old(self)@),
    {
        if self.session.is_none() {
            self.stage = Stage::Accept;
        } else {
            self.session_phase();
        }
    }

    fn on_network(&mut self, ip: Option<Ipv4>, online: bool)
        ensures
            final(self)@ == on_network(old(self)@, ip, online),
            final(self)@.wf(),
    {
        proof {
            reveal(on_network);
        }
        self.ip = ip;
        if !online {
            if self.session.is_some() {
                self.end_session();
            } else if self.control_listening {
                self.act(Action::ControlAbort);
                self.control_listening = false;
            }
            if self.data_listening {
                self.abort_data();
            }
            self.status = FtpStatus::Offline;
            self.stage = Stage::Rest;
        } else if !self.control_listening {
            self.stage = Stage::Arm;
        } else {
            self.accept_phase();
        }
    }

    fn on_arm(&mut self, state: SocketState)
        ensures
            final(self)@ == on_arm(old(self)@, state),
            final(self)@.wf(),
    {
        proof {
            reveal(on_arm);
        }
        match state {
            SocketState::Closed => {
                self.act(Action::ControlAccept);
                self.control_listening = true;
            },
            SocketState::TimeWait
            | SocketState::LastAck
            | SocketState::FinWait1
            | SocketState::FinWait2 => self.act(Action::ControlAbort),
            _ => {},
        }
        self.accept_phase();
    }

    fn on_accept(&mut self, state: SocketState)
        ensures
            final(self)@ == on_accept(old(self)@, state),
            final(self)@.wf(),
    {
        proof {
            reveal(on_accept);
        }
        if state == SocketState::Established {
            self.stage = Stage::Greet;
        } else {
            self.session_phase();
        }
    }

    fn on_greet(&mut self, peer: Option<(Ipv4, u16)>, now: u64)
        ensures
            final(self)@ == on_greet(old(self)@, peer, now),
            final(self)@.wf(),
    {
        proof {
            reveal(on_greet);
        }
        let mut session = Session::new(format_tcp_endpoint(peer), now);
        session.reply("220 RATPUTER SD");
        self.session = Some(session);
        self.session_phase();
    }

    fn on_flush(&mut self, outcome: WriteOutcome)
        ensures
            final(self)@ == on_flush(old(self)@, outcome),
            final(self)@.wf(),
    {
        proof {
            reveal(on_flush);
        }
        match self.session.take() {
            None => {
                self.stage = Stage::Rest;
            },
            Some(mut session) => match outcome {
                WriteOutcome::Failed => {
                    self.session = Some(session);
                    self.farewell(true);
                },
                WriteOutcome::Wrote(count) => {
                    let ghost queued = session.out@;
                    if count < session.out.len() {
                        let rest = session.out.split_off(count);
                        session.out = rest;
                        assert(session.out@ =~= queued.skip(count as int));
                    } else {
                        session.out = Vec::new();
                        assert(session.out@ =~= Seq::<u8>::empty());
                    }
                    self.session = Some(session);
                    self.stage = Stage::Receive;
                },
                _ => {
                    self.session = Some(session);
                    self.stage = Stage::Receive;
                },
            },
        }
    }

    fn on_receive(&mut self, outcome: ReadOutcome, config: &FtpConfig, local: &LocalTime, now: u64)
        ensures
            final(self)@ == on_receive(old(self)@, outcome, RoundEnv::of(config, local, now)),
            final(self)@.wf(),
    {
        proof {
            reveal(on_receive);
        }
        match self.session.take() {
            None => {
                self.stage = Stage::Rest;
            },
            Some(mut session) => match outcome {
                ReadOutcome::Closed | ReadOutcome::Failed => {
                    self.session = Some(session);
                    self.farewell(true);
                },
                ReadOutcome::Nothing => {
                    self.session = Some(session);
                    assert(self@ == old(self)@);
                    self.command_phase(config, local, now);
                },
                ReadOutcome::Bytes(bytes) => {
                    absorb(&mut session, bytes.as_slice(), now);
                    self.session = Some(session);
                    self.command_phase(config, local, now);
                },
            },
        }
    }

    fn on_command(
        &mut self,
        task: Task,
        reply: FsReply,
        config: &FtpConfig,
        local: &LocalTime,
        now: u64,
    )
        requires
            task@.job.wf(),
        ensures
            final(self)@ == on_command(old(self)@, task@, reply, RoundEnv::of(config, local, now)),
            final(self)@.wf(),
    {
        proof {
            reveal(on_command);
        }
        let mut task = task;
        self.stage = Stage::Rest;
        match task.job.resume(reply, &mut self.actions) {
            None => {
                self.stage = Stage::Command(task);
            },
            Some(result) => match self.session.take() {
                None => {
                    self.stage = Stage::Rest;
                },
                Some(mut session) => {
                    let abort = session.finish(task, result, local);
                    self.session = Some(session);
                    if abort {
                        self.abort_data();
                    }
                    self.command_phase(config, local, now);
                },
            },
        }
    }

    fn on_passive(&mut self, state: SocketState)
        ensures
            final(self)@ == on_passive(old(self)@, state),
            final(self)@.wf(),
    {
        proof {
            reveal(on_passive);
        }
        match state {
            SocketState::Closed => {
                self.act(Action::DataAccept);
                self.data_listening = true;
            },
            SocketState::TimeWait
            | SocketState::LastAck
            | SocketState::FinWait1
            | SocketState::FinWait2
            | SocketState::CloseWait => self.act(Action::DataAbort),
            _ => {},
        }
        self.activity = String::new();
        assert(self.activity@ =~= Seq::<char>::empty());
        self.farewell(false);
    }

    fn on_waiting(&mut self, state: SocketState, now: u64)
        ensures
            final(self)@ == on_waiting(old(self)@, state, now),
            final(self)@.wf(),
    {
        proof {
            reveal(on_waiting);
        }
        match self.session.take() {
            None => {
                self.stage = Stage::Rest;
            },
            Some(mut session) => match session.pending.take() {
                None => {
                    self.session = Some(session);
                    assert(self@ == old(self)@);
                    self.farewell(false);
                },
                Some(pending) => if state == SocketState::Established {
                    self.session = Some(session);
                    let job = FsJob::new(pending.path, pending.purpose);
                    self.stage = Stage::Open(Task { errand: Errand::Transfer, job });
                } else if time_since(pending.since, now) >= DATA_ACCEPT_TIMEOUT_MICROS {
                    session.reply("425 No data connection");
                    self.session = Some(session);
                    self.abort_data();
                    self.farewell(false);
                } else {
                    session.pending = Some(pending);
                    self.session = Some(session);
                    assert(self@ == old(self)@);
                    self.farewell(false);
                },
            },
        }
    }

    fn on_open(&mut self, task: Task, reply: FsReply, local: &LocalTime)
        requires
            task@.job.wf(),
        ensures
            final(self)@ == on_open(old(self)@, task@, reply, *local),
            final(self)@.wf(),
    {
        proof {
            reveal(on_open);
        }
        let mut task = task;
        self.stage = Stage::Rest;
        match task.job.resume(reply, &mut self.actions) {
            None => {
                self.stage = Stage::Open(task);
            },
            Some(result) => match self.session.take() {
                None => {
                    self.stage = Stage::Rest;
                },
                Some(mut session) => {
                    let abort = session.finish(task, result, local);
                    self.session = Some(session);
                    if abort {
                        self.abort_data();
                    }
                    self.farewell(false);
                },
            },
        }
    }
}

/// Takes received bytes into the line.
fn absorb(session: &mut Session, bytes: &[u8], now: u64)
    ensures
        final(session)@ == absorbed(old(session)@, bytes@, now),
{
    session.last_activity = now;
    let ghost received = session.line@;
    let ghost plain = |byte: u8| byte != 0xff;
    let mut line: Vec<u8> = Vec::new();
    line.extend_from_slice(session.line.as_slice());
    let mut i: usize = 0;
    proof {
        reveal(Seq::filter);
    }
    assert(received + bytes@.take(0).filter(plain) =~= received);
    while i < bytes.len()
        invariant
            i <= bytes@.len(),
            plain == (|byte: u8| byte != 0xff),
            line@ == received + bytes@.take(i as int).filter(plain),
        decreases bytes@.len() - i,
    {
        proof {
            reveal(Seq::filter);
            assert(bytes@.take(i + 1).drop_last() =~= bytes@.take(i as int));
        }
        if bytes[i] != 0xff {
            line.push(bytes[i]);
        }
        i += 1;
        assert(line@ =~= received + bytes@.take(i as int).filter(plain));
    }
    assert(bytes@.take(i as int) =~= bytes@);
    if line.len() > MAX_COMMAND_LINE {
        session.reply("500 Command line too long");
        session.line = Vec::new();
        assert(session.line@ =~= Seq::<u8>::empty());
    } else {
        session.line = line;
    }
}

impl FtpServer {
    /// Takes the transfer under way out of the session.
    fn take_transfer(&mut self) -> (transfer: Option<Transfer>)
        ensures
            transfer is Some <==> transfer_of(old(self)@) is Some,
            transfer matches Some(transfer) ==> {
                &&& transfer@ == transfer_of(old(self)@)->0
                &&& old(self)@.session is Some
                &&& final(self)@ == old(self)@.with(
                    SessionView { transfer: None, ..old(self)@.session->0 },
                )
            },
            transfer is None ==> final(self)@ == old(self)@,
    {
        match self.session.take() {
            None => None,
            Some(mut session) => {
                let transfer = session.transfer.take();
                self.session = Some(session);
                transfer
            },
        }
    }

    fn put_transfer(&mut self, transfer: Transfer)
        ensures
            final(self)@ == with_transfer(old(self)@, transfer@),
    {
        if let Some(mut session) = self.session.take() {
            session.transfer = Some(transfer);
            self.session = Some(session);
        }
    }

    fn on_announce(&mut self, queue: Queue)
        ensures
            final(self)@ == on_announce(old(self)@, queue),
            final(self)@.wf(),
    {
        proof {
            reveal(on_announce);
        }
        if queue.empty {
            if let Some(mut transfer) = self.take_transfer() {
                transfer.announced = true;
                self.put_transfer(transfer);
            }
        }
        self.farewell(false);
    }

    fn on_drain(&mut self, queue: Queue)
        ensures
            final(self)@ == on_drain(old(self)@, queue),
            final(self)@.wf(),
    {
        proof {
            reveal(on_drain);
        }
        if queue.empty || !(queue.may_send || queue.may_recv) {
            if let Some(transfer) = self.take_transfer() {
                if let Some(mut session) = self.session.take() {
                    if transfer.failed.is_some() {
                        session.reply("426 Transfer aborted");
                        session.reply("226 Data closed");
                    } else {
                        let mut line = "226 Finished".to_owned();
                        line.append(" ");
                        line.append(transfer.topic.as_str());
                        session.reply(line.as_str());
                    }
                    self.session = Some(session);
                }
                close_kind(&transfer.kind, &mut self.actions);
                self.act(Action::DataClose);
                self.data_listening = false;
            }
        }
        self.farewell(false);
    }

    fn settle(&mut self, transfer: Transfer, dead: bool)
        ensures
            final(self)@ == settled(old(self)@, transfer@, dead),
            final(self)@.wf(),
    {
        let mut transfer = transfer;
        self.activity = transfer.topic.clone();
        if transfer.failed.is_none() && dead && !transfer.finishing {
            transfer.failed = Some(Failure::Pipe);
        }
        self.put_transfer(transfer);
        self.farewell(false);
    }

    fn on_alive(&mut self, queue: Queue)
        ensures
            final(self)@ == on_alive(old(self)@, queue),
            final(self)@.wf(),
    {
        proof {
            reveal(on_alive);
        }
        let dead = !queue.may_send && !queue.may_recv;
        match self.take_transfer() {
            None => self.farewell(false),
            Some(mut transfer) => {
                let finished = match &transfer.kind {
                    TransferKind::Retrieve { .. } => {
                        self.stage = Stage::Send { dead };
                        false
                    },
                    TransferKind::Store { .. } => {
                        self.stage = Stage::Store { dead };
                        false
                    },
                    TransferKind::List { dir, done, chunk, chunk_sent, .. } => if *chunk_sent
                        < chunk.len() {
                        self.stage = Stage::Chunk { dead };
                        false
                    } else if *done || dir.is_none() {
                        true
                    } else {
                        self.stage = Stage::Fill { dead };
                        false
                    },
                };
                if finished {
                    transfer.finishing = true;
                    self.settle(transfer, dead);
                } else {
                    self.put_transfer(transfer);
                }
            },
        }
    }

    fn count_sent(&mut self, count: u64)
        ensures
            final(self)@ == sent(old(self)@, count),
    {
        self.stats.sent_bytes = self.stats.sent_bytes.wrapping_add(count);
    }

    fn on_send(&mut self, outcome: MoveOutcome, dead: bool)
        ensures
            final(self)@ == on_send(old(self)@, outcome, dead),
            final(self)@.wf(),
    {
        proof {
            reveal(on_send);
        }
        match self.take_transfer() {
            None => self.farewell(false),
            Some(mut transfer) => {
                match outcome {
                    MoveOutcome::Moved(count) => if count == 0 {
                        transfer.finishing = true;
                    } else {
                        self.count_sent(count);
                    },
                    MoveOutcome::Failed => {
                        transfer.failed = Some(Failure::Read);
                    },
                    MoveOutcome::Blocked => {},
                    MoveOutcome::NotReady => if dead {
                        transfer.failed = Some(Failure::Pipe);
                    },
                }
                self.settle(transfer, dead);
            },
        }
    }

    fn on_store(&mut self, outcome: MoveOutcome, dead: bool)
        ensures
            final(self)@ == on_store(old(self)@, outcome, dead),
            final(self)@.wf(),
    {
        proof {
            reveal(on_store);
        }
        match self.take_transfer() {
            None => self.farewell(false),
            Some(mut transfer) => match outcome {
                MoveOutcome::Moved(count) => {
                    self.put_transfer(transfer);
                    self.stats.received_bytes = self.stats.received_bytes.wrapping_add(count);
                    self.stage = Stage::Store { dead };
                },
                MoveOutcome::Failed => {
                    transfer.failed = Some(Failure::Write);
                    self.act(Action::DataDiscard);
                    self.settle(transfer, dead);
                },
                _ => {
                    self.put_transfer(transfer);
                    self.stage = Stage::StoreEnd { dead };
                },
            },
        }
    }

    fn on_store_end(&mut self, queue: Queue, dead: bool)
        ensures
            final(self)@ == on_store_end(old(self)@, queue, dead),
            final(self)@.wf(),
    {
        proof {
            reveal(on_store_end);
        }
        match self.take_transfer() {
            None => self.farewell(false),
            Some(mut transfer) => {
                if !queue.may_recv && !queue.can_recv {
                    transfer.finishing = true;
                }
                self.settle(transfer, dead);
            },
        }
    }

    fn on_chunk(&mut self, outcome: WriteOutcome, dead: bool)
        ensures
            final(self)@ == on_chunk(old(self)@, outcome, dead),
            final(self)@.wf(),
    {
        proof {
            reveal(on_chunk);
        }
        match self.take_transfer() {
            None => self.farewell(false),
            Some(mut transfer) => {
                let list = match &transfer.kind {
                    TransferKind::List { .. } => true,
                    _ => false,
                };
                if list {
                    match outcome {
                        WriteOutcome::Wrote(count) => {
                            let moved: usize = move_on(&mut transfer, count);
                            self.count_sent(moved as u64);
                        },
                        WriteOutcome::NotReady => if dead {
                            transfer.failed = Some(Failure::Pipe);
                        },
                        _ => {},
                    }
                }
                self.settle(transfer, dead);
            },
        }
    }

    fn on_fill(&mut self, filled: Option<Filled>, dead: bool)
        ensures
            final(self)@ == on_fill(old(self)@, filled, dead),
            final(self)@.wf(),
    {
        proof {
            reveal(on_fill);
        }
        match self.take_transfer() {
            None => self.farewell(false),
            Some(transfer) => {
                let mut transfer = transfer;
                match filled {
                    None => {
                        transfer.failed = Some(Failure::List);
                    },
                    Some(filled) => if let TransferKind::List { dir, kind, skip, .. }
                        = transfer.kind {
                        transfer.kind = TransferKind::List {
                            dir,
                            kind,
                            skip: skip.wrapping_add(filled.produced),
                            done: filled.produced == 0,
                            chunk: filled.chunk,
                            chunk_sent: 0,
                        };
                    },
                }
                self.settle(transfer, dead);
            },
        }
    }

    fn on_farewell(&mut self, queue: Queue, fatal: bool)
        ensures
            final(self)@ == on_farewell(old(self)@, queue, fatal),
            final(self)@.wf(),
    {
        proof {
            reveal(on_farewell);
        }
        let quit = match &self.session {
            None => {
                self.stage = Stage::Rest;
                return ;
            },
            Some(session) => session.quit,
        };
        if quit {
            if queue.empty {
                self.act(Action::ControlClose);
                self.control_listening = false;
                self.leaving(true);
            } else {
                self.leaving(fatal);
            }
        } else {
            self.leaving(fatal || (!queue.may_send && queue.empty));
        }
    }

    fn on_leave(&mut self, state: SocketState)
        ensures
            final(self)@ == on_leave(old(self)@, state),
            final(self)@.wf(),
    {
        proof {
            reveal(on_leave);
        }
        match state {
            SocketState::Closed | SocketState::TimeWait | SocketState::LastAck => {},
            _ => self.act(Action::ControlAbort),
        }
        self.control_listening = false;
        self.abort_data();
        self.session = None;
        self.stage = Stage::Rest;
    }

    /// A server that is stopped.
    pub fn new() -> (server: Self)
        ensures
            server@ == stopped(),
    {
        FtpServer {
            volume: false,
            session: None,
            control_listening: false,
            data_listening: false,
            ip: None,
            stats: FtpStats::default(),
            status: FtpStatus::Stopped,
            activity: String::new(),
            stage: Stage::Rest,
            actions: Vec::new(),
        }
    }

    /// Starts the server once the card's volume is open; `Err` when it could not
    /// be opened. A server that runs already goes on. The card must not be
    /// exported over USB.
    pub fn start(&mut self, opened: bool, ip: Option<Ipv4>) -> (result: Result<(), ()>)
        ensures
            result is Ok <==> old(self)@.volume || opened,
            final(self)@ == server_started(old(self)@, opened, ip),
            final(self)@.volume == (old(self)@.volume || opened),
    {
        if self.volume {
            return Ok(());
        }
        if !opened {
            return Err(());
        }
        self.volume = true;
        self.ip = ip;
        self.stats = FtpStats::default();
        self.status = FtpStatus::Offline;
        self.activity = String::new();
        assert(self.activity@ =~= Seq::<char>::empty());
        Ok(())
    }

    /// Stops the server: what is to be done, and whether the volume is to be
    /// closed after it.
    pub fn stop(&mut self) -> (ending: (Vec<Action>, bool))
        ensures
            ending.0@ == stop_actions(old(self)@),
            ending.1 == old(self)@.volume,
            final(self)@ == (ServerView { stats: old(self)@.stats, ..stopped() }),
    {
        self.actions = Vec::new();
        assert(self.actions@ =~= Seq::<Action>::empty());
        self.end_session();
        self.act(Action::ControlAbort);
        self.act(Action::DataAbort);
        self.control_listening = false;
        self.data_listening = false;
        let volume = self.volume;
        self.volume = false;
        self.ip = None;
        self.status = FtpStatus::Stopped;
        self.activity = String::new();
        assert(self.activity@ =~= Seq::<char>::empty());
        self.stage = Stage::Rest;
        let mut actions: Vec<Action> = Vec::new();
        core::mem::swap(&mut actions, &mut self.actions);
        (actions, volume)
    }

    /// Begins a round, one per iteration of the main loop.
    pub fn poll(&mut self)
        requires
            old(self)@.wf(),
        ensures
            final(self)@ == if old(self)@.volume {
                old(self)@.at(Stage::Network)
            } else {
                old(self)@
            },
            final(self)@.wf(),
    {
        if self.volume {
            self.stage = Stage::Network;
        }
    }

    /// What the round asks; `None` when it is over.
    pub fn query(&self) -> (query: Option<Query<String, Vec<u8>>>)
        requires
            self@.wf(),
        ensures
            match round_query(self@) {
                Some(wanted) => query matches Some(asked) && asked.view() == wanted,
                None => query is None,
            },
    {
        match &self.stage {
            Stage::Rest => None,
            Stage::Network => Some(Query::Network),
            Stage::Arm | Stage::Accept | Stage::Leave => Some(Query::ControlState),
            Stage::Greet => Some(Query::ControlPeer),
            Stage::Flush => {
                let mut bytes: Vec<u8> = Vec::new();
                if let Some(session) = &self.session {
                    bytes.extend_from_slice(session.out.as_slice());
                    assert(bytes@ =~= session.out@);
                }
                Some(Query::ControlWrite(bytes))
            },
            Stage::Receive => Some(Query::ControlRead),
            Stage::Command(task) | Stage::Open(task) => Some(Query::Card(task.job.query())),
            Stage::Passive | Stage::Waiting => Some(Query::DataState),
            Stage::Announce | Stage::Farewell { .. } => Some(Query::ControlQueue),
            Stage::Drain | Stage::Alive | Stage::StoreEnd { .. } => Some(Query::DataQueue),
            Stage::Send { .. } => match self.transfer() {
                Some(transfer) => match &transfer.kind {
                    TransferKind::Retrieve { file } => Some(Query::SendFile { file: *file }),
                    _ => None,
                },
                None => None,
            },
            Stage::Store { .. } => match self.transfer() {
                Some(transfer) => match &transfer.kind {
                    TransferKind::Store { file } => Some(Query::ReceiveFile { file: *file }),
                    _ => None,
                },
                None => None,
            },
            Stage::Chunk { .. } => match self.transfer() {
                Some(transfer) => {
                    let mut bytes: Vec<u8> = Vec::new();
                    if let TransferKind::List { chunk, chunk_sent, .. } = &transfer.kind {
                        if *chunk_sent <= chunk.len() {
                            let (_, rest) = chunk.as_slice().split_at(*chunk_sent);
                            bytes.extend_from_slice(rest);
                        }
                    }
                    assert(bytes@ =~= chunk_left(transfer@));
                    Some(Query::SendChunk(bytes))
                },
                None => None,
            },
            Stage::Fill { .. } => match self.transfer() {
                Some(transfer) => match &transfer.kind {
                    TransferKind::List { dir: Some(dir), kind, skip, .. } => Some(
                        Query::FillListing { dir: *dir, kind: *kind, skip: *skip },
                    ),
                    _ => None,
                },
                None => None,
            },
        }
    }

    fn transfer(&self) -> (transfer: Option<&Transfer>)
        ensures
            match transfer_of(self@) {
                Some(wanted) => transfer matches Some(found) && found@ == wanted,
                None => transfer is None,
            },
    {
        match &self.session {
            Some(session) => match &session.transfer {
                Some(transfer) => Some(transfer),
                None => None,
            },
            None => None,
        }
    }

    fn advance(&mut self, reply: Reply, config: &FtpConfig, local: &LocalTime, now: u64)
        requires
            old(self)@.wf(),
        ensures
            final(self)@ == round_next(old(self)@, reply, RoundEnv::of(config, local, now)),
            final(self)@.wf(),
    {
        proof {
            reveal(round_next);
        }
        let mut stage: Stage<Task> = Stage::Rest;
        match &self.stage {
            Stage::Command(_) | Stage::Open(_) => {
                core::mem::swap(&mut stage, &mut self.stage);
            },
            _ => {},
        }
        match (stage, reply) {
            (Stage::Command(task), Reply::Card(reply)) => {
                proof {
                    tasks_ignore_the_stage(
                        old(self)@,
                        task@,
                        reply,
                        RoundEnv::of(config, local, now),
                    );
                }
                self.on_command(task, reply, config, local, now);
            },
            (Stage::Open(task), Reply::Card(reply)) => {
                proof {
                    tasks_ignore_the_stage(
                        old(self)@,
                        task@,
                        reply,
                        RoundEnv::of(config, local, now),
                    );
                }
                self.on_open(task, reply, local);
            },
            (Stage::Command(task), _) => {
                self.stage = Stage::Command(task);
            },
            (Stage::Open(task), _) => {
                self.stage = Stage::Open(task);
            },
            (_, reply) => self.advance_simple(reply, config, local, now),
        }
    }

    fn advance_simple(&mut self, reply: Reply, config: &FtpConfig, local: &LocalTime, now: u64)
        requires
            !(old(self)@.stage is Command),
            !(old(self)@.stage is Open),
        ensures
            final(self)@ == round_next(old(self)@, reply, RoundEnv::of(config, local, now)),
            final(self)@.wf(),
    {
        proof {
            reveal(round_next);
        }
        match (&self.stage, reply) {
            (Stage::Network, Reply::Network { ip, online }) => self.on_network(ip, online),
            (Stage::Arm, Reply::State(state)) => self.on_arm(state),
            (Stage::Accept, Reply::State(state)) => self.on_accept(state),
            (Stage::Greet, Reply::Peer(peer)) => self.on_greet(peer, now),
            (Stage::Flush, Reply::Wrote(outcome)) => self.on_flush(outcome),
            (Stage::Receive, Reply::Read(outcome)) => self.on_receive(outcome, config, local, now),
            (Stage::Passive, Reply::State(state)) => self.on_passive(state),
            (Stage::Waiting, Reply::State(state)) => self.on_waiting(state, now),
            (Stage::Announce, Reply::Queue(queue)) => self.on_announce(queue),
            (Stage::Drain, Reply::Queue(queue)) => self.on_drain(queue),
            (Stage::Alive, Reply::Queue(queue)) => self.on_alive(queue),
            (Stage::Send { dead }, Reply::Moved(outcome)) => {
                let dead = *dead;
                self.on_send(outcome, dead)
            },
            (Stage::Store { dead }, Reply::Moved(outcome)) => {
                let dead = *dead;
                self.on_store(outcome, dead)
            },
            (Stage::StoreEnd { dead }, Reply::Queue(queue)) => {
                let dead = *dead;
                self.on_store_end(queue, dead)
            },
            (Stage::Chunk { dead }, Reply::Wrote(outcome)) => {
                let dead = *dead;
                self.on_chunk(outcome, dead)
            },
            (Stage::Fill { dead }, Reply::Filled(filled)) => {
                let dead = *dead;
                self.on_fill(filled, dead)
            },
            (Stage::Farewell { fatal }, Reply::Queue(queue)) => {
                let fatal = *fatal;
                self.on_farewell(queue, fatal)
            },
            (Stage::Leave, Reply::State(state)) => self.on_leave(state),
            _ => {},
        }
    }

    /// Takes the answer to the round's question; what is to be done is performed
    /// in its order before the next question.
    pub fn resume(&mut self, reply: Reply, config: &FtpConfig, local: &LocalTime, now: u64) -> (
        actions: Vec<Action>)
        requires
            old(self)@.wf(),
        ensures
            final(self)@.wf(),
            ({
                let next = round_next(
                    ServerView { actions: Seq::empty(), ..old(self)@ },
                    reply,
                    RoundEnv::of(config, local, now),
                );
                &&& actions@ == next.actions
                &&& final(self)@ == (ServerView { actions: Seq::empty(), ..next })
            }),
    {
        self.actions = Vec::new();
        assert(self.actions@ =~= Seq::<Action>::empty());
        self.advance(reply, config, local, now);
        let mut actions: Vec<Action> = Vec::new();
        core::mem::swap(&mut actions, &mut self.actions);
        assert(self.actions@ =~= Seq::<Action>::empty());
        actions
    }

    pub fn status(&self) -> (status: FtpStatus)
        ensures
            status == self@.status,
    {
        self.status
    }

    pub fn ip(&self) -> (ip: Option<Ipv4>)
        ensures
            ip == self@.ip,
    {
        self.ip
    }

    pub fn stats(&self) -> (stats: FtpStats)
        ensures
            stats == self@.stats,
    {
        self.stats
    }

    pub fn activity(&self) -> (activity: &str)
        ensures
            activity@ == self@.activity,
    {
        self.activity.as_str()
    }

    pub fn peer(&self) -> (peer: Option<&str>)
        ensures
            match self@.session {
                Some(session) => peer matches Some(peer) && peer@ == session.peer,
                None => peer is None,
            },
    {
        match &self.session {
            Some(session) => Some(session.peer.as_str()),
            None => None,
        }
    }
}

/// The server once its volume is open.
pub open spec fn server_started(v: ServerView, opened: bool, ip: Option<Ipv4>) -> ServerView {
    if !v.volume && opened {
        ServerView {
            volume: true,
            ip,
            stats: FtpStats { sent_bytes: 0, received_bytes: 0 },
            status: FtpStatus::Offline,
            activity: Seq::empty(),
            ..v
        }
    } else {
        v
    }
}

/// What is to be done when the server stops.
pub open spec fn stop_actions(v: ServerView) -> Seq<Action> {
    end_session(ServerView { actions: Seq::empty(), ..v }).actions.push(
        Action::ControlAbort,
    ).push(Action::DataAbort)
}

/// A server that is stopped.
pub open spec fn stopped() -> ServerView {
    ServerView {
        volume: false,
        session: None,
        control_listening: false,
        data_listening: false,
        ip: None,
        stats: FtpStats { sent_bytes: 0, received_bytes: 0 },
        status: FtpStatus::Stopped,
        activity: Seq::empty(),
        stage: Stage::Rest,
        actions: Seq::empty(),
    }
}

} // verus!
