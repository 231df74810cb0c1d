//! What the server does in its rounds, stage by stage: laws over what it asks and what it makes
//! of the answers.

use crate::ftp::command::{dispatched, DispatchView, Ipv4, TaskView};
use crate::ftp::job::{changes_the_card, job_query, reachable, Action, FsQuery, JobView};
use crate::ftp::listing::ListKind;
use crate::ftp::server::{
    absorbed, bare_line, command_phase, data_phase, idle_phase, line_end, on_accept, on_alive,
    on_announce, on_arm, on_chunk, on_drain, on_farewell, on_fill, on_flush, on_greet, on_leave,
    on_network, on_passive, on_receive, on_send, on_store, on_store_end, on_waiting, peer_text,
    round_next, round_query, server_started, session_phase, stop_actions, stopped, Filled,
    MoveOutcome, Query, Queue, ReadOutcome, Reply, RoundEnv, ServerView, SocketState, Stage,
    WriteOutcome,
};
use crate::ftp::session::{
    reply_bytes, Failure, FtpStatus, PendingView, SessionView, TransferKind, TransferView,
};
use crate::text;
use vstd::prelude::*;
use vstd::string::*;
use vstd::utf8::*;

verus! {

// ---------------------------------------------------------------------------
// Starting and stopping
// ---------------------------------------------------------------------------

/// A server starts once its volume is open, with its counts at zero, and waits for the network;
/// it serves nobody before. A second start changes nothing.
pub proof fn server_starts_with_its_volume(v: ServerView, ip: Option<Ipv4>)
    ensures
        ({
            let after = server_started(stopped(), true, ip);
            &&& after.volume
            &&& after.ip == ip
            &&& after.status == FtpStatus::Offline
            &&& after.session is None && !after.control_listening && !after.data_listening
            &&& after.stats.sent_bytes == 0 && after.stats.received_bytes == 0
        }),
        server_started(v, false, ip) == v,
        v.volume ==> server_started(v, true, ip) == v,
        stopped().status == FtpStatus::Stopped && !stopped().volume && stopped().session is None,
        stopped().stats.sent_bytes == 0 && stopped().stats.received_bytes == 0,
        !stopped().control_listening && !stopped().data_listening && stopped().ip is None,
        stopped().activity.len() == 0 && stopped().actions.len() == 0,
        round_query(stopped()) is None,
{
}

/// A server that stops closes what its session holds, hangs up and closes both doors.
pub proof fn server_stops_with_its_session(v: ServerView)
    ensures
        stop_actions(v).len() >= 2,
        stop_actions(v)[stop_actions(v).len() - 2] == Action::ControlAbort,
        stop_actions(v).last() == Action::DataAbort,
        v.session is None ==> stop_actions(v) == seq![Action::ControlAbort, Action::DataAbort],
        v.session matches Some(session) ==> stop_actions(v)
            == crate::ftp::session::close_actions(session.transfer) + seq![
            Action::ControlClose,
            Action::DataAbort,
            Action::ControlAbort,
            Action::DataAbort,
        ],
{
    if v.session is Some {
        let session = v.session->Some_0;
        assert(stop_actions(v) =~= crate::ftp::session::close_actions(session.transfer) + seq![
            Action::ControlClose,
            Action::DataAbort,
            Action::ControlAbort,
            Action::DataAbort,
        ]);
    } else {
        assert(stop_actions(v) =~= seq![Action::ControlAbort, Action::DataAbort]);
    }
}

/// The states by name.
pub proof fn states_are_named()
    ensures
        FtpStatus::Stopped.text() == "STOPPED"@,
        FtpStatus::Offline.text() == "WAITING FOR WI-FI"@,
        FtpStatus::Listening.text() == "LISTENING :21"@,
        FtpStatus::Connected.text() == "CLIENT CONNECTED"@,
        FtpStatus::Transfer.text() == "TRANSFER IN PROGRESS"@,
{
}

// ---------------------------------------------------------------------------
// Clients come and go
// ---------------------------------------------------------------------------

/// Without a network everybody is dropped and both doors are closed; with one, a closed door is
/// seen to first.
pub proof fn network_is_followed(v: ServerView, ip: Option<Ipv4>, env: RoundEnv)
    requires
        v.stage is Network,
    ensures
        round_query(v) == Some(Query::<Seq<char>, Seq<u8>>::Network),
        ({
            let after = round_next(v, Reply::Network { ip, online: false }, env);
            &&& after.status == FtpStatus::Offline
            &&& after.session is None && !after.control_listening && !after.data_listening
            &&& round_query(after) is None
            &&& after.ip == ip
            &&& v.session is None && v.control_listening ==> after.actions.contains(
                Action::ControlAbort,
            )
            &&& v.session is Some ==> after.actions.contains(Action::ControlClose)
                && after.actions.contains(Action::DataAbort)
            &&& v.session is None && v.data_listening ==> after.actions.contains(Action::DataAbort)
        }),
        !v.control_listening ==> {
            let after = round_next(v, Reply::Network { ip, online: true }, env);
            &&& after.stage is Arm
            &&& after.session == v.session && after.actions == v.actions && after.ip == ip
        },
        v.control_listening && v.session is None ==> round_next(
            v,
            Reply::Network { ip, online: true },
            env,
        ).stage is Accept,
{
    reveal(round_next);
    reveal(on_network);
    let after = round_next(v, Reply::Network { ip, online: false }, env);
    if v.session is Some {
        let held = crate::ftp::session::close_actions(v.session->Some_0.transfer);
        let at = (v.actions.len() + held.len()) as int;
        assert(after.actions[at] == Action::ControlClose);
        assert(after.actions[at + 1] == Action::DataAbort);
    } else {
        if v.control_listening {
            assert(after.actions[v.actions.len() as int] == Action::ControlAbort);
        }
        if v.data_listening {
            assert(after.actions.last() == Action::DataAbort);
        }
    }
}

/// The door is opened when the socket is closed, and a socket that lingers is closed first.
pub proof fn door_is_opened(v: ServerView, state: SocketState, env: RoundEnv)
    requires
        v.stage is Arm,
    ensures
        round_query(v) == Some(Query::<Seq<char>, Seq<u8>>::ControlState),
        ({
            let after = round_next(v, Reply::State(SocketState::Closed), env);
            after.control_listening && after.actions == v.actions.push(Action::ControlAccept)
        }),
        state == SocketState::TimeWait || state == SocketState::LastAck || state
            == SocketState::FinWait1 || state == SocketState::FinWait2 ==> {
            let after = round_next(v, Reply::State(state), env);
            after.control_listening == v.control_listening && after.actions == v.actions.push(
                Action::ControlAbort,
            )
        },
        state != SocketState::Closed && state != SocketState::TimeWait && state
            != SocketState::LastAck && state != SocketState::FinWait1 && state
            != SocketState::FinWait2 ==> round_next(v, Reply::State(state), env).actions
            == v.actions,
{
    reveal(round_next);
    reveal(on_arm);
}

/// A client that has come in is asked who it is and greeted; it is not logged in, and stands at
/// the root of the card.
pub proof fn clients_are_greeted(
    v: ServerView,
    state: SocketState,
    peer: Option<(Ipv4, u16)>,
    env: RoundEnv,
)
    ensures
        v.stage is Accept ==> {
            &&& round_query(v) == Some(Query::<Seq<char>, Seq<u8>>::ControlState)
            &&& round_query(round_next(v, Reply::State(SocketState::Established), env)) == Some(
                Query::<Seq<char>, Seq<u8>>::ControlPeer,
            )
            &&& state != SocketState::Established && v.session is None ==> round_query(
                round_next(v, Reply::State(state), env),
            ) is None && round_next(v, Reply::State(state), env).status == FtpStatus::Listening
        },
        v.stage is Greet ==> {
            let after = round_next(v, Reply::Peer(peer), env);
            let greeting = encode_utf8("220 RATPUTER SD"@) + seq![13u8, 10u8];
            &&& after.session matches Some(session) && session.out == greeting
                && !session.logged_in && session.user is None && session.cwd.len() == 0
                && session.rest is None && session.line.len() == 0 && session.peer == peer_text(
                peer,
            ) && session.pending is None && session.transfer is None && !session.quit
                && session.last_activity == env.now
            &&& after.status == FtpStatus::Connected
            &&& round_query(after) == Some(Query::<Seq<char>, Seq<u8>>::ControlWrite(greeting))
        },
{
    reveal(round_next);
    reveal(on_accept);
    reveal(on_greet);
    if v.stage is Greet {
        let after = round_next(v, Reply::Peer(peer), env);
        let greeting = encode_utf8("220 RATPUTER SD"@) + seq![13u8, 10u8];
        assert(after.session->Some_0.out =~= greeting);
    }
}

/// A peer is named by its address and port.
pub proof fn peers_are_named(ip: Ipv4, port: u16)
    ensures
        peer_text(Some((ip, port))) == text::decimal(ip.a as nat) + seq!['.'] + text::decimal(
            ip.b as nat,
        ) + seq!['.'] + text::decimal(ip.c as nat) + seq!['.'] + text::decimal(ip.d as nat)
            + seq![':'] + text::decimal(port as nat),
        peer_text(None) == seq!['?'],
{
    reveal_strlit(".");
    reveal_strlit(":");
    reveal_strlit("?");
    assert("."@ =~= seq!['.']);
    assert(":"@ =~= seq![':']);
    assert("?"@ =~= seq!['?']);
}

/// A session is shown as a transfer while it has one, or waits for its data connection.
pub proof fn sessions_are_shown(v: ServerView, session: SessionView)
    requires
        v.session == Some(session),
    ensures
        session.pending is Some || session.transfer is Some ==> session_phase(v).status
            == FtpStatus::Transfer,
        session.pending is None && session.transfer is None ==> session_phase(v).status
            == FtpStatus::Connected,
        session.out.len() > 0 ==> round_query(session_phase(v)) == Some(
            Query::<Seq<char>, Seq<u8>>::ControlWrite(session.out),
        ),
        session.out.len() == 0 ==> round_query(session_phase(v)) == Some(
            Query::<Seq<char>, Seq<u8>>::ControlRead,
        ),
        session_phase(v).session == v.session,
{
}

// ---------------------------------------------------------------------------
// Lines and replies
// ---------------------------------------------------------------------------

/// What was written of the replies is not written again, and what was not is kept; a connection
/// that fails is left.
pub proof fn replies_are_written_once(
    v: ServerView,
    session: SessionView,
    count: usize,
    env: RoundEnv,
)
    requires
        v.stage is Flush,
        v.session == Some(session),
        count <= session.out.len(),
    ensures
        round_query(v) == Some(Query::<Seq<char>, Seq<u8>>::ControlWrite(session.out)),
        ({
            let after = round_next(v, Reply::Wrote(WriteOutcome::Wrote(count)), env);
            &&& after.session matches Some(kept) && session.out == session.out.take(count as int)
                + kept.out && kept.line == session.line && kept.logged_in == session.logged_in
            &&& round_query(after) == Some(Query::<Seq<char>, Seq<u8>>::ControlRead)
        }),
        ({
            let after = round_next(v, Reply::Wrote(WriteOutcome::Blocked), env);
            after.session == v.session && round_query(after) == Some(
                Query::<Seq<char>, Seq<u8>>::ControlRead,
            )
        }),
        session.out.len() > 0 ==> round_next(v, Reply::Wrote(WriteOutcome::Failed), env).stage
            is Leave,
{
    reveal(round_next);
    reveal(on_flush);
    let after = round_next(v, Reply::Wrote(WriteOutcome::Wrote(count)), env);
    assert(session.out =~= session.out.take(count as int) + after.session->Some_0.out);
}

/// A reply is its text and an end of line, behind the replies before it.
pub proof fn replies_are_lines(session: SessionView, reply: Seq<char>)
    ensures
        session.said(reply).out == session.out + encode_utf8(reply) + seq![13u8, 10u8],
        session.said(reply).logged_in == session.logged_in,
        session.said(reply).cwd == session.cwd,
        session.said(reply).line == session.line,
{
    assert(session.said(reply).out =~= session.out + encode_utf8(reply) + seq![13u8, 10u8]);
}

/// What comes in is put behind the line so far, without the bytes of Telnet commands; a line of
/// more than 512 bytes is refused and forgotten. Either is a sign of life.
pub proof fn lines_are_collected(session: SessionView, bytes: Seq<u8>, now: u64)
    requires
        forall|i: int| 0 <= i < bytes.len() ==> #[trigger] bytes[i] != 255,
    ensures
        session.line.len() + bytes.len() <= 512 ==> absorbed(session, bytes, now) == (SessionView {
            line: session.line + bytes,
            last_activity: now,
            ..session
        }),
        session.line.len() + bytes.len() > 512 ==> absorbed(session, bytes, now) == (SessionView {
            line: Seq::empty(),
            out: session.out + encode_utf8("500 Command line too long"@) + seq![13u8, 10u8],
            last_activity: now,
            ..session
        }),
        absorbed(session, seq![255u8] + bytes, now) == absorbed(session, bytes, now),
{
    let plain = |byte: u8| byte != 0xff;
    nothing_is_filtered(bytes);
    assert(bytes.filter(plain) == bytes);
    let marked = seq![255u8] + bytes;
    Seq::filter_distributes_over_add(seq![255u8], bytes, plain);
    reveal(Seq::filter);
    assert(seq![255u8].filter(plain) =~= Seq::<u8>::empty()) by {
        let mark = seq![255u8];
        assert(mark.drop_last() =~= Seq::<u8>::empty());
        assert(mark.last() == 255u8);
        assert(!plain(mark.last()));
        assert(mark.drop_last().filter(plain) =~= Seq::<u8>::empty());
        reveal_with_fuel(Seq::filter, 2);
    }
    assert(marked.filter(plain) =~= bytes);
    if session.line.len() + bytes.len() > 512 {
        assert(absorbed(session, bytes, now).out =~= session.out + encode_utf8(
            "500 Command line too long"@,
        ) + seq![13u8, 10u8]);
    }
}

proof fn nothing_is_filtered(bytes: Seq<u8>)
    requires
        forall|i: int| 0 <= i < bytes.len() ==> #[trigger] bytes[i] != 255,
    ensures
        bytes.filter(|byte: u8| byte != 0xff) == bytes,
    decreases bytes.len(),
{
    reveal(Seq::filter);
    if bytes.len() > 0 {
        nothing_is_filtered(bytes.drop_last());
        assert(bytes.drop_last().push(bytes.last()) =~= bytes);
    }
}

/// A line ends with a line feed, before which a carriage return does not count.
pub proof fn lines_end_with_a_line_feed(command: Seq<u8>, rest: Seq<u8>)
    requires
        forall|i: int| 0 <= i < command.len() ==> #[trigger] command[i] != 10,
    ensures
        ({
            let line = command + seq![13u8, 10u8] + rest;
            &&& line_end(line) == command.len() + 1
            &&& bare_line(line.take(line_end(line))) == command
            &&& line.skip(line_end(line) + 1) == rest
        }),
        (command.len() == 0 || command.last() != 13) ==> {
            let line = command + seq![10u8] + rest;
            &&& line_end(line) == command.len()
            &&& bare_line(line.take(line_end(line))) == command
            &&& line.skip(line_end(line) + 1) == rest
        },
        line_end(command) == command.len(),
{
    let line = command + seq![13u8, 10u8] + rest;
    let at = command.len() as int;
    assert forall|i: int| 0 <= i < at + 1 implies line[i] != 10 by {
        if i < at {
            assert(line[i] == command[i]);
        }
    }
    assert(line[at + 1] == 10);
    line_ends_there(line, at + 1);
    assert(line.take(at + 1).drop_last() =~= command);
    assert(line.skip(at + 2) =~= rest);
    let short = command + seq![10u8] + rest;
    assert forall|i: int| 0 <= i < at implies short[i] != 10 by {
        assert(short[i] == command[i]);
    }
    assert(short[at] == 10);
    line_ends_there(short, at);
    assert(short.take(at) =~= command);
    assert(short.skip(at + 1) =~= rest);
    line_ends_there(command, at);
}

proof fn line_ends_there(line: Seq<u8>, at: int)
    requires
        0 <= at <= line.len(),
        at < line.len() ==> line[at] == 10,
        forall|i: int| 0 <= i < at ==> line[i] != 10,
    ensures
        line_end(line) == at,
    decreases line.len(),
{
    if line.len() > 0 && at > 0 {
        assert(line[0] != 10);
        assert forall|i: int| 0 <= i < at - 1 implies line.skip(1)[i] != 10 by {
            assert(line.skip(1)[i] == line[i + 1]);
        }
        line_ends_there(line.skip(1), at - 1);
    }
}

/// A whole line that came in is carried out as a command, with what follows it kept for later:
/// work on the card is begun at once.
pub proof fn whole_lines_are_carried_out(
    v: ServerView,
    session: SessionView,
    command: Seq<u8>,
    rest: Seq<u8>,
    env: RoundEnv,
)
    requires
        v.session == Some(session),
        session.line == command + seq![13u8, 10u8] + rest,
        forall|i: int| 0 <= i < command.len() ==> #[trigger] command[i] != 10,
    ensures
        ({
            let step = dispatched(SessionView { line: rest, ..session }, command, v.env(env));
            let after = command_phase(v, env);
            step.next matches DispatchView::Run(task) ==> {
                &&& after.session == Some(step.session)
                &&& after.actions == v.actions + step.actions
                &&& round_query(after) == Some(
                    Query::<Seq<char>, Seq<u8>>::Card(crate::ftp::job::job_query(task.job)),
                )
            }
        }),
{
    lines_end_with_a_line_feed(command, rest);
    assert(session.line.skip(line_end(session.line) + 1) == rest);
}

/// A client from which nothing was heard for five minutes, and which waits for nothing, is told
/// so, once, and is to leave; all others may stay.
pub proof fn idle_clients_leave(v: ServerView, session: SessionView, env: RoundEnv)
    requires
        v.stage is Receive,
        v.session == Some(session),
        session.line.len() == 0,
        env.now >= session.last_activity,
    ensures
        ({
            let after = round_next(v, Reply::Read(ReadOutcome::Nothing), env);
            let waits = session.pending is Some || session.transfer is Some;
            &&& !waits && !session.quit && env.now - session.last_activity >= 300 * 1_000_000
                ==> after.session == Some(
                SessionView {
                    quit: true,
                    out: session.out + reply_bytes("421 Idle timeout"@),
                    ..session
                },
            )
            &&& waits || session.quit || env.now - session.last_activity < 300 * 1_000_000
                ==> after.session == v.session
        }),
        session.out.len() > 0 ==> round_next(v, Reply::Read(ReadOutcome::Closed), env).stage
            is Leave && round_next(v, Reply::Read(ReadOutcome::Failed), env).stage is Leave,
        round_query(v) == Some(Query::<Seq<char>, Seq<u8>>::ControlRead),
{
    reveal(round_next);
    reveal(on_receive);
    assert(line_end(session.line) == 0);
    assert(command_phase(v, env) == idle_phase(v, env.now));
}

// ---------------------------------------------------------------------------
// The data connection
// ---------------------------------------------------------------------------

/// The data port is opened where it was asked for: when its socket is closed, and after one that
/// lingers was.
pub proof fn data_port_is_opened(v: ServerView, state: SocketState, env: RoundEnv)
    requires
        v.stage is Passive,
    ensures
        round_query(v) == Some(Query::<Seq<char>, Seq<u8>>::DataState),
        ({
            let after = round_next(v, Reply::State(SocketState::Closed), env);
            &&& after.data_listening
            &&& after.session is None || after.stage is Farewell || after.stage is Rest
            &&& after.actions == v.actions.push(Action::DataAccept)
            &&& after.session == v.session
        }),
        state == SocketState::TimeWait || state == SocketState::LastAck || state
            == SocketState::FinWait1 || state == SocketState::FinWait2 || state
            == SocketState::CloseWait ==> {
            let after = round_next(v, Reply::State(state), env);
            &&& after.data_listening == v.data_listening
            &&& after.actions == v.actions.push(Action::DataAbort)
        },
        state == SocketState::Listen || state == SocketState::SynReceived || state
            == SocketState::Established ==> round_next(v, Reply::State(state), env).actions
            == v.actions,
{
    reveal(round_next);
    reveal(on_passive);
}

/// A transfer begins when its data connection is there, with the path and the purpose that were
/// asked for; where none has come in twenty seconds it is given up, and told.
pub proof fn transfers_wait_for_their_connection(
    v: ServerView,
    session: SessionView,
    pending: PendingView,
    state: SocketState,
    env: RoundEnv,
)
    requires
        v.stage is Waiting,
        v.session == Some(session),
        session.pending == Some(pending),
        env.now >= pending.since,
    ensures
        round_query(v) == Some(Query::<Seq<char>, Seq<u8>>::DataState),
        ({
            let after = round_next(v, Reply::State(SocketState::Established), env);
            &&& after.stage matches Stage::Open(task) && task.job.path == pending.path
                && task.job.purpose == pending.purpose && task.job.stage is Root && task.errand
                is Transfer
            &&& after.session == Some(SessionView { pending: None, ..session })
            &&& after.actions == v.actions
        }),
        state != SocketState::Established && env.now - pending.since >= 20 * 1_000_000 ==> {
            let after = round_next(v, Reply::State(state), env);
            &&& after.session == Some(
                SessionView {
                    pending: None,
                    out: session.out + reply_bytes("425 No data connection"@),
                    ..session
                },
            )
            &&& after.actions == v.actions.push(Action::DataAbort)
            &&& !after.data_listening
        },
        state != SocketState::Established && env.now - pending.since < 20 * 1_000_000 ==> {
            let after = round_next(v, Reply::State(state), env);
            after.session == v.session && after.actions == v.actions
        },
{
    reveal(round_next);
    reveal(on_waiting);
}

/// Data flow only once the announcement of the transfer has left.
pub proof fn data_wait_for_the_announcement(
    v: ServerView,
    session: SessionView,
    transfer: TransferView,
    queue: Queue,
    env: RoundEnv,
)
    requires
        v.session == Some(session),
        session.pending is None,
        session.transfer == Some(transfer),
    ensures
        !transfer.announced && session.out.len() == 0 ==> data_phase(v).stage is Announce,
        !transfer.announced && session.out.len() > 0 ==> data_phase(v).stage is Rest,
        transfer.announced && (transfer.finishing || transfer.failed is Some) ==> data_phase(
            v,
        ).stage is Drain,
        transfer.announced && !transfer.finishing && transfer.failed is None ==> data_phase(
            v,
        ).stage is Alive,
        v.stage is Announce ==> {
            let after = round_next(v, Reply::Queue(queue), env);
            &&& round_query(v) == Some(Query::<Seq<char>, Seq<u8>>::ControlQueue)
            &&& queue.empty ==> after.session == Some(
                SessionView {
                    transfer: Some(TransferView { announced: true, ..transfer }),
                    ..session
                },
            )
            &&& !queue.empty ==> after.session == v.session
        },
{
    reveal(round_next);
    reveal(on_announce);
}

// ---------------------------------------------------------------------------
// Files
// ---------------------------------------------------------------------------

/// A file is sent, and no other, until there is nothing left of it; what was sent is counted. A
/// read that fails, and a connection that is gone, fail the transfer.
pub proof fn files_are_sent(
    v: ServerView,
    session: SessionView,
    transfer: TransferView,
    file: u32,
    count: u64,
    queue: Queue,
    dead: bool,
    env: RoundEnv,
)
    requires
        v.session == Some(session),
        session.transfer == Some(transfer),
        transfer.kind == (TransferKind::<Seq<u8>>::Retrieve { file }),
        transfer.failed is None,
        !transfer.finishing,
        v.stats.sent_bytes + count <= u64::MAX,
    ensures
        v.stage is Alive ==> {
            let after = round_next(v, Reply::Queue(queue), env);
            &&& round_query(v) == Some(Query::<Seq<char>, Seq<u8>>::DataQueue)
            &&& round_query(after) == Some(Query::<Seq<char>, Seq<u8>>::SendFile { file })
            &&& after.stage == (Stage::<TaskView>::Send { dead: !queue.may_send && !queue.may_recv })
        },
        v.stage == (Stage::<TaskView>::Send { dead }) ==> {
            let moved = round_next(v, Reply::Moved(MoveOutcome::Moved(count)), env);
            let failed = round_next(v, Reply::Moved(MoveOutcome::Failed), env);
            let blocked = round_next(v, Reply::Moved(MoveOutcome::Blocked), env);
            &&& round_query(v) == Some(Query::<Seq<char>, Seq<u8>>::SendFile { file })
            &&& moved.stats.sent_bytes == v.stats.sent_bytes + count
            &&& moved.stats.received_bytes == v.stats.received_bytes
            &&& count == 0 ==> moved.session == Some(
                SessionView {
                    transfer: Some(TransferView { finishing: true, ..transfer }),
                    ..session
                },
            )
            &&& count > 0 && !dead ==> moved.session == v.session
            &&& count > 0 && dead ==> moved.session == Some(
                SessionView {
                    transfer: Some(TransferView { failed: Some(Failure::Pipe), ..transfer }),
                    ..session
                },
            )
            &&& failed.session == Some(
                SessionView {
                    transfer: Some(TransferView { failed: Some(Failure::Read), ..transfer }),
                    ..session
                },
            )
            &&& !dead ==> blocked.session == v.session
            &&& blocked.stats == v.stats && failed.stats == v.stats
            &&& moved.activity == transfer.topic
        },
{
    reveal(round_next);
    reveal(on_alive);
    reveal(on_send);
}

/// A file is received, and no other: every part that came is counted and the next is asked for,
/// until nothing more can come; only then is it finished. A write that fails, and a connection
/// that is gone before the end, fail the transfer.
pub proof fn files_are_received(
    v: ServerView,
    session: SessionView,
    transfer: TransferView,
    file: u32,
    count: u64,
    queue: Queue,
    dead: bool,
    env: RoundEnv,
)
    requires
        v.session == Some(session),
        session.transfer == Some(transfer),
        transfer.kind == (TransferKind::<Seq<u8>>::Store { file }),
        transfer.failed is None,
        !transfer.finishing,
        v.stats.received_bytes + count <= u64::MAX,
    ensures
        v.stage is Alive ==> {
            let after = round_next(v, Reply::Queue(queue), env);
            &&& round_query(after) == Some(Query::<Seq<char>, Seq<u8>>::ReceiveFile { file })
            &&& after.stage == (Stage::<TaskView>::Store {
                dead: !queue.may_send && !queue.may_recv,
            })
        },
        v.stage == (Stage::<TaskView>::Store { dead }) ==> {
            let moved = round_next(v, Reply::Moved(MoveOutcome::Moved(count)), env);
            let failed = round_next(v, Reply::Moved(MoveOutcome::Failed), env);
            let blocked = round_next(v, Reply::Moved(MoveOutcome::Blocked), env);
            &&& round_query(v) == Some(Query::<Seq<char>, Seq<u8>>::ReceiveFile { file })
            &&& moved.stats.received_bytes == v.stats.received_bytes + count
            &&& moved.stats.sent_bytes == v.stats.sent_bytes
            &&& moved.session == v.session
            &&& round_query(moved) == Some(Query::<Seq<char>, Seq<u8>>::ReceiveFile { file })
            &&& failed.session == Some(
                SessionView {
                    transfer: Some(TransferView { failed: Some(Failure::Write), ..transfer }),
                    ..session
                },
            )
            &&& failed.actions == v.actions.push(Action::DataDiscard)
            &&& blocked.session == v.session
            &&& round_query(blocked) == Some(Query::<Seq<char>, Seq<u8>>::DataQueue)
        },
        v.stage == (Stage::<TaskView>::StoreEnd { dead }) ==> {
            let after = round_next(v, Reply::Queue(queue), env);
            &&& !queue.may_recv && !queue.can_recv ==> after.session == Some(
                SessionView {
                    transfer: Some(TransferView { finishing: true, ..transfer }),
                    ..session
                },
            )
            &&& (queue.may_recv || queue.can_recv) && !dead ==> after.session == v.session
            &&& (queue.may_recv || queue.can_recv) && dead ==> after.session == Some(
                SessionView {
                    transfer: Some(TransferView { failed: Some(Failure::Pipe), ..transfer }),
                    ..session
                },
            )
            &&& after.stats == v.stats
        },
{
    reveal(round_next);
    reveal(on_alive);
    reveal(on_store);
    reveal(on_store_end);
}

// ---------------------------------------------------------------------------
// Listings
// ---------------------------------------------------------------------------

/// A listing is sent run by run: the rest of a run first, then the next run, from behind the
/// entries that were told. It ends with a run of no entries.
pub proof fn listings_are_sent(
    v: ServerView,
    session: SessionView,
    transfer: TransferView,
    dir: u32,
    kind: ListKind,
    skip: usize,
    done: bool,
    chunk: Seq<u8>,
    chunk_sent: usize,
    queue: Queue,
    env: RoundEnv,
)
    requires
        v.stage is Alive,
        v.session == Some(session),
        session.transfer == Some(transfer),
        transfer.kind == (TransferKind::List { dir: Some(dir), kind, skip, done, chunk, chunk_sent }),
        transfer.failed is None,
        !transfer.finishing,
        chunk_sent <= chunk.len(),
    ensures
        ({
            let after = round_next(v, Reply::Queue(queue), env);
            &&& chunk_sent < chunk.len() ==> round_query(after) == Some(
                Query::<Seq<char>, Seq<u8>>::SendChunk(chunk.skip(chunk_sent as int)),
            ) && after.session == v.session
            &&& chunk_sent == chunk.len() && !done ==> round_query(after) == Some(
                Query::<Seq<char>, Seq<u8>>::FillListing { dir, kind, skip },
            ) && after.session == v.session
            &&& chunk_sent == chunk.len() && done ==> after.session == Some(
                SessionView {
                    transfer: Some(TransferView { finishing: true, ..transfer }),
                    ..session
                },
            )
        }),
{
    reveal(round_next);
    reveal(on_alive);
}

/// What was sent of a run is counted and not sent again; a run that was filled takes the place
/// of the last, and its entries are passed over from then on.
pub proof fn runs_are_sent_and_filled(
    v: ServerView,
    session: SessionView,
    transfer: TransferView,
    dir: u32,
    kind: ListKind,
    skip: usize,
    done: bool,
    chunk: Seq<u8>,
    chunk_sent: usize,
    count: usize,
    filled: Filled,
    env: RoundEnv,
)
    requires
        v.session == Some(session),
        session.transfer == Some(transfer),
        transfer.kind == (TransferKind::List { dir: Some(dir), kind, skip, done, chunk, chunk_sent }),
        transfer.failed is None,
        chunk_sent + count <= chunk.len(),
        chunk.len() <= usize::MAX,
        v.stats.sent_bytes + count <= u64::MAX,
        skip + filled.produced <= usize::MAX,
    ensures
        v.stage == (Stage::<TaskView>::Chunk { dead: false }) ==> {
            let after = round_next(v, Reply::Wrote(WriteOutcome::Wrote(count)), env);
            &&& after.stats.sent_bytes == v.stats.sent_bytes + count
            &&& after.session == Some(
                SessionView {
                    transfer: Some(
                        TransferView {
                            kind: TransferKind::List {
                                dir: Some(dir),
                                kind,
                                skip,
                                done,
                                chunk,
                                chunk_sent: (chunk_sent + count) as usize,
                            },
                            ..transfer
                        },
                    ),
                    ..session
                },
            )
            &&& after.activity == transfer.topic
        },
        v.stage == (Stage::<TaskView>::Fill { dead: false }) ==> {
            let after = round_next(v, Reply::Filled(Some(filled)), env);
            let failed = round_next(v, Reply::Filled(None), env);
            &&& after.session == Some(
                SessionView {
                    transfer: Some(
                        TransferView {
                            kind: TransferKind::List {
                                dir: Some(dir),
                                kind,
                                skip: (skip + filled.produced) as usize,
                                done: filled.produced == 0,
                                chunk: filled.chunk@,
                                chunk_sent: 0,
                            },
                            ..transfer
                        },
                    ),
                    ..session
                },
            )
            &&& failed.session == Some(
                SessionView {
                    transfer: Some(TransferView { failed: Some(Failure::List), ..transfer }),
                    ..session
                },
            )
            &&& after.stats == v.stats
        },
{
    reveal(round_next);
    reveal(on_chunk);
    reveal(on_fill);
}

// ---------------------------------------------------------------------------
// Ends
// ---------------------------------------------------------------------------

/// A transfer is told of when its data have left, or cannot: that it is finished, with its
/// topic, or that it was aborted. What it held is closed, and so is the data connection.
pub proof fn transfers_end_with_a_reply(
    v: ServerView,
    session: SessionView,
    transfer: TransferView,
    queue: Queue,
    env: RoundEnv,
)
    requires
        v.stage is Drain,
        v.session == Some(session),
        session.transfer == Some(transfer),
    ensures
        round_query(v) == Some(Query::<Seq<char>, Seq<u8>>::DataQueue),
        queue.empty || (!queue.may_send && !queue.may_recv) ==> {
            let after = round_next(v, Reply::Queue(queue), env);
            &&& transfer.failed is None ==> after.session == Some(
                SessionView {
                    transfer: None,
                    out: session.out + reply_bytes("226 Finished "@ + transfer.topic),
                    ..session
                },
            )
            &&& transfer.failed is Some ==> after.session == Some(
                SessionView {
                    transfer: None,
                    out: session.out + reply_bytes("426 Transfer aborted"@) + reply_bytes(
                        "226 Data closed"@,
                    ),
                    ..session
                },
            )
            &&& after.actions == v.actions + (match transfer.kind {
                TransferKind::List { dir: Some(dir), .. } => seq![Action::CloseDir(dir)],
                TransferKind::List { dir: None, .. } => Seq::empty(),
                TransferKind::Retrieve { file } => seq![Action::CloseFile(file)],
                TransferKind::Store { file } => seq![Action::CloseFile(file)],
            }) + seq![Action::DataClose]
            &&& !after.data_listening
        },
        !queue.empty && (queue.may_send || queue.may_recv) ==> {
            let after = round_next(v, Reply::Queue(queue), env);
            after.session == v.session && after.actions == v.actions
        },
{
    reveal(round_next);
    reveal(on_drain);
    reveal_strlit("226 Finished");
    reveal_strlit(" ");
    reveal_strlit("226 Finished ");
    assert("226 Finished"@ + " "@ + transfer.topic =~= "226 Finished "@ + transfer.topic);
    let after = round_next(v, Reply::Queue(queue), env);
    if queue.empty || (!queue.may_send && !queue.may_recv) {
        assert(after.actions =~= v.actions + (match transfer.kind {
            TransferKind::List { dir: Some(dir), .. } => seq![Action::CloseDir(dir)],
            TransferKind::List { dir: None, .. } => Seq::empty(),
            TransferKind::Retrieve { file } => seq![Action::CloseFile(file)],
            TransferKind::Store { file } => seq![Action::CloseFile(file)],
        }) + seq![Action::DataClose]);
    }
}

/// A client that quits is hung up on once all replies have left, and one that is gone is left;
/// both doors are then closed, and the next client may come.
pub proof fn clients_leave(
    v: ServerView,
    session: SessionView,
    queue: Queue,
    state: SocketState,
    env: RoundEnv,
)
    requires
        v.session == Some(session),
    ensures
        v.stage == (Stage::<TaskView>::Farewell { fatal: false }) ==> {
            let after = round_next(v, Reply::Queue(queue), env);
            &&& round_query(v) == Some(Query::<Seq<char>, Seq<u8>>::ControlQueue)
            &&& session.quit && queue.empty ==> after.stage is Leave && !after.control_listening
                && after.actions.len() > v.actions.len() && after.actions[v.actions.len() as int]
                == Action::ControlClose
            &&& session.quit && !queue.empty ==> round_query(after) is None && after.session
                == v.session
            &&& !session.quit && (queue.may_send || !queue.empty) ==> round_query(after) is None
                && after.session == v.session && after.actions == v.actions
            &&& !session.quit && !queue.may_send && queue.empty ==> after.stage is Leave
        },
        v.stage is Leave ==> {
            let after = round_next(v, Reply::State(state), env);
            &&& round_query(v) == Some(Query::<Seq<char>, Seq<u8>>::ControlState)
            &&& after.session is None && !after.control_listening && !after.data_listening
            &&& round_query(after) is None
            &&& after.actions.last() == Action::DataAbort
            &&& state == SocketState::Established ==> after.actions == v.actions.push(
                Action::ControlAbort,
            ).push(Action::DataAbort)
            &&& state == SocketState::Closed ==> after.actions == v.actions.push(Action::DataAbort)
        },
{
    reveal(round_next);
    reveal(on_farewell);
    reveal(on_leave);
}

// ---------------------------------------------------------------------------
// A whole upload
// ---------------------------------------------------------------------------

/// Parts of a file, one behind the other.
pub open spec fn together(parts: Seq<Seq<u8>>) -> Seq<u8>
    decreases parts.len(),
{
    if parts.len() == 0 {
        Seq::empty()
    } else {
        together(parts.drop_last()) + parts.last()
    }
}

/// What a file holds once the card has answered the question that opens it: one that is made, or
/// opened to be written anew, holds nothing.
pub open spec fn held_when_opened(before: Seq<u8>, query: FsQuery<Seq<char>>) -> Seq<u8> {
    match query {
        FsQuery::CreateFile { .. } => Seq::empty(),
        FsQuery::OpenFoundFile { anew: true, .. } => Seq::empty(),
        _ => before,
    }
}

/// The server and the file after some parts have come over the data connection, each of which
/// goes to the end of the file that the server receives.
pub open spec fn uploaded(
    v: ServerView,
    held: Seq<u8>,
    parts: Seq<Seq<u8>>,
    file: u32,
    env: RoundEnv,
) -> (ServerView, Seq<u8>)
    decreases parts.len(),
{
    if parts.len() == 0 {
        (v, held)
    } else {
        let (w, so_far) = uploaded(v, held, parts.drop_last(), file, env);
        if round_query(w) == Some(Query::<Seq<char>, Seq<u8>>::ReceiveFile { file }) {
            (
                round_next(
                    w,
                    Reply::Moved(MoveOutcome::Moved(parts.last().len() as u64)),
                    env,
                ),
                so_far + parts.last(),
            )
        } else {
            (w, so_far)
        }
    }
}

/// A file that is uploaded is made anew, whatever it held before, and afterwards holds exactly
/// what came over the data connection, all of which is counted; the server then still receives
/// that file.
pub proof fn uploaded_files_hold_what_came(
    job: JobView,
    before: Seq<u8>,
    v: ServerView,
    session: SessionView,
    transfer: TransferView,
    parts: Seq<Seq<u8>>,
    file: u32,
    env: RoundEnv,
)
    requires
        job.purpose is Store,
        job.stage is Open,
        v.stage == (Stage::<TaskView>::Store { dead: false }),
        v.session == Some(session),
        session.transfer == Some(transfer),
        transfer.kind == (TransferKind::<Seq<u8>>::Store { file }),
        transfer.failed is None,
        !transfer.finishing,
        v.stats.received_bytes + together(parts).len() <= u64::MAX,
    ensures
        changes_the_card(job_query(job)),
        held_when_opened(before, job_query(job)).len() == 0,
        ({
            let (after, held) = uploaded(
                v,
                held_when_opened(before, job_query(job)),
                parts,
                file,
                env,
            );
            &&& held == together(parts)
            &&& after.stats.received_bytes == v.stats.received_bytes + together(parts).len()
            &&& after.session == v.session
            &&& after.stage == v.stage
        }),
    decreases parts.len(),
{
    let none = held_when_opened(before, job_query(job));
    if parts.len() > 0 {
        let front = parts.drop_last();
        uploaded_files_hold_what_came(
            job,
            before,
            v,
            session,
            transfer,
            front,
            file,
            env,
        );
        let (w, held) = uploaded(v, none, front, file, env);
        files_are_received(
            w,
            session,
            transfer,
            file,
            parts.last().len() as u64,
            Queue { empty: true, may_send: true, may_recv: true, can_recv: true },
            false,
            env,
        );
        reveal(round_next);
        reveal(on_store);
    } else {
        assert(none =~= together(parts));
    }
}

/// Files are opened to be changed only by uploads; downloads leave the card as it is.
pub proof fn only_uploads_open_anew(job: JobView, before: Seq<u8>)
    requires
        job.stage is Open,
        reachable(job),
    ensures
        changes_the_card(job_query(job)) <==> job.purpose is Store,
        job.purpose is Retrieve ==> held_when_opened(before, job_query(job)) == before,
{
}

} // verus!
