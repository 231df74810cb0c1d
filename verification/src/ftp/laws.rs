//! What holds of the FTP server in every round.

use crate::ftp::command::{
    before_login, command, command_line, dispatched, done, finished, fixed_replies, CommandLine,
    DispatchView, EnvView, TaskView, Verb,
};
use crate::ftp::job::{
    closed, held, job_loses_no_handle, job_next, job_stays_reachable, kept_open, opened, reachable,
    Action, FsReply, Handle, JobResult, JobStage, JobView, Outcome,
};
use crate::ftp::path::{is_path, normalized_is_a_path};
use crate::ftp::server::{
    chunk_left, command_phase, data_phase, elapsed, end_session, farewell, idle_phase, leaving,
    line_end, on_accept, on_alive, on_announce, on_arm, on_chunk, on_command, on_drain, on_farewell,
    on_fill, on_flush, on_greet, on_leave, on_network, on_open, on_passive, on_receive, on_send,
    on_store, on_store_end, on_waiting, round_next, round_query, said_all_keeps, settled,
    transfer_of, Filled, MoveOutcome, Query, Queue, Reply, RoundEnv, ServerView, SocketState, Stage,
    WriteOutcome, IDLE_TIMEOUT_MICROS,
};
use crate::ftp::session::{
    close_actions, is_transfer, Failure, SessionView, TransferKind, TransferView,
};
use vstd::multiset::Multiset;
use vstd::prelude::*;

verus! {

// ---------------------------------------------------------------------------
// Commands
// ---------------------------------------------------------------------------

/// Before the login only the commands that need none are processed: any other is
/// refused, and nothing else happens.
pub proof fn login_comes_first(session: SessionView, verb: Verb, arg: Seq<char>, env: EnvView)
    requires
        !session.busy(),
        !session.logged_in,
        verb != Verb::User,
        verb != Verb::Pass,
        !before_login(verb),
    ensures
        command(session, verb, arg, env) == done(session.said("530 Log in first"@)),
{
    reveal(command);
}

/// Before the login no command reaches the card or orders a transfer.
pub proof fn no_card_before_login(session: SessionView, line: Seq<u8>, env: EnvView)
    requires
        !session.busy(),
        !session.logged_in,
    ensures
        !(dispatched(session, line, env).next is Run),
        !dispatched(session, line, env).session.busy(),
        dispatched(session, line, env).session.cwd == session.cwd,
        dispatched(session, line, env).actions == Seq::<Action>::empty(),
{
    reveal(command);
    if let CommandLine::Command { verb, .. } = command_line(line) {
        if let Some(replies) = fixed_replies(verb) {
            said_all_keeps(session, replies);
        }
    }
}

/// Only the right password of the right user logs in.
pub proof fn login_needs_the_password(
    session: SessionView,
    verb: Verb,
    arg: Seq<char>,
    env: EnvView,
)
    requires
        !session.logged_in,
    ensures
        command(session, verb, arg, env).session.logged_in <==> {
            &&& !session.busy()
            &&& verb == Verb::Pass
            &&& session.user == Some(env.user)
            &&& arg == env.password
        },
{
    reveal(command);
    if let Some(replies) = fixed_replies(verb) {
        said_all_keeps(session, replies);
    }
}

/// While a transfer is ordered or under way, a command that is not one of ABOR,
/// STAT, NOOP and QUIT is refused, and nothing else happens.
pub proof fn transfer_comes_first(session: SessionView, verb: Verb, arg: Seq<char>, env: EnvView)
    requires
        session.busy(),
        verb != Verb::Abor,
        verb != Verb::Stat,
        verb != Verb::Noop,
        verb != Verb::Quit,
    ensures
        command(session, verb, arg, env) == done(session.said("450 Transfer in progress"@)),
{
    reveal(command);
}

/// A session in good order: see [`SessionView::wf`]; its directory is a path of
/// proper names.
pub open spec fn in_order(session: SessionView) -> bool {
    session.wf() && is_path(session.cwd)
}

/// A task that a command can order.
pub open spec fn is_command_task(task: TaskView) -> bool {
    &&& !(task.errand is Transfer)
    &&& !is_transfer(task.job.purpose)
    &&& task.errand is ChangeDir ==> is_path(task.job.path)
}

/// A task that a data connection waits for.
pub open spec fn is_transfer_task(task: TaskView) -> bool {
    task.errand is Transfer && is_transfer(task.job.purpose)
}

/// Commands keep a session in good order.
pub proof fn command_keeps_order(session: SessionView, line: Seq<u8>, env: EnvView)
    requires
        in_order(session),
    ensures
        in_order(dispatched(session, line, env).session),
        dispatched(session, line, env).next matches DispatchView::Run(task) ==> {
            &&& !dispatched(session, line, env).session.busy()
            &&& is_command_task(task)
            &&& task.job.stage == JobStage::Root
        },
        dispatched(session, line, env).session.line == session.line,
{
    reveal(command);
    if let CommandLine::Command { verb, arg } = command_line(line) {
        if let Some(replies) = fixed_replies(verb) {
            said_all_keeps(session, replies);
        }
        normalized_is_a_path(session.cwd, arg);
    }
}

/// Finished tasks keep a session in good order.
pub proof fn finish_keeps_order(
    session: SessionView,
    task: TaskView,
    result: JobResult,
    env: RoundEnv,
)
    requires
        in_order(session),
        !session.busy(),
        is_command_task(task) || is_transfer_task(task),
    ensures
        in_order(finished(session, task, result, env.local).session),
        is_command_task(task) ==> !finished(session, task, result, env.local).session.busy(),
{
}

// ---------------------------------------------------------------------------
// Rounds
// ---------------------------------------------------------------------------

/// A transfer that may be pumped: its preliminary reply has left, and it has
/// neither ended nor failed.
pub open spec fn is_active(transfer: TransferView) -> bool {
    transfer.announced && !transfer.finishing && transfer.failed is None
}

/// A server in good order: its session is, and a round pumps a transfer only
/// where there is one that may be pumped.
pub open spec fn sound(v: ServerView) -> bool {
    &&& v.session matches Some(session) ==> in_order(session)
    &&& match v.stage {
        Stage::Rest
        | Stage::Network
        | Stage::Arm => true,
        Stage::Accept | Stage::Greet => v.session is None,
        Stage::Command(task) => v.session matches Some(session) && !session.busy()
            && is_command_task(task) && task.job.wf() && reachable(task.job),
        Stage::Open(task) => v.session matches Some(session) && !session.busy()
            && is_transfer_task(task) && task.job.wf() && reachable(task.job),
        Stage::Waiting => v.session matches Some(session) && session.pending is Some,
        Stage::Announce => transfer_of(v) matches Some(transfer) && !transfer.announced,
        Stage::Drain => transfer_of(v) matches Some(transfer) && !is_active(transfer),
        Stage::Alive => transfer_of(v) matches Some(transfer) && is_active(transfer),
        Stage::Send { .. } => transfer_of(v) matches Some(transfer) && is_active(transfer)
            && transfer.kind is Retrieve,
        Stage::Store { .. } | Stage::StoreEnd { .. } => transfer_of(v) matches Some(transfer)
            && is_active(transfer) && transfer.kind is Store,
        Stage::Chunk { .. } => transfer_of(v) matches Some(transfer) && is_active(transfer)
            && transfer.kind is List,
        Stage::Fill { .. } => transfer_of(v) matches Some(transfer) && is_active(transfer) && (
        transfer.kind matches TransferKind::List { dir, .. } && dir is Some),
        Stage::Leave => v.session matches Some(session) && !session.busy(),
        _ => v.session is Some,
    }
}

proof fn farewell_is_sound(v: ServerView, fatal: bool)
    requires
        v.session matches Some(session) && in_order(session),
    ensures
        sound(farewell(v, fatal)),
{
}

proof fn command_phase_is_sound(v: ServerView, env: RoundEnv)
    requires
        v.session matches Some(session) && in_order(session),
    ensures
        sound(command_phase(v, env)),
    decreases v.session->0.line.len(),
{
    let session = v.session->0;
    let end = line_end(session.line);
    if end < 0 || end >= session.line.len() {
        assert(sound(idle_phase(v, env.now)));
    } else {
        let taken = SessionView { line: session.line.skip(end + 1), ..session };
        let line = crate::ftp::server::bare_line(session.line.take(end));
        let step = dispatched(taken, line, v.env(env));
        command_keeps_order(taken, line, v.env(env));
        let next = v.with(step.session).act_all(step.actions);
        match step.next {
            DispatchView::Run(task) => {},
            DispatchView::AbortData => {
                command_phase_is_sound(next.abort_data(), env);
            },
            DispatchView::Done => {
                command_phase_is_sound(next, env);
            },
        }
    }
}

proof fn command_task_stays_sound(v: ServerView, task: TaskView, reply: FsReply, env: RoundEnv)
    requires
        sound(v),
        v.stage == Stage::<TaskView>::Command(task),
    ensures
        sound(on_command(v, task, reply, env)),
{
    reveal(on_command);
    job_stays_reachable(task.job, reply);
    let step = job_next(task.job, reply);
    if let Outcome::Finish(result) = step.outcome {
        let session = v.session->0;
        finish_keeps_order(session, task, result, env);
        let end = finished(session, task, result, env.local);
        let answered = v.at(Stage::Rest).act_all(step.actions).with(end.session);
        command_phase_is_sound(answered, env);
        command_phase_is_sound(answered.abort_data(), env);
    }
}

proof fn transfer_task_stays_sound(v: ServerView, task: TaskView, reply: FsReply, env: RoundEnv)
    requires
        sound(v),
        v.stage == Stage::<TaskView>::Open(task),
    ensures
        sound(on_open(v, task, reply, env.local)),
{
    reveal(on_open);
    job_stays_reachable(task.job, reply);
    let step = job_next(task.job, reply);
    if let Outcome::Finish(result) = step.outcome {
        let session = v.session->0;
        finish_keeps_order(session, task, result, env);
        let end = finished(session, task, result, env.local);
        let answered = v.at(Stage::Rest).act_all(step.actions).with(end.session);
        farewell_is_sound(answered, false);
        farewell_is_sound(answered.abort_data(), false);
    }
}

#[verifier::spinoff_prover]
proof fn queue_answers_stay_sound(v: ServerView, queue: Queue)
    requires
        sound(v),
    ensures
        v.stage is Announce ==> sound(on_announce(v, queue)),
        v.stage is Drain ==> sound(on_drain(v, queue)),
        v.stage is Alive ==> sound(on_alive(v, queue)),
{
    reveal(on_announce);
    reveal(on_drain);
    reveal(on_alive);
}

#[verifier::spinoff_prover]
proof fn ends_stay_sound(v: ServerView, queue: Queue)
    requires
        sound(v),
    ensures
        v.stage matches Stage::StoreEnd { dead } ==> sound(on_store_end(v, queue, dead)),
        v.stage matches Stage::Farewell { fatal } ==> sound(on_farewell(v, queue, fatal)),
{
    reveal(on_store_end);
    reveal(on_farewell);
}

#[verifier::spinoff_prover]
proof fn moves_stay_sound(v: ServerView, outcome: MoveOutcome)
    requires
        sound(v),
    ensures
        v.stage matches Stage::Send { dead } ==> sound(on_send(v, outcome, dead)),
        v.stage matches Stage::Store { dead } ==> sound(on_store(v, outcome, dead)),
{
    reveal(on_send);
    reveal(on_store);
}

#[verifier::spinoff_prover]
proof fn runs_stay_sound(v: ServerView, outcome: WriteOutcome, filled: Option<Filled>)
    requires
        sound(v),
    ensures
        v.stage matches Stage::Chunk { dead } ==> sound(on_chunk(v, outcome, dead)),
        v.stage matches Stage::Fill { dead } ==> sound(on_fill(v, filled, dead)),
{
    reveal(on_chunk);
    reveal(on_fill);
}

/// A server in good order stays in good order, whatever the sockets and the card
/// answer.
#[verifier::spinoff_prover]
pub proof fn round_keeps_sound(v: ServerView, reply: Reply, env: RoundEnv)
    requires
        sound(v),
    ensures
        sound(round_next(v, reply, env)),
{
    reveal(round_next);
    match (v.stage, reply) {
        (Stage::Command(task), Reply::Card(reply)) => {
            command_task_stays_sound(v, task, reply, env);
        },
        (Stage::Open(task), Reply::Card(reply)) => {
            transfer_task_stays_sound(v, task, reply, env);
        },
        (Stage::Receive, Reply::Read(outcome)) => {
            reveal(on_receive);
            let session = v.session->0;
            command_phase_is_sound(v, env);
            if let crate::ftp::server::ReadOutcome::Bytes(bytes) = outcome {
                command_phase_is_sound(
                    v.with(crate::ftp::server::absorbed(session, bytes@, env.now)),
                    env,
                );
            }
        },
        (Stage::Network, Reply::Network { .. })
        | (Stage::Arm, Reply::State(_))
        | (Stage::Accept, Reply::State(_))
        | (Stage::Greet, Reply::Peer(_))
        | (Stage::Flush, Reply::Wrote(_))
        | (Stage::Passive, Reply::State(_))
        | (Stage::Waiting, Reply::State(_))
        | (Stage::Leave, Reply::State(_)) => {
            reveal(on_network);
            reveal(on_arm);
            reveal(on_accept);
            reveal(on_greet);
            reveal(on_flush);
            reveal(on_passive);
            reveal(on_waiting);
            reveal(on_leave);
        },
        (_, Reply::Queue(queue)) => {
            queue_answers_stay_sound(v, queue);
            ends_stay_sound(v, queue);
        },
        (_, Reply::Moved(outcome)) => {
            moves_stay_sound(v, outcome);
        },
        (_, Reply::Wrote(outcome)) => {
            runs_stay_sound(v, outcome, None);
        },
        (_, Reply::Filled(filled)) => {
            runs_stay_sound(v, WriteOutcome::Blocked, filled);
        },
        _ => {},
    }
}

/// A server that is stopped, or begins a round, is in good order.
pub proof fn server_starts_sound(v: ServerView)
    requires
        sound(v),
    ensures
        sound(crate::ftp::server::stopped()),
        sound(v.at(Stage::Network)),
{
}

/// Whether a question moves bytes of a transfer.
pub open spec fn moves_data(query: Option<Query<Seq<char>, Seq<u8>>>) -> bool {
    match query {
        Some(Query::SendFile { .. })
        | Some(Query::ReceiveFile { .. })
        | Some(Query::SendChunk(_))
        | Some(Query::FillListing { .. }) => true,
        _ => false,
    }
}

/// No data moves before the preliminary reply has left the control connection.
pub proof fn data_waits_for_the_announcement(v: ServerView)
    requires
        sound(v),
        moves_data(round_query(v)),
    ensures
        transfer_of(v) matches Some(transfer) && transfer.announced,
{
}

/// A transfer counts as announced only once every reply has been handed over and
/// has left: the answer said so.
pub proof fn announcement_has_left(v: ServerView, reply: Reply, env: RoundEnv)
    requires
        sound(v),
        transfer_of(v) matches Some(transfer) && !transfer.announced,
        transfer_of(round_next(v, reply, env)) matches Some(transfer) && transfer.announced,
    ensures
        v.stage is Announce,
        reply matches Reply::Queue(queue) && queue.empty,
{
    reveal(round_next);
    reveal(on_announce);
    reveal(on_network);
    reveal(on_arm);
    reveal(on_flush);
    reveal(on_passive);
    reveal(on_waiting);
    reveal(on_leave);
    reveal(on_farewell);
    reveal(on_drain);
    reveal(on_receive);
    if v.stage is Receive {
        let session = v.session->0;
        command_phase_announces_nothing(v, env);
        if let Reply::Read(crate::ftp::server::ReadOutcome::Bytes(bytes)) = reply {
            command_phase_announces_nothing(
                v.with(crate::ftp::server::absorbed(session, bytes@, env.now)),
                env,
            );
        }
    }
}

proof fn command_phase_announces_nothing(v: ServerView, env: RoundEnv)
    requires
        v.session matches Some(session) && in_order(session),
        transfer_of(v) matches Some(transfer) ==> !transfer.announced,
    ensures
        transfer_of(command_phase(v, env)) matches Some(transfer) ==> !transfer.announced,
    decreases v.session->0.line.len(),
{
    let session = v.session->0;
    let end = line_end(session.line);
    if !(end < 0 || end >= session.line.len()) {
        let taken = SessionView { line: session.line.skip(end + 1), ..session };
        let line = crate::ftp::server::bare_line(session.line.take(end));
        let step = dispatched(taken, line, v.env(env));
        command_keeps_order(taken, line, v.env(env));
        command_starts_no_transfer(taken, line, v.env(env));
        let next = v.with(step.session).act_all(step.actions);
        match step.next {
            DispatchView::Run(task) => {},
            DispatchView::AbortData => {
                command_phase_announces_nothing(next.abort_data(), env);
            },
            DispatchView::Done => {
                command_phase_announces_nothing(next, env);
            },
        }
    }
}

/// Commands order transfers but start none: the one under way stays as it is, or
/// is dropped.
pub proof fn command_starts_no_transfer(session: SessionView, line: Seq<u8>, env: EnvView)
    ensures
        dispatched(session, line, env).session.transfer == session.transfer || dispatched(
            session,
            line,
            env,
        ).session.transfer is None,
{
    reveal(command);
    if let CommandLine::Command { verb, .. } = command_line(line) {
        if let Some(replies) = fixed_replies(verb) {
            said_all_keeps(session, replies);
        }
    }
}

// ---------------------------------------------------------------------------
// Handles
// ---------------------------------------------------------------------------

/// What a transfer keeps open.
pub open spec fn transfer_handles(transfer: Option<TransferView>) -> Multiset<Handle> {
    match transfer {
        Some(transfer) => match transfer.kind {
            TransferKind::List { dir: Some(dir), .. } => Multiset::singleton(Handle::Dir(dir)),
            TransferKind::List { dir: None, .. } => Multiset::empty(),
            TransferKind::Retrieve { file } | TransferKind::Store { file } => Multiset::singleton(
                Handle::File(file),
            ),
        },
        None => Multiset::empty(),
    }
}

/// What the job of a round keeps open.
pub open spec fn stage_handles(stage: Stage<TaskView>) -> Multiset<Handle> {
    match stage {
        Stage::Command(task) | Stage::Open(task) => held(task.job.stage),
        _ => Multiset::empty(),
    }
}

/// What the server keeps open.
pub open spec fn server_handles(v: ServerView) -> Multiset<Handle> {
    transfer_handles(transfer_of(v)).add(stage_handles(v.stage))
}

/// What an answer to the round's question opened.
pub open spec fn round_opened(v: ServerView, reply: Reply) -> Multiset<Handle> {
    match (v.stage, reply) {
        (Stage::Command(task), Reply::Card(reply)) | (Stage::Open(task), Reply::Card(reply)) => {
            opened(task.job.stage, reply)
        },
        _ => Multiset::empty(),
    }
}

/// The session's handles, and those that the actions so far close.
spec fn accounted(v: ServerView) -> Multiset<Handle> {
    transfer_handles(transfer_of(v)).add(closed(v.actions))
}

proof fn closed_joins(front: Seq<Action>, back: Seq<Action>)
    ensures
        closed(front + back) == closed(front).add(closed(back)),
    decreases back.len(),
{
    if back.len() == 0 {
        assert(front + back =~= front);
        assert(closed(front).add(closed(back)) =~= closed(front));
    } else {
        closed_joins(front, back.drop_last());
        assert((front + back).drop_last() =~= front + back.drop_last());
        assert(closed(front + back) =~= closed(front).add(closed(back)));
    }
}

proof fn act_closed(actions: Seq<Action>, action: Action)
    requires
        !(action is CloseDir),
        !(action is CloseFile),
    ensures
        closed(actions.push(action)) == closed(actions),
{
    assert(actions.push(action).drop_last() =~= actions);
}

/// What is kept and what is closed make up what was held and what was opened.
proof fn balance(
    before: Multiset<Handle>,
    was_held: Multiset<Handle>,
    was_opened: Multiset<Handle>,
    is_kept: Multiset<Handle>,
    is_closed: Multiset<Handle>,
)
    requires
        was_held.add(was_opened) == is_kept.add(is_closed),
    ensures
        before.add(is_closed).add(is_kept) == before.add(was_held).add(was_opened),
        is_kept.add(before.add(is_closed)) == before.add(was_held).add(was_opened),
{
    assert(before.add(is_closed).add(is_kept) =~= before.add(is_kept.add(is_closed)));
    assert(before.add(was_held).add(was_opened) =~= before.add(was_held.add(was_opened)));
    assert(is_kept.add(before.add(is_closed)) =~= before.add(is_closed).add(is_kept));
}

proof fn act_accounted(v: ServerView, action: Action)
    requires
        !(action is CloseDir),
        !(action is CloseFile),
    ensures
        accounted(v.act(action)) == accounted(v),
{
    assert(v.act(action).actions.drop_last() =~= v.actions);
}

proof fn close_actions_close(transfer: Option<TransferView>)
    ensures
        closed(close_actions(transfer)) == transfer_handles(transfer),
{
    reveal_with_fuel(closed, 2);
    let actions = close_actions(transfer);
    if actions.len() == 1 {
        assert(actions.drop_last() =~= Seq::empty());
    }
    assert(closed(actions) =~= transfer_handles(transfer));
}

/// A transfer that is dropped and closed stays accounted for.
proof fn dropping_accounted(v: ServerView, session: SessionView)
    requires
        v.session matches Some(before) && session.transfer is None,
    ensures
        accounted(v.with(session).act_all(close_actions(v.session->0.transfer))) == accounted(v),
{
    let transfer = v.session->0.transfer;
    closed_joins(v.actions, close_actions(transfer));
    close_actions_close(transfer);
    assert(accounted(v.with(session).act_all(close_actions(transfer))) =~= accounted(v));
}

proof fn leaving_accounted(v: ServerView, dead: bool)
    ensures
        accounted(leaving(v, dead)) == accounted(v),
        stage_handles(leaving(v, dead).stage) == Multiset::<Handle>::empty(),
{
    if dead {
        if let Some(session) = v.session {
            dropping_accounted(v, session.without_transfer());
        }
    }
}

proof fn farewell_accounted(v: ServerView, fatal: bool)
    ensures
        accounted(farewell(v, fatal)) == accounted(v),
        stage_handles(farewell(v, fatal).stage) == Multiset::<Handle>::empty(),
{
    leaving_accounted(v, fatal);
}

proof fn data_phase_accounted(v: ServerView)
    ensures
        accounted(data_phase(v)) == accounted(v),
        stage_handles(data_phase(v).stage) == Multiset::<Handle>::empty(),
{
    farewell_accounted(v, false);
    act_accounted(v, Action::DataAbort);
    let quiet = ServerView { activity: Seq::empty(), ..v };
    farewell_accounted(quiet, false);
    let aborted = ServerView { activity: Seq::empty(), ..v.abort_data() };
    farewell_accounted(aborted, false);
}

proof fn idle_phase_accounted(v: ServerView, now: u64)
    ensures
        accounted(idle_phase(v, now)) == accounted(v),
        stage_handles(idle_phase(v, now).stage) == Multiset::<Handle>::empty(),
{
    data_phase_accounted(v);
    if let Some(session) = v.session {
        data_phase_accounted(
            v.with(SessionView { quit: true, ..session.said("421 Idle timeout"@) }),
        );
    }
}

/// A command drops a transfer only together with its handle.
proof fn command_accounted(session: SessionView, line: Seq<u8>, env: EnvView)
    ensures
        ({
            let step = dispatched(session, line, env);
            ||| step.session.transfer == session.transfer && step.actions == Seq::<Action>::empty()
            ||| step.session.transfer is None && step.actions == close_actions(session.transfer)
        }),
{
    reveal(command);
    if let CommandLine::Command { verb, .. } = command_line(line) {
        if let Some(replies) = fixed_replies(verb) {
            said_all_keeps(session, replies);
        }
    }
}

proof fn command_phase_accounted(v: ServerView, env: RoundEnv)
    requires
        v.session matches Some(session) && in_order(session),
    ensures
        accounted(command_phase(v, env)) == accounted(v),
        stage_handles(command_phase(v, env).stage) == Multiset::<Handle>::empty(),
    decreases v.session->0.line.len(),
{
    let session = v.session->0;
    let end = line_end(session.line);
    if end < 0 || end >= session.line.len() {
        idle_phase_accounted(v, env.now);
    } else {
        let taken = SessionView { line: session.line.skip(end + 1), ..session };
        let line = crate::ftp::server::bare_line(session.line.take(end));
        let step = dispatched(taken, line, v.env(env));
        command_keeps_order(taken, line, v.env(env));
        command_accounted(taken, line, v.env(env));
        let next = v.with(step.session).act_all(step.actions);
        assert(accounted(next) == accounted(v)) by {
            if step.session.transfer == session.transfer && step.actions
                == Seq::<Action>::empty() {
                assert(next.actions =~= v.actions);
            } else {
                dropping_accounted(v, step.session);
            }
        }
        match step.next {
            DispatchView::Run(task) => {},
            DispatchView::AbortData => {
                act_accounted(next, Action::DataAbort);
                command_phase_accounted(next.abort_data(), env);
            },
            DispatchView::Done => {
                command_phase_accounted(next, env);
            },
        }
    }
}

proof fn settled_accounted(v: ServerView, transfer: TransferView, dead: bool)
    requires
        v.session is Some,
        transfer_handles(Some(transfer)) == transfer_handles(transfer_of(v)),
    ensures
        accounted(settled(v, transfer, dead)) == accounted(v),
        stage_handles(settled(v, transfer, dead).stage) == Multiset::<Handle>::empty(),
{
    let checked = if transfer.failed is None && dead && !transfer.finishing {
        TransferView { failed: Some(Failure::Pipe), ..transfer }
    } else {
        transfer
    };
    let after = crate::ftp::server::with_transfer(
        ServerView { activity: transfer.topic, ..v },
        checked,
    );
    farewell_accounted(after, false);
}

proof fn network_accounted(v: ServerView, reply: Reply, env: RoundEnv)
    requires
        sound(v),
        v.stage is Network || v.stage is Arm || v.stage is Accept || v.stage is Greet
            || v.stage is Flush || v.stage is Passive || v.stage is Leave,
    ensures
        accounted(round_next(v, reply, env)) == accounted(v),
        stage_handles(round_next(v, reply, env).stage) == Multiset::<Handle>::empty(),
{
    reveal(round_next);
    reveal(on_network);
    reveal(on_arm);
    reveal(on_accept);
    reveal(on_greet);
    reveal(on_flush);
    reveal(on_passive);
    reveal(on_leave);
    act_accounted(v, Action::ControlAbort);
    act_accounted(v, Action::DataAbort);
    act_accounted(v, Action::ControlAccept);
    act_accounted(v, Action::DataAccept);
    act_accounted(v.act(Action::ControlAbort), Action::DataAbort);
    farewell_accounted(v, true);
    match (v.stage, reply) {
        (Stage::Network, Reply::Network { ip, online }) => {
            let known = ServerView { ip, ..v };
            if !online {
                if let Some(session) = v.session {
                    let shut = ServerView { session: None, ..known };
                    let ended = end_session(known);
                    closed_joins(v.actions, close_actions(session.transfer));
                    close_actions_close(session.transfer);
                    let closing = known.act_all(close_actions(session.transfer));
                    act_closed(closing.actions, Action::ControlClose);
                    act_closed(closing.actions.push(Action::ControlClose), Action::DataAbort);
                    assert(accounted(ended) =~= accounted(v));
                } else {
                    act_accounted(known, Action::ControlAbort);
                    act_accounted(known, Action::DataAbort);
                    act_accounted(known.act(Action::ControlAbort), Action::DataAbort);
                }
            }
        },
        (Stage::Passive, Reply::State(_)) => {
            let quiet = ServerView { activity: Seq::empty(), ..v };
            farewell_accounted(quiet, false);
            farewell_accounted(
                ServerView { activity: Seq::empty(), ..v.act(Action::DataAbort) },
                false,
            );
            farewell_accounted(
                ServerView {
                    activity: Seq::empty(),
                    data_listening: true,
                    ..v.act(Action::DataAccept)
                },
                false,
            );
        },
        _ => {},
    }
}

proof fn receive_accounted(v: ServerView, reply: Reply, env: RoundEnv)
    requires
        sound(v),
        v.stage is Receive,
    ensures
        accounted(round_next(v, reply, env)) == accounted(v),
        stage_handles(round_next(v, reply, env).stage) == Multiset::<Handle>::empty(),
{
    reveal(round_next);
    reveal(on_receive);
    let session = v.session->0;
    farewell_accounted(v, true);
    command_phase_accounted(v, env);
    if let Reply::Read(crate::ftp::server::ReadOutcome::Bytes(bytes)) = reply {
        command_phase_accounted(
            v.with(crate::ftp::server::absorbed(session, bytes@, env.now)),
            env,
        );
    }
}

proof fn waiting_accounted(v: ServerView, reply: Reply, env: RoundEnv)
    requires
        sound(v),
        v.stage is Waiting || v.stage is Announce || v.stage is Drain || v.stage is Farewell,
    ensures
        accounted(round_next(v, reply, env)) == accounted(v),
        stage_handles(round_next(v, reply, env).stage) == Multiset::<Handle>::empty(),
{
    reveal(round_next);
    reveal(on_waiting);
    reveal(on_announce);
    reveal(on_drain);
    reveal(on_farewell);
    farewell_accounted(v, false);
    let session = v.session->0;
    match (v.stage, reply) {
        (Stage::Waiting, Reply::State(_)) => {
            let told = v.with(
                SessionView { pending: None, ..session }.said("425 No data connection"@),
            );
            act_accounted(told, Action::DataAbort);
            farewell_accounted(told.abort_data(), false);
        },
        (Stage::Announce, Reply::Queue(_)) => {
            let transfer = session.transfer->0;
            farewell_accounted(
                crate::ftp::server::with_transfer(
                    v,
                    TransferView { announced: true, ..transfer },
                ),
                false,
            );
        },
        (Stage::Drain, Reply::Queue(_)) => {
            let transfer = session.transfer->0;
            let told = if transfer.failed is Some {
                session.said("426 Transfer aborted"@).said("226 Data closed"@)
            } else {
                session.said("226 Finished"@ + " "@ + transfer.topic)
            };
            let gone = SessionView { transfer: None, ..told };
            dropping_accounted(v, gone);
            let shut = v.with(gone).act_all(close_actions(session.transfer));
            act_accounted(shut, Action::DataClose);
            farewell_accounted(
                ServerView { data_listening: false, ..shut.act(Action::DataClose) },
                false,
            );
        },
        (Stage::Farewell { fatal }, Reply::Queue(_)) => {
            act_accounted(v, Action::ControlClose);
            leaving_accounted(
                ServerView { control_listening: false, ..v.act(Action::ControlClose) },
                true,
            );
            leaving_accounted(v, fatal);
            leaving_accounted(v, true);
        },
        _ => {},
    }
}

proof fn file_pump_accounted(v: ServerView, reply: Reply, env: RoundEnv)
    requires
        sound(v),
        v.stage is Send || v.stage is Store || v.stage is StoreEnd,
    ensures
        accounted(round_next(v, reply, env)) == accounted(v),
        stage_handles(round_next(v, reply, env).stage) == Multiset::<Handle>::empty(),
{
    reveal(round_next);
    let transfer = v.session->0.transfer->0;
    let finished = TransferView { finishing: true, ..transfer };
    match (v.stage, reply) {
        (Stage::Send { dead }, Reply::Moved(outcome)) => {
            reveal(on_send);
            settled_accounted(v, finished, dead);
            settled_accounted(v, transfer, dead);
            if let crate::ftp::server::MoveOutcome::Moved(count) = outcome {
                settled_accounted(crate::ftp::server::sent(v, count), transfer, dead);
            }
            settled_accounted(v, TransferView { failed: Some(Failure::Read), ..transfer }, dead);
            settled_accounted(v, TransferView { failed: Some(Failure::Pipe), ..transfer }, dead);
        },
        (Stage::Store { dead }, Reply::Moved(_)) => {
            reveal(on_store);
            let dropped = v.act(Action::DataDiscard);
            act_accounted(v, Action::DataDiscard);
            settled_accounted(
                dropped,
                TransferView { failed: Some(Failure::Write), ..transfer },
                dead,
            );
        },
        (Stage::StoreEnd { dead }, Reply::Queue(_)) => {
            reveal(on_store_end);
            settled_accounted(v, finished, dead);
            settled_accounted(v, transfer, dead);
        },
        _ => {},
    }
}

proof fn alive_accounted(v: ServerView, queue: Queue)
    requires
        sound(v),
        v.stage is Alive,
    ensures
        accounted(on_alive(v, queue)) == accounted(v),
        stage_handles(on_alive(v, queue).stage) == Multiset::<Handle>::empty(),
{
    reveal(on_alive);
    let transfer = v.session->0.transfer->0;
    let dead = !queue.may_send && !queue.may_recv;
    settled_accounted(v, TransferView { finishing: true, ..transfer }, dead);
}

proof fn chunk_accounted(v: ServerView, outcome: WriteOutcome, dead: bool)
    requires
        sound(v),
        v.stage == (Stage::<TaskView>::Chunk { dead }),
    ensures
        accounted(on_chunk(v, outcome, dead)) == accounted(v),
        stage_handles(on_chunk(v, outcome, dead).stage) == Multiset::<Handle>::empty(),
{
    reveal(on_chunk);
    let transfer = v.session->0.transfer->0;
    settled_accounted(v, transfer, dead);
    settled_accounted(v, TransferView { failed: Some(Failure::Pipe), ..transfer }, dead);
    if let (
        TransferKind::List { dir, kind, skip, done, chunk, chunk_sent },
        WriteOutcome::Wrote(count),
    ) = (transfer.kind, outcome) {
        let left = crate::ftp::server::chunk_left(transfer).len();
        let moved = if count <= left {
            count as int
        } else {
            left as int
        };
        let more = TransferView {
            kind: TransferKind::List {
                dir,
                kind,
                skip,
                done,
                chunk,
                chunk_sent: (chunk_sent + moved) as usize,
            },
            ..transfer
        };
        settled_accounted(crate::ftp::server::sent(v, moved as u64), more, dead);
    }
}

proof fn fill_accounted(v: ServerView, filled: Option<crate::ftp::server::Filled>, dead: bool)
    requires
        sound(v),
        v.stage == (Stage::<TaskView>::Fill { dead }),
    ensures
        accounted(on_fill(v, filled, dead)) == accounted(v),
        stage_handles(on_fill(v, filled, dead).stage) == Multiset::<Handle>::empty(),
{
    reveal(on_fill);
    let transfer = v.session->0.transfer->0;
    settled_accounted(v, TransferView { failed: Some(Failure::List), ..transfer }, dead);
    settled_accounted(v, transfer, dead);
    if let (TransferKind::List { dir, kind, skip, .. }, Some(run)) = (transfer.kind, filled) {
        let more = TransferView {
            kind: TransferKind::List {
                dir,
                kind,
                skip: skip.wrapping_add(run.produced),
                done: run.produced == 0,
                chunk: run.chunk@,
                chunk_sent: 0,
            },
            ..transfer
        };
        settled_accounted(v, more, dead);
    }
}

proof fn list_pump_accounted(v: ServerView, reply: Reply, env: RoundEnv)
    requires
        sound(v),
        v.stage is Alive || v.stage is Chunk || v.stage is Fill,
    ensures
        accounted(round_next(v, reply, env)) == accounted(v),
        stage_handles(round_next(v, reply, env).stage) == Multiset::<Handle>::empty(),
{
    reveal(round_next);
    match (v.stage, reply) {
        (Stage::Alive, Reply::Queue(queue)) => {
            alive_accounted(v, queue);
        },
        (Stage::Chunk { dead }, Reply::Wrote(outcome)) => {
            chunk_accounted(v, outcome, dead);
        },
        (Stage::Fill { dead }, Reply::Filled(filled)) => {
            fill_accounted(v, filled, dead);
        },
        _ => {},
    }
}

proof fn command_task_accounted(v: ServerView, task: TaskView, reply: FsReply, env: RoundEnv)
    requires
        sound(v),
        v.stage == Stage::<TaskView>::Command(task),
    ensures
        ({
            let next = on_command(v, task, reply, env);
            accounted(next).add(stage_handles(next.stage)) == accounted(v).add(
                held(task.job.stage),
            ).add(opened(task.job.stage, reply))
        }),
{
    reveal(on_command);
    let step = job_next(task.job, reply);
    let rested = v.at(Stage::Rest).act_all(step.actions);
    let was_held = held(task.job.stage);
    let was_opened = opened(task.job.stage, reply);
    job_loses_no_handle(task.job, reply);
    closed_joins(v.actions, step.actions);
    balance(
        closed(v.actions),
        was_held,
        was_opened,
        kept_open(step.outcome),
        closed(step.actions),
    );
    let next = on_command(v, task, reply, env);
    let session = v.session->0;
    assert(session.transfer is None);
    assert(accounted(v) =~= closed(v.actions));
    assert(accounted(rested) =~= closed(v.actions).add(closed(step.actions)));
    if let Outcome::Finish(result) = step.outcome {
        command_job_keeps_nothing(task.job, reply);
        finish_keeps_order(session, task, result, env);
        let end = finished(session, task, result, env.local);
        let answered = rested.with(end.session);
        assert(accounted(answered) == accounted(rested));
        command_phase_accounted(answered, env);
        act_accounted(answered, Action::DataAbort);
        command_phase_accounted(answered.abort_data(), env);
        assert(accounted(next) == accounted(rested));
    } else {
        assert(accounted(next) == accounted(rested));
    }
}

/// A job that serves no transfer ends with nothing open.
proof fn command_job_keeps_nothing(job: JobView, reply: FsReply)
    requires
        reachable(job),
        !is_transfer(job.purpose),
    ensures
        job_next(job, reply).outcome is Finish ==> kept_open(job_next(job, reply).outcome)
            == Multiset::<Handle>::empty(),
{
}

/// What a job for a transfer ends with, the transfer keeps.
proof fn transfer_keeps_the_handle(
    session: SessionView,
    task: TaskView,
    reply: FsReply,
    env: RoundEnv,
)
    requires
        reachable(task.job),
        is_transfer_task(task),
    ensures
        job_next(task.job, reply).outcome matches Outcome::Finish(result) ==> transfer_handles(
            finished(session, task, result, env.local).session.transfer,
        ) == kept_open(job_next(task.job, reply).outcome),
{
}

proof fn transfer_task_accounted(v: ServerView, task: TaskView, reply: FsReply, env: RoundEnv)
    requires
        sound(v),
        v.stage == Stage::<TaskView>::Open(task),
    ensures
        ({
            let next = on_open(v, task, reply, env.local);
            accounted(next).add(stage_handles(next.stage)) == accounted(v).add(
                held(task.job.stage),
            ).add(opened(task.job.stage, reply))
        }),
{
    reveal(on_open);
    let step = job_next(task.job, reply);
    let rested = v.at(Stage::Rest).act_all(step.actions);
    let was_held = held(task.job.stage);
    let was_opened = opened(task.job.stage, reply);
    job_loses_no_handle(task.job, reply);
    closed_joins(v.actions, step.actions);
    balance(
        closed(v.actions),
        was_held,
        was_opened,
        kept_open(step.outcome),
        closed(step.actions),
    );
    let next = on_open(v, task, reply, env.local);
    let session = v.session->0;
    assert(session.transfer is None);
    assert(accounted(v) =~= closed(v.actions));
    assert(accounted(rested) =~= closed(v.actions).add(closed(step.actions)));
    if let Outcome::Finish(result) = step.outcome {
        let end = finished(session, task, result, env.local);
        transfer_keeps_the_handle(session, task, reply, env);
        let answered = rested.with(end.session);
        assert(accounted(answered) == kept_open(step.outcome).add(
            closed(v.actions).add(closed(step.actions)),
        ));
        farewell_accounted(answered, false);
        act_accounted(answered, Action::DataAbort);
        farewell_accounted(answered.abort_data(), false);
        assert(accounted(next) == accounted(answered));
        assert(accounted(next).add(Multiset::empty()) =~= accounted(next));
    } else {
        assert(accounted(next) == accounted(rested));
    }
}

/// No open file or directory gets lost: what the server holds before an answer
/// and what the answer opened is either held afterwards or closed by the actions
/// that follow.
pub proof fn server_loses_no_handle(v: ServerView, reply: Reply, env: RoundEnv)
    requires
        sound(v),
        v.actions == Seq::<Action>::empty(),
    ensures
        server_handles(v).add(round_opened(v, reply)) == server_handles(
            round_next(v, reply, env),
        ).add(closed(round_next(v, reply, env).actions)),
{
    let next = round_next(v, reply, env);
    assert(closed(v.actions) =~= Multiset::empty());
    match v.stage {
        Stage::Command(task) => {
            reveal(round_next);
            if let Reply::Card(answer) = reply {
                command_task_accounted(v, task, answer, env);
            }
        },
        Stage::Open(task) => {
            reveal(round_next);
            if let Reply::Card(answer) = reply {
                transfer_task_accounted(v, task, answer, env);
            }
        },
        Stage::Rest => {
            reveal(round_next);
        },
        Stage::Receive => {
            receive_accounted(v, reply, env);
        },
        Stage::Waiting | Stage::Announce | Stage::Drain | Stage::Farewell { .. } => {
            waiting_accounted(v, reply, env);
        },
        Stage::Network
        | Stage::Arm
        | Stage::Accept
        | Stage::Greet
        | Stage::Flush
        | Stage::Passive
        | Stage::Leave => {
            network_accounted(v, reply, env);
        },
        Stage::Send { .. } | Stage::Store { .. } | Stage::StoreEnd { .. } => {
            file_pump_accounted(v, reply, env);
        },
        _ => {
            list_pump_accounted(v, reply, env);
        },
    }
    let all = transfer_handles(transfer_of(v)).add(stage_handles(v.stage)).add(
        round_opened(v, reply),
    );
    assert(accounted(v).add(stage_handles(v.stage)).add(round_opened(v, reply)) =~= all);
    assert(accounted(next).add(stage_handles(next.stage)) =~= server_handles(next).add(
        closed(next.actions),
    ));
    assert(accounted(next).add(stage_handles(next.stage)) =~= accounted(v).add(
        stage_handles(v.stage),
    ).add(round_opened(v, reply)));
}

// ---------------------------------------------------------------------------
// Listings
// ---------------------------------------------------------------------------

/// What is offered of a listing is what is left of its run, and what was sent of it
/// is not offered again.
pub proof fn run_is_sent_in_order(
    v: ServerView,
    transfer: TransferView,
    count: usize,
    dead: bool,
)
    requires
        transfer_of(v) == Some(transfer),
        transfer.kind matches TransferKind::List { chunk, .. } && chunk.len() <= usize::MAX,
        count <= chunk_left(transfer).len(),
    ensures
        v.stage == (Stage::<TaskView>::Chunk { dead }) ==> round_query(v) == Some(
            Query::<Seq<char>, Seq<u8>>::SendChunk(chunk_left(transfer)),
        ),
        transfer_of(on_chunk(v, WriteOutcome::Wrote(count), dead)) matches Some(after)
            && chunk_left(after) == chunk_left(transfer).skip(count as int),
{
    reveal(on_chunk);
    if let TransferKind::List { chunk, chunk_sent, .. } = transfer.kind {
        if chunk_sent <= chunk.len() {
            assert(chunk.skip(chunk_sent as int).skip(count as int) =~= chunk.skip(
                chunk_sent + count,
            ));
        } else {
            assert(Seq::<u8>::empty().skip(0) =~= Seq::<u8>::empty());
        }
    }
}

/// The next run of a listing is asked for only when all of the last one was sent,
/// and it is sent from its beginning.
pub proof fn runs_follow_each_other(
    v: ServerView,
    transfer: TransferView,
    queue: Queue,
    filled: Filled,
    dead: bool,
)
    requires
        transfer_of(v) == Some(transfer),
        transfer.kind is List,
    ensures
        on_alive(v, queue).stage is Fill ==> chunk_left(transfer).len() == 0,
        transfer_of(on_fill(v, Some(filled), dead)) matches Some(after) && chunk_left(after)
            == filled.chunk@,
{
    reveal(on_alive);
    reveal(on_fill);
    assert(filled.chunk@.skip(0) =~= filled.chunk@);
}

/// Replies leave in the order in which they were given, and no byte of them twice.
pub proof fn replies_leave_in_order(v: ServerView, session: SessionView, count: usize)
    requires
        v.session == Some(session),
        count <= session.out.len(),
    ensures
        v.stage == Stage::<TaskView>::Flush ==> round_query(v) == Some(
            Query::<Seq<char>, Seq<u8>>::ControlWrite(session.out),
        ),
        on_flush(v, WriteOutcome::Wrote(count)).session == Some(
            SessionView { out: session.out.skip(count as int), ..session },
        ),
{
    reveal(on_flush);
    assert(count == session.out.len() ==> session.out.skip(count as int) =~= Seq::<u8>::empty());
}

// ---------------------------------------------------------------------------
// Leaving
// ---------------------------------------------------------------------------

/// A client that was idle for too long is told so once and then sent away.
pub proof fn idle_client_is_sent_away(v: ServerView, session: SessionView, now: u64)
    requires
        v.session == Some(session),
        !session.busy(),
        elapsed(session.last_activity, now) >= IDLE_TIMEOUT_MICROS,
    ensures
        ({
            let told = SessionView { quit: true, ..session.said("421 Idle timeout"@) };
            idle_phase(v, now).session == if session.quit {
                Some(session)
            } else {
                Some(told)
            }
        }),
{
}

/// A session that is to end ends as soon as all its replies have left: the
/// connection is closed, and nothing of the session is kept.
pub proof fn quitting_session_ends(
    v: ServerView,
    session: SessionView,
    queue: Queue,
    fatal: bool,
    state: SocketState,
)
    requires
        v.session == Some(session),
        session.quit,
        queue.empty,
    ensures
        on_farewell(v, queue, fatal).stage == Stage::<TaskView>::Leave,
        on_farewell(v, queue, fatal).actions.contains(Action::ControlClose),
        on_leave(on_farewell(v, queue, fatal), state).session is None,
{
    reveal(on_farewell);
    reveal(on_leave);
    let closed = v.act(Action::ControlClose);
    assert(closed.actions[closed.actions.len() - 1] == Action::ControlClose);
    let left = on_farewell(v, queue, fatal);
    assert(left.actions[closed.actions.len() - 1] == Action::ControlClose);
}

} // verus!
