//! What holds of a listing as a whole, from its start to its last byte, whatever
//! else happens in between.

use crate::ftp::command::{dispatched, DispatchView};
use crate::ftp::laws::{
    command_keeps_order, command_starts_no_transfer, in_order, round_keeps_sound, sound,
};
use crate::ftp::listing::{entry_lines, lines, listed, run, run_takes_the_next, ItemView, ListKind};
use crate::ftp::server::{
    absorbed, bare_line, chunk_left, command_phase, line_end, on_alive, on_announce, on_arm,
    on_chunk, on_drain, on_farewell, on_fill, on_flush, on_leave, on_network, on_passive,
    on_receive, on_waiting, round_next, transfer_of, ReadOutcome, Reply, RoundEnv, ServerView,
    Stage, WriteOutcome,
};
use crate::ftp::session::{SessionView, TransferKind, TransferView};
use crate::storage::LocalTime;
use vstd::prelude::*;

verus! {

// ---------------------------------------------------------------------------
// The course of a server
// ---------------------------------------------------------------------------

/// What happens to a server.
pub enum Step {
    /// A round begins.
    Poll,
    /// Its actions are performed.
    Perform,
    /// A question is answered; `local` is the time that a run of a listing, if it is
    /// one that was asked for, was put together at.
    Answer { reply: Reply, env: RoundEnv, local: LocalTime },
}

/// The server after a step.
pub open spec fn step_next(v: ServerView, step: Step) -> ServerView {
    match step {
        Step::Poll => if v.volume {
            v.at(Stage::Network)
        } else {
            v
        },
        Step::Perform => ServerView { actions: Seq::empty(), ..v },
        Step::Answer { reply, env, .. } => round_next(v, reply, env),
    }
}

/// The server after some steps.
pub open spec fn server_after(v: ServerView, steps: Seq<Step>) -> ServerView
    decreases steps.len(),
{
    if steps.len() == 0 {
        v
    } else {
        server_after(step_next(v, steps[0]), steps.skip(1))
    }
}

/// A run that was put together is the next one of the directory.
pub open spec fn true_to_directory(v: ServerView, step: Step, items: Seq<ItemView>) -> bool {
    match (v.stage, step, transfer_of(v)) {
        (
            Stage::Fill { .. },
            Step::Answer { reply: Reply::Filled(Some(filled)), local, .. },
            Some(transfer),
        ) => transfer.kind matches TransferKind::List { kind, skip, .. } ==> {
            &&& filled.produced == run(kind, local, items, skip as nat).produced
            &&& filled.chunk@ == run(kind, local, items, skip as nat).chunk
        },
        _ => true,
    }
}

/// A transfer is kept on the way, and its runs are those of the directory.
pub open spec fn lists_directory(v: ServerView, steps: Seq<Step>, items: Seq<ItemView>) -> bool
    decreases steps.len(),
{
    steps.len() > 0 ==> {
        &&& true_to_directory(v, steps[0], items)
        &&& transfer_of(step_next(v, steps[0])) is Some
        &&& lists_directory(step_next(v, steps[0]), steps.skip(1), items)
    }
}

/// What the data connection takes of a listing in a step.
pub open spec fn step_sent(v: ServerView, step: Step) -> Seq<u8> {
    match (v.stage, step, transfer_of(v)) {
        (
            Stage::Chunk { .. },
            Step::Answer { reply: Reply::Wrote(WriteOutcome::Wrote(count)), .. },
            Some(transfer),
        ) => if count <= chunk_left(transfer).len() {
            chunk_left(transfer).take(count as int)
        } else {
            chunk_left(transfer)
        },
        _ => Seq::empty(),
    }
}

/// What it takes in some steps.
pub open spec fn all_sent(v: ServerView, steps: Seq<Step>) -> Seq<u8>
    decreases steps.len(),
{
    if steps.len() == 0 {
        Seq::empty()
    } else {
        step_sent(v, steps[0]) + all_sent(step_next(v, steps[0]), steps.skip(1))
    }
}

// ---------------------------------------------------------------------------
// The text of a listing
// ---------------------------------------------------------------------------

/// A text that lists entries: what is said of each, once and in their order, as it
/// reads at some time.
pub open spec fn lists_entries(kind: ListKind, entries: Seq<ItemView>, text: Seq<u8>) -> bool
    decreases entries.len(),
{
    if entries.len() == 0 {
        text.len() == 0
    } else {
        exists|local: LocalTime, rest: Seq<u8>|
            text == #[trigger] (entry_lines(kind, local, entries[0]) + rest) && lists_entries(
                kind,
                entries.skip(1),
                rest,
            )
    }
}

proof fn lines_list_entries(kind: ListKind, local: LocalTime, entries: Seq<ItemView>)
    ensures
        lists_entries(kind, entries, lines(kind, local, entries)),
    decreases entries.len(),
{
    if entries.len() > 0 {
        lines_list_entries(kind, local, entries.skip(1));
        assert(lines(kind, local, entries) == entry_lines(kind, local, entries[0]) + lines(
            kind,
            local,
            entries.skip(1),
        ));
    }
}

proof fn listings_join(
    kind: ListKind,
    front: Seq<ItemView>,
    first: Seq<u8>,
    back: Seq<ItemView>,
    second: Seq<u8>,
)
    requires
        lists_entries(kind, front, first),
        lists_entries(kind, back, second),
    ensures
        lists_entries(kind, front + back, first + second),
    decreases front.len(),
{
    if front.len() == 0 {
        assert(front + back =~= back);
        assert(first + second =~= second);
    } else {
        let (local, rest) = choose|local: LocalTime, rest: Seq<u8>|
            first == #[trigger] (entry_lines(kind, local, front[0]) + rest) && lists_entries(
                kind,
                front.skip(1),
                rest,
            );
        listings_join(kind, front.skip(1), rest, back, second);
        assert((front + back).skip(1) =~= front.skip(1) + back);
        assert(first + second =~= entry_lines(kind, local, (front + back)[0]) + (rest + second));
    }
}

// ---------------------------------------------------------------------------
// The listing on its way
// ---------------------------------------------------------------------------

/// A listing of a directory is under way: what was sent and what is left of its run
/// list the entries consumed so far, and it ends once that is all and all is sent.
pub open spec fn listing_stands(
    v: ServerView,
    dir: u32,
    kind: ListKind,
    items: Seq<ItemView>,
    sent: Seq<u8>,
) -> bool {
    transfer_of(v) matches Some(transfer) && listing_is_at(transfer, dir, kind, items, sent)
}

pub open spec fn listing_is_at(
    transfer: TransferView,
    directory: u32,
    format: ListKind,
    items: Seq<ItemView>,
    sent: Seq<u8>,
) -> bool {
    match transfer.kind {
        TransferKind::List { dir, kind, skip, done, chunk, chunk_sent } => {
            &&& dir == Some(directory)
            &&& kind == format
            &&& skip <= listed(items).len()
            &&& chunk_sent <= chunk.len() <= usize::MAX
            &&& done ==> skip == listed(items).len()
            &&& transfer.finishing ==> done && chunk_sent == chunk.len()
            &&& lists_entries(kind, listed(items).take(skip as int), sent + chunk_left(transfer))
        },
        _ => false,
    }
}

/// A run is asked for only when nothing is left of the last one.
pub open spec fn fills_when_sent(v: ServerView) -> bool {
    v.stage is Fill ==> (transfer_of(v) matches Some(transfer) && chunk_left(transfer).len() == 0)
}

proof fn command_phase_keeps_the_transfer(v: ServerView, env: RoundEnv)
    requires
        v.session matches Some(session) && in_order(session),
    ensures
        transfer_of(command_phase(v, env)) is Some ==> transfer_of(command_phase(v, env))
            == transfer_of(v),
        !(command_phase(v, env).stage is Fill),
    decreases v.session->0.line.len(),
{
    let session = v.session->0;
    let end = line_end(session.line);
    if !(end < 0 || end >= session.line.len()) {
        let taken = SessionView { line: session.line.skip(end + 1), ..session };
        let line = bare_line(session.line.take(end));
        let step = dispatched(taken, line, v.env(env));
        command_keeps_order(taken, line, v.env(env));
        command_starts_no_transfer(taken, line, v.env(env));
        let next = v.with(step.session).act_all(step.actions);
        match step.next {
            DispatchView::Run(task) => {},
            DispatchView::AbortData => {
                command_phase_keeps_the_transfer(next.abort_data(), env);
            },
            DispatchView::Done => {
                command_phase_keeps_the_transfer(next, env);
            },
        }
    }
}

/// Only what pumps a listing changes it.
#[verifier::spinoff_prover]
proof fn others_keep_the_listing(v: ServerView, reply: Reply, env: RoundEnv)
    requires
        sound(v),
        transfer_of(v) matches Some(transfer) && transfer.kind is List,
        !(v.stage is Alive),
        !(v.stage is Chunk),
        !(v.stage is Fill),
    ensures
        fills_when_sent(round_next(v, reply, env)),
        transfer_of(round_next(v, reply, env)) matches Some(after) ==> {
            &&& after.kind == transfer_of(v)->0.kind
            &&& after.finishing == transfer_of(v)->0.finishing
        },
{
    reveal(round_next);
    reveal(on_announce);
    reveal(on_network);
    reveal(on_arm);
    reveal(on_flush);
    reveal(on_passive);
    reveal(on_waiting);
    reveal(on_leave);
    reveal(on_farewell);
    reveal(on_drain);
    if v.stage is Receive {
        reveal(on_receive);
        let session = v.session->0;
        command_phase_keeps_the_transfer(v, env);
        if let Reply::Read(ReadOutcome::Bytes(bytes)) = reply {
            command_phase_keeps_the_transfer(v.with(absorbed(session, bytes@, env.now)), env);
        }
    }
}

/// A listing comes to its end only where nothing is left of it.
#[verifier::spinoff_prover]
proof fn alive_keeps_the_listing(
    v: ServerView,
    reply: Reply,
    env: RoundEnv,
    dir: u32,
    kind: ListKind,
    items: Seq<ItemView>,
    sent: Seq<u8>,
)
    requires
        v.stage is Alive,
        listing_stands(v, dir, kind, items, sent),
        transfer_of(round_next(v, reply, env)) is Some,
    ensures
        fills_when_sent(round_next(v, reply, env)),
        listing_stands(round_next(v, reply, env), dir, kind, items, sent),
{
    reveal(round_next);
    reveal(on_alive);
}

#[verifier::spinoff_prover]
proof fn chunk_keeps_the_listing(
    v: ServerView,
    step: Step,
    dir: u32,
    kind: ListKind,
    items: Seq<ItemView>,
    sent: Seq<u8>,
)
    requires
        v.stage is Chunk,
        step is Answer,
        listing_stands(v, dir, kind, items, sent),
        transfer_of(v) matches Some(transfer) && !transfer.finishing,
        transfer_of(step_next(v, step)) is Some,
    ensures
        fills_when_sent(step_next(v, step)),
        listing_stands(step_next(v, step), dir, kind, items, sent + step_sent(v, step)),
{
    reveal(round_next);
    reveal(on_chunk);
    let transfer = transfer_of(v)->0;
    let left = chunk_left(transfer);
    assert(sent + Seq::<u8>::empty() =~= sent);
    if let Step::Answer { reply: Reply::Wrote(WriteOutcome::Wrote(count)), .. } = step {
        if let TransferKind::List { chunk, chunk_sent, .. } = transfer.kind {
            let moved = step_sent(v, step).len() as int;
            assert(step_sent(v, step) =~= left.take(moved));
            assert(chunk.skip(chunk_sent as int).skip(moved) =~= chunk.skip(chunk_sent + moved));
            assert((sent + left.take(moved)) + left.skip(moved) =~= sent + left);
        }
    }
}

#[verifier::spinoff_prover]
proof fn fill_keeps_the_listing(
    v: ServerView,
    step: Step,
    dir: u32,
    kind: ListKind,
    items: Seq<ItemView>,
    sent: Seq<u8>,
)
    requires
        v.stage is Fill,
        step is Answer,
        listing_stands(v, dir, kind, items, sent),
        transfer_of(v) matches Some(transfer) && !transfer.finishing && chunk_left(transfer).len()
            == 0,
        listed(items).len() <= usize::MAX,
        true_to_directory(v, step, items),
        transfer_of(step_next(v, step)) is Some,
    ensures
        fills_when_sent(step_next(v, step)),
        listing_stands(step_next(v, step), dir, kind, items, sent),
{
    reveal(round_next);
    reveal(on_fill);
    let transfer = transfer_of(v)->0;
    if let (
        Step::Answer { reply: Reply::Filled(Some(filled)), local, .. },
        TransferKind::List { skip, .. },
    ) = (step, transfer.kind) {
        let entries = listed(items);
        let fill = run(kind, local, items, skip as nat);
        run_takes_the_next(kind, local, items, skip as nat);
        assert(sent + chunk_left(transfer) =~= sent);
        assert(filled.chunk.len() == filled.chunk@.len());
        assert(filled.chunk@.skip(0) =~= filled.chunk@);
        if skip < entries.len() {
            let part = entries.subrange(skip as int, skip + fill.produced);
            lines_list_entries(kind, local, part);
            listings_join(kind, entries.take(skip as int), sent, part, fill.chunk);
            assert(entries.take(skip as int) + part =~= entries.take(skip + fill.produced));
        } else {
            assert(sent + filled.chunk@ =~= sent);
        }
    }
}

proof fn listing_goes_on(
    v: ServerView,
    steps: Seq<Step>,
    dir: u32,
    kind: ListKind,
    items: Seq<ItemView>,
    sent: Seq<u8>,
)
    requires
        sound(v),
        fills_when_sent(v),
        listing_stands(v, dir, kind, items, sent),
        listed(items).len() <= usize::MAX,
        lists_directory(v, steps, items),
    ensures
        listing_stands(server_after(v, steps), dir, kind, items, sent + all_sent(v, steps)),
    decreases steps.len(),
{
    if steps.len() == 0 {
        assert(sent + all_sent(v, steps) =~= sent);
    } else {
        let step = steps[0];
        let next = step_next(v, step);
        assert(sent + Seq::<u8>::empty() =~= sent);
        match step {
            Step::Answer { reply, env, .. } => {
                round_keeps_sound(v, reply, env);
                if v.stage is Chunk {
                    chunk_keeps_the_listing(v, step, dir, kind, items, sent);
                } else if v.stage is Fill {
                    fill_keeps_the_listing(v, step, dir, kind, items, sent);
                } else if v.stage is Alive {
                    alive_keeps_the_listing(v, reply, env, dir, kind, items, sent);
                } else {
                    others_keep_the_listing(v, reply, env);
                }
            },
            _ => {},
        }
        listing_goes_on(next, steps.skip(1), dir, kind, items, sent + step_sent(v, step));
        assert((sent + step_sent(v, step)) + all_sent(next, steps.skip(1)) =~= sent + all_sent(
            v,
            steps,
        ));
    }
}

/// A listing of a directory that comes to its end has sent what is said of every
/// entry, each once and in the order of the directory, and nothing else: in runs,
/// with whatever the client and the network did in between. Entries whose names would
/// break the lines are left out.
pub proof fn whole_directory_is_sent(
    v: ServerView,
    transfer: TransferView,
    dir: u32,
    kind: ListKind,
    items: Seq<ItemView>,
    steps: Seq<Step>,
)
    requires
        sound(v),
        transfer_of(v) == Some(transfer),
        !transfer.announced,
        !transfer.finishing,
        transfer.kind == (TransferKind::<Seq<u8>>::List {
            dir: Some(dir),
            kind,
            skip: 0,
            done: false,
            chunk: Seq::empty(),
            chunk_sent: 0,
        }),
        listed(items).len() <= usize::MAX,
        lists_directory(v, steps, items),
        transfer_of(server_after(v, steps)) matches Some(end) && end.finishing,
    ensures
        lists_entries(kind, listed(items), all_sent(v, steps)),
{
    let none = Seq::<u8>::empty();
    assert(none + chunk_left(transfer) =~= none);
    assert(listed(items).take(0) =~= Seq::<ItemView>::empty());
    listing_goes_on(v, steps, dir, kind, items, none);
    assert(none + all_sent(v, steps) =~= all_sent(v, steps));
    let end = transfer_of(server_after(v, steps))->0;
    assert(all_sent(v, steps) + chunk_left(end) =~= all_sent(v, steps));
    assert(listed(items).take(listed(items).len() as int) =~= listed(items));
}

} // verus!
