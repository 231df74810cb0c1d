//! What a client's commands come to: what is looked for, opened, made and deleted on the
//! card, and what the client is told.

use crate::ftp::command::{
    command, command_line, dispatched, finished, verb_of, CommandLine, DispatchView, Dispatched, EnvView, Errand, Ipv4, TaskView, Verb,
};
use crate::ftp::job::{
    job_next, job_query, Action, FsQuery, FsReply, JobResult, JobStage, JobView, Outcome, Purpose,
    Refusal,
};
use crate::ftp::listing::{line_text, Entry, ListKind};
use crate::ftp::name::is_short_name;
use crate::ftp::path::{argument_names_an_entry, covers, normalized, without_options};
use crate::ftp::session::{PendingView, SessionView, TransferKind};
use crate::storage::{now_text, LocalTime};
use crate::text::{
    decimal, is_space, joined, position, position_is_first, trimmed, trimming_keeps_the_middle,
    trimming_keeps_what_has_no_space_at_its_ends, uppercase,
};
use vstd::prelude::*;
use vstd::string::*;
use vstd::utf8::*;

verus! {

// ---------------------------------------------------------------------------
// Where a job acts
// ---------------------------------------------------------------------------

/// A job, and what its questions have led to on the card: the place of the directory that is
/// open, and the entry that was found last.
#[verifier::ext_equal]
pub struct Hunt {
    pub job: JobView,
    pub place: Seq<Seq<char>>,
    pub name: Seq<char>,
    pub entry: Option<Entry>,
}

/// The hunt after an answer that asks for more: opening the root leads there, opening a
/// directory that was found leads down to it, and a lookup finds something or nothing.
pub open spec fn hunted(hunt: Hunt, reply: FsReply, stage: JobStage) -> Hunt {
    let job = JobView { stage, ..hunt.job };
    match (job_query(hunt.job), reply) {
        (FsQuery::OpenRoot, _) => Hunt { job, place: Seq::empty(), ..hunt },
        (FsQuery::Find { name, .. }, FsReply::Entry(entry)) => Hunt { job, name, entry, ..hunt },
        (FsQuery::Find { name, .. }, _) => Hunt { job, name, entry: None, ..hunt },
        (FsQuery::OpenFoundDir { .. }, _) => Hunt {
            job,
            place: hunt.place.push(hunt.name),
            ..hunt
        },
        _ => Hunt { job, ..hunt },
    }
}

/// The name that a purpose is about.
pub open spec fn is_about(purpose: Purpose<Seq<char>>, name: Seq<char>) -> bool {
    match purpose {
        Purpose::Visit => false,
        Purpose::Inspect(leaf)
        | Purpose::Delete(leaf)
        | Purpose::RemoveDir(leaf)
        | Purpose::MakeDir(leaf)
        | Purpose::Store(leaf) => name == leaf,
        Purpose::Retrieve { leaf, .. } => name == leaf,
        Purpose::List { leaf, .. } => leaf == Some(name),
    }
}

/// A hunt is on its way: the directory that is open is the one that the path up to here leads
/// to, and what was found there goes by the name that was wanted.
pub open spec fn on_the_way(hunt: Hunt) -> bool {
    match hunt.job.stage {
        JobStage::Root => true,
        JobStage::Walk { depth, .. } => depth < hunt.job.path.len() && hunt.place
            == hunt.job.path.take(depth as int),
        JobStage::Enter { depth, .. } => {
            &&& depth < hunt.job.path.len()
            &&& hunt.place == hunt.job.path.take(depth as int)
            &&& hunt.name == hunt.job.path[depth as int]
            &&& hunt.entry matches Some(entry) && entry.directory
        },
        JobStage::Look { .. } => hunt.place == hunt.job.path && !(hunt.job.purpose is Visit)
            && (hunt.job.purpose matches Purpose::List { leaf, .. } ==> leaf is Some),
        JobStage::Make { .. } => hunt.place == hunt.job.path && hunt.job.purpose is MakeDir,
        JobStage::Delete { .. } => {
            &&& hunt.place == hunt.job.path
            &&& is_about(hunt.job.purpose, hunt.name)
            &&& hunt.job.purpose is Delete && (hunt.entry matches Some(entry) && !entry.directory)
                || hunt.job.purpose is RemoveDir && (hunt.entry matches Some(entry)
                && entry.directory)
        },
        JobStage::Open { create, size, .. } => {
            &&& hunt.place == hunt.job.path
            &&& is_about(hunt.job.purpose, hunt.name)
            &&& hunt.job.purpose is Store && create && hunt.entry is None
                || hunt.job.purpose is Store && !create && (hunt.entry matches Some(entry)
                && !entry.directory) || !create && (hunt.job.purpose matches Purpose::Retrieve {
                offset,
                ..
            } && hunt.entry matches Some(entry) && !entry.directory && size + offset == entry.size)
        },
        JobStage::Seek { size, .. } => {
            &&& hunt.place == hunt.job.path
            &&& is_about(hunt.job.purpose, hunt.name)
            &&& hunt.job.purpose matches Purpose::Retrieve { offset, .. } && hunt.entry matches Some(
                entry,
            ) && size + offset == entry.size
        },
        JobStage::Descend { .. } => {
            &&& hunt.place == hunt.job.path
            &&& is_about(hunt.job.purpose, hunt.name)
            &&& hunt.job.purpose is List
            &&& hunt.entry matches Some(entry) && entry.directory
        },
    }
}

/// A job goes down its path, component by component, and looks up its name where the path has
/// led: an answer keeps it on its way.
pub proof fn job_follows_its_path(hunt: Hunt, reply: FsReply)
    requires
        on_the_way(hunt),
        hunt.job.path.len() <= usize::MAX,
    ensures
        job_next(hunt.job, reply).outcome matches Outcome::Ask(stage) ==> on_the_way(
            hunted(hunt, reply, stage),
        ),
{
    let path = hunt.job.path;
    assert(path.take(0) =~= Seq::<Seq<char>>::empty());
    assert(path.take(path.len() as int) =~= path);
    if let JobStage::Enter { depth, .. } = hunt.job.stage {
        assert(path.take(depth as int).push(path[depth as int]) =~= path.take(depth + 1));
    }
}

/// What a job does to the card it does to the entry that it is about, in the directory that
/// its path leads to: a file is deleted, a directory removed, a directory made, a file opened
/// to be written from the start or to be read, each where its purpose is just that.
pub proof fn job_acts_on_its_entry(hunt: Hunt)
    requires
        on_the_way(hunt),
    ensures
        match job_query(hunt.job) {
            FsQuery::DeleteFound { .. } => {
                &&& hunt.place == hunt.job.path
                &&& is_about(hunt.job.purpose, hunt.name)
                &&& hunt.job.purpose is Delete ==> (hunt.entry matches Some(entry)
                    && !entry.directory)
                &&& hunt.job.purpose is RemoveDir ==> (hunt.entry matches Some(entry)
                    && entry.directory)
                &&& hunt.job.purpose is Delete || hunt.job.purpose is RemoveDir
            },
            FsQuery::MakeDir { name, .. } => hunt.place == hunt.job.path
                && hunt.job.purpose is MakeDir && is_about(hunt.job.purpose, name),
            FsQuery::CreateFile { name, .. } => {
                &&& hunt.place == hunt.job.path
                &&& hunt.job.purpose is Store
                &&& is_about(hunt.job.purpose, name)
                &&& hunt.entry is None
            },
            FsQuery::OpenFoundFile { anew, .. } => {
                &&& hunt.place == hunt.job.path
                &&& is_about(hunt.job.purpose, hunt.name)
                &&& hunt.entry matches Some(entry) && !entry.directory
                &&& anew <==> hunt.job.purpose is Store
                &&& !anew <==> hunt.job.purpose is Retrieve
            },
            FsQuery::Seek { offset, .. } => hunt.job.purpose matches Purpose::Retrieve {
                offset: wanted,
                ..
            } && (wanted <= u32::MAX ==> offset == wanted),
            FsQuery::Find { name, .. } => if hunt.place.len() < hunt.job.path.len() {
                name == hunt.job.path[hunt.place.len() as int]
            } else {
                is_about(hunt.job.purpose, name)
            },
            FsQuery::OpenFoundDir { .. } => hunt.entry matches Some(entry) && entry.directory && (
            hunt.place.len() < hunt.job.path.len() && hunt.name
                == hunt.job.path[hunt.place.len() as int] || is_about(hunt.job.purpose, hunt.name)),
            FsQuery::OpenRoot => hunt.job.stage == JobStage::Root,
        },
{
    if let JobStage::Walk { depth, .. } = hunt.job.stage {
        assert(hunt.place.len() == depth);
    }
    if let JobStage::Enter { depth, .. } = hunt.job.stage {
        assert(hunt.place.len() == depth);
    }
}

/// A question about something that is open is about what the job opened last.
pub proof fn job_asks_about_what_it_opened(job: JobView, reply: FsReply)
    ensures
        job.stage is Root && reply is Dir ==> (job_next(job, reply).outcome matches Outcome::Ask(
            stage,
        ) ==> handle_of(job_query((JobView { stage, ..job }))) == reply->Dir_0),
        job.stage matches JobStage::Enter { dir, .. } ==> reply is Dir ==> {
            &&& reply->Dir_0 is Some ==> job_next(job, reply).actions.len() > 0 && job_next(
                job,
                reply,
            ).actions[0] == Action::CloseDir(dir)
            &&& job_next(job, reply).outcome matches Outcome::Ask(stage) ==> handle_of(
                job_query((JobView { stage, ..job })),
            ) == reply->Dir_0
        },
        job.stage is Walk || job.stage is Look ==> (job_next(
            job,
            reply,
        ).outcome matches Outcome::Ask(stage) ==> handle_of(
            job_query((JobView { stage, ..job })),
        ) == handle_of(job_query(job))),
        job.stage is Open && reply is File ==> (job_next(job, reply).outcome matches Outcome::Ask(
            stage,
        ) ==> job_query((JobView { stage, ..job })) matches FsQuery::Seek { file, .. }
            && reply->File_0 == Some(file)),
{
}

/// The directory that a question is about.
pub open spec fn handle_of(query: FsQuery<Seq<char>>) -> Option<u32> {
    match query {
        FsQuery::OpenRoot | FsQuery::Seek { .. } => None,
        FsQuery::Find { dir, .. } => Some(dir),
        FsQuery::OpenFoundDir { dir } => Some(dir),
        FsQuery::DeleteFound { dir } => Some(dir),
        FsQuery::MakeDir { dir, .. } => Some(dir),
        FsQuery::OpenFoundFile { dir, .. } => Some(dir),
        FsQuery::CreateFile { dir, .. } => Some(dir),
    }
}

/// A job whose entry is what its purpose needs goes on to just that.
pub proof fn job_does_what_it_is_for(job: JobView, dir: u32, found: Option<Entry>)
    requires
        job.stage == (JobStage::Look { dir }),
    ensures
        ({
            let step = job_next(job, FsReply::Entry(found));
            &&& job.purpose is Delete && (found matches Some(entry) && !entry.directory)
                ==> step.outcome == Outcome::Ask(JobStage::Delete { dir })
            &&& job.purpose is Delete && !(found matches Some(entry) && !entry.directory)
                ==> step.outcome == Outcome::Finish(JobResult::Done(false))
            &&& job.purpose is RemoveDir && (found matches Some(entry) && entry.directory)
                ==> step.outcome == Outcome::Ask(JobStage::Delete { dir })
            &&& job.purpose is RemoveDir && !(found matches Some(entry) && entry.directory)
                ==> step.outcome == Outcome::Finish(JobResult::Done(false))
            &&& job.purpose is Store && (found matches Some(entry) && !entry.directory)
                ==> step.outcome == Outcome::Ask(JobStage::Open { dir, create: false, size: 0 })
            &&& job.purpose is Store && (found matches Some(entry) && entry.directory)
                ==> step.outcome == Outcome::Finish(JobResult::Refused(Refusal::IsDirectory))
            &&& job.purpose matches Purpose::Store(leaf) ==> found is None ==> step.outcome
                == if is_short_name(leaf) {
                Outcome::Ask(JobStage::Open { dir, create: true, size: 0 })
            } else {
                Outcome::Finish(JobResult::Refused(Refusal::BadName))
            }
            &&& job.purpose matches Purpose::Retrieve { offset, .. } ==> step.outcome
                == match found {
                None => Outcome::Finish(JobResult::Refused(Refusal::NotFound)),
                Some(entry) => if entry.directory {
                    Outcome::Finish(JobResult::Refused(Refusal::IsDirectory))
                } else if entry.size < offset {
                    Outcome::Finish(JobResult::Refused(Refusal::BadOffset))
                } else {
                    Outcome::Ask(
                        JobStage::Open { dir, create: false, size: (entry.size - offset) as u64 },
                    )
                },
            }
            &&& job.purpose is List ==> step.outcome == match found {
                None => Outcome::Finish(JobResult::Refused(Refusal::PathMissing)),
                Some(entry) => if entry.directory {
                    Outcome::Ask(JobStage::Descend { dir })
                } else {
                    Outcome::Finish(JobResult::Single(entry))
                },
            }
            &&& job.purpose is Inspect ==> step.outcome == Outcome::Finish(
                JobResult::Inspected(found),
            )
        }),
{
}

/// What the card did is the job's result: a file or a directory that was opened, or whether
/// something was made or deleted.
pub proof fn job_tells_what_was_done(job: JobView, dir: u32, file: u32, size: u64, ok: bool)
    ensures
        job.stage == (JobStage::Delete { dir }) || job.stage == (JobStage::Make { dir })
            ==> job_next(job, FsReply::Done(ok)).outcome == Outcome::Finish(JobResult::Done(ok)),
        job.stage == (JobStage::Descend { dir }) ==> job_next(
            job,
            FsReply::Dir(Some(file)),
        ).outcome == Outcome::Finish(JobResult::Directory(file)),
        job.stage == (JobStage::Open { dir, create: false, size }) && (
        job.purpose matches Purpose::Retrieve { offset, .. } && offset == 0) ==> job_next(
            job,
            FsReply::File(Some(file)),
        ).outcome == Outcome::Finish(JobResult::File { file, size }),
        job.stage == (JobStage::Open { dir, create: false, size }) && (
        job.purpose matches Purpose::Retrieve { offset, .. } && offset > 0) ==> job_next(
            job,
            FsReply::File(Some(file)),
        ).outcome == Outcome::Ask(JobStage::Seek { dir, file, size }),
        job.stage == (JobStage::Seek { dir, file, size }) ==> job_next(
            job,
            FsReply::Done(ok),
        ).outcome == if ok {
            Outcome::Finish(JobResult::File { file, size })
        } else {
            Outcome::Finish(JobResult::Refused(Refusal::BadOffset))
        },
        job.stage is Open && job.purpose is Store ==> {
            &&& job_next(job, FsReply::File(Some(file))).outcome matches Outcome::Finish(
                JobResult::File { file: opened, .. },
            ) && opened == file
            &&& job_next(job, FsReply::File(None)).outcome == Outcome::Finish(
                JobResult::Refused(Refusal::CannotCreate),
            )
        },
        job.stage is Open && !(job.purpose is Store) ==> job_next(
            job,
            FsReply::File(None),
        ).outcome == Outcome::Finish(JobResult::Refused(Refusal::NotFound)),
{
}

/// A path that leads nowhere is told so: a component that is missing or no directory, or a
/// directory that cannot be opened.
pub proof fn job_tells_a_missing_path(job: JobView, reply: FsReply)
    requires
        job.stage is Root && reply == FsReply::Dir(None) || job.stage is Walk && !(
        reply matches FsReply::Entry(Some(entry)) && entry.directory) || job.stage is Enter
            && reply == FsReply::Dir(None),
    ensures
        job_next(job, reply).outcome == Outcome::Finish(JobResult::Missing),
{
}

/// Where the path has led, a visit is over, a listing of the directory has it, a directory is
/// made where its name is a short one, and the rest looks up its name.
pub proof fn job_arrives(job: JobView, dir: u32)
    requires
        job.stage == JobStage::Root,
        job.path.len() == 0,
    ensures
        ({
            let step = job_next(job, FsReply::Dir(Some(dir)));
            &&& job.purpose is Visit ==> step.outcome == Outcome::Finish(JobResult::Here)
                && step.actions == seq![Action::CloseDir(dir)]
            &&& job.purpose matches Purpose::List { leaf, .. } ==> step.outcome == if leaf is None {
                Outcome::Finish(JobResult::Directory(dir))
            } else {
                Outcome::Ask(JobStage::Look { dir })
            }
            &&& job.purpose matches Purpose::MakeDir(name) ==> step.outcome == if is_short_name(
                name,
            ) {
                Outcome::Ask(JobStage::Make { dir })
            } else {
                Outcome::Finish(JobResult::Done(false))
            }
            &&& job.purpose matches Purpose::Store(name) ==> step.outcome == if trimmed(name).len()
                == 0 {
                Outcome::Finish(JobResult::Refused(Refusal::EmptyName))
            } else {
                Outcome::Ask(JobStage::Look { dir })
            }
            &&& job.purpose is Inspect || job.purpose is Delete || job.purpose is RemoveDir
                || job.purpose is Retrieve ==> step.outcome == Outcome::Ask(JobStage::Look { dir })
        }),
{
}


// ---------------------------------------------------------------------------
// Commands
// ---------------------------------------------------------------------------

/// The words of the commands, letter by letter.
pub proof fn words_name_their_commands(word: Seq<char>)
    ensures
        verb_of(word) == Verb::User <==> word == seq!['U', 'S', 'E', 'R'],
        verb_of(word) == Verb::Pass <==> word == seq!['P', 'A', 'S', 'S'],
        verb_of(word) == Verb::Quit <==> word == seq!['Q', 'U', 'I', 'T'],
        verb_of(word) == Verb::Abor <==> word == seq!['A', 'B', 'O', 'R'],
        verb_of(word) == Verb::Stat <==> word == seq!['S', 'T', 'A', 'T'],
        verb_of(word) == Verb::Noop <==> word == seq!['N', 'O', 'O', 'P'],
        verb_of(word) == Verb::Syst <==> word == seq!['S', 'Y', 'S', 'T'],
        verb_of(word) == Verb::Feat <==> word == seq!['F', 'E', 'A', 'T'],
        verb_of(word) == Verb::Opts <==> word == seq!['O', 'P', 'T', 'S'],
        verb_of(word) == Verb::Help <==> word == seq!['H', 'E', 'L', 'P'],
        verb_of(word) == Verb::Type <==> word == seq!['T', 'Y', 'P', 'E'],
        verb_of(word) == Verb::Pasv <==> word == seq!['P', 'A', 'S', 'V'],
        verb_of(word) == Verb::Epsv <==> word == seq!['E', 'P', 'S', 'V'],
        verb_of(word) == Verb::List <==> word == seq!['L', 'I', 'S', 'T'],
        verb_of(word) == Verb::Nlst <==> word == seq!['N', 'L', 'S', 'T'],
        verb_of(word) == Verb::Mlsd <==> word == seq!['M', 'L', 'S', 'D'],
        verb_of(word) == Verb::Mlst <==> word == seq!['M', 'L', 'S', 'T'],
        verb_of(word) == Verb::Retr <==> word == seq!['R', 'E', 'T', 'R'],
        verb_of(word) == Verb::Stor <==> word == seq!['S', 'T', 'O', 'R'],
        verb_of(word) == Verb::Rest <==> word == seq!['R', 'E', 'S', 'T'],
        verb_of(word) == Verb::Size <==> word == seq!['S', 'I', 'Z', 'E'],
        verb_of(word) == Verb::Mdtm <==> word == seq!['M', 'D', 'T', 'M'],
        verb_of(word) == Verb::Dele <==> word == seq!['D', 'E', 'L', 'E'],
        verb_of(word) == Verb::Pwd <==> word == seq!['P', 'W', 'D'] || word == seq![
            'X',
            'P',
            'W',
            'D',
        ],
        verb_of(word) == Verb::Cwd <==> word == seq!['C', 'W', 'D'] || word == seq![
            'X',
            'C',
            'W',
            'D',
        ],
        verb_of(word) == Verb::Cdup <==> word == seq!['C', 'D', 'U', 'P'] || word == seq![
            'X',
            'C',
            'U',
            'P',
        ],
        verb_of(word) == Verb::Rmd <==> word == seq!['R', 'M', 'D'] || word == seq![
            'X',
            'R',
            'M',
            'D',
        ],
        verb_of(word) == Verb::Mkd <==> word == seq!['M', 'K', 'D'] || word == seq![
            'X',
            'M',
            'K',
            'D',
        ],
        verb_of(word) == Verb::Rename <==> word == seq!['R', 'N', 'F', 'R'] || word == seq![
            'R',
            'N',
            'T',
            'O',
        ],
        verb_of(word) == Verb::Mode <==> word == seq!['M', 'O', 'D', 'E'] || word == seq![
            'S',
            'T',
            'R',
            'U',
        ],
        verb_of(word) == Verb::Port <==> word == seq!['P', 'O', 'R', 'T'] || word == seq![
            'E',
            'P',
            'R',
            'T',
        ],
        verb_of(word) == Verb::Security <==> word == seq!['A', 'U', 'T', 'H'] || word == seq![
            'P',
            'B',
            'S',
            'Z',
        ] || word == seq!['P', 'R', 'O', 'T'],
{
    reveal_strlit("ABOR");
    reveal_strlit("STAT");
    reveal_strlit("NOOP");
    reveal_strlit("QUIT");
    reveal_strlit("USER");
    reveal_strlit("PASS");
    reveal_strlit("SYST");
    reveal_strlit("FEAT");
    reveal_strlit("OPTS");
    reveal_strlit("AUTH");
    reveal_strlit("PBSZ");
    reveal_strlit("PROT");
    reveal_strlit("HELP");
    reveal_strlit("PWD");
    reveal_strlit("XPWD");
    reveal_strlit("CWD");
    reveal_strlit("XCWD");
    reveal_strlit("CDUP");
    reveal_strlit("XCUP");
    reveal_strlit("TYPE");
    reveal_strlit("MODE");
    reveal_strlit("STRU");
    reveal_strlit("PORT");
    reveal_strlit("EPRT");
    reveal_strlit("PASV");
    reveal_strlit("EPSV");
    reveal_strlit("LIST");
    reveal_strlit("NLST");
    reveal_strlit("MLSD");
    reveal_strlit("MLST");
    reveal_strlit("RETR");
    reveal_strlit("STOR");
    reveal_strlit("REST");
    reveal_strlit("SIZE");
    reveal_strlit("MDTM");
    reveal_strlit("DELE");
    reveal_strlit("RMD");
    reveal_strlit("XRMD");
    reveal_strlit("MKD");
    reveal_strlit("XMKD");
    reveal_strlit("RNFR");
    reveal_strlit("RNTO");
    assert("ABOR"@ =~= seq!['A', 'B', 'O', 'R']);
    assert("STAT"@ =~= seq!['S', 'T', 'A', 'T']);
    assert("NOOP"@ =~= seq!['N', 'O', 'O', 'P']);
    assert("QUIT"@ =~= seq!['Q', 'U', 'I', 'T']);
    assert("USER"@ =~= seq!['U', 'S', 'E', 'R']);
    assert("PASS"@ =~= seq!['P', 'A', 'S', 'S']);
    assert("SYST"@ =~= seq!['S', 'Y', 'S', 'T']);
    assert("FEAT"@ =~= seq!['F', 'E', 'A', 'T']);
    assert("OPTS"@ =~= seq!['O', 'P', 'T', 'S']);
    assert("AUTH"@ =~= seq!['A', 'U', 'T', 'H']);
    assert("PBSZ"@ =~= seq!['P', 'B', 'S', 'Z']);
    assert("PROT"@ =~= seq!['P', 'R', 'O', 'T']);
    assert("HELP"@ =~= seq!['H', 'E', 'L', 'P']);
    assert("PWD"@ =~= seq!['P', 'W', 'D']);
    assert("XPWD"@ =~= seq!['X', 'P', 'W', 'D']);
    assert("CWD"@ =~= seq!['C', 'W', 'D']);
    assert("XCWD"@ =~= seq!['X', 'C', 'W', 'D']);
    assert("CDUP"@ =~= seq!['C', 'D', 'U', 'P']);
    assert("XCUP"@ =~= seq!['X', 'C', 'U', 'P']);
    assert("TYPE"@ =~= seq!['T', 'Y', 'P', 'E']);
    assert("MODE"@ =~= seq!['M', 'O', 'D', 'E']);
    assert("STRU"@ =~= seq!['S', 'T', 'R', 'U']);
    assert("PORT"@ =~= seq!['P', 'O', 'R', 'T']);
    assert("EPRT"@ =~= seq!['E', 'P', 'R', 'T']);
    assert("PASV"@ =~= seq!['P', 'A', 'S', 'V']);
    assert("EPSV"@ =~= seq!['E', 'P', 'S', 'V']);
    assert("LIST"@ =~= seq!['L', 'I', 'S', 'T']);
    assert("NLST"@ =~= seq!['N', 'L', 'S', 'T']);
    assert("MLSD"@ =~= seq!['M', 'L', 'S', 'D']);
    assert("MLST"@ =~= seq!['M', 'L', 'S', 'T']);
    assert("RETR"@ =~= seq!['R', 'E', 'T', 'R']);
    assert("STOR"@ =~= seq!['S', 'T', 'O', 'R']);
    assert("REST"@ =~= seq!['R', 'E', 'S', 'T']);
    assert("SIZE"@ =~= seq!['S', 'I', 'Z', 'E']);
    assert("MDTM"@ =~= seq!['M', 'D', 'T', 'M']);
    assert("DELE"@ =~= seq!['D', 'E', 'L', 'E']);
    assert("RMD"@ =~= seq!['R', 'M', 'D']);
    assert("XRMD"@ =~= seq!['X', 'R', 'M', 'D']);
    assert("MKD"@ =~= seq!['M', 'K', 'D']);
    assert("XMKD"@ =~= seq!['X', 'M', 'K', 'D']);
    assert("RNFR"@ =~= seq!['R', 'N', 'F', 'R']);
    assert("RNTO"@ =~= seq!['R', 'N', 'T', 'O']);
}

/// What the client is told: one line, behind what it was told before.
pub open spec fn told(before: SessionView, after: SessionView, reply: Seq<char>) -> bool {
    after.out == before.out + encode_utf8(reply) + seq![13u8, 10u8]
}

/// A session after a command that only answers.
pub open spec fn only_told(before: SessionView, step: Dispatched, reply: Seq<char>) -> bool {
    &&& told(before, step.session, reply)
    &&& step.session == (SessionView { out: step.session.out, ..before })
    &&& step.actions == Seq::<Action>::empty()
    &&& step.next == DispatchView::Done
}

proof fn said_is_told(session: SessionView, reply: Seq<char>)
    ensures
        told(session, session.said(reply), reply),
{
    assert(session.said(reply).out =~= session.out + encode_utf8(reply) + seq![13u8, 10u8]);
}

/// A client that may use the card and moves no data.
pub open spec fn is_ready(session: SessionView) -> bool {
    session.logged_in && session.pending is None && session.transfer is None
}

/// USER keeps the name and asks for the password; PASS with the right one of both lets the
/// client in, and anything else does not.
pub proof fn clients_log_in(session: SessionView, name: Seq<char>, word: Seq<char>, env: EnvView)
    requires
        session.pending is None,
        session.transfer is None,
    ensures
        ({
            let named = command(session, Verb::User, name, env);
            let in_or_out = command(named.session, Verb::Pass, word, env).session;
            &&& told(session, named.session, "331 Password required"@)
            &&& !named.session.logged_in
            &&& in_or_out.logged_in <==> name == env.user && word == env.password
            &&& in_or_out.logged_in ==> told(
                named.session,
                in_or_out,
                "230 Logged in, SD card shared"@,
            )
            &&& !in_or_out.logged_in ==> told(
                named.session,
                in_or_out,
                "530 Wrong user or password"@,
            )
        }),
        !session.logged_in && session.user != Some(env.user) ==> !command(
            session,
            Verb::Pass,
            word,
            env,
        ).session.logged_in,
{
    reveal(command);
    let named = command(session, Verb::User, name, env).session;
    said_is_told(
        SessionView { user: Some(name), logged_in: false, ..session },
        "331 Password required"@,
    );
    said_is_told(SessionView { logged_in: true, ..named }, "230 Logged in, SD card shared"@);
    said_is_told(named, "530 Wrong user or password"@);
}

/// Where a client is, and where it goes: PWD tells the directory, CDUP goes to the parent,
/// and CWD looks whether the directory that its argument leads to is there and goes there
/// exactly then.
pub proof fn clients_move_around(
    session: SessionView,
    arg: Seq<char>,
    env: EnvView,
    result: JobResult,
    local: LocalTime,
)
    requires
        is_ready(session),
    ensures
        only_told(
            session,
            command(session, Verb::Pwd, arg, env),
            "257 \"/"@ + joined(session.cwd, "/"@) + "\" is current"@,
        ),
        ({
            let up = command(session, Verb::Cdup, arg, env);
            &&& told(session, up.session, "250 Directory changed"@)
            &&& session.cwd.len() > 0 ==> up.session.cwd == session.cwd.take(session.cwd.len() - 1)
            &&& session.cwd.len() == 0 ==> up.session.cwd.len() == 0
            &&& up.next == DispatchView::Done
        }),
        command(session, Verb::Cwd, arg, env).next matches DispatchView::Run(task) && {
            &&& task.job.path == normalized(session.cwd, arg)
            &&& task.job.purpose == Purpose::<Seq<char>>::Visit
            &&& ({
                let end = finished(session, task, result, local).session;
                &&& result == JobResult::Here ==> end.cwd == normalized(session.cwd, arg) && told(
                    session,
                    end,
                    "250 Directory changed"@,
                )
                &&& result != JobResult::Here ==> end.cwd == session.cwd && told(
                    session,
                    end,
                    "550 No such directory"@,
                )
            })
        },
{
    reveal(command);
    said_is_told(session, "257 \"/"@ + joined(session.cwd, "/"@) + "\" is current"@);
    let up = if session.cwd.len() > 0 {
        session.cwd.drop_last()
    } else {
        session.cwd
    };
    assert(session.cwd.len() > 0 ==> up =~= session.cwd.take(session.cwd.len() - 1));
    said_is_told(SessionView { cwd: up, ..session }, "250 Directory changed"@);
    said_is_told(
        SessionView { cwd: normalized(session.cwd, arg), ..session },
        "250 Directory changed"@,
    );
    said_is_told(session, "550 No such directory"@);
}

/// PASV and EPSV tell where the data connection is listened for: port 20 at the server's
/// address. Without an address there is none.
pub proof fn clients_are_told_the_data_port(
    session: SessionView,
    arg: Seq<char>,
    env: EnvView,
    ip: Ipv4,
)
    requires
        is_ready(session),
    ensures
        env.ip == Some(ip) ==> {
            let pasv = command(session, Verb::Pasv, arg, env);
            let epsv = command(session, Verb::Epsv, arg, env);
            &&& told(
                session,
                pasv.session,
                "227 Entering Passive Mode ("@ + decimal(ip.a as nat) + ","@ + decimal(ip.b as nat)
                    + ","@ + decimal(ip.c as nat) + ","@ + decimal(ip.d as nat) + ","@ + decimal(0)
                    + ","@ + decimal(20) + ")"@,
            )
            &&& told(session, epsv.session, "229 (|||"@ + decimal(20) + "|)"@)
            &&& pasv.session.passive_requested && epsv.session.passive_requested
            &&& pasv.next == DispatchView::AbortData && epsv.next == DispatchView::AbortData
        },
        env.ip is None ==> only_told(
            session,
            command(session, Verb::Pasv, arg, env),
            "425 No IP yet"@,
        ) && only_told(session, command(session, Verb::Epsv, arg, env), "425 No IP yet"@),
{
    reveal(command);
    said_is_told(session, "425 No IP yet"@);
    let listening = SessionView { pending: None, passive_requested: true, ..session };
    said_is_told(listening, crate::ftp::command::passive_text(ip));
    said_is_told(listening, "229 (|||"@ + decimal(20) + "|)"@);
    assert(crate::ftp::command::DATA_PORT / 256 == 0);
    assert(crate::ftp::command::DATA_PORT % 256 == 20);
}

/// What a transfer that is ordered is for.
pub open spec fn ordered(
    before: SessionView,
    step: Dispatched,
    path: Seq<Seq<char>>,
    purpose: Purpose<Seq<char>>,
    now: u64,
) -> bool {
    &&& step.session.pending == Some(PendingView { path, purpose, since: now })
    &&& step.session.out == before.out
    &&& step.session.cwd == before.cwd
    &&& step.next == DispatchView::Done
}

/// RETR and STOR order the file that their argument leads to, once the data connection was
/// asked for: to be read from the restart offset, which counts once, or to be written. An
/// upload cannot be resumed.
pub proof fn files_are_ordered(session: SessionView, arg: Seq<char>, env: EnvView)
    requires
        is_ready(session),
        normalized(session.cwd, arg).len() > 0,
        trimmed(arg).len() > 1 || trimmed(arg).len() == 1 && trimmed(arg)[0] != '.',
    ensures
        ({
            let whole = normalized(session.cwd, arg);
            let dir = whole.take(whole.len() - 1);
            let leaf = whole[whole.len() - 1];
            let retr = command(session, Verb::Retr, arg, env);
            let stor = command(session, Verb::Stor, arg, env);
            &&& session.passive_requested ==> ordered(
                session,
                retr,
                dir,
                Purpose::Retrieve {
                    leaf,
                    offset: match session.rest {
                        Some(offset) => offset,
                        None => 0,
                    },
                },
                env.now,
            ) && retr.session.rest is None
            &&& session.passive_requested && session.rest is None ==> ordered(
                session,
                stor,
                dir,
                Purpose::Store(leaf),
                env.now,
            )
            &&& session.passive_requested && session.rest is Some ==> stor.session.pending is None
                && stor.session.rest is None && told(
                session,
                stor.session,
                "504 Cannot resume uploads"@,
            )
            &&& !session.passive_requested ==> only_told(
                session,
                retr,
                "425 Use PASV or EPSV first"@,
            ) && only_told(session, stor, "425 Use PASV or EPSV first"@)
        }),
{
    reveal(command);
    argument_names_an_entry(session.cwd, arg);
    let whole = normalized(session.cwd, arg);
    assert(whole.drop_last() =~= whole.take(whole.len() - 1));
    assert(trimmed(arg) != seq!['.']) by {
        if trimmed(arg).len() == 1 {
            assert(seq!['.'][0] == '.');
        } else {
            assert(seq!['.'].len() == 1);
        }
    }
    said_is_told(session, "425 Use PASV or EPSV first"@);
    said_is_told(SessionView { rest: None, ..session }, "504 Cannot resume uploads"@);
}

/// LIST, NLST and MLSD order a listing of the directory or the file that their argument leads
/// to, each in its own form; LIST and NLST pass over options.
pub proof fn listings_are_ordered(session: SessionView, arg: Seq<char>, env: EnvView)
    requires
        is_ready(session),
        session.passive_requested,
    ensures
        listing_ordered(
            session,
            command(session, Verb::List, arg, env),
            without_options(trimmed(arg)),
            ListKind::List,
            env.now,
        ),
        listing_ordered(
            session,
            command(session, Verb::Nlst, arg, env),
            without_options(trimmed(arg)),
            ListKind::Names,
            env.now,
        ),
        listing_ordered(
            session,
            command(session, Verb::Mlsd, arg, env),
            arg,
            ListKind::Machine,
            env.now,
        ),
{
    reveal(command);
    argument_names_an_entry(session.cwd, arg);
    argument_names_an_entry(session.cwd, without_options(trimmed(arg)));
}

/// A listing that is ordered: of the directory that an argument leads to, or of an entry.
pub open spec fn listing_ordered(
    before: SessionView,
    step: Dispatched,
    arg: Seq<char>,
    form: ListKind,
    now: u64,
) -> bool {
    &&& step.next == DispatchView::Done
    &&& step.session.out == before.out
    &&& step.session.pending matches Some(pending) && {
        &&& pending.since == now
        &&& pending.purpose matches Purpose::List { leaf, kind } && {
            &&& kind == form
            &&& leaf matches Some(name) ==> pending.path.push(name) == normalized(before.cwd, arg)
            &&& leaf is None ==> pending.path == normalized(before.cwd, arg)
        }
    }
}

/// Without PASV or EPSV no listing is ordered.
pub proof fn listings_need_a_connection(session: SessionView, arg: Seq<char>, env: EnvView)
    requires
        is_ready(session),
        !session.passive_requested,
    ensures
        only_told(
            session,
            command(session, Verb::List, arg, env),
            "425 Use PASV or EPSV first"@,
        ),
        only_told(
            session,
            command(session, Verb::Nlst, arg, env),
            "425 Use PASV or EPSV first"@,
        ),
        only_told(
            session,
            command(session, Verb::Mlsd, arg, env),
            "425 Use PASV or EPSV first"@,
        ),
{
    reveal(command);
    said_is_told(session, "425 Use PASV or EPSV first"@);
}

/// REST keeps the number that its argument is for the next download.
pub proof fn restart_is_kept(session: SessionView, arg: Seq<char>, env: EnvView, offset: u64)
    requires
        is_ready(session),
    ensures
        ({
            let step = command(session, Verb::Rest, arg, env);
            &&& crate::text::number_value(arg) == Some(offset as nat) ==> step.session.rest
                == Some(offset) && told(session, step.session, "350 Restart stored"@)
            &&& crate::text::number_value(arg) is None ==> only_told(
                session,
                step,
                "501 Bad offset"@,
            )
        }),
{
    reveal(command);
    said_is_told(SessionView { rest: Some(offset), ..session }, "350 Restart stored"@);
    said_is_told(session, "501 Bad offset"@);
}

/// A task for the card: with this purpose on the entry that an argument leads to.
pub open spec fn sent_to_card(
    before: SessionView,
    step: Dispatched,
    arg: Seq<char>,
    purpose: Purpose<Seq<char>>,
) -> bool {
    &&& step.session == before
    &&& step.actions == Seq::<Action>::empty()
    &&& step.next matches DispatchView::Run(task) && {
        let whole = normalized(before.cwd, arg);
        &&& task.job.stage == JobStage::Root
        &&& task.job.purpose == purpose
        &&& task.job.path == whole.take(whole.len() - 1)
    }
}

/// DELE, RMD, MKD, SIZE, MDTM and MLST are about the entry that their argument leads to: to
/// delete a file, to remove or make a directory, or to look it up. The current directory and
/// those that hold it are not removed.
pub proof fn entries_are_worked_on(session: SessionView, arg: Seq<char>, env: EnvView)
    requires
        is_ready(session),
        normalized(session.cwd, arg).len() > 0,
        trimmed(arg).len() > 1 || trimmed(arg).len() == 1 && trimmed(arg)[0] != '.',
    ensures
        ({
            let whole = normalized(session.cwd, arg);
            let leaf = whole[whole.len() - 1];
            &&& sent_to_card(
                session,
                command(session, Verb::Dele, arg, env),
                arg,
                Purpose::Delete(leaf),
            )
            &&& sent_to_card(
                session,
                command(session, Verb::Mkd, arg, env),
                arg,
                Purpose::MakeDir(leaf),
            )
            &&& sent_to_card(
                session,
                command(session, Verb::Size, arg, env),
                arg,
                Purpose::Inspect(leaf),
            )
            &&& sent_to_card(
                session,
                command(session, Verb::Mdtm, arg, env),
                arg,
                Purpose::Inspect(leaf),
            )
            &&& sent_to_card(
                session,
                command(session, Verb::Mlst, arg, env),
                arg,
                Purpose::Inspect(leaf),
            )
            &&& !covers(session.cwd, whole) ==> sent_to_card(
                session,
                command(session, Verb::Rmd, arg, env),
                arg,
                Purpose::RemoveDir(leaf),
            )
            &&& covers(session.cwd, whole) ==> only_told(
                session,
                command(session, Verb::Rmd, arg, env),
                "550 Cannot remove current directory"@,
            )
        }),
{
    reveal(command);
    argument_names_an_entry(session.cwd, arg);
    let whole = normalized(session.cwd, arg);
    assert(whole.drop_last() =~= whole.take(whole.len() - 1));
    assert(trimmed(arg) != seq!['.']) by {
        if trimmed(arg).len() == 1 {
            assert(seq!['.'][0] == '.');
        } else {
            assert(seq!['.'].len() == 1);
        }
    }
    said_is_told(session, "550 Cannot remove current directory"@);
}

/// A command about an entry needs one: the root and a blank argument name none.
pub proof fn commands_need_a_name(session: SessionView, arg: Seq<char>, env: EnvView)
    requires
        is_ready(session),
        normalized(session.cwd, arg).len() == 0 || trimmed(arg).len() == 0,
    ensures
        only_told(session, command(session, Verb::Retr, arg, env), "501 File name required"@),
        only_told(session, command(session, Verb::Stor, arg, env), "501 File name required"@),
        only_told(session, command(session, Verb::Dele, arg, env), "501 File name required"@),
        only_told(session, command(session, Verb::Rmd, arg, env), "501 Directory name required"@),
        only_told(session, command(session, Verb::Mkd, arg, env), "501 Directory name required"@),
        only_told(
            session,
            command(session, Verb::Size, arg, env),
            "550 No such file or directory"@,
        ),
        only_told(
            session,
            command(session, Verb::Mdtm, arg, env),
            "550 No such file or directory"@,
        ),
{
    reveal(command);
    argument_names_an_entry(session.cwd, arg);
    said_is_told(session, "501 File name required"@);
    said_is_told(session, "501 Directory name required"@);
    said_is_told(session, "550 No such file or directory"@);
}

/// What came of the card's work is what the client is told: done or not, the size or the time
/// of the entry that was found.
pub proof fn work_on_the_card_is_answered(
    session: SessionView,
    arg: Seq<char>,
    env: EnvView,
    result: JobResult,
    local: LocalTime,
)
    requires
        is_ready(session),
        normalized(session.cwd, arg).len() > 0,
        trimmed(arg).len() > 1 || trimmed(arg).len() == 1 && trimmed(arg)[0] != '.',
        !covers(session.cwd, normalized(session.cwd, arg)),
    ensures
        command(session, Verb::Dele, arg, env).next matches DispatchView::Run(task) && told(
            session,
            finished(session, task, result, local).session,
            if result == JobResult::Done(true) {
                "250 Deleted"@
            } else {
                "550 Cannot delete"@
            },
        ),
        command(session, Verb::Rmd, arg, env).next matches DispatchView::Run(task) && told(
            session,
            finished(session, task, result, local).session,
            if result == JobResult::Done(true) {
                "250 Directory removed"@
            } else {
                "550 Not empty or not found"@
            },
        ),
        command(session, Verb::Mkd, arg, env).next matches DispatchView::Run(task) && told(
            session,
            finished(session, task, result, local).session,
            if result == JobResult::Done(true) {
                "257 \"/"@ + joined(normalized(session.cwd, arg), "/"@) + "\" created"@
            } else if is_short_name(
                normalized(session.cwd, arg)[normalized(session.cwd, arg).len() - 1],
            ) {
                "550 Cannot create directory"@
            } else {
                "553 Use 8.3 names for new directories"@
            },
        ),
        command(session, Verb::Size, arg, env).next matches DispatchView::Run(task) && told(
            session,
            finished(session, task, result, local).session,
            match result {
                JobResult::Inspected(Some(entry)) => if entry.directory {
                    "550 Is a directory"@
                } else {
                    "213 "@ + decimal(entry.size as nat)
                },
                _ => "550 No such file or directory"@,
            },
        ),
        command(session, Verb::Mdtm, arg, env).next matches DispatchView::Run(task) && told(
            session,
            finished(session, task, result, local).session,
            match result {
                JobResult::Inspected(Some(entry)) => "213 "@
                    + crate::ftp::listing::timestamp_text(entry.mtime),
                _ => "550 No such file or directory"@,
            },
        ),
{
    entries_are_worked_on(session, arg, env);
    reveal(command);
    argument_names_an_entry(session.cwd, arg);
    let whole = normalized(session.cwd, arg);
    said_is_told(session, "250 Deleted"@);
    said_is_told(session, "550 Cannot delete"@);
    said_is_told(session, "250 Directory removed"@);
    said_is_told(session, "550 Not empty or not found"@);
    said_is_told(session, "257 \"/"@ + joined(whole, "/"@) + "\" created"@);
    said_is_told(session, "550 Cannot create directory"@);
    said_is_told(session, "553 Use 8.3 names for new directories"@);
    said_is_told(session, "550 Is a directory"@);
    said_is_told(session, "550 No such file or directory"@);
    if let JobResult::Inspected(Some(entry)) = result {
        said_is_told(session, "213 "@ + decimal(entry.size as nat));
        said_is_told(session, "213 "@ + crate::ftp::listing::timestamp_text(entry.mtime));
    }
}

/// A transfer whose file or directory is open starts with it, and the client is told so; one
/// that cannot start is refused, and the data connection is torn down.
pub proof fn transfers_start_with_what_was_opened(
    session: SessionView,
    job: JobView,
    file: u32,
    size: u64,
    refusal: Refusal,
    local: LocalTime,
)
    ensures
        ({
            let task = TaskView { errand: Errand::Transfer, job };
            let end = finished(session, task, JobResult::File { file, size }, local);
            let listing = finished(session, task, JobResult::Directory(file), local);
            let refused = finished(session, task, JobResult::Refused(refusal), local);
            &&& job.purpose is Retrieve ==> {
                &&& !end.abort_data && !end.session.passive_requested
                &&& end.session.transfer matches Some(transfer) && transfer.kind == (
                TransferKind::<Seq<u8>>::Retrieve { file }) && !transfer.announced
                    && !transfer.finishing && transfer.failed is None
                &&& told(
                    session,
                    end.session,
                    "150 Sending "@ + decimal(size as nat) + " bytes"@,
                )
            }
            &&& job.purpose matches Purpose::Store(leaf) ==> {
                &&& !end.abort_data && !end.session.passive_requested
                &&& end.session.transfer matches Some(transfer) && transfer.kind == (
                TransferKind::<Seq<u8>>::Store { file }) && !transfer.announced
                    && !transfer.finishing && transfer.failed is None
                &&& told(session, end.session, "150 Ready for "@ + leaf)
            }
            &&& job.purpose matches Purpose::List { kind, .. } ==> {
                &&& !listing.abort_data && !listing.session.passive_requested
                &&& listing.session.transfer matches Some(transfer) && transfer.kind == (
                TransferKind::<Seq<u8>>::List {
                    dir: Some(file),
                    kind,
                    skip: 0,
                    done: false,
                    chunk: Seq::empty(),
                    chunk_sent: 0,
                }) && !transfer.announced && !transfer.finishing && transfer.failed is None
                &&& told(session, listing.session, "150 Listing"@)
            }
            &&& refused.abort_data
            &&& refused.session.transfer is None
            &&& told(
                session,
                refused.session,
                match refusal {
                    Refusal::NotFound => "550 No such file or directory"@,
                    Refusal::IsDirectory => "550 Is a directory"@,
                    Refusal::BadOffset => "550 Bad restart offset"@,
                    Refusal::EmptyName => "501 Empty file name"@,
                    Refusal::BadName => "553 Use 8.3 names (e.g. PHOTO.JPG)"@,
                    Refusal::CannotCreate => "550 Cannot create file"@,
                    Refusal::PathMissing => "550 Path not found"@,
                },
            )
        }),
{
    let none = SessionView { transfer: None, ..session };
    said_is_told(none, crate::ftp::command::refusal_text(refusal));
    let task = TaskView { errand: Errand::Transfer, job };
    let open = JobResult::File { file, size };
    if let Ok((transfer, greeting)) = crate::ftp::command::started(job, open, local) {
        said_is_told(
            SessionView { transfer: Some(transfer), passive_requested: false, ..session },
            greeting,
        );
    }
    if let Ok((transfer, greeting)) = crate::ftp::command::started(
        job,
        JobResult::Directory(file),
        local,
    ) {
        said_is_told(
            SessionView { transfer: Some(transfer), passive_requested: false, ..session },
            greeting,
        );
    }
}

/// Commands that say the same whatever is asked.
pub proof fn plain_commands_answer(session: SessionView, arg: Seq<char>, env: EnvView)
    requires
        is_ready(session),
    ensures
        only_told(session, command(session, Verb::Syst, arg, env), "215 UNIX Type: L8"@),
        only_told(session, command(session, Verb::Noop, arg, env), "200 OK"@),
        only_told(session, command(session, Verb::Opts, arg, env), "200 OK"@),
        only_told(session, command(session, Verb::Mode, arg, env), "200 OK"@),
        only_told(
            session,
            command(session, Verb::Type, arg, env),
            "200 Binary mode (transfer is always 8-bit)"@,
        ),
        only_told(
            session,
            command(session, Verb::Security, arg, env),
            "502 Security not supported"@,
        ),
        only_told(session, command(session, Verb::Port, arg, env), "502 Passive mode only"@),
        only_told(
            session,
            command(session, Verb::Rename, arg, env),
            "502 Rename not supported (8.3)"@,
        ),
        only_told(session, command(session, Verb::Other, arg, env), "502 Not implemented"@),
        only_told(session, command(session, Verb::Abor, arg, env), "502 Not implemented"@),
        only_told(
            session,
            command(session, Verb::Stat, arg, env),
            "211 OK, sent "@ + decimal(env.stats.sent_bytes as nat) + " B, received "@ + decimal(
                env.stats.received_bytes as nat,
            ) + " B"@,
        ),
        ({
            let bye = command(session, Verb::Quit, arg, env);
            bye.session.quit && told(session, bye.session, "221 Bye"@)
        }),
{
    reveal(command);
    reveal_with_fuel(SessionView::said_all, 2);
    assert(seq!["215 UNIX Type: L8"@].drop_last() =~= Seq::<Seq<char>>::empty());
    assert(seq!["200 OK"@].drop_last() =~= Seq::<Seq<char>>::empty());
    assert(seq!["200 Binary mode (transfer is always 8-bit)"@].drop_last() =~= Seq::<
        Seq<char>,
    >::empty());
    assert(seq!["502 Security not supported"@].drop_last() =~= Seq::<Seq<char>>::empty());
    assert(seq!["502 Passive mode only"@].drop_last() =~= Seq::<Seq<char>>::empty());
    assert(seq!["502 Rename not supported (8.3)"@].drop_last() =~= Seq::<Seq<char>>::empty());
    assert(seq!["502 Not implemented"@].drop_last() =~= Seq::<Seq<char>>::empty());
    said_is_told(session, "215 UNIX Type: L8"@);
    said_is_told(session, "200 OK"@);
    said_is_told(session, "200 Binary mode (transfer is always 8-bit)"@);
    said_is_told(session, "502 Security not supported"@);
    said_is_told(session, "502 Passive mode only"@);
    said_is_told(session, "502 Rename not supported (8.3)"@);
    said_is_told(session, "502 Not implemented"@);
    said_is_told(session, "221 Bye"@);
    said_is_told(
        session,
        "211 OK, sent "@ + decimal(env.stats.sent_bytes as nat) + " B, received "@ + decimal(
            env.stats.received_bytes as nat,
        ) + " B"@,
    );
}

/// While data move, ABOR breaks the transfer off, STAT tells what moves, NOOP is answered,
/// and QUIT waits for the end.
pub proof fn busy_clients_are_answered(session: SessionView, arg: Seq<char>, env: EnvView)
    requires
        session.pending is Some || session.transfer is Some,
    ensures
        ({
            let abor = command(session, Verb::Abor, arg, env);
            &&& abor.session.pending is None && abor.session.transfer is None
            &&& abor.next == DispatchView::AbortData
            &&& abor.session.out == session.out + encode_utf8("426 Transfer aborted by ABOR"@)
                + seq![13u8, 10u8] + encode_utf8("226 Abort done"@) + seq![13u8, 10u8]
        }),
        only_told(session, command(session, Verb::Stat, arg, env), "211 "@ + env.activity),
        only_told(session, command(session, Verb::Noop, arg, env), "200 OK"@),
        command(session, Verb::Quit, arg, env).session == (SessionView { quit: true, ..session }),
{
    reveal(command);
    said_is_told(session, "211 "@ + env.activity);
    said_is_told(session, "200 OK"@);
    let abor = command(session, Verb::Abor, arg, env);
    assert(abor.session.out =~= session.out + encode_utf8("426 Transfer aborted by ABOR"@)
        + seq![13u8, 10u8] + encode_utf8("226 Abort done"@) + seq![13u8, 10u8]);
}

// ---------------------------------------------------------------------------
// Lines
// ---------------------------------------------------------------------------

/// A line is a word, in small letters or capitals, and behind the first blank what the command
/// is about, without white space at its ends; a line of one word has nothing there.
pub proof fn lines_are_words_and_arguments(word: Seq<char>, argument: Seq<char>)
    requires
        word.len() > 0,
        forall|i: int| 0 <= i < word.len() ==> !is_space(#[trigger] word[i]),
        argument.len() > 0,
        !is_space(argument[0]),
        !is_space(argument.last()),
    ensures
        command_line(encode_utf8(word)) == (CommandLine::Command {
            verb: verb_of(uppercase(word)),
            arg: Seq::<char>::empty(),
        }),
        command_line(encode_utf8(word + seq![' '] + argument)) == (CommandLine::Command {
            verb: verb_of(uppercase(word)),
            arg: argument,
        }),
        command_line(encode_utf8(word + seq![' ', ' '] + argument)) == (CommandLine::Command {
            verb: verb_of(uppercase(word)),
            arg: argument,
        }),
{
    encode_utf8_valid_utf8(word);
    encode_utf8_decode_utf8(word);
    assert(!is_space(word[0]) && !is_space(word.last()));
    trimming_keeps_what_has_no_space_at_its_ends(word);
    assert(is_space(' '));
    position_is_first(word, ' ');
    trimming_keeps_what_has_no_space_at_its_ends(argument);
    line_is_split(word, argument);
    let spaced = seq![' '] + argument;
    assert(trimmed(spaced) == argument) by {
        trimming_keeps_the_middle(spaced);
        let (from, to) = choose|from: int, to: int|
            0 <= from <= to <= spaced.len() && trimmed(spaced) == #[trigger] spaced.subrange(
                from,
                to,
            ) && (forall|i: int|
                0 <= i < from || to <= i < spaced.len() ==> is_space(#[trigger] spaced[i]));
        assert(spaced[1] == argument[0]);
        assert(spaced[spaced.len() - 1] == argument.last());
        assert(from <= 1) by {
            if from > 1 {
                assert(is_space(spaced[1]));
            }
        }
        assert(to == spaced.len()) by {
            if to < spaced.len() {
                assert(is_space(spaced[spaced.len() - 1]));
            }
        }
        if from == 0 {
            assert(trimmed(spaced)[0] == ' ');
        }
        assert(spaced.subrange(1, spaced.len() as int) =~= argument);
    }
    line_is_split(word, spaced);
    assert(word + seq![' '] + spaced =~= word + seq![' ', ' '] + argument);
}

/// The first blank parts a line.
proof fn line_is_split(word: Seq<char>, rest: Seq<char>)
    requires
        word.len() > 0,
        forall|i: int| 0 <= i < word.len() ==> !is_space(#[trigger] word[i]),
        rest.len() > 0,
        !is_space(rest.last()),
    ensures
        command_line(encode_utf8(word + seq![' '] + rest)) == (CommandLine::Command {
            verb: verb_of(uppercase(word)),
            arg: trimmed(rest),
        }),
{
    let line = word + seq![' '] + rest;
    encode_utf8_valid_utf8(line);
    encode_utf8_decode_utf8(line);
    assert(line[0] == word[0] && line.last() == rest.last());
    trimming_keeps_what_has_no_space_at_its_ends(line);
    position_is_first(line, ' ');
    let at = position(line, ' ');
    assert(is_space(' '));
    assert(line[word.len() as int] == ' ');
    assert(forall|i: int| 0 <= i < word.len() ==> line[i] == word[i]);
    assert(at == word.len());
    assert(line.take(at) =~= word);
    assert(line.skip(at + 1) =~= rest);
}

/// A line that is no text is refused, and a blank one is passed over; neither does anything
/// else.
pub proof fn other_lines_do_nothing(session: SessionView, line: Seq<u8>, env: EnvView)
    ensures
        !valid_utf8(line) ==> {
            let step = dispatched(session, line, env);
            &&& step.session == session.said("500 Bad command encoding"@)
            &&& step.next is Done && step.actions.len() == 0
        },
        command_line(Seq::empty()) is Empty,
        command_line(line) is Empty ==> {
            let step = dispatched(session, line, env);
            step.session == session && step.next is Done && step.actions.len() == 0
        },
{
    let none = Seq::<char>::empty();
    encode_utf8_valid_utf8(none);
    encode_utf8_decode_utf8(none);
    assert(encode_utf8(none) =~= Seq::<u8>::empty());
    assert(trimmed(none) =~= none) by {
        trimming_keeps_the_middle(none);
    }
}

// ---------------------------------------------------------------------------
// Longer answers
// ---------------------------------------------------------------------------

/// The bytes of some lines of a reply.
pub open spec fn lines_sent(lines: Seq<Seq<char>>) -> Seq<u8>
    decreases lines.len(),
{
    if lines.len() == 0 {
        Seq::empty()
    } else {
        encode_utf8(lines[0]) + seq![13u8, 10u8] + lines_sent(lines.skip(1))
    }
}

proof fn lines_are_said(session: SessionView, lines: Seq<Seq<char>>)
    ensures
        session.said_all(lines).out == session.out + lines_sent(lines),
    decreases lines.len(),
{
    if lines.len() == 0 {
        assert(session.out + lines_sent(lines) =~= session.out);
    } else {
        let front = lines.drop_last();
        lines_are_said(session, front);
        last_line_is_sent(lines);
        assert(session.said_all(lines).out =~= session.out + lines_sent(lines));
    }
}

proof fn last_line_is_sent(lines: Seq<Seq<char>>)
    requires
        lines.len() > 0,
    ensures
        lines_sent(lines) == lines_sent(lines.drop_last()) + encode_utf8(lines.last()) + seq![
            13u8,
            10u8,
        ],
    decreases lines.len(),
{
    if lines.len() == 1 {
        assert(lines.skip(1).len() == 0);
        assert(lines_sent(lines.skip(1)) =~= Seq::<u8>::empty());
        assert(lines_sent(lines.drop_last()) =~= Seq::<u8>::empty());
        assert(lines_sent(lines) =~= lines_sent(lines.drop_last()) + encode_utf8(lines.last())
            + seq![13u8, 10u8]);
    } else {
        last_line_is_sent(lines.skip(1));
        assert(lines.skip(1).drop_last() =~= lines.drop_last().skip(1));
        assert(lines_sent(lines) =~= lines_sent(lines.drop_last()) + encode_utf8(lines.last())
            + seq![13u8, 10u8]);
    }
}

/// What the server can do, and the commands that it knows, line by line.
pub proof fn features_and_commands_are_told(session: SessionView, arg: Seq<char>, env: EnvView)
    requires
        is_ready(session),
    ensures
        command(session, Verb::Feat, arg, env).session.out == session.out + lines_sent(
            seq![
                "211-Features:"@,
                " UTF8"@,
                " MLSD"@,
                " MDTM"@,
                " SIZE"@,
                " REST STREAM"@,
                " PASV"@,
                "211 End"@,
            ],
        ),
        command(session, Verb::Help, arg, env).session.out == session.out + lines_sent(
            seq![
                "214-Commands: USER PASS PWD CWD CDUP LIST NLST MLSD MLST"@,
                " RETR STOR DELE RMD MKD SIZE MDTM REST PASV EPSV QUIT"@,
                "214 Uploads need 8.3 names; no rename"@,
            ],
        ),
        command(session, Verb::Feat, arg, env).next is Done,
        command(session, Verb::Help, arg, env).next is Done,
{
    reveal(command);
    lines_are_said(
        session,
        seq![
            "211-Features:"@,
            " UTF8"@,
            " MLSD"@,
            " MDTM"@,
            " SIZE"@,
            " REST STREAM"@,
            " PASV"@,
            "211 End"@,
        ],
    );
    lines_are_said(
        session,
        seq![
            "214-Commands: USER PASS PWD CWD CDUP LIST NLST MLSD MLST"@,
            " RETR STOR DELE RMD MKD SIZE MDTM REST PASV EPSV QUIT"@,
            "214 Uploads need 8.3 names; no rename"@,
        ],
    );
}

/// An entry is described in three lines, with the facts that a machine's listing has; the current
/// directory with the present as its time. What is not there is told.
pub proof fn entries_are_described(
    session: SessionView,
    job: JobView,
    entry: Entry,
    leaf: Seq<char>,
    local: LocalTime,
)
    ensures
        ({
            let task = TaskView { errand: Errand::Describe, job };
            let place = "250- /"@ + joined(job.path, "/"@);
            let found = finished(session, task, JobResult::Inspected(Some(entry)), local);
            let here = finished(session, task, JobResult::Here, local);
            let absent = finished(session, task, JobResult::Inspected(None), local);
            let missing = finished(session, task, JobResult::Missing, local);
            &&& job.purpose == Purpose::Inspect(leaf) ==> found.session.out == session.out
                + lines_sent(
                seq![
                    place,
                    seq![' '] + line_text(ListKind::Machine, entry, leaf, local),
                    "250 End"@,
                ],
            )
            &&& here.session.out == session.out + lines_sent(
                seq![
                    place,
                    " Type=dir;Modify="@ + now_text(local) + "; /"@ + joined(job.path, "/"@),
                    "250 End"@,
                ],
            )
            &&& told(session, absent.session, "550 No such file or directory"@)
            &&& told(session, missing.session, "550 Path not found"@)
        }),
{
    let place = "250- /"@ + joined(job.path, "/"@);
    reveal_strlit(" ");
    reveal_strlit("Type=dir;Modify=");
    reveal_strlit(" Type=dir;Modify=");
    assert(" "@ =~= seq![' ']);
    let facts = line_text(ListKind::Machine, entry, leaf, local);
    three_lines_are_said(session, place, seq![' '] + facts, "250 End"@);
    let now = "Type=dir;Modify="@ + now_text(local) + "; /"@ + joined(job.path, "/"@);
    assert(" "@ + now =~= " Type=dir;Modify="@ + now_text(local) + "; /"@ + joined(
        job.path,
        "/"@,
    ));
    three_lines_are_said(session, place, " "@ + now, "250 End"@);
    said_is_told(session, "550 No such file or directory"@);
    said_is_told(session, "550 Path not found"@);
}

proof fn three_lines_are_said(
    session: SessionView,
    one: Seq<char>,
    two: Seq<char>,
    three: Seq<char>,
)
    ensures
        session.said(one).said(two).said(three).out == session.out + lines_sent(
            seq![one, two, three],
        ),
{
    let lines = seq![one, two, three];
    assert(lines.skip(1) =~= seq![two, three]);
    assert(lines.skip(1).skip(1) =~= seq![three]);
    reveal_with_fuel(lines_sent, 4);
    assert(session.said(one).said(two).said(three).out =~= session.out + lines_sent(lines));
}

/// Transfers go by their command and what it names; one entry alone is listed as one line.
pub proof fn transfers_have_their_topics(
    session: SessionView,
    job: JobView,
    file: u32,
    size: u64,
    entry: Entry,
    local: LocalTime,
)
    ensures
        ({
            let task = TaskView { errand: Errand::Transfer, job };
            let opened = finished(session, task, JobResult::File { file, size }, local).session;
            let listed = finished(session, task, JobResult::Directory(file), local).session;
            let single = finished(session, task, JobResult::Single(entry), local).session;
            &&& job.purpose matches Purpose::Retrieve { leaf, .. } ==> (
            opened.transfer matches Some(transfer) && transfer.topic == "RETR "@ + leaf)
            &&& job.purpose matches Purpose::Store(leaf) ==> (opened.transfer matches Some(transfer)
                && transfer.topic == "STOR "@ + leaf)
            &&& job.purpose is List ==> (listed.transfer matches Some(transfer) && transfer.topic
                == "LIST /"@ + joined(job.path, "/"@))
            &&& job.purpose matches Purpose::List { leaf: Some(leaf), kind } ==> (
            single.transfer matches Some(transfer) && transfer.topic == "LIST /"@ + joined(
                job.path,
                "/"@,
            ) && (transfer.kind matches TransferKind::List { dir, done, chunk, chunk_sent, .. }
                && dir is None && done && chunk_sent == 0 && chunk == encode_utf8(
                line_text(kind, entry, leaf, local),
            ) + seq![13u8, 10u8]))
        }),
{
}

/// A transfer that is aborted lets go of what it held on the card.
pub proof fn aborted_transfers_let_go(
    session: SessionView,
    arg: Seq<char>,
    env: EnvView,
    file: u32,
)
    requires
        session.transfer matches Some(transfer) && (transfer.kind == (TransferKind::<
            Seq<u8>,
        >::Store { file }) || transfer.kind == (TransferKind::<Seq<u8>>::Retrieve { file })),
    ensures
        command(session, Verb::Abor, arg, env).actions == seq![Action::CloseFile(file)],
{
    reveal(command);
}

/// Work on the card that is no transfer changes nothing of a session but its replies and, where
/// the client has gone there, its directory; the data connection stays.
pub proof fn other_work_keeps_the_session(
    session: SessionView,
    task: TaskView,
    result: JobResult,
    local: LocalTime,
)
    requires
        !(task.errand is Transfer),
    ensures
        ({
            let end = finished(session, task, result, local);
            &&& !end.abort_data
            &&& end.session == (SessionView {
                out: end.session.out,
                cwd: end.session.cwd,
                ..session
            })
            &&& task.errand is ChangeDir && result == JobResult::Here ==> end.session.cwd
                == task.job.path
            &&& !(task.errand is ChangeDir && result == JobResult::Here) ==> end.session.cwd
                == session.cwd
        }),
{
}

} // verus!
