//! Work on the card that a command or a transfer orders: the way down a path,
//! then one thing to do in the directory it leads to.
//!
//! A job says what it asks of the card ([`FsJob::query`]) and takes the answer
//! ([`FsJob::resume`]) until it has a result.

use crate::ftp::listing::{Entry, ListKind};
use crate::ftp::name::{is_short_name, short_name_fits};
use crate::text;
use crate::text::texts;
use vstd::multiset::Multiset;
use vstd::prelude::*;
use vstd::string::*;

verus! {

/// Something done to a socket or on the card whose outcome does not matter.
#[derive(Clone, Copy, Debug, PartialEq, Eq, Structural)]
pub enum Action {
    ControlAccept,
    ControlAbort,
    ControlClose,
    DataAccept,
    DataAbort,
    DataClose,
    /// Throw away what the data connection still delivers.
    DataDiscard,
    CloseDir(u32),
    CloseFile(u32),
}

/// A question to the card. Directories and files that are open go by numbers;
/// "found" is the entry that the last [`FsQuery::Find`] came upon.
#[derive(Debug)]
pub enum FsQuery<T> {
    OpenRoot,
    Find { dir: u32, name: T },
    OpenFoundDir { dir: u32 },
    DeleteFound { dir: u32 },
    MakeDir { dir: u32, name: T },
    /// Open the file that was found, to read it or to write it anew.
    OpenFoundFile { dir: u32, anew: bool },
    /// Create a file and open it to write.
    CreateFile { dir: u32, name: T },
    Seek { file: u32, offset: u32 },
}

impl FsQuery<String> {
    /// The question over characters.
    pub open spec fn view(self) -> FsQuery<Seq<char>> {
        match self {
            FsQuery::OpenRoot => FsQuery::OpenRoot,
            FsQuery::Find { dir, name } => FsQuery::Find { dir, name: name@ },
            FsQuery::OpenFoundDir { dir } => FsQuery::OpenFoundDir { dir },
            FsQuery::DeleteFound { dir } => FsQuery::DeleteFound { dir },
            FsQuery::MakeDir { dir, name } => FsQuery::MakeDir { dir, name: name@ },
            FsQuery::OpenFoundFile { dir, anew } => FsQuery::OpenFoundFile { dir, anew },
            FsQuery::CreateFile { dir, name } => FsQuery::CreateFile { dir, name: name@ },
            FsQuery::Seek { file, offset } => FsQuery::Seek { file, offset },
        }
    }
}

/// The card's answer.
#[derive(Clone, Copy, Debug, PartialEq, Eq, Structural)]
pub enum FsReply {
    /// The directory that was opened.
    Dir(Option<u32>),
    /// The entry that was found.
    Entry(Option<Entry>),
    /// The file that was opened.
    File(Option<u32>),
    /// Whether it was done.
    Done(bool),
}

impl FsReply {
    /// The directory that was opened, if this is such an answer.
    pub open spec fn dir(self) -> Option<u32> {
        match self {
            FsReply::Dir(dir) => dir,
            _ => None,
        }
    }

    /// The entry that was found, if this is such an answer.
    pub open spec fn entry(self) -> Option<Entry> {
        match self {
            FsReply::Entry(entry) => entry,
            _ => None,
        }
    }

    /// The file that was opened, if this is such an answer.
    pub open spec fn file(self) -> Option<u32> {
        match self {
            FsReply::File(file) => file,
            _ => None,
        }
    }

    /// Whether it was done.
    pub open spec fn done(self) -> bool {
        self == FsReply::Done(true)
    }

    fn to_dir(self) -> (dir: Option<u32>)
        ensures
            dir == self.dir(),
    {
        match self {
            FsReply::Dir(dir) => dir,
            _ => None,
        }
    }

    fn to_entry(self) -> (entry: Option<Entry>)
        ensures
            entry == self.entry(),
    {
        match self {
            FsReply::Entry(entry) => entry,
            _ => None,
        }
    }

    fn to_file(self) -> (file: Option<u32>)
        ensures
            file == self.file(),
    {
        match self {
            FsReply::File(file) => file,
            _ => None,
        }
    }

    fn to_done(self) -> (done: bool)
        ensures
            done == self.done(),
    {
        match self {
            FsReply::Done(done) => done,
            _ => false,
        }
    }
}

/// What a job is for, in the directory that its path leads to.
#[derive(Debug)]
#[allow(inconsistent_fields)]
pub enum Purpose<T> {
    /// See that the directory is there.
    Visit,
    /// Look up an entry.
    Inspect(T),
    /// Delete a file.
    Delete(T),
    /// Delete an empty directory.
    RemoveDir(T),
    MakeDir(T),
    /// Open a file to read it from an offset on.
    Retrieve { leaf: T, offset: u64 },
    /// Open a file to write it anew.
    Store(T),
    /// Open a directory to list it, or look up a single file.
    List { leaf: Option<T>, kind: ListKind },
}

impl Purpose<String> {
    /// The purpose over characters.
    pub open spec fn view(self) -> Purpose<Seq<char>> {
        match self {
            Purpose::Visit => Purpose::Visit,
            Purpose::Inspect(leaf) => Purpose::Inspect(leaf@),
            Purpose::Delete(leaf) => Purpose::Delete(leaf@),
            Purpose::RemoveDir(leaf) => Purpose::RemoveDir(leaf@),
            Purpose::MakeDir(leaf) => Purpose::MakeDir(leaf@),
            Purpose::Retrieve { leaf, offset } => Purpose::Retrieve { leaf: leaf@, offset },
            Purpose::Store(leaf) => Purpose::Store(leaf@),
            Purpose::List { leaf: Some(leaf), kind } => Purpose::List { leaf: Some(leaf@), kind },
            Purpose::List { leaf: None, kind } => Purpose::List { leaf: None, kind },
        }
    }
}

/// The name that a purpose looks up.
pub open spec fn leaf_of(purpose: Purpose<Seq<char>>) -> Seq<char> {
    match purpose {
        Purpose::Visit => Seq::empty(),
        Purpose::Inspect(leaf) => leaf,
        Purpose::Delete(leaf) => leaf,
        Purpose::RemoveDir(leaf) => leaf,
        Purpose::MakeDir(leaf) => leaf,
        Purpose::Retrieve { leaf, .. } => leaf,
        Purpose::Store(leaf) => leaf,
        Purpose::List { leaf: Some(leaf), .. } => leaf,
        Purpose::List { leaf: None, .. } => Seq::empty(),
    }
}

/// What a job waits for.
#[derive(Clone, Copy, Debug, PartialEq, Eq, Structural)]
pub enum JobStage {
    /// The root directory is being opened.
    Root,
    /// The next component is being looked up in `dir`.
    Walk { dir: u32, depth: usize },
    /// The directory of that name is being opened.
    Enter { dir: u32, depth: usize },
    /// The name is being looked up in the directory that the path leads to.
    Look { dir: u32 },
    /// The entry is being deleted.
    Delete { dir: u32 },
    /// The directory is being made.
    Make { dir: u32 },
    /// The file is being opened: the one found, or a new one.
    Open { dir: u32, create: bool, size: u64 },
    /// The file is being wound forward.
    Seek { dir: u32, file: u32, size: u64 },
    /// The directory to list is being opened.
    Descend { dir: u32 },
}

/// Why a transfer cannot start.
#[derive(Clone, Copy, Debug, PartialEq, Eq, Structural)]
pub enum Refusal {
    NotFound,
    IsDirectory,
    BadOffset,
    EmptyName,
    BadName,
    CannotCreate,
    PathMissing,
}

/// What came of a job.
#[derive(Clone, Copy, Debug, PartialEq, Eq, Structural)]
pub enum JobResult {
    /// The path leads nowhere.
    Missing,
    /// The directory is there.
    Here,
    Inspected(Option<Entry>),
    Done(bool),
    /// A file is open; `size` bytes are to be sent.
    File { file: u32, size: u64 },
    /// A directory is open.
    Directory(u32),
    /// A single file is to be listed.
    Single(Entry),
    Refused(Refusal),
}

/// What follows an answer.
#[derive(Clone, Copy, Debug, PartialEq, Eq, Structural)]
pub enum Outcome {
    Ask(JobStage),
    Finish(JobResult),
}

/// What is done after an answer, and what follows.
#[verifier::ext_equal]
pub struct JobStep {
    pub actions: Seq<Action>,
    pub outcome: Outcome,
}

/// What a job holds.
#[verifier::ext_equal]
pub struct JobView {
    pub path: Seq<Seq<char>>,
    pub purpose: Purpose<Seq<char>>,
    pub stage: JobStage,
}

// ---------------------------------------------------------------------------
// The course of a job
// ---------------------------------------------------------------------------

/// What a job asks.
pub open spec fn job_query(job: JobView) -> FsQuery<Seq<char>> {
    match job.stage {
        JobStage::Root => FsQuery::OpenRoot,
        JobStage::Walk { dir, depth } => FsQuery::Find { dir, name: job.path[depth as int] },
        JobStage::Enter { dir, .. } => FsQuery::OpenFoundDir { dir },
        JobStage::Look { dir } => FsQuery::Find { dir, name: leaf_of(job.purpose) },
        JobStage::Delete { dir } => FsQuery::DeleteFound { dir },
        JobStage::Make { dir } => FsQuery::MakeDir { dir, name: leaf_of(job.purpose) },
        JobStage::Open { dir, create: true, .. } => FsQuery::CreateFile {
            dir,
            name: leaf_of(job.purpose),
        },
        JobStage::Open { dir, create: false, .. } => FsQuery::OpenFoundFile {
            dir,
            anew: job.purpose is Store,
        },
        JobStage::Seek { file, .. } => FsQuery::Seek {
            file,
            offset: match job.purpose {
                Purpose::Retrieve { offset, .. } => offset as u32,
                _ => 0,
            },
        },
        JobStage::Descend { dir } => FsQuery::OpenFoundDir { dir },
    }
}

/// A question is next, with nothing done before.
pub open spec fn ask(stage: JobStage) -> JobStep {
    JobStep { actions: Seq::empty(), outcome: Outcome::Ask(stage) }
}

/// The directory is closed, and the job is over.
pub open spec fn close_with(dir: u32, result: JobResult) -> JobStep {
    JobStep { actions: seq![Action::CloseDir(dir)], outcome: Outcome::Finish(result) }
}

/// The path has led to `dir`.
pub open spec fn arrived(job: JobView, dir: u32) -> JobStep {
    match job.purpose {
        Purpose::Visit => close_with(dir, JobResult::Here),
        Purpose::List { leaf: None, .. } => JobStep {
            actions: Seq::empty(),
            outcome: Outcome::Finish(JobResult::Directory(dir)),
        },
        Purpose::MakeDir(leaf) => if is_short_name(leaf) {
            ask(JobStage::Make { dir })
        } else {
            close_with(dir, JobResult::Done(false))
        },
        Purpose::Store(leaf) => if text::trimmed(leaf).len() == 0 {
            close_with(dir, JobResult::Refused(Refusal::EmptyName))
        } else {
            ask(JobStage::Look { dir })
        },
        _ => ask(JobStage::Look { dir }),
    }
}

/// `dir` is open, `depth` components down the path.
pub open spec fn descended(job: JobView, dir: u32, depth: usize) -> JobStep {
    if depth < job.path.len() {
        ask(JobStage::Walk { dir, depth })
    } else {
        arrived(job, dir)
    }
}

/// The name was looked up in the directory that the path leads to.
pub open spec fn looked_up(
    purpose: Purpose<Seq<char>>,
    dir: u32,
    found: Option<Entry>,
) -> JobStep {
    match purpose {
        Purpose::Delete(_) => match found {
            Some(entry) if !entry.directory => ask(JobStage::Delete { dir }),
            _ => close_with(dir, JobResult::Done(false)),
        },
        Purpose::RemoveDir(_) => match found {
            Some(entry) if entry.directory => ask(JobStage::Delete { dir }),
            _ => close_with(dir, JobResult::Done(false)),
        },
        Purpose::Retrieve { offset, .. } => match found {
            None => close_with(dir, JobResult::Refused(Refusal::NotFound)),
            Some(entry) => if entry.directory {
                close_with(dir, JobResult::Refused(Refusal::IsDirectory))
            } else if offset > entry.size {
                close_with(dir, JobResult::Refused(Refusal::BadOffset))
            } else {
                ask(JobStage::Open { dir, create: false, size: (entry.size - offset) as u64 })
            },
        },
        Purpose::Store(leaf) => match found {
            Some(entry) => if entry.directory {
                close_with(dir, JobResult::Refused(Refusal::IsDirectory))
            } else {
                ask(JobStage::Open { dir, create: false, size: 0 })
            },
            None => if is_short_name(leaf) {
                ask(JobStage::Open { dir, create: true, size: 0 })
            } else {
                close_with(dir, JobResult::Refused(Refusal::BadName))
            },
        },
        Purpose::List { .. } => match found {
            None => close_with(dir, JobResult::Refused(Refusal::PathMissing)),
            Some(entry) => if entry.directory {
                ask(JobStage::Descend { dir })
            } else {
                close_with(dir, JobResult::Single(entry))
            },
        },
        _ => close_with(dir, JobResult::Inspected(found)),
    }
}

/// What is done after the answer to a job's question, and what follows.
pub open spec fn job_next(job: JobView, reply: FsReply) -> JobStep {
    match job.stage {
        JobStage::Root => match reply.dir() {
            Some(dir) => descended(job, dir, 0),
            None => JobStep {
                actions: Seq::empty(),
                outcome: Outcome::Finish(JobResult::Missing),
            },
        },
        JobStage::Walk { dir, depth } => match reply.entry() {
            Some(entry) if entry.directory => ask(JobStage::Enter { dir, depth }),
            _ => close_with(dir, JobResult::Missing),
        },
        JobStage::Enter { dir, depth } => match reply.dir() {
            Some(next) => {
                let step = descended(job, next, (depth + 1) as usize);
                JobStep { actions: seq![Action::CloseDir(dir)] + step.actions, ..step }
            },
            None => close_with(dir, JobResult::Missing),
        },
        JobStage::Look { dir } => looked_up(job.purpose, dir, reply.entry()),
        JobStage::Delete { dir } | JobStage::Make { dir } => close_with(
            dir,
            JobResult::Done(reply.done()),
        ),
        JobStage::Open { dir, size, .. } => match (reply.file(), job.purpose) {
            (Some(file), Purpose::Retrieve { offset, .. }) => if offset > 0 {
                ask(JobStage::Seek { dir, file, size })
            } else {
                close_with(dir, JobResult::File { file, size })
            },
            (Some(file), _) => close_with(dir, JobResult::File { file, size }),
            (None, Purpose::Store(_)) => close_with(
                dir,
                JobResult::Refused(Refusal::CannotCreate),
            ),
            (None, _) => close_with(dir, JobResult::Refused(Refusal::NotFound)),
        },
        JobStage::Seek { dir, file, size } => if reply.done() {
            close_with(dir, JobResult::File { file, size })
        } else {
            JobStep {
                actions: seq![Action::CloseFile(file), Action::CloseDir(dir)],
                outcome: Outcome::Finish(JobResult::Refused(Refusal::BadOffset)),
            }
        },
        JobStage::Descend { dir } => match reply.dir() {
            Some(inner) => close_with(dir, JobResult::Directory(inner)),
            None => close_with(dir, JobResult::Refused(Refusal::NotFound)),
        },
    }
}

/// A job under way.
pub struct FsJob {
    pub path: Vec<String>,
    pub purpose: Purpose<String>,
    pub stage: JobStage,
}

impl View for FsJob {
    type V = JobView;

    open spec fn view(&self) -> JobView {
        JobView { path: texts(self.path@), purpose: self.purpose.view(), stage: self.stage }
    }
}

impl JobView {
    /// A job never looks for a component beyond its path, and a file that it
    /// opens reaches to the offset.
    pub open spec fn wf(self) -> bool {
        match self.stage {
            JobStage::Walk { depth, .. } | JobStage::Enter { depth, .. } => depth
                < self.path.len(),
            JobStage::Open { .. } | JobStage::Seek { .. } => self.purpose matches Purpose::Retrieve {
                offset,
                ..
            } ==> offset <= u32::MAX,
            _ => true,
        }
    }
}

impl FsJob {
    pub fn new(path: Vec<String>, purpose: Purpose<String>) -> (job: Self)
        ensures
            job@ == (JobView {
                path: texts(path@),
                purpose: purpose.view(),
                stage: JobStage::Root,
            }),
    {
        FsJob { path, purpose, stage: JobStage::Root }
    }

    fn leaf(&self) -> (leaf: String)
        ensures
            leaf@ == leaf_of(self@.purpose),
    {
        match &self.purpose {
            Purpose::Visit => String::new(),
            Purpose::Inspect(leaf) => leaf.clone(),
            Purpose::Delete(leaf) => leaf.clone(),
            Purpose::RemoveDir(leaf) => leaf.clone(),
            Purpose::MakeDir(leaf) => leaf.clone(),
            Purpose::Retrieve { leaf, .. } => leaf.clone(),
            Purpose::Store(leaf) => leaf.clone(),
            Purpose::List { leaf: Some(leaf), .. } => leaf.clone(),
            Purpose::List { leaf: None, .. } => String::new(),
        }
    }

    /// What the job asks of the card.
    pub fn query(&self) -> (query: FsQuery<String>)
        requires
            self@.wf(),
        ensures
            query.view() == job_query(self@),
    {
        match self.stage {
            JobStage::Root => FsQuery::OpenRoot,
            JobStage::Walk { dir, depth } => FsQuery::Find { dir, name: self.path[depth].clone() },
            JobStage::Enter { dir, .. } => FsQuery::OpenFoundDir { dir },
            JobStage::Look { dir } => FsQuery::Find { dir, name: self.leaf() },
            JobStage::Delete { dir } => FsQuery::DeleteFound { dir },
            JobStage::Make { dir } => FsQuery::MakeDir { dir, name: self.leaf() },
            JobStage::Open { dir, create, .. } => if create {
                FsQuery::CreateFile { dir, name: self.leaf() }
            } else {
                let anew = match &self.purpose {
                    Purpose::Store(_) => true,
                    _ => false,
                };
                FsQuery::OpenFoundFile { dir, anew }
            },
            JobStage::Seek { file, .. } => {
                let offset: u32 = match &self.purpose {
                    Purpose::Retrieve { offset, .. } => *offset as u32,
                    _ => 0,
                };
                FsQuery::Seek { file, offset }
            },
            JobStage::Descend { dir } => FsQuery::OpenFoundDir { dir },
        }
    }

    fn arrive(&self, dir: u32, actions: &mut Vec<Action>) -> (outcome: Outcome)
        ensures
            final(actions)@ == old(actions)@ + arrived(self@, dir).actions,
            outcome == arrived(self@, dir).outcome,
    {
        match &self.purpose {
            Purpose::Visit => {
                actions.push(Action::CloseDir(dir));
                Outcome::Finish(JobResult::Here)
            },
            Purpose::List { leaf: None, .. } => Outcome::Finish(JobResult::Directory(dir)),
            Purpose::MakeDir(leaf) => if short_name_fits(leaf.as_str()) {
                Outcome::Ask(JobStage::Make { dir })
            } else {
                actions.push(Action::CloseDir(dir));
                Outcome::Finish(JobResult::Done(false))
            },
            Purpose::Store(leaf) => {
                let bare = text::trim(leaf.as_str());
                if bare.as_str().unicode_len() == 0 {
                    actions.push(Action::CloseDir(dir));
                    Outcome::Finish(JobResult::Refused(Refusal::EmptyName))
                } else {
                    Outcome::Ask(JobStage::Look { dir })
                }
            },
            _ => Outcome::Ask(JobStage::Look { dir }),
        }
    }

    fn descend(&self, dir: u32, depth: usize, actions: &mut Vec<Action>) -> (outcome: Outcome)
        ensures
            final(actions)@ == old(actions)@ + descended(self@, dir, depth).actions,
            outcome == descended(self@, dir, depth).outcome,
    {
        if depth < self.path.len() {
            Outcome::Ask(JobStage::Walk { dir, depth })
        } else {
            self.arrive(dir, actions)
        }
    }

    fn look_up(&self, dir: u32, found: Option<Entry>, actions: &mut Vec<Action>) -> (outcome:
        Outcome)
        ensures
            final(actions)@ == old(actions)@ + looked_up(self@.purpose, dir, found).actions,
            outcome == looked_up(self@.purpose, dir, found).outcome,
    {
        let outcome = match &self.purpose {
            Purpose::Delete(_) => match found {
                Some(entry) if !entry.directory => Outcome::Ask(JobStage::Delete { dir }),
                _ => Outcome::Finish(JobResult::Done(false)),
            },
            Purpose::RemoveDir(_) => match found {
                Some(entry) if entry.directory => Outcome::Ask(JobStage::Delete { dir }),
                _ => Outcome::Finish(JobResult::Done(false)),
            },
            Purpose::Retrieve { offset, .. } => match found {
                None => Outcome::Finish(JobResult::Refused(Refusal::NotFound)),
                Some(entry) => if entry.directory {
                    Outcome::Finish(JobResult::Refused(Refusal::IsDirectory))
                } else if *offset > entry.size as u64 {
                    Outcome::Finish(JobResult::Refused(Refusal::BadOffset))
                } else {
                    Outcome::Ask(
                        JobStage::Open { dir, create: false, size: entry.size as u64 - *offset },
                    )
                },
            },
            Purpose::Store(leaf) => match found {
                Some(entry) => if entry.directory {
                    Outcome::Finish(JobResult::Refused(Refusal::IsDirectory))
                } else {
                    Outcome::Ask(JobStage::Open { dir, create: false, size: 0 })
                },
                None => if short_name_fits(leaf.as_str()) {
                    Outcome::Ask(JobStage::Open { dir, create: true, size: 0 })
                } else {
                    Outcome::Finish(JobResult::Refused(Refusal::BadName))
                },
            },
            Purpose::List { .. } => match found {
                None => Outcome::Finish(JobResult::Refused(Refusal::PathMissing)),
                Some(entry) => if entry.directory {
                    Outcome::Ask(JobStage::Descend { dir })
                } else {
                    Outcome::Finish(JobResult::Single(entry))
                },
            },
            _ => Outcome::Finish(JobResult::Inspected(found)),
        };
        if let Outcome::Finish(_) = outcome {
            actions.push(Action::CloseDir(dir));
        }
        outcome
    }

    /// Takes the card's answer: appends what is to be done next, and gives the
    /// result once there is one.
    pub fn resume(&mut self, reply: FsReply, actions: &mut Vec<Action>) -> (result: Option<
        JobResult,
    >)
        requires
            old(self)@.wf(),
        ensures
            final(self)@.wf(),
            final(self)@.path == old(self)@.path,
            final(self)@.purpose == old(self)@.purpose,
            final(actions)@ == old(actions)@ + job_next(old(self)@, reply).actions,
            match job_next(old(self)@, reply).outcome {
                Outcome::Ask(stage) => result is None && final(self)@.stage == stage,
                Outcome::Finish(end) => result == Some(end) && final(self)@.stage
                    == old(self)@.stage,
            },
    {
        let outcome = match self.stage {
            JobStage::Root => match reply.to_dir() {
                Some(dir) => self.descend(dir, 0, actions),
                None => Outcome::Finish(JobResult::Missing),
            },
            JobStage::Walk { dir, depth } => match reply.to_entry() {
                Some(entry) if entry.directory => Outcome::Ask(JobStage::Enter { dir, depth }),
                _ => {
                    actions.push(Action::CloseDir(dir));
                    Outcome::Finish(JobResult::Missing)
                },
            },
            JobStage::Enter { dir, depth } => {
                actions.push(Action::CloseDir(dir));
                let components: usize = self.path.len();
                assert(depth < components);
                match reply.to_dir() {
                    Some(next) => self.descend(next, depth + 1, actions),
                    None => Outcome::Finish(JobResult::Missing),
                }
            },
            JobStage::Look { dir } => self.look_up(dir, reply.to_entry(), actions),
            JobStage::Delete { dir } | JobStage::Make { dir } => {
                actions.push(Action::CloseDir(dir));
                Outcome::Finish(JobResult::Done(reply.to_done()))
            },
            JobStage::Open { dir, size, .. } => match (reply.to_file(), &self.purpose) {
                (Some(file), Purpose::Retrieve { offset, .. }) => if *offset > 0 {
                    Outcome::Ask(JobStage::Seek { dir, file, size })
                } else {
                    actions.push(Action::CloseDir(dir));
                    Outcome::Finish(JobResult::File { file, size })
                },
                (Some(file), _) => {
                    actions.push(Action::CloseDir(dir));
                    Outcome::Finish(JobResult::File { file, size })
                },
                (None, Purpose::Store(_)) => {
                    actions.push(Action::CloseDir(dir));
                    Outcome::Finish(JobResult::Refused(Refusal::CannotCreate))
                },
                (None, _) => {
                    actions.push(Action::CloseDir(dir));
                    Outcome::Finish(JobResult::Refused(Refusal::NotFound))
                },
            },
            JobStage::Seek { dir, file, size } => if reply.to_done() {
                actions.push(Action::CloseDir(dir));
                Outcome::Finish(JobResult::File { file, size })
            } else {
                actions.push(Action::CloseFile(file));
                actions.push(Action::CloseDir(dir));
                Outcome::Finish(JobResult::Refused(Refusal::BadOffset))
            },
            JobStage::Descend { dir } => {
                actions.push(Action::CloseDir(dir));
                match reply.to_dir() {
                    Some(inner) => Outcome::Finish(JobResult::Directory(inner)),
                    None => Outcome::Finish(JobResult::Refused(Refusal::NotFound)),
                }
            },
        };
        match outcome {
            Outcome::Ask(stage) => {
                self.stage = stage;
                None
            },
            Outcome::Finish(result) => Some(result),
        }
    }
}

// ---------------------------------------------------------------------------
// Laws of jobs
// ---------------------------------------------------------------------------

/// Something open on the card.
pub enum Handle {
    Dir(u32),
    File(u32),
}

/// What a job keeps open while it waits.
pub open spec fn held(stage: JobStage) -> Multiset<Handle> {
    match stage {
        JobStage::Root => Multiset::empty(),
        JobStage::Walk { dir, .. }
        | JobStage::Enter { dir, .. }
        | JobStage::Look { dir }
        | JobStage::Delete { dir }
        | JobStage::Make { dir }
        | JobStage::Open { dir, .. }
        | JobStage::Descend { dir } => Multiset::singleton(Handle::Dir(dir)),
        JobStage::Seek { dir, file, .. } => Multiset::singleton(Handle::Dir(dir)).insert(
            Handle::File(file),
        ),
    }
}

/// What an answer opened.
pub open spec fn opened(stage: JobStage, reply: FsReply) -> Multiset<Handle> {
    match stage {
        JobStage::Root | JobStage::Enter { .. } | JobStage::Descend { .. } => match reply.dir() {
            Some(dir) => Multiset::singleton(Handle::Dir(dir)),
            None => Multiset::empty(),
        },
        JobStage::Open { .. } => match reply.file() {
            Some(file) => Multiset::singleton(Handle::File(file)),
            None => Multiset::empty(),
        },
        _ => Multiset::empty(),
    }
}

/// What actions close.
pub open spec fn closed(actions: Seq<Action>) -> Multiset<Handle>
    decreases actions.len(),
{
    if actions.len() == 0 {
        Multiset::empty()
    } else {
        let before = closed(actions.drop_last());
        match actions.last() {
            Action::CloseDir(dir) => before.insert(Handle::Dir(dir)),
            Action::CloseFile(file) => before.insert(Handle::File(file)),
            _ => before,
        }
    }
}

/// What is open when a job waits again or is over: its result may be an open
/// file or directory.
pub open spec fn kept_open(outcome: Outcome) -> Multiset<Handle> {
    match outcome {
        Outcome::Ask(stage) => held(stage),
        Outcome::Finish(JobResult::File { file, .. }) => Multiset::singleton(Handle::File(file)),
        Outcome::Finish(JobResult::Directory(dir)) => Multiset::singleton(Handle::Dir(dir)),
        Outcome::Finish(_) => Multiset::empty(),
    }
}

/// No directory and no file gets lost: what was open before an answer and what
/// the answer opened is either closed or still held.
pub proof fn job_loses_no_handle(job: JobView, reply: FsReply)
    ensures
        held(job.stage).add(opened(job.stage, reply)) == kept_open(
            job_next(job, reply).outcome,
        ).add(closed(job_next(job, reply).actions)),
{
    let step = job_next(job, reply);
    reveal_with_fuel(closed, 3);
    if step.actions.len() == 1 {
        assert(step.actions.drop_last() =~= Seq::empty());
    } else if step.actions.len() == 2 {
        assert(step.actions.drop_last().drop_last() =~= Seq::empty());
    }
    assert(held(job.stage).add(opened(job.stage, reply)) =~= kept_open(step.outcome).add(
        closed(step.actions),
    ));
}

/// How many more answers a job can wait for.
pub open spec fn questions_left(job: JobView) -> int {
    match job.stage {
        JobStage::Root => 2 * (job.path.len() as int) + 4,
        JobStage::Walk { depth, .. } => 2 * (job.path.len() - depth) + 3,
        JobStage::Enter { depth, .. } => 2 * (job.path.len() - depth) + 2,
        JobStage::Look { .. } => 3,
        JobStage::Open { .. } => 2,
        JobStage::Delete { .. }
        | JobStage::Make { .. }
        | JobStage::Seek { .. }
        | JobStage::Descend { .. } => 1,
    }
}

/// Every job comes to an end, whatever the card answers.
pub proof fn job_ends(job: JobView, reply: FsReply)
    requires
        job.wf(),
        job.path.len() <= usize::MAX,
    ensures
        job_next(job, reply).outcome matches Outcome::Ask(stage) ==> 0 <= questions_left(
            (JobView { stage, ..job }),
        ) < questions_left(job),
{
}

/// A question whose answer leaves the card changed.
pub open spec fn changes_the_card(query: FsQuery<Seq<char>>) -> bool {
    match query {
        FsQuery::DeleteFound { .. } | FsQuery::MakeDir { .. } | FsQuery::CreateFile { .. } => true,
        FsQuery::OpenFoundFile { anew, .. } => anew,
        _ => false,
    }
}

/// A stage that a purpose can come to.
pub open spec fn reachable(job: JobView) -> bool {
    match job.stage {
        JobStage::Delete { .. } => job.purpose is Delete || job.purpose is RemoveDir,
        JobStage::Make { .. } => job.purpose is MakeDir,
        JobStage::Open { create, .. } => job.purpose is Store || (job.purpose is Retrieve && !create),
        JobStage::Seek { .. } => job.purpose is Retrieve,
        JobStage::Descend { .. } => job.purpose is List,
        _ => true,
    }
}

/// Jobs come only to stages that their purpose leads to, and stay well-formed.
pub proof fn job_stays_reachable(job: JobView, reply: FsReply)
    requires
        reachable(job),
        job.wf(),
    ensures
        job_next(job, reply).outcome matches Outcome::Ask(stage) ==> reachable(
            (JobView { stage, ..job }),
        ) && (JobView { stage, ..job }).wf(),
{
}

/// Looking up, downloading and listing never change the card.
pub proof fn reading_changes_nothing(job: JobView)
    requires
        reachable(job),
        job.purpose is Visit || job.purpose is Inspect || job.purpose is Retrieve
            || job.purpose is List,
    ensures
        !changes_the_card(job_query(job)),
{
}

} // verus!
