//! Directory entries: looking one up and listing them.

use crate::clock::{calendar, date_time, year_of_seconds};
use crate::storage::{local_now_seconds, format_stamp, stamp_text, LocalTime};
use crate::text;
use vstd::prelude::*;
use vstd::string::*;
use vstd::utf8::*;

verus! {

/// Directory listings are sent in runs of this size to keep memory use flat.
pub const LIST_CHUNK_TARGET: usize = 3072;

/// The form of a listing.
#[derive(Clone, Copy, Debug, PartialEq, Eq, Structural)]
pub enum ListKind {
    /// Like `ls -l`.
    List,
    /// Names only.
    Names,
    /// Facts for programs.
    Machine,
}

impl Default for ListKind {
    fn default() -> (kind: Self)
        ensures
            kind == ListKind::List,
    {
        ListKind::List
    }
}

/// The time stamp of a directory entry.
#[derive(Clone, Copy, Debug, PartialEq, Eq, Structural)]
pub struct Timestamp {
    pub year_since_1970: u8,
    pub zero_indexed_month: u8,
    pub zero_indexed_day: u8,
    pub hours: u8,
    pub minutes: u8,
    pub seconds: u8,
}

/// What the server needs to know of a directory entry.
#[derive(Clone, Copy, Debug, PartialEq, Eq, Structural)]
pub struct Entry {
    pub directory: bool,
    pub size: u32,
    pub mtime: Timestamp,
}

/// A directory entry as it comes up when a directory is read.
pub struct DirItem {
    /// The entry is the label of the volume.
    pub volume: bool,
    pub entry: Entry,
    pub short: String,
    pub long: Option<String>,
}

/// What a [`DirItem`] holds.
pub struct ItemView {
    pub volume: bool,
    pub entry: Entry,
    pub short: Seq<char>,
    pub long: Option<Seq<char>>,
}

impl View for DirItem {
    type V = ItemView;

    open spec fn view(&self) -> ItemView {
        ItemView {
            volume: self.volume,
            entry: self.entry,
            short: self.short@,
            long: match self.long {
                Some(long) => Some(long@),
                None => None,
            },
        }
    }
}

// ---------------------------------------------------------------------------
// Looking up a name
// ---------------------------------------------------------------------------

/// Whether an entry goes by a name, long or short, in any case.
pub open spec fn goes_by(item: ItemView, name: Seq<char>) -> bool {
    &&& !item.volume
    &&& text::same_ignoring_case(item.short, name) || (item.long matches Some(long)
        && text::same_ignoring_case(long, name))
}

/// The first entry of a directory that goes by a name.
pub open spec fn first_match(items: Seq<ItemView>, name: Seq<char>) -> Option<Entry>
    decreases items.len(),
{
    if items.len() == 0 {
        None
    } else if goes_by(items[0], name) {
        Some(items[0].entry)
    } else {
        first_match(items.skip(1), name)
    }
}

/// The lookup of a name in a directory that is being read.
pub struct EntrySearch {
    pub name: String,
    pub found: Option<Entry>,
}

/// What is found after one more entry.
pub open spec fn search_next(found: Option<Entry>, item: ItemView, name: Seq<char>) -> Option<
    Entry,
> {
    if found is None && goes_by(item, name) {
        Some(item.entry)
    } else {
        found
    }
}

/// What is found after all entries.
pub open spec fn search_all(
    found: Option<Entry>,
    items: Seq<ItemView>,
    name: Seq<char>,
) -> Option<Entry>
    decreases items.len(),
{
    if items.len() == 0 {
        found
    } else {
        search_all(search_next(found, items[0], name), items.skip(1), name)
    }
}

impl EntrySearch {
    pub fn new(name: &str) -> (search: Self)
        ensures
            search.name@ == name@,
            search.found is None,
    {
        EntrySearch { name: name.to_owned(), found: None }
    }

    /// Looks at one entry; `true` when the directory need not be read further.
    pub fn visit(&mut self, item: &DirItem) -> (stop: bool)
        ensures
            final(self).name == old(self).name,
            final(self).found == search_next(old(self).found, item@, old(self).name@),
            stop == (old(self).found is None && final(self).found is Some),
    {
        if self.found.is_some() || item.volume {
            return false;
        }
        let matches_short = text::eq_ignoring_case(item.short.as_str(), self.name.as_str());
        let matches_long = match &item.long {
            Some(long) => text::eq_ignoring_case(long.as_str(), self.name.as_str()),
            None => false,
        };
        if matches_short || matches_long {
            self.found = Some(item.entry);
            true
        } else {
            false
        }
    }
}

/// Looking at the entries of a directory one after another finds the first that
/// goes by the name, and what was found is never replaced.
pub proof fn search_finds_the_first(found: Option<Entry>, items: Seq<ItemView>, name: Seq<char>)
    ensures
        search_all(found, items, name) == match found {
            Some(entry) => Some(entry),
            None => first_match(items, name),
        },
    decreases items.len(),
{
    if items.len() > 0 {
        search_finds_the_first(search_next(found, items[0], name), items.skip(1), name);
    }
}

// ---------------------------------------------------------------------------
// Listing lines
// ---------------------------------------------------------------------------

/// A time stamp as `YYYYMMDDHHMMSS`.
pub open spec fn timestamp_text(time: Timestamp) -> Seq<char> {
    stamp_text(
        (time.year_since_1970 + 1970) as nat,
        (time.zero_indexed_month + 1) as nat,
        (time.zero_indexed_day + 1) as nat,
        time.hours as nat,
        time.minutes as nat,
        time.seconds as nat,
    )
}

/// A time stamp as `YYYYMMDDHHMMSS`.
pub fn timestamp_ymdhms(time: Timestamp) -> (out: String)
    ensures
        out@ == timestamp_text(time),
{
    format_stamp(
        time.year_since_1970 as u64 + 1970,
        time.zero_indexed_month as u64 + 1,
        time.zero_indexed_day as u64 + 1,
        time.hours as u64,
        time.minutes as u64,
        time.seconds as u64,
    )
}

/// The English abbreviation of a month; everything past November is December.
pub open spec fn month_text(zero_indexed_month: u8) -> Seq<char> {
    match zero_indexed_month {
        0 => "Jan"@,
        1 => "Feb"@,
        2 => "Mar"@,
        3 => "Apr"@,
        4 => "May"@,
        5 => "Jun"@,
        6 => "Jul"@,
        7 => "Aug"@,
        8 => "Sep"@,
        9 => "Oct"@,
        10 => "Nov"@,
        _ => "Dec"@,
    }
}

fn month_name(zero_indexed_month: u8) -> (name: &'static str)
    ensures
        name@ == month_text(zero_indexed_month),
{
    match zero_indexed_month {
        0 => "Jan",
        1 => "Feb",
        2 => "Mar",
        3 => "Apr",
        4 => "May",
        5 => "Jun",
        6 => "Jul",
        7 => "Aug",
        8 => "Sep",
        9 => "Oct",
        10 => "Nov",
        _ => "Dec",
    }
}

/// The time column: the time of day of a file from this year, else its year.
pub open spec fn when_text(time: Timestamp, local: LocalTime) -> Seq<char> {
    let year = time.year_since_1970 + 1970;
    let this_year = match local.now() {
        Some(now) => calendar(now).year == year,
        None => false,
    };
    if this_year {
        text::zero_padded(time.hours as nat, 2) + ":"@ + text::zero_padded(time.minutes as nat, 2)
    } else {
        text::padded(text::decimal(year as nat), 5, ' ')
    }
}

fn when_column(time: Timestamp, local: &LocalTime) -> (out: String)
    ensures
        out@ == when_text(time, *local),
{
    let year: u64 = time.year_since_1970 as u64 + 1970;
    let this_year = match local_now_seconds(local) {
        Some(now) => {
            let current = date_time(now);
            proof {
                year_of_seconds(current);
            }
            current.year == year as i64
        },
        None => false,
    };
    if this_year {
        let mut out = text::zero_pad(time.hours as u64, 2);
        out.append(":");
        let minutes = text::zero_pad(time.minutes as u64, 2);
        out.append(minutes.as_str());
        out
    } else {
        let digits = text::decimal_text(year);
        text::pad(digits.as_str(), 5, ' ')
    }
}

/// One line of a listing.
pub open spec fn line_text(
    kind: ListKind,
    entry: Entry,
    name: Seq<char>,
    local: LocalTime,
) -> Seq<char> {
    match kind {
        ListKind::Names => name,
        ListKind::Machine => (if entry.directory {
            "Type=dir;"@
        } else {
            "Type=file;Size="@ + text::decimal(entry.size as nat) + ";"@
        }) + "Modify="@ + timestamp_text(entry.mtime) + "; "@ + name,
        ListKind::List => (if entry.directory {
            "drwxr-xr-x"@
        } else {
            "-rw-r--r--"@
        }) + " 1 rat rat "@ + text::padded(text::decimal(entry.size as nat), 13, ' ') + " "@
            + month_text(entry.mtime.zero_indexed_month) + " "@ + text::padded(
            text::decimal((entry.mtime.zero_indexed_day + 1) as nat),
            2,
            ' ',
        ) + " "@ + when_text(entry.mtime, local) + " "@ + name,
    }
}

/// Formats one line of a listing; the time column follows the convention of BSD
/// `ls`.
pub fn listing_line(kind: ListKind, entry: &Entry, name: &str, local: &LocalTime) -> (line: String)
    ensures
        line@ == line_text(kind, *entry, name@, *local),
{
    match kind {
        ListKind::Names => name.to_owned(),
        ListKind::Machine => {
            let mut line = String::new();
            if entry.directory {
                line.append("Type=dir;");
                assert(line@ =~= "Type=dir;"@);
            } else {
                line.append("Type=file;Size=");
                let size = text::decimal_text(entry.size as u64);
                line.append(size.as_str());
                line.append(";");
                assert(line@ =~= "Type=file;Size="@ + text::decimal(entry.size as nat) + ";"@);
            }
            line.append("Modify=");
            let stamp = timestamp_ymdhms(entry.mtime);
            line.append(stamp.as_str());
            line.append("; ");
            line.append(name);
            line
        },
        ListKind::List => {
            let mut line = (if entry.directory {
                "drwxr-xr-x"
            } else {
                "-rw-r--r--"
            }).to_owned();
            line.append(" 1 rat rat ");
            let size = text::decimal_text(entry.size as u64);
            let size_column = text::pad(size.as_str(), 13, ' ');
            line.append(size_column.as_str());
            line.append(" ");
            line.append(month_name(entry.mtime.zero_indexed_month));
            line.append(" ");
            let day = text::decimal_text(entry.mtime.zero_indexed_day as u64 + 1);
            let day_column = text::pad(day.as_str(), 2, ' ');
            line.append(day_column.as_str());
            line.append(" ");
            let when = when_column(entry.mtime, local);
            line.append(when.as_str());
            line.append(" ");
            line.append(name);
            line
        },
    }
}

// ---------------------------------------------------------------------------
// Runs of a listing
// ---------------------------------------------------------------------------

/// Entries that a listing speaks of: all but the volume label, the directory
/// itself and its parent.
pub open spec fn is_listed(item: ItemView) -> bool {
    !item.volume && item.short != seq!['.'] && item.short != seq!['.', '.']
}

/// The name that a listing gives an entry.
pub open spec fn listed_name(item: ItemView) -> Seq<char> {
    match item.long {
        Some(long) => long,
        None => item.short,
    }
}

/// A name that would break the lines of a listing.
pub open spec fn breaks_lines(name: Seq<char>) -> bool {
    name.contains('\r') || name.contains('\n')
}

/// The bytes of one line of a listing, with its end.
#[verifier::opaque]
pub open spec fn line_bytes(kind: ListKind, local: LocalTime, item: ItemView) -> Seq<u8> {
    encode_utf8(line_text(kind, item.entry, listed_name(item), local)) + seq![13u8, 10u8]
}

/// How far a run of a listing has come.
#[verifier::ext_equal]
pub struct FillView {
    /// Entries still to be passed over.
    pub skip: int,
    /// Entries consumed.
    pub produced: int,
    /// Their lines; an entry whose name would break them has none.
    pub chunk: Seq<u8>,
}

/// A run after one more entry, and whether the run ends there.
pub open spec fn fill_next(
    fill: FillView,
    kind: ListKind,
    local: LocalTime,
    item: ItemView,
) -> (FillView, bool) {
    if !is_listed(item) {
        (fill, false)
    } else if fill.skip > 0 {
        (FillView { skip: fill.skip - 1, ..fill }, false)
    } else if breaks_lines(listed_name(item)) {
        (FillView { produced: fill.produced + 1, ..fill }, false)
    } else {
        let line = line_bytes(kind, local, item);
        if fill.chunk.len() + line.len() > LIST_CHUNK_TARGET && fill.produced > 0 {
            (fill, true)
        } else {
            (FillView { produced: fill.produced + 1, chunk: fill.chunk + line, ..fill }, false)
        }
    }
}

/// A run over the entries of a directory.
pub open spec fn fill_all(
    fill: FillView,
    kind: ListKind,
    local: LocalTime,
    items: Seq<ItemView>,
) -> FillView
    decreases items.len(),
{
    if items.len() == 0 {
        fill
    } else {
        let (next, stop) = fill_next(fill, kind, local, items[0]);
        if stop {
            next
        } else {
            fill_all(next, kind, local, items.skip(1))
        }
    }
}

/// A run of a listing that is being put together.
pub struct ListingFill {
    pub kind: ListKind,
    pub local: LocalTime,
    pub skip: usize,
    pub produced: usize,
    pub chunk: Vec<u8>,
}

impl View for ListingFill {
    type V = FillView;

    open spec fn view(&self) -> FillView {
        FillView { skip: self.skip as int, produced: self.produced as int, chunk: self.chunk@ }
    }
}

impl ListingFill {
    /// A run that passes over the first `skip` entries.
    pub fn new(kind: ListKind, skip: usize, local: LocalTime) -> (fill: Self)
        ensures
            fill.kind == kind,
            fill.local == local,
            fill@ == (FillView { skip: skip as int, produced: 0, chunk: Seq::empty() }),
    {
        ListingFill { kind, local, skip, produced: 0, chunk: Vec::new() }
    }

    /// Consumes one entry; `true` when the run is full and the entry was left for
    /// the next. The count of entries must have room for one more.
    pub fn visit(&mut self, item: &DirItem) -> (stop: bool)
        requires
            old(self).produced < usize::MAX,
        ensures
            final(self).kind == old(self).kind,
            final(self).local == old(self).local,
            (final(self)@, stop) == fill_next(old(self)@, old(self).kind, old(self).local, item@),
    {
        if item.volume {
            return false;
        }
        let short = text::chars_of(item.short.as_str());
        assert(short@ =~= item@.short);
        let dots = (short.len() == 1 && short[0] == '.') || (short.len() == 2 && short[0] == '.'
            && short[1] == '.');
        assert(dots == !is_listed(item@)) by {
            if short@.len() == 1 && short@[0] == '.' {
                assert(short@ =~= seq!['.']);
            }
            if short@.len() == 2 && short@[0] == '.' && short@[1] == '.' {
                assert(short@ =~= seq!['.', '.']);
            }
        }
        if dots {
            return false;
        }
        if self.skip > 0 {
            self.skip -= 1;
            return false;
        }
        let name = match &item.long {
            Some(long) => long.clone(),
            None => item.short.clone(),
        };
        let chars = text::chars_of(name.as_str());
        let carriage: usize = text::find_char(chars.as_slice(), '\r');
        let feed: usize = text::find_char(chars.as_slice(), '\n');
        proof {
            text::position_is_first(chars@, '\r');
            text::position_is_first(chars@, '\n');
        }
        if carriage < chars.len() || feed < chars.len() {
            self.produced += 1;
            return false;
        }
        let line = listing_line(self.kind, &item.entry, name.as_str(), &self.local);
        proof {
            reveal(line_bytes);
        }
        let bytes = line.as_str().as_bytes();
        let full = if self.chunk.len() > LIST_CHUNK_TARGET || bytes.len() > LIST_CHUNK_TARGET {
            true
        } else {
            bytes.len() + 2 > LIST_CHUNK_TARGET - self.chunk.len()
        };
        if full && self.produced > 0 {
            return true;
        }
        let ghost before = self.chunk@;
        self.chunk.extend_from_slice(bytes);
        self.chunk.push(13);
        self.chunk.push(10);
        assert(self.chunk@ =~= before + line_bytes(self.kind, self.local, item@));
        self.produced += 1;
        false
    }
}

// ---------------------------------------------------------------------------
// Laws of listings
// ---------------------------------------------------------------------------

/// The entries that a listing speaks of, in the order of the directory.
pub open spec fn listed(items: Seq<ItemView>) -> Seq<ItemView>
    decreases items.len(),
{
    if items.len() == 0 {
        Seq::empty()
    } else if is_listed(items[0]) {
        seq![items[0]] + listed(items.skip(1))
    } else {
        listed(items.skip(1))
    }
}

/// What a listing says of an entry: its line, or nothing where its name would
/// break the lines.
pub open spec fn entry_lines(kind: ListKind, local: LocalTime, item: ItemView) -> Seq<u8> {
    if breaks_lines(listed_name(item)) {
        Seq::empty()
    } else {
        line_bytes(kind, local, item)
    }
}

/// The lines of entries, one after another.
pub open spec fn lines(kind: ListKind, local: LocalTime, items: Seq<ItemView>) -> Seq<u8>
    decreases items.len(),
{
    if items.len() == 0 {
        Seq::empty()
    } else {
        entry_lines(kind, local, items[0]) + lines(kind, local, items.skip(1))
    }
}

/// The run of a listing that passes over the first `skip` entries.
pub open spec fn run(kind: ListKind, local: LocalTime, items: Seq<ItemView>, skip: nat) -> FillView {
    fill_all(
        FillView { skip: skip as int, produced: 0, chunk: Seq::empty() },
        kind,
        local,
        items,
    )
}

/// All runs of a listing, each passing over what the ones before it took, up to
/// the first that takes nothing.
pub open spec fn all_runs(
    kind: ListKind,
    local: LocalTime,
    items: Seq<ItemView>,
    skip: nat,
) -> Seq<u8>
    decreases
            if skip <= listed(items).len() {
                listed(items).len() - skip
            } else {
                0
            },
{
    let fill = run(kind, local, items, skip);
    if skip >= listed(items).len() || fill.produced <= 0 {
        Seq::empty()
    } else {
        fill.chunk + all_runs(kind, local, items, (skip + fill.produced) as nat)
    }
}

proof fn fill_takes_the_next(
    fill: FillView,
    kind: ListKind,
    local: LocalTime,
    items: Seq<ItemView>,
)
    requires
        fill.skip >= 0,
        fill.produced >= 0,
    ensures
        ({
            let end = fill_all(fill, kind, local, items);
            let taken = end.produced - fill.produced;
            &&& fill.skip >= listed(items).len() ==> taken == 0 && end.chunk == fill.chunk
            &&& fill.skip < listed(items).len() ==> {
                &&& 0 <= taken <= listed(items).len() - fill.skip
                &&& fill.produced == 0 ==> taken > 0
                &&& end.chunk == fill.chunk + lines(
                    kind,
                    local,
                    listed(items).subrange(fill.skip, fill.skip + taken),
                )
            }
        }),
    decreases items.len(),
{
    let entries = listed(items);
    if items.len() > 0 {
        let (next, stop) = fill_next(fill, kind, local, items[0]);
        let rest = items.skip(1);
        let end = fill_all(fill, kind, local, items);
        let taken = end.produced - fill.produced;
        if stop {
            assert(entries.subrange(fill.skip, fill.skip) =~= Seq::empty());
            assert(end.chunk =~= fill.chunk + lines(kind, local, Seq::empty()));
        } else {
            fill_takes_the_next(next, kind, local, rest);
            let later = listed(rest);
            if is_listed(items[0]) {
                assert(entries =~= seq![items[0]] + later);
                if fill.skip > 0 {
                    if fill.skip < entries.len() {
                        assert(entries.subrange(fill.skip, fill.skip + taken) =~= later.subrange(
                            fill.skip - 1,
                            fill.skip - 1 + taken,
                        ));
                    }
                } else {
                    let part = entries.subrange(0, taken);
                    assert(part[0] == items[0]);
                    if later.len() > 0 {
                        assert(part.skip(1) =~= later.subrange(0, taken - 1));
                    } else {
                        assert(part.skip(1) =~= Seq::empty());
                    }
                    assert(lines(kind, local, part) == entry_lines(kind, local, items[0]) + lines(
                        kind,
                        local,
                        part.skip(1),
                    ));
                    assert(lines(kind, local, Seq::<ItemView>::empty()) =~= Seq::<u8>::empty());
                    assert(end.chunk =~= next.chunk + lines(kind, local, part.skip(1)));
                    assert(end.chunk =~= fill.chunk + lines(kind, local, part));
                }
            }
        }
    }
}

proof fn lines_join(kind: ListKind, local: LocalTime, front: Seq<ItemView>, back: Seq<ItemView>)
    ensures
        lines(kind, local, front + back) == lines(kind, local, front) + lines(kind, local, back),
    decreases front.len(),
{
    if front.len() == 0 {
        assert(front + back =~= back);
        assert(lines(kind, local, front) + lines(kind, local, back) =~= lines(kind, local, back));
    } else {
        assert((front + back).skip(1) =~= front.skip(1) + back);
        lines_join(kind, local, front.skip(1), back);
        assert(lines(kind, local, front + back) =~= lines(kind, local, front) + lines(
            kind,
            local,
            back,
        ));
    }
}

proof fn fill_stays_short(fill: FillView, kind: ListKind, local: LocalTime, items: Seq<ItemView>)
    requires
        fill.skip >= 0,
        fill.produced >= 0,
    ensures
        ({
            let end = fill_all(fill, kind, local, items);
            &&& fill.produced > 0 ==> end.chunk.len() <= LIST_CHUNK_TARGET || end.chunk
                == fill.chunk
            &&& fill.produced == 0 && fill.chunk.len() == 0 ==> {
                ||| end.chunk.len() <= LIST_CHUNK_TARGET
                ||| fill.skip < listed(items).len() && end.chunk == line_bytes(
                    kind,
                    local,
                    listed(items)[fill.skip],
                )
            }
        }),
    decreases items.len(),
{
    if items.len() > 0 {
        let (next, stop) = fill_next(fill, kind, local, items[0]);
        if !stop {
            fill_stays_short(next, kind, local, items.skip(1));
            if fill.chunk.len() == 0 {
                assert(fill.chunk + line_bytes(kind, local, items[0]) =~= line_bytes(
                    kind,
                    local,
                    items[0],
                ));
            }
        }
    }
}

/// A run consumes the entries that come next, and consumes none only where none is
/// left. It holds no more bytes than a run should, unless it holds just the line
/// of the first entry.
pub proof fn run_takes_the_next(
    kind: ListKind,
    local: LocalTime,
    items: Seq<ItemView>,
    skip: nat,
)
    ensures
        ({
            let fill = run(kind, local, items, skip);
            &&& fill.produced == 0 <==> skip >= listed(items).len()
            &&& skip >= listed(items).len() ==> fill.chunk == Seq::<u8>::empty()
            &&& skip < listed(items).len() ==> {
                &&& 0 < fill.produced <= listed(items).len() - skip
                &&& fill.chunk == lines(
                    kind,
                    local,
                    listed(items).subrange(skip as int, skip + fill.produced),
                )
                &&& fill.chunk.len() <= LIST_CHUNK_TARGET || fill.chunk == line_bytes(
                    kind,
                    local,
                    listed(items)[skip as int],
                )
            }
        }),
{
    let start = FillView { skip: skip as int, produced: 0, chunk: Seq::<u8>::empty() };
    fill_takes_the_next(start, kind, local, items);
    fill_stays_short(start, kind, local, items);
    let fill = run(kind, local, items, skip);
    if skip < listed(items).len() {
        assert(fill.chunk =~= lines(
            kind,
            local,
            listed(items).subrange(skip as int, skip + fill.produced),
        ));
    }
}

/// The runs of a listing together list every entry once, in the order of the
/// directory, but for those whose names would break the lines.
pub proof fn listing_is_complete(
    kind: ListKind,
    local: LocalTime,
    items: Seq<ItemView>,
    skip: nat,
)
    requires
        skip <= listed(items).len(),
    ensures
        all_runs(kind, local, items, skip) == lines(kind, local, listed(items).skip(skip as int)),
    decreases listed(items).len() - skip,
{
    let entries = listed(items);
    let fill = run(kind, local, items, skip);
    run_takes_the_next(kind, local, items, skip);
    if skip < entries.len() {
        let next = (skip + fill.produced) as nat;
        listing_is_complete(kind, local, items, next);
        let front = entries.subrange(skip as int, next as int);
        assert(entries.skip(skip as int) =~= front + entries.skip(next as int));
        lines_join(kind, local, front, entries.skip(next as int));
    } else {
        assert(entries.skip(skip as int) =~= Seq::empty());
    }
}

// ---------------------------------------------------------------------------
// Laws of names and lines
// ---------------------------------------------------------------------------

/// The month column is the three letters of the month in the row of all twelve.
pub proof fn months_have_their_names(month: u8)
    ensures
        ({
            let at = if month < 11 {
                month as int
            } else {
                11int
            };
            month_text(month) == "JanFebMarAprMayJunJulAugSepOctNovDec"@.subrange(
                3 * at,
                3 * at + 3,
            )
        }),
{
    reveal_strlit("JanFebMarAprMayJunJulAugSepOctNovDec");
    reveal_strlit("Jan");
    reveal_strlit("Feb");
    reveal_strlit("Mar");
    reveal_strlit("Apr");
    reveal_strlit("May");
    reveal_strlit("Jun");
    reveal_strlit("Jul");
    reveal_strlit("Aug");
    reveal_strlit("Sep");
    reveal_strlit("Oct");
    reveal_strlit("Nov");
    reveal_strlit("Dec");
}

/// The stamp of an entry gives its year, and its month and day counted from one.
pub proof fn entry_stamps_read_back(time: Timestamp)
    requires
        time.zero_indexed_month < 99,
        time.zero_indexed_day < 99,
        time.hours < 100,
        time.minutes < 100,
        time.seconds < 100,
    ensures
        ({
            let out = timestamp_text(time);
            &&& out.len() == 14
            &&& text::number_value(out.subrange(0, 4)) == Some((1970 + time.year_since_1970) as nat)
            &&& text::number_value(out.subrange(4, 6)) == Some((time.zero_indexed_month + 1) as nat)
            &&& text::number_value(out.subrange(6, 8)) == Some((time.zero_indexed_day + 1) as nat)
            &&& text::number_value(out.subrange(8, 10)) == Some(time.hours as nat)
            &&& text::number_value(out.subrange(10, 12)) == Some(time.minutes as nat)
            &&& text::number_value(out.subrange(12, 14)) == Some(time.seconds as nat)
        }),
{
    crate::storage::stamps_read_back(
        (time.year_since_1970 + 1970) as nat,
        (time.zero_indexed_month + 1) as nat,
        (time.zero_indexed_day + 1) as nat,
        time.hours as nat,
        time.minutes as nat,
        time.seconds as nat,
    );
}

/// The time column has five characters: hours and minutes about a colon for what was written in
/// the year that it is now, and a blank and the year for all else.
pub proof fn times_have_their_column(time: Timestamp, local: LocalTime)
    requires
        time.hours < 100,
        time.minutes < 100,
    ensures
        ({
            let out = when_text(time, local);
            let this_year = local.now() matches Some(now) && calendar(now).year == 1970
                + time.year_since_1970;
            &&& out.len() == 5
            &&& this_year ==> text::number_value(out.subrange(0, 2)) == Some(time.hours as nat)
                && out[2] == ':' && text::number_value(out.subrange(3, 5)) == Some(
                time.minutes as nat,
            )
            &&& !this_year ==> out[0] == ' ' && text::number_value(out.subrange(1, 5)) == Some(
                (1970 + time.year_since_1970) as nat,
            )
        }),
{
    let out = when_text(time, local);
    let hours = text::zero_padded(time.hours as nat, 2);
    let minutes = text::zero_padded(time.minutes as nat, 2);
    text::zero_padding_keeps_the_number(time.hours as nat, 2);
    text::zero_padding_keeps_the_number(time.minutes as nat, 2);
    reveal_strlit(":");
    let year = (1970 + time.year_since_1970) as nat;
    text::numbers_read_back(year);
    reveal_with_fuel(text::decimal, 5);
    assert(text::decimal(year).len() == 4);
    let this_year = local.now() matches Some(now) && calendar(now).year == 1970
        + time.year_since_1970;
    if this_year {
        assert(out.subrange(0, 2) =~= hours);
        assert(out.subrange(3, 5) =~= minutes);
    } else {
        assert(out.subrange(1, 5) =~= text::decimal(year));
    }
}

/// The columns of a long line: what the entry is and who may use it, its size right-aligned in
/// thirteen, its month, its day right-aligned in two, its time, and its name.
pub proof fn long_lines_have_their_columns(entry: Entry, name: Seq<char>, local: LocalTime)
    requires
        entry.mtime.zero_indexed_day < 99,
        entry.mtime.hours < 100,
        entry.mtime.minutes < 100,
    ensures
        ({
            let line = line_text(ListKind::List, entry, name, local);
            let size = text::decimal(entry.size as nat);
            let day = text::decimal((entry.mtime.zero_indexed_day + 1) as nat);
            &&& line.len() == 48 + name.len()
            &&& line[0] == if entry.directory {
                'd'
            } else {
                '-'
            }
            &&& entry.directory ==> line.subrange(1, 10) == "rwxr-xr-x"@
            &&& !entry.directory ==> line.subrange(1, 10) == "rw-r--r--"@
            &&& line.subrange(10, 21) == " 1 rat rat "@
            &&& line.subrange(34 - size.len(), 34) == size
            &&& forall|i: int| 21 <= i < 34 - size.len() ==> #[trigger] line[i] == ' '
            &&& line[34] == ' '
            &&& line.subrange(35, 38) == month_text(entry.mtime.zero_indexed_month)
            &&& line[38] == ' '
            &&& line.subrange(41 - day.len(), 41) == day
            &&& day.len() == 1 ==> line[39] == ' '
            &&& line[41] == ' '
            &&& line.subrange(42, 47) == when_text(entry.mtime, local)
            &&& line[47] == ' '
            &&& line.skip(48) == name
        }),
{
    let line = line_text(ListKind::List, entry, name, local);
    let size = text::decimal(entry.size as nat);
    let day = text::decimal((entry.mtime.zero_indexed_day + 1) as nat);
    times_have_their_column(entry.mtime, local);
    months_have_their_names(entry.mtime.zero_indexed_month);
    reveal_strlit("drwxr-xr-x");
    reveal_strlit("-rw-r--r--");
    reveal_strlit("rwxr-xr-x");
    reveal_strlit("rw-r--r--");
    reveal_strlit(" 1 rat rat ");
    reveal_strlit(" ");
    reveal_strlit("JanFebMarAprMayJunJulAugSepOctNovDec");
    assert(size.len() <= 10) by {
        reveal_with_fuel(text::decimal, 11);
    }
    assert(1 <= day.len() <= 2) by {
        reveal_with_fuel(text::decimal, 3);
    }
    assert(line.len() == 48 + name.len());
    assert(line.subrange(1, 10) =~= if entry.directory {
        "rwxr-xr-x"@
    } else {
        "rw-r--r--"@
    });
    assert(line.subrange(10, 21) =~= " 1 rat rat "@);
    assert(line.subrange(34 - size.len(), 34) =~= size);
    assert(line.subrange(35, 38) =~= month_text(entry.mtime.zero_indexed_month));
    assert(line.subrange(41 - day.len(), 41) =~= day);
    assert(line.subrange(42, 47) =~= when_text(entry.mtime, local));
    assert(line.skip(48) =~= name);
}

/// The facts of a machine's line: what the entry is, the size of a file, its stamp, and behind
/// a blank its name. A line of names is the name alone.
pub proof fn machine_lines_have_their_facts(entry: Entry, name: Seq<char>, local: LocalTime)
    ensures
        line_text(ListKind::Names, entry, name, local) == name,
        entry.directory ==> line_text(ListKind::Machine, entry, name, local)
            == "Type=dir;Modify="@ + timestamp_text(entry.mtime) + seq![';', ' '] + name,
        !entry.directory ==> line_text(ListKind::Machine, entry, name, local)
            == "Type=file;Size="@ + text::decimal(entry.size as nat) + ";Modify="@
            + timestamp_text(entry.mtime) + seq![';', ' '] + name,
{
    reveal_strlit("Type=dir;");
    reveal_strlit("Type=dir;Modify=");
    reveal_strlit("Type=file;Size=");
    reveal_strlit(";");
    reveal_strlit("Modify=");
    reveal_strlit(";Modify=");
    reveal_strlit("; ");
    let line = line_text(ListKind::Machine, entry, name, local);
    if entry.directory {
        assert(line =~= "Type=dir;Modify="@ + timestamp_text(entry.mtime) + seq![';', ' '] + name);
    } else {
        assert(line =~= "Type=file;Size="@ + text::decimal(entry.size as nat) + ";Modify="@
            + timestamp_text(entry.mtime) + seq![';', ' '] + name);
    }
}

/// The entries that a listing speaks of, and the name that it gives them: the long one where
/// there is one. Neither the label of the volume nor the two dots are listed.
pub proof fn listed_entries_have_their_names(item: ItemView, long: Seq<char>)
    ensures
        is_listed(item) <==> !item.volume && item.short != "."@ && item.short != ".."@,
        item.long == Some(long) ==> listed_name(item) == long,
        item.long is None ==> listed_name(item) == item.short,
{
    reveal_strlit(".");
    reveal_strlit("..");
    assert("."@ =~= seq!['.']);
    assert(".."@ =~= seq!['.', '.']);
}

/// A lookup finds an entry by its short name or by its long one, in small letters or capitals,
/// and passes over all entries before it that have another name. It never finds the volume label.
pub proof fn lookups_find_the_name(items: Seq<ItemView>, name: Seq<char>, at: int)
    requires
        0 <= at < items.len(),
        !items[at].volume,
        text::uppercase(items[at].short) == text::uppercase(name) || (items[at].long matches Some(long)
            && text::uppercase(long) == text::uppercase(name)),
        forall|i: int|
            #![trigger items[i]]
            0 <= i < at ==> items[i].volume || (text::uppercase(items[i].short) != text::uppercase(
                name,
            ) && (items[i].long matches Some(long) ==> text::uppercase(long) != text::uppercase(name))),
    ensures
        search_all(None, items, name) == Some(items[at].entry),
    decreases at,
{
    search_finds_the_first(None, items, name);
    if at > 0 {
        assert(items.skip(1)[at - 1] == items[at]);
        assert forall|i: int| #![trigger items.skip(1)[i]] 0 <= i < at - 1 implies items.skip(
            1,
        )[i].volume || (text::uppercase(items.skip(1)[i].short) != text::uppercase(name) && (
        items.skip(1)[i].long matches Some(long) ==> text::uppercase(long) != text::uppercase(
            name,
        ))) by {
            assert(items.skip(1)[i] == items[i + 1]);
        }
        lookups_find_the_name(items.skip(1), name, at - 1);
        search_finds_the_first(None, items.skip(1), name);
        assert(items[0].volume || !goes_by(items[0], name));
    }
}

/// A run tells one entry after another, up to 3072 bytes and at least one: what was told before
/// is passed over, what is not listed is left out, and a name that would break the lines is
/// counted without a line.
pub proof fn runs_are_put_together(
    fill: FillView,
    kind: ListKind,
    local: LocalTime,
    item: ItemView,
)
    ensures
        !is_listed(item) ==> fill_next(fill, kind, local, item) == (fill, false),
        is_listed(item) && fill.skip > 0 ==> fill_next(fill, kind, local, item) == (
            FillView { skip: fill.skip - 1, produced: fill.produced, chunk: fill.chunk },
            false,
        ),
        is_listed(item) && fill.skip <= 0 ==> {
            let name = listed_name(item);
            let line = encode_utf8(line_text(kind, item.entry, name, local)) + seq![13u8, 10u8];
            let broken = exists|i: int|
                0 <= i < name.len() && (#[trigger] name[i] == '\r' || name[i] == '\n');
            let (after, full) = fill_next(fill, kind, local, item);
            &&& broken ==> after.produced == fill.produced + 1 && after.chunk == fill.chunk && !full
            &&& !broken && (fill.produced == 0 || fill.chunk.len() + line.len() <= 3_072)
                ==> after.produced == fill.produced + 1 && after.chunk == fill.chunk + line && !full
            &&& !broken && fill.produced > 0 && fill.chunk.len() + line.len() > 3_072 ==> after
                == fill && full
        },
{
    reveal(line_bytes);
    let name = listed_name(item);
    if name.contains('\r') {
        let i = choose|i: int| 0 <= i < name.len() && name[i] == '\r';
        assert(name[i] == '\r');
    }
    if name.contains('\n') {
        let i = choose|i: int| 0 <= i < name.len() && name[i] == '\n';
        assert(name[i] == '\n');
    }
}

} // verus!
