use ratputer::ftp::command::{parse_command_line, CommandLine, Verb};
use ratputer::ftp::job::{Action, FsJob, FsQuery, FsReply, JobResult, Purpose, Refusal};
use ratputer::ftp::listing::{
    listing_line, timestamp_ymdhms, DirItem, Entry, EntrySearch, ListKind, ListingFill, Timestamp,
    LIST_CHUNK_TARGET,
};
use ratputer::ftp::path::{
    need_leaf, normalize, path_covers_cwd, split_path, strip_list_options,
};
use ratputer::storage::LocalTime;

fn path(parts: &[&str]) -> Vec<String> {
    parts.iter().map(|part| String::from(*part)).collect()
}

const STAMP: Timestamp = Timestamp {
    year_since_1970: 54,
    zero_indexed_month: 1,
    zero_indexed_day: 28,
    hours: 12,
    minutes: 34,
    seconds: 56,
};

fn file(size: u32) -> Entry {
    Entry { directory: false, size, mtime: STAMP }
}

fn folder() -> Entry {
    Entry { directory: true, size: 0, mtime: STAMP }
}

fn item(short: &str, long: Option<&str>, entry: Entry) -> DirItem {
    DirItem {
        volume: false,
        entry,
        short: String::from(short),
        long: long.map(String::from),
    }
}

#[test]
fn paths_are_normalized() {
    let cwd = path(&["a", "b"]);
    assert_eq!(normalize(&cwd, "c"), path(&["a", "b", "c"]));
    assert_eq!(normalize(&cwd, "/c//d/."), path(&["c", "d"]));
    assert_eq!(normalize(&cwd, "../x"), path(&["a", "x"]));
    assert_eq!(normalize(&cwd, "../../../.."), path(&[]));
    assert_eq!(normalize(&cwd, " \"c d\" "), path(&["a", "b", "c d"]));
    assert_eq!(normalize(&cwd, "c\\d"), path(&["a", "b", "c", "d"]));
    assert_eq!(normalize(&cwd, ""), cwd);
    assert_eq!(normalize(&path(&["z"]), "/c"), normalize(&cwd, "/c"));
}

#[test]
fn paths_are_split() {
    let cwd = path(&["a"]);
    assert_eq!(split_path(&cwd, "b/c"), (path(&["a", "b"]), Some(String::from("c"))));
    assert_eq!(split_path(&cwd, "/"), (path(&[]), None));
    assert_eq!(need_leaf(&cwd, "/"), None);
    assert_eq!(need_leaf(&cwd, "b"), Some((path(&["a"]), String::from("b"))));
    assert_eq!(strip_list_options("-la  dir"), "dir");
    assert_eq!(strip_list_options(" -a -l "), "");
    assert_eq!(strip_list_options("dir -x"), "dir -x");
    assert!(path_covers_cwd(&path(&["A", "b"]), &path(&["a"])));
    assert!(path_covers_cwd(&cwd, &cwd));
    assert!(!path_covers_cwd(&cwd, &path(&["a", "b"])));
    assert!(!path_covers_cwd(&cwd, &path(&["b"])));
}

#[test]
fn command_lines_are_parsed() {
    match parse_command_line(b" retr  some file ") {
        CommandLine::Command { verb, arg } => {
            assert_eq!((verb, arg.as_str()), (Verb::Retr, "some file"));
        }
        _ => panic!("no command"),
    }
    assert!(matches!(parse_command_line(b"   "), CommandLine::Empty));
    assert!(matches!(parse_command_line(&[b'a', 0xc0]), CommandLine::BadEncoding));
    assert!(matches!(
        parse_command_line(b"XYZZY"),
        CommandLine::Command { verb: Verb::Other, .. }
    ));
}

#[test]
fn entries_are_found_by_both_names() {
    let items = [
        DirItem { volume: true, ..item("RATPUTER", None, file(0)) },
        item("LONGNA~1.TXT", Some("Long name.txt"), file(7)),
        item("B", None, folder()),
        item("LONG", Some("b"), file(9)),
    ];
    let find = |name: &str| {
        let mut search = EntrySearch::new(name);
        for item in &items {
            if search.visit(item) {
                break;
            }
        }
        search.found.map(|entry| (entry.directory, entry.size))
    };
    assert_eq!(find("ratputer"), None);
    assert_eq!(find("long NAME.TXT"), Some((false, 7)));
    assert_eq!(find("longna~1.txt"), Some((false, 7)));
    assert_eq!(find("b"), Some((true, 0)));
    assert_eq!(find("c"), None);
}

#[test]
fn listing_lines() {
    let now = LocalTime { seconds: 1_709_210_096 };
    let never = LocalTime { seconds: 0 };
    let later = LocalTime { seconds: 1_740_000_000 };
    assert_eq!(timestamp_ymdhms(STAMP), "20240229123456");
    assert_eq!(listing_line(ListKind::Names, &file(5), "a b", &now), "a b");
    assert_eq!(
        listing_line(ListKind::Machine, &file(5), "a", &now),
        "Type=file;Size=5;Modify=20240229123456; a"
    );
    assert_eq!(
        listing_line(ListKind::Machine, &folder(), "d", &now),
        "Type=dir;Modify=20240229123456; d"
    );
    assert_eq!(
        listing_line(ListKind::List, &file(1234), "a", &now),
        "-rw-r--r-- 1 rat rat          1234 Feb 29 12:34 a"
    );
    assert_eq!(
        listing_line(ListKind::List, &folder(), "d", &never),
        "drwxr-xr-x 1 rat rat             0 Feb 29  2024 d"
    );
    assert_eq!(
        listing_line(ListKind::List, &file(1), "a", &later),
        "-rw-r--r-- 1 rat rat             1 Feb 29  2024 a"
    );
    let odd = Entry {
        mtime: Timestamp { zero_indexed_month: 200, zero_indexed_day: 255, ..STAMP },
        ..file(0)
    };
    assert_eq!(
        listing_line(ListKind::List, &odd, "a", &never),
        "-rw-r--r-- 1 rat rat             0 Dec 256  2024 a"
    );
}

#[test]
fn listings_come_in_runs() {
    let now = LocalTime { seconds: 0 };
    let mut items = vec![
        item(".", None, folder()),
        item("..", None, folder()),
        DirItem { volume: true, ..item("VOL", None, file(0)) },
    ];
    for i in 0..100 {
        items.push(item("SHORT", Some(&format!("{i:03}-{}", "x".repeat(80))), file(i)));
    }
    let mut all = Vec::new();
    let mut skip = 0;
    let mut runs = 0;
    loop {
        let mut fill = ListingFill::new(ListKind::Names, skip, now);
        for item in &items {
            if fill.visit(item) {
                break;
            }
        }
        assert!(fill.chunk.len() <= LIST_CHUNK_TARGET);
        if fill.produced == 0 {
            break;
        }
        skip += fill.produced;
        all.extend_from_slice(&fill.chunk);
        runs += 1;
    }
    assert_eq!((skip, runs), (100, 3));
    let wanted: String = (0..100).map(|i| format!("{i:03}-{}\r\n", "x".repeat(80))).collect();
    assert_eq!(String::from_utf8(all).unwrap(), wanted);
}

#[test]
fn names_that_break_lines_are_left_out() {
    let mut fill = ListingFill::new(ListKind::Names, 0, LocalTime { seconds: 0 });
    fill.visit(&item("A", Some("bad\rname"), file(1)));
    fill.visit(&item("B", None, file(1)));
    assert_eq!(fill.chunk, b"B\r\n");
    assert_eq!(fill.produced, 2);
    let mut fill = ListingFill::new(ListKind::Names, 0, LocalTime { seconds: 0 });
    fill.visit(&item("A", Some("bad\nname"), file(1)));
    assert!(fill.chunk.is_empty());
    assert_eq!(fill.produced, 1);
}

#[test]
fn broken_names_repeat_no_line() {
    let items = [
        item("A", Some("bad\rname"), file(1)),
        item("B", None, file(1)),
        item("C", Some("worse\nname"), file(1)),
        item("D", None, file(1)),
        item("E", Some("last\r\n"), file(1)),
    ];
    let mut all = Vec::new();
    let mut skip = 0;
    let mut consumed = Vec::new();
    loop {
        let mut fill = ListingFill::new(ListKind::Names, skip, LocalTime { seconds: 0 });
        for item in &items {
            if fill.visit(item) {
                break;
            }
        }
        consumed.push(fill.produced);
        if fill.produced == 0 {
            break;
        }
        skip += fill.produced;
        all.extend_from_slice(&fill.chunk);
    }
    assert_eq!(consumed, [5, 0]);
    assert_eq!(all, b"B\r\nD\r\n");
}

#[test]
fn a_job_walks_to_its_directory() {
    let mut actions = Vec::new();
    let mut job = FsJob::new(path(&["a"]), Purpose::Delete(String::from("f.txt")));
    assert!(matches!(job.query(), FsQuery::OpenRoot));
    assert!(job.resume(FsReply::Dir(Some(1)), &mut actions).is_none());
    assert!(matches!(job.query(), FsQuery::Find { dir: 1, name } if name == "a"));
    assert!(job.resume(FsReply::Entry(Some(folder())), &mut actions).is_none());
    assert!(matches!(job.query(), FsQuery::OpenFoundDir { dir: 1 }));
    assert!(job.resume(FsReply::Dir(Some(2)), &mut actions).is_none());
    assert!(matches!(actions[..], [Action::CloseDir(1)]));
    assert!(matches!(job.query(), FsQuery::Find { dir: 2, name } if name == "f.txt"));
    assert!(job.resume(FsReply::Entry(Some(file(3))), &mut actions).is_none());
    assert!(matches!(job.query(), FsQuery::DeleteFound { dir: 2 }));
    let result = job.resume(FsReply::Done(true), &mut actions);
    assert!(matches!(result, Some(JobResult::Done(true))));
    assert!(matches!(actions[..], [Action::CloseDir(1), Action::CloseDir(2)]));
}

#[test]
fn new_names_must_be_short() {
    for (name, wanted) in [
        ("NEWDIR", true),
        ("new.dir", true),
        ("toolongname", false),
        ("a.html", false),
        ("a b", false),
        ("zażółć", false),
    ] {
        let mut actions = Vec::new();
        let mut job = FsJob::new(path(&[]), Purpose::MakeDir(String::from(name)));
        let mut result = job.resume(FsReply::Dir(Some(1)), &mut actions);
        while result.is_none() {
            let reply = match job.query() {
                FsQuery::Find { .. } => FsReply::Entry(None),
                FsQuery::MakeDir { dir: 1, .. } => FsReply::Done(true),
                _ => panic!("unexpected"),
            };
            result = job.resume(reply, &mut actions);
        }
        let made = matches!(result, Some(JobResult::Done(true)));
        let refused = matches!(result, Some(JobResult::Done(false)));
        assert_eq!((made, refused), (wanted, !wanted), "{name}");
        assert!(matches!(actions[..], [Action::CloseDir(1)]));
    }
}

#[test]
fn a_listing_that_cannot_be_opened_keeps_no_handle() {
    let mut actions = Vec::new();
    let purpose = Purpose::List { leaf: Some(String::from("d")), kind: ListKind::List };
    let mut job = FsJob::new(path(&[]), purpose);
    job.resume(FsReply::Dir(Some(1)), &mut actions);
    job.resume(FsReply::Entry(Some(folder())), &mut actions);
    let result = job.resume(FsReply::Dir(None), &mut actions);
    assert!(matches!(result, Some(JobResult::Refused(Refusal::NotFound))));
    assert!(matches!(actions[..], [Action::CloseDir(1)]));
}
