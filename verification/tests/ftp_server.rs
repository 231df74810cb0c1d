use ratputer::ftp::command::Ipv4;
use ratputer::ftp::job::{Action, FsQuery, FsReply};
use ratputer::ftp::listing::{DirItem, Entry, EntrySearch, ListingFill, Timestamp};
use ratputer::ftp::server::{
    Filled, FtpServer, MoveOutcome, Query, Queue, ReadOutcome, Reply, SocketState, WriteOutcome,
};
use ratputer::ftp::session::FtpStatus;
use ratputer::storage::{FtpConfig, LocalTime};
use std::collections::BTreeMap;

/// A card, two sockets and the server between them.
struct World {
    server: FtpServer,
    config: FtpConfig,
    now: u64,
    control: SocketState,
    data: SocketState,
    /// The client connects.
    calls: bool,
    /// The client wants a data connection.
    dials: bool,
    input: Vec<u8>,
    output: Vec<u8>,
    upload: Vec<u8>,
    download: Vec<u8>,
    /// Directories end in a slash.
    files: BTreeMap<String, Vec<u8>>,
    dirs: BTreeMap<u32, String>,
    open: BTreeMap<u32, (String, usize)>,
    next: u32,
    found: String,
}

const ADDRESS: Ipv4 = Ipv4 { a: 192, b: 168, c: 1, d: 20 };

fn stamp() -> Timestamp {
    Timestamp {
        year_since_1970: 54,
        zero_indexed_month: 0,
        zero_indexed_day: 0,
        hours: 1,
        minutes: 2,
        seconds: 3,
    }
}

impl World {
    fn new() -> Self {
        let mut files = BTreeMap::new();
        files.insert(String::from("/"), Vec::new());
        files.insert(String::from("/DOCS/"), Vec::new());
        files.insert(String::from("/DOCS/A.TXT"), b"hello, rat".to_vec());
        files.insert(String::from("/BIG.BIN"), (0..5000).map(|i| i as u8).collect());
        let mut server = FtpServer::new();
        assert_eq!(server.start(true, None), Ok(()));
        World {
            server,
            config: FtpConfig { user: String::from("rat"), password: String::from("cheese") },
            now: 1_000,
            control: SocketState::Closed,
            data: SocketState::Closed,
            calls: true,
            dials: false,
            input: Vec::new(),
            output: Vec::new(),
            upload: Vec::new(),
            download: Vec::new(),
            files,
            dirs: BTreeMap::new(),
            open: BTreeMap::new(),
            next: 1,
            found: String::new(),
        }
    }

    fn handle(&mut self) -> u32 {
        self.next += 1;
        self.next
    }

    fn items(&self, dir: &str) -> Vec<DirItem> {
        self.files
            .iter()
            .filter_map(|(path, content)| {
                let rest = path.strip_prefix(dir)?;
                let name = rest.trim_end_matches('/');
                if name.is_empty() || name.contains('/') {
                    return None;
                }
                Some(DirItem {
                    volume: false,
                    entry: Entry {
                        directory: rest.ends_with('/'),
                        size: content.len() as u32,
                        mtime: stamp(),
                    },
                    short: String::from(name),
                    long: None,
                })
            })
            .collect()
    }

    fn card(&mut self, query: FsQuery<String>) -> FsReply {
        match query {
            FsQuery::OpenRoot => {
                let handle = self.handle();
                self.dirs.insert(handle, String::from("/"));
                FsReply::Dir(Some(handle))
            }
            FsQuery::Find { dir, name } => {
                let parent = self.dirs[&dir].clone();
                let mut search = EntrySearch::new(&name);
                for item in self.items(&parent) {
                    if search.visit(&item) {
                        let slash = if item.entry.directory { "/" } else { "" };
                        self.found = format!("{parent}{}{slash}", item.short);
                        break;
                    }
                }
                FsReply::Entry(search.found)
            }
            FsQuery::OpenFoundDir { .. } => {
                let handle = self.handle();
                self.dirs.insert(handle, self.found.clone());
                FsReply::Dir(Some(handle))
            }
            FsQuery::DeleteFound { .. } => {
                let used = self
                    .files
                    .keys()
                    .any(|path| path != &self.found && path.starts_with(&self.found));
                if !used {
                    self.files.remove(&self.found);
                }
                FsReply::Done(!used)
            }
            FsQuery::MakeDir { dir, name } => {
                let path = format!("{}{name}/", self.dirs[&dir]);
                FsReply::Done(self.files.insert(path, Vec::new()).is_none())
            }
            FsQuery::OpenFoundFile { anew, .. } => {
                if anew {
                    self.files.insert(self.found.clone(), Vec::new());
                }
                let handle = self.handle();
                self.open.insert(handle, (self.found.clone(), 0));
                FsReply::File(Some(handle))
            }
            FsQuery::CreateFile { dir, name } => {
                let path = format!("{}{name}", self.dirs[&dir]);
                self.files.insert(path.clone(), Vec::new());
                let handle = self.handle();
                self.open.insert(handle, (path, 0));
                FsReply::File(Some(handle))
            }
            FsQuery::Seek { file, offset } => {
                self.open.get_mut(&file).unwrap().1 = offset as usize;
                FsReply::Done(true)
            }
        }
    }

    fn answer(&mut self, query: Query<String, Vec<u8>>) -> Reply {
        let queue = |state| Queue {
            empty: true,
            may_send: state == SocketState::Established || state == SocketState::CloseWait,
            may_recv: state == SocketState::Established,
            can_recv: false,
        };
        match query {
            Query::Network => Reply::Network { ip: Some(ADDRESS), online: true },
            Query::ControlState => Reply::State(self.control),
            Query::ControlPeer => Reply::Peer(Some((Ipv4 { a: 10, b: 0, c: 0, d: 9 }, 4321))),
            Query::ControlWrite(bytes) => {
                let count = bytes.len().min(20);
                self.output.extend_from_slice(&bytes[..count]);
                Reply::Wrote(WriteOutcome::Wrote(count))
            }
            Query::ControlRead => {
                if self.input.is_empty() {
                    Reply::Read(ReadOutcome::Nothing)
                } else {
                    let count = self.input.len().min(7);
                    Reply::Read(ReadOutcome::Bytes(self.input.drain(..count).collect()))
                }
            }
            Query::ControlQueue => Reply::Queue(queue(self.control)),
            Query::DataState => {
                if self.data == SocketState::Listen && self.dials {
                    self.data = SocketState::Established;
                }
                Reply::State(self.data)
            }
            Query::DataQueue => {
                if self.data == SocketState::Established
                    && self.dials
                    && !self.upload.is_empty()
                {
                    return Reply::Queue(Queue { can_recv: true, ..queue(self.data) });
                }
                Reply::Queue(queue(self.data))
            }
            Query::SendFile { file } => {
                let (path, at) = self.open.get_mut(&file).unwrap();
                let content = &self.files[path];
                let count = (content.len() - *at).min(900);
                self.download.extend_from_slice(&content[*at..*at + count]);
                *at += count;
                Reply::Moved(MoveOutcome::Moved(count as u64))
            }
            Query::ReceiveFile { file } => {
                if self.upload.is_empty() {
                    self.data = SocketState::CloseWait;
                    return Reply::Moved(MoveOutcome::NotReady);
                }
                let count = self.upload.len().min(1000);
                let part: Vec<u8> = self.upload.drain(..count).collect();
                let path = self.open[&file].0.clone();
                self.files.get_mut(&path).unwrap().extend_from_slice(&part);
                Reply::Moved(MoveOutcome::Moved(count as u64))
            }
            Query::SendChunk(bytes) => {
                let count = bytes.len().min(100);
                self.download.extend_from_slice(&bytes[..count]);
                Reply::Wrote(WriteOutcome::Wrote(count))
            }
            Query::FillListing { dir, kind, skip } => {
                let mut fill = ListingFill::new(kind, skip, LocalTime { seconds: 0 });
                for item in self.items(&self.dirs[&dir].clone()) {
                    if fill.visit(&item) {
                        break;
                    }
                }
                Reply::Filled(Some(Filled { chunk: fill.chunk, produced: fill.produced }))
            }
            Query::Card(query) => Reply::Card(self.card(query)),
        }
    }

    fn perform(&mut self, actions: Vec<Action>) {
        for action in actions {
            match action {
                Action::ControlAccept => {
                    self.control = if self.calls {
                        SocketState::Established
                    } else {
                        SocketState::Listen
                    };
                    self.calls = false;
                }
                Action::ControlAbort | Action::ControlClose => self.control = SocketState::Closed,
                Action::DataAccept => self.data = SocketState::Listen,
                Action::DataAbort | Action::DataClose => {
                    self.data = SocketState::Closed;
                    self.dials = false;
                }
                Action::DataDiscard => self.upload.clear(),
                Action::CloseDir(dir) => assert!(self.dirs.remove(&dir).is_some()),
                Action::CloseFile(file) => assert!(self.open.remove(&file).is_some()),
            }
        }
    }

    fn round(&mut self) {
        self.server.poll();
        let mut steps = 0;
        while let Some(query) = self.server.query() {
            let reply = self.answer(query);
            let local = LocalTime { seconds: 0 };
            let actions = self.server.resume(reply, &self.config, &local, self.now);
            self.perform(actions);
            steps += 1;
            assert!(steps < 1000);
        }
    }

    /// Sends a line and gives what the server says to it.
    fn say(&mut self, line: &str) -> String {
        self.input.extend_from_slice(line.as_bytes());
        self.input.extend_from_slice(b"\r\n");
        for _ in 0..80 {
            self.round();
        }
        String::from_utf8(self.output.drain(..).collect()).unwrap()
    }

    fn login() -> Self {
        let mut world = World::new();
        for _ in 0..10 {
            world.round();
        }
        assert_eq!(world.output, b"220 RATPUTER SD\r\n");
        world.output.clear();
        assert_eq!(world.say("USER rat"), "331 Password required\r\n");
        assert_eq!(world.say("PASS cheese"), "230 Logged in, SD card shared\r\n");
        world
    }

    fn rests(&self) -> bool {
        self.dirs.is_empty() && self.open.is_empty()
    }
}

#[test]
fn nothing_happens_before_the_login() {
    let mut world = World::new();
    world.round();
    assert_eq!(world.say("LIST").lines().last(), Some("530 Log in first"));
    assert_eq!(world.say("USER rat"), "331 Password required\r\n");
    assert_eq!(world.say("PASS gouda"), "530 Wrong user or password\r\n");
    assert_eq!(world.say("DELE BIG.BIN"), "530 Log in first\r\n");
    assert!(world.files.contains_key("/BIG.BIN"));
    assert_eq!(world.say("QUIT"), "221 Bye\r\n");
    assert!(world.server.session.is_none());
}

#[test]
fn simple_commands() {
    let mut world = World::login();
    assert_eq!(world.server.status(), FtpStatus::Connected);
    assert_eq!(world.server.peer(), Some("10.0.0.9:4321"));
    assert_eq!(world.server.ip(), Some(ADDRESS));
    for (line, reply) in [
        ("SYST", "215 UNIX Type: L8\r\n"),
        ("noop", "200 OK\r\n"),
        ("TYPE I", "200 Binary mode (transfer is always 8-bit)\r\n"),
        ("MODE S", "200 OK\r\n"),
        ("PORT 1,2,3,4,5,6", "502 Passive mode only\r\n"),
        ("AUTH TLS", "502 Security not supported\r\n"),
        ("RNFR A", "502 Rename not supported (8.3)\r\n"),
        ("XYZZY", "502 Not implemented\r\n"),
        ("OPTS UTF8 ON", "200 OK\r\n"),
        ("PWD", "257 \"/\" is current\r\n"),
        ("CWD docs", "250 Directory changed\r\n"),
        ("PWD", "257 \"/docs\" is current\r\n"),
        ("CWD nowhere", "550 No such directory\r\n"),
        ("CDUP", "250 Directory changed\r\n"),
        ("SIZE docs/a.txt", "213 10\r\n"),
        ("SIZE docs", "550 Is a directory\r\n"),
        ("SIZE nothing", "550 No such file or directory\r\n"),
        ("MDTM docs/a.txt", "213 20240101010203\r\n"),
        ("REST x", "501 Bad offset\r\n"),
        ("RETR", "501 File name required\r\n"),
        ("LIST", "425 Use PASV or EPSV first\r\n"),
        ("RMD /", "501 Directory name required\r\n"),
        ("EPSV", "229 (|||20|)\r\n"),
        ("PASV", "227 Entering Passive Mode (192,168,1,20,0,20)\r\n"),
    ] {
        assert_eq!(world.say(line), reply, "{line}");
        assert!(world.rests());
    }
    assert_eq!(
        world.say("FEAT"),
        "211-Features:\r\n UTF8\r\n MLSD\r\n MDTM\r\n SIZE\r\n REST STREAM\r\n PASV\r\n211 End\r\n"
    );
    assert_eq!(
        world.say("MLST docs/a.txt"),
        "250- /docs\r\n Type=file;Size=10;Modify=20240101010203; a.txt\r\n250 End\r\n"
    );
}

#[test]
fn files_are_changed() {
    let mut world = World::login();
    assert_eq!(world.say("MKD newdir"), "257 \"/newdir\" created\r\n");
    assert!(world.files.contains_key("/newdir/"));
    assert_eq!(world.say("MKD much too long"), "553 Use 8.3 names for new directories\r\n");
    assert_eq!(world.say("CWD newdir"), "250 Directory changed\r\n");
    assert_eq!(world.say("RMD /newdir"), "550 Cannot remove current directory\r\n");
    assert_eq!(world.say("CDUP"), "250 Directory changed\r\n");
    assert_eq!(world.say("RMD newdir"), "250 Directory removed\r\n");
    assert_eq!(world.say("RMD docs"), "550 Not empty or not found\r\n");
    assert_eq!(world.say("DELE docs"), "550 Cannot delete\r\n");
    assert_eq!(world.say("DELE docs/a.txt"), "250 Deleted\r\n");
    assert!(!world.files.contains_key("/DOCS/A.TXT"));
    assert!(world.rests());
}

#[test]
fn a_file_is_fetched() {
    let mut world = World::login();
    world.say("PASV");
    world.dials = true;
    let reply = world.say("RETR BIG.BIN");
    assert!(reply.starts_with("150 "));
    assert!(reply.contains("\r\n226 Finished RETR "), "{reply}");
    assert_eq!(world.download, world.files["/BIG.BIN"]);
    assert_eq!(world.server.stats().sent_bytes, 5000);
    assert_eq!(world.files, World::new().files);
    assert!(world.rests());
}

#[test]
fn the_shown_path_leads_back() {
    let mut world = World::login();
    world.say("MKD docs/sub");
    world.say("CWD docs/sub");
    let reply = world.say("PWD");
    assert_eq!(reply, "257 \"/docs/sub\" is current\r\n");
    world.say("CWD /");
    assert_eq!(world.say("PWD"), "257 \"/\" is current\r\n");
    let path = reply.split('"').nth(1).unwrap();
    assert_eq!(world.say(&format!("CWD {path}")), "250 Directory changed\r\n");
    assert_eq!(world.say("PWD"), reply);
    assert_eq!(world.say("CWD \"/docs\""), "250 Directory changed\r\n");
}

#[test]
fn a_file_is_fetched_from_an_offset() {
    let mut world = World::login();
    world.say("PASV");
    assert_eq!(world.say("REST 7"), "350 Restart stored\r\n");
    world.dials = true;
    world.say("RETR docs/a.txt");
    assert_eq!(world.download, b"rat");
    world.say("PASV");
    world.say("REST 11");
    world.dials = true;
    assert_eq!(world.say("RETR docs/a.txt"), "550 Bad restart offset\r\n");
    assert!(world.rests());
}

#[test]
fn a_file_is_stored_and_fetched_again() {
    let mut world = World::login();
    let content: Vec<u8> = (0..3210).map(|i| (i * 3) as u8).collect();
    world.say("PASV");
    world.dials = true;
    world.upload = content.clone();
    let reply = world.say("STOR new.bin");
    assert!(reply.contains("226 Finished"), "{reply}");
    assert_eq!(world.files["/new.bin"], content);
    assert_eq!(world.server.stats().received_bytes, 3210);
    world.say("PASV");
    world.dials = true;
    world.say("RETR new.bin");
    assert_eq!(world.download, content);
    assert!(world.rests());
}

#[test]
fn listings_are_sent_once() {
    let mut world = World::login();
    world.say("PASV");
    world.dials = true;
    let reply = world.say("NLST");
    assert!(reply.contains("226 Finished"), "{reply}");
    assert_eq!(world.download, b"BIG.BIN\r\nDOCS\r\n");
    world.download.clear();
    world.say("EPSV");
    world.dials = true;
    world.say("LIST -la docs");
    assert_eq!(
        String::from_utf8(world.download.clone()).unwrap(),
        "-rw-r--r-- 1 rat rat            10 Jan  1  2024 A.TXT\r\n"
    );
    world.download.clear();
    world.say("PASV");
    world.dials = true;
    world.say("MLSD docs");
    assert_eq!(world.download, b"Type=file;Size=10;Modify=20240101010203; A.TXT\r\n");
    assert!(world.rests());
}

#[test]
fn names_with_line_ends_are_not_listed() {
    let mut world = World::login();
    for name in ["/DOCS/0\r", "/DOCS/B\nC", "/DOCS/D.TXT"] {
        world.files.insert(String::from(name), Vec::new());
    }
    world.say("PASV");
    world.dials = true;
    let reply = world.say("NLST docs");
    assert!(reply.contains("226 Finished"), "{reply}");
    assert_eq!(world.download, b"A.TXT\r\nD.TXT\r\n");
    assert!(world.rests());
}

#[test]
fn a_data_connection_must_come() {
    let mut world = World::login();
    world.say("PASV");
    assert_eq!(world.say("LIST"), "");
    assert_eq!(world.say("PWD"), "450 Transfer in progress\r\n");
    world.now += 20_000_000;
    world.round();
    world.round();
    assert_eq!(world.say("NOOP"), "425 No data connection\r\n200 OK\r\n");
}

#[test]
fn a_transfer_can_be_aborted() {
    let mut world = World::login();
    world.say("PASV");
    world.say("LIST");
    assert_eq!(
        world.say("ABOR"),
        "426 Transfer aborted by ABOR\r\n226 Abort done\r\n"
    );
    assert!(world.rests());
}

#[test]
fn idle_clients_are_sent_away() {
    let mut world = World::login();
    world.now += 300_000_000;
    for _ in 0..5 {
        world.round();
    }
    assert_eq!(world.output, b"421 Idle timeout\r\n");
    assert_eq!(world.server.status(), FtpStatus::Listening);
}

#[test]
fn long_lines_are_answered() {
    let mut world = World::login();
    let line = "x".repeat(600);
    let reply = world.say(&line);
    assert!(reply.starts_with("500 Command line too long\r\n"), "{reply}");
}

#[test]
fn a_stopped_server_holds_nothing() {
    let mut world = World::login();
    world.say("PASV");
    world.dials = true;
    world.input.extend_from_slice(b"RETR BIG.BIN\r\n");
    for _ in 0..6 {
        world.round();
    }
    let (actions, close_volume) = world.server.stop();
    world.perform(actions);
    assert!(close_volume && world.rests());
    assert_eq!(world.server.status(), FtpStatus::Stopped);
    assert!(world.server.query().is_none());
    assert_eq!(world.server.start(false, None), Err(()));
}
