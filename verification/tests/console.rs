use ratputer::debug::{parse_command, DebugCommand, DebugConsole, DebugKey, Transmit, TX_QUEUE_LEN};

fn drain(console: &mut DebugConsole) -> String {
    let mut out = Vec::new();
    while let Some(Transmit::Byte(byte)) = console.service() {
        out.push(byte);
        console.serviced();
    }
    String::from_utf8(out).unwrap()
}

fn quiet() -> DebugConsole {
    let mut console = DebugConsole::new();
    drain(&mut console);
    console
}

fn send(console: &mut DebugConsole, bytes: &[u8]) -> Option<DebugCommand> {
    let mut last = None;
    for byte in bytes {
        if let Some(command) = console.poll(*byte) {
            last = Some(command);
        }
    }
    last
}

fn reason(line: &[u8]) -> &'static str {
    match parse_command(line) {
        Some(DebugCommand::Invalid { reason }) => reason,
        _ => "",
    }
}

#[test]
fn lines_are_commands() {
    assert!(parse_command(b"   ").is_none());
    assert!(matches!(parse_command(b" ping "), Some(DebugCommand::Ping)));
    assert!(matches!(parse_command(b"Help"), Some(DebugCommand::Help)));
    assert!(matches!(parse_command(b"STATUS now"), Some(DebugCommand::Status)));
    assert!(matches!(parse_command(b"clear"), Some(DebugCommand::Clear)));
    assert!(matches!(parse_command(b"reboot"), Some(DebugCommand::Reboot)));
    assert!(matches!(
        parse_command(b"key  BackSpace "),
        Some(DebugCommand::Key { key: DebugKey::Backspace })
    ));
    match parse_command(b"TEXT  two words") {
        Some(DebugCommand::Text { text }) => assert_eq!(text.as_str(), " two words"),
        _ => panic!("no text"),
    }
}

#[test]
fn bad_lines_have_reasons() {
    assert_eq!(reason(&[b'p', 0xff]), "non_ascii_command");
    assert_eq!(reason(b"key"), "bad_key");
    assert_eq!(reason(b"key sideways"), "bad_key");
    assert_eq!(reason(b"text"), "missing_text");
    assert_eq!(reason("text zażółć".as_bytes()), "text_must_be_1_96_printable_ascii");
    let long = format!("text {}", "x".repeat(97));
    assert_eq!(reason(long.as_bytes()), "text_must_be_1_96_printable_ascii");
    assert_eq!(reason(b"fly"), "unknown_command");
}

#[test]
fn every_key_has_a_word() {
    let words: [(&[u8], DebugKey); 10] = [
        (b"key up", DebugKey::Up),
        (b"key down", DebugKey::Down),
        (b"key left", DebugKey::Left),
        (b"key right", DebugKey::Right),
        (b"key enter", DebugKey::Enter),
        (b"key back", DebugKey::Back),
        (b"key backspace", DebugKey::Backspace),
        (b"key delete", DebugKey::Delete),
        (b"key tab", DebugKey::Tab),
        (b"key space", DebugKey::Space),
    ];
    for (line, wanted) in words {
        assert!(matches!(
            parse_command(line),
            Some(DebugCommand::Key { key }) if key == wanted
        ));
    }
}

#[test]
fn typed_characters_are_echoed() {
    let mut console = quiet();
    assert!(matches!(send(&mut console, b"pinx\x08g\r"), Some(DebugCommand::Ping)));
    assert_eq!(drain(&mut console), "pinx\x08 \x08g\r\n");
    assert!(send(&mut console, b"\n").is_none());
    assert_eq!(drain(&mut console), "");
    assert!(send(&mut console, b"\n").is_none());
    assert_eq!(drain(&mut console), "\r\nrat> ");
}

#[test]
fn lines_are_edited() {
    let mut console = quiet();
    assert!(matches!(send(&mut console, b"junk\x15help\r"), Some(DebugCommand::Help)));
    assert!(matches!(send(&mut console, b"he\x1b[1;5Alp\r"), Some(DebugCommand::Help)));
    assert!(matches!(send(&mut console, b"\x7f\x7fhelp\n"), Some(DebugCommand::Help)));
}

#[test]
fn long_lines_are_refused() {
    let mut console = quiet();
    let mut line = vec![b'x'; 193];
    line.push(b'\r');
    match send(&mut console, &line) {
        Some(DebugCommand::Invalid { reason }) => assert_eq!(reason, "line_too_long"),
        _ => panic!("accepted"),
    }
    let echo = drain(&mut console);
    assert_eq!(echo.len(), 192 + 1 + 2);
    assert!(echo.contains('\x07'));
    assert!(matches!(send(&mut console, b"ping\r"), Some(DebugCommand::Ping)));
}

#[test]
fn a_full_line_is_submitted_once() {
    let mut console = quiet();
    let line = [b'x'; 192];
    assert!(send(&mut console, &line).is_none());
    match send(&mut console, b"\r") {
        Some(DebugCommand::Invalid { reason }) => assert_eq!(reason, "unknown_command"),
        _ => panic!("accepted"),
    }
    assert!(send(&mut console, b"\n").is_none());
    assert!(matches!(send(&mut console, b"ping\r\n"), Some(DebugCommand::Ping)));
}

#[test]
fn answers_are_queued_in_order() {
    let mut console = quiet();
    console.serviced();
    assert!(console.output_idle());
    console.ok(&[String::from("one")]);
    console.data(&[String::from("t"), String::from("wo")]);
    console.error(&[String::from("three")]);
    console.end();
    assert!(!console.output_idle());
    assert_eq!(
        drain(&mut console),
        "[rat] OK one\r\n[rat] two\r\n[rat] ERROR three\r\nrat> "
    );
    assert_eq!(console.service(), Some(Transmit::Flush));
    console.serviced();
    assert_eq!(console.service(), None);
    assert!(console.output_idle());
}

#[test]
fn a_full_queue_drops_what_does_not_fit() {
    let mut console = quiet();
    let message = [String::from("a"), "x".repeat(998), String::from("b")];
    for _ in 0..5 {
        console.data(&message);
    }
    let out = drain(&mut console);
    let whole = format!("[rat] a{}b\r\n", "x".repeat(998));
    assert_eq!(whole.len(), 1008);
    assert_eq!(out, format!("{}[rat] a", whole.repeat(4)));
    assert!(out.len() <= TX_QUEUE_LEN);
}

#[test]
fn a_message_ends_at_the_first_piece_without_room() {
    let mut console = quiet();
    console.data(&["y".repeat(TX_QUEUE_LEN - 6 - 2 - 10)]);
    let message = [String::from("1"), String::from("22"), String::from("333"), String::new()];
    console.data(&message);
    console.data(&message);
    let out = drain(&mut console);
    assert!(out.ends_with("y\r\n[rat] 122"), "{}", &out[out.len() - 20..]);
}
