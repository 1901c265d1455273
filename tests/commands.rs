use jdb::debugger::{BreakpointCommand, Command, DispatchResult};
use jdb::error::ParseError;
use jdb::pty::{reader_step, ReaderAction, ReaderEvent, POLL_INTERVAL_MS};
use jdb::lexer::{parse_i32, parse_u64, split_lines, split_words};
use jdb::stoppoint::{StoppointId, VirtualAddress};

fn create(a: u64) -> BreakpointCommand {
    BreakpointCommand::Create(VirtualAddress::new(a))
}

fn id(n: i32) -> StoppointId {
    StoppointId { id: n }
}

#[test]
fn words_split_on_any_whitespace() {
    assert_eq!(split_words("  run\ta  b\n"), vec!["run", "a", "b"]);
    assert_eq!(split_words(""), Vec::<String>::new());
    assert_eq!(split_words(" \u{3000} "), Vec::<String>::new());
    assert_eq!(split_words("x\u{00A0}y"), vec!["x", "y"]);
}

#[test]
fn numbers_parse_as_std_does() {
    assert_eq!(parse_u64("4198400"), Some(4198400));
    assert_eq!(parse_u64("+7"), Some(7));
    assert_eq!(parse_u64("18446744073709551615"), Some(u64::MAX));
    assert_eq!(parse_u64("18446744073709551616"), None);
    assert_eq!(parse_u64(""), None);
    assert_eq!(parse_u64("+"), None);
    assert_eq!(parse_u64("-1"), None);
    assert_eq!(parse_u64("12a"), None);
    assert_eq!(parse_i32("-2147483648"), Some(i32::MIN));
    assert_eq!(parse_i32("2147483647"), Some(i32::MAX));
    assert_eq!(parse_i32("2147483648"), None);
    assert_eq!(parse_i32("-"), None);
    assert_eq!(parse_i32("+5"), Some(5));
    for s in ["0", "007", "+12", "-12", "99999999999", "x", ""] {
        assert_eq!(parse_i32(s), s.parse::<i32>().ok());
        assert_eq!(parse_u64(s), s.parse::<u64>().ok());
    }
}

#[test]
fn parse_break_create() {
    match Command::parse("break 4198400") {
        Ok(Command::Breakpoint(b)) => assert_eq!(b, create(4198400)),
        other => panic!("unexpected {other:?}"),
    }
    match Command::parse("b 16") {
        Ok(Command::Breakpoint(b)) => assert_eq!(b, create(16)),
        other => panic!("unexpected {other:?}"),
    }
}

#[test]
fn parse_verbs_are_case_insensitive() {
    assert!(matches!(Command::parse("RUN"), Ok(Command::Run(a)) if a.is_empty()));
    assert!(matches!(Command::parse("Continue"), Ok(Command::Continue)));
    assert!(matches!(Command::parse("Q"), Ok(Command::Quit)));
    match Command::parse("DISABLE 3") {
        Ok(Command::Breakpoint(b)) => assert_eq!(b, BreakpointCommand::Disable(id(3))),
        other => panic!("unexpected {other:?}"),
    }
}

#[test]
fn parse_run_keeps_arguments() {
    match Command::parse("r  --flag value") {
        Ok(Command::Run(args)) => assert_eq!(args, vec!["--flag", "value"]),
        other => panic!("unexpected {other:?}"),
    }
}

#[test]
fn parse_id_commands() {
    match Command::parse("delete 2") {
        Ok(Command::Breakpoint(b)) => assert_eq!(b, BreakpointCommand::Delete(id(2))),
        other => panic!("unexpected {other:?}"),
    }
    match Command::parse("enable -5") {
        Ok(Command::Breakpoint(b)) => assert_eq!(b, BreakpointCommand::Enable(id(-5))),
        other => panic!("unexpected {other:?}"),
    }
}

#[test]
fn parse_errors() {
    assert!(matches!(Command::parse("frob"), Err(ParseError::UnknownCommand)));
    assert!(matches!(Command::parse(""), Err(ParseError::UnknownCommand)));
    assert!(matches!(Command::parse("break"), Err(ParseError::WrongArity)));
    assert!(matches!(Command::parse("break 1 2"), Err(ParseError::WrongArity)));
    assert!(matches!(Command::parse("break main"), Err(ParseError::BadNumber)));
    assert!(matches!(Command::parse("delete 99999999999"), Err(ParseError::BadNumber)));
    assert!(matches!(Command::parse("enable"), Err(ParseError::WrongArity)));
    assert!(matches!(Command::parse("continue 5"), Err(ParseError::WrongArity)));
    assert!(matches!(Command::parse("quit 5"), Err(ParseError::WrongArity)));
    assert!(matches!(Command::parse("c x y"), Err(ParseError::WrongArity)));
}

#[test]
fn from_words_takes_the_lowered_verb() {
    assert!(matches!(Command::from_words("continue", vec![]), Ok(Command::Continue)));
    assert!(matches!(Command::from_words("CONTINUE", vec![]), Err(ParseError::UnknownCommand)));
    match Command::from_words("break", vec!["7".to_string()]) {
        Ok(Command::Breakpoint(b)) => assert_eq!(b, create(7)),
        other => panic!("unexpected {other:?}"),
    }
}

#[test]
fn rendered_commands_parse_back() {
    let cases: Vec<(&str, BreakpointCommand)> = vec![
        ("break 4198400", create(4198400)),
        ("delete 1", BreakpointCommand::Delete(id(1))),
        ("enable -3", BreakpointCommand::Enable(id(-3))),
        ("disable 2147483647", BreakpointCommand::Disable(id(i32::MAX))),
    ];
    for (text, expected) in cases {
        match Command::parse(text) {
            Ok(Command::Breakpoint(b)) => assert_eq!(b, expected),
            other => panic!("unexpected {other:?}"),
        }
    }
    assert!(matches!(Command::parse("continue"), Ok(Command::Continue)));
    assert!(matches!(Command::parse("quit"), Ok(Command::Quit)));
    assert!(matches!(Command::parse("run a b"), Ok(Command::Run(v)) if v == vec!["a", "b"]));
}

#[test]
fn quit_asks_to_exit() {
    assert_eq!(Command::Quit.dispatch_result(), DispatchResult::Exit);
    assert_eq!(Command::Continue.dispatch_result(), DispatchResult::Normal);
    assert_eq!(Command::Run(vec![]).dispatch_result(), DispatchResult::Normal);
}

#[test]
fn output_lines_drop_blanks_and_line_feeds() {
    assert_eq!(split_lines("HELLO_FROM_INFERIOR\n"), vec!["HELLO_FROM_INFERIOR"]);
    assert_eq!(split_lines("a\r\n\nb\r\n\r\nc"), vec!["a", "b", "c"]);
    assert_eq!(split_lines("tail\r"), vec!["tail\r"]);
    assert_eq!(split_lines("\n\n"), Vec::<String>::new());
    for s in ["x\ny\n", "a\r\nb", "\r\n", "one", "p\r\r\nq"] {
        let expected: Vec<&str> = s.lines().filter(|l| !l.is_empty()).collect();
        assert_eq!(split_lines(s), expected);
    }
}

#[test]
fn reader_forwards_chunks_and_stops_on_end_or_shutdown() {
    match reader_step(ReaderEvent::Chunk(b"HELLO_FROM_INFERIOR\n\xff".to_vec())) {
        ReaderAction::Forward(s) => assert_eq!(s, "HELLO_FROM_INFERIOR\n\u{FFFD}"),
        other => panic!("unexpected {other:?}"),
    }
    assert!(matches!(reader_step(ReaderEvent::WouldBlock), ReaderAction::Continue));
    assert!(matches!(reader_step(ReaderEvent::SendFailed), ReaderAction::Continue));
    assert!(matches!(reader_step(ReaderEvent::NoShutdown), ReaderAction::Continue));
    assert!(matches!(reader_step(ReaderEvent::EndOfFile), ReaderAction::Stop));
    assert!(matches!(reader_step(ReaderEvent::ReadFailed), ReaderAction::Stop));
    assert!(matches!(reader_step(ReaderEvent::ShutdownSignalled), ReaderAction::Stop));
    assert!(matches!(reader_step(ReaderEvent::ShutdownDisconnected), ReaderAction::Stop));
    assert_eq!(POLL_INTERVAL_MS, 42);
}
