use jdb::debugger::{Command, DispatchResult, Debugger};
use jdb::error::{ConfigError, ParseError};
use jdb::history::{expand_home, resolve_history_file, CommandHistory};
use jdb::options::{Aslr, Options};
use jdb::stoppoint::{low_byte, splice_low_byte, BreakpointSite, StoppointId, VirtualAddress};
use jdb::tui::{debugger_screen_key_press, next_index, DebuggerPane, DebuggerState, EventResult, Key};

fn strings(v: &[&str]) -> Vec<String> {
    v.iter().map(|s| s.to_string()).collect()
}

#[test]
fn history_drops_blanks_and_repeats() {
    let mut h = CommandHistory::new();
    assert!(h.last_command().is_none());
    assert!(h.add("run"));
    assert_eq!(h.last_command().as_deref(), Some("run"));
    assert!(!h.add("run"));
    assert!(!h.add(""));
    assert!(h.add("continue"));
    assert!(h.add("run"));
    assert_eq!(h.entries(), vec!["run", "continue", "run"]);
    assert_eq!(h.len(), 3);
}

#[test]
fn history_loads_file_lines() {
    let h = CommandHistory::from_lines(strings(&["run", "", "run", "b 1", "quit"]));
    assert_eq!(h.entries(), vec!["run", "b 1", "quit"]);
    assert_eq!(h.last_command().as_deref(), Some("quit"));
}

#[test]
fn dispatcher_history_scenario() {
    let mut d = Debugger::new(CommandHistory::new());
    let mut file = String::new();
    let mut last_parsed = Vec::new();
    for line in ["run", "run", "", "continue", "quit"] {
        let (appended, command) = d.next(line);
        if appended {
            file.push_str(line);
            file.push('\n');
        }
        if !line.is_empty() {
            assert_eq!(d.last_command().as_deref(), Some(line));
        }
        last_parsed.push(command.expect("parses").expect("a command"));
    }
    assert_eq!(file, "run\ncontinue\nquit\n");
    assert!(matches!(last_parsed[2], Command::Run(_)));
    assert!(matches!(last_parsed[4], Command::Quit));
}

#[test]
fn empty_line_with_empty_history_is_a_no_op() {
    let mut d = Debugger::new(CommandHistory::new());
    let (appended, command) = d.next("");
    assert!(!appended);
    assert!(matches!(command, Ok(None)));
    assert!(d.last_command().is_none());
}

#[test]
fn bad_lines_are_recorded_but_not_run() {
    let mut d = Debugger::new(CommandHistory::new());
    let (appended, command) = d.next("frob");
    assert!(appended);
    assert!(matches!(command, Err(ParseError::UnknownCommand)));
}

#[test]
fn finish_tracks_debugging_and_exit() {
    let mut d = Debugger::new(CommandHistory::new());
    assert!(!d.is_debugging());
    assert_eq!(d.finish(&Command::Run(vec![])), DispatchResult::Normal);
    assert!(d.is_debugging());
    assert_eq!(d.finish(&Command::Continue), DispatchResult::Normal);
    assert!(d.is_debugging());
    assert_eq!(d.finish(&Command::Quit), DispatchResult::Exit);
    assert!(!d.is_debugging());
}

#[test]
fn history_path_resolution() {
    assert_eq!(
        resolve_history_file(Some("/xdg".to_string()), Some("/home/u".to_string())),
        Ok("/xdg/jdb/history".to_string())
    );
    assert_eq!(
        resolve_history_file(Some("/xdg/".to_string()), None),
        Ok("/xdg/jdb/history".to_string())
    );
    assert_eq!(
        resolve_history_file(Some(String::new()), Some("/home/u".to_string())),
        Ok("/home/u/.cache/jdb/history".to_string())
    );
    assert_eq!(resolve_history_file(None, None), Err(ConfigError::NoHistoryLocation));
    assert_eq!(expand_home("~/h.txt", Some("/home/u".to_string())), "/home/u/h.txt");
    assert_eq!(expand_home("~/h.txt", None), "~/h.txt");
    assert_eq!(expand_home("/abs", Some("/home/u".to_string())), "/abs");
}

#[test]
fn options_from_args() {
    assert!(matches!(Options::from_args(vec![]), Err(ConfigError::MissingExecutable)));
    assert!(matches!(Options::from_args(strings(&[""])), Err(ConfigError::EmptyExecutable)));
    assert!(matches!(
        Options::from_args(strings(&["/no/such/program/here"])),
        Err(ConfigError::ExecutableNotFound)
    ));
    let o = Options::from_args(strings(&["/", "--pid", "12", "--history-file", "~/h"])).unwrap();
    assert_eq!(o.executable, "/");
    assert_eq!(o.pid, Some(12));
    assert_eq!(o.history_file.as_deref(), Some("~/h"));
    assert_eq!(o.aslr, Aslr::Disabled);
    assert!(matches!(Options::from_args(strings(&["/", "-p", "0"])), Err(ConfigError::BadPid)));
    assert!(matches!(Options::from_args(strings(&["/", "-p"])), Err(ConfigError::BadPid)));
    assert!(matches!(Options::from_args(strings(&["/", "-p", "x"])), Err(ConfigError::BadPid)));
}

#[test]
fn int3_patch_keeps_the_other_bytes() {
    let w: i64 = 0x0102_0304_0506_0708;
    let patched = splice_low_byte(w, 0xcc);
    assert_eq!(patched, 0x0102_0304_0506_07cc);
    assert_eq!(low_byte(patched), 0xcc);
    assert_eq!(splice_low_byte(patched, low_byte(w)), w);
    let neg: i64 = -1;
    assert_eq!(splice_low_byte(neg, 0), -256);
}

#[test]
fn breakpoint_site_record() {
    let mut b = BreakpointSite::new(StoppointId { id: 4 }, VirtualAddress::new(100));
    assert!(!b.is_enabled());
    b.enable();
    assert!(b.is_enabled());
    assert!(b.at_address(VirtualAddress::new(100)));
    assert!(b.in_range(VirtualAddress::new(100), VirtualAddress::new(101)));
    assert!(!b.in_range(VirtualAddress::new(90), VirtualAddress::new(100)));
    b.disable();
    assert!(!b.is_enabled());
    assert_eq!(b.id(), StoppointId { id: 4 });
    assert_eq!(b.address().addr(), 100);
}

#[test]
fn focus_wraps_around() {
    assert_eq!(next_index(4, 3, true), 0);
    assert_eq!(next_index(4, 0, false), 3);
    assert_eq!(next_index(4, 1, false), 0);
    let mut s = DebuggerState::new();
    assert!(s.is_focus(&DebuggerPane::Command));
    s.focus_next_pane(true);
    assert!(s.is_focus(&DebuggerPane::Source));
    s.focus_next_pane(false);
    assert!(s.is_focus(&DebuggerPane::Command));
    assert!(!s.set_focus(&DebuggerPane::Assembly));
    assert!(s.set_focus(&DebuggerPane::Logs));
    assert!(s.is_focus(&DebuggerPane::Logs));
    assert_eq!(DebuggerPane::Watchpoints.display_name(), "watchpoints");
}

#[test]
fn typing_a_command() {
    let mut s = DebuggerState::new();
    for c in "runx".chars() {
        assert!(matches!(debugger_screen_key_press(&mut s, Key::Char(c), false), EventResult::Normal));
    }
    debugger_screen_key_press(&mut s, Key::Backspace, false);
    assert_eq!(s.current_command(), "run");
    s.set_last_command_response("old".to_string());
    match debugger_screen_key_press(&mut s, Key::Enter, false) {
        EventResult::Editor { command } => assert_eq!(command, "run"),
        _ => panic!("expected a command"),
    }
    assert_eq!(s.current_command(), "");
    assert_eq!(s.last_command_response(), None);
    // Alt-x leaves the command line
    debugger_screen_key_press(&mut s, Key::Char('x'), true);
    assert!(s.is_focus(&DebuggerPane::Source));
    assert!(matches!(debugger_screen_key_press(&mut s, Key::Char('q'), false), EventResult::Quit));
    debugger_screen_key_press(&mut s, Key::Char('c'), false);
    assert!(s.in_edit_mode());
}

#[test]
fn history_loads_from_environment_values_and_file_lines() {
    let (path, h) = CommandHistory::load(None, None, Some("/home/u".to_string()), strings(&["run", "", "c"])).unwrap();
    assert_eq!(path, "/home/u/.cache/jdb/history");
    assert_eq!(h.entries(), vec!["run", "c"]);
    let (path, h) = CommandHistory::load(None, Some("/x".to_string()), None, vec![]).unwrap();
    assert_eq!(path, "/x/jdb/history");
    assert_eq!(h.len(), 0);
    let (path, _) = CommandHistory::load(Some("~/h".to_string()), None, Some("/home/u".to_string()), vec![]).unwrap();
    assert_eq!(path, "/home/u/h");
    assert!(matches!(CommandHistory::load(None, None, None, vec![]), Err(ConfigError::NoHistoryLocation)));
}
