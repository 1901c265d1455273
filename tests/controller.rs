use std::collections::HashMap;

use jdb::debugger::BreakpointCommand;
use jdb::error::DebugError;
use jdb::options::{Aslr, Options};
use jdb::process::{AttachRequest, BytePatch, Process, ProcessState, TeardownStep, TraceSignal, WaitStatus};
use jdb::register_info::Register;
use jdb::registers::{RegisterSnapshot, RegisterValue};
use jdb::stoppoint::{low_byte, splice_low_byte, StoppointId, StoppointState, VirtualAddress};

const ADDR: u64 = 4198400;

fn options() -> Options {
    Options {
        executable: "/bin/true".to_string(),
        pid: None,
        history_file: None,
        aslr: Aslr::Disabled,
    }
}

/// A tracee's memory, word by word, as the peek and poke of a byte patch see it.
struct Memory {
    words: HashMap<u64, i64>,
}

impl Memory {
    fn patch(&mut self, p: BytePatch) -> Result<u8, i32> {
        let word = *self.words.get(&p.address.addr()).ok_or(5)?;
        self.words.insert(p.address.addr(), splice_low_byte(word, p.byte));
        Ok(low_byte(word))
    }
}

fn run_breakpoint(process: &mut Process, memory: &mut Memory, cmd: BreakpointCommand) -> Result<(), DebugError> {
    let plan = process.plan_breakpoint_command(cmd)?;
    let outcome = plan.map(|p| memory.patch(p));
    process.breakpoint_command(cmd, outcome)
}

fn snapshot(rip: u64) -> RegisterSnapshot {
    let mut gp = vec![0u8; 216];
    gp[128..136].copy_from_slice(&rip.to_le_bytes());
    RegisterSnapshot::new(42, gp, vec![0; 512], vec![0; 64]).unwrap()
}

fn stopped_process() -> Process {
    let mut p = Process::new(options());
    p.attached(42, true);
    assert_eq!(p.wait_on_signal(Ok(WaitStatus::Stopped(19))), Ok(true));
    p.refresh_registers(snapshot(0x1000));
    p
}

#[test]
fn new_controller_is_unknown_without_registers() {
    let p = Process::new(options());
    assert_eq!(p.state(), ProcessState::Unknown);
    assert_eq!(p.pid(), None);
    assert!(p.read_register(Register::RIP).is_none());
    assert!(p.breakpoints().is_empty());
    assert!(p.destroy().is_empty());
}

#[test]
fn launch_stop_and_read_registers() {
    let mut p = Process::new(options());
    match p.attach(vec!["x".to_string()]) {
        Some(AttachRequest::Launch { executable, args, aslr }) => {
            assert_eq!(executable, "/bin/true");
            assert_eq!(args, vec!["x"]);
            assert_eq!(aslr, Aslr::Disabled);
        }
        other => panic!("unexpected {other:?}"),
    }
    p.attached(42, true);
    assert_eq!(p.state(), ProcessState::Running);
    assert_eq!(p.pid(), Some(42));
    assert!(p.attach(vec![]).is_none());
    assert_eq!(p.wait_target(), Ok(42));
    assert_eq!(p.wait_on_signal(Ok(WaitStatus::Stopped(19))), Ok(true));
    assert_eq!(p.state(), ProcessState::Stopped);
    assert!(p.read_register(Register::RIP).is_none());
    p.refresh_registers(snapshot(0x1000));
    assert!(matches!(p.read_register(Register::RIP), Some(RegisterValue::Uint64(0x1000))));
    assert!(matches!(p.read_register(Register::RSP), Some(RegisterValue::Uint64(0))));
}

#[test]
fn attach_by_pid_when_configured() {
    let mut o = options();
    o.pid = Some(1234);
    let p = Process::new(o);
    assert!(matches!(p.attach(vec![]), Some(AttachRequest::Pid(1234))));
}

#[test]
fn continue_to_exit_clears_registers() {
    let mut p = stopped_process();
    assert_eq!(p.resume(), Ok(Some(42)));
    p.resumed();
    assert_eq!(p.state(), ProcessState::Running);
    assert!(p.read_register(Register::RIP).is_none());
    assert_eq!(p.resume(), Ok(None));
    assert_eq!(p.wait_on_signal(Ok(WaitStatus::Exited(0))), Ok(false));
    assert_eq!(p.state(), ProcessState::Exited);
    assert!(p.read_register(Register::RIP).is_none());
    assert_eq!(p.pid(), None);
    assert_eq!(p.resume(), Err(DebugError::State));
    assert_eq!(p.wait_target(), Err(DebugError::State));
}

#[test]
fn signal_terminates() {
    let mut p = stopped_process();
    p.resumed();
    assert_eq!(p.wait_on_signal(Ok(WaitStatus::Signaled(9))), Ok(false));
    assert_eq!(p.state(), ProcessState::Terminated);
}

#[test]
fn failed_wait_changes_nothing() {
    let mut p = stopped_process();
    assert_eq!(p.wait_on_signal(Err(10)), Err(DebugError::Syscall(10)));
    assert_eq!(p.state(), ProcessState::Stopped);
    assert!(p.read_register(Register::RIP).is_some());
}

#[test]
fn resume_then_stop_refreshes_snapshot() {
    let mut p = stopped_process();
    let before = p.read_register(Register::RIP);
    let again = p.read_register(Register::RIP);
    assert!(matches!((before, again), (Some(RegisterValue::Uint64(a)), Some(RegisterValue::Uint64(b))) if a == b));
    p.resumed();
    assert_eq!(p.wait_on_signal(Ok(WaitStatus::Stopped(5))), Ok(true));
    p.refresh_registers(snapshot(ADDR + 1));
    assert!(matches!(p.read_register(Register::RIP), Some(RegisterValue::Uint64(v)) if v == ADDR + 1));
}

#[test]
fn break_twice_is_duplicate() {
    let mut p = Process::new(options());
    let mut m = Memory { words: HashMap::new() };
    assert_eq!(run_breakpoint(&mut p, &mut m, BreakpointCommand::Create(VirtualAddress::new(ADDR))), Ok(()));
    assert_eq!(
        run_breakpoint(&mut p, &mut m, BreakpointCommand::Create(VirtualAddress::new(ADDR))),
        Err(DebugError::Duplicate)
    );
    let bps = p.breakpoints();
    assert_eq!(bps.len(), 1);
    assert_eq!(bps[0].id, StoppointId { id: 1 });
    assert_eq!(bps[0].state, StoppointState::Enabled);
}

#[test]
fn enable_then_disable_restores_the_byte() {
    let mut p = stopped_process();
    let original: i64 = 0x1122_3344_5566_7755;
    let mut m = Memory { words: HashMap::from([(ADDR, original)]) };
    run_breakpoint(&mut p, &mut m, BreakpointCommand::Create(VirtualAddress::new(ADDR))).unwrap();
    assert_eq!(m.words[&ADDR] & 0xff, 0xcc);
    assert_eq!(m.words[&ADDR] >> 8, original >> 8);
    let id = p.breakpoints()[0].id;
    // enabling again is idempotent: no patch
    assert_eq!(p.plan_breakpoint_command(BreakpointCommand::Enable(id)), Ok(None));
    run_breakpoint(&mut p, &mut m, BreakpointCommand::Enable(id)).unwrap();
    run_breakpoint(&mut p, &mut m, BreakpointCommand::Disable(id)).unwrap();
    assert_eq!(m.words[&ADDR], original);
    assert_eq!(p.breakpoints()[0].state, StoppointState::Disabled);
    // disabling again is idempotent
    assert_eq!(p.plan_breakpoint_command(BreakpointCommand::Disable(id)), Ok(None));
    run_breakpoint(&mut p, &mut m, BreakpointCommand::Disable(id)).unwrap();
    assert_eq!(m.words[&ADDR], original);
    run_breakpoint(&mut p, &mut m, BreakpointCommand::Enable(id)).unwrap();
    assert_eq!(m.words[&ADDR] & 0xff, 0xcc);
    run_breakpoint(&mut p, &mut m, BreakpointCommand::Delete(id)).unwrap();
    assert_eq!(m.words[&ADDR], original);
    assert!(p.breakpoints().is_empty());
}

#[test]
fn patch_failure_leaves_breakpoints_unchanged() {
    let mut p = stopped_process();
    let mut m = Memory { words: HashMap::new() };
    assert_eq!(
        run_breakpoint(&mut p, &mut m, BreakpointCommand::Create(VirtualAddress::new(8))),
        Err(DebugError::Syscall(5))
    );
    assert!(p.breakpoints().is_empty());
    // the id was used up: the next breakpoint gets a fresh one
    m.words.insert(16, 0);
    run_breakpoint(&mut p, &mut m, BreakpointCommand::Create(VirtualAddress::new(16))).unwrap();
    assert_eq!(p.breakpoints()[0].id, StoppointId { id: 2 });
}

#[test]
fn ids_never_repeat() {
    let mut p = Process::new(options());
    let mut m = Memory { words: HashMap::new() };
    run_breakpoint(&mut p, &mut m, BreakpointCommand::Create(VirtualAddress::new(1))).unwrap();
    let first = p.breakpoints()[0].id;
    run_breakpoint(&mut p, &mut m, BreakpointCommand::Delete(first)).unwrap();
    run_breakpoint(&mut p, &mut m, BreakpointCommand::Create(VirtualAddress::new(1))).unwrap();
    let second = p.breakpoints()[0].id;
    assert!(second.id > first.id);
}

#[test]
fn unknown_ids_are_not_found() {
    let mut p = Process::new(options());
    let mut m = Memory { words: HashMap::new() };
    for cmd in [
        BreakpointCommand::Delete(StoppointId { id: 3 }),
        BreakpointCommand::Enable(StoppointId { id: 3 }),
        BreakpointCommand::Disable(StoppointId { id: 3 }),
    ] {
        assert_eq!(run_breakpoint(&mut p, &mut m, cmd), Err(DebugError::NotFound));
    }
}

#[test]
fn breakpoints_are_armed_after_launch() {
    let mut p = Process::new(options());
    let mut m = Memory { words: HashMap::from([(ADDR, 0x90)]) };
    run_breakpoint(&mut p, &mut m, BreakpointCommand::Create(VirtualAddress::new(ADDR))).unwrap();
    assert_eq!(m.words[&ADDR], 0x90);
    p.attached(42, true);
    p.wait_on_signal(Ok(WaitStatus::Stopped(19))).unwrap();
    let id = p.next_unarmed_breakpoint().expect("one to arm");
    run_breakpoint(&mut p, &mut m, BreakpointCommand::Enable(id)).unwrap();
    assert_eq!(m.words[&ADDR], 0xcc);
    assert_eq!(p.next_unarmed_breakpoint(), None);
}

#[test]
fn destroy_from_running_stops_detaches_and_kills() {
    let mut p = Process::new(options());
    p.attached(42, true);
    assert_eq!(
        p.destroy(),
        vec![
            TeardownStep::Signal(TraceSignal::Stop),
            TeardownStep::Wait,
            TeardownStep::Detach,
            TeardownStep::Signal(TraceSignal::Continue),
            TeardownStep::Signal(TraceSignal::Kill),
            TeardownStep::Wait,
            TeardownStep::JoinReader,
        ]
    );
    p.destroyed();
    assert_eq!(p.state(), ProcessState::Unknown);
    assert!(p.destroy().is_empty());
}

#[test]
fn destroy_of_attached_process_does_not_kill() {
    let mut p = Process::new(options());
    p.attached(42, false);
    let steps = p.destroy();
    assert!(!steps.contains(&TeardownStep::Signal(TraceSignal::Kill)));
    assert_eq!(steps.len(), 5);
}

#[test]
fn destroy_when_stopped_does_nothing() {
    let p = stopped_process();
    assert!(p.destroy().is_empty());
}

#[test]
fn inferior_output_keeps_non_empty_lines() {
    let mut p = Process::new(options());
    p.receive_inferior_logging("HELLO_FROM_INFERIOR\n");
    p.receive_inferior_logging("a\n\nb");
    p.receive_inferior_logging("c\r\n");
    assert_eq!(p.last_n_log_lines(4), vec!["HELLO_FROM_INFERIOR", "a", "b", "c"]);
    assert_eq!(p.last_n_log_lines(2), vec!["b", "c"]);
    assert_eq!(p.last_n_log_lines(10).len(), 4);
    p.attached(1, true);
    assert!(p.last_n_log_lines(4).is_empty());
}

#[test]
fn refused_commands_change_nothing() {
    let mut p = Process::new(options());
    let a = VirtualAddress::new(ADDR);
    assert_eq!(p.breakpoint_command(BreakpointCommand::Create(a), None), Ok(()));
    assert_eq!(p.breakpoint_command(BreakpointCommand::Create(a), None), Err(DebugError::Duplicate));
    let unknown = StoppointId { id: 9 };
    assert_eq!(p.breakpoint_command(BreakpointCommand::Enable(unknown), None), Err(DebugError::NotFound));
    assert_eq!(p.breakpoint_command(BreakpointCommand::Disable(unknown), None), Err(DebugError::NotFound));
    assert_eq!(p.breakpoint_command(BreakpointCommand::Delete(unknown), None), Err(DebugError::NotFound));
    let bps = p.breakpoints();
    assert_eq!(bps.len(), 1);
    assert_eq!(bps[0].address, a);
}
