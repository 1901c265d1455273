//! The process controller: the state machine that couples debugger commands to
//! the tracee's states. Every system call on the tracee is made by the caller:
//! the controller says what to do, and is told what came of it.

use std::collections::HashMap;
use vstd::prelude::*;

use crate::debugger::BreakpointCommand;
use crate::error::DebugError;
use crate::lexer::{split_lines, text_lines};
use crate::options::{Aslr, Options};
use crate::register_info::{info_of, Register};
use crate::registers::{decodes_to, register_bytes, RegisterSnapshot, RegisterValue, SnapshotView};
use crate::stoppoint::{
    BreakpointSite, StoppointId, StoppointState, VirtualAddress, INTERRUPT_INSTRUCTION,
};

verus! {

broadcast use vstd::std_specs::hash::group_hash_axioms;

/// What the debugger knows of the inferior.
#[derive(Clone, Copy, Debug, PartialEq, Eq, Structural)]
pub enum ProcessState {
    /// Nothing has been launched or attached to yet, or it was let go.
    Unknown,
    /// The inferior is stopped, awaiting the debugger.
    Stopped,
    Running,
    /// The inferior exited normally.
    Exited,
    /// A signal ended the inferior.
    Terminated,
}

/// What waiting for the inferior observed.
#[derive(Clone, Copy, Debug, PartialEq, Eq, Structural)]
pub enum WaitStatus {
    /// It exited with this code.
    Exited(i32),
    /// This signal ended it.
    Signaled(i32),
    /// This signal stopped it.
    Stopped(i32),
    /// Any other change.
    Other,
}

/// A signal that the controller sends to the inferior.
#[derive(Clone, Copy, Debug, PartialEq, Eq, Structural)]
pub enum TraceSignal {
    Stop,
    Continue,
    Kill,
}

/// Replace the byte at `address` of the tracee's memory with `byte`, keeping the
/// rest of the machine word there; what comes back is the byte that was there.
#[derive(Clone, Copy, Debug, PartialEq, Eq, Structural)]
pub struct BytePatch {
    pub address: VirtualAddress,
    pub byte: u8,
}

/// One step of letting the inferior go.
#[derive(Clone, Copy, Debug, PartialEq, Eq, Structural)]
pub enum TeardownStep {
    Signal(TraceSignal),
    Wait,
    Detach,
    /// Stop and join the worker that forwards the inferior's output.
    JoinReader,
}

/// How to get hold of an inferior.
#[derive(Clone, Debug)]
pub enum AttachRequest {
    /// Launch the executable under a fresh pseudo-terminal, traced from its first
    /// instruction.
    Launch { executable: String, args: Vec<String>, aslr: Aslr },
    /// Attach to the running process with this id.
    Pid(i32),
}

/// A live tracee: its pid and, for each breakpoint patched into its memory,
/// the byte that its `int3` patch replaced.
pub struct Inferior {
    pid: i32,
    breakpoint_sites: HashMap<i32, u8>,
}

pub struct InferiorView {
    pub pid: int,
    /// Saved bytes, by breakpoint id.
    pub sites: Map<i32, u8>,
}

impl View for Inferior {
    type V = InferiorView;

    closed spec fn view(&self) -> InferiorView {
        InferiorView { pid: self.pid as int, sites: self.breakpoint_sites@ }
    }
}

/// The byte saved for breakpoint `id`, if it is patched in.
pub open spec fn saved_in(sites: Map<i32, u8>, id: StoppointId) -> Option<u8> {
    if sites.contains_key(id.id) {
        Some(sites[id.id])
    } else {
        None
    }
}

impl Inferior {
    /// A tracee with no breakpoint patched in.
    pub fn new(pid: i32) -> (r: Inferior)
        ensures
            r@.pid == pid,
            r@.sites == Map::<i32, u8>::empty(),
    {
        Inferior { pid, breakpoint_sites: HashMap::new() }
    }

    pub fn pid(&self) -> (r: i32)
        ensures
            r == self@.pid,
    {
        self.pid
    }

    /// The byte saved for breakpoint `id`, if it is patched in.
    pub fn saved_byte(&self, id: StoppointId) -> (r: Option<u8>)
        ensures
            r == saved_in(self@.sites, id),
    {
        match self.breakpoint_sites.get(&id.id) {
            Some(b) => Some(*b),
            None => None,
        }
    }

    /// The patch that enables `site` in the tracee: its byte becomes `int3`.
    /// None when it is already patched in: enabling it again changes nothing.
    pub fn enable_breakpoint_site(&self, site: &BreakpointSite) -> (r: Option<BytePatch>)
        ensures
            r == enable_patch(saved_in(self@.sites, site.id), site.address),
    {
        match self.saved_byte(site.id) {
            Some(_) => None,
            None => Some(BytePatch { address: site.address, byte: INTERRUPT_INSTRUCTION }),
        }
    }

    /// The patch that disables `site` in the tracee: its saved byte goes back.
    /// None when it is not patched in.
    pub fn disable_breakpoint_site(&self, site: &BreakpointSite) -> (r: Option<BytePatch>)
        ensures
            r == disable_patch(saved_in(self@.sites, site.id), site.address),
    {
        match self.saved_byte(site.id) {
            Some(b) => Some(BytePatch { address: site.address, byte: b }),
            None => None,
        }
    }

    /// Records that breakpoint `id` is patched in over the byte `saved`.
    fn record_site(&mut self, id: StoppointId, saved: u8)
        ensures
            final(self)@ == (InferiorView { sites: old(self)@.sites.insert(id.id, saved), ..old(self)@ }),
    {
        self.breakpoint_sites.insert(id.id, saved);
    }

    /// Records that breakpoint `id` is no longer patched in.
    fn forget_site(&mut self, id: StoppointId)
        ensures
            final(self)@ == (InferiorView { sites: old(self)@.sites.remove(id.id), ..old(self)@ }),
    {
        self.breakpoint_sites.remove(&id.id);
    }
}

/// The patch that enables a breakpoint at `address` whose saved byte is `saved`.
pub open spec fn enable_patch(saved: Option<u8>, address: VirtualAddress) -> Option<BytePatch> {
    match saved {
        Some(_) => None,
        None => Some(BytePatch { address, byte: INTERRUPT_INSTRUCTION }),
    }
}

/// The patch that disables a breakpoint at `address` whose saved byte is `saved`.
pub open spec fn disable_patch(saved: Option<u8>, address: VirtualAddress) -> Option<BytePatch> {
    match saved {
        Some(b) => Some(BytePatch { address, byte: b }),
        None => None,
    }
}

/// The controller's state as plain values.
pub struct ProcessView {
    pub executable: Seq<char>,
    pub aslr: Aslr,
    /// The running process to attach to instead of launching one.
    pub attach_pid: Option<i32>,
    pub state: ProcessState,
    pub inferior: Option<InferiorView>,
    pub registers: Option<SnapshotView>,
    /// The inferior's output, one entry per non-empty line.
    pub output: Seq<Seq<char>>,
    /// The user's breakpoints; they outlive any one inferior.
    pub breakpoints: Seq<BreakpointSite>,
    /// The id that the next breakpoint gets.
    pub next_id: int,
    /// Whether the controller launched the inferior (rather than attaching to it).
    pub launched: bool,
}

/// The position of breakpoint `id` among the records.
pub open spec fn index_of_id(bps: Seq<BreakpointSite>, id: StoppointId) -> Option<int> {
    if exists|i: int| 0 <= i < bps.len() && (#[trigger] bps[i]).id == id {
        Some(choose|i: int| 0 <= i < bps.len() && (#[trigger] bps[i]).id == id)
    } else {
        None
    }
}

/// Whether a breakpoint exists at `address`.
pub open spec fn has_address(bps: Seq<BreakpointSite>, address: VirtualAddress) -> bool {
    exists|i: int| 0 <= i < bps.len() && (#[trigger] bps[i]).address == address
}

/// The controller's invariant.
pub open spec fn process_wf(p: ProcessView) -> bool {
    &&& 1 <= p.next_id <= i32::MAX
    &&& forall|i: int|
        0 <= i < p.breakpoints.len() ==> 1 <= (#[trigger] p.breakpoints[i]).id.id < p.next_id
    &&& forall|i: int, j: int|
        0 <= i < p.breakpoints.len() && 0 <= j < p.breakpoints.len() && i != j ==> (
        #[trigger] p.breakpoints[i]).id != (#[trigger] p.breakpoints[j]).id
            && p.breakpoints[i].address != p.breakpoints[j].address
    &&& (p.inferior is Some <==> (p.state == ProcessState::Stopped || p.state
        == ProcessState::Running))
    &&& (p.registers is Some ==> p.state == ProcessState::Stopped)
}

/// What a breakpoint command asks of the tracee: at most one byte patch. An
/// unknown id is NotFound, an occupied address Duplicate.
pub open spec fn breakpoint_plan(p: ProcessView, command: BreakpointCommand) -> Result<
    Option<BytePatch>,
    DebugError,
> {
    match command {
        BreakpointCommand::Create(a) => {
            if has_address(p.breakpoints, a) {
                Err(DebugError::Duplicate)
            } else if p.next_id >= i32::MAX {
                Err(DebugError::IdsExhausted)
            } else {
                Ok(
                    match p.inferior {
                        Some(_) => Some(BytePatch { address: a, byte: INTERRUPT_INSTRUCTION }),
                        None => None,
                    },
                )
            }
        },
        BreakpointCommand::Enable(id) => match index_of_id(p.breakpoints, id) {
            None => Err(DebugError::NotFound),
            Some(i) => Ok(
                match p.inferior {
                    Some(inf) => enable_patch(saved_in(inf.sites, id), p.breakpoints[i].address),
                    None => None,
                },
            ),
        },
        BreakpointCommand::Delete(id) => disable_plan(p, id),
        BreakpointCommand::Disable(id) => disable_plan(p, id),
    }
}

/// The patch that takes breakpoint `id` out of the tracee, if it is patched in.
pub open spec fn disable_plan(p: ProcessView, id: StoppointId) -> Result<Option<BytePatch>, DebugError> {
    match index_of_id(p.breakpoints, id) {
        None => Err(DebugError::NotFound),
        Some(i) => Ok(
            match p.inferior {
                Some(inf) => disable_patch(saved_in(inf.sites, id), p.breakpoints[i].address),
                None => None,
            },
        ),
    }
}

/// The inferior with its saved-byte slots changed by `f`.
pub open spec fn with_sites(inf: Option<InferiorView>, sites: spec_fn(Map<i32, u8>) -> Map<i32, u8>) -> Option<InferiorView> {
    match inf {
        Some(i) => Some(InferiorView { pid: i.pid, sites: sites(i.sites) }),
        None => None,
    }
}

/// The saved byte that a patch outcome leaves for a breakpoint being enabled.
pub open spec fn saved_after(outcome: Option<Result<u8, i32>>) -> Option<u8> {
    match outcome {
        Some(Ok(b)) => Some(b),
        _ => None,
    }
}

/// The controller after a breakpoint command whose patch, if it planned one,
/// had `outcome` (the byte it replaced, or the errno of the failure), with the
/// command's result. A failed patch changes no breakpoint.
pub open spec fn breakpoint_applied(
    p: ProcessView,
    command: BreakpointCommand,
    outcome: Option<Result<u8, i32>>,
) -> (ProcessView, Result<(), DebugError>) {
    let bps = p.breakpoints;
    match outcome {
        Some(Err(e)) => (
            match command {
                BreakpointCommand::Create(_) => ProcessView { next_id: p.next_id + 1, ..p },
                _ => p,
            },
            Err(DebugError::Syscall(e)),
        ),
        _ => match command {
            BreakpointCommand::Create(a) => (
                ProcessView {
                    breakpoints: bps.push(
                        BreakpointSite {
                            id: StoppointId { id: p.next_id as i32 },
                            address: a,
                            state: StoppointState::Enabled,
                        },
                    ),
                    inferior: match saved_after(outcome) {
                        Some(b) => with_sites(p.inferior, |s: Map<i32, u8>| s.insert(p.next_id as i32, b)),
                        None => p.inferior,
                    },
                    next_id: p.next_id + 1,
                    ..p
                },
                Ok(()),
            ),
            BreakpointCommand::Delete(id) => {
                let i = index_of_id(bps, id)->Some_0;
                (
                    ProcessView {
                        breakpoints: bps.remove(i),
                        inferior: with_sites(p.inferior, |s: Map<i32, u8>| s.remove(id.id)),
                        ..p
                    },
                    Ok(()),
                )
            },
            BreakpointCommand::Enable(id) => {
                let i = index_of_id(bps, id)->Some_0;
                (
                    ProcessView {
                        breakpoints: bps.update(i, BreakpointSite { state: StoppointState::Enabled, ..bps[i] }),
                        inferior: match saved_after(outcome) {
                            Some(b) => with_sites(p.inferior, |s: Map<i32, u8>| s.insert(id.id, b)),
                            None => p.inferior,
                        },
                        ..p
                    },
                    Ok(()),
                )
            },
            BreakpointCommand::Disable(id) => {
                let i = index_of_id(bps, id)->Some_0;
                (
                    ProcessView {
                        breakpoints: bps.update(i, BreakpointSite { state: StoppointState::Disabled, ..bps[i] }),
                        inferior: with_sites(p.inferior, |s: Map<i32, u8>| s.remove(id.id)),
                        ..p
                    },
                    Ok(()),
                )
            },
        },
    }
}

/// The controller after waiting for the inferior observed `status`: an exit or
/// a fatal signal tears the inferior down, a stop leaves it Stopped with its
/// snapshot to be refreshed.
pub open spec fn after_wait(p: ProcessView, status: WaitStatus) -> ProcessView {
    match status {
        WaitStatus::Exited(_) => ProcessView {
            state: ProcessState::Exited,
            inferior: None,
            registers: None,
            ..p
        },
        WaitStatus::Signaled(_) => ProcessView {
            state: ProcessState::Terminated,
            inferior: None,
            registers: None,
            ..p
        },
        WaitStatus::Stopped(_) => ProcessView { state: ProcessState::Stopped, registers: None, ..p },
        WaitStatus::Other => p,
    }
}

/// The steps that let a running inferior go: stop it, wait, detach, let it
/// continue, and, when the controller launched it, kill it and reap it; then
/// join the output worker. Nothing unless it is Running.
pub open spec fn teardown_steps(p: ProcessView) -> Seq<TeardownStep> {
    if p.state != ProcessState::Running {
        Seq::empty()
    } else if p.launched {
        seq![
            TeardownStep::Signal(TraceSignal::Stop),
            TeardownStep::Wait,
            TeardownStep::Detach,
            TeardownStep::Signal(TraceSignal::Continue),
            TeardownStep::Signal(TraceSignal::Kill),
            TeardownStep::Wait,
            TeardownStep::JoinReader,
        ]
    } else {
        seq![
            TeardownStep::Signal(TraceSignal::Stop),
            TeardownStep::Wait,
            TeardownStep::Detach,
            TeardownStep::Signal(TraceSignal::Continue),
            TeardownStep::JoinReader,
        ]
    }
}

/// The position of the first breakpoint from position `i` on that is meant to
/// trap but is not patched into the live inferior.
pub open spec fn first_unarmed_from(p: ProcessView, inf: InferiorView, i: int) -> Option<int>
    decreases p.breakpoints.len() - i,
{
    if i < 0 || i >= p.breakpoints.len() {
        None
    } else if unarmed(p, inf, i) {
        Some(i)
    } else {
        first_unarmed_from(p, inf, i + 1)
    }
}

/// The position of the first breakpoint that is meant to trap but is not
/// patched into the live inferior.
pub open spec fn first_unarmed(p: ProcessView) -> Option<int> {
    match p.inferior {
        None => None,
        Some(inf) => first_unarmed_from(p, inf, 0),
    }
}

/// Breakpoint `i` is enabled but not patched in.
pub open spec fn unarmed(p: ProcessView, inf: InferiorView, i: int) -> bool {
    p.breakpoints[i].state == StoppointState::Enabled && !inf.sites.contains_key(p.breakpoints[i].id.id)
}

/// The snapshot's view, if there is one.
pub open spec fn snapshot_view(s: Option<RegisterSnapshot>) -> Option<SnapshotView> {
    match s {
        Some(r) => Some(r@),
        None => None,
    }
}

/// The inferior's view, if there is one.
pub open spec fn inferior_view(i: Option<Inferior>) -> Option<InferiorView> {
    match i {
        Some(x) => Some(x@),
        None => None,
    }
}

/// The controller of one inferior at a time.
pub struct Process {
    cli_options: Options,
    state: ProcessState,
    target_process: Option<Inferior>,
    registers: Option<RegisterSnapshot>,
    inferior_output: Vec<String>,
    breakpoint_sites: Vec<BreakpointSite>,
    next_id: i32,
    launched: bool,
}

impl View for Process {
    type V = ProcessView;

    closed spec fn view(&self) -> ProcessView {
        ProcessView {
            executable: self.cli_options.executable@,
            aslr: self.cli_options.aslr,
            attach_pid: self.cli_options.pid,
            state: self.state,
            inferior: inferior_view(self.target_process),
            registers: snapshot_view(self.registers),
            output: crate::stoppoint::texts(self.inferior_output@),
            breakpoints: self.breakpoint_sites@,
            next_id: self.next_id as int,
            launched: self.launched,
        }
    }
}

impl Process {
    pub open spec fn wf(&self) -> bool {
        process_wf(self@)
    }

    /// A controller for the configured executable, with nothing launched and no
    /// breakpoints.
    pub fn new(cli_options: Options) -> (r: Process)
        ensures
            r.wf(),
            r@.executable == cli_options.executable@,
            r@.aslr == cli_options.aslr,
            r@.attach_pid == cli_options.pid,
            r@.state == ProcessState::Unknown,
            r@.inferior is None,
            r@.registers is None,
            r@.output.len() == 0,
            r@.breakpoints.len() == 0,
            r@.next_id == 1,
    {
        let r = Process {
            cli_options,
            state: ProcessState::Unknown,
            target_process: None,
            registers: None,
            inferior_output: Vec::new(),
            breakpoint_sites: Vec::new(),
            next_id: 1,
            launched: false,
        };
        proof {
            assert(r@.output =~= Seq::<Seq<char>>::empty());
        }
        r
    }

    pub fn state(&self) -> (r: ProcessState)
        ensures
            r == self@.state,
    {
        self.state
    }

    /// The pid of the live inferior.
    pub fn pid(&self) -> (r: Option<i32>)
        ensures
            match self@.inferior {
                Some(inf) => r == Some(inf.pid as i32),
                None => r is None,
            },
    {
        match &self.target_process {
            Some(inferior) => Some(inferior.pid()),
            None => None,
        }
    }

    /// The breakpoints, in the order they were created.
    pub fn breakpoints(&self) -> (r: Vec<BreakpointSite>)
        ensures
            r@ == self@.breakpoints,
    {
        let mut r: Vec<BreakpointSite> = Vec::new();
        let mut i: usize = 0;
        while i < self.breakpoint_sites.len()
            invariant
                i <= self.breakpoint_sites@.len(),
                r@ == self.breakpoint_sites@.take(i as int),
            decreases self.breakpoint_sites@.len() - i,
        {
            r.push(self.breakpoint_sites[i]);
            proof {
                assert(r@ =~= self.breakpoint_sites@.take(i + 1));
            }
            i = i + 1;
        }
        proof {
            assert(r@ =~= self.breakpoint_sites@);
        }
        r
    }

    /// The value of `register` in the snapshot taken at the last stop; None when
    /// there is no snapshot (nothing stopped yet, or resumed since).
    pub fn read_register(&self, register: Register) -> (r: Option<RegisterValue>)
        ensures
            register_read(self@, register, r),
            r is Some <==> self@.registers is Some,
            r matches Some(v) ==> decodes_to(
                info_of(register).format,
                register_bytes(self@.registers->Some_0, info_of(register)),
                v,
            ),
    {
        match &self.registers {
            Some(snapshot) => Some(snapshot.read(&register)),
            None => None,
        }
    }

    /// The position of breakpoint `id` among the records.
    fn find_breakpoint(&self, id: StoppointId) -> (r: Option<usize>)
        requires
            self.wf(),
        ensures
            r is None <==> index_of_id(self@.breakpoints, id) is None,
            r matches Some(i) ==> index_of_id(self@.breakpoints, id) == Some(i as int),
    {
        let mut i: usize = 0;
        while i < self.breakpoint_sites.len()
            invariant
                i <= self@.breakpoints.len(),
                self@.breakpoints == self.breakpoint_sites@,
                process_wf(self@),
                forall|k: int| 0 <= k < i ==> (#[trigger] self@.breakpoints[k]).id != id,
            decreases self@.breakpoints.len() - i,
        {
            if self.breakpoint_sites[i].id.id == id.id {
                proof {
                    let bps = self@.breakpoints;
                    assert(bps[i as int].id == id);
                    let j = choose|j: int| 0 <= j < bps.len() && (#[trigger] bps[j]).id == id;
                    assert(j == i);
                }
                return Some(i);
            }
            i = i + 1;
        }
        None
    }

    /// Whether a breakpoint exists at `address`.
    fn has_breakpoint_at(&self, address: VirtualAddress) -> (r: bool)
        ensures
            r == has_address(self@.breakpoints, address),
    {
        let mut i: usize = 0;
        while i < self.breakpoint_sites.len()
            invariant
                i <= self@.breakpoints.len(),
                self@.breakpoints == self.breakpoint_sites@,
                forall|k: int| 0 <= k < i ==> (#[trigger] self@.breakpoints[k]).address != address,
            decreases self@.breakpoints.len() - i,
        {
            if self.breakpoint_sites[i].at_address(address) {
                return true;
            }
            i = i + 1;
        }
        false
    }

    fn plan_disable(&self, id: StoppointId) -> (r: Result<Option<BytePatch>, DebugError>)
        requires
            self.wf(),
        ensures
            r == disable_plan(self@, id),
    {
        match self.find_breakpoint(id) {
            None => Err(DebugError::NotFound),
            Some(i) => match &self.target_process {
                Some(inferior) => {
                    Ok(inferior.disable_breakpoint_site(&self.breakpoint_sites[i]))
                },
                None => Ok(None),
            },
        }
    }

    /// How to get hold of an inferior, or None when one is Running already
    /// (attaching again changes nothing).
    pub fn attach(&self, args: Vec<String>) -> (r: Option<AttachRequest>)
        ensures
            r is None <==> self@.state == ProcessState::Running,
            r matches Some(AttachRequest::Launch { executable, args: a, aslr }) ==> self@.attach_pid
                is None && executable@ == self@.executable && crate::stoppoint::texts(a@)
                == crate::stoppoint::texts(args@) && aslr == self@.aslr,
            r matches Some(AttachRequest::Pid(pid)) ==> self@.attach_pid == Some(pid),
            self@.state != ProcessState::Running ==> (r matches Some(AttachRequest::Pid(_))
                <==> self@.attach_pid is Some),
    {
        if matches!(self.state, ProcessState::Running) {
            return None;
        }
        match self.cli_options.pid {
            Some(pid) => Some(AttachRequest::Pid(pid)),
            None => Some(
                AttachRequest::Launch {
                    executable: self.cli_options.executable.clone(),
                    args,
                    aslr: self.cli_options.aslr,
                },
            ),
        }
    }

    /// Records that the inferior `pid` was launched (`launched`) or attached to,
    /// and is running towards its first stop: its output so far is dropped and
    /// no breakpoint is patched into it yet.
    pub fn attached(&mut self, pid: i32, launched: bool)
        requires
            old(self).wf(),
        ensures
            final(self).wf(),
            final(self)@ == (ProcessView {
                state: ProcessState::Running,
                inferior: Some(
                    InferiorView {
                        pid: pid as int,
                        sites: Map::empty(),
                    },
                ),
                registers: None,
                output: Seq::empty(),
                launched,
                ..old(self)@
            }),
    {
        self.inferior_output = Vec::new();
        self.target_process = Some(Inferior::new(pid));
        self.registers = None;
        self.state = ProcessState::Running;
        self.launched = launched;
        proof {
            assert(self@.output =~= Seq::<Seq<char>>::empty());
        }
    }

    /// The first breakpoint that is meant to trap but is not patched into the
    /// live inferior, to be enabled with `Enable` after a launch.
    pub fn next_unarmed_breakpoint(&self) -> (r: Option<StoppointId>)
        requires
            self.wf(),
        ensures
            match first_unarmed(self@) {
                Some(i) => r == Some(self@.breakpoints[i].id),
                None => r is None,
            },
    {
        match &self.target_process {
            None => None,
            Some(inferior) => {
                let mut i: usize = 0;
                while i < self.breakpoint_sites.len()
                    invariant
                        i <= self@.breakpoints.len(),
                        self.wf(),
                        self@.inferior == Some(inferior@),
                        self@.breakpoints == self.breakpoint_sites@,
                        first_unarmed_from(self@, inferior@, 0) == first_unarmed_from(self@, inferior@, i as int),
                    decreases self@.breakpoints.len() - i,
                {
                    if self.breakpoint_sites[i].is_enabled() && inferior.saved_byte(self.breakpoint_sites[i].id).is_none() {
                        return Some(self.breakpoint_sites[i].id);
                    }
                    i = i + 1;
                }
                None
            },
        }
    }

    /// The pid to wait for: that of the live inferior.
    pub fn wait_target(&self) -> (r: Result<i32, DebugError>)
        ensures
            match self@.inferior {
                Some(inf) => r == Ok::<i32, DebugError>(inf.pid as i32),
                None => r == Err::<i32, DebugError>(DebugError::State),
            },
    {
        match &self.target_process {
            Some(inferior) => Ok(inferior.pid()),
            None => Err(DebugError::State),
        }
    }

    /// Takes in what waiting for the inferior gave: the status it observed, or
    /// the errno of the failure (which changes nothing). The result says whether
    /// the inferior stopped, and so whether its registers should be read and
    /// handed to `refresh_registers`.
    pub fn wait_on_signal(&mut self, outcome: Result<WaitStatus, i32>) -> (r: Result<bool, DebugError>)
        requires
            old(self).wf(),
        ensures
            final(self).wf(),
            match outcome {
                Err(e) => final(self)@ == old(self)@ && r == Err::<bool, DebugError>(DebugError::Syscall(e)),
                Ok(status) => {
                    &&& (old(self)@.inferior is Some ==> final(self)@ == after_wait(old(self)@, status))
                    &&& (old(self)@.inferior is None ==> final(self)@ == old(self)@)
                    &&& r == Ok::<bool, DebugError>(old(self)@.inferior is Some && status is Stopped)
                },
            },
    {
        let status = match outcome {
            Err(e) => {
                return Err(DebugError::Syscall(e));
            },
            Ok(s) => s,
        };
        if self.target_process.is_none() {
            return Ok(false);
        }
        match status {
            WaitStatus::Exited(_) => {
                self.state = ProcessState::Exited;
                self.target_process = None;
                self.registers = None;
                Ok(false)
            },
            WaitStatus::Signaled(_) => {
                self.state = ProcessState::Terminated;
                self.target_process = None;
                self.registers = None;
                Ok(false)
            },
            WaitStatus::Stopped(_) => {
                self.state = ProcessState::Stopped;
                self.registers = None;
                Ok(true)
            },
            WaitStatus::Other => Ok(false),
        }
    }

    /// Keeps `snapshot`, the registers read at the stop just observed.
    pub fn refresh_registers(&mut self, snapshot: RegisterSnapshot)
        requires
            old(self).wf(),
            old(self)@.state == ProcessState::Stopped,
        ensures
            final(self).wf(),
            final(self)@ == (ProcessView { registers: Some(snapshot@), ..old(self)@ }),
    {
        self.registers = Some(snapshot);
    }

    /// The pid to continue: Some when the inferior is Stopped, None when it is
    /// Running already (resuming changes nothing); any other state is a
    /// StateError.
    pub fn resume(&self) -> (r: Result<Option<i32>, DebugError>)
        requires
            self.wf(),
        ensures
            self@.state == ProcessState::Stopped ==> r == Ok::<Option<i32>, DebugError>(Some(self@.inferior->Some_0.pid as i32)),
            self@.state == ProcessState::Running ==> r == Ok::<Option<i32>, DebugError>(None),
            self@.state != ProcessState::Stopped && self@.state != ProcessState::Running ==> r
                == Err::<Option<i32>, DebugError>(DebugError::State),
    {
        match self.state {
            ProcessState::Running => Ok(None),
            ProcessState::Stopped => match &self.target_process {
                Some(inferior) => Ok(Some(inferior.pid())),
                None => Err(DebugError::State),
            },
            _ => Err(DebugError::State),
        }
    }

    /// Records that the stopped inferior was continued: it is Running and its
    /// snapshot is no longer valid.
    pub fn resumed(&mut self)
        requires
            old(self).wf(),
            old(self)@.state == ProcessState::Stopped,
        ensures
            final(self).wf(),
            final(self)@ == (ProcessView { state: ProcessState::Running, registers: None, ..old(self)@ }),
    {
        self.state = ProcessState::Running;
        self.registers = None;
    }

    /// The steps that let the inferior go, in order; none unless it is Running.
    pub fn destroy(&self) -> (r: Vec<TeardownStep>)
        ensures
            r@ == teardown_steps(self@),
    {
        let mut r: Vec<TeardownStep> = Vec::new();
        if !matches!(self.state, ProcessState::Running) {
            proof {
                assert(r@ =~= teardown_steps(self@));
            }
            return r;
        }
        r.push(TeardownStep::Signal(TraceSignal::Stop));
        r.push(TeardownStep::Wait);
        r.push(TeardownStep::Detach);
        r.push(TeardownStep::Signal(TraceSignal::Continue));
        if self.launched {
            r.push(TeardownStep::Signal(TraceSignal::Kill));
            r.push(TeardownStep::Wait);
        }
        r.push(TeardownStep::JoinReader);
        proof {
            assert(r@ =~= teardown_steps(self@));
        }
        r
    }

    /// Records that every step of `destroy` was carried out: no inferior is
    /// left, and the state is Unknown again.
    pub fn destroyed(&mut self)
        requires
            old(self).wf(),
        ensures
            final(self).wf(),
            final(self)@ == (ProcessView {
                state: ProcessState::Unknown,
                inferior: None,
                registers: None,
                ..old(self)@
            }),
    {
        self.state = ProcessState::Unknown;
        self.target_process = None;
        self.registers = None;
    }

    /// Keeps the non-empty lines of a chunk of the inferior's output.
    pub fn receive_inferior_logging(&mut self, output: &str)
        ensures
            final(self)@ == (ProcessView { output: old(self)@.output + text_lines(output@), ..old(self)@ }),
    {
        let lines = split_lines(output);
        let ghost before = self@.output;
        let mut i: usize = 0;
        while i < lines.len()
            invariant
                i <= lines@.len(),
                lines@.map_values(|w: String| w@) == text_lines(output@),
                self@ == (ProcessView { output: before + lines@.map_values(|w: String| w@).take(i as int), ..old(self)@ }),
            decreases lines@.len() - i,
        {
            let l = lines[i].clone();
            proof {
                let t = lines@.map_values(|w: String| w@);
                assert(crate::stoppoint::texts(self.inferior_output@.push(l)) =~= crate::stoppoint::texts(self.inferior_output@).push(l@));
                assert(before + t.take(i + 1) =~= (before + t.take(i as int)).push(l@));
            }
            self.inferior_output.push(l);
            i = i + 1;
        }
        proof {
            assert(lines@.map_values(|w: String| w@).take(lines@.len() as int) =~= lines@.map_values(|w: String| w@));
        }
    }

    /// The last `n` lines of the inferior's output (all of them when there are fewer).
    pub fn last_n_log_lines(&self, n: usize) -> (r: Vec<String>)
        ensures
            crate::stoppoint::texts(r@) == self@.output.skip(
                if self@.output.len() > n { self@.output.len() - n } else { 0 },
            ),
    {
        let len = self.inferior_output.len();
        let start: usize = if len > n { len - n } else { 0 };
        let mut r: Vec<String> = Vec::new();
        let mut i: usize = start;
        while i < len
            invariant
                start <= i <= len,
                len == self.inferior_output@.len(),
                crate::stoppoint::texts(r@) == self@.output.subrange(start as int, i as int),
            decreases len - i,
        {
            let l = self.inferior_output[i].clone();
            proof {
                assert(crate::stoppoint::texts(r@.push(l)) =~= crate::stoppoint::texts(r@).push(l@));
                assert(self@.output.subrange(start as int, i + 1) =~= self@.output.subrange(start as int, i as int).push(self@.output[i as int]));
            }
            r.push(l);
            i = i + 1;
        }
        proof {
            assert(self@.output.subrange(start as int, len as int) =~= self@.output.skip(start as int));
        }
        r
    }

    /// Carries out breakpoint command `command`, whose planned patch (see
    /// `plan_breakpoint_command`) had `outcome`: the byte it replaced, or the
    /// errno of its failure; None when no patch was planned. A failed patch
    /// leaves every breakpoint as it was and gives a SyscallError; a command
    /// that the plan refuses (NotFound, Duplicate) changes nothing and gives
    /// the plan's error.
    pub fn breakpoint_command(
        &mut self,
        command: BreakpointCommand,
        outcome: Option<Result<u8, i32>>,
    ) -> (r: Result<(), DebugError>)
        requires
            old(self).wf(),
            breakpoint_plan(old(self)@, command) matches Ok(plan) ==> (plan is Some <==> outcome is Some),
        ensures
            final(self).wf(),
            breakpoint_plan(old(self)@, command) matches Err(e) ==> r == Err::<(), DebugError>(e)
                && final(self)@ == old(self)@,
            breakpoint_plan(old(self)@, command) is Ok ==> final(self)@ == breakpoint_applied(old(self)@, command, outcome).0
                && r == breakpoint_applied(old(self)@, command, outcome).1,
    {
        let ghost p = self@;
        if let Err(e) = self.plan_breakpoint_command(command) {
            return Err(e);
        }
        if let Some(Err(e)) = outcome {
            if let BreakpointCommand::Create(_) = command {
                self.next_id = self.next_id + 1;
            }
            return Err(DebugError::Syscall(e));
        }
        let saved: Option<u8> = match outcome {
            Some(Ok(b)) => Some(b),
            _ => None,
        };
        match command {
            BreakpointCommand::Create(a) => {
                let site = BreakpointSite {
                    id: StoppointId { id: self.next_id },
                    address: a,
                    state: StoppointState::Enabled,
                };
                self.breakpoint_sites.push(site);
                match &mut self.target_process {
                    Some(inferior) => match saved {
                        Some(b) => inferior.record_site(site.id, b),
                        None => {},
                    },
                    None => {},
                }
                self.next_id = self.next_id + 1;
                proof {
                    let q = self@;
                    assert forall|i: int, j: int|
                        0 <= i < q.breakpoints.len() && 0 <= j < q.breakpoints.len() && i != j
                        implies (#[trigger] q.breakpoints[i]).id != (#[trigger] q.breakpoints[j]).id
                        && q.breakpoints[i].address != q.breakpoints[j].address by {
                        if i == q.breakpoints.len() - 1 {
                            assert(q.breakpoints[j] == p.breakpoints[j]);
                        } else if j == q.breakpoints.len() - 1 {
                            assert(q.breakpoints[i] == p.breakpoints[i]);
                        }
                    }
                }
            },
            BreakpointCommand::Delete(id) => {
                let i = match self.find_breakpoint(id) {
                    Some(i) => i,
                    None => {
                        return Err(DebugError::NotFound);
                    },
                };
                self.breakpoint_sites.remove(i);
                match &mut self.target_process {
                    Some(inferior) => inferior.forget_site(id),
                    None => {},
                }
                proof {
                    let q = self@;
                    assert forall|a: int, b: int|
                        0 <= a < q.breakpoints.len() && 0 <= b < q.breakpoints.len() && a != b
                        implies (#[trigger] q.breakpoints[a]).id != (#[trigger] q.breakpoints[b]).id
                        && q.breakpoints[a].address != q.breakpoints[b].address by {
                        let a0 = if a < i { a } else { a + 1 };
                        let b0 = if b < i { b } else { b + 1 };
                        assert(q.breakpoints[a] == p.breakpoints[a0]);
                        assert(q.breakpoints[b] == p.breakpoints[b0]);
                    }
                    assert forall|a: int| 0 <= a < q.breakpoints.len() implies 1 <= (
                    #[trigger] q.breakpoints[a]).id.id < q.next_id by {
                        let a0 = if a < i { a } else { a + 1 };
                        assert(q.breakpoints[a] == p.breakpoints[a0]);
                    }
                }
            },
            BreakpointCommand::Enable(id) => {
                let i = match self.find_breakpoint(id) {
                    Some(i) => i,
                    None => {
                        return Err(DebugError::NotFound);
                    },
                };
                let mut site = self.breakpoint_sites[i];
                site.enable();
                self.breakpoint_sites[i] = site;
                if outcome.is_some() {
                    match &mut self.target_process {
                        Some(inferior) => match saved {
                            Some(b) => inferior.record_site(id, b),
                            None => {},
                        },
                        None => {},
                    }
                }
                proof {
                    lemma_same_keys_keep_records_wf(p, self@);
                }
            },
            BreakpointCommand::Disable(id) => {
                let i = match self.find_breakpoint(id) {
                    Some(i) => i,
                    None => {
                        return Err(DebugError::NotFound);
                    },
                };
                let mut site = self.breakpoint_sites[i];
                site.disable();
                self.breakpoint_sites[i] = site;
                match &mut self.target_process {
                    Some(inferior) => inferior.forget_site(id),
                    None => {},
                }
                proof {
                    lemma_same_keys_keep_records_wf(p, self@);
                }
            },
        }
        Ok(())
    }

    /// What breakpoint command `command` asks of the tracee: at most one byte
    /// patch, to be made before `breakpoint_command` is told its outcome.
    pub fn plan_breakpoint_command(&self, command: BreakpointCommand) -> (r: Result<
        Option<BytePatch>,
        DebugError,
    >)
        requires
            self.wf(),
        ensures
            r == breakpoint_plan(self@, command),
    {
        match command {
            BreakpointCommand::Create(a) => {
                if self.has_breakpoint_at(a) {
                    Err(DebugError::Duplicate)
                } else if self.next_id >= i32::MAX {
                    Err(DebugError::IdsExhausted)
                } else {
                    match &self.target_process {
                        Some(_) => Ok(Some(BytePatch { address: a, byte: INTERRUPT_INSTRUCTION })),
                        None => Ok(None),
                    }
                }
            },
            BreakpointCommand::Enable(id) => match self.find_breakpoint(id) {
                None => Err(DebugError::NotFound),
                Some(i) => match &self.target_process {
                    Some(inferior) => Ok(inferior.enable_breakpoint_site(&self.breakpoint_sites[i])),
                    None => Ok(None),
                },
            },
            BreakpointCommand::Delete(id) => self.plan_disable(id),
            BreakpointCommand::Disable(id) => self.plan_disable(id),
        }
    }
}


/// Records that keep every id and address where it was keep them distinct and
/// below the next id.
proof fn lemma_same_keys_keep_records_wf(p: ProcessView, q: ProcessView)
    requires
        process_wf(p),
        q.next_id == p.next_id,
        q.breakpoints.len() == p.breakpoints.len(),
        forall|k: int|
            0 <= k < q.breakpoints.len() ==> (#[trigger] q.breakpoints[k]).id == p.breakpoints[k].id
                && q.breakpoints[k].address == p.breakpoints[k].address,
    ensures
        forall|a: int| 0 <= a < q.breakpoints.len() ==> 1 <= (#[trigger] q.breakpoints[a]).id.id < q.next_id,
        forall|a: int, b: int|
            0 <= a < q.breakpoints.len() && 0 <= b < q.breakpoints.len() && a != b ==> (
            #[trigger] q.breakpoints[a]).id != (#[trigger] q.breakpoints[b]).id
                && q.breakpoints[a].address != q.breakpoints[b].address,
{
    assert forall|a: int, b: int|
        0 <= a < q.breakpoints.len() && 0 <= b < q.breakpoints.len() && a != b implies (
        #[trigger] q.breakpoints[a]).id != (#[trigger] q.breakpoints[b]).id
        && q.breakpoints[a].address != q.breakpoints[b].address by {
        assert(q.breakpoints[a].id == p.breakpoints[a].id);
        assert(q.breakpoints[b].id == p.breakpoints[b].id);
    }
    assert forall|a: int| 0 <= a < q.breakpoints.len() implies 1 <= (
    #[trigger] q.breakpoints[a]).id.id < q.next_id by {
        assert(q.breakpoints[a].id == p.breakpoints[a].id);
    }
}

/// The tracee's memory, byte by byte, after a patch.
pub open spec fn patched_memory(m: Map<u64, u8>, patch: BytePatch) -> Map<u64, u8> {
    m.insert(patch.address.address, patch.byte)
}

/// With distinct ids, the position of an id is the one that holds it.
proof fn lemma_index_of_id_unique(bps: Seq<BreakpointSite>, id: StoppointId, i: int)
    requires
        0 <= i < bps.len(),
        bps[i].id == id,
        forall|a: int, b: int|
            0 <= a < bps.len() && 0 <= b < bps.len() && a != b ==> (#[trigger] bps[a]).id != (
            #[trigger] bps[b]).id,
    ensures
        index_of_id(bps, id) == Some(i),
{
    let j = choose|j: int| 0 <= j < bps.len() && (#[trigger] bps[j]).id == id;
    assert(j == i);
}

/// A breakpoint command carried out against a tracee's memory: the planned
/// patch, if any, writes its byte and hands back the byte it replaced.
pub open spec fn patched_step(p: ProcessView, m: Map<u64, u8>, command: BreakpointCommand) -> (ProcessView, Map<u64, u8>) {
    match breakpoint_plan(p, command) {
        Ok(Some(patch)) => (
            breakpoint_applied(p, command, Some(Ok(m[patch.address.address]))).0,
            patched_memory(m, patch),
        ),
        Ok(None) => (breakpoint_applied(p, command, None).0, m),
        Err(_) => (p, m),
    }
}

/// A sequence of enables (`true`) and disables (`false`) of breakpoint `id`,
/// carried out in order.
pub open spec fn toggled(p: ProcessView, m: Map<u64, u8>, id: StoppointId, enables: Seq<bool>) -> (ProcessView, Map<u64, u8>)
    decreases enables.len(),
{
    if enables.len() == 0 {
        (p, m)
    } else {
        let (q, n) = toggled(p, m, id, enables.drop_last());
        patched_step(q, n, if enables.last() {
            BreakpointCommand::Enable(id)
        } else {
            BreakpointCommand::Disable(id)
        })
    }
}

/// The tracee's byte at breakpoint `i` agrees with the records: `int3` while
/// it is patched in, with `initial` saved, and `initial` otherwise.
pub open spec fn memory_agrees(p: ProcessView, i: int, m: Map<u64, u8>, initial: u8) -> bool {
    let a = p.breakpoints[i].address.address;
    &&& m.contains_key(a)
    &&& match saved_in(p.inferior->Some_0.sites, p.breakpoints[i].id) {
        Some(b) => m[a] == INTERRUPT_INSTRUCTION && b == initial,
        None => m[a] == initial,
    }
}

/// What a toggle sequence keeps: the controller's invariant, the live
/// inferior, the breakpoint's place and address, the agreement of its byte,
/// and every other byte of the memory.
pub open spec fn toggle_invariant(
    p: ProcessView,
    id: StoppointId,
    i: int,
    address: u64,
    m: Map<u64, u8>,
    m0: Map<u64, u8>,
    initial: u8,
) -> bool {
    &&& process_wf(p)
    &&& p.inferior is Some
    &&& index_of_id(p.breakpoints, id) == Some(i)
    &&& p.breakpoints[i].address.address == address
    &&& memory_agrees(p, i, m, initial)
    &&& m.dom() == m0.dom()
    &&& forall|k: u64| k != address && m0.contains_key(k) ==> #[trigger] m[k] == m0[k]
}

proof fn lemma_toggle_step(
    p: ProcessView,
    id: StoppointId,
    i: int,
    address: u64,
    m: Map<u64, u8>,
    m0: Map<u64, u8>,
    initial: u8,
    enable: bool,
)
    requires
        toggle_invariant(p, id, i, address, m, m0, initial),
    ensures
        ({
            let (q, n) = patched_step(p, m, if enable {
                BreakpointCommand::Enable(id)
            } else {
                BreakpointCommand::Disable(id)
            });
            toggle_invariant(q, id, i, address, n, m0, initial)
        }),
{
    let command = if enable {
        BreakpointCommand::Enable(id)
    } else {
        BreakpointCommand::Disable(id)
    };
    let (q, n) = patched_step(p, m, command);
    assert(q.breakpoints[i].id == id);
    lemma_same_keys_keep_records_wf(p, q);
    lemma_index_of_id_unique(q.breakpoints, id, i);
    assert(n.dom() =~= m0.dom());
}

/// However a stopped tracee's breakpoint is enabled and disabled, in any
/// order and any number of times, its byte is `int3` exactly while the
/// breakpoint is patched in and its initial byte otherwise, and no other byte
/// changes: after a final disable the memory is as it was.
pub proof fn lemma_toggles_restore_memory(p: ProcessView, id: StoppointId, m: Map<u64, u8>, enables: Seq<bool>)
    requires
        process_wf(p),
        p.inferior is Some,
        index_of_id(p.breakpoints, id) is Some,
        !p.inferior->Some_0.sites.contains_key(id.id),
        m.contains_key(p.breakpoints[index_of_id(p.breakpoints, id)->Some_0].address.address),
    ensures
        ({
            let i = index_of_id(p.breakpoints, id)->Some_0;
            let a = p.breakpoints[i].address.address;
            let (q, n) = toggled(p, m, id, enables);
            &&& memory_agrees(q, i, n, m[a])
            &&& q.breakpoints[i].address.address == a
            &&& (enables.len() > 0 && !enables.last() ==> n == m)
        }),
{
    let i = index_of_id(p.breakpoints, id)->Some_0;
    let a = p.breakpoints[i].address.address;
    lemma_toggles_keep_invariant(p, id, i, a, m, enables);
    let (q, n) = toggled(p, m, id, enables);
    if enables.len() > 0 && !enables.last() {
        assert(n =~= m);
    }
}

proof fn lemma_toggles_keep_invariant(p: ProcessView, id: StoppointId, i: int, a: u64, m: Map<u64, u8>, enables: Seq<bool>)
    requires
        process_wf(p),
        p.inferior is Some,
        index_of_id(p.breakpoints, id) == Some(i),
        p.breakpoints[i].address.address == a,
        !p.inferior->Some_0.sites.contains_key(id.id),
        m.contains_key(a),
    ensures
        ({
            let (q, n) = toggled(p, m, id, enables);
            &&& toggle_invariant(q, id, i, a, n, m, m[a])
            &&& (enables.len() > 0 && !enables.last() ==> !q.inferior->Some_0.sites.contains_key(id.id))
        }),
    decreases enables.len(),
{
    if enables.len() == 0 {
    } else {
        lemma_toggles_keep_invariant(p, id, i, a, m, enables.drop_last());
        let (q0, n0) = toggled(p, m, id, enables.drop_last());
        lemma_toggle_step(q0, id, i, a, n0, m, m[a], enables.last());
    }
}

/// Once a breakpoint was created at an address, creating another there is a
/// Duplicate; the plan is read-only, so the breakpoints stay as they are.
pub proof fn lemma_create_twice_is_duplicate(
    p: ProcessView,
    a: VirtualAddress,
    outcome: Option<Result<u8, i32>>,
)
    requires
        process_wf(p),
        breakpoint_plan(p, BreakpointCommand::Create(a)) is Ok,
        !(outcome matches Some(Err(_))),
    ensures
        breakpoint_applied(p, BreakpointCommand::Create(a), outcome).1 is Ok,
        breakpoint_plan(breakpoint_applied(p, BreakpointCommand::Create(a), outcome).0, BreakpointCommand::Create(a))
            == Err::<Option<BytePatch>, DebugError>(DebugError::Duplicate),
{
    let q = breakpoint_applied(p, BreakpointCommand::Create(a), outcome).0;
    assert(q.breakpoints[q.breakpoints.len() - 1].address == a);
}

/// Enabling an enabled breakpoint again asks nothing of the tracee and changes
/// nothing.
pub proof fn lemma_enable_idempotent(p: ProcessView, id: StoppointId, outcome: Option<Result<u8, i32>>)
    requires
        process_wf(p),
        breakpoint_plan(p, BreakpointCommand::Enable(id)) matches Ok(plan) && (plan is Some <==> outcome is Some),
        !(outcome matches Some(Err(_))),
    ensures
        ({
            let q = breakpoint_applied(p, BreakpointCommand::Enable(id), outcome).0;
            &&& breakpoint_plan(q, BreakpointCommand::Enable(id)) == Ok::<Option<BytePatch>, DebugError>(None)
            &&& breakpoint_applied(q, BreakpointCommand::Enable(id), None).0 == q
        }),
{
    let i = index_of_id(p.breakpoints, id)->Some_0;
    let q = breakpoint_applied(p, BreakpointCommand::Enable(id), outcome).0;
    assert(q.breakpoints[i].id == id);
    lemma_same_keys_keep_records_wf(p, q);
    lemma_index_of_id_unique(q.breakpoints, id, i);
    let q2 = breakpoint_applied(q, BreakpointCommand::Enable(id), None).0;
    assert(q2.breakpoints =~= q.breakpoints);
}

/// Disabling a disabled breakpoint again asks nothing of the tracee and
/// changes nothing.
pub proof fn lemma_disable_idempotent(p: ProcessView, id: StoppointId, outcome: Option<Result<u8, i32>>)
    requires
        process_wf(p),
        breakpoint_plan(p, BreakpointCommand::Disable(id)) matches Ok(plan) && (plan is Some <==> outcome is Some),
        !(outcome matches Some(Err(_))),
    ensures
        ({
            let q = breakpoint_applied(p, BreakpointCommand::Disable(id), outcome).0;
            &&& breakpoint_plan(q, BreakpointCommand::Disable(id)) == Ok::<Option<BytePatch>, DebugError>(None)
            &&& breakpoint_applied(q, BreakpointCommand::Disable(id), None).0 == q
        }),
{
    let i = index_of_id(p.breakpoints, id)->Some_0;
    let q = breakpoint_applied(p, BreakpointCommand::Disable(id), outcome).0;
    assert(q.breakpoints[i].id == id);
    lemma_same_keys_keep_records_wf(p, q);
    lemma_index_of_id_unique(q.breakpoints, id, i);
    let q2 = breakpoint_applied(q, BreakpointCommand::Disable(id), None).0;
    assert(q2.breakpoints =~= q.breakpoints);
    if q.inferior is Some {
        assert(q2.inferior->Some_0.sites =~= q.inferior->Some_0.sites);
    }
}

/// Breakpoint ids never repeat: a created breakpoint gets an id above every id
/// handed out before, and the next id never goes down, whatever the command
/// and whatever became of its patch.
pub proof fn lemma_ids_increase(p: ProcessView, command: BreakpointCommand, outcome: Option<Result<u8, i32>>)
    requires
        process_wf(p),
        breakpoint_plan(p, command) is Ok,
    ensures
        ({
            let (q, r) = breakpoint_applied(p, command, outcome);
            &&& q.next_id >= p.next_id
            &&& (command is Create ==> q.next_id == p.next_id + 1)
            &&& (command is Create && r is Ok ==> {
                &&& q.breakpoints.last().id.id == p.next_id
                &&& forall|i: int| 0 <= i < p.breakpoints.len() ==> (#[trigger] p.breakpoints[i]).id.id < q.breakpoints.last().id.id
            })
        }),
{
}

/// A patch that fails changes no breakpoint and no saved byte, and the command
/// gives the failure's errno as a SyscallError.
pub proof fn lemma_failed_patch_changes_nothing(p: ProcessView, command: BreakpointCommand, errno: i32)
    ensures
        ({
            let (q, r) = breakpoint_applied(p, command, Some(Err(errno)));
            &&& q.breakpoints == p.breakpoints
            &&& q.inferior == p.inferior
            &&& r == Err::<(), DebugError>(DebugError::Syscall(errno))
        }),
{
}

/// Letting the inferior go twice is letting it go once: after the teardown the
/// state is Unknown, and then there is nothing left to do.
pub proof fn lemma_destroy_twice(p: ProcessView)
    ensures
        teardown_steps(ProcessView { state: ProcessState::Unknown, inferior: None, registers: None, ..p }).len() == 0,
{
}

/// When waiting observes an exit, the inferior is Exited and no register can be
/// read any more.
pub proof fn lemma_exit_clears_registers(p: ProcessView, code: i32)
    ensures
        after_wait(p, WaitStatus::Exited(code)).state == ProcessState::Exited,
        after_wait(p, WaitStatus::Exited(code)).registers is None,
        after_wait(p, WaitStatus::Exited(code)).inferior is None,
{
}

/// What reading `register` from a controller in state `p` may give: nothing
/// without a snapshot, else the register's value in the snapshot.
pub open spec fn register_read(p: ProcessView, register: Register, v: Option<RegisterValue>) -> bool {
    match p.registers {
        None => v is None,
        Some(s) => v matches Some(x) && decodes_to(
            info_of(register).format,
            register_bytes(s, info_of(register)),
            x,
        ),
    }
}

/// Two reads of a register with no resume or wait between them agree; once
/// the inferior is resumed nothing can be read until it stops and its
/// registers are read again, and then reads give the new snapshot's values.
pub proof fn lemma_reads_follow_the_snapshot(
    p: ProcessView,
    register: Register,
    v1: Option<RegisterValue>,
    v2: Option<RegisterValue>,
    signal: i32,
    snapshot: SnapshotView,
    v3: Option<RegisterValue>,
)
    requires
        process_wf(p),
        p.state == ProcessState::Stopped,
    ensures
        register_read(p, register, v1) && register_read(p, register, v2) ==> v1 == v2,
        ({
            let resumed = ProcessView { state: ProcessState::Running, registers: None, ..p };
            let stopped = after_wait(resumed, WaitStatus::Stopped(signal));
            let refreshed = ProcessView { registers: Some(snapshot), ..stopped };
            &&& register_read(resumed, register, v3) ==> v3 is None
            &&& register_read(stopped, register, v3) ==> v3 is None
            &&& register_read(refreshed, register, v3) ==> (v3 matches Some(x) && decodes_to(
                info_of(register).format,
                register_bytes(snapshot, info_of(register)),
                x,
            ))
        }),
{
    if register_read(p, register, v1) && register_read(p, register, v2) && p.registers is Some {
        crate::registers::lemma_decoding_is_unique(
            info_of(register).format,
            register_bytes(p.registers->Some_0, info_of(register)),
            v1->Some_0,
            v2->Some_0,
        );
    }
}

} // verus!
