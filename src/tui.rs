//! The state behind the terminal interface: which pane has the focus, the
//! command being typed, and what each key press asks for. Drawing and reading
//! the terminal are left to the caller.

use vstd::prelude::*;
use vstd::string::*;

verus! {

/// Relies on `String::push`: the character is appended.
#[verifier::external_body]
fn push_char(s: &mut String, c: char)
    ensures
        final(s)@ == old(s)@.push(c),
{
    s.push(c)
}

/// Relies on `String::pop`: the last character is removed and returned, None
/// when the string is empty.
#[verifier::external_body]
fn pop_char(s: &mut String) -> (r: Option<char>)
    ensures
        old(s)@.len() == 0 ==> r is None && final(s)@ == old(s)@,
        old(s)@.len() > 0 ==> r == Some(old(s)@.last()) && final(s)@ == old(s)@.drop_last(),
{
    s.pop()
}

/// The panes of the main debugger screen.
#[derive(Clone, Copy, Debug, PartialEq, Eq, Structural, PartialOrd, Ord)]
pub enum DebuggerPane {
    Assembly,
    Breakpoints,
    Command,
    Locals,
    Logs,
    Source,
    Watchpoints,
}

impl DebuggerPane {
    /// The pane's title.
    pub fn display_name(&self) -> (r: &'static str)
        ensures
            r@ == pane_name(*self),
    {
        match self {
            DebuggerPane::Assembly => "assembly",
            DebuggerPane::Breakpoints => "breakpoints",
            DebuggerPane::Command => "command",
            DebuggerPane::Locals => "locals",
            DebuggerPane::Logs => "logs",
            DebuggerPane::Source => "source",
            DebuggerPane::Watchpoints => "watchpoints",
        }
    }
}

/// The title of each pane.
pub open spec fn pane_name(p: DebuggerPane) -> Seq<char> {
    match p {
        DebuggerPane::Assembly => "assembly"@,
        DebuggerPane::Breakpoints => "breakpoints"@,
        DebuggerPane::Command => "command"@,
        DebuggerPane::Locals => "locals"@,
        DebuggerPane::Logs => "logs"@,
        DebuggerPane::Source => "source"@,
        DebuggerPane::Watchpoints => "watchpoints"@,
    }
}

/// The index after (or before) `cur` among `len`, wrapping around.
pub open spec fn spec_next_index(len: nat, cur: nat, increment: bool) -> nat {
    if increment {
        (cur + 1) % len
    } else if cur == 0 {
        (len - 1) as nat
    } else {
        (cur - 1) as nat
    }
}

/// The index after (or before) `cur` among `len`, wrapping around.
pub fn next_index(len: usize, cur_idx: usize, increment: bool) -> (r: usize)
    requires
        cur_idx < len,
    ensures
        r == spec_next_index(len as nat, cur_idx as nat, increment),
        r < len,
{
    if increment {
        (cur_idx + 1) % len
    } else if cur_idx == 0 {
        len - 1
    } else {
        cur_idx - 1
    }
}

/// The primary screens.
#[derive(Clone, Copy, Debug, PartialEq, Eq, Structural)]
pub enum ScreenMode {
    /// The screen for debugging.
    MainDebugger,
    /// The debugger's own log.
    DebuggerLogging,
}

/// The views of the locals pane.
#[derive(Clone, Copy, Debug, PartialEq, Eq, Structural)]
pub enum LocalsPaneMode {
    Variables,
    GeneralPurposeRegisters,
    FloatingPoointRegisters,
    DebugRegisters,
}

impl LocalsPaneMode {
    /// The view shown first.
    pub fn initial() -> (r: LocalsPaneMode)
        ensures
            r == LocalsPaneMode::GeneralPurposeRegisters,
    {
        LocalsPaneMode::GeneralPurposeRegisters
    }

    /// The view's title.
    pub fn display_name(&self) -> (r: &'static str)
        ensures
            r@ == locals_mode_name(*self),
    {
        match self {
            LocalsPaneMode::Variables => "Variables",
            LocalsPaneMode::GeneralPurposeRegisters => "GP Regs",
            LocalsPaneMode::FloatingPoointRegisters => "FP Regs",
            LocalsPaneMode::DebugRegisters => "Debug Regs",
        }
    }
}

/// The title of each view of the locals pane.
pub open spec fn locals_mode_name(m: LocalsPaneMode) -> Seq<char> {
    match m {
        LocalsPaneMode::Variables => "Variables"@,
        LocalsPaneMode::GeneralPurposeRegisters => "GP Regs"@,
        LocalsPaneMode::FloatingPoointRegisters => "FP Regs"@,
        LocalsPaneMode::DebugRegisters => "Debug Regs"@,
    }
}

/// A key press, as far as the debugger screen tells keys apart.
#[derive(Clone, Copy, Debug, PartialEq, Eq, Structural)]
pub enum Key {
    Char(char),
    Enter,
    Backspace,
    Tab,
    BackTab,
    Esc,
    Function(u8),
    Other,
}

/// What a key press asks of the session.
#[derive(Clone, Debug)]
pub enum EventResult {
    Normal,
    /// A command line was entered.
    Editor { command: String },
    Quit,
}

/// The state of the main debugger screen.
pub struct DebuggerState {
    panes: Vec<DebuggerPane>,
    focus_pane_idx: usize,
    command_input: String,
    last_command_response: Option<String>,
}

pub struct DebuggerStateView {
    pub panes: Seq<DebuggerPane>,
    pub focus: nat,
    pub input: Seq<char>,
    pub response: Option<Seq<char>>,
}

impl View for DebuggerState {
    type V = DebuggerStateView;

    closed spec fn view(&self) -> DebuggerStateView {
        DebuggerStateView {
            panes: self.panes@,
            focus: self.focus_pane_idx as nat,
            input: self.command_input@,
            response: match self.last_command_response {
                Some(s) => Some(s@),
                None => None,
            },
        }
    }
}

impl DebuggerState {
    /// The screen as it opens: source, locals, logs and command panes, with the
    /// command pane focused and nothing typed.
    pub fn new() -> (r: DebuggerState)
        ensures
            r@.panes == seq![DebuggerPane::Source, DebuggerPane::Locals, DebuggerPane::Logs, DebuggerPane::Command],
            r@.focus == 3,
            r@.input.len() == 0,
            r@.response is None,
    {
        let mut panes: Vec<DebuggerPane> = Vec::new();
        panes.push(DebuggerPane::Source);
        panes.push(DebuggerPane::Locals);
        panes.push(DebuggerPane::Logs);
        panes.push(DebuggerPane::Command);
        let r = DebuggerState {
            panes,
            focus_pane_idx: 3,
            command_input: String::new(),
            last_command_response: None,
        };
        proof {
            assert(r@.panes =~= seq![DebuggerPane::Source, DebuggerPane::Locals, DebuggerPane::Logs, DebuggerPane::Command]);
        }
        r
    }

    /// Whether `pane` has the focus.
    pub fn is_focus(&self, pane: &DebuggerPane) -> (r: bool)
        ensures
            r == (self@.focus < self@.panes.len() && self@.panes[self@.focus as int] == *pane),
    {
        self.focus_pane_idx < self.panes.len() && self.panes[self.focus_pane_idx] == *pane
    }

    /// Moves the focus to the next pane, or the previous one, wrapping around.
    pub fn focus_next_pane(&mut self, forward: bool)
        ensures
            old(self)@.focus < old(self)@.panes.len() ==> final(self)@ == (DebuggerStateView {
                focus: spec_next_index(old(self)@.panes.len(), old(self)@.focus, forward),
                ..old(self)@
            }),
            old(self)@.focus >= old(self)@.panes.len() ==> final(self)@ == old(self)@,
    {
        if self.focus_pane_idx < self.panes.len() {
            self.focus_pane_idx = next_index(self.panes.len(), self.focus_pane_idx, forward);
        }
    }

    /// Focuses the first pane that is `pane`; nothing changes when there is none.
    pub fn set_focus(&mut self, pane: &DebuggerPane) -> (r: bool)
        ensures
            r == old(self)@.panes.contains(*pane),
            r ==> final(self)@.panes[final(self)@.focus as int] == *pane,
            final(self)@.panes == old(self)@.panes,
            final(self)@.input == old(self)@.input,
            final(self)@.response == old(self)@.response,
            !r ==> final(self)@ == old(self)@,
    {
        let mut i: usize = 0;
        while i < self.panes.len()
            invariant
                i <= self.panes@.len(),
                self@ == old(self)@,
                forall|k: int| 0 <= k < i ==> self.panes@[k] != *pane,
            decreases self.panes@.len() - i,
        {
            if self.panes[i] == *pane {
                self.focus_pane_idx = i;
                return true;
            }
            i = i + 1;
        }
        proof {
            assert(!self.panes@.contains(*pane));
        }
        false
    }

    /// Whether keys go to the command line: the command pane has the focus.
    pub fn in_edit_mode(&self) -> (r: bool)
        ensures
            r == (self@.focus < self@.panes.len() && self@.panes[self@.focus as int] == DebuggerPane::Command),
    {
        self.is_focus(&DebuggerPane::Command)
    }

    pub fn push_input(&mut self, ch: char)
        ensures
            final(self)@ == (DebuggerStateView { input: old(self)@.input.push(ch), ..old(self)@ }),
    {
        push_char(&mut self.command_input, ch);
    }

    pub fn pop_input(&mut self)
        ensures
            final(self)@ == (DebuggerStateView {
                input: if old(self)@.input.len() > 0 { old(self)@.input.drop_last() } else { old(self)@.input },
                ..old(self)@
            }),
    {
        let _ = pop_char(&mut self.command_input);
    }

    /// The command typed so far.
    pub fn current_command(&self) -> (r: &str)
        ensures
            r@ == self@.input,
    {
        self.command_input.as_str()
    }

    /// Takes the typed command, leaving the command line empty.
    pub fn take_command(&mut self) -> (r: String)
        ensures
            r@ == old(self)@.input,
            final(self)@ == (DebuggerStateView { input: Seq::empty(), ..old(self)@ }),
    {
        let command = self.command_input.clone();
        self.command_input = String::new();
        command
    }

    pub fn clear_last_command_response(&mut self)
        ensures
            final(self)@ == (DebuggerStateView { response: None, ..old(self)@ }),
    {
        self.last_command_response = None;
    }

    pub fn set_last_command_response(&mut self, message: String)
        ensures
            final(self)@ == (DebuggerStateView { response: Some(message@), ..old(self)@ }),
    {
        self.last_command_response = Some(message);
    }

    /// The response to the last command, shown in the echo area.
    pub fn last_command_response(&self) -> (r: Option<&str>)
        ensures
            match self@.response {
                Some(m) => r matches Some(s) && s@ == m,
                None => r is None,
            },
    {
        match &self.last_command_response {
            Some(s) => Some(s.as_str()),
            None => None,
        }
    }
}

/// Keys go to the command line: the command pane has the focus.
pub open spec fn edit_mode(s: DebuggerStateView) -> bool {
    s.focus < s.panes.len() && s.panes[s.focus as int] == DebuggerPane::Command
}

/// Handles a key press on the main debugger screen. While the command pane has
/// the focus, keys edit the command line: Enter hands the line over, Backspace
/// deletes, Alt-x leaves for the source pane. Elsewhere, Alt-x, `c` or `e` go to
/// the command pane, `s`, `l` and `o` to the source, locals and logs panes, `q`
/// quits, and Tab and BackTab move the focus around.
pub fn debugger_screen_key_press(state: &mut DebuggerState, key: Key, alt: bool) -> (r: EventResult)
    ensures
        final(state)@.panes == old(state)@.panes,
        edit_mode(old(state)@) ==> match key {
            Key::Enter => r matches EventResult::Editor { command } && command@ == old(state)@.input
                && final(state)@.input.len() == 0 && final(state)@.response is None,
            Key::Backspace => r is Normal && final(state)@.input == (if old(state)@.input.len() > 0 {
                old(state)@.input.drop_last()
            } else {
                old(state)@.input
            }),
            Key::Char(c) => if c == 'x' && alt {
                &&& r is Normal
                &&& final(state)@.input == old(state)@.input
                &&& old(state)@.panes.contains(DebuggerPane::Source) ==> final(state)@.panes[final(state)@.focus as int] == DebuggerPane::Source
            } else {
                r is Normal && final(state)@.input == old(state)@.input.push(c)
            },
            _ => r is Normal && final(state)@ == old(state)@,
        },
        !edit_mode(old(state)@) ==> {
            &&& final(state)@.input == old(state)@.input
            &&& (key == Key::Char('q') <==> r is Quit)
            &&& (r is Quit || r is Normal)
            &&& (key == Key::Char('c') || key == Key::Char('e') || (key == Key::Char('x') && alt))
                && old(state)@.panes.contains(DebuggerPane::Command) ==> final(state)@.panes[final(state)@.focus as int] == DebuggerPane::Command
            &&& key == Key::Char('s') && !alt && old(state)@.panes.contains(DebuggerPane::Source) ==> final(state)@.panes[final(state)@.focus as int] == DebuggerPane::Source
            &&& key == Key::Char('l') && !alt && old(state)@.panes.contains(DebuggerPane::Locals) ==> final(state)@.panes[final(state)@.focus as int] == DebuggerPane::Locals
            &&& key == Key::Char('o') && !alt && old(state)@.panes.contains(DebuggerPane::Logs) ==> final(state)@.panes[final(state)@.focus as int] == DebuggerPane::Logs
            &&& key == Key::Tab && old(state)@.focus < old(state)@.panes.len() ==> final(state)@.focus == spec_next_index(old(state)@.panes.len(), old(state)@.focus, true)
            &&& key == Key::BackTab && old(state)@.focus < old(state)@.panes.len() ==> final(state)@.focus == spec_next_index(old(state)@.panes.len(), old(state)@.focus, false)
        },
{
    if state.in_edit_mode() {
        match key {
            Key::Char(c) => {
                if c == 'x' && alt {
                    state.set_focus(&DebuggerPane::Source);
                } else {
                    state.push_input(c);
                }
                EventResult::Normal
            },
            Key::Enter => {
                let command = state.take_command();
                state.clear_last_command_response();
                EventResult::Editor { command }
            },
            Key::Backspace => {
                state.pop_input();
                EventResult::Normal
            },
            _ => EventResult::Normal,
        }
    } else {
        match key {
            Key::Char(c) => {
                if c == 'x' && alt {
                    state.set_focus(&DebuggerPane::Command);
                    EventResult::Normal
                } else if c == 'c' || c == 'e' {
                    state.set_focus(&DebuggerPane::Command);
                    EventResult::Normal
                } else if c == 's' {
                    state.set_focus(&DebuggerPane::Source);
                    EventResult::Normal
                } else if c == 'l' {
                    state.set_focus(&DebuggerPane::Locals);
                    EventResult::Normal
                } else if c == 'o' {
                    state.set_focus(&DebuggerPane::Logs);
                    EventResult::Normal
                } else if c == 'q' {
                    EventResult::Quit
                } else {
                    EventResult::Normal
                }
            },
            Key::Tab => {
                state.focus_next_pane(true);
                EventResult::Normal
            },
            Key::BackTab => {
                state.focus_next_pane(false);
                EventResult::Normal
            },
            _ => EventResult::Normal,
        }
    }
}

/// The screen that a function key selects: F1 the debugger, F2 its log; other
/// keys keep the current one.
pub fn screen_for_function_key(current: ScreenMode, fkey_num: u8) -> (r: ScreenMode)
    ensures
        r == (if fkey_num == 1 {
            ScreenMode::MainDebugger
        } else if fkey_num == 2 {
            ScreenMode::DebuggerLogging
        } else {
            current
        }),
{
    match fkey_num {
        1 => ScreenMode::MainDebugger,
        2 => ScreenMode::DebuggerLogging,
        _ => current,
    }
}

} // verus!
