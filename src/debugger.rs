//! Debugger commands: how a command line reads, and what each command asks for.

use vstd::prelude::*;

use crate::error::ParseError;
use crate::history::{history_after, CommandHistory};
use crate::lexer::{
    decimal_value, digit_value, i32_of, is_digit, is_digits, is_ws, lemma_word_len_run, same_text, split_words,
    u64_of, unsigned_digits, words,
};
use crate::stoppoint::{
    address_from_args, id_from_args, texts, StoppointId, VirtualAddress,
};

verus! {

/// A breakpoint operation.
#[derive(Clone, Copy, Debug, PartialEq, Eq, Structural)]
pub enum BreakpointCommand {
    Create(VirtualAddress),
    Delete(StoppointId),
    Enable(StoppointId),
    Disable(StoppointId),
}

/// A command of the debugger.
#[derive(Clone, Debug)]
pub enum Command {
    /// Start the inferior, with these arguments.
    Run(Vec<String>),
    Continue,
    Breakpoint(BreakpointCommand),
    /// Leave the debugger, killing an inferior that it launched.
    Quit,
}

/// A command with its arguments as character sequences.
pub enum CommandView {
    Run(Seq<Seq<char>>),
    Continue,
    Breakpoint(BreakpointCommand),
    Quit,
}

impl View for Command {
    type V = CommandView;

    open spec fn view(&self) -> CommandView {
        match self {
            Command::Run(args) => CommandView::Run(texts(args@)),
            Command::Continue => CommandView::Continue,
            Command::Breakpoint(b) => CommandView::Breakpoint(*b),
            Command::Quit => CommandView::Quit,
        }
    }
}

/// What the dispatcher asks of the session after a command.
#[derive(Clone, Copy, Debug, PartialEq, Eq, Structural)]
pub enum DispatchResult {
    Normal,
    Exit,
}

/// The lowercase form of a text, as `str::to_lowercase` gives it.
pub uninterp spec fn lower_of(s: Seq<char>) -> Seq<char>;

/// Relies on `str::to_lowercase`: its result depends on the characters alone,
/// and a text made only of lowercase ASCII letters comes back unchanged.
#[verifier::external_body]
fn lowercase(s: &str) -> (r: String)
    ensures
        r@ == lower_of(s@),
        (forall|i: int| 0 <= i < s@.len() ==> 'a' <= #[trigger] s@[i] && s@[i] <= 'z') ==> r@
            == s@,
{
    s.to_lowercase()
}

/// The command that a lowercased verb and its arguments name.
pub open spec fn command_from_words(verb: Seq<char>, args: Seq<Seq<char>>) -> Result<
    CommandView,
    ParseError,
> {
    if verb == "run"@ || verb == "r"@ {
        Ok(CommandView::Run(args))
    } else if verb == "continue"@ || verb == "c"@ {
        if args.len() == 0 {
            Ok(CommandView::Continue)
        } else {
            Err(ParseError::WrongArity)
        }
    } else if verb == "quit"@ || verb == "q"@ {
        if args.len() == 0 {
            Ok(CommandView::Quit)
        } else {
            Err(ParseError::WrongArity)
        }
    } else if verb == "break"@ || verb == "b"@ {
        match address_from_args(args) {
            Ok(a) => Ok(CommandView::Breakpoint(BreakpointCommand::Create(a))),
            Err(e) => Err(e),
        }
    } else if verb == "delete"@ {
        match id_from_args(args) {
            Ok(id) => Ok(CommandView::Breakpoint(BreakpointCommand::Delete(id))),
            Err(e) => Err(e),
        }
    } else if verb == "enable"@ {
        match id_from_args(args) {
            Ok(id) => Ok(CommandView::Breakpoint(BreakpointCommand::Enable(id))),
            Err(e) => Err(e),
        }
    } else if verb == "disable"@ {
        match id_from_args(args) {
            Ok(id) => Ok(CommandView::Breakpoint(BreakpointCommand::Disable(id))),
            Err(e) => Err(e),
        }
    } else {
        Err(ParseError::UnknownCommand)
    }
}

/// The first word of a line, empty when there is none.
pub open spec fn verb_of(ws: Seq<Seq<char>>) -> Seq<char> {
    if ws.len() == 0 {
        Seq::empty()
    } else {
        ws[0]
    }
}

/// The words of a line after the first.
pub open spec fn args_of(ws: Seq<Seq<char>>) -> Seq<Seq<char>> {
    if ws.len() == 0 {
        Seq::empty()
    } else {
        ws.drop_first()
    }
}

/// How a command line reads: its first word, lowercased, names the command and
/// the other words are its arguments.
pub open spec fn parse_line(line: Seq<char>) -> Result<CommandView, ParseError> {
    command_from_words(lowered(verb_of(words(line))), args_of(words(line)))
}

/// Only lowercase ASCII letters.
pub open spec fn is_lower_ascii(s: Seq<char>) -> bool {
    forall|i: int| 0 <= i < s.len() ==> 'a' <= #[trigger] s[i] && s[i] <= 'z'
}

/// The lowercase form of a verb: a verb of lowercase ASCII letters stands as
/// it is, any other is what `str::to_lowercase` makes of it.
pub open spec fn lowered(verb: Seq<char>) -> Seq<char> {
    if is_lower_ascii(verb) {
        verb
    } else {
        lower_of(verb)
    }
}

/// The view of a parse result.
pub open spec fn result_view(r: Result<Command, ParseError>) -> Result<CommandView, ParseError> {
    match r {
        Ok(c) => Ok(c@),
        Err(e) => Err(e),
    }
}

impl Command {
    /// The command that a lowercased verb and its arguments name.
    pub fn from_words(verb: &str, args: Vec<String>) -> (r: Result<Command, ParseError>)
        ensures
            result_view(r) == command_from_words(verb@, texts(args@)),
    {
        if same_text(verb, "run") || same_text(verb, "r") {
            Ok(Command::Run(args))
        } else if same_text(verb, "continue") || same_text(verb, "c") {
            if args.len() == 0 {
                Ok(Command::Continue)
            } else {
                Err(ParseError::WrongArity)
            }
        } else if same_text(verb, "quit") || same_text(verb, "q") {
            if args.len() == 0 {
                Ok(Command::Quit)
            } else {
                Err(ParseError::WrongArity)
            }
        } else if same_text(verb, "break") || same_text(verb, "b") {
            match VirtualAddress::from_args(&args) {
                Ok(a) => Ok(Command::Breakpoint(BreakpointCommand::Create(a))),
                Err(e) => Err(e),
            }
        } else if same_text(verb, "delete") {
            match StoppointId::from_args(&args) {
                Ok(id) => Ok(Command::Breakpoint(BreakpointCommand::Delete(id))),
                Err(e) => Err(e),
            }
        } else if same_text(verb, "enable") {
            match StoppointId::from_args(&args) {
                Ok(id) => Ok(Command::Breakpoint(BreakpointCommand::Enable(id))),
                Err(e) => Err(e),
            }
        } else if same_text(verb, "disable") {
            match StoppointId::from_args(&args) {
                Ok(id) => Ok(Command::Breakpoint(BreakpointCommand::Disable(id))),
                Err(e) => Err(e),
            }
        } else {
            Err(ParseError::UnknownCommand)
        }
    }

    /// Reads a command line: whitespace separates the words, the first word,
    /// lowercased, is the verb.
    pub fn parse(line: &str) -> (r: Result<Command, ParseError>)
        ensures
            result_view(r) == parse_line(line@),
    {
        let ws = split_words(line);
        if ws.len() == 0 {
            let lowered = lowercase("");
            proof {
                reveal_strlit("");
                assert(is_lower_ascii(""@));
                assert(""@ =~= verb_of(words(line@)));
                assert(args_of(words(line@)) =~= Seq::<Seq<char>>::empty());
                assert(texts(Seq::<String>::empty()) =~= Seq::<Seq<char>>::empty());
            }
            return Command::from_words(lowered.as_str(), Vec::new());
        }
        let lowered = lowercase(ws[0].as_str());
        let mut args: Vec<String> = Vec::new();
        let mut i: usize = 1;
        proof {
            assert(texts(args@) =~= texts(ws@).subrange(1, 1));
        }
        while i < ws.len()
            invariant
                1 <= i <= ws@.len(),
                texts(args@) == texts(ws@).subrange(1, i as int),
            decreases ws@.len() - i,
        {
            let w = ws[i].clone();
            proof {
                assert(texts(args@.push(w)) =~= texts(args@).push(w@));
                assert(texts(ws@).subrange(1, i + 1) =~= texts(ws@).subrange(1, i as int).push(
                    ws@[i as int]@,
                ));
            }
            args.push(w);
            i = i + 1;
        }
        proof {
            assert(texts(ws@).subrange(1, ws@.len() as int) =~= texts(ws@).drop_first());
        }
        Command::from_words(lowered.as_str(), args)
    }

    /// What the dispatcher asks of the session once the command has run.
    pub fn dispatch_result(&self) -> (r: DispatchResult)
        ensures
            r == (if self is Quit {
                DispatchResult::Exit
            } else {
                DispatchResult::Normal
            }),
    {
        match self {
            Command::Quit => DispatchResult::Exit,
            _ => DispatchResult::Normal,
        }
    }
}

/// The view of what a command line asks for: a command, nothing, or a parse error.
pub open spec fn next_view(r: Result<Option<Command>, ParseError>) -> Result<Option<CommandView>, ParseError> {
    match r {
        Ok(Some(c)) => Ok(Some(c@)),
        Ok(None) => Ok(None),
        Err(e) => Err(e),
    }
}

/// A command line's parse, as an optional command.
pub open spec fn parsed_some(line: Seq<char>) -> Result<Option<CommandView>, ParseError> {
    match parse_line(line) {
        Ok(c) => Ok(Some(c)),
        Err(e) => Err(e),
    }
}

/// The command dispatcher: it reads command lines, keeps their history, and
/// owns the rule that an empty line repeats the last command.
pub struct Debugger {
    /// Whether a program is being debugged.
    debugging: bool,
    /// Every command entered, past sessions included.
    history: CommandHistory,
}

impl Debugger {
    pub closed spec fn wf(&self) -> bool {
        self.history.wf()
    }

    pub closed spec fn history_view(&self) -> Seq<Seq<char>> {
        self.history@
    }

    pub closed spec fn debugging_view(&self) -> bool {
        self.debugging
    }

    /// A dispatcher over a loaded history, not yet debugging anything.
    pub fn new(history: CommandHistory) -> (r: Debugger)
        requires
            history.wf(),
        ensures
            r.wf(),
            r.history_view() == history@,
            !r.debugging_view(),
    {
        Debugger { debugging: false, history }
    }

    /// Whether a program is being debugged.
    pub fn is_debugging(&self) -> (r: bool)
        ensures
            r == self.debugging_view(),
    {
        self.debugging
    }

    /// The last command entered, if any.
    pub fn last_command(&self) -> (r: Option<String>)
        ensures
            r is Some <==> self.history_view().len() > 0,
            r matches Some(c) ==> c@ == self.history_view().last(),
    {
        self.history.last_command()
    }

    /// Reads the next command line. An empty line repeats the last command of
    /// the history, or asks for nothing when there is none, and is not recorded.
    /// Any other line is offered to the history first (the first result says
    /// whether it was appended, so that it belongs at the end of the history
    /// file) and then parsed.
    pub fn next(&mut self, line: &str) -> (r: (bool, Result<Option<Command>, ParseError>))
        requires
            old(self).wf(),
        ensures
            final(self).wf(),
            final(self).debugging_view() == old(self).debugging_view(),
            line@.len() == 0 ==> {
                &&& !r.0
                &&& final(self).history_view() == old(self).history_view()
                &&& old(self).history_view().len() == 0 ==> next_view(r.1) == Ok::<Option<CommandView>, ParseError>(None)
                &&& old(self).history_view().len() > 0 ==> next_view(r.1) == parsed_some(old(self).history_view().last())
            },
            line@.len() > 0 ==> {
                &&& final(self).history_view() == history_after(old(self).history_view(), line@)
                &&& r.0 == (final(self).history_view() != old(self).history_view())
                &&& next_view(r.1) == parsed_some(line@)
            },
    {
        if line.unicode_len() == 0 {
            match self.history.last_command() {
                Some(cmd) => {
                    let parsed = match Command::parse(cmd.as_str()) {
                        Ok(c) => Ok(Some(c)),
                        Err(e) => Err(e),
                    };
                    (false, parsed)
                },
                None => (false, Ok(None)),
            }
        } else {
            let appended = self.history.add(line);
            let parsed = match Command::parse(line) {
                Ok(c) => Ok(Some(c)),
                Err(e) => Err(e),
            };
            (appended, parsed)
        }
    }

    /// Records that `command` ran to completion, and says what the session
    /// should do next: `run` starts debugging, `quit` ends it and asks to exit.
    pub fn finish(&mut self, command: &Command) -> (r: DispatchResult)
        ensures
            final(self).history_view() == old(self).history_view(),
            final(self).wf() == old(self).wf(),
            r == (if command is Quit { DispatchResult::Exit } else { DispatchResult::Normal }),
            final(self).debugging_view() == (if command is Run {
                true
            } else if command is Quit {
                false
            } else {
                old(self).debugging_view()
            }),
    {
        match command {
            Command::Run(_) => {
                self.debugging = true;
            },
            Command::Quit => {
                self.debugging = false;
            },
            _ => {},
        }
        command.dispatch_result()
    }
}

/// The character of a decimal digit.
pub open spec fn digit_char(d: nat) -> char {
    if d == 0 {
        '0'
    } else if d == 1 {
        '1'
    } else if d == 2 {
        '2'
    } else if d == 3 {
        '3'
    } else if d == 4 {
        '4'
    } else if d == 5 {
        '5'
    } else if d == 6 {
        '6'
    } else if d == 7 {
        '7'
    } else if d == 8 {
        '8'
    } else {
        '9'
    }
}

/// The decimal digits of `n`, most significant first, without leading zeros.
pub open spec fn decimal_text(n: nat) -> Seq<char>
    decreases n,
{
    if n < 10 {
        seq![digit_char(n)]
    } else {
        decimal_text(n / 10).push(digit_char(n % 10))
    }
}

/// The decimal text of a signed number: a `-` before the digits of a negative one.
pub open spec fn signed_text(x: int) -> Seq<char> {
    if x < 0 {
        seq!['-'] + decimal_text((0 - x) as nat)
    } else {
        decimal_text(x as nat)
    }
}

/// The words of a rendered command.
pub open spec fn render_words(c: CommandView) -> Seq<Seq<char>> {
    match c {
        CommandView::Run(args) => seq!["run"@] + args,
        CommandView::Continue => seq!["continue"@],
        CommandView::Quit => seq!["quit"@],
        CommandView::Breakpoint(BreakpointCommand::Create(a)) => seq!["break"@, decimal_text(a.address as nat)],
        CommandView::Breakpoint(BreakpointCommand::Delete(id)) => seq!["delete"@, signed_text(id.id as int)],
        CommandView::Breakpoint(BreakpointCommand::Enable(id)) => seq!["enable"@, signed_text(id.id as int)],
        CommandView::Breakpoint(BreakpointCommand::Disable(id)) => seq!["disable"@, signed_text(id.id as int)],
    }
}

/// Words joined by single spaces.
pub open spec fn join_words(ws: Seq<Seq<char>>) -> Seq<char>
    decreases ws.len(),
{
    if ws.len() == 0 {
        Seq::empty()
    } else if ws.len() == 1 {
        ws[0]
    } else {
        ws[0] + seq![' '] + join_words(ws.drop_first())
    }
}

/// The canonical text of a command: its verb and arguments, one space apart.
pub open spec fn render(c: CommandView) -> Seq<char> {
    join_words(render_words(c))
}

/// A word: not empty, and no whitespace in it.
pub open spec fn is_word(w: Seq<char>) -> bool {
    w.len() > 0 && forall|i: int| 0 <= i < w.len() ==> !is_ws(#[trigger] w[i])
}

/// A command has a canonical rendering when its arguments are words.
pub open spec fn canonical(c: CommandView) -> bool {
    c matches CommandView::Run(args) ==> forall|i: int| 0 <= i < args.len() ==> is_word(#[trigger] args[i])
}

proof fn lemma_words_of_word_then(w: Seq<char>, rest: Seq<char>)
    requires
        is_word(w),
        rest.len() == 0 || is_ws(rest[0]),
    ensures
        words(w + rest) == seq![w] + words(rest),
{
    let s = w + rest;
    assert forall|k: int| 0 <= k < w.len() implies !is_ws(#[trigger] s[k]) by {
        assert(s[k] == w[k]);
    }
    lemma_word_len_run(s, 0, w.len() as int);
    assert(s.skip(0) =~= s);
    assert(s.take(w.len() as int) =~= w);
    assert(s.skip(w.len() as int) =~= rest);
}

proof fn lemma_words_of_joined(ws: Seq<Seq<char>>)
    requires
        forall|i: int| 0 <= i < ws.len() ==> is_word(#[trigger] ws[i]),
    ensures
        words(join_words(ws)) == ws,
    decreases ws.len(),
{
    if ws.len() == 0 {
        assert(words(Seq::<char>::empty()) =~= Seq::<Seq<char>>::empty());
        assert(ws =~= Seq::<Seq<char>>::empty());
    } else if ws.len() == 1 {
        assert(is_word(ws[0]));
        lemma_words_of_word_then(ws[0], Seq::empty());
        assert(ws[0] + Seq::<char>::empty() =~= ws[0]);
        assert(words(Seq::<char>::empty()) =~= Seq::<Seq<char>>::empty());
        assert(seq![ws[0]] + Seq::<Seq<char>>::empty() =~= ws);
    } else {
        let rest = ws.drop_first();
        assert forall|i: int| 0 <= i < rest.len() implies is_word(#[trigger] rest[i]) by {
            assert(rest[i] == ws[i + 1]);
        }
        lemma_words_of_joined(rest);
        let tail = seq![' '] + join_words(rest);
        assert(is_word(ws[0]));
        lemma_words_of_word_then(ws[0], tail);
        assert(ws[0] + seq![' '] + join_words(rest) =~= ws[0] + tail);
        assert(tail.drop_first() =~= join_words(rest));
        assert(words(tail) == words(tail.drop_first()));
        assert(seq![ws[0]] + rest =~= ws);
    }
}

proof fn lemma_digit_char(d: nat)
    requires
        d < 10,
    ensures
        is_digit(digit_char(d)),
        digit_value(digit_char(d)) == d,
{
}

proof fn lemma_decimal_text(n: nat)
    ensures
        is_digits(decimal_text(n)),
        decimal_value(decimal_text(n)) == n,
        is_word(decimal_text(n)),
    decreases n,
{
    if n < 10 {
        lemma_digit_char(n);
        let t = decimal_text(n);
        assert(t.drop_last() =~= Seq::<char>::empty());
        assert(decimal_value(Seq::<char>::empty()) == 0);
        assert(decimal_value(t) == decimal_value(t.drop_last()) * 10 + digit_value(t.last()));
    } else {
        lemma_digit_char(n % 10);
        lemma_decimal_text(n / 10);
        let t = decimal_text(n);
        assert(t.drop_last() =~= decimal_text(n / 10));
        assert(n == (n / 10) * 10 + n % 10) by (nonlinear_arith);
        assert forall|i: int| 0 <= i < t.len() implies is_digit(#[trigger] t[i]) by {
            if i < t.len() - 1 {
                assert(t[i] == decimal_text(n / 10)[i]);
            }
        }
    }
}

proof fn lemma_signed_text(x: i32)
    ensures
        i32_of(signed_text(x as int)) == Some(x),
        is_word(signed_text(x as int)),
{
    if x < 0 {
        let d = decimal_text((0 - x) as nat);
        lemma_decimal_text((0 - x) as nat);
        let t = seq!['-'] + d;
        assert(t.drop_first() =~= d);
        assert forall|i: int| 0 <= i < t.len() implies !is_ws(#[trigger] t[i]) by {
            if i > 0 {
                assert(t[i] == d[i - 1]);
            }
        }
    } else {
        lemma_decimal_text(x as nat);
        let d = decimal_text(x as nat);
        assert(unsigned_digits(d) == d);
    }
}

/// Reading a rendered command back gives the command: the rendering's words
/// are the verb and the arguments, the verb is lowercase ASCII and so stands as
/// it is, and verb and arguments name the command again.
pub proof fn lemma_render_parse_round_trip(c: CommandView)
    requires
        canonical(c),
    ensures
        words(render(c)) == render_words(c),
        is_lower_ascii(render_words(c)[0]),
        command_from_words(render_words(c)[0], render_words(c).drop_first()) == Ok::<CommandView, ParseError>(c),
        parse_line(render(c)) == Ok::<CommandView, ParseError>(c),
{
    reveal_strlit("run");
    reveal_strlit("r");
    reveal_strlit("continue");
    reveal_strlit("c");
    reveal_strlit("quit");
    reveal_strlit("q");
    reveal_strlit("break");
    reveal_strlit("b");
    reveal_strlit("delete");
    reveal_strlit("enable");
    reveal_strlit("disable");
    let ws = render_words(c);
    match c {
        CommandView::Breakpoint(BreakpointCommand::Create(a)) => {
            lemma_decimal_text(a.address as nat);
            assert(unsigned_digits(decimal_text(a.address as nat)) == decimal_text(a.address as nat));
            assert(u64_of(decimal_text(a.address as nat)) == Some(a.address));
        },
        CommandView::Breakpoint(BreakpointCommand::Delete(id)) => {
            lemma_signed_text(id.id);
        },
        CommandView::Breakpoint(BreakpointCommand::Enable(id)) => {
            lemma_signed_text(id.id);
        },
        CommandView::Breakpoint(BreakpointCommand::Disable(id)) => {
            lemma_signed_text(id.id);
        },
        _ => {},
    }
    assert(ws.drop_first() =~= match c {
        CommandView::Run(args) => args,
        CommandView::Breakpoint(BreakpointCommand::Create(a)) => seq![decimal_text(a.address as nat)],
        CommandView::Breakpoint(BreakpointCommand::Delete(id)) => seq![signed_text(id.id as int)],
        CommandView::Breakpoint(BreakpointCommand::Enable(id)) => seq![signed_text(id.id as int)],
        CommandView::Breakpoint(BreakpointCommand::Disable(id)) => seq![signed_text(id.id as int)],
        _ => Seq::<Seq<char>>::empty(),
    });
    assert forall|i: int| 0 <= i < ws.len() implies is_word(#[trigger] ws[i]) by {
        if i > 0 {
            if let CommandView::Run(args) = c {
                assert(ws[i] == args[i - 1]);
            }
        }
    }
    lemma_words_of_joined(ws);
}

} // verus!
