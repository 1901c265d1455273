//! The command history: the commands entered, without blanks and without a
//! command repeated right after itself. The file that backs it is append-only.

use vstd::prelude::*;
use vstd::string::*;

use crate::error::ConfigError;
use crate::stoppoint::texts;

verus! {

/// No entry is empty and no entry equals the one before it.
pub open spec fn well_formed_history(h: Seq<Seq<char>>) -> bool {
    &&& forall|i: int| 0 <= i < h.len() ==> (#[trigger] h[i]).len() > 0
    &&& forall|i: int| 0 < i < h.len() ==> #[trigger] h[i] != h[i - 1]
}

/// The history after `cmd` was offered to it: an empty command or a repeat of
/// the last entry is dropped, anything else is appended.
pub open spec fn history_after(h: Seq<Seq<char>>, cmd: Seq<char>) -> Seq<Seq<char>> {
    if cmd.len() == 0 || (h.len() > 0 && h.last() == cmd) {
        h
    } else {
        h.push(cmd)
    }
}

/// The history after each command of `cmds` was offered in turn.
pub open spec fn history_after_all(h: Seq<Seq<char>>, cmds: Seq<Seq<char>>) -> Seq<Seq<char>>
    decreases cmds.len(),
{
    if cmds.len() == 0 {
        h
    } else {
        history_after(history_after_all(h, cmds.drop_last()), cmds.last())
    }
}

pub struct CommandHistory {
    history: Vec<String>,
}

impl View for CommandHistory {
    type V = Seq<Seq<char>>;

    closed spec fn view(&self) -> Seq<Seq<char>> {
        texts(self.history@)
    }
}

impl CommandHistory {
    /// No entry is empty and none repeats the one before it.
    pub open spec fn wf(&self) -> bool {
        well_formed_history(self@)
    }

    /// An empty history.
    pub fn new() -> (r: CommandHistory)
        ensures
            r@ == Seq::<Seq<char>>::empty(),
            r.wf(),
    {
        let r = CommandHistory { history: Vec::new() };
        proof {
            assert(texts(r.history@) =~= Seq::<Seq<char>>::empty());
        }
        r
    }

    /// The history that replaying the lines of a history file gives: blank
    /// lines and repeats of the previous entry are skipped.
    pub fn from_lines(lines: Vec<String>) -> (r: CommandHistory)
        ensures
            r@ == history_after_all(Seq::empty(), texts(lines@)),
            r.wf(),
    {
        let mut h = CommandHistory::new();
        let mut i: usize = 0;
        while i < lines.len()
            invariant
                i <= lines@.len(),
                h@ == history_after_all(Seq::empty(), texts(lines@).take(i as int)),
                h.wf(),
            decreases lines@.len() - i,
        {
            h.add(lines[i].as_str());
            proof {
                let t = texts(lines@).take(i + 1);
                assert(t.drop_last() =~= texts(lines@).take(i as int));
            }
            i = i + 1;
        }
        proof {
            assert(texts(lines@).take(lines@.len() as int) =~= texts(lines@));
        }
        h
    }

    /// The last command entered, if any.
    pub fn last_command(&self) -> (r: Option<String>)
        ensures
            r is Some <==> self@.len() > 0,
            r matches Some(c) ==> c@ == self@.last(),
    {
        let n = self.history.len();
        if n == 0 {
            None
        } else {
            Some(self.history[n - 1].clone())
        }
    }

    /// The number of entries.
    pub fn len(&self) -> (r: usize)
        ensures
            r == self@.len(),
    {
        self.history.len()
    }

    /// The entries, oldest first.
    pub fn entries(&self) -> (r: Vec<String>)
        ensures
            texts(r@) == self@,
    {
        self.history.clone()
    }

    /// Offers `cmd` to the history. It is dropped when empty or equal to the
    /// last entry, and appended otherwise; the result says whether it was
    /// appended, that is whether `cmd` and a newline belong at the end of the
    /// history file.
    pub fn add(&mut self, cmd: &str) -> (r: bool)
        requires
            old(self).wf(),
        ensures
            final(self)@ == history_after(old(self)@, cmd@),
            r == (final(self)@ != old(self)@),
            r == !(cmd@.len() == 0 || (old(self)@.len() > 0 && old(self)@.last() == cmd@)),
            final(self).wf(),
    {
        if cmd.unicode_len() == 0 {
            return false;
        }
        let n = self.history.len();
        if n > 0 && crate::lexer::same_text(self.history[n - 1].as_str(), cmd) {
            return false;
        }
        let s = String::from_str(cmd);
        proof {
            assert(texts(self.history@.push(s)) =~= texts(self.history@).push(cmd@));
            assert(texts(self.history@).push(cmd@).len() == n + 1);
        }
        self.history.push(s);
        true
    }
}

/// Every history reached by offering commands to a well-formed history is well
/// formed, and its last entry is the last command that was not dropped.
pub proof fn lemma_history_stays_well_formed(h: Seq<Seq<char>>, cmds: Seq<Seq<char>>)
    requires
        well_formed_history(h),
    ensures
        well_formed_history(history_after_all(h, cmds)),
        cmds.len() > 0 && cmds.last().len() > 0 ==> history_after_all(h, cmds).last()
            == cmds.last(),
    decreases cmds.len(),
{
    if cmds.len() > 0 {
        lemma_history_stays_well_formed(h, cmds.drop_last());
        let p = history_after_all(h, cmds.drop_last());
        let c = cmds.last();
        if !(c.len() == 0 || (p.len() > 0 && p.last() == c)) {
            assert(forall|i: int| 0 < i < p.len() ==> #[trigger] p.push(c)[i] == p[i]);
        }
    }
}

/// The view of an optional string.
pub open spec fn opt_text(o: Option<String>) -> Option<Seq<char>> {
    match o {
        Some(s) => Some(s@),
        None => None,
    }
}

/// Joins a path and a component with one separator between them.
fn join_path(base: &str, component: &str) -> (r: String)
    ensures
        r@ == path_join(base@, component@),
{
    let n = base.unicode_len();
    let mut r = String::from_str(base);
    if n > 0 && base.get_char(n - 1) != '/' {
        r.append("/");
    }
    r.append(component);
    r
}

/// `base` joined with `component`: a `/` goes between them unless `base` is
/// empty or already ends with one.
pub open spec fn path_join(base: Seq<char>, component: Seq<char>) -> Seq<char> {
    if base.len() > 0 && base.last() != '/' {
        base + "/"@ + component
    } else {
        base + component
    }
}

/// Where the history file is when no path is configured: under
/// `$XDG_CACHE_HOME` when it is set and not empty, else under `$HOME/.cache`.
pub open spec fn default_history_path(xdg_cache_home: Option<Seq<char>>, home: Option<Seq<char>>) -> Result<
    Seq<char>,
    ConfigError,
> {
    match xdg_cache_home {
        Some(x) if x.len() > 0 => Ok(path_join(path_join(x, "jdb"@), "history"@)),
        _ => match home {
            Some(h) => Ok(path_join(path_join(path_join(h, ".cache"@), "jdb"@), "history"@)),
            None => Err(ConfigError::NoHistoryLocation),
        },
    }
}

/// The default location of the history file, from the values of
/// `XDG_CACHE_HOME` and `HOME`.
pub fn resolve_history_file(xdg_cache_home: Option<String>, home: Option<String>) -> (r: Result<
    String,
    ConfigError,
>)
    ensures
        match r {
            Ok(p) => default_history_path(opt_text(xdg_cache_home), opt_text(home)) == Ok::<Seq<char>, ConfigError>(p@),
            Err(e) => default_history_path(opt_text(xdg_cache_home), opt_text(home)) == Err::<Seq<char>, ConfigError>(e),
        },
{
    match xdg_cache_home {
        Some(x) if x.unicode_len() > 0 => {
            let p = join_path(x.as_str(), "jdb");
            Ok(join_path(p.as_str(), "history"))
        },
        _ => match home {
            Some(h) => {
                let p = join_path(h.as_str(), ".cache");
                let p = join_path(p.as_str(), "jdb");
                Ok(join_path(p.as_str(), "history"))
            },
            None => Err(ConfigError::NoHistoryLocation),
        },
    }
}

/// A configured history path with a leading `~/` expanded against `$HOME`.
pub open spec fn expanded_path(path: Seq<char>, home: Option<Seq<char>>) -> Seq<char> {
    if path.len() >= 2 && path[0] == '~' && path[1] == '/' && home is Some {
        path_join(home->0, path.skip(2))
    } else {
        path
    }
}

/// Expands a leading `~/` of a configured path against the value of `HOME`.
pub fn expand_home(path: &str, home: Option<String>) -> (r: String)
    ensures
        r@ == expanded_path(path@, opt_text(home)),
{
    let n = path.unicode_len();
    if n >= 2 && path.get_char(0) == '~' && path.get_char(1) == '/' {
        match home {
            Some(h) => join_path(h.as_str(), path.substring_char(2, n)),
            None => String::from_str(path),
        }
    } else {
        String::from_str(path)
    }
}

/// Where the history file is: a configured path with `~/` expanded, else the
/// default place.
pub open spec fn history_path(
    configured: Option<Seq<char>>,
    xdg_cache_home: Option<Seq<char>>,
    home: Option<Seq<char>>,
) -> Result<Seq<char>, ConfigError> {
    match configured {
        Some(c) => Ok(expanded_path(c, home)),
        None => default_history_path(xdg_cache_home, home),
    }
}

impl CommandHistory {
    /// The history file's path, from the configured path (if any) and the
    /// values of `XDG_CACHE_HOME` and `HOME`, with the history that the file's
    /// `lines` hold (none when there is no file): blank lines and repeats of
    /// the previous entry are skipped.
    pub fn load(
        configured: Option<String>,
        xdg_cache_home: Option<String>,
        home: Option<String>,
        lines: Vec<String>,
    ) -> (r: Result<(String, CommandHistory), ConfigError>)
        ensures
            match history_path(opt_text(configured), opt_text(xdg_cache_home), opt_text(home)) {
                Err(e) => r == Err::<(String, CommandHistory), ConfigError>(e),
                Ok(path) => r matches Ok((p, h)) && p@ == path && h.wf() && h@ == history_after_all(
                    Seq::empty(),
                    texts(lines@),
                ),
            },
    {
        let path = match configured {
            Some(c) => expand_home(c.as_str(), home),
            None => match resolve_history_file(xdg_cache_home, home) {
                Ok(p) => p,
                Err(e) => {
                    return Err(e);
                },
            },
        };
        Ok((path, CommandHistory::from_lines(lines)))
    }
}

} // verus!
