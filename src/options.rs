//! Command-line configuration of the debugger.

use vstd::prelude::*;
use vstd::string::*;

use crate::error::ConfigError;
use crate::lexer::{i32_of, parse_i32, same_text};
use crate::stoppoint::texts;

verus! {

/// Whether the inferior runs with Linux address-space layout randomization.
#[derive(Clone, Copy, Debug, PartialEq, Eq, Structural)]
pub enum Aslr {
    Enabled,
    Disabled,
}

/// The debugger's configuration.
#[derive(Clone, Debug)]
pub struct Options {
    /// The program to launch.
    pub executable: String,
    /// A running process to attach to instead of launching one.
    pub pid: Option<i32>,
    /// Where the command history is kept, when not at its default place.
    pub history_file: Option<String>,
    pub aslr: Aslr,
}

/// Relies on `std::path::Path::exists`: whether the file system holds something
/// at `path` right now. Nothing is promised about the answer.
#[verifier::external_body]
fn path_exists(path: &str) -> bool {
    std::path::Path::new(path).exists()
}

/// What the arguments of the command line configure, before the file system is
/// consulted: the first positional argument is the executable, `-p`/`--pid`
/// takes a process id and `--history-file` a path.
pub struct ArgsView {
    pub executable: Option<Seq<char>>,
    pub pid: Option<i32>,
    pub history_file: Option<Seq<char>>,
}

/// Reads `args[i..]` on top of what the earlier arguments configured.
pub open spec fn scan_args(args: Seq<Seq<char>>, i: nat, acc: ArgsView) -> Result<ArgsView, ConfigError>
    decreases args.len() - i,
{
    if i >= args.len() {
        Ok(acc)
    } else if args[i as int] == "-p"@ || args[i as int] == "--pid"@ {
        if i + 1 >= args.len() {
            Err(ConfigError::BadPid)
        } else {
            match i32_of(args[i + 1 as int]) {
                Some(p) => if p > 0 {
                    scan_args(args, i + 2, ArgsView { pid: Some(p), ..acc })
                } else {
                    Err(ConfigError::BadPid)
                },
                None => Err(ConfigError::BadPid),
            }
        }
    } else if args[i as int] == "--history-file"@ {
        if i + 1 < args.len() {
            scan_args(args, i + 2, ArgsView { history_file: Some(args[i + 1 as int]), ..acc })
        } else {
            scan_args(args, i + 1, acc)
        }
    } else if acc.executable is None {
        scan_args(args, i + 1, ArgsView { executable: Some(args[i as int]), ..acc })
    } else {
        scan_args(args, i + 1, acc)
    }
}

/// What the whole command line configures.
pub open spec fn args_config(args: Seq<Seq<char>>) -> Result<ArgsView, ConfigError> {
    scan_args(args, 0, ArgsView { executable: None, pid: None, history_file: None })
}

/// The view of an optional string.
pub open spec fn opt_view(o: Option<String>) -> Option<Seq<char>> {
    match o {
        Some(s) => Some(s@),
        None => None,
    }
}

impl Options {
    /// Reads the command line (without the program name): the first positional
    /// argument is the executable; `-p <PID>` or `--pid <PID>` names a process
    /// to attach to, which must be positive; `--history-file <PATH>` overrides
    /// the history location. The executable is then validated.
    pub fn from_args(args: Vec<String>) -> (r: Result<Options, ConfigError>)
        requires
            args@.len() < usize::MAX,
        ensures
            match args_config(texts(args@)) {
                Err(e) => r == Err::<Options, ConfigError>(e),
                Ok(v) => match v.executable {
                    None => r == Err::<Options, ConfigError>(ConfigError::MissingExecutable),
                    Some(x) => {
                        &&& x.len() == 0 ==> r == Err::<Options, ConfigError>(
                            ConfigError::EmptyExecutable,
                        )
                        &&& x.len() > 0 ==> (r is Ok || r == Err::<Options, ConfigError>(
                            ConfigError::ExecutableNotFound,
                        ))
                        &&& r matches Ok(o) ==> o.executable@ == x && o.pid == v.pid
                            && opt_view(o.history_file) == v.history_file && o.aslr
                            == Aslr::Disabled
                    },
                },
            },
    {
        let mut executable: Option<String> = None;
        let mut pid: Option<i32> = None;
        let mut history_file: Option<String> = None;
        let mut i: usize = 0;
        while i < args.len()
            invariant
                i <= args@.len(),
                args_config(texts(args@)) == scan_args(
                    texts(args@),
                    i as nat,
                    ArgsView { executable: opt_view(executable), pid, history_file: opt_view(history_file) },
                ),
            decreases args@.len() - i,
        {
            let a = args[i].as_str();
            if same_text(a, "-p") || same_text(a, "--pid") {
                if i + 1 >= args.len() {
                    return Err(ConfigError::BadPid);
                }
                match parse_i32(args[i + 1].as_str()) {
                    Some(p) if p > 0 => {
                        pid = Some(p);
                    },
                    _ => {
                        return Err(ConfigError::BadPid);
                    },
                }
                i = i + 2;
            } else if same_text(a, "--history-file") {
                if i + 1 < args.len() {
                    history_file = Some(args[i + 1].clone());
                    i = i + 2;
                } else {
                    i = i + 1;
                }
            } else {
                if executable.is_none() {
                    executable = Some(args[i].clone());
                }
                i = i + 1;
            }
        }
        let executable = match executable {
            Some(e) => e,
            None => {
                return Err(ConfigError::MissingExecutable);
            },
        };
        let options = Options { executable, pid, history_file, aslr: Aslr::Disabled };
        match options.validate() {
            Ok(()) => Ok(options),
            Err(e) => Err(e),
        }
    }

    /// Checks that the executable path is not empty and that something exists
    /// there.
    pub fn validate(&self) -> (r: Result<(), ConfigError>)
        ensures
            self.executable@.len() == 0 <==> r == Err::<(), ConfigError>(ConfigError::EmptyExecutable),
            r is Ok || r == Err::<(), ConfigError>(ConfigError::EmptyExecutable) || r == Err::<
                (),
                ConfigError,
            >(ConfigError::ExecutableNotFound),
    {
        if self.executable.unicode_len() == 0 {
            return Err(ConfigError::EmptyExecutable);
        }
        if !path_exists(self.executable.as_str()) {
            return Err(ConfigError::ExecutableNotFound);
        }
        Ok(())
    }
}

} // verus!
