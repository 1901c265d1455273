//! Errors of the debugger core, by kind.

use vstd::prelude::*;

verus! {

/// Why a command line could not be read.
#[derive(Clone, Copy, Debug, PartialEq, Eq, Structural)]
pub enum ParseError {
    /// The verb names no command.
    UnknownCommand,
    /// The command takes another number of arguments.
    WrongArity,
    /// An address or id is not a decimal number of the expected size.
    BadNumber,
}

/// Why the configuration cannot be used.
#[derive(Clone, Copy, Debug, PartialEq, Eq, Structural)]
pub enum ConfigError {
    /// No executable path was given.
    MissingExecutable,
    /// The executable path is empty.
    EmptyExecutable,
    /// Nothing exists at the executable path.
    ExecutableNotFound,
    /// Neither a cache directory nor a home directory is known.
    NoHistoryLocation,
    /// The process id to attach to is not positive.
    BadPid,
}

/// The errors of the debugger core.
#[derive(Clone, Copy, Debug, PartialEq, Eq, Structural)]
pub enum DebugError {
    Config(ConfigError),
    Parse(ParseError),
    /// The command does not fit the inferior's current state.
    State,
    /// A system call on the tracee failed with this errno.
    Syscall(i32),
    /// No breakpoint has this id.
    NotFound,
    /// A breakpoint already exists at this address.
    Duplicate,
    /// Every breakpoint id has been handed out.
    IdsExhausted,
    /// A register value does not fit the register's format, or is not an address.
    BadConversion,
}

} // verus!
