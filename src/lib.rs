//! Inferior control for a terminal debugger of Linux x86-64 processes: the
//! register catalog and snapshots, software breakpoints, the process state
//! machine, command parsing and history, and the state behind the terminal
//! interface. System calls on the tracee are left to the caller, which hands
//! their outcomes back.

pub mod debugger;
pub mod error;
pub mod history;
pub mod lexer;
pub mod options;
pub mod process;
pub mod pty;
pub mod register_info;
pub mod registers;
pub mod stoppoint;
pub mod tui;
pub mod riscv64;
