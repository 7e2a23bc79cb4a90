//! The programs the shell can launch, each an explicit state machine
//! driven by typed messages, plus the handles the filesystem names them by.

use vstd::prelude::*;

verus! {

/// Handle of the interactive shell program.
pub const PROGRAM_CASH: u64 = 1;

/// Handle of the screen-clearing program.
pub const PROGRAM_CLEAR: u64 = 2;

/// Handle of the help text program.
pub const PROGRAM_HELP: u64 = 3;

/// Handle of the session-ending program.
pub const PROGRAM_SHUTDOWN: u64 = 4;

/// Handle of the remote-host placeholder program.
pub const PROGRAM_SSH: u64 = 5;

} // verus!

pub mod cash;
pub mod clear;
pub mod help;
pub mod shutdown;
pub mod ssh;
