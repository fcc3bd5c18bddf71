//! How a process comes back to the kernel, and what it asks for.

use vstd::prelude::*;

verus! {

/// Why a process stopped running.
#[derive(Clone, Copy, Debug, PartialEq, Eq, Structural)]
pub enum ContextSwitchReason {
    /// The process made a system call.
    SyscallFired,
    /// The process crashed.
    Fault,
    /// The time of the process is over.
    TimesliceExpired,
}

/// A decoded system call. Addresses are those of the process.
#[derive(Clone, Copy, Debug, PartialEq, Eq, Structural)]
pub enum Syscall {
    /// Wait for a task.
    YIELD,
    /// Have a driver call a function of the process later.
    SUBSCRIBE {
        driver_number: usize,
        subdriver_number: usize,
        callback_ptr: usize,
        appdata: usize,
    },
    /// Have a driver do something.
    COMMAND { driver_number: usize, subdriver_number: usize, arg0: usize, arg1: usize },
    /// Lend memory to a driver.
    ALLOW {
        driver_number: usize,
        subdriver_number: usize,
        allow_address: usize,
        allow_size: usize,
    },
    /// Ask for, or about, memory of the process.
    MEMOP { operand: usize, arg0: usize },
}

} // verus!
