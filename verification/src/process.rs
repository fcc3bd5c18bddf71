//! What the scheduler knows of a process.

use vstd::prelude::*;

verus! {

/// Names an application by its slot in the process table.
#[derive(Clone, Copy, Debug, PartialEq, Eq, Structural)]
pub struct AppId {
    pub idx: usize,
}

/// The scheduling state of a process.
#[derive(Clone, Copy, Debug, PartialEq, Eq, Structural)]
pub enum State {
    /// The process expects to be running.
    Running,
    /// The process waits for a task.
    Yielded,
    /// The process has crashed.
    Fault,
}

/// Something queued for a process that waits.
///
/// `F` describes a function call into the process and `I` a kind of message
/// between processes. The scheduler hands both on as they are.
#[derive(Debug, PartialEq, Eq)]
pub enum Task<F, I> {
    /// A function call into the process.
    FunctionCall(F),
    /// A message from another application.
    IPC((AppId, I)),
}

/// A function of an application that a driver may have called later.
#[derive(Clone, Copy, Debug, PartialEq, Eq, Structural)]
pub struct Callback {
    pub appid: AppId,
    pub appdata: usize,
    /// The address of the function, never null.
    pub fn_ptr: usize,
}

/// A piece of an application's memory that a driver may use.
#[derive(Clone, Copy, Debug, PartialEq, Eq, Structural)]
pub struct AppSlice {
    pub address: usize,
    pub size: usize,
    pub appid: AppId,
}

/// The address that stands for no address.
pub const NULL: usize = 0;

/// The callback that an application asks for by the address of a function: none
/// where the address is null.
pub open spec fn callback_at(appid: AppId, appdata: usize, fn_ptr: usize) -> Option<Callback> {
    if fn_ptr == NULL {
        None
    } else {
        Some(Callback { appid, appdata, fn_ptr })
    }
}

impl Callback {
    /// The callback at a function's address, if that address is not null.
    pub fn at(appid: AppId, appdata: usize, fn_ptr: usize) -> (callback: Option<Callback>)
        ensures
            callback == callback_at(appid, appdata, fn_ptr),
            callback is None <==> fn_ptr == 0,
            callback is Some ==> callback->0.appid == appid && callback->0.appdata == appdata
                && callback->0.fn_ptr == fn_ptr,
    {
        if fn_ptr == NULL {
            None
        } else {
            Some(Callback { appid, appdata, fn_ptr })
        }
    }
}

} // verus!
