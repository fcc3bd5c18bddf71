//! One time slice of one process.
//!
//! A slice sets the system timer up and then repeats: look whether the kernel is
//! needed elsewhere, else run the process or hand it its next task, and serve
//! what the process asked for. `ProcessRun` decides; its caller performs each
//! `Action` and reports the `Reply`.

use vstd::prelude::*;

use crate::process::{AppId, AppSlice, Callback, State, Task, NULL};
use crate::returncode::ReturnCode;
use crate::syscall::{ContextSwitchReason, Syscall};

verus! {

/// The time a process is permitted to run before being pre-empted
pub const KERNEL_TICK_DURATION_US: u32 = 10000;

/// Skip re-scheduling a process if its quanta is nearly exhausted
pub const MIN_QUANTA_THRESHOLD_US: u32 = 500;

/// Why the kernel cannot go on with a process.
#[derive(Clone, Copy, Debug, PartialEq, Eq, Structural)]
pub enum RunPanic {
    /// A process in the fault state was to be scheduled.
    FaultyProcess,
    /// A message is queued for the process, and there is no IPC service.
    IpcTaskWithoutIpc,
}

/// A call into a driver, on behalf of the application of the run.
#[derive(Clone, Copy, Debug, PartialEq, Eq, Structural)]
pub enum DriverCall {
    Subscribe { subdriver_number: usize, callback: Option<Callback>, appid: AppId },
    Command { subdriver_number: usize, arg0: usize, arg1: usize, appid: AppId },
    Allow { appid: AppId, subdriver_number: usize, slice: Option<AppSlice> },
}

/// What the caller of a run has to do next. The reply that each asks for is
/// `Reply::Done` where nothing else is said.
#[derive(Debug, PartialEq, Eq)]
pub enum Action<F, I> {
    /// Stop the system timer and clear it.
    SystickReset,
    /// Load the system timer, in microseconds.
    SystickSetTimer(u32),
    /// Start the system timer, or hold it.
    SystickEnable(bool),
    /// Is an interrupt pending? (`Reply::Answer`)
    HasPendingInterrupts,
    /// Has the system timer run out? (`Reply::Answer`)
    SystickOverflowed,
    /// Has the system timer more than so many microseconds left? (`Reply::Answer`)
    SystickGreaterThan(u32),
    /// In which state is the process? (`Reply::State`)
    GetState,
    /// Load the memory protection unit with the regions of the process.
    SetupMpu,
    /// Switch memory protection on.
    EnableMpu,
    /// Switch memory protection off.
    DisableMpu,
    /// Run the process until it comes back. (`Reply::Switched`)
    SwitchTo,
    /// Have the process treat a crash as it is configured to.
    SetFaultState,
    /// Which system call did the process make? (`Reply::Syscall`)
    GetSyscall,
    /// Carry out a memory operation for the process. (`Reply::Code`)
    Memop { operand: usize, arg0: usize },
    /// Put the process in the yielded state.
    SetYieldedState,
    /// Take the frame of the system call off the stack of the process.
    PopSyscallStackFrame,
    /// Does the platform have this driver? (`Reply::Answer`)
    FindDriver { driver_number: usize },
    /// Does this memory belong to the process? (`Reply::Answer`)
    InAppOwnedMemory { address: usize, size: usize },
    /// Call the driver. (`Reply::Code`)
    CallDriver { driver_number: usize, call: DriverCall },
    /// Give the process the result of its system call.
    SetSyscallReturnValue(ReturnCode),
    /// Take the next task off the queue of the process. (`Reply::Task`)
    DequeueTask,
    /// Have the process call a function when it runs next.
    PushFunctionCall(F),
    /// Have the IPC service schedule the callback for a message to `appid`.
    ScheduleIpcCallback { appid: AppId, otherapp: AppId, ipc_type: I },
    /// The slice is over. No reply.
    Return,
    /// The kernel must stop. No reply.
    Panic(RunPanic),
}

/// What came of an action.
#[derive(Debug, PartialEq, Eq)]
pub enum Reply<F, I> {
    Done,
    Answer(bool),
    State(State),
    /// Why the process came back; nothing, where the switch to it went wrong.
    Switched(Option<ContextSwitchReason>),
    /// The system call; nothing, where there is none that the kernel knows.
    Syscall(Option<Syscall>),
    Code(ReturnCode),
    /// The task; nothing, where the queue is empty.
    Task(Option<Task<F, I>>),
}

/// Which reply a run waits for.
#[derive(Clone, Copy, Debug, PartialEq, Eq, Structural)]
pub enum Stage {
    /// The system timer is being cleared for the slice.
    ClearingTimer,
    /// The system timer is being loaded for the slice.
    LoadingTimer,
    /// The system timer is being started for the slice.
    StartingTimer,
    CheckingInterrupts,
    CheckingOverflow,
    CheckingQuanta,
    ReadingState,
    SettingUpMpu,
    EnablingMpu,
    /// The system timer is being started for the process.
    ResumingTimer,
    Switching,
    /// The system timer is being held, for the process came back.
    HoldingTimer(Option<ContextSwitchReason>),
    DisablingMpu(Option<ContextSwitchReason>),
    Faulting,
    ReadingSyscall,
    Yielding,
    PoppingFrame,
    /// The driver of this system call is being looked for.
    FindingDriver(Syscall),
    CheckingMemory {
        driver_number: usize,
        subdriver_number: usize,
        address: usize,
        size: usize,
    },
    /// A driver or a service works, and its code goes to the process.
    AwaitingCode,
    ReturningValue,
    Dequeuing,
    /// A task is being handed to the process.
    HandingTask,
    /// The system timer is being cleared, for the slice is over.
    Finishing,
    Finished,
    Panicked,
}

/// Whether a run that waits at `stage` can be given `reply`.
pub open spec fn accepts<F, I>(stage: Stage, reply: Reply<F, I>) -> bool {
    match stage {
        Stage::CheckingInterrupts
        | Stage::CheckingOverflow
        | Stage::CheckingQuanta
        | Stage::FindingDriver(_)
        | Stage::CheckingMemory { .. } => reply is Answer,
        Stage::ReadingState => reply is State,
        Stage::Switching => reply is Switched,
        Stage::ReadingSyscall => reply is Syscall,
        Stage::AwaitingCode => reply is Code,
        Stage::Dequeuing => reply is Task,
        Stage::Finished | Stage::Panicked => false,
        _ => reply is Done,
    }
}

/// The first action of a slice and the stage that waits for it.
pub open spec fn first<F, I>() -> (Stage, Action<F, I>) {
    (Stage::ClearingTimer, Action::SystickReset)
}

/// Back to the checks with which every round of the loop begins.
pub open spec fn next_round<F, I>() -> (Stage, Action<F, I>) {
    (Stage::CheckingInterrupts, Action::HasPendingInterrupts)
}

/// Out of the loop.
pub open spec fn leave<F, I>() -> (Stage, Action<F, I>) {
    (Stage::Finishing, Action::SystickReset)
}

/// Give `code` to the process.
pub open spec fn answer<F, I>(code: ReturnCode) -> (Stage, Action<F, I>) {
    (Stage::ReturningValue, Action::SetSyscallReturnValue(code))
}

/// What follows when the process is back in the kernel.
pub open spec fn after_switch<F, I>(reason: Option<ContextSwitchReason>) -> (Stage, Action<F, I>) {
    match reason {
        Some(ContextSwitchReason::SyscallFired) => (Stage::ReadingSyscall, Action::GetSyscall),
        Some(ContextSwitchReason::TimesliceExpired) => leave(),
        Some(ContextSwitchReason::Fault) | None => (Stage::Faulting, Action::SetFaultState),
    }
}

/// What follows when it is known which system call was made.
pub open spec fn after_syscall<F, I>(syscall: Option<Syscall>) -> (Stage, Action<F, I>) {
    match syscall {
        Some(Syscall::MEMOP { operand, arg0 }) => (
            Stage::AwaitingCode,
            Action::Memop { operand, arg0 },
        ),
        Some(Syscall::YIELD) => (Stage::Yielding, Action::SetYieldedState),
        Some(Syscall::SUBSCRIBE { driver_number, .. }) => (
            Stage::FindingDriver(syscall->0),
            Action::FindDriver { driver_number },
        ),
        Some(Syscall::COMMAND { driver_number, .. }) => (
            Stage::FindingDriver(syscall->0),
            Action::FindDriver { driver_number },
        ),
        Some(Syscall::ALLOW { driver_number, .. }) => (
            Stage::FindingDriver(syscall->0),
            Action::FindDriver { driver_number },
        ),
        None => next_round(),
    }
}

/// What follows when the driver of a system call has been found.
pub open spec fn with_driver<F, I>(appid: AppId, syscall: Syscall) -> (Stage, Action<F, I>) {
    match syscall {
        Syscall::SUBSCRIBE { driver_number, subdriver_number, callback_ptr, appdata } => (
            Stage::AwaitingCode,
            Action::CallDriver {
                driver_number,
                call: DriverCall::Subscribe {
                    subdriver_number,
                    callback: crate::process::callback_at(appid, appdata, callback_ptr),
                    appid,
                },
            },
        ),
        Syscall::COMMAND { driver_number, subdriver_number, arg0, arg1 } => (
            Stage::AwaitingCode,
            Action::CallDriver {
                driver_number,
                call: DriverCall::Command { subdriver_number, arg0, arg1, appid },
            },
        ),
        Syscall::ALLOW { driver_number, subdriver_number, allow_address, allow_size } => if allow_address
            != NULL {
            (
                Stage::CheckingMemory {
                    driver_number,
                    subdriver_number,
                    address: allow_address,
                    size: allow_size,
                },
                Action::InAppOwnedMemory { address: allow_address, size: allow_size },
            )
        } else {
            (
                Stage::AwaitingCode,
                Action::CallDriver {
                    driver_number,
                    call: DriverCall::Allow { appid, subdriver_number, slice: None },
                },
            )
        },
        // No other system call goes to a driver.
        _ => next_round(),
    }
}

/// What follows when a waiting process was asked for its next task.
pub open spec fn after_dequeue<F, I>(appid: AppId, ipc: bool, task: Option<Task<F, I>>) -> (
    Stage,
    Action<F, I>,
) {
    match task {
        None => leave(),
        Some(Task::FunctionCall(call)) => (Stage::HandingTask, Action::PushFunctionCall(call)),
        Some(Task::IPC((otherapp, ipc_type))) => if ipc {
            (Stage::HandingTask, Action::ScheduleIpcCallback { appid, otherapp, ipc_type })
        } else {
            (Stage::Panicked, Action::Panic(RunPanic::IpcTaskWithoutIpc))
        },
    }
}

/// The step of a slice: where it goes from `stage` on a reply that `stage`
/// accepts. `ipc` says whether there is an IPC service.
pub open spec fn transition<F, I>(
    appid: AppId,
    ipc: bool,
    stage: Stage,
    reply: Reply<F, I>,
) -> (Stage, Action<F, I>) {
    match stage {
        Stage::ClearingTimer => (
            Stage::LoadingTimer,
            Action::SystickSetTimer(KERNEL_TICK_DURATION_US),
        ),
        Stage::LoadingTimer => (Stage::StartingTimer, Action::SystickEnable(true)),
        Stage::CheckingInterrupts => if reply == Reply::<F, I>::Answer(true) {
            leave()
        } else {
            (Stage::CheckingOverflow, Action::SystickOverflowed)
        },
        Stage::CheckingOverflow => if reply == Reply::<F, I>::Answer(true) {
            leave()
        } else {
            (Stage::CheckingQuanta, Action::SystickGreaterThan(MIN_QUANTA_THRESHOLD_US))
        },
        Stage::CheckingQuanta => if reply == Reply::<F, I>::Answer(true) {
            (Stage::ReadingState, Action::GetState)
        } else {
            leave()
        },
        Stage::ReadingState => match reply->State_0 {
            State::Running => (Stage::SettingUpMpu, Action::SetupMpu),
            State::Yielded => (Stage::Dequeuing, Action::DequeueTask),
            State::Fault => (Stage::Panicked, Action::Panic(RunPanic::FaultyProcess)),
        },
        Stage::SettingUpMpu => (Stage::EnablingMpu, Action::EnableMpu),
        Stage::EnablingMpu => (Stage::ResumingTimer, Action::SystickEnable(true)),
        Stage::ResumingTimer => (Stage::Switching, Action::SwitchTo),
        Stage::Switching => (
            Stage::HoldingTimer(reply->Switched_0),
            Action::SystickEnable(false),
        ),
        Stage::HoldingTimer(reason) => (Stage::DisablingMpu(reason), Action::DisableMpu),
        Stage::DisablingMpu(reason) => after_switch(reason),
        Stage::ReadingSyscall => after_syscall(reply->Syscall_0),
        Stage::Yielding => (Stage::PoppingFrame, Action::PopSyscallStackFrame),
        Stage::FindingDriver(syscall) => if reply == Reply::<F, I>::Answer(true) {
            with_driver(appid, syscall)
        } else {
            answer(ReturnCode::ENODEVICE)
        },
        Stage::CheckingMemory { driver_number, subdriver_number, address, size } => if reply
            == Reply::<F, I>::Answer(true) {
            (
                Stage::AwaitingCode,
                Action::CallDriver {
                    driver_number,
                    call: DriverCall::Allow {
                        appid,
                        subdriver_number,
                        slice: Some(AppSlice { address, size, appid }),
                    },
                },
            )
        } else {
            // memory not allocated to process
            answer(ReturnCode::EINVAL)
        },
        Stage::AwaitingCode => answer(reply->Code_0),
        Stage::Dequeuing => after_dequeue(appid, ipc, reply->Task_0),
        Stage::Finishing => (Stage::Finished, Action::Return),
        Stage::StartingTimer
        | Stage::Faulting
        | Stage::PoppingFrame
        | Stage::ReturningValue
        | Stage::HandingTask => next_round(),
        // No reply is accepted here.
        Stage::Finished | Stage::Panicked => (stage, Action::Return),
    }
}

/// A time slice of the process of one application.
#[derive(Debug)]
pub struct ProcessRun {
    appid: AppId,
    ipc: bool,
    stage: Stage,
}

impl View for ProcessRun {
    type V = Stage;

    /// Which reply the run waits for.
    closed spec fn view(&self) -> Stage {
        self.stage
    }
}

impl ProcessRun {
    /// The application whose process runs.
    pub closed spec fn appid(&self) -> AppId {
        self.appid
    }

    /// Whether there is an IPC service.
    pub closed spec fn ipc(&self) -> bool {
        self.ipc
    }

    /// Begins a slice for the process of `appid`: the run, and its first action.
    pub fn start<F, I>(appid: AppId, ipc: bool) -> (r: (ProcessRun, Action<F, I>))
        ensures
            r.0.appid() == appid,
            r.0.ipc() == ipc,
            (r.0@, r.1) == first::<F, I>(),
    {
        (ProcessRun { appid, ipc, stage: Stage::ClearingTimer }, Action::SystickReset)
    }

    /// Whether `reply` is of the kind that the run waits for.
    pub fn accepts<F, I>(&self, reply: &Reply<F, I>) -> (r: bool)
        ensures
            r == accepts(self@, *reply),
    {
        match self.stage {
            Stage::CheckingInterrupts
            | Stage::CheckingOverflow
            | Stage::CheckingQuanta
            | Stage::FindingDriver(_)
            | Stage::CheckingMemory { .. } => matches!(reply, Reply::Answer(_)),
            Stage::ReadingState => matches!(reply, Reply::State(_)),
            Stage::Switching => matches!(reply, Reply::Switched(_)),
            Stage::ReadingSyscall => matches!(reply, Reply::Syscall(_)),
            Stage::AwaitingCode => matches!(reply, Reply::Code(_)),
            Stage::Dequeuing => matches!(reply, Reply::Task(_)),
            Stage::Finished | Stage::Panicked => false,
            _ => matches!(reply, Reply::Done),
        }
    }

    /// Takes the reply to the last action and gives the next one.
    pub fn step<F, I>(&mut self, reply: Reply<F, I>) -> (action: Action<F, I>)
        requires
            accepts(old(self)@, reply),
        ensures
            final(self).appid() == old(self).appid(),
            final(self).ipc() == old(self).ipc(),
            (final(self)@, action) == transition(
                old(self).appid(),
                old(self).ipc(),
                old(self)@,
                reply,
            ),
    {
        let (stage, action) = match (self.stage, reply) {
            (Stage::ClearingTimer, _) => (
                Stage::LoadingTimer,
                Action::SystickSetTimer(KERNEL_TICK_DURATION_US),
            ),
            (Stage::LoadingTimer, _) => (Stage::StartingTimer, Action::SystickEnable(true)),
            (Stage::CheckingInterrupts, Reply::Answer(false)) => (
                Stage::CheckingOverflow,
                Action::SystickOverflowed,
            ),
            (Stage::CheckingOverflow, Reply::Answer(false)) => (
                Stage::CheckingQuanta,
                Action::SystickGreaterThan(MIN_QUANTA_THRESHOLD_US),
            ),
            (Stage::CheckingQuanta, Reply::Answer(true)) => (Stage::ReadingState, Action::GetState),
            (Stage::CheckingInterrupts, _)
            | (Stage::CheckingOverflow, _)
            | (Stage::CheckingQuanta, _) => (Stage::Finishing, Action::SystickReset),
            (Stage::ReadingState, Reply::State(State::Running)) => (
                Stage::SettingUpMpu,
                Action::SetupMpu,
            ),
            (Stage::ReadingState, Reply::State(State::Yielded)) => (
                Stage::Dequeuing,
                Action::DequeueTask,
            ),
            (Stage::ReadingState, _) => (Stage::Panicked, Action::Panic(RunPanic::FaultyProcess)),
            (Stage::SettingUpMpu, _) => (Stage::EnablingMpu, Action::EnableMpu),
            (Stage::EnablingMpu, _) => (Stage::ResumingTimer, Action::SystickEnable(true)),
            (Stage::ResumingTimer, _) => (Stage::Switching, Action::SwitchTo),
            (Stage::Switching, Reply::Switched(reason)) => (
                Stage::HoldingTimer(reason),
                Action::SystickEnable(false),
            ),
            (Stage::HoldingTimer(reason), _) => (Stage::DisablingMpu(reason), Action::DisableMpu),
            (Stage::DisablingMpu(reason), _) => Self::handle_switch(reason),
            (Stage::ReadingSyscall, Reply::Syscall(syscall)) => Self::handle_syscall(syscall),
            (Stage::Yielding, _) => (Stage::PoppingFrame, Action::PopSyscallStackFrame),
            (Stage::FindingDriver(syscall), Reply::Answer(true)) => Self::handle_driver(
                self.appid,
                syscall,
            ),
            (Stage::FindingDriver(_), _) => (
                Stage::ReturningValue,
                Action::SetSyscallReturnValue(ReturnCode::ENODEVICE),
            ),
            (
                Stage::CheckingMemory { driver_number, subdriver_number, address, size },
                Reply::Answer(true),
            ) => (
                Stage::AwaitingCode,
                Action::CallDriver {
                    driver_number,
                    call: DriverCall::Allow {
                        appid: self.appid,
                        subdriver_number,
                        slice: Some(AppSlice { address, size, appid: self.appid }),
                    },
                },
            ),
            (Stage::CheckingMemory { .. }, _) => (
                Stage::ReturningValue,
                Action::SetSyscallReturnValue(ReturnCode::EINVAL),
            ),
            (Stage::AwaitingCode, Reply::Code(code)) => (
                Stage::ReturningValue,
                Action::SetSyscallReturnValue(code),
            ),
            (Stage::Dequeuing, Reply::Task(task)) => Self::handle_task(self.appid, self.ipc, task),
            (Stage::Finishing, _) => (Stage::Finished, Action::Return),
            _ => (Stage::CheckingInterrupts, Action::HasPendingInterrupts),
        };
        self.stage = stage;
        action
    }

    /// The process came back for `reason`.
    fn handle_switch<F, I>(reason: Option<ContextSwitchReason>) -> (r: (Stage, Action<F, I>))
        ensures
            r == after_switch::<F, I>(reason),
    {
        match reason {
            // Let process deal with it as appropriate. A switch that went wrong
            // counts as a crash.
            Some(ContextSwitchReason::Fault) | None => (Stage::Faulting, Action::SetFaultState),
            Some(ContextSwitchReason::SyscallFired) => (Stage::ReadingSyscall, Action::GetSyscall),
            // Go on to other processes.
            Some(ContextSwitchReason::TimesliceExpired) => (Stage::Finishing, Action::SystickReset),
        }
    }

    /// The process made `syscall`.
    fn handle_syscall<F, I>(syscall: Option<Syscall>) -> (r: (Stage, Action<F, I>))
        ensures
            r == after_syscall::<F, I>(syscall),
    {
        match syscall {
            None => (Stage::CheckingInterrupts, Action::HasPendingInterrupts),
            Some(call) => match call {
                Syscall::MEMOP { operand, arg0 } => (
                    Stage::AwaitingCode,
                    Action::Memop { operand, arg0 },
                ),
                Syscall::YIELD => (Stage::Yielding, Action::SetYieldedState),
                Syscall::SUBSCRIBE { driver_number, .. }
                | Syscall::COMMAND { driver_number, .. }
                | Syscall::ALLOW { driver_number, .. } => (
                    Stage::FindingDriver(call),
                    Action::FindDriver { driver_number },
                ),
            },
        }
    }

    /// The driver that `syscall` names exists.
    fn handle_driver<F, I>(appid: AppId, syscall: Syscall) -> (r: (Stage, Action<F, I>))
        ensures
            r == with_driver::<F, I>(appid, syscall),
    {
        match syscall {
            Syscall::SUBSCRIBE { driver_number, subdriver_number, callback_ptr, appdata } => {
                let callback = Callback::at(appid, appdata, callback_ptr);
                let call = DriverCall::Subscribe { subdriver_number, callback, appid };
                (Stage::AwaitingCode, Action::CallDriver { driver_number, call })
            },
            Syscall::COMMAND { driver_number, subdriver_number, arg0, arg1 } => {
                let call = DriverCall::Command { subdriver_number, arg0, arg1, appid };
                (Stage::AwaitingCode, Action::CallDriver { driver_number, call })
            },
            Syscall::ALLOW { driver_number, subdriver_number, allow_address, allow_size } => {
                let address = allow_address;
                let size = allow_size;
                if address != NULL {
                    (
                        Stage::CheckingMemory { driver_number, subdriver_number, address, size },
                        Action::InAppOwnedMemory { address, size },
                    )
                } else {
                    let call = DriverCall::Allow { appid, subdriver_number, slice: None };
                    (Stage::AwaitingCode, Action::CallDriver { driver_number, call })
                }
            },
            _ => (Stage::CheckingInterrupts, Action::HasPendingInterrupts),
        }
    }

    /// The queue of the waiting process gave `task`.
    fn handle_task<F, I>(appid: AppId, ipc: bool, task: Option<Task<F, I>>) -> (r: (
        Stage,
        Action<F, I>,
    ))
        ensures
            r == after_dequeue(appid, ipc, task),
    {
        match task {
            None => (Stage::Finishing, Action::SystickReset),
            Some(Task::FunctionCall(call)) => (Stage::HandingTask, Action::PushFunctionCall(call)),
            Some(Task::IPC((otherapp, ipc_type))) => if ipc {
                (Stage::HandingTask, Action::ScheduleIpcCallback { appid, otherapp, ipc_type })
            } else {
                (Stage::Panicked, Action::Panic(RunPanic::IpcTaskWithoutIpc))
            },
        }
    }
}

} // verus!
