use kernel::process::{AppId, AppSlice, Callback, State, Task};
use kernel::returncode::ReturnCode;
use kernel::run::{Action, DriverCall, ProcessRun, Reply, RunPanic};
use kernel::syscall::{ContextSwitchReason, Syscall};

type Act = Action<u8, char>;
type Rep = Reply<u8, char>;

const APP: AppId = AppId { idx: 3 };
const OTHER: AppId = AppId { idx: 1 };

/// Feeds the replies to a slice and gives its actions.
fn feed(ipc: bool, replies: Vec<Rep>) -> (ProcessRun, Vec<Act>) {
    let (mut run, action) = ProcessRun::start(APP, ipc);
    let mut actions = vec![action];
    for reply in replies {
        assert!(run.accepts(&reply));
        actions.push(run.step(reply));
    }
    (run, actions)
}

/// The replies up to the state of the process.
fn opening() -> Vec<Rep> {
    let mut replies = vec![Reply::Done, Reply::Done, Reply::Done];
    replies.extend(checks());
    replies
}

/// The replies with which the checks of a round let it go on.
fn checks() -> Vec<Rep> {
    vec![Reply::Answer(false), Reply::Answer(false), Reply::Answer(true)]
}

/// The replies up to the end of a switch that ended for `reason`.
fn switch(reason: Option<ContextSwitchReason>) -> Vec<Rep> {
    let mut replies = opening();
    replies.push(Reply::State(State::Running));
    replies.extend(vec![Reply::Done, Reply::Done, Reply::Done]);
    replies.push(Reply::Switched(reason));
    replies.extend(vec![Reply::Done, Reply::Done]);
    replies
}

/// The actions that serve `syscall`, given the replies to them.
fn serve(syscall: Option<Syscall>, replies: Vec<Rep>) -> Vec<Act> {
    let mut all = switch(Some(ContextSwitchReason::SyscallFired));
    all.push(Reply::Syscall(syscall));
    let from = all.len();
    all.extend(replies);
    let (_, mut actions) = feed(true, all);
    assert_eq!(actions[from - 1], Action::GetSyscall);
    actions.split_off(from)
}

fn hand(ipc: bool, task: Option<Task<u8, char>>) -> (ProcessRun, Vec<Act>) {
    let mut replies = opening();
    replies.push(Reply::State(State::Yielded));
    replies.push(Reply::Task(task));
    feed(ipc, replies)
}

const SUBSCRIBE: Syscall =
    Syscall::SUBSCRIBE { driver_number: 4, subdriver_number: 2, callback_ptr: 0x8000, appdata: 9 };
const COMMAND: Syscall =
    Syscall::COMMAND { driver_number: 5, subdriver_number: 1, arg0: 10, arg1: 11 };
const ALLOW: Syscall =
    Syscall::ALLOW { driver_number: 6, subdriver_number: 0, allow_address: 0x2000, allow_size: 64 };

#[test]
fn slice_brackets_the_switch() {
    let (_, actions) = feed(true, switch(Some(ContextSwitchReason::TimesliceExpired)));
    assert_eq!(
        actions,
        vec![
            Action::SystickReset,
            Action::SystickSetTimer(10000),
            Action::SystickEnable(true),
            Action::HasPendingInterrupts,
            Action::SystickOverflowed,
            Action::SystickGreaterThan(500),
            Action::GetState,
            Action::SetupMpu,
            Action::EnableMpu,
            Action::SystickEnable(true),
            Action::SwitchTo,
            Action::SystickEnable(false),
            Action::DisableMpu,
            Action::SystickReset,
        ]
    );
}

#[test]
fn expired_slice_returns() {
    let mut replies = switch(Some(ContextSwitchReason::TimesliceExpired));
    replies.push(Reply::Done);
    let (run, actions) = feed(true, replies);
    assert_eq!(actions.last(), Some(&Action::Return));
    assert!(!run.accepts::<u8, char>(&Reply::Done));
}

#[test]
fn pending_interrupt_ends_the_slice() {
    let replies = vec![Reply::Done, Reply::Done, Reply::Done, Reply::Answer(true), Reply::Done];
    let (_, actions) = feed(true, replies);
    assert_eq!(actions[3..], [Action::HasPendingInterrupts, Action::SystickReset, Action::Return]);
}

#[test]
fn overflow_ends_the_slice() {
    let mut replies = vec![Reply::Done, Reply::Done, Reply::Done, Reply::Answer(false)];
    replies.extend(vec![Reply::Answer(true), Reply::Done]);
    let (_, actions) = feed(true, replies);
    assert_eq!(actions[4..], [Action::SystickOverflowed, Action::SystickReset, Action::Return]);
}

#[test]
fn short_quanta_end_the_slice() {
    let mut replies = vec![Reply::Done, Reply::Done, Reply::Done, Reply::Answer(false)];
    replies.extend(vec![Reply::Answer(false), Reply::Answer(false), Reply::Done]);
    let (_, actions) = feed(true, replies);
    assert_eq!(
        actions[5..],
        [Action::SystickGreaterThan(500), Action::SystickReset, Action::Return]
    );
}

#[test]
fn crash_faults_the_process() {
    for reason in [Some(ContextSwitchReason::Fault), None] {
        let mut replies = switch(reason);
        replies.push(Reply::Done);
        let (_, actions) = feed(true, replies);
        assert_eq!(
            actions[12..],
            [Action::DisableMpu, Action::SetFaultState, Action::HasPendingInterrupts]
        );
    }
}

#[test]
fn faulty_process_stops_the_kernel() {
    let mut replies = opening();
    replies.push(Reply::State(State::Fault));
    let (run, actions) = feed(true, replies);
    assert_eq!(actions.last(), Some(&Action::Panic(RunPanic::FaultyProcess)));
    assert!(!run.accepts::<u8, char>(&Reply::Done));
}

#[test]
fn memop_is_answered() {
    let memop = Syscall::MEMOP { operand: 1, arg0: 2 };
    let actions = serve(Some(memop), vec![Reply::Code(ReturnCode::Other(-9)), Reply::Done]);
    assert_eq!(
        actions,
        vec![
            Action::Memop { operand: 1, arg0: 2 },
            Action::SetSyscallReturnValue(ReturnCode::Other(-9)),
            Action::HasPendingInterrupts,
        ]
    );
}

#[test]
fn yield_is_not_answered() {
    let actions = serve(Some(Syscall::YIELD), vec![Reply::Done, Reply::Done]);
    assert_eq!(
        actions,
        vec![
            Action::SetYieldedState,
            Action::PopSyscallStackFrame,
            Action::HasPendingInterrupts,
        ]
    );
}

#[test]
fn unknown_syscall_is_not_answered() {
    assert_eq!(serve(None, vec![]), vec![Action::HasPendingInterrupts]);
}

#[test]
fn subscribe_reaches_the_driver() {
    let replies = vec![Reply::Answer(true), Reply::Code(ReturnCode::Other(0)), Reply::Done];
    let actions = serve(Some(SUBSCRIBE), replies);
    let callback = Some(Callback { appid: APP, appdata: 9, fn_ptr: 0x8000 });
    let call = DriverCall::Subscribe { subdriver_number: 2, callback, appid: APP };
    assert_eq!(
        actions,
        vec![
            Action::FindDriver { driver_number: 4 },
            Action::CallDriver { driver_number: 4, call },
            Action::SetSyscallReturnValue(ReturnCode::Other(0)),
            Action::HasPendingInterrupts,
        ]
    );
}

#[test]
fn subscribe_to_null_has_no_callback() {
    let syscall = Syscall::SUBSCRIBE {
        driver_number: 4,
        subdriver_number: 2,
        callback_ptr: 0,
        appdata: 9,
    };
    let actions = serve(Some(syscall), vec![Reply::Answer(true)]);
    let call = DriverCall::Subscribe { subdriver_number: 2, callback: None, appid: APP };
    assert_eq!(actions[1], Action::CallDriver { driver_number: 4, call });
}

#[test]
fn command_reaches_the_driver() {
    let replies = vec![Reply::Answer(true), Reply::Code(ReturnCode::FAIL), Reply::Done];
    let actions = serve(Some(COMMAND), replies);
    let call = DriverCall::Command { subdriver_number: 1, arg0: 10, arg1: 11, appid: APP };
    assert_eq!(
        actions,
        vec![
            Action::FindDriver { driver_number: 5 },
            Action::CallDriver { driver_number: 5, call },
            Action::SetSyscallReturnValue(ReturnCode::FAIL),
            Action::HasPendingInterrupts,
        ]
    );
}

#[test]
fn missing_driver_is_no_device() {
    for (syscall, driver_number) in [(SUBSCRIBE, 4), (COMMAND, 5), (ALLOW, 6)] {
        let actions = serve(Some(syscall), vec![Reply::Answer(false), Reply::Done]);
        assert_eq!(
            actions,
            vec![
                Action::FindDriver { driver_number },
                Action::SetSyscallReturnValue(ReturnCode::ENODEVICE),
                Action::HasPendingInterrupts,
            ]
        );
    }
}

#[test]
fn allow_lends_own_memory() {
    let mut replies = vec![Reply::Answer(true), Reply::Answer(true)];
    replies.extend(vec![Reply::Code(ReturnCode::Other(0)), Reply::Done]);
    let actions = serve(Some(ALLOW), replies);
    let slice = Some(AppSlice { address: 0x2000, size: 64, appid: APP });
    let call = DriverCall::Allow { appid: APP, subdriver_number: 0, slice };
    assert_eq!(
        actions,
        vec![
            Action::FindDriver { driver_number: 6 },
            Action::InAppOwnedMemory { address: 0x2000, size: 64 },
            Action::CallDriver { driver_number: 6, call },
            Action::SetSyscallReturnValue(ReturnCode::Other(0)),
            Action::HasPendingInterrupts,
        ]
    );
}

#[test]
fn allow_of_foreign_memory_is_invalid() {
    let replies = vec![Reply::Answer(true), Reply::Answer(false), Reply::Done];
    let actions = serve(Some(ALLOW), replies);
    assert_eq!(
        actions,
        vec![
            Action::FindDriver { driver_number: 6 },
            Action::InAppOwnedMemory { address: 0x2000, size: 64 },
            Action::SetSyscallReturnValue(ReturnCode::EINVAL),
            Action::HasPendingInterrupts,
        ]
    );
}

#[test]
fn allow_of_null_lends_nothing() {
    let syscall = Syscall::ALLOW {
        driver_number: 6,
        subdriver_number: 7,
        allow_address: 0,
        allow_size: 64,
    };
    let actions = serve(Some(syscall), vec![Reply::Answer(true)]);
    let call = DriverCall::Allow { appid: APP, subdriver_number: 7, slice: None };
    assert_eq!(
        actions,
        vec![
            Action::FindDriver { driver_number: 6 },
            Action::CallDriver { driver_number: 6, call },
        ]
    );
}

#[test]
fn waiting_without_tasks_ends_the_slice() {
    let (_, actions) = hand(true, None);
    assert_eq!(actions[7..], [Action::DequeueTask, Action::SystickReset]);
}

#[test]
fn function_call_is_pushed() {
    let (_, actions) = hand(false, Some(Task::FunctionCall(77)));
    assert_eq!(actions[7..], [Action::DequeueTask, Action::PushFunctionCall(77)]);
}

#[test]
fn message_is_scheduled() {
    let (mut run, actions) = hand(true, Some(Task::IPC((OTHER, 'c'))));
    assert_eq!(
        actions[8],
        Action::ScheduleIpcCallback { appid: APP, otherapp: OTHER, ipc_type: 'c' }
    );
    assert_eq!(run.step::<u8, char>(Reply::Done), Action::HasPendingInterrupts);
}

#[test]
fn message_without_ipc_stops_the_kernel() {
    let (run, actions) = hand(false, Some(Task::IPC((OTHER, 'c'))));
    assert_eq!(actions[8], Action::Panic(RunPanic::IpcTaskWithoutIpc));
    assert!(!run.accepts::<u8, char>(&Reply::Done));
}

#[test]
fn rounds_do_not_reload_the_timer() {
    let mut replies = switch(Some(ContextSwitchReason::SyscallFired));
    replies.push(Reply::Syscall(Some(Syscall::YIELD)));
    replies.extend(vec![Reply::Done, Reply::Done]);
    replies.extend(checks());
    replies.push(Reply::State(State::Yielded));
    replies.push(Reply::Task(None));
    replies.push(Reply::Done);
    let (_, actions) = feed(true, replies);
    let loads = actions.iter().filter(|a| matches!(a, Action::SystickSetTimer(_))).count();
    assert_eq!(loads, 1);
    assert_eq!(actions.last(), Some(&Action::Return));
}

#[test]
fn slice_takes_the_reply_it_asked_for() {
    let (run, _) = feed(true, vec![Reply::Done, Reply::Done, Reply::Done]);
    assert!(run.accepts::<u8, char>(&Reply::Answer(false)));
    assert!(!run.accepts::<u8, char>(&Reply::Done));
    assert!(!run.accepts::<u8, char>(&Reply::State(State::Running)));
}
