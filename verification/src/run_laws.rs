//! What holds of every time slice, whatever the hardware, the process and the
//! drivers reply.

use vstd::prelude::*;

use crate::process::{AppId, AppSlice, Callback, State, Task, NULL};
use crate::returncode::ReturnCode;
use crate::run::{
    accepts, first, transition, Action, DriverCall, Reply, RunPanic, Stage,
    KERNEL_TICK_DURATION_US, MIN_QUANTA_THRESHOLD_US,
};
use crate::syscall::{ContextSwitchReason, Syscall};

verus! {

/// The record of a slice so far: the actions in their order, the stage that went
/// with each, and the reply to each but the last.
pub struct Slice<F, I> {
    pub appid: AppId,
    pub ipc: bool,
    pub stages: Seq<Stage>,
    pub actions: Seq<Action<F, I>>,
    pub replies: Seq<Reply<F, I>>,
}

impl<F, I> Slice<F, I> {
    /// The record is one that `ProcessRun::start` and `ProcessRun::step` give.
    pub open spec fn valid(self) -> bool {
        &&& self.stages.len() == self.replies.len() + 1
        &&& self.actions.len() == self.replies.len() + 1
        &&& (self.stages[0], self.actions[0]) == first::<F, I>()
        &&& forall|i: int| 0 <= i < self.replies.len() ==> self.stepped(i)
    }

    /// The step after action `i` is one of `ProcessRun::step`.
    pub open spec fn stepped(self, i: int) -> bool {
        &&& accepts(self.stages[i], self.replies[i])
        &&& (self.stages[i + 1], self.actions[i + 1]) == transition(
            self.appid,
            self.ipc,
            self.stages[i],
            self.replies[i],
        )
    }

    /// The record when the slice has just begun.
    pub open spec fn begun(appid: AppId, ipc: bool) -> Slice<F, I> {
        let (stage, action) = first::<F, I>();
        Slice { appid, ipc, stages: seq![stage], actions: seq![action], replies: seq![] }
    }

    /// The record when `reply` has come to the last action.
    pub open spec fn extended(self, reply: Reply<F, I>) -> Slice<F, I> {
        let (stage, action) = transition(self.appid, self.ipc, self.stages.last(), reply);
        Slice {
            stages: self.stages.push(stage),
            actions: self.actions.push(action),
            replies: self.replies.push(reply),
            ..self
        }
    }

    /// Action `i`, where the record reaches that far, is `action`.
    pub open spec fn at(self, i: int, action: Action<F, I>) -> bool {
        i < self.actions.len() ==> self.actions[i] == action
    }

    /// Action `i` has been performed and gave `reply`.
    pub open spec fn gave(self, i: int, action: Action<F, I>, reply: Reply<F, I>) -> bool {
        &&& 0 <= i < self.replies.len()
        &&& self.actions[i] == action
        &&& self.replies[i] == reply
    }

    /// Whether memory protection is on when action `i` begins.
    pub open spec fn protected(self, i: int) -> bool
        decreases i,
    {
        if i <= 0 {
            false
        } else if self.actions[i - 1] is EnableMpu {
            true
        } else if self.actions[i - 1] is DisableMpu {
            false
        } else {
            self.protected(i - 1)
        }
    }

    /// Whether the system timer counts when action `i` begins.
    pub open spec fn timed(self, i: int) -> bool
        decreases i,
    {
        if i <= 0 {
            false
        } else if self.actions[i - 1] is SystickReset {
            false
        } else if self.actions[i - 1] is SystickEnable {
            self.actions[i - 1]->SystickEnable_0
        } else {
            self.timed(i - 1)
        }
    }

    /// Action `i` gives the process `code` as the result of its system call, and
    /// the next round follows.
    pub open spec fn answers(self, i: int, code: ReturnCode) -> bool {
        &&& self.at(i, Action::SetSyscallReturnValue(code))
        &&& self.at(i + 1, Action::HasPendingInterrupts)
    }

    /// The code that comes of action `i` goes to the process as it is.
    pub open spec fn passes_on(self, i: int) -> bool {
        i < self.replies.len() ==> self.replies[i] is Code && self.answers(
            i + 1,
            self.replies[i]->Code_0,
        )
    }

    /// Action `i` calls the driver, and its code goes to the process as it is.
    pub open spec fn calls(self, i: int, driver_number: usize, call: DriverCall) -> bool {
        &&& self.at(i, Action::CallDriver { driver_number, call })
        &&& self.passes_on(i)
    }

    /// Action `i` looks for the driver, and without it the process gets
    /// `ENODEVICE`.
    pub open spec fn finds(self, i: int, driver_number: usize) -> bool {
        &&& self.at(i, Action::FindDriver { driver_number })
        &&& self.answered(i, false) ==> self.answers(i + 1, ReturnCode::ENODEVICE)
    }

    /// Action `i` has been performed and the answer was `b`.
    pub open spec fn answered(self, i: int, b: bool) -> bool {
        i < self.replies.len() && self.replies[i] == Reply::<F, I>::Answer(b)
    }

    /// The actions from `i` on serve `syscall`.
    pub open spec fn serves(self, i: int, syscall: Option<Syscall>) -> bool {
        let appid = self.appid;
        match syscall {
            None => self.at(i, Action::HasPendingInterrupts),
            Some(Syscall::MEMOP { operand, arg0 }) => {
                &&& self.at(i, Action::Memop { operand, arg0 })
                &&& self.passes_on(i)
            },
            Some(Syscall::YIELD) => {
                &&& self.at(i, Action::SetYieldedState)
                &&& self.at(i + 1, Action::PopSyscallStackFrame)
                &&& self.at(i + 2, Action::HasPendingInterrupts)
            },
            Some(
                Syscall::SUBSCRIBE { driver_number, subdriver_number, callback_ptr, appdata },
            ) => {
                let callback = if callback_ptr == 0 {
                    None
                } else {
                    Some(Callback { appid, appdata, fn_ptr: callback_ptr })
                };
                &&& self.finds(i, driver_number)
                &&& self.answered(i, true) ==> self.calls(
                    i + 1,
                    driver_number,
                    DriverCall::Subscribe { subdriver_number, callback, appid },
                )
            },
            Some(Syscall::COMMAND { driver_number, subdriver_number, arg0, arg1 }) => {
                &&& self.finds(i, driver_number)
                &&& self.answered(i, true) ==> self.calls(
                    i + 1,
                    driver_number,
                    DriverCall::Command { subdriver_number, arg0, arg1, appid },
                )
            },
            Some(Syscall::ALLOW { driver_number, subdriver_number, allow_address, allow_size }) => {
                let address = allow_address;
                let size = allow_size;
                &&& self.finds(i, driver_number)
                &&& self.answered(i, true) && address == 0 ==> self.calls(
                    i + 1,
                    driver_number,
                    DriverCall::Allow { appid, subdriver_number, slice: None },
                )
                &&& self.answered(i, true) && address != 0 ==> {
                    &&& self.at(i + 1, Action::InAppOwnedMemory { address, size })
                    &&& self.answered(i + 1, false) ==> self.answers(i + 2, ReturnCode::EINVAL)
                    &&& self.answered(i + 1, true) ==> self.calls(
                        i + 2,
                        driver_number,
                        DriverCall::Allow {
                            appid,
                            subdriver_number,
                            slice: Some(AppSlice { address, size, appid }),
                        },
                    )
                }
            },
        }
    }

    /// The reply to action `i` tells that the slice has to end.
    pub open spec fn ended_by(self, i: int) -> bool {
        ||| self.gave(i, Action::HasPendingInterrupts, Reply::Answer(true))
        ||| self.gave(i, Action::SystickOverflowed, Reply::Answer(true))
        ||| self.gave(
            i,
            Action::SystickGreaterThan(MIN_QUANTA_THRESHOLD_US),
            Reply::Answer(false),
        )
        ||| self.gave(i, Action::DequeueTask, Reply::Task(None))
    }

    /// The reply to action `i` tells that the time of the process is over.
    pub open spec fn expired_by(self, i: int) -> bool {
        self.gave(
            i,
            Action::SwitchTo,
            Reply::Switched(Some(ContextSwitchReason::TimesliceExpired)),
        )
    }

    /// The reply to action `i` tells that the process crashed, or that the switch
    /// to it went wrong.
    pub open spec fn crashed_by(self, i: int) -> bool {
        ||| self.gave(i, Action::SwitchTo, Reply::Switched(Some(ContextSwitchReason::Fault)))
        ||| self.gave(i, Action::SwitchTo, Reply::Switched(None))
    }
}

/// The action that goes with a stage, as far as the stage tells.
spec fn goes_with<F, I>(stage: Stage, action: Action<F, I>) -> bool {
    match stage {
        Stage::ClearingTimer | Stage::Finishing => action is SystickReset,
        Stage::LoadingTimer => action == Action::<F, I>::SystickSetTimer(KERNEL_TICK_DURATION_US),
        Stage::StartingTimer | Stage::ResumingTimer => action == Action::<F, I>::SystickEnable(
            true,
        ),
        Stage::CheckingInterrupts => action is HasPendingInterrupts,
        Stage::CheckingOverflow => action is SystickOverflowed,
        Stage::CheckingQuanta => action == Action::<F, I>::SystickGreaterThan(
            MIN_QUANTA_THRESHOLD_US,
        ),
        Stage::ReadingState => action is GetState,
        Stage::SettingUpMpu => action is SetupMpu,
        Stage::EnablingMpu => action is EnableMpu,
        Stage::Switching => action is SwitchTo,
        Stage::HoldingTimer(_) => action == Action::<F, I>::SystickEnable(false),
        Stage::DisablingMpu(_) => action is DisableMpu,
        Stage::Faulting => action is SetFaultState,
        Stage::ReadingSyscall => action is GetSyscall,
        Stage::Yielding => action is SetYieldedState,
        Stage::PoppingFrame => action is PopSyscallStackFrame,
        Stage::FindingDriver(Syscall::SUBSCRIBE { driver_number, .. }) => action
            == Action::<F, I>::FindDriver { driver_number },
        Stage::FindingDriver(Syscall::COMMAND { driver_number, .. }) => action == Action::<
            F,
            I,
        >::FindDriver { driver_number },
        Stage::FindingDriver(Syscall::ALLOW { driver_number, .. }) => action == Action::<
            F,
            I,
        >::FindDriver { driver_number },
        Stage::FindingDriver(_) => false,
        Stage::CheckingMemory { address, size, .. } => {
            &&& address != NULL
            &&& action == Action::<F, I>::InAppOwnedMemory { address, size }
        },
        Stage::AwaitingCode => action is Memop || action is CallDriver,
        Stage::ReturningValue => action is SetSyscallReturnValue,
        Stage::Dequeuing => action is DequeueTask,
        Stage::HandingTask => action is PushFunctionCall || action is ScheduleIpcCallback,
        Stage::Finished => action is Return,
        Stage::Panicked => action is Panic,
    }
}

proof fn lemma_goes_with<F, I>(s: Slice<F, I>, i: int)
    requires
        s.valid(),
        0 <= i < s.actions.len(),
    ensures
        goes_with(s.stages[i], s.actions[i]),
    decreases i,
{
    if i > 0 {
        lemma_goes_with(s, i - 1);
        assert(s.stepped(i - 1));
    }
}

/// The step that led to action `i`, and the step before it, laid open.
proof fn lemma_look_back<F, I>(s: Slice<F, I>, i: int)
    requires
        s.valid(),
        0 <= i < s.actions.len(),
    ensures
        goes_with(s.stages[i], s.actions[i]),
        i > 0 ==> s.stepped(i - 1) && goes_with(s.stages[i - 1], s.actions[i - 1]),
        i > 1 ==> s.stepped(i - 2) && goes_with(s.stages[i - 2], s.actions[i - 2]),
        s.stages[i] is ClearingTimer <==> i == 0,
{
    lemma_goes_with(s, i);
    if i > 0 {
        lemma_goes_with(s, i - 1);
        assert(s.stepped(i - 1));
    }
    if i > 1 {
        lemma_goes_with(s, i - 2);
        assert(s.stepped(i - 2));
    }
}

/// The records of slices are those that begin with the first action and grow by
/// one step at a time, each on a reply that is accepted.
pub proof fn law_record<F, I>(appid: AppId, ipc: bool, s: Slice<F, I>, reply: Reply<F, I>)
    requires
        s.valid(),
        accepts(s.stages.last(), reply),
    ensures
        Slice::<F, I>::begun(appid, ipc).valid(),
        s.extended(reply).valid(),
{
    let next = s.extended(reply);
    assert forall|i: int| 0 <= i < next.replies.len() implies next.stepped(i) by {
        if i < s.replies.len() {
            assert(s.stepped(i));
        }
    }
}

/// Whether `reply` is of the kind that `action` asks for.
pub open spec fn asks_for<F, I>(action: Action<F, I>, reply: Reply<F, I>) -> bool {
    match action {
        Action::HasPendingInterrupts
        | Action::SystickOverflowed
        | Action::SystickGreaterThan(_)
        | Action::FindDriver { .. }
        | Action::InAppOwnedMemory { .. } => reply is Answer,
        Action::GetState => reply is State,
        Action::SwitchTo => reply is Switched,
        Action::GetSyscall => reply is Syscall,
        Action::Memop { .. } | Action::CallDriver { .. } => reply is Code,
        Action::DequeueTask => reply is Task,
        Action::Return | Action::Panic(_) => false,
        _ => reply is Done,
    }
}

/// The slice accepts a reply exactly when it is of the kind that the last action
/// asks for.
pub proof fn law_reply_kind<F, I>(s: Slice<F, I>, reply: Reply<F, I>)
    requires
        s.valid(),
    ensures
        accepts(s.stages.last(), reply) == asks_for(s.actions.last(), reply),
{
    lemma_goes_with(s, s.actions.len() - 1);
}

/// A process is switched to only right after the checks allowed it and it was
/// found running, with its regions loaded, protection on and the timer counting.
/// Right after it comes back the timer is held and protection goes off.
pub proof fn law_switch<F, I>(s: Slice<F, I>, i: int)
    requires
        s.valid(),
        0 <= i < s.actions.len(),
        s.actions[i] is SwitchTo,
    ensures
        s.gave(i - 7, Action::HasPendingInterrupts, Reply::Answer(false)),
        s.gave(i - 6, Action::SystickOverflowed, Reply::Answer(false)),
        s.gave(i - 5, Action::SystickGreaterThan(MIN_QUANTA_THRESHOLD_US), Reply::Answer(true)),
        s.gave(i - 4, Action::GetState, Reply::State(State::Running)),
        s.gave(i - 3, Action::SetupMpu, Reply::Done),
        s.gave(i - 2, Action::EnableMpu, Reply::Done),
        s.gave(i - 1, Action::SystickEnable(true), Reply::Done),
        s.at(i + 1, Action::SystickEnable(false)),
        s.at(i + 2, Action::DisableMpu),
{
    lemma_look_back(s, i);
    lemma_look_back(s, i - 1);
    lemma_look_back(s, i - 2);
    lemma_look_back(s, i - 3);
    lemma_look_back(s, i - 4);
    lemma_look_back(s, i - 5);
    lemma_look_back(s, i - 6);
    lemma_look_back(s, i - 7);
    if i < s.replies.len() {
        assert(s.stepped(i));
    }
    if i + 1 < s.replies.len() {
        assert(s.stepped(i + 1));
    }
}

/// Memory protection is on when the process is switched to, and off whenever the
/// kernel does anything but switch, start or hold the timer, or switch the
/// protection off.
pub proof fn law_protection<F, I>(s: Slice<F, I>, i: int)
    requires
        s.valid(),
        0 <= i < s.actions.len(),
    ensures
        s.actions[i] is SwitchTo ==> s.protected(i),
        s.protected(i) ==> s.actions[i] is SwitchTo || s.actions[i] is SystickEnable
            || s.actions[i] is DisableMpu,
{
    lemma_protected(s, i);
    lemma_goes_with(s, i);
}

proof fn lemma_protected<F, I>(s: Slice<F, I>, i: int)
    requires
        s.valid(),
        0 <= i < s.actions.len(),
    ensures
        s.protected(i) == (s.stages[i] is ResumingTimer || s.stages[i] is Switching
            || s.stages[i] is HoldingTimer || s.stages[i] is DisablingMpu),
    decreases i,
{
    if i > 0 {
        lemma_protected(s, i - 1);
        lemma_look_back(s, i);
    }
}

/// The timer counts when a process is switched to, and from the first switch on it
/// counts for the process alone: it stands still whatever else the kernel does
/// between holding it and starting it again.
pub proof fn law_timer<F, I>(s: Slice<F, I>, i: int, j: int)
    requires
        s.valid(),
        0 <= i < s.actions.len(),
        s.actions[i] is SwitchTo,
        i < j < s.actions.len(),
    ensures
        s.timed(i),
        s.timed(j) ==> s.actions[j] is SwitchTo || s.actions[j] == Action::<F, I>::SystickEnable(
            false,
        ),
{
    lemma_goes_with(s, j);
    lemma_goes_with(s, i);
    lemma_look_back(s, i);
    lemma_timed(s, i, j);
}

proof fn lemma_timed<F, I>(s: Slice<F, I>, i: int, j: int)
    requires
        s.valid(),
        0 <= i < j < s.actions.len(),
        s.actions[i] is SwitchTo,
    ensures
        s.timed(j) == (s.stages[j] is Switching || s.stages[j] is HoldingTimer),
        !(s.stages[j] is LoadingTimer || s.stages[j] is StartingTimer),
    decreases j,
{
    lemma_look_back(s, j);
    lemma_look_back(s, j - 1);
    if j - 1 > i {
        lemma_timed(s, i, j - 1);
    } else {
        lemma_look_back(s, i);
        assert(s.timed(i)) by {
            assert(s.actions[i - 1] == Action::<F, I>::SystickEnable(true));
        }
    }
}

/// The slice gets its time once, at its beginning: nothing that the process does
/// makes the slice longer.
pub proof fn law_one_quantum<F, I>(s: Slice<F, I>, i: int)
    requires
        s.valid(),
        0 <= i < s.actions.len(),
    ensures
        s.at(0, Action::SystickReset),
        s.at(1, Action::SystickSetTimer(KERNEL_TICK_DURATION_US)),
        s.at(2, Action::SystickEnable(true)),
        s.at(3, Action::HasPendingInterrupts),
        s.actions[i] is SystickSetTimer ==> i == 1,
        s.actions[i] is SystickReset && i > 0 ==> s.at(i + 1, Action::Return),
{
    lemma_look_back(s, i);
    if i > 0 {
        lemma_look_back(s, i - 1);
    }
    if 0 < s.replies.len() {
        assert(s.stepped(0));
    }
    if 1 < s.replies.len() {
        assert(s.stepped(1));
    }
    if 2 < s.replies.len() {
        assert(s.stepped(2));
    }
    if i < s.replies.len() {
        assert(s.stepped(i));
    }
}

/// The checks of a round are made one after the other as long as each lets the
/// round go on, and then the state of the process is read.
pub proof fn law_checks_lead_on<F, I>(s: Slice<F, I>, i: int)
    requires
        s.valid(),
        0 <= i < s.replies.len(),
    ensures
        s.gave(i, Action::HasPendingInterrupts, Reply::Answer(false)) ==> s.at(
            i + 1,
            Action::SystickOverflowed,
        ),
        s.gave(i, Action::SystickOverflowed, Reply::Answer(false)) ==> s.at(
            i + 1,
            Action::SystickGreaterThan(MIN_QUANTA_THRESHOLD_US),
        ),
        s.actions[i] is SystickGreaterThan && s.replies[i] == Reply::<F, I>::Answer(true) ==> s.at(
            i + 1,
            Action::GetState,
        ),
        s.ended_by(i) || (s.actions[i] is SystickGreaterThan && s.replies[i] == Reply::<
            F,
            I,
        >::Answer(false)) ==> s.at(i + 1, Action::SystickReset) && s.at(i + 2, Action::Return),
{
    lemma_goes_with(s, i);
    assert(s.stepped(i));
    if i + 1 < s.replies.len() {
        assert(s.stepped(i + 1));
    }
}

/// A process that is found running is run, whoever it belongs to and whether or
/// not there is an IPC service: its regions are loaded, protection goes on, the
/// timer starts, and the process is switched to.
pub proof fn law_running_is_run<F, I>(s: Slice<F, I>, i: int)
    requires
        s.valid(),
        s.gave(i, Action::GetState, Reply::State(State::Running)),
    ensures
        s.at(i + 1, Action::SetupMpu),
        s.at(i + 2, Action::EnableMpu),
        s.at(i + 3, Action::SystickEnable(true)),
        s.at(i + 4, Action::SwitchTo),
{
    lemma_goes_with(s, i);
    assert(s.stepped(i));
    if i + 1 < s.replies.len() {
        assert(s.stepped(i + 1));
    }
    if i + 2 < s.replies.len() {
        assert(s.stepped(i + 2));
    }
    if i + 3 < s.replies.len() {
        assert(s.stepped(i + 3));
    }
}

/// When the process is back, the timer is held, protection goes off, and what
/// comes next is by the reason alone: its system call is read, it is put in the
/// fault state, or the slice ends.
pub proof fn law_back_from_switch<F, I>(
    s: Slice<F, I>,
    i: int,
    reason: Option<ContextSwitchReason>,
)
    requires
        s.valid(),
        s.gave(i, Action::SwitchTo, Reply::Switched(reason)),
    ensures
        s.at(i + 1, Action::SystickEnable(false)),
        s.at(i + 2, Action::DisableMpu),
        reason == Some(ContextSwitchReason::SyscallFired) ==> s.at(i + 3, Action::GetSyscall),
        reason == Some(ContextSwitchReason::Fault) || reason is None ==> s.at(
            i + 3,
            Action::SetFaultState,
        ) && s.at(i + 4, Action::HasPendingInterrupts),
        reason == Some(ContextSwitchReason::TimesliceExpired) ==> s.at(i + 3, Action::SystickReset)
            && s.at(i + 4, Action::Return),
{
    lemma_goes_with(s, i);
    assert(s.stepped(i));
    if i + 1 < s.replies.len() {
        assert(s.stepped(i + 1));
    }
    if i + 2 < s.replies.len() {
        assert(s.stepped(i + 2));
    }
    if i + 3 < s.replies.len() {
        assert(s.stepped(i + 3));
    }
}

/// A process is put in the yielded state exactly when it has just asked for it,
/// and loses the frame of a system call exactly right after that.
pub proof fn law_yield<F, I>(s: Slice<F, I>, i: int)
    requires
        s.valid(),
        0 <= i < s.actions.len(),
    ensures
        s.actions[i] is SetYieldedState <==> s.gave(
            i - 1,
            Action::GetSyscall,
            Reply::Syscall(Some(Syscall::YIELD)),
        ),
        s.actions[i] is PopSyscallStackFrame <==> s.gave(
            i - 1,
            Action::SetYieldedState,
            Reply::Done,
        ),
        s.actions[i] is PopSyscallStackFrame ==> s.at(i + 1, Action::HasPendingInterrupts),
{
    lemma_look_back(s, i);
    if i < s.replies.len() {
        assert(s.stepped(i));
    }
}

/// A round begins exactly when the timer has been started for the slice, when the
/// process has been put in the fault state, has yielded, has got a result or a
/// task, or made a system call that the kernel does not know.
pub proof fn law_round_begins<F, I>(s: Slice<F, I>, i: int)
    requires
        s.valid(),
        0 <= i < s.actions.len(),
    ensures
        s.actions[i] is HasPendingInterrupts <==> i == 3 || (i > 3 && match s.actions[i - 1] {
            Action::SetFaultState
            | Action::PopSyscallStackFrame
            | Action::SetSyscallReturnValue(_)
            | Action::PushFunctionCall(_)
            | Action::ScheduleIpcCallback { .. } => true,
            Action::GetSyscall => s.replies[i - 1] == Reply::<F, I>::Syscall(None),
            _ => false,
        }),
{
    lemma_look_back(s, i);
    if i > 0 {
        lemma_look_back(s, i - 1);
    }
    if i > 1 {
        lemma_look_back(s, i - 2);
    }
    if i > 2 {
        lemma_look_back(s, i - 3);
    }
    law_one_quantum(s, i);
}

/// At most how many actions lie between a stage and the next round, or the end.
spec fn distance(stage: Stage) -> int {
    match stage {
        Stage::CheckingInterrupts | Stage::Finished | Stage::Panicked => 0,
        Stage::StartingTimer
        | Stage::Faulting
        | Stage::PoppingFrame
        | Stage::ReturningValue
        | Stage::HandingTask
        | Stage::Finishing => 1,
        Stage::LoadingTimer
        | Stage::Yielding
        | Stage::AwaitingCode
        | Stage::Dequeuing => 2,
        Stage::ClearingTimer | Stage::CheckingMemory { .. } => 3,
        Stage::FindingDriver(_) => 4,
        Stage::ReadingSyscall => 5,
        Stage::DisablingMpu(_) => 6,
        Stage::HoldingTimer(_) => 7,
        Stage::Switching => 8,
        Stage::ResumingTimer => 9,
        Stage::EnablingMpu => 10,
        Stage::SettingUpMpu => 11,
        Stage::ReadingState => 12,
        Stage::CheckingQuanta => 13,
        Stage::CheckingOverflow => 14,
    }
}

proof fn lemma_next_round<F, I>(s: Slice<F, I>, i: int) -> (j: int)
    requires
        s.valid(),
        0 <= i,
        i + distance(s.stages[i]) < s.actions.len(),
    ensures
        i <= j <= i + distance(s.stages[i]),
        s.actions[j] is HasPendingInterrupts || s.actions[j] is Return || s.actions[j] is Panic,
    decreases distance(s.stages[i]),
{
    lemma_goes_with(s, i);
    if distance(s.stages[i]) == 0 {
        i
    } else {
        assert(s.stepped(i));
        lemma_next_round(s, i + 1)
    }
}

/// The slice always gets on: after any action, at most fifteen actions later, the
/// next round has begun, or the slice or the kernel has come to its end.
pub proof fn law_rounds_go_on<F, I>(s: Slice<F, I>, i: int) -> (j: int)
    requires
        s.valid(),
        0 <= i,
        i + 15 < s.actions.len(),
    ensures
        i < j <= i + 15,
        s.actions[j] is HasPendingInterrupts || s.actions[j] is Return || s.actions[j] is Panic,
{
    assert(s.stepped(i));
    lemma_next_round(s, i + 1)
}

/// A subscription gives the driver no callback exactly when the address of the
/// function is null. Otherwise the callback is of the application that runs, with
/// the data and the address that the process gave, whatever they are.
pub proof fn law_subscribe<F, I>(
    s: Slice<F, I>,
    i: int,
    driver_number: usize,
    subdriver_number: usize,
    callback_ptr: usize,
    appdata: usize,
)
    requires
        s.valid(),
        s.gave(
            i,
            Action::GetSyscall,
            Reply::Syscall(
                Some(
                    Syscall::SUBSCRIBE { driver_number, subdriver_number, callback_ptr, appdata },
                ),
            ),
        ),
        s.answered(i + 1, true),
    ensures
        s.actions[i + 2] matches Action::CallDriver {
            driver_number: called,
            call: DriverCall::Subscribe { subdriver_number: minor, callback, appid },
        } && {
            &&& called == driver_number
            &&& minor == subdriver_number
            &&& appid == s.appid
            &&& callback is None <==> callback_ptr == 0
            &&& callback is Some ==> callback->0.appid == s.appid
            &&& callback is Some ==> callback->0.appdata == appdata
            &&& callback is Some ==> callback->0.fn_ptr == callback_ptr
        },
{
    lemma_goes_with(s, i);
    assert(s.stepped(i));
    assert(s.stepped(i + 1));
}

/// Every system call is served as `Slice::serves` says: the process gets exactly
/// one result before the next round, except that it gets none for a yield and for
/// a call that the kernel does not know.
pub proof fn law_syscall<F, I>(s: Slice<F, I>, i: int, syscall: Option<Syscall>)
    requires
        s.valid(),
        s.gave(i, Action::GetSyscall, Reply::Syscall(syscall)),
    ensures
        s.serves(i + 1, syscall),
{
    lemma_goes_with(s, i);
    assert(s.stepped(i));
    if i + 1 < s.replies.len() {
        assert(s.stepped(i + 1));
    }
    if i + 2 < s.replies.len() {
        assert(s.stepped(i + 2));
    }
    if i + 3 < s.replies.len() {
        assert(s.stepped(i + 3));
    }
    if i + 4 < s.replies.len() {
        assert(s.stepped(i + 4));
    }
}

/// The process is asked for its system call exactly when it came back for one.
pub proof fn law_syscall_read<F, I>(s: Slice<F, I>, i: int)
    requires
        s.valid(),
        0 <= i < s.actions.len(),
    ensures
        s.actions[i] is GetSyscall <==> s.gave(
            i - 3,
            Action::SwitchTo,
            Reply::Switched(Some(ContextSwitchReason::SyscallFired)),
        ),
{
    lemma_three_back(s, i);
}

/// A process gets a result only for a system call: the code that a driver or a
/// memory operation gave, `ENODEVICE` where the driver does not exist, or `EINVAL`
/// where the memory is not its own.
pub proof fn law_return_value<F, I>(s: Slice<F, I>, i: int, code: ReturnCode)
    requires
        s.valid(),
        0 <= i < s.actions.len(),
        s.actions[i] == Action::<F, I>::SetSyscallReturnValue(code),
    ensures
        i > 0,
        match s.actions[i - 1] {
            Action::Memop { .. } => s.replies[i - 1] == Reply::<F, I>::Code(code),
            Action::CallDriver { .. } => s.replies[i - 1] == Reply::<F, I>::Code(code),
            Action::FindDriver { .. } => s.answered(i - 1, false) && code == ReturnCode::ENODEVICE,
            Action::InAppOwnedMemory { .. } => s.answered(i - 1, false) && code
                == ReturnCode::EINVAL,
            _ => false,
        },
{
    lemma_look_back(s, i);
}

/// A driver is called only once it was found, and only for the application whose
/// process runs.
pub proof fn law_driver_exists<F, I>(
    s: Slice<F, I>,
    i: int,
    driver_number: usize,
    call: DriverCall,
)
    requires
        s.valid(),
        0 <= i < s.actions.len(),
        s.actions[i] == (Action::<F, I>::CallDriver { driver_number, call }),
    ensures
        s.gave(i - 1, Action::FindDriver { driver_number }, Reply::Answer(true)) || s.gave(
            i - 2,
            Action::FindDriver { driver_number },
            Reply::Answer(true),
        ),
        match call {
            DriverCall::Subscribe { callback, appid, .. } => appid == s.appid && (callback is Some
                ==> callback->0.appid == s.appid && callback->0.fn_ptr != NULL),
            DriverCall::Command { appid, .. } => appid == s.appid,
            DriverCall::Allow { appid, slice, .. } => appid == s.appid && (slice is Some
                ==> slice->0.appid == s.appid && slice->0.address != NULL),
        },
{
    lemma_look_back(s, i);
    lemma_look_back(s, i - 1);
}

/// Memory is lent to a driver only right after it was found to belong to the
/// process.
pub proof fn law_lent_memory<F, I>(
    s: Slice<F, I>,
    i: int,
    driver_number: usize,
    appid: AppId,
    subdriver_number: usize,
    slice: AppSlice,
)
    requires
        s.valid(),
        0 <= i < s.actions.len(),
        s.actions[i] == (Action::<F, I>::CallDriver {
            driver_number,
            call: DriverCall::Allow { appid, subdriver_number, slice: Some(slice) },
        }),
    ensures
        s.gave(
            i - 1,
            Action::InAppOwnedMemory { address: slice.address, size: slice.size },
            Reply::Answer(true),
        ),
{
    lemma_look_back(s, i);
}

/// A process is put in the fault state exactly when it crashed or could not be
/// switched to, as soon as the timer is held and protection is off.
pub proof fn law_fault<F, I>(s: Slice<F, I>, i: int)
    requires
        s.valid(),
        0 <= i < s.actions.len(),
    ensures
        s.actions[i] is SetFaultState <==> s.crashed_by(i - 3),
{
    lemma_three_back(s, i);
}

/// A slice ends exactly when an interrupt is pending, the timer ran out or has too
/// little left, the process waits with nothing queued, or its time is over. The
/// timer is cleared first.
pub proof fn law_end<F, I>(s: Slice<F, I>, i: int)
    requires
        s.valid(),
        0 <= i < s.actions.len(),
    ensures
        s.actions[i] is Return <==> s.ended_by(i - 2) || s.expired_by(i - 4),
        s.actions[i] is Return ==> s.gave(i - 1, Action::SystickReset, Reply::Done) && i
            == s.replies.len(),
{
    lemma_look_back(s, i);
    if i > 0 {
        lemma_look_back(s, i - 1);
        lemma_three_back(s, i - 1);
    }
    if i < s.replies.len() {
        assert(s.stepped(i));
    }
}

/// The kernel stops exactly when a process in the fault state was scheduled, or a
/// message is queued and there is no IPC service.
pub proof fn law_panic<F, I>(s: Slice<F, I>, i: int)
    requires
        s.valid(),
        0 <= i < s.actions.len(),
    ensures
        s.actions[i] == Action::<F, I>::Panic(RunPanic::FaultyProcess) <==> s.gave(
            i - 1,
            Action::GetState,
            Reply::State(State::Fault),
        ),
        s.actions[i] == Action::<F, I>::Panic(RunPanic::IpcTaskWithoutIpc) <==> !s.ipc
            && exists|message: (AppId, I)|
            s.gave(i - 1, Action::DequeueTask, Reply::Task(Some(Task::IPC(message)))),
        s.actions[i] is Panic ==> i == s.replies.len(),
{
    lemma_look_back(s, i);
    if i < s.replies.len() {
        assert(s.stepped(i));
    }
    if i > 0 && s.actions[i] == Action::<F, I>::Panic(RunPanic::IpcTaskWithoutIpc) {
        let message = s.replies[i - 1]->Task_0->0->IPC_0;
        assert(s.gave(i - 1, Action::DequeueTask, Reply::Task(Some(Task::IPC(message)))));
    }
}

/// Only a process that waits is asked for a task, and each task that it has is
/// handed to it at once, as it is.
pub proof fn law_task<F, I>(s: Slice<F, I>, i: int)
    requires
        s.valid(),
        0 <= i < s.actions.len(),
    ensures
        s.actions[i] is DequeueTask <==> s.gave(
            i - 1,
            Action::GetState,
            Reply::State(State::Yielded),
        ),
        forall|call: F|
            s.actions[i] == Action::<F, I>::PushFunctionCall(call) <==> #[trigger] s.gave(
                i - 1,
                Action::DequeueTask,
                Reply::Task(Some(Task::FunctionCall(call))),
            ),
        forall|otherapp: AppId, ipc_type: I|
            s.actions[i] == (Action::<F, I>::ScheduleIpcCallback {
                appid: s.appid,
                otherapp,
                ipc_type,
            }) <==> s.ipc && #[trigger] s.gave(
                i - 1,
                Action::DequeueTask,
                Reply::Task(Some(Task::IPC((otherapp, ipc_type)))),
            ),
        s.actions[i] is ScheduleIpcCallback ==> s.actions[i]->appid == s.appid,
        s.actions[i] is PushFunctionCall || s.actions[i] is ScheduleIpcCallback ==> s.at(
            i + 1,
            Action::HasPendingInterrupts,
        ),
{
    lemma_look_back(s, i);
    if i < s.replies.len() {
        assert(s.stepped(i));
    }
}

/// What follows three actions after a switch, and only there.
proof fn lemma_three_back<F, I>(s: Slice<F, I>, i: int)
    requires
        s.valid(),
        0 <= i < s.actions.len(),
    ensures
        s.actions[i] is GetSyscall <==> s.gave(
            i - 3,
            Action::SwitchTo,
            Reply::Switched(Some(ContextSwitchReason::SyscallFired)),
        ),
        s.actions[i] is SetFaultState <==> s.crashed_by(i - 3),
        s.stages[i] is Finishing <==> s.ended_by(i - 1) || s.expired_by(i - 3),
{
    lemma_look_back(s, i);
    if i > 0 {
        lemma_look_back(s, i - 1);
    }
    if i > 1 {
        lemma_look_back(s, i - 2);
    }
    if i > 2 {
        lemma_look_back(s, i - 3);
    }
}

} // verus!
