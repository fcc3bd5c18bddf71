//! What holds of the main loop, whatever the interrupt controller replies, and
//! what the test shows on a controller whose handler disables what it takes.

use vstd::prelude::*;

use crate::main_loop::{
    accepts, first, transition, LoopAction, LoopReply, LoopStage, LoopState, TEST_IRQ,
};

verus! {

/// The record of the loop so far: the actions in their order, the state that went
/// with each, and the reply to each but the last.
pub struct LoopRecord {
    pub states: Seq<LoopState>,
    pub actions: Seq<LoopAction>,
    pub replies: Seq<LoopReply>,
}

impl LoopRecord {
    /// The record is one that `MainLoop::start` and `MainLoop::step` give.
    pub open spec fn valid(self) -> bool {
        &&& self.states.len() == self.replies.len() + 1
        &&& self.actions.len() == self.replies.len() + 1
        &&& (self.states[0], self.actions[0]) == first()
        &&& forall|i: int| 0 <= i < self.replies.len() ==> self.stepped(i)
    }

    /// The step after action `i` is one of `MainLoop::step`.
    pub open spec fn stepped(self, i: int) -> bool {
        &&& accepts(self.states[i].stage, self.replies[i])
        &&& (self.states[i + 1], self.actions[i + 1]) == transition(
            self.states[i],
            self.replies[i],
        )
    }

    /// The record when the loop has just begun.
    pub open spec fn begun() -> LoopRecord {
        LoopRecord { states: seq![first().0], actions: seq![first().1], replies: seq![] }
    }

    /// The record when `reply` has come to the last action.
    pub open spec fn extended(self, reply: LoopReply) -> LoopRecord {
        let (state, action) = transition(self.states.last(), reply);
        LoopRecord {
            states: self.states.push(state),
            actions: self.actions.push(action),
            replies: self.replies.push(reply),
        }
    }

    /// Action `i`, where the record reaches that far, is `action`.
    pub open spec fn at(self, i: int, action: LoopAction) -> bool {
        i < self.actions.len() ==> self.actions[i] == action
    }

    /// Action `i` has been performed and gave `reply`.
    pub open spec fn gave(self, i: int, action: LoopAction, reply: LoopReply) -> bool {
        &&& 0 <= i < self.replies.len()
        &&& self.actions[i] == action
        &&& self.replies[i] == reply
    }

    /// How many of the first `n` actions make an interrupt pending.
    pub open spec fn pends(self, n: int) -> nat
        decreases n,
    {
        if n <= 0 {
            0
        } else {
            self.pends(n - 1) + if self.actions[n - 1] is SetPending {
                1nat
            } else {
                0nat
            }
        }
    }

    /// Whether interrupts are held back when action `i` begins.
    pub open spec fn atomic(self, i: int) -> bool
        decreases i,
    {
        if i <= 0 {
            false
        } else if self.actions[i - 1] is EnterAtomic {
            true
        } else if self.actions[i - 1] is LeaveAtomic {
            false
        } else {
            self.atomic(i - 1)
        }
    }

    /// What the first `n` actions show a debugger of the two flags.
    pub open spec fn shown(self, n: int) -> (bool, bool)
        decreases n,
    {
        if n <= 0 {
            (false, false)
        } else {
            match self.actions[n - 1] {
                LoopAction::WritePendOnce(once) => (once, self.shown(n - 1).1),
                LoopAction::WritePendTwice(twice) => (self.shown(n - 1).0, twice),
                _ => self.shown(n - 1),
            }
        }
    }
}

/// The action that goes with a state.
spec fn goes_with(state: LoopState, action: LoopAction) -> bool {
    match state.stage {
        LoopStage::ShowingNotOnce => action == LoopAction::WritePendOnce(false),
        LoopStage::ShowingNotTwice => action == LoopAction::WritePendTwice(false),
        LoopStage::Polling => action == LoopAction::NextPending,
        LoopStage::Handling(_) | LoopStage::PausingBefore | LoopStage::PausingAfter => action
            == LoopAction::Nop,
        LoopStage::Clearing(interrupt) => action == LoopAction::ClearPending(interrupt),
        LoopStage::Enabling(interrupt) => action == LoopAction::Enable(interrupt),
        LoopStage::EnteringAtomic => action == LoopAction::EnterAtomic,
        LoopStage::PendingOnce | LoopStage::PendingTwice => action == LoopAction::SetPending(
            TEST_IRQ,
        ),
        LoopStage::ShowingOnce => action == LoopAction::WritePendOnce(true),
        LoopStage::ReadingPending | LoopStage::Observing => action == LoopAction::GetPending(
            TEST_IRQ,
        ),
        LoopStage::ShowingTwice => action == LoopAction::WritePendTwice(true),
        LoopStage::LeavingAtomic => action == LoopAction::LeaveAtomic,
        LoopStage::Panicked => action is Panic,
    }
}

proof fn lemma_goes_with(r: LoopRecord, i: int)
    requires
        r.valid(),
        0 <= i < r.actions.len(),
    ensures
        goes_with(r.states[i], r.actions[i]),
        r.states[i].wf(),
    decreases i,
{
    if i > 0 {
        lemma_goes_with(r, i - 1);
        assert(r.stepped(i - 1));
    }
}

/// The steps around action `i`, laid open.
proof fn lemma_around(r: LoopRecord, i: int)
    requires
        r.valid(),
        0 <= i < r.actions.len(),
    ensures
        goes_with(r.states[i], r.actions[i]),
        r.states[i].wf(),
        i < r.replies.len() ==> r.stepped(i) && goes_with(r.states[i + 1], r.actions[i + 1]),
        i > 0 ==> r.stepped(i - 1) && goes_with(r.states[i - 1], r.actions[i - 1])
            && r.states[i - 1].wf(),
{
    lemma_goes_with(r, i);
    if i > 0 {
        lemma_goes_with(r, i - 1);
        assert(r.stepped(i - 1));
    }
    if i < r.replies.len() {
        lemma_goes_with(r, i + 1);
        assert(r.stepped(i));
    }
}

/// The records of the loop are those that begin with the first action and grow by
/// one step at a time, each on a reply that is accepted.
pub proof fn law_loop_record(r: LoopRecord, reply: LoopReply)
    requires
        r.valid(),
        accepts(r.states.last().stage, reply),
    ensures
        LoopRecord::begun().valid(),
        r.extended(reply).valid(),
{
    let next = r.extended(reply);
    assert forall|i: int| 0 <= i < next.replies.len() implies next.stepped(i) by {
        if i < r.replies.len() {
            assert(r.stepped(i));
        }
    }
}

/// Whether `reply` is of the kind that `action` asks for.
pub open spec fn asks_for(action: LoopAction, reply: LoopReply) -> bool {
    match action {
        LoopAction::NextPending => reply is Interrupt,
        LoopAction::GetPending(_) => reply is Pending,
        LoopAction::Panic(_) => false,
        _ => reply is Done,
    }
}

/// The loop accepts a reply exactly when it is of the kind that the last action
/// asks for.
pub proof fn law_loop_reply_kind(r: LoopRecord, reply: LoopReply)
    requires
        r.valid(),
    ensures
        accepts(r.states.last().stage, reply) == asks_for(r.actions.last(), reply),
{
    lemma_goes_with(r, r.actions.len() - 1);
}

/// How many times the interrupt has been made pending, by a state.
spec fn pends_of(state: LoopState) -> nat {
    if state.pend_twice {
        2
    } else if state.pend_once {
        1
    } else {
        0
    }
}

proof fn lemma_pends(r: LoopRecord, i: int)
    requires
        r.valid(),
        0 <= i < r.actions.len(),
    ensures
        r.pends(i) == pends_of(r.states[i]) - if r.states[i].stage is ShowingOnce
            || r.states[i].stage is ShowingTwice {
            0nat
        } else {
            0nat
        },
    decreases i,
{
    lemma_around(r, i);
    if i > 0 {
        lemma_pends(r, i - 1);
    }
}

/// The loop makes the interrupt pending at most twice, and the flags of its state
/// count the times.
pub proof fn law_pends_at_most_twice(r: LoopRecord, i: int)
    requires
        r.valid(),
        0 <= i < r.actions.len(),
    ensures
        r.pends(i) <= 2,
        r.states[i].pend_once <==> r.pends(i) >= 1,
        r.states[i].pend_twice <==> r.pends(i) == 2,
        r.actions[i] is SetPending ==> r.pends(i) < 2,
{
    lemma_pends(r, i);
    lemma_around(r, i);
}

/// The interrupt is made pending the first time as soon as interrupts are held
/// back, and the second time only when it was just found not to be pending.
pub proof fn law_pend_when(r: LoopRecord, i: int)
    requires
        r.valid(),
        0 <= i < r.actions.len(),
    ensures
        r.actions[i] is SetPending && r.pends(i) == 0 <==> r.pends(i) == 0 && r.gave(
            i - 1,
            LoopAction::EnterAtomic,
            LoopReply::Done,
        ),
        r.actions[i] is SetPending && r.pends(i) == 1 <==> r.pends(i) == 1 && r.atomic(i)
            && r.gave(i - 1, LoopAction::GetPending(TEST_IRQ), LoopReply::Pending(false)),
{
    lemma_around(r, i);
    lemma_pends(r, i);
    lemma_atomic(r, i);
    if i > 0 {
        lemma_pends(r, i - 1);
    }
}

proof fn lemma_atomic(r: LoopRecord, i: int)
    requires
        r.valid(),
        0 <= i < r.actions.len(),
    ensures
        r.atomic(i) == match r.states[i].stage {
            LoopStage::PendingOnce
            | LoopStage::ShowingOnce
            | LoopStage::ReadingPending
            | LoopStage::PendingTwice
            | LoopStage::ShowingTwice
            | LoopStage::LeavingAtomic => true,
            _ => false,
        },
    decreases i,
{
    lemma_around(r, i);
    if i > 0 {
        lemma_atomic(r, i - 1);
    }
}

/// The interrupt is made pending only while interrupts are held back, and while
/// they are, the loop only pends, looks, shows its flags and lets them in again.
/// In particular it never stops the kernel there.
pub proof fn law_atomic(r: LoopRecord, i: int)
    requires
        r.valid(),
        0 <= i < r.actions.len(),
    ensures
        r.actions[i] is SetPending ==> r.atomic(i),
        r.atomic(i) ==> match r.actions[i] {
            LoopAction::SetPending(_)
            | LoopAction::GetPending(_)
            | LoopAction::WritePendOnce(true)
            | LoopAction::WritePendTwice(true)
            | LoopAction::LeaveAtomic => true,
            _ => false,
        },
        r.actions[i] is LeaveAtomic ==> r.atomic(i),
{
    lemma_around(r, i);
    lemma_atomic(r, i);
}

/// No interrupt but the one of the test is ever touched.
pub proof fn law_only_test_irq(r: LoopRecord, i: int)
    requires
        r.valid(),
        0 <= i < r.actions.len(),
    ensures
        match r.actions[i] {
            LoopAction::SetPending(interrupt) => interrupt == TEST_IRQ,
            LoopAction::GetPending(interrupt) => interrupt == TEST_IRQ,
            LoopAction::ClearPending(interrupt) => interrupt == TEST_IRQ,
            LoopAction::Enable(interrupt) => interrupt == TEST_IRQ,
            _ => true,
        },
{
    lemma_around(r, i);
}

/// A pending interrupt of the test is handled, made no longer pending, and enabled
/// again, in this order, and the loop looks for the next one.
pub proof fn law_service(r: LoopRecord, i: int)
    requires
        r.valid(),
        r.gave(i, LoopAction::NextPending, LoopReply::Interrupt(Some(TEST_IRQ))),
    ensures
        r.at(i + 1, LoopAction::Nop),
        r.at(i + 2, LoopAction::ClearPending(TEST_IRQ)),
        r.at(i + 3, LoopAction::Enable(TEST_IRQ)),
        r.at(i + 4, LoopAction::NextPending),
{
    lemma_around(r, i);
    if i + 1 < r.replies.len() {
        lemma_around(r, i + 1);
    }
    if i + 2 < r.replies.len() {
        lemma_around(r, i + 2);
    }
    if i + 3 < r.replies.len() {
        lemma_around(r, i + 3);
    }
}

/// An interrupt is made no longer pending, or enabled, only when it was found
/// pending.
pub proof fn law_service_only_pending(r: LoopRecord, i: int)
    requires
        r.valid(),
        0 <= i < r.actions.len(),
    ensures
        r.actions[i] is ClearPending ==> r.gave(
            i - 2,
            LoopAction::NextPending,
            LoopReply::Interrupt(Some(TEST_IRQ)),
        ),
        r.actions[i] is Enable ==> r.gave(
            i - 3,
            LoopAction::NextPending,
            LoopReply::Interrupt(Some(TEST_IRQ)),
        ),
{
    lemma_around(r, i);
    if i > 0 {
        lemma_around(r, i - 1);
    }
    if i > 1 {
        lemma_around(r, i - 2);
    }
    if i > 2 {
        lemma_around(r, i - 3);
    }
}

/// Interrupts are held back for the test exactly when none is left to serve.
pub proof fn law_serves_all_first(r: LoopRecord, i: int)
    requires
        r.valid(),
        0 <= i < r.actions.len(),
    ensures
        r.actions[i] is EnterAtomic <==> r.gave(
            i - 1,
            LoopAction::NextPending,
            LoopReply::Interrupt(None),
        ),
{
    lemma_around(r, i);
}

/// The kernel stops exactly when an interrupt is pending that is not the one of
/// the test. The loop ends in no other way.
pub proof fn law_unhandled(r: LoopRecord, i: int, interrupt: u32)
    requires
        r.valid(),
        0 <= i < r.actions.len(),
    ensures
        r.actions[i] == LoopAction::Panic(interrupt) <==> interrupt != TEST_IRQ && r.gave(
            i - 1,
            LoopAction::NextPending,
            LoopReply::Interrupt(Some(interrupt)),
        ),
        r.actions[i] is Panic <==> forall|reply: LoopReply| !accepts(r.states[i].stage, reply),
{
    lemma_around(r, i);
    if !(r.actions[i] is Panic) {
        assert(accepts(r.states[i].stage, LoopReply::Done) || accepts(
            r.states[i].stage,
            LoopReply::Interrupt(None),
        ) || accepts(r.states[i].stage, LoopReply::Pending(true)));
    }
}

/// Whenever the loop looks for a pending interrupt, a debugger sees in the two
/// flags how many times the loop has pended.
pub proof fn law_flags_shown(r: LoopRecord, i: int)
    requires
        r.valid(),
        0 <= i < r.actions.len(),
        r.actions[i] is NextPending,
    ensures
        r.shown(i) == (r.pends(i) >= 1, r.pends(i) == 2),
{
    lemma_shown(r, i);
    lemma_pends(r, i);
    lemma_around(r, i);
}

proof fn lemma_shown(r: LoopRecord, i: int)
    requires
        r.valid(),
        0 <= i < r.actions.len(),
    ensures
        r.shown(i).0 == (r.states[i].pend_once && !(r.states[i].stage is ShowingOnce)),
        r.shown(i).1 == (r.states[i].pend_twice && !(r.states[i].stage is ShowingTwice)),
    decreases i,
{
    lemma_around(r, i);
    if i > 0 {
        lemma_shown(r, i - 1);
    }
}

/// The loop begins by showing that nothing has been pended, and polls.
pub proof fn law_loop_begins(r: LoopRecord)
    requires
        r.valid(),
    ensures
        r.at(0, LoopAction::WritePendOnce(false)),
        r.at(1, LoopAction::WritePendTwice(false)),
        r.at(2, LoopAction::NextPending),
{
    lemma_around(r, 0);
    if 0 < r.replies.len() {
        lemma_around(r, 1);
    }
    if 1 < r.replies.len() {
        lemma_around(r, 2);
    }
}

/// When interrupts are held back for the first time, the interrupt is pended, that
/// is shown, and then the loop looks whether it is pending. Every other time the
/// loop only looks.
pub proof fn law_atomic_begins(r: LoopRecord, i: int)
    requires
        r.valid(),
        0 <= i < r.actions.len(),
        r.actions[i] is EnterAtomic,
    ensures
        r.pends(i) == 0 ==> {
            &&& r.at(i + 1, LoopAction::SetPending(TEST_IRQ))
            &&& r.at(i + 2, LoopAction::WritePendOnce(true))
            &&& r.at(i + 3, LoopAction::GetPending(TEST_IRQ))
        },
        r.pends(i) > 0 ==> r.at(i + 1, LoopAction::GetPending(TEST_IRQ)),
{
    lemma_pends(r, i);
    lemma_around(r, i);
    if i + 1 < r.replies.len() {
        lemma_around(r, i + 1);
    }
    if i + 2 < r.replies.len() {
        lemma_around(r, i + 2);
    }
}

/// When the loop has looked while interrupts are held back, it pends a second time
/// and shows that, if it has pended once and the interrupt is not pending. In any
/// case interrupts are let in then.
pub proof fn law_atomic_ends(r: LoopRecord, i: int, pending: bool)
    requires
        r.valid(),
        r.atomic(i),
        r.gave(i, LoopAction::GetPending(TEST_IRQ), LoopReply::Pending(pending)),
    ensures
        !pending && r.pends(i) == 1 ==> {
            &&& r.at(i + 1, LoopAction::SetPending(TEST_IRQ))
            &&& r.at(i + 2, LoopAction::WritePendTwice(true))
            &&& r.at(i + 3, LoopAction::LeaveAtomic)
        },
        pending || r.pends(i) != 1 ==> r.at(i + 1, LoopAction::LeaveAtomic),
{
    lemma_pends(r, i);
    lemma_atomic(r, i);
    lemma_around(r, i);
    if i + 1 < r.replies.len() {
        lemma_around(r, i + 1);
    }
    if i + 2 < r.replies.len() {
        lemma_around(r, i + 2);
    }
}

/// When interrupts have been let in, the loop looks once more, between two pauses,
/// and polls again, whatever it sees.
pub proof fn law_round_ends(r: LoopRecord, i: int)
    requires
        r.valid(),
        0 <= i < r.actions.len(),
        r.actions[i] is LeaveAtomic,
    ensures
        r.at(i + 1, LoopAction::Nop),
        r.at(i + 2, LoopAction::GetPending(TEST_IRQ)),
        r.at(i + 3, LoopAction::Nop),
        r.at(i + 4, LoopAction::NextPending),
{
    lemma_around(r, i);
    if i + 1 < r.replies.len() {
        lemma_around(r, i + 1);
    }
    if i + 2 < r.replies.len() {
        lemma_around(r, i + 2);
    }
    if i + 3 < r.replies.len() {
        lemma_around(r, i + 3);
    }
}

/// At most how many actions lie between a stage and the next poll, or the end.
spec fn distance(stage: LoopStage) -> int {
    match stage {
        LoopStage::Polling | LoopStage::Panicked => 0,
        LoopStage::ShowingNotTwice | LoopStage::Enabling(_) | LoopStage::PausingAfter => 1,
        LoopStage::ShowingNotOnce | LoopStage::Clearing(_) | LoopStage::Observing => 2,
        LoopStage::Handling(_) | LoopStage::PausingBefore => 3,
        LoopStage::LeavingAtomic => 4,
        LoopStage::ShowingTwice => 5,
        LoopStage::PendingTwice => 6,
        LoopStage::ReadingPending => 7,
        LoopStage::ShowingOnce => 8,
        LoopStage::PendingOnce => 9,
        LoopStage::EnteringAtomic => 10,
    }
}

proof fn lemma_next_poll(r: LoopRecord, i: int) -> (j: int)
    requires
        r.valid(),
        0 <= i,
        i + distance(r.states[i].stage) < r.actions.len(),
    ensures
        i <= j <= i + distance(r.states[i].stage),
        r.actions[j] is NextPending || r.actions[j] is Panic,
    decreases distance(r.states[i].stage),
{
    lemma_around(r, i);
    if distance(r.states[i].stage) == 0 {
        i
    } else {
        lemma_next_poll(r, i + 1)
    }
}

/// The loop never stops serving interrupts: after any action, at most eleven
/// actions later, it has polled again, unless the kernel has stopped.
pub proof fn law_polls_again(r: LoopRecord, i: int) -> (j: int)
    requires
        r.valid(),
        0 <= i,
        i + 11 < r.actions.len(),
    ensures
        i < j <= i + 11,
        r.actions[j] is NextPending || r.actions[j] is Panic,
{
    lemma_around(r, i);
    lemma_next_poll(r, i + 1)
}

/// The line of the interrupt of the test, in a controller where nothing but the
/// loop pends it. An enabled line that is pending is taken as soon as interrupts
/// are let in, and its handler disables it; taken, it is no longer pending.
pub struct Line {
    pub pending: bool,
    pub enabled: bool,
    /// Interrupts are held back.
    pub held: bool,
    /// How many times the handler was called.
    pub taken: nat,
}

impl Line {
    /// The line once the handler has been called, if it is to be called.
    pub open spec fn settle(self) -> Line {
        if self.pending && self.enabled && !self.held {
            Line { pending: false, enabled: false, taken: self.taken + 1, ..self }
        } else {
            self
        }
    }

    /// The line after an action of the loop.
    pub open spec fn after(self, action: LoopAction) -> Line {
        match action {
            LoopAction::SetPending(_) => (Line { pending: true, ..self }).settle(),
            LoopAction::ClearPending(_) => (Line { pending: false, ..self }).settle(),
            LoopAction::Enable(_) => (Line { enabled: true, ..self }).settle(),
            LoopAction::EnterAtomic => (Line { held: true, ..self }).settle(),
            LoopAction::LeaveAtomic => (Line { held: false, ..self }).settle(),
            _ => self,
        }
    }

    /// What the line replies to an action of the loop.
    pub open spec fn reply(self, action: LoopAction) -> LoopReply {
        match action {
            LoopAction::NextPending => LoopReply::Interrupt(
                if self.pending {
                    Some(TEST_IRQ)
                } else {
                    None
                },
            ),
            LoopAction::GetPending(_) => LoopReply::Pending(self.pending),
            _ => LoopReply::Done,
        }
    }
}

/// The loop on such a line: its state, its action and the line after `n` steps.
/// The line begins enabled and not pending.
pub open spec fn bench(n: nat) -> (LoopState, LoopAction, Line)
    decreases n,
{
    if n == 0 {
        (
            first().0,
            first().1,
            Line { pending: false, enabled: true, held: false, taken: 0 },
        )
    } else {
        let (state, action, line) = bench((n - 1) as nat);
        let (next_state, next_action) = transition(state, line.reply(action));
        (next_state, next_action, line.after(action))
    }
}

/// The step at which the first test is over: interrupts have been let in again.
pub open spec fn first_over() -> nat {
    8
}

/// The step at which the second test is over.
pub open spec fn second_over() -> nat {
    17
}

/// The step at which the pending interrupt of the second test has been served.
pub open spec fn all_served() -> nat {
    24
}

/// The stages of the test, up to the poll that follows its last service.
spec fn test_stages() -> Seq<LoopStage> {
    seq![
        LoopStage::ShowingNotOnce,
        LoopStage::ShowingNotTwice,
        LoopStage::Polling,
        LoopStage::EnteringAtomic,
        LoopStage::PendingOnce,
        LoopStage::ShowingOnce,
        LoopStage::ReadingPending,
        LoopStage::LeavingAtomic,
        LoopStage::PausingBefore,
        LoopStage::Observing,
        LoopStage::PausingAfter,
        LoopStage::Polling,
        LoopStage::EnteringAtomic,
        LoopStage::ReadingPending,
        LoopStage::PendingTwice,
        LoopStage::ShowingTwice,
        LoopStage::LeavingAtomic,
        LoopStage::PausingBefore,
        LoopStage::Observing,
        LoopStage::PausingAfter,
        LoopStage::Polling,
        LoopStage::Handling(TEST_IRQ),
        LoopStage::Clearing(TEST_IRQ),
        LoopStage::Enabling(TEST_IRQ),
        LoopStage::Polling,
    ]
}

proof fn lemma_bench_begins(n: nat)
    requires
        n <= all_served(),
    ensures
        bench(n).0 == (LoopState {
            pend_once: n >= 5,
            pend_twice: n >= 15,
            stage: test_stages()[n as int],
        }),
        goes_with(bench(n).0, bench(n).1),
        bench(n).2 == (Line {
            pending: 5 <= n < 8 || 15 <= n < 23,
            enabled: n < 8 || n == 24,
            held: 4 <= n < 8 || 13 <= n < 17,
            taken: if n < 8 {
                0
            } else {
                1
            },
        }),
    decreases n,
{
    if n > 0 {
        lemma_bench_begins((n - 1) as nat);
    }
}

proof fn lemma_bench_goes_on(n: nat)
    requires
        n >= all_served(),
    ensures
        bench(n).0.pend_once && bench(n).0.pend_twice,
        goes_with(bench(n).0, bench(n).1),
        match bench(n).0.stage {
            LoopStage::Polling
            | LoopStage::EnteringAtomic
            | LoopStage::PausingBefore
            | LoopStage::Observing
            | LoopStage::PausingAfter => !bench(n).2.held,
            LoopStage::ReadingPending | LoopStage::LeavingAtomic => bench(n).2.held,
            _ => false,
        },
        !bench(n).2.pending && bench(n).2.enabled && bench(n).2.taken == 1,
    decreases n,
{
    if n == all_served() {
        lemma_bench_begins(n);
    } else {
        lemma_bench_goes_on((n - 1) as nat);
    }
}

/// Pended for the first time, the interrupt is taken as soon as interrupts are let
/// in, for it is enabled. Pended for the second time it is not taken, for its
/// handler has disabled it: it stays pending until the loop serves it. From then
/// on it is enabled and not pending at every poll, and it is never taken again.
pub proof fn law_second_pend_waits(n: nat)
    ensures
        n < first_over() ==> bench(n).2.taken == 0,
        n >= first_over() ==> bench(n).2.taken == 1 && bench(n).0.pend_once,
        bench(first_over()).2 == (Line { pending: false, enabled: false, held: false, taken: 1 }),
        bench(second_over()).2 == (Line { pending: true, enabled: false, held: false, taken: 1 }),
        n >= second_over() ==> bench(n).0.pend_twice,
        n >= all_served() && bench(n).1 is NextPending ==> bench(n).2 == (Line {
            pending: false,
            enabled: true,
            held: false,
            taken: 1,
        }),
        !(bench(n).1 is Panic),
        accepts(bench(n).0.stage, bench(n).2.reply(bench(n).1)),
{
    lemma_bench_begins(first_over());
    lemma_bench_begins(second_over());
    if n >= all_served() {
        lemma_bench_goes_on(n);
    } else {
        lemma_bench_begins(n);
    }
}

} // verus!
