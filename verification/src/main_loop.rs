//! The main loop of the kernel, which tries out how a pending interrupt behaves.
//!
//! The loop serves what is pending and pends one interrupt itself, twice: once
//! while the interrupt is enabled, and once more when the first has been taken.
//! `MainLoop` decides; its caller performs each `LoopAction` and reports the
//! `LoopReply`.

use vstd::prelude::*;

verus! {

/// The interrupt that the loop pends.
pub const TEST_IRQ: u32 = 10;

/// What the caller of the loop has to do next. The reply that each asks for is
/// `LoopReply::Done` where nothing else is said.
#[derive(Clone, Copy, Debug, PartialEq, Eq, Structural)]
pub enum LoopAction {
    /// Show, where a debugger can see it, whether the interrupt was pended once.
    WritePendOnce(bool),
    /// Show, where a debugger can see it, whether the interrupt was pended twice.
    WritePendTwice(bool),
    /// Which interrupt is pending, if any? (`LoopReply::Interrupt`)
    NextPending,
    /// Do nothing, for one instruction.
    Nop,
    /// Make the interrupt no longer pending.
    ClearPending(u32),
    /// Enable the interrupt.
    Enable(u32),
    /// Hold all interrupts back, from here to `LeaveAtomic`.
    EnterAtomic,
    /// Make the interrupt pending.
    SetPending(u32),
    /// Is the interrupt pending? (`LoopReply::Pending`)
    GetPending(u32),
    /// Let interrupts in again.
    LeaveAtomic,
    /// The kernel must stop, for nothing handles this interrupt. No reply.
    Panic(u32),
}

/// What came of an action.
#[derive(Clone, Copy, Debug, PartialEq, Eq, Structural)]
pub enum LoopReply {
    Done,
    Interrupt(Option<u32>),
    Pending(bool),
}

/// Which reply the loop waits for.
#[derive(Clone, Copy, Debug, PartialEq, Eq, Structural)]
pub enum LoopStage {
    /// The first flag is being shown as not set.
    ShowingNotOnce,
    /// The second flag is being shown as not set.
    ShowingNotTwice,
    Polling,
    /// The handler of a pending interrupt runs.
    Handling(u32),
    Clearing(u32),
    Enabling(u32),
    EnteringAtomic,
    PendingOnce,
    ShowingOnce,
    ReadingPending,
    PendingTwice,
    ShowingTwice,
    LeavingAtomic,
    PausingBefore,
    /// The pending status is read once more, for a debugger to see.
    Observing,
    PausingAfter,
    Panicked,
}

/// How far the loop is.
#[derive(Clone, Copy, Debug, PartialEq, Eq, Structural)]
pub struct LoopState {
    /// The interrupt was pended once.
    pub pend_once: bool,
    /// The interrupt was pended a second time.
    pub pend_twice: bool,
    pub stage: LoopStage,
}

impl LoopState {
    /// There is no second time without a first, the stages of each time go with
    /// the flags, and no interrupt but the one of the test is served.
    pub open spec fn wf(self) -> bool {
        &&& self.pend_twice ==> self.pend_once
        &&& match self.stage {
            LoopStage::ShowingNotOnce | LoopStage::ShowingNotTwice | LoopStage::PendingOnce =>
                !self.pend_once,
            LoopStage::ShowingOnce | LoopStage::PendingTwice => self.pend_once && !self.pend_twice,
            LoopStage::ShowingTwice => self.pend_twice,
            LoopStage::Handling(interrupt) => interrupt == TEST_IRQ,
            LoopStage::Clearing(interrupt) => interrupt == TEST_IRQ,
            LoopStage::Enabling(interrupt) => interrupt == TEST_IRQ,
            _ => true,
        }
    }

    /// The state with another stage.
    pub open spec fn to(self, stage: LoopStage) -> LoopState {
        LoopState { stage, ..self }
    }
}

/// Whether a loop that waits at `stage` can be given `reply`.
pub open spec fn accepts(stage: LoopStage, reply: LoopReply) -> bool {
    match stage {
        LoopStage::Polling => reply is Interrupt,
        LoopStage::ReadingPending | LoopStage::Observing => reply is Pending,
        LoopStage::Panicked => false,
        _ => reply is Done,
    }
}

/// The first action of the loop and the state that waits for it.
pub open spec fn first() -> (LoopState, LoopAction) {
    (
        LoopState { pend_once: false, pend_twice: false, stage: LoopStage::ShowingNotOnce },
        LoopAction::WritePendOnce(false),
    )
}

/// The step of the loop: where it goes from `s` on a reply that `s` accepts.
pub open spec fn transition(s: LoopState, reply: LoopReply) -> (LoopState, LoopAction) {
    match s.stage {
        LoopStage::ShowingNotOnce => (
            s.to(LoopStage::ShowingNotTwice),
            LoopAction::WritePendTwice(false),
        ),
        LoopStage::Polling => match reply->Interrupt_0 {
            Some(interrupt) => if interrupt == TEST_IRQ {
                (s.to(LoopStage::Handling(interrupt)), LoopAction::Nop)
            } else {
                (s.to(LoopStage::Panicked), LoopAction::Panic(interrupt))
            },
            None => (s.to(LoopStage::EnteringAtomic), LoopAction::EnterAtomic),
        },
        LoopStage::Handling(interrupt) => (
            s.to(LoopStage::Clearing(interrupt)),
            LoopAction::ClearPending(interrupt),
        ),
        LoopStage::Clearing(interrupt) => (
            s.to(LoopStage::Enabling(interrupt)),
            LoopAction::Enable(interrupt),
        ),
        LoopStage::EnteringAtomic => if !s.pend_once && !s.pend_twice {
            (s.to(LoopStage::PendingOnce), LoopAction::SetPending(TEST_IRQ))
        } else {
            (s.to(LoopStage::ReadingPending), LoopAction::GetPending(TEST_IRQ))
        },
        LoopStage::PendingOnce => (
            LoopState { pend_once: true, stage: LoopStage::ShowingOnce, ..s },
            LoopAction::WritePendOnce(true),
        ),
        LoopStage::ShowingOnce => (
            s.to(LoopStage::ReadingPending),
            LoopAction::GetPending(TEST_IRQ),
        ),
        LoopStage::ReadingPending => if reply == LoopReply::Pending(false) && s.pend_once
            && !s.pend_twice {
            (s.to(LoopStage::PendingTwice), LoopAction::SetPending(TEST_IRQ))
        } else {
            (s.to(LoopStage::LeavingAtomic), LoopAction::LeaveAtomic)
        },
        LoopStage::PendingTwice => (
            LoopState { pend_twice: true, stage: LoopStage::ShowingTwice, ..s },
            LoopAction::WritePendTwice(true),
        ),
        LoopStage::ShowingTwice => (s.to(LoopStage::LeavingAtomic), LoopAction::LeaveAtomic),
        LoopStage::LeavingAtomic => (s.to(LoopStage::PausingBefore), LoopAction::Nop),
        LoopStage::PausingBefore => (
            s.to(LoopStage::Observing),
            LoopAction::GetPending(TEST_IRQ),
        ),
        LoopStage::Observing => (s.to(LoopStage::PausingAfter), LoopAction::Nop),
        LoopStage::ShowingNotTwice | LoopStage::Enabling(_) | LoopStage::PausingAfter => (
            s.to(LoopStage::Polling),
            LoopAction::NextPending,
        ),
        // No reply is accepted here.
        LoopStage::Panicked => (s, LoopAction::Nop),
    }
}

/// The main loop.
#[derive(Debug)]
pub struct MainLoop {
    state: LoopState,
}

impl View for MainLoop {
    type V = LoopState;

    /// How far the loop is.
    closed spec fn view(&self) -> LoopState {
        self.state
    }
}

impl MainLoop {
    #[verifier::type_invariant]
    spec fn inv(self) -> bool {
        self.state.wf()
    }

    /// Begins the loop: the loop, and its first action.
    pub fn start() -> (r: (MainLoop, LoopAction))
        ensures
            (r.0@, r.1) == first(),
            r.0@.wf(),
    {
        let state = LoopState {
            pend_once: false,
            pend_twice: false,
            stage: LoopStage::ShowingNotOnce,
        };
        (MainLoop { state }, LoopAction::WritePendOnce(false))
    }

    /// Whether `reply` is of the kind that the loop waits for.
    pub fn accepts(&self, reply: &LoopReply) -> (r: bool)
        ensures
            r == accepts(self@.stage, *reply),
    {
        match self.state.stage {
            LoopStage::Polling => matches!(reply, LoopReply::Interrupt(_)),
            LoopStage::ReadingPending | LoopStage::Observing => matches!(
                reply,
                LoopReply::Pending(_)
            ),
            LoopStage::Panicked => false,
            _ => matches!(reply, LoopReply::Done),
        }
    }

    /// Takes the reply to the last action and gives the next one.
    pub fn step(&mut self, reply: LoopReply) -> (action: LoopAction)
        requires
            accepts(old(self)@.stage, reply),
        ensures
            (final(self)@, action) == transition(old(self)@, reply),
            final(self)@.wf(),
    {
        proof {
            use_type_invariant(&*self);
        }
        let mut once: bool = self.state.pend_once;
        let mut twice: bool = self.state.pend_twice;
        let (stage, action) = match (self.state.stage, reply) {
            (LoopStage::ShowingNotOnce, _) => (
                LoopStage::ShowingNotTwice,
                LoopAction::WritePendTwice(false),
            ),
            (LoopStage::Polling, LoopReply::Interrupt(Some(interrupt))) => if interrupt
                == TEST_IRQ {
                (LoopStage::Handling(interrupt), LoopAction::Nop)
            } else {
                (LoopStage::Panicked, LoopAction::Panic(interrupt))
            },
            (LoopStage::Polling, _) => (LoopStage::EnteringAtomic, LoopAction::EnterAtomic),
            (LoopStage::Handling(interrupt), _) => (
                LoopStage::Clearing(interrupt),
                LoopAction::ClearPending(interrupt),
            ),
            (LoopStage::Clearing(interrupt), _) => (
                LoopStage::Enabling(interrupt),
                LoopAction::Enable(interrupt),
            ),
            (LoopStage::EnteringAtomic, _) => if !once && !twice {
                // First time. The interrupt is enabled, so it is taken as soon
                // as interrupts are let in again.
                (LoopStage::PendingOnce, LoopAction::SetPending(TEST_IRQ))
            } else {
                (LoopStage::ReadingPending, LoopAction::GetPending(TEST_IRQ))
            },
            (LoopStage::PendingOnce, _) => {
                once = true;
                (LoopStage::ShowingOnce, LoopAction::WritePendOnce(true))
            },
            (LoopStage::ShowingOnce, _) => (
                LoopStage::ReadingPending,
                LoopAction::GetPending(TEST_IRQ),
            ),
            (LoopStage::ReadingPending, LoopReply::Pending(pending)) => if !pending && once
                && !twice {
                // Second time. The interrupt was disabled when it was taken, so
                // it stays pending.
                (LoopStage::PendingTwice, LoopAction::SetPending(TEST_IRQ))
            } else {
                (LoopStage::LeavingAtomic, LoopAction::LeaveAtomic)
            },
            (LoopStage::PendingTwice, _) => {
                twice = true;
                (LoopStage::ShowingTwice, LoopAction::WritePendTwice(true))
            },
            (LoopStage::ShowingTwice, _) => (LoopStage::LeavingAtomic, LoopAction::LeaveAtomic),
            (LoopStage::LeavingAtomic, _) => (LoopStage::PausingBefore, LoopAction::Nop),
            (LoopStage::PausingBefore, _) => (
                LoopStage::Observing,
                LoopAction::GetPending(TEST_IRQ),
            ),
            (LoopStage::Observing, _) => (LoopStage::PausingAfter, LoopAction::Nop),
            _ => (LoopStage::Polling, LoopAction::NextPending),
        };
        self.state = LoopState { pend_once: once, pend_twice: twice, stage };
        action
    }
}

} // verus!
