use kernel::main_loop::{LoopAction, LoopReply, MainLoop, TEST_IRQ};

/// An interrupt line whose handler disables what it takes.
struct Line {
    pending: bool,
    enabled: bool,
    held: bool,
    taken: usize,
}

impl Line {
    fn new() -> Line {
        Line { pending: false, enabled: true, held: false, taken: 0 }
    }

    fn perform(&mut self, action: LoopAction) -> LoopReply {
        match action {
            LoopAction::NextPending => {
                return LoopReply::Interrupt(if self.pending { Some(TEST_IRQ) } else { None })
            }
            LoopAction::GetPending(_) => return LoopReply::Pending(self.pending),
            LoopAction::SetPending(_) => self.pending = true,
            LoopAction::ClearPending(_) => self.pending = false,
            LoopAction::Enable(_) => self.enabled = true,
            LoopAction::EnterAtomic => self.held = true,
            LoopAction::LeaveAtomic => self.held = false,
            _ => {}
        }
        if self.pending && self.enabled && !self.held {
            self.pending = false;
            self.enabled = false;
            self.taken += 1;
        }
        LoopReply::Done
    }
}

fn feed(replies: &[LoopReply]) -> (MainLoop, Vec<LoopAction>) {
    let (mut main_loop, action) = MainLoop::start();
    let mut actions = vec![action];
    for reply in replies {
        assert!(main_loop.accepts(reply));
        actions.push(main_loop.step(*reply));
    }
    (main_loop, actions)
}

const DONE: LoopReply = LoopReply::Done;
const NONE: LoopReply = LoopReply::Interrupt(None);

#[test]
fn loop_on_a_line() {
    let mut line = Line::new();
    let (mut main_loop, mut action) = MainLoop::start();
    let mut actions = vec![];
    let mut taken = vec![];
    for _ in 0..40 {
        actions.push(action);
        let reply = line.perform(action);
        taken.push(line.taken);
        assert!(main_loop.accepts(&reply));
        action = main_loop.step(reply);
    }
    assert_eq!(
        actions[..25],
        [
            LoopAction::WritePendOnce(false),
            LoopAction::WritePendTwice(false),
            LoopAction::NextPending,
            LoopAction::EnterAtomic,
            LoopAction::SetPending(10),
            LoopAction::WritePendOnce(true),
            LoopAction::GetPending(10),
            LoopAction::LeaveAtomic,
            LoopAction::Nop,
            LoopAction::GetPending(10),
            LoopAction::Nop,
            LoopAction::NextPending,
            LoopAction::EnterAtomic,
            LoopAction::GetPending(10),
            LoopAction::SetPending(10),
            LoopAction::WritePendTwice(true),
            LoopAction::LeaveAtomic,
            LoopAction::Nop,
            LoopAction::GetPending(10),
            LoopAction::Nop,
            LoopAction::NextPending,
            LoopAction::Nop,
            LoopAction::ClearPending(10),
            LoopAction::Enable(10),
            LoopAction::NextPending,
        ]
    );
    assert_eq!(taken[6], 0);
    assert_eq!(taken[7], 1);
    assert_eq!(taken[39], 1);
    assert!(!line.pending);
    assert!(line.enabled);
    let pends = actions.iter().filter(|a| matches!(a, LoopAction::SetPending(_))).count();
    assert_eq!(pends, 2);
}

#[test]
fn no_second_pend_while_pending() {
    let pending = LoopReply::Pending(true);
    let round = [NONE, DONE, pending, DONE, DONE, pending, DONE];
    let mut replies = vec![DONE, DONE, NONE, DONE, DONE, DONE, pending, DONE, DONE, pending, DONE];
    for _ in 0..10 {
        replies.extend_from_slice(&round);
    }
    let (_, actions) = feed(&replies);
    let pends = actions.iter().filter(|a| matches!(a, LoopAction::SetPending(_))).count();
    assert_eq!(pends, 1);
    assert_eq!(actions.last(), Some(&LoopAction::NextPending));
}

#[test]
fn second_pend_at_once_when_the_first_is_gone() {
    let (_, actions) = feed(&[DONE, DONE, NONE, DONE, DONE, DONE, LoopReply::Pending(false)]);
    assert_eq!(actions.last(), Some(&LoopAction::SetPending(10)));
}

#[test]
fn unhandled_interrupt_stops_the_kernel() {
    let (main_loop, actions) = feed(&[DONE, DONE, LoopReply::Interrupt(Some(11))]);
    assert_eq!(actions.last(), Some(&LoopAction::Panic(11)));
    assert!(!main_loop.accepts(&DONE));
    assert!(!main_loop.accepts(&NONE));
    assert!(!main_loop.accepts(&LoopReply::Pending(true)));
}

#[test]
fn pending_interrupts_are_served_one_by_one() {
    let ten = LoopReply::Interrupt(Some(10));
    let (_, actions) = feed(&[DONE, DONE, ten, DONE, DONE, DONE, ten, DONE, DONE, DONE, NONE]);
    let served = [
        LoopAction::NextPending,
        LoopAction::Nop,
        LoopAction::ClearPending(10),
        LoopAction::Enable(10),
    ];
    assert_eq!(actions[2..6], served);
    assert_eq!(actions[6..10], served);
    assert_eq!(actions[10..], [LoopAction::NextPending, LoopAction::EnterAtomic]);
}

#[test]
fn loop_takes_the_reply_it_asked_for() {
    let (main_loop, _) = feed(&[DONE, DONE]);
    assert!(main_loop.accepts(&NONE));
    assert!(!main_loop.accepts(&DONE));
    assert!(!main_loop.accepts(&LoopReply::Pending(false)));
}
