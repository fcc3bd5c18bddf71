//! The STM32F446RE chip: its parts, and what it does about pending interrupts.

use vstd::prelude::*;

verus! {

/// What to do about the interrupt that is pending next.
#[derive(Clone, Copy, Debug, PartialEq, Eq, Structural)]
pub enum ServiceAction {
    /// Nothing is left to serve.
    Return,
    /// The kernel must stop, for nothing handles this interrupt.
    Panic(u32),
}

/// The chip, with its memory protection unit `M` and its system timer `S`.
pub struct Stm32f446re<M, S> {
    pub mpu: M,
    pub systick: S,
}

impl<M, S> Stm32f446re<M, S> {
    /// The chip with these parts.
    pub fn new(mpu: M, systick: S) -> (chip: Stm32f446re<M, S>)
        ensures
            chip.mpu == mpu,
            chip.systick == systick,
    {
        Stm32f446re { mpu, systick }
    }

    /// What to do when `next_pending` is the next pending interrupt. The chip
    /// handles none yet.
    pub fn service_pending_interrupts(&self, next_pending: Option<u32>) -> (action: ServiceAction)
        ensures
            action == match next_pending {
                Some(interrupt) => ServiceAction::Panic(interrupt),
                None => ServiceAction::Return,
            },
    {
        match next_pending {
            Some(interrupt) => ServiceAction::Panic(interrupt),
            None => ServiceAction::Return,
        }
    }

    /// The memory protection unit.
    pub fn mpu(&self) -> (mpu: &M)
        ensures
            *mpu == self.mpu,
    {
        &self.mpu
    }

    /// The system timer.
    pub fn systick(&self) -> (systick: &S)
        ensures
            *systick == self.systick,
    {
        &self.systick
    }
}

} // verus!
