//! The core of a small embedded kernel: its bookkeeping of work, process slots
//! and grants, and the decisions that its scheduling loops take.
//!
//! Hardware is never touched from here. A loop that alternates between the
//! hardware and a decision is a state machine: each step takes the reply to the
//! last action and gives the next action to perform.

pub mod board;
pub mod capabilities;
pub mod chip;
pub mod grant;
pub mod kernel;
pub mod kernel_laws;
pub mod main_loop;
pub mod main_loop_laws;
pub mod process;
pub mod returncode;
pub mod run;
pub mod run_laws;
pub mod syscall;
