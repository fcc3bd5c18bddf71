//! The codes with which drivers and kernel services answer.

use vstd::prelude::*;

verus! {

/// The outcome of a driver call or of a kernel service.
#[derive(Clone, Copy, Debug, PartialEq, Eq, Structural)]
pub enum ReturnCode {
    /// Generic failure condition.
    FAIL,
    /// An invalid parameter was passed.
    EINVAL,
    /// The driver does not exist.
    ENODEVICE,
    /// Any other code, by its number. The kernel hands it on and never reads it.
    Other(isize),
}

} // verus!
