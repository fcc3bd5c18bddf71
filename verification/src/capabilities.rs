//! Capabilities: markers without content. Who holds a value of a type that
//! implements one may call the functions that ask for it.

use vstd::prelude::*;

verus! {

/// Lets the holder start the main loop.
pub trait MainLoopCapability {

}

/// Lets the holder allocate memory, grants among it.
pub trait MemoryAllocationCapability {

}

/// Lets the holder control processes.
pub trait ProcessManagementCapability {

}

} // verus!
