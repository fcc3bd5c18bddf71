//! The Nucleo-F446RE development board.

use vstd::prelude::*;

verus! {

/// Number of concurrent processes this platform supports.
pub const NUM_PROCS: usize = 0;

/// The platform: its drivers, and the numbers under which processes reach them.
pub struct NucleoF446RE<D> {
    /// The IPC service, the only driver so far.
    pub ipc: D,
    /// The driver number of the IPC service.
    pub ipc_driver_num: usize,
}

impl<D> NucleoF446RE<D> {
    /// Runs `f` on the driver with this number, or on none where there is no
    /// such driver.
    pub fn with_driver<F, R>(&self, driver_num: usize, f: F) -> (ret: R)
        where F: FnOnce(Option<&D>) -> R
        requires
            call_requires(f, (self.driver(driver_num),)),
        ensures
            call_ensures(f, (self.driver(driver_num),), ret),
            driver_num == self.ipc_driver_num ==> call_ensures(f, (Some(&self.ipc),), ret),
            driver_num != self.ipc_driver_num ==> call_ensures(f, (None,), ret),
    {
        if driver_num == self.ipc_driver_num {
            f(Some(&self.ipc))
        } else {
            f(None)
        }
    }

    /// The driver with this number.
    pub open spec fn driver(&self, driver_num: usize) -> Option<&D> {
        if driver_num == self.ipc_driver_num {
            Some(&self.ipc)
        } else {
            None
        }
    }
}

/// A board has one driver: under the number of the IPC service it is the IPC
/// service, and under every other number there is none. So two numbers reach the
/// same driver exactly when they are the same or neither is that of a driver.
pub proof fn law_driver_number<D>(board: NucleoF446RE<D>, driver_num: usize, other: usize)
    ensures
        driver_num == board.ipc_driver_num ==> board.driver(driver_num) == Some(&board.ipc),
        driver_num != board.ipc_driver_num ==> board.driver(driver_num) is None,
        board.driver(driver_num) is Some && board.driver(other) is Some ==> driver_num == other,
{
}

} // verus!
