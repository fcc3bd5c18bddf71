//! The main object of the kernel.

use vstd::prelude::*;

use crate::capabilities::{
    MainLoopCapability, MemoryAllocationCapability, ProcessManagementCapability,
};
use crate::grant::Grant;
use crate::main_loop::{LoopAction, MainLoop};
use crate::process::AppId;
use crate::returncode::ReturnCode;
use crate::run::{Action, ProcessRun};

verus! {

/// What the kernel keeps, as numbers and a sequence.
pub struct KernelView<P> {
    /// How much there is to do.
    pub work: nat,
    /// The process slots, with the process of each that is taken.
    pub processes: Seq<Option<P>>,
    /// How many grants have been created.
    pub grant_counter: nat,
    /// No grant can be created any more.
    pub grants_finalized: bool,
}

impl<P> KernelView<P> {
    /// A kernel that has nothing to do, with these process slots and no grants.
    pub open spec fn init(processes: Seq<Option<P>>) -> KernelView<P> {
        KernelView { work: 0, processes, grant_counter: 0, grants_finalized: false }
    }

    /// There is one more thing to do.
    pub open spec fn more_work(self) -> KernelView<P> {
        KernelView { work: self.work + 1, ..self }
    }

    /// There is one thing less to do.
    pub open spec fn less_work(self) -> KernelView<P> {
        KernelView { work: (self.work - 1) as nat, ..self }
    }

    /// There is one more grant.
    pub open spec fn more_grants(self) -> KernelView<P> {
        KernelView { grant_counter: self.grant_counter + 1, ..self }
    }

    /// The grants are final.
    pub open spec fn finalized(self) -> KernelView<P> {
        KernelView { grants_finalized: true, ..self }
    }

    /// A grant can be created: the grants are not final, and one more can be
    /// counted.
    pub open spec fn grants_open(self) -> bool {
        !self.grants_finalized && self.grant_counter < usize::MAX
    }

    /// Slot `i` exists and holds a process.
    pub open spec fn occupied(self, i: int) -> bool {
        0 <= i < self.processes.len() && self.processes[i] is Some
    }
}

/// `closure` was run on the process of every slot that is taken, once each, in the
/// order of the slots: `states[i]` is the state when slot `i` was reached.
pub open spec fn visits<P, S, F: Fn(usize, &P, S) -> S>(
    processes: Seq<Option<P>>,
    closure: F,
    states: Seq<S>,
) -> bool {
    &&& states.len() == processes.len() + 1
    &&& forall|i: int|
        #![trigger processes[i]]
        0 <= i < processes.len() ==> match processes[i] {
            Some(p) => call_ensures(closure, (i as usize, &p, states[i]), states[i + 1]),
            None => states[i + 1] == states[i],
        }
}

/// `closure` was run on the process of every slot that is taken, once each, in the
/// order of the slots, as long as it returned `FAIL`: `states[i]` is the state when
/// slot `i` was reached, and nothing was reached after the last of them. `ret` is
/// the first code other than `FAIL` with the state that came with it, or `FAIL`
/// with the last state where there was no such code.
pub open spec fn visits_until<P, S, F: Fn(usize, &P, S) -> (ReturnCode, S)>(
    processes: Seq<Option<P>>,
    closure: F,
    states: Seq<S>,
    ret: (ReturnCode, S),
) -> bool {
    let stop = states.len() - 1;
    &&& 0 <= stop <= processes.len()
    &&& forall|i: int|
        #![trigger processes[i]]
        0 <= i < stop ==> match processes[i] {
            Some(p) => call_ensures(
                closure,
                (i as usize, &p, states[i]),
                (ReturnCode::FAIL, states[i + 1]),
            ),
            None => states[i + 1] == states[i],
        }
    &&& if stop == processes.len() {
        ret == (ReturnCode::FAIL, states[stop])
    } else {
        &&& processes[stop] is Some
        &&& call_ensures(closure, (stop as usize, &processes[stop]->0, states[stop]), ret)
        &&& ret.0 != ReturnCode::FAIL
    }
}

/// Main object for the kernel. Each board will need to create one.
///
/// `P` is what the board has for a process. The kernel finds processes and hands
/// them out, and never looks inside.
pub struct Kernel<'a, P> {
    /// How many "to-do" items exist at any given time. These are outstanding
    /// callbacks and processes in the Running state.
    work: usize,
    /// The process slots.
    processes: &'a [Option<P>],
    /// How many grant regions have been setup. This is incremented on every
    /// call to `create_grant()`. We need to explicitly track this so that when
    /// processes are created they can be allocated pointers for each grant.
    grant_counter: usize,
    /// Flag to mark that grants have been finalized. This means that the kernel
    /// cannot support creating new grants because processes have already been
    /// created and the data structures for grants have already been
    /// established.
    grants_finalized: bool,
}

impl<'a, P> View for Kernel<'a, P> {
    type V = KernelView<P>;

    closed spec fn view(&self) -> KernelView<P> {
        KernelView {
            work: self.work as nat,
            processes: self.processes@,
            grant_counter: self.grant_counter as nat,
            grants_finalized: self.grants_finalized,
        }
    }
}

impl<'a, P> Kernel<'a, P> {
    /// A kernel with these process slots, nothing to do and no grants.
    pub fn new(processes: &'a [Option<P>]) -> (kernel: Kernel<'a, P>)
        ensures
            kernel@ == KernelView::init(processes@),
    {
        Kernel { work: 0, processes, grant_counter: 0, grants_finalized: false }
    }

    /// Something was scheduled for a process, so there is more work to do.
    pub fn increment_work(&mut self)
        requires
            old(self)@.work < usize::MAX,
        ensures
            final(self)@ == old(self)@.more_work(),
    {
        self.work = self.work + 1;
    }

    /// Something finished for a process, so we decrement how much work there is
    /// to do.
    pub fn decrement_work(&mut self)
        requires
            old(self)@.work > 0,
        ensures
            final(self)@ == old(self)@.less_work(),
    {
        self.work = self.work - 1;
    }

    /// Helper function for determining if we should service processes or go to
    /// sleep.
    pub fn processes_blocked(&self) -> (blocked: bool)
        ensures
            blocked == (self@.work == 0),
    {
        self.work == 0
    }

    /// Run a closure on a specific process if it exists. If the process does
    /// not exist (there is no such slot, or the slot is empty) then `default`
    /// will be returned. Otherwise the closure will be executed and passed a
    /// reference to the process.
    pub fn process_map_or<F, R>(&self, default: R, process_index: usize, closure: F) -> (ret: R)
        where F: FnOnce(&P) -> R
        requires
            self@.occupied(process_index as int) ==> call_requires(
                closure,
                (&self@.processes[process_index as int]->0,),
            ),
        ensures
            if process_index < self@.processes.len() && self@.processes[process_index as int] is Some {
                call_ensures(closure, (&self@.processes[process_index as int]->0,), ret)
            } else {
                ret == default
            },
    {
        if process_index >= self.processes.len() {
            return default;
        }
        match &self.processes[process_index] {
            Some(process) => closure(process),
            None => default,
        }
    }

    /// Run a closure on every valid process. This will iterate the array of
    /// processes and call the closure on every process that exists.
    ///
    /// What the closure works on besides the process is its last argument: it
    /// gets the state that the call before left, and gives the next one.
    pub fn process_each_enumerate<S, F>(&self, state: S, closure: F) -> (ret: S)
        where F: Fn(usize, &P, S) -> S
        requires
            forall|i: usize, s: S|
                self@.occupied(i as int) ==> #[trigger] call_requires(
                    closure,
                    (i, &self@.processes[i as int]->0, s),
                ),
        ensures
            exists|states: Seq<S>| #[trigger]
                visits(self@.processes, closure, states) && states[0] == state && states.last()
                    == ret,
    {
        let ghost mut states: Seq<S> = seq![state];
        let mut current: S = state;
        let mut i: usize = 0;
        while i < self.processes.len()
            invariant
                i <= self.processes.len(),
                self@.processes == self.processes@,
                states[0] == state,
                states.last() == current,
                visits(self@.processes.take(i as int), closure, states),
                forall|j: usize, s: S|
                    self@.occupied(j as int) ==> #[trigger] call_requires(
                        closure,
                        (j, &self@.processes[j as int]->0, s),
                    ),
            decreases self.processes.len() - i,
        {
            let ghost before = states;
            match &self.processes[i] {
                Some(process) => {
                    assert(self@.occupied(i as int));
                    assert(call_requires(closure, (i, &self@.processes[i as int]->0, current)));
                    current = closure(i, process, current);
                },
                None => {},
            }
            proof {
                states = before.push(current);
                let done = self@.processes.take(i + 1);
                assert forall|j: int| #![trigger done[j]] 0 <= j < done.len() implies match done[j] {
                    Some(p) => call_ensures(closure, (j as usize, &p, states[j]), states[j + 1]),
                    None => states[j + 1] == states[j],
                } by {
                    if j < i {
                        assert(done[j] == self@.processes.take(i as int)[j]);
                    }
                }
            }
            i = i + 1;
        }
        assert(self@.processes.take(i as int) =~= self@.processes);
        current
    }

    /// Run a closure on every process, but only continue if the closure returns
    /// `FAIL`. That is, if the closure returns any other return code than
    /// `FAIL`, that value will be returned from this function and the iteration
    /// of the array of processes will stop.
    ///
    /// What the closure works on besides the process is its last argument: it
    /// gets the state that the call before left, and gives the next one beside
    /// its return code.
    pub fn process_each_enumerate_stop<S, F>(&self, state: S, closure: F) -> (ret: (ReturnCode, S))
        where F: Fn(usize, &P, S) -> (ReturnCode, S)
        requires
            forall|i: usize, s: S|
                self@.occupied(i as int) ==> #[trigger] call_requires(
                    closure,
                    (i, &self@.processes[i as int]->0, s),
                ),
        ensures
            exists|states: Seq<S>| #[trigger]
                visits_until(self@.processes, closure, states, ret) && states[0] == state,
    {
        let ghost mut states: Seq<S> = seq![state];
        let mut current: S = state;
        let mut i: usize = 0;
        while i < self.processes.len()
            invariant
                i <= self.processes.len(),
                self@.processes == self.processes@,
                states[0] == state,
                visits_until(
                    self@.processes.take(i as int),
                    closure,
                    states,
                    (ReturnCode::FAIL, current),
                ),
                states.len() == i + 1,
                forall|j: usize, s: S|
                    self@.occupied(j as int) ==> #[trigger] call_requires(
                        closure,
                        (j, &self@.processes[j as int]->0, s),
                    ),
            decreases self.processes.len() - i,
        {
            let ghost before = states;
            let ghost done = self@.processes.take(i as int);
            match &self.processes[i] {
                Some(process) => {
                    assert(self@.occupied(i as int));
                    assert(call_requires(closure, (i, &self@.processes[i as int]->0, current)));
                    let (code, next) = closure(i, process, current);
                    if code != ReturnCode::FAIL {
                        proof {
                            let all = self@.processes;
                            assert forall|j: int| #![trigger all[j]] 0 <= j < i implies match all[j] {
                                Some(p) => call_ensures(
                                    closure,
                                    (j as usize, &p, states[j]),
                                    (ReturnCode::FAIL, states[j + 1]),
                                ),
                                None => states[j + 1] == states[j],
                            } by {
                                assert(all[j] == done[j]);
                            }
                            assert(visits_until(all, closure, states, (code, next)));
                        }
                        return (code, next);
                    }
                    current = next;
                },
                None => {},
            }
            proof {
                states = before.push(current);
                let more = self@.processes.take(i + 1);
                assert forall|j: int| #![trigger more[j]] 0 <= j < more.len() implies match more[j] {
                    Some(p) => call_ensures(
                        closure,
                        (j as usize, &p, states[j]),
                        (ReturnCode::FAIL, states[j + 1]),
                    ),
                    None => states[j + 1] == states[j],
                } by {
                    if j < i {
                        assert(more[j] == done[j]);
                    }
                }
            }
            i = i + 1;
        }
        assert(self@.processes.take(i as int) =~= self@.processes);
        (ReturnCode::FAIL, current)
    }

    /// Return how many processes this board supports.
    pub fn number_of_process_slots(&self) -> (n: usize)
        ensures
            n == self@.processes.len(),
    {
        self.processes.len()
    }

    /// Whether `create_grant` can be called.
    pub fn grants_open(&self) -> (open: bool)
        ensures
            open == self@.grants_open(),
    {
        !self.grants_finalized && self.grant_counter < usize::MAX
    }

    /// Create a new grant. This is used in board initialization to setup grants
    /// that capsules use to interact with processes.
    ///
    /// Grants **must** only be created _before_ processes are initialized.
    /// Processes use the number of grants that have been allocated to correctly
    /// initialize the process's memory with a pointer for each grant. No grant
    /// may be created after processes are initialized.
    ///
    /// Calling this function is restricted to only certain users, and to
    /// enforce this calling this function requires the
    /// `MemoryAllocationCapability` capability.
    pub fn create_grant<T: Default, C: MemoryAllocationCapability>(
        &mut self,
        _capability: &C,
    ) -> (grant: Grant<T>)
        requires
            old(self)@.grants_open(),
        ensures
            grant.grant_num == old(self)@.grant_counter,
            final(self)@ == old(self)@.more_grants(),
    {
        let grant_index: usize = self.grant_counter;
        self.grant_counter = self.grant_counter + 1;
        Grant::new(grant_index)
    }

    /// Returns the number of grants that have been setup in the system and
    /// marks the grants as "finalized". This means that no more grants can
    /// be created because data structures have been setup based on the number
    /// of grants when this function is called.
    ///
    /// In practice, this is called when processes are created, and the process
    /// memory is setup based on the number of current grants.
    pub fn get_grant_count_and_finalize(&mut self) -> (count: usize)
        ensures
            count == old(self)@.grant_counter,
            final(self)@ == old(self)@.finalized(),
    {
        self.grants_finalized = true;
        self.grant_counter
    }

    /// Cause all apps to fault.
    ///
    /// Gives the slots of the processes that the caller has to put in the fault
    /// state, in this order: each then is as if it had crashed (for example with
    /// an MPU violation). These are all processes, once each, in the order of
    /// their slots.
    ///
    /// Only callers with the `ProcessManagementCapability` can call this
    /// function. This restricts general capsules from being able to call this
    /// function, since capsules should not be able to arbitrarily restart all
    /// apps.
    pub fn hardfault_all_apps<C: ProcessManagementCapability>(&self, _c: &C) -> (slots: Vec<usize>)
        ensures
            forall|k: int| 0 <= k < slots.len() ==> self@.occupied(#[trigger] slots[k] as int),
            forall|i: usize| #[trigger] self@.occupied(i as int) ==> slots@.contains(i),
            forall|i: usize| #[trigger]
                slots@.contains(i) <==> i < self@.processes.len() && self@.processes[i as int] is Some,
            forall|j: int, k: int| 0 <= j < k < slots.len() ==> slots[j] < slots[k],
    {
        let mut slots: Vec<usize> = Vec::new();
        let mut i: usize = 0;
        while i < self.processes.len()
            invariant
                i <= self.processes.len(),
                self@.processes == self.processes@,
                forall|k: int|
                    0 <= k < slots.len() ==> #[trigger] slots[k] < i && self@.occupied(
                        slots[k] as int,
                    ),
                forall|j: usize| #[trigger]
                    self@.occupied(j as int) && j < i ==> slots@.contains(j),
                forall|j: int, k: int| 0 <= j < k < slots.len() ==> slots[j] < slots[k],
            decreases self.processes.len() - i,
        {
            let ghost before = slots@;
            if self.processes[i].is_some() {
                slots.push(i);
                proof {
                    assert forall|j: usize| #[trigger] self@.occupied(j as int) && j < i
                        + 1 implies slots@.contains(j) by {
                        if j < i {
                            let k = choose|k: int| 0 <= k < before.len() && before[k] == j;
                            assert(slots@[k] == j);
                        } else {
                            assert(slots@[before.len() as int] == i);
                        }
                    }
                }
            }
            i = i + 1;
        }
        proof {
            assert forall|j: usize| #[trigger] slots@.contains(j) <==> j < self@.processes.len()
                && self@.processes[j as int] is Some by {
                if slots@.contains(j) {
                    let k = choose|k: int| 0 <= k < slots@.len() && slots@[k] == j;
                    assert(self@.occupied(slots[k] as int));
                }
                if j < self@.processes.len() && self@.processes[j as int] is Some {
                    assert(self@.occupied(j as int));
                }
            }
        }
        slots
    }

    /// Main loop. Begins it and gives its first action.
    pub fn kernel_loop<C: MainLoopCapability>(&self, _capability: &C) -> (r: (MainLoop, LoopAction))
        ensures
            (r.0@, r.1) == crate::main_loop::first(),
    {
        MainLoop::start()
    }

    /// A time slice for the process of `appid`. Begins it and gives its first
    /// action. `ipc` says whether there is an IPC service.
    pub fn do_process<F, I>(&self, appid: AppId, ipc: bool) -> (r: (ProcessRun, Action<F, I>))
        ensures
            r.0.appid() == appid,
            r.0.ipc() == ipc,
            (r.0@, r.1) == crate::run::first::<F, I>(),
    {
        ProcessRun::start(appid, ipc)
    }
}

} // verus!
