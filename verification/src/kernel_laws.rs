//! What holds over the life of a kernel, whatever is called in whatever order.

use vstd::prelude::*;

use crate::kernel::{visits, visits_until, KernelView};
use crate::returncode::ReturnCode;

verus! {

/// A call that changes a kernel, with what it returned.
pub enum KernelOp {
    /// `Kernel::increment_work`
    IncrementWork,
    /// `Kernel::decrement_work`
    DecrementWork,
    /// `Kernel::create_grant`, and the number of the grant.
    CreateGrant(nat),
    /// `Kernel::get_grant_count_and_finalize`, and the count.
    Finalize(nat),
}

/// The call takes the kernel from `pre` to `post`.
pub open spec fn changes<P>(pre: KernelView<P>, op: KernelOp, post: KernelView<P>) -> bool {
    match op {
        KernelOp::IncrementWork => pre.work < usize::MAX && post == pre.more_work(),
        KernelOp::DecrementWork => pre.work > 0 && post == pre.less_work(),
        KernelOp::CreateGrant(number) => {
            &&& pre.grants_open()
            &&& number == pre.grant_counter
            &&& post == pre.more_grants()
        },
        KernelOp::Finalize(count) => count == pre.grant_counter && post == pre.finalized(),
    }
}

/// The life of a kernel so far: the calls, and the kernel before, between and
/// after them.
pub struct History<P> {
    pub views: Seq<KernelView<P>>,
    pub ops: Seq<KernelOp>,
}

impl<P> History<P> {
    /// The kernel was made by `Kernel::new` with these process slots, and each
    /// call made its change.
    pub open spec fn valid(self, processes: Seq<Option<P>>) -> bool {
        &&& self.views.len() == self.ops.len() + 1
        &&& self.views[0] == KernelView::init(processes)
        &&& forall|i: int|
            0 <= i < self.ops.len() ==> changes(
                self.views[i],
                #[trigger] self.ops[i],
                self.views[i + 1],
            )
    }

    /// How many of the first `n` calls are `Kernel::increment_work`.
    pub open spec fn increments(self, n: int) -> nat
        decreases n,
    {
        if n <= 0 {
            0
        } else {
            self.increments(n - 1) + if self.ops[n - 1] is IncrementWork {
                1nat
            } else {
                0nat
            }
        }
    }

    /// How many of the first `n` calls are `Kernel::decrement_work`.
    pub open spec fn decrements(self, n: int) -> nat
        decreases n,
    {
        if n <= 0 {
            0
        } else {
            self.decrements(n - 1) + if self.ops[n - 1] is DecrementWork {
                1nat
            } else {
                0nat
            }
        }
    }

    /// How many of the first `n` calls are `Kernel::create_grant`.
    pub open spec fn grants(self, n: int) -> nat
        decreases n,
    {
        if n <= 0 {
            0
        } else {
            self.grants(n - 1) + if self.ops[n - 1] is CreateGrant {
                1nat
            } else {
                0nat
            }
        }
    }
}

/// The work to do is what was scheduled less what was finished. So processes are
/// blocked exactly when everything that was scheduled is finished.
pub proof fn law_work<P>(h: History<P>, processes: Seq<Option<P>>, n: int)
    requires
        h.valid(processes),
        0 <= n <= h.ops.len(),
    ensures
        h.views[n].work == h.increments(n) - h.decrements(n),
        h.views[n].work == 0 <==> h.increments(n) == h.decrements(n),
    decreases n,
{
    if n > 0 {
        law_work(h, processes, n - 1);
        assert(changes(h.views[n - 1], h.ops[n - 1], h.views[n]));
    }
}

/// What is scheduled and then finished leaves the kernel as it was.
pub proof fn law_work_undone<P>(view: KernelView<P>)
    ensures
        view.more_work().less_work() == view,
        view.work > 0 ==> view.less_work().more_work() == view,
{
}

/// The process slots never change.
pub proof fn law_slots_fixed<P>(h: History<P>, processes: Seq<Option<P>>, n: int)
    requires
        h.valid(processes),
        0 <= n <= h.ops.len(),
    ensures
        h.views[n].processes == processes,
    decreases n,
{
    if n > 0 {
        law_slots_fixed(h, processes, n - 1);
        assert(changes(h.views[n - 1], h.ops[n - 1], h.views[n]));
    }
}

/// The kernel counts the grants that were created. Each grant has as its number
/// how many there were before it, and the count that finalizing returns is how many
/// there were.
pub proof fn law_grant_count<P>(h: History<P>, processes: Seq<Option<P>>, n: int)
    requires
        h.valid(processes),
        0 <= n <= h.ops.len(),
    ensures
        h.views[n].grant_counter == h.grants(n),
        n < h.ops.len() && h.ops[n] is CreateGrant ==> h.ops[n]->CreateGrant_0 == h.grants(n),
        n < h.ops.len() && h.ops[n] is Finalize ==> h.ops[n]->Finalize_0 == h.grants(n),
    decreases n,
{
    if n > 0 {
        law_grant_count(h, processes, n - 1);
        assert(changes(h.views[n - 1], h.ops[n - 1], h.views[n]));
    }
    if n < h.ops.len() {
        assert(changes(h.views[n], h.ops[n], h.views[n + 1]));
    }
}

proof fn lemma_grants_grow<P>(h: History<P>, m: int, n: int)
    requires
        0 <= m <= n <= h.ops.len(),
    ensures
        h.grants(m) <= h.grants(n),
    decreases n,
{
    if m < n {
        lemma_grants_grow(h, m, n - 1);
    }
}

/// No two grants have the same number: a later one has a higher one.
pub proof fn law_grants_distinct<P>(h: History<P>, processes: Seq<Option<P>>, i: int, j: int)
    requires
        h.valid(processes),
        0 <= i < j < h.ops.len(),
        h.ops[i] is CreateGrant,
        h.ops[j] is CreateGrant,
    ensures
        h.ops[i]->CreateGrant_0 < h.ops[j]->CreateGrant_0,
{
    law_grant_count(h, processes, i);
    law_grant_count(h, processes, j);
    lemma_grants_grow(h, i + 1, j);
}

proof fn lemma_stays_final<P>(h: History<P>, processes: Seq<Option<P>>, i: int, n: int)
    requires
        h.valid(processes),
        0 <= i < n <= h.ops.len(),
        h.ops[i] is Finalize,
    ensures
        h.views[n].grants_finalized,
        h.grants(n) == h.grants(i),
    decreases n,
{
    assert(changes(h.views[n - 1], h.ops[n - 1], h.views[n]));
    if i < n - 1 {
        lemma_stays_final(h, processes, i, n - 1);
    }
}

/// Once the grants are final no grant is created, and the count that was returned
/// is that of all grants there ever are. Every later call returns the same count.
pub proof fn law_final_grants<P>(h: History<P>, processes: Seq<Option<P>>, i: int, j: int)
    requires
        h.valid(processes),
        0 <= i < h.ops.len(),
        h.ops[i] is Finalize,
        i < j < h.ops.len(),
    ensures
        !(h.ops[j] is CreateGrant),
        h.ops[i]->Finalize_0 == h.grants(j + 1),
        h.ops[j] is Finalize ==> h.ops[j]->Finalize_0 == h.ops[i]->Finalize_0,
{
    lemma_stays_final(h, processes, i, j);
    lemma_stays_final(h, processes, i, j + 1);
    law_grant_count(h, processes, i);
    law_grant_count(h, processes, j);
    assert(changes(h.views[i], h.ops[i], h.views[i + 1]));
    assert(changes(h.views[j], h.ops[j], h.views[j + 1]));
}

/// The grants are final exactly when they have been finalized: until then, and
/// whatever else is called, one more can be created, as long as it can be counted.
pub proof fn law_grants_stay_open<P>(h: History<P>, processes: Seq<Option<P>>, n: int)
    requires
        h.valid(processes),
        0 <= n <= h.ops.len(),
    ensures
        h.views[n].grants_finalized <==> exists|i: int| 0 <= i < n && #[trigger] h.ops[i] is Finalize,
        h.views[n].grants_open() <==> h.grants(n) < usize::MAX && forall|i: int|
            0 <= i < n ==> !(#[trigger] h.ops[i] is Finalize),
    decreases n,
{
    law_grant_count(h, processes, n);
    if n > 0 {
        law_grants_stay_open(h, processes, n - 1);
        assert(changes(h.views[n - 1], h.ops[n - 1], h.views[n]));
        if h.views[n - 1].grants_finalized {
            let i = choose|i: int| 0 <= i < n - 1 && #[trigger] h.ops[i] is Finalize;
            assert(0 <= i < n && h.ops[i] is Finalize);
        }
    }
}

/// How many of the first `n` slots hold a process.
pub open spec fn taken<P>(processes: Seq<Option<P>>, n: int) -> nat
    decreases n,
{
    if n <= 0 {
        0
    } else {
        taken(processes, n - 1) + if processes[n - 1] is Some {
            1nat
        } else {
            0nat
        }
    }
}

/// A closure that counts its runs counts the processes: it is run once for each.
pub proof fn law_each_counts<P, S, F: Fn(usize, &P, S) -> S>(
    processes: Seq<Option<P>>,
    closure: F,
    states: Seq<S>,
    count: spec_fn(S) -> int,
)
    requires
        visits(processes, closure, states),
        forall|i: usize, p: P, s: S, t: S| #[trigger]
            call_ensures(closure, (i, &p, s), t) ==> count(t) == count(s) + 1,
    ensures
        count(states.last()) == count(states[0]) + taken(processes, processes.len() as int),
{
    lemma_each_counts(processes, closure, states, count, processes.len() as int);
}

proof fn lemma_each_counts<P, S, F: Fn(usize, &P, S) -> S>(
    processes: Seq<Option<P>>,
    closure: F,
    states: Seq<S>,
    count: spec_fn(S) -> int,
    n: int,
)
    requires
        visits(processes, closure, states),
        0 <= n <= processes.len(),
        forall|i: usize, p: P, s: S, t: S| #[trigger]
            call_ensures(closure, (i, &p, s), t) ==> count(t) == count(s) + 1,
    ensures
        count(states[n]) == count(states[0]) + taken(processes, n),
    decreases n,
{
    if n > 0 {
        lemma_each_counts(processes, closure, states, count, n - 1);
        assert(processes[n - 1] is Some || processes[n - 1] is None);
    }
}

/// What running the closure on the process of a slot brings about, and running it
/// on those of later slots leaves so, is so in the end: every process is reached,
/// with its own slot number, in the order of the slots.
pub proof fn law_each_reaches<P, S, F: Fn(usize, &P, S) -> S>(
    processes: Seq<Option<P>>,
    closure: F,
    states: Seq<S>,
    slot: usize,
    process: P,
    q: spec_fn(S) -> bool,
)
    requires
        visits(processes, closure, states),
        slot < processes.len() <= usize::MAX + 1,
        processes[slot as int] == Some(process),
        forall|s: S, t: S| #[trigger] call_ensures(closure, (slot, &process, s), t) ==> q(t),
        forall|i: usize, p: P, s: S, t: S|
            slot < i && q(s) && #[trigger] call_ensures(closure, (i, &p, s), t) ==> q(t),
    ensures
        q(states.last()),
{
    lemma_each_reaches(processes, closure, states, slot, process, q, processes.len() as int);
}

proof fn lemma_each_reaches<P, S, F: Fn(usize, &P, S) -> S>(
    processes: Seq<Option<P>>,
    closure: F,
    states: Seq<S>,
    slot: usize,
    process: P,
    q: spec_fn(S) -> bool,
    n: int,
)
    requires
        visits(processes, closure, states),
        slot < n <= processes.len() <= usize::MAX + 1,
        processes[slot as int] == Some(process),
        forall|s: S, t: S| #[trigger] call_ensures(closure, (slot, &process, s), t) ==> q(t),
        forall|i: usize, p: P, s: S, t: S|
            slot < i && q(s) && #[trigger] call_ensures(closure, (i, &p, s), t) ==> q(t),
    ensures
        q(states[n]),
    decreases n,
{
    if n > slot + 1 {
        lemma_each_reaches(processes, closure, states, slot, process, q, n - 1);
    }
    assert(processes[n - 1] is Some || processes[n - 1] is None);
}

/// What no run of the closure on a process, with the number of its slot, breaks is
/// kept: the closure is run on nothing else.
pub proof fn law_each_only<P, S, F: Fn(usize, &P, S) -> S>(
    processes: Seq<Option<P>>,
    closure: F,
    states: Seq<S>,
    q: spec_fn(S) -> bool,
    n: int,
)
    requires
        visits(processes, closure, states),
        q(states[0]),
        0 <= n <= processes.len(),
        forall|i: int, p: P, s: S, t: S|
            0 <= i < processes.len() && processes[i] == Some(p) && q(s) && #[trigger] call_ensures(
                closure,
                (i as usize, &p, s),
                t,
            ) ==> q(t),
    ensures
        q(states[n]),
    decreases n,
{
    if n > 0 {
        law_each_only(processes, closure, states, q, n - 1);
        assert(processes[n - 1] is Some || processes[n - 1] is None);
    }
}

/// Where the closure gives `FAIL` for every process before slot `first` and another
/// code for the process there, that run is the last one, and what it gave is
/// returned. A closure that counts its runs counts the processes up to there.
pub proof fn law_stop_at_first<P, S, F: Fn(usize, &P, S) -> (ReturnCode, S)>(
    processes: Seq<Option<P>>,
    closure: F,
    states: Seq<S>,
    ret: (ReturnCode, S),
    first: usize,
    process: P,
    count: spec_fn(S) -> int,
)
    requires
        visits_until(processes, closure, states, ret),
        first < processes.len() <= usize::MAX + 1,
        processes[first as int] == Some(process),
        forall|i: usize, p: P, s: S, t: (ReturnCode, S)|
            i < first && #[trigger] call_ensures(closure, (i, &p, s), t) ==> t.0
                == ReturnCode::FAIL,
        forall|s: S, t: (ReturnCode, S)| #[trigger]
            call_ensures(closure, (first, &process, s), t) ==> t.0 != ReturnCode::FAIL,
        forall|i: usize, p: P, s: S, t: (ReturnCode, S)| #[trigger]
            call_ensures(closure, (i, &p, s), t) ==> count(t.1) == count(s) + 1,
    ensures
        ret.0 != ReturnCode::FAIL,
        exists|s: S| #[trigger] call_ensures(closure, (first, &process, s), ret),
        count(ret.1) == count(states[0]) + taken(processes, first + 1),
{
    let stop = states.len() - 1;
    assert(stop <= first) by {
        if stop > first {
            assert(processes[first as int] is Some);
        }
    }
    lemma_until_counts(processes, closure, states, ret, count, stop);
}

/// Where the closure gives `FAIL` for every process, `FAIL` is returned, and it was
/// run once for each.
pub proof fn law_stop_never<P, S, F: Fn(usize, &P, S) -> (ReturnCode, S)>(
    processes: Seq<Option<P>>,
    closure: F,
    states: Seq<S>,
    ret: (ReturnCode, S),
    count: spec_fn(S) -> int,
)
    requires
        visits_until(processes, closure, states, ret),
        forall|i: usize, p: P, s: S, t: (ReturnCode, S)| #[trigger]
            call_ensures(closure, (i, &p, s), t) ==> t.0 == ReturnCode::FAIL && count(t.1) == count(
                s,
            ) + 1,
    ensures
        ret.0 == ReturnCode::FAIL,
        count(ret.1) == count(states[0]) + taken(processes, processes.len() as int),
{
    lemma_until_counts(processes, closure, states, ret, count, states.len() - 1);
}

/// What no run of the closure on a process, with the number of its slot, breaks is
/// kept, and holds of the state that is returned: the closure is run on nothing
/// else.
pub proof fn law_stop_only<P, S, F: Fn(usize, &P, S) -> (ReturnCode, S)>(
    processes: Seq<Option<P>>,
    closure: F,
    states: Seq<S>,
    ret: (ReturnCode, S),
    q: spec_fn(S) -> bool,
)
    requires
        visits_until(processes, closure, states, ret),
        q(states[0]),
        forall|i: int, p: P, s: S, t: (ReturnCode, S)|
            0 <= i < processes.len() && processes[i] == Some(p) && q(s) && #[trigger] call_ensures(
                closure,
                (i as usize, &p, s),
                t,
            ) ==> q(t.1),
    ensures
        q(ret.1),
{
    lemma_stop_only(processes, closure, states, ret, q, states.len() - 1);
}

proof fn lemma_stop_only<P, S, F: Fn(usize, &P, S) -> (ReturnCode, S)>(
    processes: Seq<Option<P>>,
    closure: F,
    states: Seq<S>,
    ret: (ReturnCode, S),
    q: spec_fn(S) -> bool,
    n: int,
)
    requires
        visits_until(processes, closure, states, ret),
        q(states[0]),
        0 <= n < states.len(),
        forall|i: int, p: P, s: S, t: (ReturnCode, S)|
            0 <= i < processes.len() && processes[i] == Some(p) && q(s) && #[trigger] call_ensures(
                closure,
                (i as usize, &p, s),
                t,
            ) ==> q(t.1),
    ensures
        q(states[n]),
    decreases n,
{
    if n > 0 {
        lemma_stop_only(processes, closure, states, ret, q, n - 1);
        assert(processes[n - 1] is Some || processes[n - 1] is None);
    }
}

proof fn lemma_until_counts<P, S, F: Fn(usize, &P, S) -> (ReturnCode, S)>(
    processes: Seq<Option<P>>,
    closure: F,
    states: Seq<S>,
    ret: (ReturnCode, S),
    count: spec_fn(S) -> int,
    n: int,
)
    requires
        visits_until(processes, closure, states, ret),
        0 <= n < states.len(),
        forall|i: usize, p: P, s: S, t: (ReturnCode, S)| #[trigger]
            call_ensures(closure, (i, &p, s), t) ==> count(t.1) == count(s) + 1,
    ensures
        count(states[n]) == count(states[0]) + taken(processes, n),
    decreases n,
{
    if n > 0 {
        lemma_until_counts(processes, closure, states, ret, count, n - 1);
        assert(processes[n - 1] is Some || processes[n - 1] is None);
    }
}

/// `Kernel::process_each_enumerate_stop` returns `FAIL` exactly when it reached
/// every slot.
pub proof fn law_fail_is_all<P, S, F: Fn(usize, &P, S) -> (ReturnCode, S)>(
    processes: Seq<Option<P>>,
    closure: F,
    states: Seq<S>,
    ret: (ReturnCode, S),
)
    requires
        visits_until(processes, closure, states, ret),
    ensures
        ret.0 == ReturnCode::FAIL <==> states.len() == processes.len() + 1,
{
}

} // verus!
