//! Grants: regions of every process's memory that belong to one kernel service.

use core::marker::PhantomData;

use vstd::prelude::*;

verus! {

/// The right to one grant region, of a `T`, in each process.
pub struct Grant<T> {
    /// Which of the grant pointers of a process is this grant's.
    pub grant_num: usize,
    pub content: PhantomData<T>,
}

impl<T: Default> Grant<T> {
    /// The grant that stands at `grant_num` among the grant pointers.
    pub fn new(grant_num: usize) -> (grant: Grant<T>)
        ensures
            grant.grant_num == grant_num,
    {
        Grant { grant_num, content: PhantomData }
    }
}

} // verus!
