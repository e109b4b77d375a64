//! The shared cell: one constructed value behind a lock, with any number of
//! handles, read only by copying the value out.

use std::sync::Arc;
use vstd::prelude::*;
use vstd::rwlock::{RwLock, RwLockPredicate};

verus! {

/// The lock predicate of a cell: the lock holds this value and no other.
pub struct Holds<T> {
    pub value: T,
}

impl<T> RwLockPredicate<T> for Holds<T> {
    open spec fn inv(self, v: T) -> bool {
        v == self.value
    }
}

/// Hands out a second handle to the allocation behind `a`, by `Arc::clone`:
/// the new handle points to the same allocation, so what it points to is
/// what `a` points to.
#[verifier::external_body]
fn share<T>(a: &Arc<T>) -> (r: Arc<T>)
    ensures
        r == *a,
{
    Arc::clone(a)
}

/// A handle to a value that many holders share. The value lies behind a
/// lock; a holder never borrows it, but takes a copy under the lock.
pub struct DIObj<T: Clone> {
    cell: Arc<RwLock<T, Holds<T>>>,
}

impl<T: Clone> DIObj<T> {
    /// The value that the cell was made with, which it holds for good.
    pub closed spec fn view(&self) -> T {
        self.cell.pred().value
    }

    /// A new cell around `t`.
    pub fn new(t: T) -> (cell: Self)
        ensures
            cell@ == t,
    {
        DIObj { cell: Arc::new(RwLock::new(t, Ghost(Holds { value: t }))) }
    }

    /// A copy of the value, made under the lock; the lock is released before
    /// the copy is returned.
    pub fn extract(&self) -> (t: T)
        ensures
            cloned(self@, t),
    {
        let handle = self.cell.acquire_read();
        let t = handle.borrow().clone();
        handle.release_read();
        t
    }
}

impl<T: Clone> Clone for DIObj<T> {
    /// Another handle to the same cell.
    fn clone(&self) -> (handle: Self)
        ensures
            handle == *self,
    {
        DIObj { cell: share(&self.cell) }
    }
}

} // verus!
