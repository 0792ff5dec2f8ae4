//! Shared ownership with exclusive access, on top of `std::sync`.
//!
//! A shared cell is an `Arc<Mutex<T>>`. In contracts a cell is told from other
//! cells by which cell it is: two handles are equal when they point at the same
//! cell. What a lock hands out belongs to every owner of the cell, so nothing
//! is claimed about what is found inside at any later time.

use std::slice::IterMut;
use std::sync::Arc;
use std::sync::Mutex;
use std::sync::MutexGuard;
use vstd::prelude::*;

verus! {

/// `std::sync::Mutex`, as a value that is carried around: what it guards is
/// not visible.
#[verifier::external_type_specification]
#[verifier::external_body]
#[verifier::reject_recursive_types(T)]
pub struct ExMutex<T: ?Sized>(Mutex<T>);

/// `std::sync::MutexGuard`: the lock, held. What it gives access to is not
/// visible.
#[verifier::external_type_specification]
#[verifier::external_body]
#[verifier::reject_recursive_types(T)]
pub struct ExMutexGuard<'a, T: ?Sized + 'a>(MutexGuard<'a, T>);

/// `std::slice::IterMut`, as a value that is handed on.
#[verifier::external_type_specification]
#[verifier::external_body]
#[verifier::reject_recursive_types(T)]
pub struct ExIterMut<'a, T: 'a>(IterMut<'a, T>);

/// A shared resource could not be locked: an earlier holder of the lock
/// panicked and left it poisoned.
#[derive(Debug, Clone, Copy, PartialEq, Eq)]
pub struct LockUnavailable;

/// `Arc::clone`: another handle on the same allocation.
#[verifier::external_body]
pub(crate) fn clone_arc<T>(handle: &Arc<T>) -> (other: Arc<T>)
    ensures
        other == *handle,
{
    handle.clone()
}

/// `Arc::ptr_eq` on two handles of cells: whether both point at one and the
/// same cell. A cell is told from every other by which cell it is, never by
/// what it holds at the moment, so two handles are equal exactly when they
/// point at the same cell.
#[verifier::external_body]
pub(crate) fn same_cell<T>(a: &Arc<Mutex<T>>, b: &Arc<Mutex<T>>) -> (same: bool)
    ensures
        same == (*a == *b),
{
    Arc::ptr_eq(a, b)
}

/// What the caller of a lock is told: the guard if the lock was taken, and
/// [`LockUnavailable`] if it is poisoned.
pub fn lock_outcome<G>(guard: Option<G>) -> (r: Result<G, LockUnavailable>)
    ensures
        r == match guard {
            Some(g) => Ok::<G, LockUnavailable>(g),
            None => Err::<G, LockUnavailable>(LockUnavailable),
        },
{
    match guard {
        Some(g) => Ok(g),
        None => Err(LockUnavailable),
    }
}

} // verus!
