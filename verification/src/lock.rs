//! The calls into the `parking_lot` crate.
use parking_lot::{RwLock, RwLockReadGuard};
use std::ops::Deref;
use vstd::prelude::*;

verus! {

/// The reader-writer lock of the `parking_lot` crate.
#[verifier::external_type_specification]
#[verifier::external_body]
#[verifier::reject_recursive_types(T)]
pub struct ExRwLock<T: ?Sized>(RwLock<T>);

/// What `parking_lot` gives to one who reads under a lock.
#[verifier::external_type_specification]
#[verifier::external_body]
#[verifier::reject_recursive_types(T)]
pub struct ExRwLockReadGuard<'a, T: ?Sized + 'a>(RwLockReadGuard<'a, T>);

/// `RwLock::read`: waits for shared access. Nothing is claimed of what stands under
/// the lock, since others write to it. A thread that already holds this lock may wait
/// forever.
pub assume_specification<T: ?Sized> [RwLock::<T>::read](lock: &RwLock<T>) -> (guard:
    RwLockReadGuard<'_, T>);

/// `RwLockReadGuard::deref`: what stands under the lock. Nothing is claimed of it,
/// since others write to it while the lock is free.
pub assume_specification<'a, 'g, T: ?Sized + 'a> [<RwLockReadGuard<'a, T> as Deref>::deref](
    guard: &'g RwLockReadGuard<'a, T>,
) -> (value: &'g T);

/// A reader may find the value under the lock.
pub open spec fn may_read<T>(lock: &RwLock<T>, value: &T) -> bool {
    exists|guard: RwLockReadGuard<'_, T>|
        {
            &&& #[trigger] call_ensures(RwLock::<T>::read, (lock,), guard)
            &&& call_ensures(<RwLockReadGuard<'_, T> as Deref>::deref, (&guard,), value)
        }
}

} // verus!
