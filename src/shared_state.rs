//! Shared ownership of a value behind a mutual-exclusion lock. Locking happens where
//! the value is used; a poisoned lock there is fatal.
use std::sync::{Arc, Mutex};
use vstd::prelude::*;

verus! {

/// `std::sync::Mutex`, held opaque: nothing here looks inside the lock.
#[verifier::external_type_specification]
#[verifier::external_body]
#[verifier::reject_recursive_types(T)]
pub struct ExMutex<T: ?Sized>(Mutex<T>);

/// Relies on `std::sync::Mutex::new`: it builds an unlocked mutex around `t` and always
/// returns. Nothing is stated of the lock's contents, which stay opaque.
pub assume_specification<T>[ Mutex::<T>::new ](t: T) -> Mutex<T>;

/// A value owned by several holders at once, guarded by a lock.
pub type Shared<T> = Arc<Mutex<T>>;

/// Wraps `value` in a lock that several holders can share; the value is dropped with
/// the last of them.
pub fn shared<T>(value: T) -> Shared<T> {
    Arc::new(Mutex::new(value))
}

} // verus!
