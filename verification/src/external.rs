//! What this library takes on trust from std and from dioxus: the types that
//! it carries through, and the calls of which nothing is proved here.

use crate::layer::{DevtoolsIndex, DevtoolsLogger};
use dioxus::prelude::ScopeState;
use std::ops::DerefMut;
use std::sync::{Arc, Mutex, MutexGuard, PoisonError};
use vstd::prelude::*;

verus! {

/// `std::sync::Mutex`. What it guards at a given moment has no value in
/// ghost code: it is reached only through a guard, and may differ from one
/// lock to the next.
#[verifier::external_type_specification]
#[verifier::external_body]
#[verifier::reject_recursive_types(T)]
pub struct ExMutex<T: ?Sized>(Mutex<T>);

/// `std::sync::MutexGuard`, the token of a held lock.
#[verifier::external_type_specification]
#[verifier::external_body]
#[verifier::reject_recursive_types(T)]
pub struct ExMutexGuard<'a, T: ?Sized + 'a>(MutexGuard<'a, T>);

/// `std::sync::PoisonError`, the error of a lock whose earlier holder
/// panicked.
#[verifier::external_type_specification]
#[verifier::external_body]
#[verifier::reject_recursive_types(T)]
pub struct ExPoisonError<T>(PoisonError<T>);

/// `ScopeState` of dioxus, the state of one component. Nothing of it is read
/// here.
#[verifier::external_type_specification]
#[verifier::external_body]
pub struct ExScopeState(ScopeState);

/// The index that a mutex was made with. It says nothing of what a later
/// lock finds.
pub uninterp spec fn made_with(mutex: Mutex<DevtoolsLogger>) -> DevtoolsIndex;

/// `Mutex::new`: a mutex made with `index` as what it guards.
#[verifier::external_body]
pub(crate) fn guard_index(index: DevtoolsLogger) -> (mutex: Mutex<DevtoolsLogger>)
    ensures
        made_with(mutex) == index@,
{
    Mutex::new(index)
}

/// The index that a held lock guards. While the guard is held nothing but
/// the guard's holder reaches the index, so it is a part of the guard's
/// value.
pub uninterp spec fn guarded_index(guard: MutexGuard<'_, DevtoolsLogger>) -> DevtoolsIndex;

/// `DerefMut::deref_mut` of a `MutexGuard`: the index that the guard guards,
/// to read and to change. What is done to it through the reference is done
/// to the guarded index.
#[verifier::external_body]
pub(crate) fn guarded<'a, 'b>(guard: &'a mut MutexGuard<'b, DevtoolsLogger>) -> (index:
    &'a mut DevtoolsLogger)
    ensures
        index@ == guarded_index(*old(guard)),
        guarded_index(*final(guard)) == final(index)@,
{
    guard.deref_mut()
}

/// `Arc::clone`: one more handle to the same allocation, so the two point at
/// the same value.
#[verifier::external_body]
pub(crate) fn share<T>(handle: &Arc<T>) -> (other: Arc<T>)
    ensures
        other == *handle,
{
    handle.clone()
}

/// `==` of `str`: whether two string slices hold the same text.
#[verifier::external_body]
pub(crate) fn same_text(a: &str, b: &str) -> (same: bool)
    ensures
        same == (a@ == b@),
{
    a == b
}

} // verus!
