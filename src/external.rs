//! Declarations of the std and serde_json items the registry relies on, with
//! the contracts the verified code assumes of them.

use std::sync::{Arc, Mutex, PoisonError};
use serde_json::Value;
use vstd::prelude::*;

verus! {

/// `std::sync::Mutex`: carried through the registry as an opaque lock.
#[verifier::external_type_specification]
#[verifier::external_body]
#[verifier::reject_recursive_types(T)]
pub struct ExMutex<T: ?Sized>(Mutex<T>);

/// `serde_json::Value`: command results and update payloads, opaque here.
#[verifier::external_type_specification]
#[verifier::external_body]
pub struct ExValue(Value);

/// Relies on the derived `Clone` of `serde_json::Value`: the copy is equal
/// to the original.
pub assume_specification[ <Value as Clone>::clone ](v: &Value) -> (r: Value)
    ensures
        r == *v,
;

/// The JSON string value that holds exactly the characters `s`.
pub uninterp spec fn json_text(s: Seq<char>) -> Value;

/// Relies on the `serde_json::Value::String` variant: wraps the text as a
/// JSON string.
#[verifier::external_body]
pub(crate) fn json_string(s: String) -> (r: Value)
    ensures
        r == json_text(s@),
{
    Value::String(s)
}

/// Relies on `std::sync::Mutex::new`: a fresh lock around `v`.
#[verifier::external_body]
pub(crate) fn new_lock<T>(v: T) -> (r: Mutex<T>) {
    Mutex::new(v)
}

/// Relies on `std::sync::Arc::clone`: another handle to the same
/// allocation.
#[verifier::external_body]
pub(crate) fn share<T>(a: &Arc<T>) -> (r: Arc<T>)
    ensures
        r == *a,
{
    Arc::clone(a)
}

/// Relies on `std::sync::Mutex::lock` and `Clone` of `String`: a copy of the
/// value held at the moment the lock was taken. Other holders may change
/// the value at any time, so nothing is promised about it.
#[verifier::external_body]
pub(crate) fn lock_snapshot(m: &Mutex<String>) -> (r: String) {
    m.lock().unwrap_or_else(PoisonError::into_inner).clone()
}

/// Relies on `std::sync::Mutex::lock`: replaces the held value with `v`.
#[verifier::external_body]
pub(crate) fn lock_store(m: &Mutex<String>, v: String) {
    *m.lock().unwrap_or_else(PoisonError::into_inner) = v;
}

} // verus!
