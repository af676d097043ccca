//! Labels of the places and transitions that model mutexes.

use crate::naming::function::{indexed_call_labels, indexed_call_labels_spec};
use crate::naming::{decimal, decimal_spec};
use vstd::prelude::*;
use vstd::string::*;

verus! {

/// The places of a mutex: the one that holds a token while the mutex is
/// unlocked, and the one that holds a token while it is locked.
pub open spec fn place_labels_spec(index: nat) -> (Seq<char>, Seq<char>) {
    ("MUTEX_"@ + decimal_spec(index) + "_UNLOCKED"@, "MUTEX_"@ + decimal_spec(index) + "_LOCKED"@)
}

pub open spec fn new_transition_labels_spec(index: nat) -> (Seq<char>, Seq<char>) {
    indexed_call_labels_spec("std_sync_Mutex_T_new_"@, index)
}

pub open spec fn lock_transition_labels_spec(index: nat) -> (Seq<char>, Seq<char>) {
    indexed_call_labels_spec("std_sync_Mutex_T_lock_"@, index)
}

/// Labels of the two places of a mutex.
pub fn place_labels(index: usize) -> (labels: (String, String))
    ensures
        labels.0@ == place_labels_spec(index as nat).0,
        labels.1@ == place_labels_spec(index as nat).1,
{
    (
        String::from_str("MUTEX_").concat(decimal(index).as_str()).concat("_UNLOCKED"),
        String::from_str("MUTEX_").concat(decimal(index).as_str()).concat("_LOCKED"),
    )
}

/// Labels of the transitions that stand for a call to `std::sync::Mutex::<T>::new`.
pub fn new_transition_labels(index: usize) -> (labels: (String, String))
    ensures
        labels.0@ == new_transition_labels_spec(index as nat).0,
        labels.1@ == new_transition_labels_spec(index as nat).1,
{
    indexed_call_labels("std_sync_Mutex_T_new_", index)
}

/// Labels of the transitions that stand for a call to `std::sync::Mutex::<T>::lock`.
pub fn lock_transition_labels(index: usize) -> (labels: (String, String))
    ensures
        labels.0@ == lock_transition_labels_spec(index as nat).0,
        labels.1@ == lock_transition_labels_spec(index as nat).1,
{
    indexed_call_labels("std_sync_Mutex_T_lock_", index)
}

} // verus!
