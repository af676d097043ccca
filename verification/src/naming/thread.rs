//! Labels of the places and transitions that model threads.

use crate::naming::function::{indexed_call_labels, indexed_call_labels_spec};
use crate::naming::{decimal, decimal_spec};
use vstd::prelude::*;
use vstd::string::*;

verus! {

pub open spec fn spawn_transition_labels_spec(index: nat) -> (Seq<char>, Seq<char>) {
    indexed_call_labels_spec("std_thread_spawn_"@, index)
}

pub open spec fn join_transition_labels_spec(index: nat) -> (Seq<char>, Seq<char>) {
    indexed_call_labels_spec("std_thread_JoinHandle_T_join_"@, index)
}

pub open spec fn start_place_label_spec(index: nat) -> Seq<char> {
    "THREAD_"@ + decimal_spec(index) + "_START"@
}

pub open spec fn end_place_label_spec(index: nat) -> Seq<char> {
    "THREAD_"@ + decimal_spec(index) + "_END"@
}

/// Labels of the transitions that stand for a call to `std::thread::spawn`.
pub fn spawn_transition_labels(index: usize) -> (labels: (String, String))
    ensures
        labels.0@ == spawn_transition_labels_spec(index as nat).0,
        labels.1@ == spawn_transition_labels_spec(index as nat).1,
{
    indexed_call_labels("std_thread_spawn_", index)
}

/// Labels of the transitions that stand for a call to `std::thread::JoinHandle::<T>::join`.
pub fn join_transition_labels(index: usize) -> (labels: (String, String))
    ensures
        labels.0@ == join_transition_labels_spec(index as nat).0,
        labels.1@ == join_transition_labels_spec(index as nat).1,
{
    indexed_call_labels("std_thread_JoinHandle_T_join_", index)
}

/// Label of the place that models the start of a thread.
pub fn start_place_label(index: usize) -> (label: String)
    ensures
        label@ == start_place_label_spec(index as nat),
{
    String::from_str("THREAD_").concat(decimal(index).as_str()).concat("_START")
}

/// Label of the place that models the end of a thread.
pub fn end_place_label(index: usize) -> (label: String)
    ensures
        label@ == end_place_label_spec(index as nat),
{
    String::from_str("THREAD_").concat(decimal(index).as_str()).concat("_END")
}

} // verus!
