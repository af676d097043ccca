//! Labels of the places and transitions that model condition variables.

use crate::naming::function::{indexed_call_labels, indexed_call_labels_spec};
use crate::naming::{decimal, decimal_spec, indexed_label, indexed_label_spec};
use vstd::prelude::*;
use vstd::string::*;

verus! {

/// The label of a part of the model of the condition variable with the given index.
pub open spec fn part_label_spec(index: nat, part: Seq<char>) -> Seq<char> {
    "CONDVAR_"@ + decimal_spec(index) + part
}

/// The places of a condition variable: `lost_signal_possible`, `signal_input`,
/// `wait_input` and `signal_output`, in this order.
pub open spec fn place_labels_spec(index: nat) -> (Seq<char>, Seq<char>, Seq<char>, Seq<char>) {
    (
        part_label_spec(index, "_LOST_SIGNAL_POSSIBLE"@),
        part_label_spec(index, "_SIGNAL_INPUT"@),
        part_label_spec(index, "_WAIT_INPUT"@),
        part_label_spec(index, "_SIGNAL_OUTPUT"@),
    )
}

/// The transitions of a condition variable: `lost_signal_transition` and `signal_transition`.
pub open spec fn transition_labels_spec(index: nat) -> (Seq<char>, Seq<char>) {
    (
        part_label_spec(index, "_LOST_SIGNAL_TRANSITION"@),
        part_label_spec(index, "_SIGNAL_TRANSITION"@),
    )
}

pub open spec fn new_transition_labels_spec(index: nat) -> (Seq<char>, Seq<char>) {
    indexed_call_labels_spec("std_sync_Condvar_new_"@, index)
}

pub open spec fn notify_one_transition_labels_spec(index: nat) -> (Seq<char>, Seq<char>) {
    indexed_call_labels_spec("std_sync_Condvar_notify_one_"@, index)
}

/// The transitions of a call to `wait`: its start, its end and its unwind variant.
pub open spec fn wait_transition_labels_spec(index: nat) -> (Seq<char>, Seq<char>, Seq<char>) {
    (
        indexed_label_spec("std_sync_Condvar_wait_"@, index) + "_START"@,
        indexed_label_spec("std_sync_Condvar_wait_"@, index) + "_END"@,
        indexed_label_spec("std_sync_Condvar_wait_"@, index) + "_UNWIND"@,
    )
}

fn part_label(index: usize, part: &str) -> (label: String)
    ensures
        label@ == part_label_spec(index as nat, part@),
{
    String::from_str("CONDVAR_").concat(decimal(index).as_str()).concat(part)
}

/// Labels of the four places of a condition variable.
pub fn place_labels(index: usize) -> (labels: (String, String, String, String))
    ensures
        labels.0@ == place_labels_spec(index as nat).0,
        labels.1@ == place_labels_spec(index as nat).1,
        labels.2@ == place_labels_spec(index as nat).2,
        labels.3@ == place_labels_spec(index as nat).3,
{
    (
        part_label(index, "_LOST_SIGNAL_POSSIBLE"),
        part_label(index, "_SIGNAL_INPUT"),
        part_label(index, "_WAIT_INPUT"),
        part_label(index, "_SIGNAL_OUTPUT"),
    )
}

/// Labels of the two transitions of a condition variable.
pub fn transition_labels(index: usize) -> (labels: (String, String))
    ensures
        labels.0@ == transition_labels_spec(index as nat).0,
        labels.1@ == transition_labels_spec(index as nat).1,
{
    (part_label(index, "_LOST_SIGNAL_TRANSITION"), part_label(index, "_SIGNAL_TRANSITION"))
}

/// Labels of the transitions that stand for a call to `std::sync::Condvar::new`.
pub fn new_transition_labels(index: usize) -> (labels: (String, String))
    ensures
        labels.0@ == new_transition_labels_spec(index as nat).0,
        labels.1@ == new_transition_labels_spec(index as nat).1,
{
    indexed_call_labels("std_sync_Condvar_new_", index)
}

/// Labels of the transitions that stand for a call to `std::sync::Condvar::notify_one`.
pub fn notify_one_transition_labels(index: usize) -> (labels: (String, String))
    ensures
        labels.0@ == notify_one_transition_labels_spec(index as nat).0,
        labels.1@ == notify_one_transition_labels_spec(index as nat).1,
{
    indexed_call_labels("std_sync_Condvar_notify_one_", index)
}

/// Labels of the transitions that stand for a call to `std::sync::Condvar::wait`.
pub fn wait_transition_labels(index: usize) -> (labels: (String, String, String))
    ensures
        labels.0@ == wait_transition_labels_spec(index as nat).0,
        labels.1@ == wait_transition_labels_spec(index as nat).1,
        labels.2@ == wait_transition_labels_spec(index as nat).2,
{
    (
        indexed_label("std_sync_Condvar_wait_", index).concat("_START"),
        indexed_label("std_sync_Condvar_wait_", index).concat("_END"),
        indexed_label("std_sync_Condvar_wait_", index).concat("_UNWIND"),
    )
}

} // verus!
