//! Labels of the transitions that stand for function calls and returns.

use crate::naming::{
    decimal, decimal_spec, indexed_label, indexed_label_spec, sanitize, sanitize_spec,
};
use vstd::prelude::*;
use vstd::string::*;

verus! {

pub open spec fn return_transition_label_spec(function_name: Seq<char>) -> Seq<char> {
    sanitize_spec(function_name) + "_RETURN"@
}

pub open spec fn foreign_call_transition_labels_spec(function_name: Seq<char>) -> (
    Seq<char>,
    Seq<char>,
) {
    (sanitize_spec(function_name) + "_CALL"@, sanitize_spec(function_name) + "_CALL_UNWIND"@)
}

pub open spec fn diverging_call_transition_label_spec(function_name: Seq<char>) -> Seq<char> {
    sanitize_spec(function_name) + "_DIVERGING_CALL"@
}

pub open spec fn panic_transition_label_spec(function_name: Seq<char>) -> Seq<char> {
    sanitize_spec(function_name) + "_PANIC"@
}

/// The name under which a called function appears in labels: its path and
/// the number of the call, so that the labels of two calls differ.
pub open spec fn call_name_spec(function_name: Seq<char>, call: nat) -> Seq<char> {
    function_name + "_"@ + decimal_spec(call)
}

/// The pair of labels of an indexed call: the call itself and its unwind variant.
pub open spec fn indexed_call_labels_spec(prefix: Seq<char>, index: nat) -> (Seq<char>, Seq<char>) {
    (indexed_label_spec(prefix, index), indexed_label_spec(prefix, index) + "_UNWIND"@)
}

pub open spec fn unwrap_transition_labels_spec(index: nat) -> (Seq<char>, Seq<char>) {
    indexed_call_labels_spec("std_result_Result_unwrap_"@, index)
}

pub open spec fn arc_new_transition_labels_spec(index: nat) -> (Seq<char>, Seq<char>) {
    indexed_call_labels_spec("std_sync_Arc_T_new_"@, index)
}

pub open spec fn clone_transition_labels_spec(index: nat) -> (Seq<char>, Seq<char>) {
    indexed_call_labels_spec("std_clone_Clone_clone_"@, index)
}

pub open spec fn deref_transition_labels_spec(index: nat) -> (Seq<char>, Seq<char>) {
    indexed_call_labels_spec("std_ops_Deref_deref_"@, index)
}

/// The name under which a called function appears in labels.
pub fn call_name(function_name: &str, call: usize) -> (name: String)
    ensures
        name@ == call_name_spec(function_name@, call as nat),
{
    String::from_str(function_name).concat("_").concat(decimal(call).as_str())
}

/// Labels of an indexed call and of its unwind variant.
pub fn indexed_call_labels(prefix: &str, index: usize) -> (labels: (String, String))
    ensures
        labels.0@ == indexed_call_labels_spec(prefix@, index as nat).0,
        labels.1@ == indexed_call_labels_spec(prefix@, index as nat).1,
{
    let call = indexed_label(prefix, index);
    let unwind = call.clone().concat("_UNWIND");
    (call, unwind)
}

/// Label of the transition for the return statement of a function.
pub fn return_transition_label(function_name: &str) -> (label: String)
    ensures
        label@ == return_transition_label_spec(function_name@),
{
    sanitize(function_name).concat("_RETURN")
}

/// Labels of the transitions for a call to a foreign function.
pub fn foreign_call_transition_labels(function_name: &str) -> (labels: (String, String))
    ensures
        labels.0@ == foreign_call_transition_labels_spec(function_name@).0,
        labels.1@ == foreign_call_transition_labels_spec(function_name@).1,
{
    (sanitize(function_name).concat("_CALL"), sanitize(function_name).concat("_CALL_UNWIND"))
}

/// Label of the transition that stands for a call to a function that does not return.
pub fn diverging_call_transition_label(function_name: &str) -> (label: String)
    ensures
        label@ == diverging_call_transition_label_spec(function_name@),
{
    sanitize(function_name).concat("_DIVERGING_CALL")
}

/// Label of the transition that stands for a call to `panic!`.
pub fn panic_transition_label(function_name: &str) -> (label: String)
    ensures
        label@ == panic_transition_label_spec(function_name@),
{
    sanitize(function_name).concat("_PANIC")
}

/// Labels of the transitions that stand for a call to `std::result::Result::<T, E>::unwrap`.
pub fn unwrap_transition_labels(index: usize) -> (labels: (String, String))
    ensures
        labels.0@ == unwrap_transition_labels_spec(index as nat).0,
        labels.1@ == unwrap_transition_labels_spec(index as nat).1,
{
    indexed_call_labels("std_result_Result_unwrap_", index)
}

/// Labels of the transitions that stand for a call to `std::sync::Arc::<T>::new`.
pub fn arc_new_transition_labels(index: usize) -> (labels: (String, String))
    ensures
        labels.0@ == arc_new_transition_labels_spec(index as nat).0,
        labels.1@ == arc_new_transition_labels_spec(index as nat).1,
{
    indexed_call_labels("std_sync_Arc_T_new_", index)
}

/// Labels of the transitions that stand for a call to `std::clone::Clone::clone`.
pub fn clone_transition_labels(index: usize) -> (labels: (String, String))
    ensures
        labels.0@ == clone_transition_labels_spec(index as nat).0,
        labels.1@ == clone_transition_labels_spec(index as nat).1,
{
    indexed_call_labels("std_clone_Clone_clone_", index)
}

/// Labels of the transitions that stand for a call to `std::ops::Deref::deref`.
pub fn deref_transition_labels(index: usize) -> (labels: (String, String))
    ensures
        labels.0@ == deref_transition_labels_spec(index as nat).0,
        labels.1@ == deref_transition_labels_spec(index as nat).1,
{
    indexed_call_labels("std_ops_Deref_deref_", index)
}

} // verus!
