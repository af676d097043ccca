//! Labels of the places and transitions that model the control flow inside a function.

use crate::naming::{decimal, decimal_spec, sanitize, sanitize_spec};
use vstd::prelude::*;
use vstd::string::*;

verus! {

/// The place that holds a token while the basic block is about to run.
pub open spec fn block_place_label_spec(function_name: Seq<char>, block: nat) -> Seq<char> {
    sanitize_spec(function_name) + "_BB"@ + decimal_spec(block)
}

/// A transition that leaves a basic block; `kind` tells the transitions of one block apart.
pub open spec fn block_transition_label_spec(
    function_name: Seq<char>,
    block: nat,
    kind: Seq<char>,
) -> Seq<char> {
    block_place_label_spec(function_name, block) + kind
}

pub open spec fn goto_transition_label_spec(function_name: Seq<char>, block: nat) -> Seq<char> {
    block_transition_label_spec(function_name, block, "_GOTO"@)
}

/// The transition from a `SwitchInt` to the target at position `branch` of its list.
pub open spec fn switch_int_transition_label_spec(
    function_name: Seq<char>,
    block: nat,
    branch: nat,
) -> Seq<char> {
    block_transition_label_spec(function_name, block, "_SWITCH_"@) + decimal_spec(branch)
}

pub open spec fn unwind_transition_label_spec(function_name: Seq<char>, block: nat) -> Seq<char> {
    block_transition_label_spec(function_name, block, "_UNWIND"@)
}

pub open spec fn unreachable_transition_label_spec(function_name: Seq<char>, block: nat) -> Seq<
    char,
> {
    block_transition_label_spec(function_name, block, "_UNREACHABLE"@)
}

/// The transitions of a `Drop`: the drop itself and its unwind variant.
pub open spec fn drop_transition_labels_spec(function_name: Seq<char>, block: nat) -> (
    Seq<char>,
    Seq<char>,
) {
    (
        block_transition_label_spec(function_name, block, "_DROP"@),
        block_transition_label_spec(function_name, block, "_DROP_UNWIND"@),
    )
}

/// The transitions of an `Assert`: the condition holds, or it fails.
pub open spec fn assert_transition_labels_spec(function_name: Seq<char>, block: nat) -> (
    Seq<char>,
    Seq<char>,
) {
    (
        block_transition_label_spec(function_name, block, "_ASSERT"@),
        block_transition_label_spec(function_name, block, "_ASSERT_CLEANUP"@),
    )
}

/// Label of the place of a basic block.
pub fn block_place_label(function_name: &str, block: usize) -> (label: String)
    ensures
        label@ == block_place_label_spec(function_name@, block as nat),
{
    sanitize(function_name).concat("_BB").concat(decimal(block).as_str())
}

fn block_transition_label(function_name: &str, block: usize, kind: &str) -> (label: String)
    ensures
        label@ == block_transition_label_spec(function_name@, block as nat, kind@),
{
    block_place_label(function_name, block).concat(kind)
}

/// Label of the transition of a `Goto`.
pub fn goto_transition_label(function_name: &str, block: usize) -> (label: String)
    ensures
        label@ == goto_transition_label_spec(function_name@, block as nat),
{
    block_transition_label(function_name, block, "_GOTO")
}

/// Label of the transition from a `SwitchInt` to one of its targets.
pub fn switch_int_transition_label(function_name: &str, block: usize, branch: usize) -> (label:
    String)
    ensures
        label@ == switch_int_transition_label_spec(function_name@, block as nat, branch as nat),
{
    block_transition_label(function_name, block, "_SWITCH_").concat(decimal(branch).as_str())
}

/// Label of the transition of a `Resume` or an `Abort`.
pub fn unwind_transition_label(function_name: &str, block: usize) -> (label: String)
    ensures
        label@ == unwind_transition_label_spec(function_name@, block as nat),
{
    block_transition_label(function_name, block, "_UNWIND")
}

/// Label of the transition of an `Unreachable`.
pub fn unreachable_transition_label(function_name: &str, block: usize) -> (label: String)
    ensures
        label@ == unreachable_transition_label_spec(function_name@, block as nat),
{
    block_transition_label(function_name, block, "_UNREACHABLE")
}

/// Labels of the transitions of a `Drop`.
pub fn drop_transition_labels(function_name: &str, block: usize) -> (labels: (String, String))
    ensures
        labels.0@ == drop_transition_labels_spec(function_name@, block as nat).0,
        labels.1@ == drop_transition_labels_spec(function_name@, block as nat).1,
{
    (
        block_transition_label(function_name, block, "_DROP"),
        block_transition_label(function_name, block, "_DROP_UNWIND"),
    )
}

/// Labels of the transitions of an `Assert`.
pub fn assert_transition_labels(function_name: &str, block: usize) -> (labels: (String, String))
    ensures
        labels.0@ == assert_transition_labels_spec(function_name@, block as nat).0,
        labels.1@ == assert_transition_labels_spec(function_name@, block as nat).1,
{
    (
        block_transition_label(function_name, block, "_ASSERT"),
        block_transition_label(function_name, block, "_ASSERT_CLEANUP"),
    )
}

} // verus!
