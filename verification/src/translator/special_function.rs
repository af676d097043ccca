//! The translation of calls to functions that are not entered: foreign
//! functions, functions that do not return, and functions that panic.

use crate::error_handling::TranslationError;
use crate::naming::function::{
    diverging_call_transition_label, diverging_call_transition_label_spec, panic_transition_label,
    panic_transition_label_spec,
};
use crate::net_model::{Label, NetModel};
use crate::petri_net_interface::{outcome_matches, place_label, transition_label, Net};
use netcrab::petri_net::{PlaceRef, TransitionRef};
use crate::translator::function_call::{FunctionPlaces, FunctionPlacesModel};
use vstd::prelude::*;
use vstd::string::*;

verus! {

/// Whether a call of the function starts a panic.
pub open spec fn is_panic_function_spec(function_name: Seq<char>) -> bool {
    ||| function_name == "core::panicking::assert_failed"@
    ||| function_name == "core::panicking::panic"@
    ||| function_name == "core::panicking::panic_fmt"@
    ||| function_name == "std::rt::begin_panic"@
    ||| function_name == "std::rt::begin_panic_fmt"@
}

/// Checks whether the function name is that of one of the functions that start a panic.
pub fn is_panic_function(function_name: &str) -> (panics: bool)
    ensures
        panics == is_panic_function_spec(function_name@),
{
    let name = String::from_str(function_name);
    name == String::from_str("core::panicking::assert_failed") || name == String::from_str(
        "core::panicking::panic",
    ) || name == String::from_str("core::panicking::panic_fmt") || name == String::from_str(
        "std::rt::begin_panic",
    ) || name == String::from_str("std::rt::begin_panic_fmt")
}

/// The net after a call to a foreign function: a transition from the start
/// place to the end place and, where the call has a cleanup place, a second
/// transition from the start place to the cleanup place.
pub open spec fn call_foreign_function_spec(
    net: NetModel,
    places: FunctionPlacesModel,
    labels: (Label, Label),
) -> NetModel {
    let called = net.add_step(places.start, labels.0, places.end);
    match places.cleanup {
        Some(cleanup) => called.add_step(places.start, labels.1, cleanup),
        None => called,
    }
}

/// Translates a call to a function that is not entered. Returns the
/// transition that stands for the call.
pub fn call_foreign_function(
    places: &FunctionPlaces,
    labels: &(String, String),
    net: &mut Net,
) -> (transition: Result<TransitionRef, TranslationError>)
    requires
        old(net).wf(),
        places.wf(*old(net)),
    ensures
        final(net).wf(),
        final(net).extends(*old(net)),
        outcome_matches(
            transition,
            *final(net),
            call_foreign_function_spec(old(net)@, places@, (labels.0@, labels.1@)),
        ),
        transition is Ok ==> final(net).has_transition(transition->Ok_0),
        transition is Ok ==> transition_label(transition->Ok_0) == labels.0@,
{
    let transition = net.add_step(&places.start_place, labels.0.as_str(), &places.end_place)?;
    match &places.cleanup_place {
        Some(cleanup_place) => {
            net.add_step(&places.start_place, labels.1.as_str(), cleanup_place)?;
        },
        None => {},
    }
    Ok(transition)
}

/// The net after a call to a function that does not return: the program ends with it.
pub open spec fn call_diverging_function_spec(
    net: NetModel,
    start: Label,
    function_name: Seq<char>,
    program_end: Label,
) -> NetModel {
    net.add_step(start, diverging_call_transition_label_spec(function_name), program_end)
}

/// Translates a call to a function that does not return.
pub fn call_diverging_function(
    start_place: &PlaceRef,
    function_name: &str,
    program_end: &PlaceRef,
    net: &mut Net,
) -> (called: Result<(), TranslationError>)
    requires
        old(net).wf(),
        old(net).has_place(*start_place),
        old(net).has_place(*program_end),
    ensures
        final(net).wf(),
        final(net).extends(*old(net)),
        outcome_matches(
            called,
            *final(net),
            call_diverging_function_spec(
                old(net)@,
                place_label(*start_place),
                function_name@,
                place_label(*program_end),
            ),
        ),
{
    let label = diverging_call_transition_label(function_name);
    net.add_step(start_place, label.as_str(), program_end)?;
    Ok(())
}

/// The net after a call to a function that panics: the program ends in a panic.
pub open spec fn call_panic_function_spec(
    net: NetModel,
    start: Label,
    function_name: Seq<char>,
    program_panic: Label,
) -> NetModel {
    net.add_step(start, panic_transition_label_spec(function_name), program_panic)
}

/// Translates a call to a function that starts a panic.
pub fn call_panic_function(
    start_place: &PlaceRef,
    function_name: &str,
    program_panic: &PlaceRef,
    net: &mut Net,
) -> (called: Result<(), TranslationError>)
    requires
        old(net).wf(),
        old(net).has_place(*start_place),
        old(net).has_place(*program_panic),
    ensures
        final(net).wf(),
        final(net).extends(*old(net)),
        outcome_matches(
            called,
            *final(net),
            call_panic_function_spec(
                old(net)@,
                place_label(*start_place),
                function_name@,
                place_label(*program_panic),
            ),
        ),
{
    let label = panic_transition_label(function_name);
    net.add_step(start_place, label.as_str(), program_panic)?;
    Ok(())
}

} // verus!
