//! Representation of a condition variable in the net.
//!
//! A condition variable is modelled by four places and two transitions:
//!
//! ```dot
//! digraph condvar {
//!     lost_signal_possible [shape="circle" xlabel="lost_signal_possible" label="•"];
//!     signal_input [shape="circle" xlabel="signal_input" label=""];
//!     wait_input [shape="circle" xlabel="wait_input" label=""];
//!     signal_output [shape="circle" xlabel="signal_output" label=""];
//!     lost_signal_transition [shape="box" xlabel="" label="lost_signal_transition"];
//!     signal_transition [shape="box" xlabel="" label="signal_transition"];
//!     lost_signal_possible -> lost_signal_transition;
//!     signal_input -> lost_signal_transition;
//!     lost_signal_transition -> lost_signal_possible;
//!     signal_input -> signal_transition;
//!     wait_input -> signal_transition;
//!     signal_transition -> signal_output;
//!     signal_transition -> lost_signal_possible;
//! }
//! ```
//!
//! The two transitions are in conflict. While no thread waits, a token in
//! `signal_input` can only be taken by `lost_signal_transition`: the signal is
//! lost. A thread that starts to wait takes the token from
//! `lost_signal_possible`, so that the next signal can only fire
//! `signal_transition`, which puts a token on `signal_output` and lets the
//! waiting thread go on.

use crate::error_handling::TranslationError;
use crate::naming::condvar::{
    place_labels, place_labels_spec, transition_labels, transition_labels_spec,
};
use crate::net_model::{Label, NetModel};
use crate::petri_net_interface::{outcome_matches, place_label, transition_label, Net};
use netcrab::petri_net::{PlaceRef, TransitionRef};
use vstd::prelude::*;
use vstd::string::*;

verus! {

/// A condition variable: the places of its model to which calls are linked.
pub struct Condvar {
    pub lost_signal_possible: PlaceRef,
    pub signal_input: PlaceRef,
    pub wait_input: PlaceRef,
    pub signal_output: PlaceRef,
}

/// The labels of the places of a condition variable.
pub struct CondvarModel {
    pub lost_signal_possible: Label,
    pub signal_input: Label,
    pub wait_input: Label,
    pub signal_output: Label,
}

impl CondvarModel {
    /// The condition variable with the given index.
    pub open spec fn of_index(index: nat) -> CondvarModel {
        CondvarModel {
            lost_signal_possible: place_labels_spec(index).0,
            signal_input: place_labels_spec(index).1,
            wait_input: place_labels_spec(index).2,
            signal_output: place_labels_spec(index).3,
        }
    }

    /// The net after the model of the condition variable with the given
    /// index was added: four places, one token on `lost_signal_possible`,
    /// two transitions and seven arcs.
    pub open spec fn add_to(net: NetModel, index: nat) -> NetModel {
        let places = place_labels_spec(index);
        let transitions = transition_labels_spec(index);
        net.add_place(places.0).add_place(places.1).add_place(places.2).add_place(
            places.3,
        ).add_tokens(places.0, 1).add_transition(transitions.0).add_transition(
            transitions.1,
        ).add_input(places.0, transitions.0).add_input(places.1, transitions.0).add_input(
            places.2,
            transitions.1,
        ).add_input(places.1, transitions.1).add_output(transitions.0, places.0).add_output(
            transitions.1,
            places.0,
        ).add_output(transitions.1, places.3)
    }

    /// The net after a call to `wait` was linked: the start of the wait takes
    /// the token from `lost_signal_possible` and puts one on `wait_input`;
    /// the end of the wait takes the token from `signal_output`.
    pub open spec fn link_to_wait_call(
        self,
        net: NetModel,
        wait_start: Label,
        wait_end: Label,
    ) -> NetModel {
        net.add_input(self.lost_signal_possible, wait_start).add_output(
            wait_start,
            self.wait_input,
        ).add_input(self.signal_output, wait_end)
    }

    /// The net after a call to `notify_one` was linked: the call puts a token on `signal_input`.
    pub open spec fn link_to_notify_one_call(self, net: NetModel, notify: Label) -> NetModel {
        net.add_output(notify, self.signal_input)
    }
}

impl View for Condvar {
    type V = CondvarModel;

    open spec fn view(&self) -> CondvarModel {
        CondvarModel {
            lost_signal_possible: place_label(self.lost_signal_possible),
            signal_input: place_label(self.signal_input),
            wait_input: place_label(self.wait_input),
            signal_output: place_label(self.signal_output),
        }
    }
}

impl Condvar {
    /// Whether the places of the condition variable are places of the net.
    pub open spec fn wf(&self, net: Net) -> bool {
        &&& net.has_place(self.lost_signal_possible)
        &&& net.has_place(self.signal_input)
        &&& net.has_place(self.wait_input)
        &&& net.has_place(self.signal_output)
    }

    /// Creates a new condition variable whose labels are based on `index`.
    /// Adds its model to the net (4 places and 2 transitions).
    pub fn new(index: usize, net: &mut Net) -> (condvar: Result<Condvar, TranslationError>)
        requires
            old(net).wf(),
        ensures
            final(net).wf(),
            final(net).extends(*old(net)),
            outcome_matches(condvar, *final(net), CondvarModel::add_to(old(net)@, index as nat)),
            condvar is Ok ==> condvar->Ok_0.wf(*final(net)),
            condvar is Ok ==> condvar->Ok_0@ == CondvarModel::of_index(index as nat),
            condvar is Ok ==> final(net)@.advances(old(net)@),
            condvar is Ok ==> condvar->Ok_0@.is_wired_in(
                final(net)@,
                transition_labels_spec(index as nat),
            ) && condvar->Ok_0@.has_no_waiter_in(
                final(net)@,
                transition_labels_spec(index as nat),
            ),
            condvar is Ok ==> final(net)@.places[condvar->Ok_0@.lost_signal_possible] == 1
                && final(net)@.places[condvar->Ok_0@.signal_input] == 0
                && final(net)@.places[condvar->Ok_0@.wait_input] == 0
                && final(net)@.places[condvar->Ok_0@.signal_output] == 0,
    {
        let ghost before = net@;
        proof {
            net.lemma_closed();
        }
        let (possible, input, waiting, output) = place_labels(index);
        let lost_signal_possible = net.add_place(possible.as_str())?;
        let signal_input = net.add_place(input.as_str())?;
        let wait_input = net.add_place(waiting.as_str())?;
        let signal_output = net.add_place(output.as_str())?;

        net.add_token(&lost_signal_possible, 1)?;

        let (lost, signal) = transition_labels(index);
        let lost_signal_transition = net.add_transition(lost.as_str())?;
        let signal_transition = net.add_transition(signal.as_str())?;

        net.add_arc_place_transition(&lost_signal_possible, &lost_signal_transition)?;
        net.add_arc_place_transition(&signal_input, &lost_signal_transition)?;
        net.add_arc_place_transition(&wait_input, &signal_transition)?;
        net.add_arc_place_transition(&signal_input, &signal_transition)?;

        net.add_arc_transition_place(&lost_signal_transition, &lost_signal_possible)?;
        net.add_arc_transition_place(&signal_transition, &lost_signal_possible)?;
        net.add_arc_transition_place(&signal_transition, &signal_output)?;

        proof {
            net.lemma_view();
            CondvarModel::lemma_new_condvar_is_wired(before, index as nat);
        }
        Ok(Condvar { lost_signal_possible, signal_input, wait_input, signal_output })
    }

    /// Links the model of the condition variable to the transitions of a call
    /// to `std::sync::Condvar::wait`.
    /// Connects the `lost_signal_possible` place to the `wait_start_transition` transition.
    /// Connects the `wait_start_transition` transition to the `wait_input` place.
    /// Connects the `signal_output` place to the `wait_end_transition` transition.
    pub fn link_to_wait_call(
        &self,
        wait_start_transition: &TransitionRef,
        wait_end_transition: &TransitionRef,
        net: &mut Net,
    ) -> (linked: Result<(), TranslationError>)
        requires
            old(net).wf(),
            self.wf(*old(net)),
            old(net).has_transition(*wait_start_transition),
            old(net).has_transition(*wait_end_transition),
        ensures
            final(net).wf(),
            final(net).extends(*old(net)),
            outcome_matches(
                linked,
                *final(net),
                self@.link_to_wait_call(
                    old(net)@,
                    transition_label(*wait_start_transition),
                    transition_label(*wait_end_transition),
                ),
            ),
    {
        net.add_arc_place_transition(&self.lost_signal_possible, wait_start_transition)?;
        net.add_arc_transition_place(wait_start_transition, &self.wait_input)?;
        net.add_arc_place_transition(&self.signal_output, wait_end_transition)?;
        Ok(())
    }

    /// Links the model of the condition variable to the transition of a call
    /// to `std::sync::Condvar::notify_one`.
    /// Connects the transition to the `signal_input` place.
    pub fn link_to_notify_one_call(&self, signal_transition: &TransitionRef, net: &mut Net) -> (linked:
        Result<(), TranslationError>)
        requires
            old(net).wf(),
            self.wf(*old(net)),
            old(net).has_transition(*signal_transition),
        ensures
            final(net).wf(),
            final(net).extends(*old(net)),
            outcome_matches(
                linked,
                *final(net),
                self@.link_to_notify_one_call(old(net)@, transition_label(*signal_transition)),
            ),
            linked is Ok ==> final(net)@.advances(old(net)@),
            linked is Ok && self@.wait_input != self@.signal_input ==> forall|t: crate::net_model::Label|
                final(net)@.outputs.contains((t, self@.wait_input)) == old(net)@.outputs.contains(
                    (t, self@.wait_input),
                ),
    {
        net.add_arc_transition_place(signal_transition, &self.signal_input)?;
        Ok(())
    }
}

} // verus!
