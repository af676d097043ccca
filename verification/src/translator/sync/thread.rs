//! Representation of a thread in the net.
//!
//! A thread is modelled by two places: a token lies on the start place when
//! the thread was spawned and on the end place when it has run to its end.
//! The transition of the call that joins the thread takes the token from the
//! end place; it is attached when that call is found.

use crate::error_handling::TranslationError;
use crate::naming::thread::{end_place_label, end_place_label_spec, start_place_label, start_place_label_spec};
use crate::net_model::{Label, NetModel};
use crate::petri_net_interface::{outcome_matches, place_label, transition_label, Net};
use netcrab::petri_net::{PlaceRef, TransitionRef};
use vstd::prelude::*;
use vstd::string::*;

verus! {

/// A thread: the places of its model and the transition that joins it, once known.
pub struct Thread {
    pub start_place: PlaceRef,
    pub end_place: PlaceRef,
    pub join_transition: Option<TransitionRef>,
}

/// The labels of the places of a thread and of the transition that joins it.
pub struct ThreadModel {
    pub start: Label,
    pub end: Label,
    pub join_transition: Option<Label>,
}

impl ThreadModel {
    /// The thread with the given index, joined by the given transition.
    pub open spec fn of_index(index: nat, join_transition: Option<Label>) -> ThreadModel {
        ThreadModel {
            start: start_place_label_spec(index),
            end: end_place_label_spec(index),
            join_transition,
        }
    }

    /// The net after the model of the thread with the given index was added:
    /// its two places, and the arc by which the transition of the spawning
    /// call puts a token on the start place.
    pub open spec fn add_to(net: NetModel, index: nat, spawn_transition: Label) -> NetModel {
        net.add_place(start_place_label_spec(index)).add_place(
            end_place_label_spec(index),
        ).add_output(spawn_transition, start_place_label_spec(index))
    }

    /// The net after the transition of the joining call was attached: it
    /// takes the token from the end place.
    pub open spec fn set_join_transition(self, net: NetModel, join_transition: Label) -> NetModel {
        net.add_input(self.end, join_transition)
    }
}

impl View for Thread {
    type V = ThreadModel;

    open spec fn view(&self) -> ThreadModel {
        ThreadModel {
            start: place_label(self.start_place),
            end: place_label(self.end_place),
            join_transition: match self.join_transition {
                Some(transition) => Some(transition_label(transition)),
                None => None,
            },
        }
    }
}

impl Thread {
    /// Whether the places of the thread and the transition that joins it are in the net.
    pub open spec fn wf(&self, net: Net) -> bool {
        &&& net.has_place(self.start_place)
        &&& net.has_place(self.end_place)
        &&& self.join_transition is Some ==> net.has_transition(self.join_transition->Some_0)
    }

    /// Creates a new thread whose labels are based on `index` and which the
    /// given transition spawns. Adds its model to the net.
    pub fn new(index: usize, spawn_transition: &TransitionRef, net: &mut Net) -> (thread: Result<
        Thread,
        TranslationError,
    >)
        requires
            old(net).wf(),
            old(net).has_transition(*spawn_transition),
        ensures
            final(net).wf(),
            final(net).extends(*old(net)),
            outcome_matches(
                thread,
                *final(net),
                ThreadModel::add_to(old(net)@, index as nat, transition_label(*spawn_transition)),
            ),
            thread is Ok ==> thread->Ok_0.wf(*final(net)),
            thread is Ok ==> thread->Ok_0@ == ThreadModel::of_index(index as nat, None),
    {
        let start_place = net.add_place(start_place_label(index).as_str())?;
        let end_place = net.add_place(end_place_label(index).as_str())?;
        net.add_arc_transition_place(spawn_transition, &start_place)?;
        Ok(Thread { start_place, end_place, join_transition: None })
    }

    /// Attaches the transition of the call that joins the thread: the
    /// transition is enabled only when the thread has reached its end place.
    pub fn set_join_transition(&mut self, join_transition: &TransitionRef, net: &mut Net) -> (attached:
        Result<(), TranslationError>)
        requires
            old(net).wf(),
            old(self).wf(*old(net)),
            old(net).has_transition(*join_transition),
        ensures
            final(net).wf(),
            final(net).extends(*old(net)),
            final(self).wf(*final(net)),
            outcome_matches(
                attached,
                *final(net),
                old(self)@.set_join_transition(old(net)@, transition_label(*join_transition)),
            ),
            attached is Ok ==> final(self)@ == (ThreadModel {
                join_transition: Some(transition_label(*join_transition)),
                ..old(self)@
            }),
            attached is Err ==> final(self)@ == old(self)@,
    {
        net.add_arc_place_transition(&self.end_place, join_transition)?;
        self.join_transition = Some(join_transition.clone());
        Ok(())
    }
}

} // verus!
