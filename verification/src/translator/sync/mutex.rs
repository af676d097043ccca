//! Representation of a mutex in the net.
//!
//! A mutex is modelled by two places. A token lies on `unlocked` while no
//! thread holds the mutex and on `locked` while one does. Locking takes the
//! token from `unlocked` and puts it on `locked`; unlocking does the reverse.

use crate::error_handling::TranslationError;
use crate::naming::mutex::{place_labels, place_labels_spec};
use crate::net_model::{Label, NetModel};
use crate::petri_net_interface::{outcome_matches, place_label, transition_label, Net};
use netcrab::petri_net::{PlaceRef, TransitionRef};
use vstd::prelude::*;
use vstd::string::*;

verus! {

/// A mutex: the two places of its model.
pub struct Mutex {
    pub unlocked: PlaceRef,
    pub locked: PlaceRef,
}

/// The labels of the places of a mutex.
pub struct MutexModel {
    pub unlocked: Label,
    pub locked: Label,
}

impl MutexModel {
    /// The mutex with the given index.
    pub open spec fn of_index(index: nat) -> MutexModel {
        MutexModel { unlocked: place_labels_spec(index).0, locked: place_labels_spec(index).1 }
    }

    /// The net after the model of the mutex with the given index was added:
    /// its two places, with one token on `unlocked`.
    pub open spec fn add_to(net: NetModel, index: nat) -> NetModel {
        let places = place_labels_spec(index);
        net.add_place(places.0).add_place(places.1).add_tokens(places.0, 1)
    }

    /// The net after a transition was made to lock the mutex.
    pub open spec fn add_lock_guard(self, net: NetModel, transition: Label) -> NetModel {
        net.add_input(self.unlocked, transition).add_output(transition, self.locked)
    }

    /// The net after a transition was made to unlock the mutex.
    pub open spec fn add_unlock_guard(self, net: NetModel, transition: Label) -> NetModel {
        net.add_input(self.locked, transition).add_output(transition, self.unlocked)
    }
}

impl View for Mutex {
    type V = MutexModel;

    open spec fn view(&self) -> MutexModel {
        MutexModel { unlocked: place_label(self.unlocked), locked: place_label(self.locked) }
    }
}

impl Mutex {
    /// Whether the places of the mutex are places of the net.
    pub open spec fn wf(&self, net: Net) -> bool {
        &&& net.has_place(self.unlocked)
        &&& net.has_place(self.locked)
    }

    /// Creates a new mutex whose labels are based on `index`.
    /// Adds its model to the net: two places, the mutex being unlocked.
    pub fn new(index: usize, net: &mut Net) -> (mutex: Result<Mutex, TranslationError>)
        requires
            old(net).wf(),
        ensures
            final(net).wf(),
            final(net).extends(*old(net)),
            outcome_matches(mutex, *final(net), MutexModel::add_to(old(net)@, index as nat)),
            mutex is Ok ==> mutex->Ok_0.wf(*final(net)),
            mutex is Ok ==> mutex->Ok_0@ == MutexModel::of_index(index as nat),
    {
        let (unlocked_label, locked_label) = place_labels(index);
        let unlocked = net.add_place(unlocked_label.as_str())?;
        let locked = net.add_place(locked_label.as_str())?;
        net.add_token(&unlocked, 1)?;
        Ok(Mutex { unlocked, locked })
    }

    /// Makes a transition lock the mutex: it takes the token from `unlocked`
    /// and puts it on `locked`.
    pub fn add_lock_guard(&self, transition: &TransitionRef, net: &mut Net) -> (added: Result<
        (),
        TranslationError,
    >)
        requires
            old(net).wf(),
            self.wf(*old(net)),
            old(net).has_transition(*transition),
        ensures
            final(net).wf(),
            final(net).extends(*old(net)),
            outcome_matches(
                added,
                *final(net),
                self@.add_lock_guard(old(net)@, transition_label(*transition)),
            ),
    {
        net.add_arc_place_transition(&self.unlocked, transition)?;
        net.add_arc_transition_place(transition, &self.locked)?;
        Ok(())
    }

    /// Makes a transition unlock the mutex: it takes the token from `locked`
    /// and puts it on `unlocked`.
    pub fn add_unlock_guard(&self, transition: &TransitionRef, net: &mut Net) -> (added: Result<
        (),
        TranslationError,
    >)
        requires
            old(net).wf(),
            self.wf(*old(net)),
            old(net).has_transition(*transition),
        ensures
            final(net).wf(),
            final(net).extends(*old(net)),
            outcome_matches(
                added,
                *final(net),
                self@.add_unlock_guard(old(net)@, transition_label(*transition)),
            ),
    {
        net.add_arc_place_transition(&self.locked, transition)?;
        net.add_arc_transition_place(transition, &self.unlocked)?;
        Ok(())
    }
}

} // verus!
