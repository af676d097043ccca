//! Central structure to keep track of the condition variables in the code.
//!
//! The `CondvarManager` stores the condition variables discovered so far in the code.
//! It also performs the translation for each condition variable function.

use crate::error_handling::{InternalDefect, TranslationError};
use crate::naming::condvar::{
    new_transition_labels, new_transition_labels_spec, notify_one_transition_labels,
    notify_one_transition_labels_spec, wait_transition_labels, wait_transition_labels_spec,
};
use crate::net_model::{Label, NetModel};
use crate::petri_net_interface::{outcome_matches, transition_label, Net};
use crate::program::{Operand, Place};
use crate::translator::function_call::{FunctionPlaces, FunctionPlacesModel};
use crate::translator::mir_function::memory::{Memory, MemoryModel, Value};
use crate::translator::special_function::{call_foreign_function, call_foreign_function_spec};
use crate::translator::sync::condvar::{Condvar, CondvarModel};
use crate::translator::sync::mutex_manager::{
    counter_overflow, missing_argument, stale_handle, MutexManager, MutexManagerModel,
};
use crate::utils::{extract_nth_argument, nth_argument_spec};
use netcrab::petri_net::TransitionRef;
use vstd::prelude::*;

verus! {

/// The condition variables found so far and the numbers of calls to `wait`
/// and to `notify_one` translated so far.
pub struct CondvarManager {
    pub condvars: Vec<Condvar>,
    pub wait_counter: usize,
    pub notify_one_counter: usize,
}

/// A condition variable, named by its index in the list of those found so far.
#[derive(Clone, Copy, Debug, PartialEq, Eq)]
pub struct CondvarRef(pub usize);

/// The state of a `CondvarManager`.
pub struct CondvarManagerModel {
    pub count: nat,
    pub wait_counter: nat,
    pub notify_one_counter: nat,
}

/// The net after the transitions of a call to `wait` were added: one that
/// starts the wait at the start place, one that ends it at the end place and,
/// where the call has a cleanup place, one from the start place to it.
pub open spec fn create_wait_function_call_spec(
    net: NetModel,
    places: FunctionPlacesModel,
    labels: (Label, Label, Label),
) -> NetModel {
    let waiting = net.add_transition(labels.0).add_input(places.start, labels.0).add_transition(
        labels.1,
    ).add_output(labels.1, places.end);
    match places.cleanup {
        Some(cleanup) => waiting.add_step(places.start, labels.2, cleanup),
        None => waiting,
    }
}

impl CondvarManagerModel {
    /// The net after a call to `std::sync::Condvar::new`.
    pub open spec fn translate_call_new(
        self,
        net: NetModel,
        places: FunctionPlacesModel,
    ) -> NetModel {
        call_foreign_function_spec(net, places, new_transition_labels_spec(self.count))
    }

    /// The net after a call to `std::sync::Condvar::wait`.
    pub open spec fn translate_call_wait(
        self,
        net: NetModel,
        places: FunctionPlacesModel,
    ) -> NetModel {
        if self.wait_counter >= usize::MAX {
            net.fail(counter_overflow())
        } else {
            create_wait_function_call_spec(
                net,
                places,
                wait_transition_labels_spec(self.wait_counter),
            )
        }
    }

    /// The net after a call to `std::sync::Condvar::notify_one`.
    pub open spec fn translate_call_notify_one(
        self,
        net: NetModel,
        places: FunctionPlacesModel,
    ) -> NetModel {
        if self.notify_one_counter >= usize::MAX {
            net.fail(counter_overflow())
        } else {
            call_foreign_function_spec(
                net,
                places,
                notify_one_transition_labels_spec(self.notify_one_counter),
            )
        }
    }

    /// The net after a call to `wait` was linked to a condition variable.
    pub open spec fn link_to_wait_call(
        self,
        net: NetModel,
        condvar_ref: CondvarRef,
        wait_start: Label,
        wait_end: Label,
    ) -> NetModel {
        if condvar_ref.0 < self.count {
            CondvarModel::of_index(condvar_ref.0 as nat).link_to_wait_call(
                net,
                wait_start,
                wait_end,
            )
        } else {
            net.fail(stale_handle())
        }
    }

    /// The net after a call to `notify_one` was linked to a condition variable.
    pub open spec fn link_to_notify_one_call(
        self,
        net: NetModel,
        condvar_ref: CondvarRef,
        notify: Label,
    ) -> NetModel {
        if condvar_ref.0 < self.count {
            CondvarModel::of_index(condvar_ref.0 as nat).link_to_notify_one_call(net, notify)
        } else {
            net.fail(stale_handle())
        }
    }

    /// The net and the memory after the side effects of `std::sync::Condvar::new`:
    /// a new condition variable is in the net and the return value denotes it.
    pub open spec fn translate_side_effects_new(
        self,
        net: NetModel,
        memory: MemoryModel,
        return_value: Place,
    ) -> (NetModel, MemoryModel) {
        let added = CondvarModel::add_to(net, self.count);
        match memory.bind(
            return_value.local as int,
            Value::Condvar(CondvarRef(self.count as usize)),
        ) {
            Ok(bound) => (added, bound),
            Err(e) => (added.fail(e), memory),
        }
    }

    /// The net after the side effects of `std::sync::Condvar::wait`. The
    /// second argument denotes the guard of a mutex: the start of the wait
    /// unlocks that mutex and the end of the wait locks it again. The first
    /// argument denotes the condition variable, to which the wait is linked.
    pub open spec fn translate_side_effects_wait(
        self,
        net: NetModel,
        mutexes: MutexManagerModel,
        memory: MemoryModel,
        args: Seq<Operand>,
        wait_start: Label,
        wait_end: Label,
    ) -> NetModel {
        match nth_argument_spec(args, 1) {
            None => net.fail(missing_argument()),
            Some(lock_guard) => match memory.linked_lock_guard(lock_guard.local as int) {
                Err(e) => net.fail(e),
                Ok(mutex_ref) => {
                    let unlocked = mutexes.add_unlock_guard(net, mutex_ref, wait_start);
                    let locked = mutexes.add_lock_guard(unlocked, mutex_ref, wait_end);
                    match nth_argument_spec(args, 0) {
                        None => locked.fail(missing_argument()),
                        Some(receiver) => match memory.linked_condvar(receiver.local as int) {
                            Err(e) => locked.fail(e),
                            Ok(condvar_ref) => self.link_to_wait_call(
                                locked,
                                condvar_ref,
                                wait_start,
                                wait_end,
                            ),
                        },
                    }
                },
            },
        }
    }

    /// The net after the side effects of `std::sync::Condvar::notify_one`:
    /// the call is linked to the condition variable that its first argument denotes.
    pub open spec fn translate_side_effects_notify_one(
        self,
        net: NetModel,
        memory: MemoryModel,
        args: Seq<Operand>,
        notify: Label,
    ) -> NetModel {
        match nth_argument_spec(args, 0) {
            None => net.fail(missing_argument()),
            Some(receiver) => match memory.linked_condvar(receiver.local as int) {
                Err(e) => net.fail(e),
                Ok(condvar_ref) => self.link_to_notify_one_call(net, condvar_ref, notify),
            },
        }
    }
}

impl View for CondvarManager {
    type V = CondvarManagerModel;

    open spec fn view(&self) -> CondvarManagerModel {
        CondvarManagerModel {
            count: self.condvars@.len(),
            wait_counter: self.wait_counter as nat,
            notify_one_counter: self.notify_one_counter as nat,
        }
    }
}

impl CondvarManager {
    /// Whether every condition variable has its places in the net, under the
    /// labels of its index.
    pub open spec fn wf(&self, net: Net) -> bool {
        forall|i: int|
            0 <= i < self.condvars@.len() ==> (#[trigger] self.condvars@[i]).wf(net)
                && self.condvars@[i]@ == CondvarModel::of_index(i as nat)
    }

    /// Returns a new empty `CondvarManager`.
    pub fn new() -> (manager: CondvarManager)
        ensures
            manager@ == (CondvarManagerModel { count: 0, wait_counter: 0, notify_one_counter: 0 }),
            forall|net: Net| manager.wf(net),
    {
        CondvarManager { condvars: Vec::new(), wait_counter: 0, notify_one_counter: 0 }
    }

    /// Translates a call to `std::sync::Condvar::new` using
    /// the same representation as for a foreign function.
    /// The labelling follows the numbering of the labels of the condition variables.
    /// Returns the transition that represents the function call.
    pub fn translate_call_new(&self, function_call_places: &FunctionPlaces, net: &mut Net) -> (transition:
        Result<TransitionRef, TranslationError>)
        requires
            old(net).wf(),
            function_call_places.wf(*old(net)),
        ensures
            final(net).wf(),
            final(net).extends(*old(net)),
            outcome_matches(
                transition,
                *final(net),
                self@.translate_call_new(old(net)@, function_call_places@),
            ),
            transition is Ok ==> final(net).has_transition(transition->Ok_0),
            transition is Ok ==> transition_label(transition->Ok_0) == new_transition_labels_spec(
                self@.count,
            ).0,
    {
        let index = self.condvars.len();
        call_foreign_function(function_call_places, &new_transition_labels(index), net)
    }

    /// Translates a call to `std::sync::Condvar::wait` using
    /// a representation specific to this function.
    /// A separate counter is incremented every time that
    /// the function is called to generate a unique label.
    /// Returns the pair of transitions that represent the function call.
    pub fn translate_call_wait(&mut self, function_call_places: &FunctionPlaces, net: &mut Net) -> (transitions:
        Result<(TransitionRef, TransitionRef), TranslationError>)
        requires
            old(net).wf(),
            function_call_places.wf(*old(net)),
        ensures
            final(net).wf(),
            final(net).extends(*old(net)),
            final(self).condvars == old(self).condvars,
            final(self).notify_one_counter == old(self).notify_one_counter,
            outcome_matches(
                transitions,
                *final(net),
                old(self)@.translate_call_wait(old(net)@, function_call_places@),
            ),
            transitions is Ok ==> final(self)@.wait_counter == old(self)@.wait_counter + 1,
            transitions is Ok ==> final(net).has_transition(transitions->Ok_0.0),
            transitions is Ok ==> final(net).has_transition(transitions->Ok_0.1),
            transitions is Ok ==> transition_label(transitions->Ok_0.0)
                == wait_transition_labels_spec(old(self)@.wait_counter).0,
            transitions is Ok ==> transition_label(transitions->Ok_0.1)
                == wait_transition_labels_spec(old(self)@.wait_counter).1,
    {
        let index = self.wait_counter;
        if index == usize::MAX {
            proof {
                net.lemma_view();
            }
            return Err(TranslationError::Internal(InternalDefect::CounterOverflow));
        }
        self.wait_counter = index + 1;
        Self::create_wait_function_call(function_call_places, &wait_transition_labels(index), net)
    }

    /// Translates a call to `std::sync::Condvar::notify_one` using
    /// the same representation as for a foreign function.
    /// A separate counter is incremented every time that
    /// the function is called to generate a unique label.
    /// Returns the transition that represents the function call.
    pub fn translate_call_notify_one(
        &mut self,
        function_call_places: &FunctionPlaces,
        net: &mut Net,
    ) -> (transition: Result<TransitionRef, TranslationError>)
        requires
            old(net).wf(),
            function_call_places.wf(*old(net)),
        ensures
            final(net).wf(),
            final(net).extends(*old(net)),
            final(self).condvars == old(self).condvars,
            final(self).wait_counter == old(self).wait_counter,
            outcome_matches(
                transition,
                *final(net),
                old(self)@.translate_call_notify_one(old(net)@, function_call_places@),
            ),
            transition is Ok ==> final(self)@.notify_one_counter == old(self)@.notify_one_counter
                + 1,
            transition is Ok ==> final(net).has_transition(transition->Ok_0),
            transition is Ok ==> transition_label(transition->Ok_0)
                == notify_one_transition_labels_spec(old(self)@.notify_one_counter).0,
    {
        let index = self.notify_one_counter;
        if index == usize::MAX {
            proof {
                net.lemma_view();
            }
            return Err(TranslationError::Internal(InternalDefect::CounterOverflow));
        }
        self.notify_one_counter = index + 1;
        call_foreign_function(function_call_places, &notify_one_transition_labels(index), net)
    }

    /// Translates the side effects for `std::sync::Condvar::new` i.e.,
    /// the specific logic of creating a new condition variable.
    /// Receives a reference to the memory of the caller function to
    /// link the return local variable to the new condition variable.
    pub fn translate_side_effects_new(
        &mut self,
        return_value: &Place,
        net: &mut Net,
        memory: &mut Memory,
    ) -> (done: Result<(), TranslationError>)
        requires
            old(net).wf(),
            old(self).wf(*old(net)),
        ensures
            final(net).wf(),
            final(net).extends(*old(net)),
            final(self).wf(*final(net)),
            final(self)@.wait_counter == old(self)@.wait_counter,
            final(self)@.notify_one_counter == old(self)@.notify_one_counter,
            outcome_matches(
                done,
                *final(net),
                old(self)@.translate_side_effects_new(old(net)@, old(memory)@, *return_value).0,
            ),
            done is Ok ==> final(memory)@ == old(self)@.translate_side_effects_new(
                old(net)@,
                old(memory)@,
                *return_value,
            ).1,
            done is Ok ==> final(self)@.count == old(self)@.count + 1,
    {
        let condvar_ref = self.add_condvar(net)?;
        proof {
            net.lemma_view();
        }
        // The return value contains a new condition variable. Link the local variable to it.
        memory.link_place_to_condvar(return_value.local, condvar_ref)?;
        Ok(())
    }

    /// Translates the side effects for `std::sync::Condvar::wait` i.e.,
    /// the specific logic of waiting on a condition variable. The start of
    /// the wait gets the arcs that unlock the mutex and the end of the wait
    /// the arcs that lock it again, so that the net stays balanced for the
    /// places of every mutex.
    /// Receives a reference to the memory of the caller function to retrieve the lock guard
    /// contained in the local variable for the call.
    pub fn translate_side_effects_wait(
        &self,
        args: &Vec<Operand>,
        wait_transitions: &(TransitionRef, TransitionRef),
        net: &mut Net,
        mutex_manager: &MutexManager,
        memory: &Memory,
    ) -> (done: Result<(), TranslationError>)
        requires
            old(net).wf(),
            self.wf(*old(net)),
            mutex_manager.wf(*old(net)),
            old(net).has_transition(wait_transitions.0),
            old(net).has_transition(wait_transitions.1),
        ensures
            final(net).wf(),
            final(net).extends(*old(net)),
            outcome_matches(
                done,
                *final(net),
                self@.translate_side_effects_wait(
                    old(net)@,
                    mutex_manager@,
                    memory@,
                    args@,
                    transition_label(wait_transitions.0),
                    transition_label(wait_transitions.1),
                ),
            ),
            done is Ok ==> final(net)@.keeps_guards(old(net)@),
    {
        proof {
            crate::translator::guards::lemma_side_effects_wait_keep_guards(
                crate::translator::sync::SyncModel {
                    mutexes: mutex_manager@,
                    condvars: self@,
                    threads: crate::translator::sync::thread_manager::ThreadManagerModel {
                        join_transitions: Seq::empty(),
                        join_counter: 0,
                    },
                },
                net@,
                memory@,
                args@,
                transition_label(wait_transitions.0),
                transition_label(wait_transitions.1),
            );
        }
        proof {
            net.lemma_view();
        }
        // Retrieve the lock guard from the local variable passed to the function as an argument.
        let lock_guard = extract_nth_argument(args, 1)?;
        let mutex_ref = memory.get_linked_lock_guard(lock_guard.local)?;
        // Unlock the mutex when waiting, lock it when the waiting ends.
        mutex_manager.add_unlock_guard(mutex_ref, &wait_transitions.0, net)?;
        mutex_manager.add_lock_guard(mutex_ref, &wait_transitions.1, net)?;
        proof {
            net.lemma_view();
        }
        // Retrieve the condvar from the local variable passed to the function as an argument.
        let self_ref = extract_nth_argument(args, 0)?;
        let condvar_ref = memory.get_linked_condvar(self_ref.local)?;
        self.link_to_wait_call(condvar_ref, wait_transitions, net)
    }

    /// Translates the side effects for `std::sync::Condvar::notify_one` i.e.,
    /// the specific logic of notifying a thread waiting on a condition variable.
    /// Receives a reference to the memory of the caller function to retrieve the condition variable
    /// contained in the local variable for the call.
    pub fn translate_side_effects_notify_one(
        &self,
        args: &Vec<Operand>,
        notify_one_transition: &TransitionRef,
        net: &mut Net,
        memory: &Memory,
    ) -> (done: Result<(), TranslationError>)
        requires
            old(net).wf(),
            self.wf(*old(net)),
            old(net).has_transition(*notify_one_transition),
        ensures
            final(net).wf(),
            final(net).extends(*old(net)),
            outcome_matches(
                done,
                *final(net),
                self@.translate_side_effects_notify_one(
                    old(net)@,
                    memory@,
                    args@,
                    transition_label(*notify_one_transition),
                ),
            ),
    {
        proof {
            net.lemma_view();
        }
        // Retrieve the condvar from the local variable passed to the function as an argument.
        let self_ref = extract_nth_argument(args, 0)?;
        let condvar_ref = memory.get_linked_condvar(self_ref.local)?;
        self.link_to_notify_one_call(condvar_ref, notify_one_transition, net)
    }

    /// Adds a new condition variable and creates its corresponding representation in the net.
    /// Returns a reference to the new condition variable.
    fn add_condvar(&mut self, net: &mut Net) -> (condvar_ref: Result<CondvarRef, TranslationError>)
        requires
            old(net).wf(),
            old(self).wf(*old(net)),
        ensures
            final(net).wf(),
            final(net).extends(*old(net)),
            final(self).wf(*final(net)),
            final(self)@.wait_counter == old(self)@.wait_counter,
            final(self)@.notify_one_counter == old(self)@.notify_one_counter,
            outcome_matches(
                condvar_ref,
                *final(net),
                CondvarModel::add_to(old(net)@, old(self)@.count),
            ),
            condvar_ref is Ok ==> condvar_ref->Ok_0 == CondvarRef(old(self)@.count as usize),
            condvar_ref is Ok ==> final(self)@.count == old(self)@.count + 1,
            condvar_ref is Err ==> final(self)@ == old(self)@,
    {
        let index = self.condvars.len();
        let condvar = Condvar::new(index, net)?;
        self.condvars.push(condvar);
        Ok(CondvarRef(index))
    }

    /// Creates a new representation for a call to `std::sync::Condvar::wait`.
    /// - Start place connected to a new "wait start" transition.
    /// - End place connected to a new "wait end" transition.
    /// Returns the pair of two transitions.
    fn create_wait_function_call(
        function_call_places: &FunctionPlaces,
        transition_labels: &(String, String, String),
        net: &mut Net,
    ) -> (transitions: Result<(TransitionRef, TransitionRef), TranslationError>)
        requires
            old(net).wf(),
            function_call_places.wf(*old(net)),
        ensures
            final(net).wf(),
            final(net).extends(*old(net)),
            outcome_matches(
                transitions,
                *final(net),
                create_wait_function_call_spec(
                    old(net)@,
                    function_call_places@,
                    (transition_labels.0@, transition_labels.1@, transition_labels.2@),
                ),
            ),
            transitions is Ok ==> final(net).has_transition(transitions->Ok_0.0),
            transitions is Ok ==> final(net).has_transition(transitions->Ok_0.1),
            transitions is Ok ==> transition_label(transitions->Ok_0.0) == transition_labels.0@,
            transitions is Ok ==> transition_label(transitions->Ok_0.1) == transition_labels.1@,
    {
        let wait_start_transition = net.add_transition(transition_labels.0.as_str())?;
        net.add_arc_place_transition(&function_call_places.start_place, &wait_start_transition)?;

        let wait_end_transition = net.add_transition(transition_labels.1.as_str())?;
        net.add_arc_transition_place(&wait_end_transition, &function_call_places.end_place)?;

        match &function_call_places.cleanup_place {
            Some(cleanup_place) => {
                net.add_step(
                    &function_call_places.start_place,
                    transition_labels.2.as_str(),
                    cleanup_place,
                )?;
            },
            None => {},
        }

        Ok((wait_start_transition, wait_end_transition))
    }

    /// Links the condition variable to the representation of
    /// a call to `std::sync::Condvar::wait`.
    fn link_to_wait_call(
        &self,
        condvar_ref: CondvarRef,
        wait_transitions: &(TransitionRef, TransitionRef),
        net: &mut Net,
    ) -> (linked: Result<(), TranslationError>)
        requires
            old(net).wf(),
            self.wf(*old(net)),
            old(net).has_transition(wait_transitions.0),
            old(net).has_transition(wait_transitions.1),
        ensures
            final(net).wf(),
            final(net).extends(*old(net)),
            outcome_matches(
                linked,
                *final(net),
                self@.link_to_wait_call(
                    old(net)@,
                    condvar_ref,
                    transition_label(wait_transitions.0),
                    transition_label(wait_transitions.1),
                ),
            ),
    {
        proof {
            net.lemma_view();
        }
        let condvar = self.get_condvar_from_ref(condvar_ref)?;
        condvar.link_to_wait_call(&wait_transitions.0, &wait_transitions.1, net)
    }

    /// Links the condition variable to the representation of
    /// a call to `std::sync::Condvar::notify_one`.
    fn link_to_notify_one_call(
        &self,
        condvar_ref: CondvarRef,
        signal_transition: &TransitionRef,
        net: &mut Net,
    ) -> (linked: Result<(), TranslationError>)
        requires
            old(net).wf(),
            self.wf(*old(net)),
            old(net).has_transition(*signal_transition),
        ensures
            final(net).wf(),
            final(net).extends(*old(net)),
            outcome_matches(
                linked,
                *final(net),
                self@.link_to_notify_one_call(
                    old(net)@,
                    condvar_ref,
                    transition_label(*signal_transition),
                ),
            ),
    {
        proof {
            net.lemma_view();
        }
        let condvar = self.get_condvar_from_ref(condvar_ref)?;
        condvar.link_to_notify_one_call(signal_transition, net)
    }

    /// Get the condition variable corresponding to the condvar reference.
    ///
    /// A reference that names no condition variable is reported as a defect.
    pub fn get_condvar_from_ref(&self, condvar_ref: CondvarRef) -> (condvar: Result<
        &Condvar,
        TranslationError,
    >)
        ensures
            condvar is Ok <==> condvar_ref.0 < self@.count,
            condvar is Ok ==> *condvar->Ok_0 == self.condvars@[condvar_ref.0 as int],
            condvar is Err ==> condvar->Err_0 == stale_handle(),
    {
        if condvar_ref.0 < self.condvars.len() {
            Ok(&self.condvars[condvar_ref.0])
        } else {
            Err(TranslationError::Internal(InternalDefect::StaleHandle))
        }
    }
}

} // verus!
