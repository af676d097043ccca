//! Central structure to keep track of the mutexes in the code.
//!
//! The `MutexManager` stores the mutexes discovered so far in the code.
//! It also performs the translation for each mutex function.

use crate::error_handling::{InternalDefect, TranslationError};
use crate::naming::mutex::{
    lock_transition_labels, lock_transition_labels_spec, new_transition_labels,
    new_transition_labels_spec,
};
use crate::net_model::{Label, NetModel};
use crate::petri_net_interface::{outcome_matches, transition_label, Net};
use crate::program::{Operand, Place};
use crate::translator::function_call::{FunctionPlaces, FunctionPlacesModel};
use crate::translator::mir_function::memory::{Memory, MemoryModel, Value};
use crate::translator::special_function::{call_foreign_function, call_foreign_function_spec};
use crate::translator::sync::mutex::{Mutex, MutexModel};
use crate::translator::sync::MutexRef;
use crate::utils::{extract_nth_argument, nth_argument_spec};
use netcrab::petri_net::TransitionRef;
use vstd::prelude::*;

verus! {

/// The mutexes found so far and the number of calls to `lock` translated so far.
pub struct MutexManager {
    pub mutexes: Vec<Mutex>,
    pub lock_counter: usize,
}

/// The state of a `MutexManager`: how many mutexes and how many calls to `lock` there were.
pub struct MutexManagerModel {
    pub count: nat,
    pub lock_counter: nat,
}

/// The error of a counter that cannot be incremented.
pub open spec fn counter_overflow() -> TranslationError {
    TranslationError::Internal(InternalDefect::CounterOverflow)
}

/// The error of a handle that names no object.
pub open spec fn stale_handle() -> TranslationError {
    TranslationError::Internal(InternalDefect::StaleHandle)
}

/// The error of a call without the argument that names its receiver.
pub open spec fn missing_argument() -> TranslationError {
    TranslationError::Internal(InternalDefect::MissingArgument)
}

impl MutexManagerModel {
    /// The net after a call to `std::sync::Mutex::<T>::new`.
    pub open spec fn translate_call_new(
        self,
        net: NetModel,
        places: FunctionPlacesModel,
    ) -> NetModel {
        call_foreign_function_spec(net, places, new_transition_labels_spec(self.count))
    }

    /// The net after a call to `std::sync::Mutex::<T>::lock`.
    pub open spec fn translate_call_lock(
        self,
        net: NetModel,
        places: FunctionPlacesModel,
    ) -> NetModel {
        if self.lock_counter >= usize::MAX {
            net.fail(counter_overflow())
        } else {
            call_foreign_function_spec(net, places, lock_transition_labels_spec(self.lock_counter))
        }
    }

    /// The net after a transition was made to lock a mutex.
    pub open spec fn add_lock_guard(
        self,
        net: NetModel,
        mutex_ref: MutexRef,
        transition: Label,
    ) -> NetModel {
        if mutex_ref.0 < self.count {
            MutexModel::of_index(mutex_ref.0 as nat).add_lock_guard(net, transition)
        } else {
            net.fail(stale_handle())
        }
    }

    /// The net after a transition was made to unlock a mutex.
    pub open spec fn add_unlock_guard(
        self,
        net: NetModel,
        mutex_ref: MutexRef,
        transition: Label,
    ) -> NetModel {
        if mutex_ref.0 < self.count {
            MutexModel::of_index(mutex_ref.0 as nat).add_unlock_guard(net, transition)
        } else {
            net.fail(stale_handle())
        }
    }

    /// The net and the memory after the side effects of `std::sync::Mutex::<T>::new`:
    /// a new mutex is in the net and the return value denotes it.
    pub open spec fn translate_side_effects_new(
        self,
        net: NetModel,
        memory: MemoryModel,
        return_value: Place,
    ) -> (NetModel, MemoryModel) {
        let added = MutexModel::add_to(net, self.count);
        match memory.bind(return_value.local as int, Value::Mutex(MutexRef(self.count as usize))) {
            Ok(bound) => (added, bound),
            Err(e) => (added.fail(e), memory),
        }
    }

    /// The net and the memory after the side effects of `std::sync::Mutex::<T>::lock`:
    /// the call locks the mutex that its first argument denotes, and the
    /// return value denotes the guard of that mutex.
    pub open spec fn translate_side_effects_lock(
        self,
        net: NetModel,
        memory: MemoryModel,
        args: Seq<Operand>,
        return_value: Place,
        lock_transition: Label,
    ) -> (NetModel, MemoryModel) {
        match nth_argument_spec(args, 0) {
            None => (net.fail(missing_argument()), memory),
            Some(receiver) => match memory.linked_mutex(receiver.local as int) {
                Err(e) => (net.fail(e), memory),
                Ok(mutex_ref) => {
                    let locked = self.add_lock_guard(net, mutex_ref, lock_transition);
                    match memory.bind(return_value.local as int, Value::MutexGuard(mutex_ref)) {
                        Ok(bound) => (locked, bound),
                        Err(e) => (locked.fail(e), memory),
                    }
                },
            },
        }
    }

    /// The net after a value was dropped by the given transition: if the
    /// value is the guard of a mutex, the transition unlocks that mutex.
    pub open spec fn handle_lock_guard_drop(
        self,
        net: NetModel,
        memory: MemoryModel,
        place: Place,
        drop_transition: Label,
    ) -> NetModel {
        match memory.get(place.local as int) {
            Ok(Value::MutexGuard(mutex_ref)) => self.add_unlock_guard(
                net,
                mutex_ref,
                drop_transition,
            ),
            _ => net,
        }
    }
}

impl View for MutexManager {
    type V = MutexManagerModel;

    open spec fn view(&self) -> MutexManagerModel {
        MutexManagerModel { count: self.mutexes@.len(), lock_counter: self.lock_counter as nat }
    }
}

impl MutexManager {
    /// Whether every mutex has its places in the net, under the labels of its index.
    pub open spec fn wf(&self, net: Net) -> bool {
        forall|i: int|
            0 <= i < self.mutexes@.len() ==> (#[trigger] self.mutexes@[i]).wf(net)
                && self.mutexes@[i]@ == MutexModel::of_index(i as nat)
    }

    /// Returns a new empty `MutexManager`.
    pub fn new() -> (manager: MutexManager)
        ensures
            manager@ == (MutexManagerModel { count: 0, lock_counter: 0 }),
            forall|net: Net| manager.wf(net),
    {
        MutexManager { mutexes: Vec::new(), lock_counter: 0 }
    }

    /// Translates a call to `std::sync::Mutex::<T>::new` as a call to a
    /// foreign function. The label follows the numbering of the mutexes.
    /// Returns the transition that represents the function call.
    pub fn translate_call_new(&self, function_call_places: &FunctionPlaces, net: &mut Net) -> (transition:
        Result<TransitionRef, TranslationError>)
        requires
            old(net).wf(),
            function_call_places.wf(*old(net)),
        ensures
            final(net).wf(),
            final(net).extends(*old(net)),
            outcome_matches(
                transition,
                *final(net),
                self@.translate_call_new(old(net)@, function_call_places@),
            ),
            transition is Ok ==> final(net).has_transition(transition->Ok_0),
            transition is Ok ==> transition_label(transition->Ok_0) == new_transition_labels_spec(
                self@.count,
            ).0,
    {
        let index = self.mutexes.len();
        call_foreign_function(function_call_places, &new_transition_labels(index), net)
    }

    /// Translates a call to `std::sync::Mutex::<T>::lock` as a call to a
    /// foreign function. A separate counter numbers the calls.
    /// Returns the transition that represents the function call.
    pub fn translate_call_lock(&mut self, function_call_places: &FunctionPlaces, net: &mut Net) -> (transition:
        Result<TransitionRef, TranslationError>)
        requires
            old(net).wf(),
            function_call_places.wf(*old(net)),
        ensures
            final(net).wf(),
            final(net).extends(*old(net)),
            final(self).mutexes == old(self).mutexes,
            outcome_matches(
                transition,
                *final(net),
                old(self)@.translate_call_lock(old(net)@, function_call_places@),
            ),
            transition is Ok ==> final(self)@.lock_counter == old(self)@.lock_counter + 1,
            transition is Ok ==> final(net).has_transition(transition->Ok_0),
            transition is Ok ==> transition_label(transition->Ok_0) == lock_transition_labels_spec(
                old(self)@.lock_counter,
            ).0,
    {
        let index = self.lock_counter;
        if index == usize::MAX {
            proof {
                net.lemma_view();
            }
            return Err(TranslationError::Internal(InternalDefect::CounterOverflow));
        }
        self.lock_counter = index + 1;
        call_foreign_function(function_call_places, &lock_transition_labels(index), net)
    }

    /// Get the mutex corresponding to the mutex reference.
    pub fn get_mutex_from_ref(&self, mutex_ref: MutexRef) -> (mutex: Result<&Mutex, TranslationError>)
        ensures
            mutex is Ok <==> mutex_ref.0 < self@.count,
            mutex is Ok ==> *mutex->Ok_0 == self.mutexes@[mutex_ref.0 as int],
            mutex is Err ==> mutex->Err_0 == stale_handle(),
    {
        if mutex_ref.0 < self.mutexes.len() {
            Ok(&self.mutexes[mutex_ref.0])
        } else {
            Err(TranslationError::Internal(InternalDefect::StaleHandle))
        }
    }

    /// Makes a transition lock the mutex.
    pub fn add_lock_guard(&self, mutex_ref: MutexRef, transition: &TransitionRef, net: &mut Net) -> (added:
        Result<(), TranslationError>)
        requires
            old(net).wf(),
            self.wf(*old(net)),
            old(net).has_transition(*transition),
        ensures
            final(net).wf(),
            final(net).extends(*old(net)),
            outcome_matches(
                added,
                *final(net),
                self@.add_lock_guard(old(net)@, mutex_ref, transition_label(*transition)),
            ),
    {
        proof {
            net.lemma_view();
        }
        let mutex = self.get_mutex_from_ref(mutex_ref)?;
        mutex.add_lock_guard(transition, net)
    }

    /// Makes a transition unlock the mutex.
    pub fn add_unlock_guard(&self, mutex_ref: MutexRef, transition: &TransitionRef, net: &mut Net) -> (added:
        Result<(), TranslationError>)
        requires
            old(net).wf(),
            self.wf(*old(net)),
            old(net).has_transition(*transition),
        ensures
            final(net).wf(),
            final(net).extends(*old(net)),
            outcome_matches(
                added,
                *final(net),
                self@.add_unlock_guard(old(net)@, mutex_ref, transition_label(*transition)),
            ),
    {
        proof {
            net.lemma_view();
        }
        let mutex = self.get_mutex_from_ref(mutex_ref)?;
        mutex.add_unlock_guard(transition, net)
    }

    /// Adds a new mutex and creates its model in the net.
    /// Returns a reference to the new mutex.
    fn add_mutex(&mut self, net: &mut Net) -> (mutex_ref: Result<MutexRef, TranslationError>)
        requires
            old(net).wf(),
            old(self).wf(*old(net)),
        ensures
            final(net).wf(),
            final(net).extends(*old(net)),
            final(self).wf(*final(net)),
            final(self)@.lock_counter == old(self)@.lock_counter,
            outcome_matches(mutex_ref, *final(net), MutexModel::add_to(old(net)@, old(self)@.count)),
            mutex_ref is Ok ==> mutex_ref->Ok_0 == MutexRef(old(self)@.count as usize),
            mutex_ref is Ok ==> final(self)@.count == old(self)@.count + 1,
            mutex_ref is Err ==> final(self)@ == old(self)@,
    {
        let index = self.mutexes.len();
        let mutex = Mutex::new(index, net)?;
        self.mutexes.push(mutex);
        Ok(MutexRef(index))
    }

    /// Translates the side effects of `std::sync::Mutex::<T>::new`: creates
    /// the mutex and lets the return value denote it.
    pub fn translate_side_effects_new(
        &mut self,
        return_value: &Place,
        net: &mut Net,
        memory: &mut Memory,
    ) -> (done: Result<(), TranslationError>)
        requires
            old(net).wf(),
            old(self).wf(*old(net)),
        ensures
            final(net).wf(),
            final(net).extends(*old(net)),
            final(self).wf(*final(net)),
            final(self)@.lock_counter == old(self)@.lock_counter,
            outcome_matches(
                done,
                *final(net),
                old(self)@.translate_side_effects_new(old(net)@, old(memory)@, *return_value).0,
            ),
            done is Ok ==> final(memory)@ == old(self)@.translate_side_effects_new(
                old(net)@,
                old(memory)@,
                *return_value,
            ).1,
            done is Ok ==> final(self)@.count == old(self)@.count + 1,
    {
        let mutex_ref = self.add_mutex(net)?;
        proof {
            net.lemma_view();
        }
        memory.link_place_to_mutex(return_value.local, mutex_ref)?;
        Ok(())
    }

    /// Translates the side effects of `std::sync::Mutex::<T>::lock`: the call
    /// locks the mutex that its first argument denotes, and the return value
    /// denotes the guard.
    pub fn translate_side_effects_lock(
        &self,
        args: &Vec<Operand>,
        return_value: &Place,
        lock_transition: &TransitionRef,
        net: &mut Net,
        memory: &mut Memory,
    ) -> (done: Result<(), TranslationError>)
        requires
            old(net).wf(),
            self.wf(*old(net)),
            old(net).has_transition(*lock_transition),
        ensures
            final(net).wf(),
            final(net).extends(*old(net)),
            outcome_matches(
                done,
                *final(net),
                self@.translate_side_effects_lock(
                    old(net)@,
                    old(memory)@,
                    args@,
                    *return_value,
                    transition_label(*lock_transition),
                ).0,
            ),
            done is Ok ==> final(memory)@ == self@.translate_side_effects_lock(
                old(net)@,
                old(memory)@,
                args@,
                *return_value,
                transition_label(*lock_transition),
            ).1,
    {
        proof {
            net.lemma_view();
        }
        let receiver = extract_nth_argument(args, 0)?;
        let mutex_ref = memory.get_linked_mutex(receiver.local)?;
        self.add_lock_guard(mutex_ref, lock_transition, net)?;
        proof {
            net.lemma_view();
        }
        memory.link_place_to_lock_guard(return_value.local, mutex_ref)?;
        Ok(())
    }

    /// If the place that is dropped holds the guard of a mutex, makes the
    /// transition of the drop unlock that mutex.
    pub fn handle_lock_guard_drop(
        &self,
        place: &Place,
        transition_drop: &TransitionRef,
        memory: &Memory,
        net: &mut Net,
    ) -> (done: Result<(), TranslationError>)
        requires
            old(net).wf(),
            self.wf(*old(net)),
            old(net).has_transition(*transition_drop),
        ensures
            final(net).wf(),
            final(net).extends(*old(net)),
            outcome_matches(
                done,
                *final(net),
                self@.handle_lock_guard_drop(
                    old(net)@,
                    memory@,
                    *place,
                    transition_label(*transition_drop),
                ),
            ),
    {
        match memory.get(place.local) {
            Ok(Value::MutexGuard(mutex_ref)) => self.add_unlock_guard(
                mutex_ref,
                transition_drop,
                net,
            ),
            _ => Ok(()),
        }
    }
}

} // verus!
