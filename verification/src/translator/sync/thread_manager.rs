//! Central structure to keep track of the threads in the code.
//!
//! The `ThreadManager` stores the threads discovered so far in the code.
//! It also performs the translation for each thread function.

use crate::error_handling::{InternalDefect, TranslationError};
use crate::naming::thread::{
    join_transition_labels, join_transition_labels_spec, spawn_transition_labels,
    spawn_transition_labels_spec,
};
use crate::net_model::{Label, NetModel};
use crate::petri_net_interface::{outcome_matches, transition_label, Net};
use crate::program::{Operand, Place};
use crate::translator::function_call::{
    FunctionPlaces, FunctionPlacesModel, PostprocessingTask, PostprocessingTaskModel,
};
use crate::translator::mir_function::memory::{Memory, MemoryModel, Value};
use crate::translator::special_function::{call_foreign_function, call_foreign_function_spec};
use crate::translator::sync::mutex_manager::{counter_overflow, missing_argument, stale_handle};
use crate::translator::sync::thread::{Thread, ThreadModel};
use crate::translator::sync::ThreadRef;
use crate::utils::{
    called_function_spec, extract_def_id_of_called_function_from_operand, extract_nth_argument,
    nth_argument_spec,
};
use netcrab::petri_net::TransitionRef;
use vstd::prelude::*;

verus! {

/// The threads found so far and the number of calls to `join` translated so far.
pub struct ThreadManager {
    pub threads: Vec<Thread>,
    pub join_counter: usize,
}

/// The state of a `ThreadManager`: for each thread the transition that
/// joins it, and how many calls to `join` there were.
pub struct ThreadManagerModel {
    pub join_transitions: Seq<Option<Label>>,
    pub join_counter: nat,
}

/// What the first argument of a call to `spawn` denotes.
pub open spec fn spawn_environment_spec(memory: MemoryModel, args: Seq<Operand>) -> Result<
    Value,
    TranslationError,
> {
    if args.len() == 0 {
        Err(missing_argument())
    } else {
        match args[0] {
            Operand::Copy(place) => memory.get(place.local as int),
            Operand::Move(place) => memory.get(place.local as int),
            Operand::Constant(_) => Ok(Value::Unlinked),
        }
    }
}

impl ThreadManagerModel {
    /// The number of threads.
    pub open spec fn count(self) -> nat {
        self.join_transitions.len()
    }

    /// The net after a call to `std::thread::spawn`.
    pub open spec fn translate_call_spawn(
        self,
        net: NetModel,
        places: FunctionPlacesModel,
    ) -> NetModel {
        call_foreign_function_spec(net, places, spawn_transition_labels_spec(self.count()))
    }

    /// The net after a call to `std::thread::JoinHandle::<T>::join`.
    pub open spec fn translate_call_join(
        self,
        net: NetModel,
        places: FunctionPlacesModel,
    ) -> NetModel {
        if self.join_counter >= usize::MAX {
            net.fail(counter_overflow())
        } else {
            call_foreign_function_spec(net, places, join_transition_labels_spec(self.join_counter))
        }
    }

    /// The net and the memory after the side effects of `std::thread::spawn`:
    /// a new thread is in the net, spawned by the transition of the call, and
    /// the return value denotes its join handle. The first argument of the
    /// call must be the function or closure that the thread runs.
    pub open spec fn translate_side_effects_spawn(
        self,
        net: NetModel,
        memory: MemoryModel,
        args: Seq<Operand>,
        return_value: Place,
        spawn_transition: Label,
    ) -> (NetModel, MemoryModel) {
        let added = ThreadModel::add_to(net, self.count(), spawn_transition);
        match memory.bind(
            return_value.local as int,
            Value::JoinHandle(ThreadRef(self.count() as usize)),
        ) {
            Err(e) => (added.fail(e), memory),
            Ok(bound) => if args.len() == 0 {
                (added.fail(missing_argument()), bound)
            } else {
                match called_function_spec(args[0]) {
                    Err(e) => (added.fail(e), bound),
                    Ok(_) => match spawn_environment_spec(bound, args) {
                        Err(e) => (added.fail(e), bound),
                        Ok(_) => (added, bound),
                    },
                }
            },
        }
    }

    /// The task that the side effects of `std::thread::spawn` leave: to
    /// translate the body of the thread.
    pub open spec fn spawn_task(
        self,
        memory: MemoryModel,
        args: Seq<Operand>,
        return_value: Place,
    ) -> PostprocessingTaskModel {
        let bound = memory.bind(
            return_value.local as int,
            Value::JoinHandle(ThreadRef(self.count() as usize)),
        )->Ok_0;
        PostprocessingTaskModel::NewThread {
            thread: ThreadRef(self.count() as usize),
            function: called_function_spec(args[0])->Ok_0,
            environment: spawn_environment_spec(bound, args)->Ok_0,
        }
    }

    /// The net after the side effects of `std::thread::JoinHandle::<T>::join`:
    /// the transition of the call takes the token from the end place of the
    /// thread whose join handle the first argument denotes.
    pub open spec fn translate_side_effects_join(
        self,
        net: NetModel,
        memory: MemoryModel,
        args: Seq<Operand>,
        join_transition: Label,
    ) -> NetModel {
        match nth_argument_spec(args, 0) {
            None => net.fail(missing_argument()),
            Some(receiver) => match memory.linked_join_handle(receiver.local as int) {
                Err(e) => net.fail(e),
                Ok(thread_ref) => if thread_ref.0 < self.count() {
                    ThreadModel::of_index(thread_ref.0 as nat, None).set_join_transition(
                        net,
                        join_transition,
                    )
                } else {
                    net.fail(stale_handle())
                },
            },
        }
    }

    /// The threads after a call to `join` was translated without defect.
    pub open spec fn joined(
        self,
        memory: MemoryModel,
        args: Seq<Operand>,
        join_transition: Label,
    ) -> ThreadManagerModel {
        let receiver = nth_argument_spec(args, 0)->Some_0;
        let thread_ref = memory.linked_join_handle(receiver.local as int)->Ok_0;
        ThreadManagerModel {
            join_transitions: self.join_transitions.update(
                thread_ref.0 as int,
                Some(join_transition),
            ),
            ..self
        }
    }
}

impl View for ThreadManager {
    type V = ThreadManagerModel;

    open spec fn view(&self) -> ThreadManagerModel {
        ThreadManagerModel {
            join_transitions: Seq::new(
                self.threads@.len(),
                |i: int| self.threads@[i]@.join_transition,
            ),
            join_counter: self.join_counter as nat,
        }
    }
}

impl ThreadManager {
    /// Whether every thread has its places in the net, under the labels of its index.
    pub open spec fn wf(&self, net: Net) -> bool {
        forall|i: int|
            0 <= i < self.threads@.len() ==> (#[trigger] self.threads@[i]).wf(net)
                && self.threads@[i]@.start == ThreadModel::of_index(i as nat, None).start
                && self.threads@[i]@.end == ThreadModel::of_index(i as nat, None).end
    }

    /// Returns a new empty `ThreadManager`.
    pub fn new() -> (manager: ThreadManager)
        ensures
            manager@ == (ThreadManagerModel { join_transitions: Seq::empty(), join_counter: 0 }),
            forall|net: Net| manager.wf(net),
    {
        let manager = ThreadManager { threads: Vec::new(), join_counter: 0 };
        assert(manager@.join_transitions =~= Seq::empty());
        manager
    }

    /// Translates a call to `std::thread::spawn` as a call to a foreign
    /// function. The label follows the numbering of the threads.
    /// Returns the transition that represents the function call.
    pub fn translate_call_spawn(&self, function_call_places: &FunctionPlaces, net: &mut Net) -> (transition:
        Result<TransitionRef, TranslationError>)
        requires
            old(net).wf(),
            function_call_places.wf(*old(net)),
        ensures
            final(net).wf(),
            final(net).extends(*old(net)),
            outcome_matches(
                transition,
                *final(net),
                self@.translate_call_spawn(old(net)@, function_call_places@),
            ),
            transition is Ok ==> final(net).has_transition(transition->Ok_0),
            transition is Ok ==> transition_label(transition->Ok_0) == spawn_transition_labels_spec(
                self@.count(),
            ).0,
    {
        let index = self.threads.len();
        call_foreign_function(function_call_places, &spawn_transition_labels(index), net)
    }

    /// Translates a call to `std::thread::JoinHandle::<T>::join` as a call to
    /// a foreign function. A separate counter numbers the calls.
    /// Returns the transition that represents the function call.
    pub fn translate_call_join(&mut self, function_call_places: &FunctionPlaces, net: &mut Net) -> (transition:
        Result<TransitionRef, TranslationError>)
        requires
            old(net).wf(),
            function_call_places.wf(*old(net)),
        ensures
            final(net).wf(),
            final(net).extends(*old(net)),
            final(self).threads == old(self).threads,
            outcome_matches(
                transition,
                *final(net),
                old(self)@.translate_call_join(old(net)@, function_call_places@),
            ),
            transition is Ok ==> final(self)@.join_counter == old(self)@.join_counter + 1,
            transition is Ok ==> final(net).has_transition(transition->Ok_0),
            transition is Ok ==> transition_label(transition->Ok_0) == join_transition_labels_spec(
                old(self)@.join_counter,
            ).0,
    {
        let index = self.join_counter;
        if index == usize::MAX {
            proof {
                net.lemma_view();
            }
            return Err(TranslationError::Internal(InternalDefect::CounterOverflow));
        }
        self.join_counter = index + 1;
        call_foreign_function(function_call_places, &join_transition_labels(index), net)
    }

    /// Translates the side effects of `std::thread::spawn`: creates the
    /// thread, lets the return value denote its join handle, and hands out
    /// the task of translating the body of the thread.
    pub fn translate_side_effects_spawn(
        &mut self,
        args: &Vec<Operand>,
        return_value: &Place,
        spawn_transition: &TransitionRef,
        net: &mut Net,
        memory: &mut Memory,
    ) -> (task: Result<PostprocessingTask, TranslationError>)
        requires
            old(net).wf(),
            old(self).wf(*old(net)),
            old(net).has_transition(*spawn_transition),
        ensures
            final(net).wf(),
            final(net).extends(*old(net)),
            final(self).wf(*final(net)),
            outcome_matches(
                task,
                *final(net),
                old(self)@.translate_side_effects_spawn(
                    old(net)@,
                    old(memory)@,
                    args@,
                    *return_value,
                    transition_label(*spawn_transition),
                ).0,
            ),
            task is Ok ==> final(memory)@ == old(self)@.translate_side_effects_spawn(
                old(net)@,
                old(memory)@,
                args@,
                *return_value,
                transition_label(*spawn_transition),
            ).1,
            task is Ok ==> task->Ok_0@ == old(self)@.spawn_task(old(memory)@, args@, *return_value),
            task is Ok ==> final(self)@ == (ThreadManagerModel {
                join_transitions: old(self)@.join_transitions.push(None),
                ..old(self)@
            }),
            task is Ok ==> task->Ok_0 is NewThread && task->Ok_0->thread.0 < final(self)@.count(),
    {
        let index = self.threads.len();
        let thread = Thread::new(index, spawn_transition, net)?;
        self.threads.push(thread);
        proof {
            net.lemma_view();
            assert(self@.join_transitions =~= old(self)@.join_transitions.push(None));
        }
        let thread_ref = ThreadRef(index);
        memory.link_place_to_join_handle(return_value.local, thread_ref)?;
        if args.len() == 0 {
            return Err(TranslationError::Internal(InternalDefect::MissingArgument));
        }
        let function = extract_def_id_of_called_function_from_operand(&args[0])?;
        let environment = match &args[0] {
            Operand::Copy(place) => memory.get(place.local)?,
            Operand::Move(place) => memory.get(place.local)?,
            Operand::Constant(_) => Value::Unlinked,
        };
        Ok(PostprocessingTask::NewThread { thread: thread_ref, function, environment })
    }

    /// Translates the side effects of `std::thread::JoinHandle::<T>::join`:
    /// attaches the transition of the call to the thread whose join handle
    /// the first argument denotes.
    pub fn translate_side_effects_join(
        &mut self,
        args: &Vec<Operand>,
        join_transition: &TransitionRef,
        net: &mut Net,
        memory: &Memory,
    ) -> (done: Result<(), TranslationError>)
        requires
            old(net).wf(),
            old(self).wf(*old(net)),
            old(net).has_transition(*join_transition),
        ensures
            final(net).wf(),
            final(net).extends(*old(net)),
            final(self).wf(*final(net)),
            outcome_matches(
                done,
                *final(net),
                old(self)@.translate_side_effects_join(
                    old(net)@,
                    memory@,
                    args@,
                    transition_label(*join_transition),
                ),
            ),
            done is Ok ==> final(self)@ == old(self)@.joined(
                memory@,
                args@,
                transition_label(*join_transition),
            ),
    {
        proof {
            net.lemma_view();
        }
        let receiver = extract_nth_argument(args, 0)?;
        let thread_ref = memory.get_linked_join_handle(receiver.local)?;
        if thread_ref.0 >= self.threads.len() {
            return Err(TranslationError::Internal(InternalDefect::StaleHandle));
        }
        let thread = &self.threads[thread_ref.0];
        let mut joined = Thread {
            start_place: thread.start_place.clone(),
            end_place: thread.end_place.clone(),
            join_transition: None,
        };
        joined.set_join_transition(join_transition, net)?;
        self.threads.set(thread_ref.0, joined);
        proof {
            assert(self@.join_transitions =~= old(self)@.joined(
                memory@,
                args@,
                transition_label(*join_transition),
            ).join_transitions);
        }
        Ok(())
    }

    /// Get the thread corresponding to the thread reference.
    pub fn get_thread_from_ref(&self, thread_ref: ThreadRef) -> (thread: Result<
        &Thread,
        TranslationError,
    >)
        ensures
            thread is Ok <==> thread_ref.0 < self@.count(),
            thread is Ok ==> *thread->Ok_0 == self.threads@[thread_ref.0 as int],
            thread is Err ==> thread->Err_0 == stale_handle(),
    {
        if thread_ref.0 < self.threads.len() {
            Ok(&self.threads[thread_ref.0])
        } else {
            Err(TranslationError::Internal(InternalDefect::StaleHandle))
        }
    }
}

} // verus!
