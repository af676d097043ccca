//! The translation guards the places of mutexes and condition variables.
//!
//! The places of a mutex and the place `signal_output` of a condition
//! variable are guarded places: arcs at them are added by the operations on
//! mutexes and on condition variables only, and in a way that keeps the net
//! balanced for the places of every mutex and that lets only the transition
//! of a condition variable put a token on its place `signal_output`.

use crate::naming::kinds::{
    is_guarded_place, lemma_block_place_is_not_guarded, lemma_condvar_places,
    lemma_condvars_apart, lemma_mutex_places, lemma_mutexes_apart,
    lemma_program_places_are_not_guarded, lemma_same_frame, lemma_thread_places_are_not_guarded,
};
use crate::naming::program::{PROGRAM_END, PROGRAM_PANIC, PROGRAM_START};
use crate::net_model::{Label, NetModel};
use crate::program::{BasicBlockData, Operand, Place, Program, TerminatorKind};
use crate::translator::function_call::{FunctionPlacesModel, PostprocessingTaskModel};
use crate::translator::mir_function::memory::{MemoryModel, Value};
use crate::translator::mir_function::MirFunctionModel;
use crate::translator::special_function::{
    call_diverging_function_spec, call_foreign_function_spec, call_panic_function_spec,
};
use crate::translator::sync::condvar::CondvarModel;
use crate::translator::sync::condvar_manager::create_wait_function_call_spec;
use crate::translator::sync::mutex::MutexModel;
use crate::translator::sync::thread::ThreadModel;
use crate::translator::sync::{
    call_condvar_new_spec, call_condvar_notify_one_spec, translated_condvar_wait_spec,
    call_mutex_lock_spec, translated_mutex_new_spec, call_thread_join_spec, call_thread_spawn_spec,
    SyncModel, ThreadRef,
};
use crate::translator::{
    call_at_site_spec, call_body_spec, call_spec, call_sync_spec, initial_net_spec,
    spawn_thread_spec, translate_function_spec, translate_spec, visit_basic_block_data_spec,
    visit_blocks_spec, visit_terminator_spec, TranslatorModel, WalkModel,
};
use vstd::prelude::*;

verus! {

impl FunctionPlacesModel {
    /// Whether none of the places of the call site is a guarded place.
    pub open spec fn is_unguarded(self) -> bool {
        &&& !is_guarded_place(self.start)
        &&& !is_guarded_place(self.end)
        &&& self.cleanup is Some ==> !is_guarded_place(self.cleanup->Some_0)
    }
}

/// A call to a function that is not entered changes nothing at the guarded places.
pub proof fn lemma_call_foreign_function_is_quiet(
    net: NetModel,
    places: FunctionPlacesModel,
    labels: (Label, Label),
)
    requires
        places.is_unguarded(),
    ensures
        call_foreign_function_spec(net, places, labels).is_ok() ==> call_foreign_function_spec(
            net,
            places,
            labels,
        ).quiet_since(net),
{
}

/// The transitions of a call to `wait` change nothing at the guarded places.
pub proof fn lemma_create_wait_function_call_is_quiet(
    net: NetModel,
    places: FunctionPlacesModel,
    labels: (Label, Label, Label),
)
    requires
        places.is_unguarded(),
    ensures
        create_wait_function_call_spec(net, places, labels).is_ok()
            ==> create_wait_function_call_spec(net, places, labels).quiet_since(net),
{
}

/// A transition that locks a mutex keeps the guards.
pub proof fn lemma_lock_guard_keeps_guards(net: NetModel, index: nat, transition: Label)
    requires
        net.guards(),
        MutexModel::of_index(index).add_lock_guard(net, transition).is_ok(),
    ensures
        MutexModel::of_index(index).add_lock_guard(net, transition).guards(),
{
    let mutex = MutexModel::of_index(index);
    let after = mutex.add_lock_guard(net, transition);
    lemma_mutex_places(index);
    assert forall|i: nat| #[trigger] after.guards_index(i) by {
        assert(net.guards_index(i));
        lemma_mutexes_apart(i, index);
        lemma_mutexes_apart(index, i);
        lemma_condvar_places(i);
        let other = MutexModel::of_index(i);
        assert forall|t: Label| #[trigger] after.transitions.contains(t) implies after.takes(
            other.unlocked,
            t,
        ) + after.takes(other.locked, t) == after.gives(t, other.unlocked) + after.gives(
            t,
            other.locked,
        ) by {
            assert(net.transitions.contains(t));
        }
    }
}

/// A transition that unlocks a mutex keeps the guards.
pub proof fn lemma_unlock_guard_keeps_guards(net: NetModel, index: nat, transition: Label)
    requires
        net.guards(),
        MutexModel::of_index(index).add_unlock_guard(net, transition).is_ok(),
    ensures
        MutexModel::of_index(index).add_unlock_guard(net, transition).guards(),
{
    let mutex = MutexModel::of_index(index);
    let after = mutex.add_unlock_guard(net, transition);
    lemma_mutex_places(index);
    assert forall|i: nat| #[trigger] after.guards_index(i) by {
        assert(net.guards_index(i));
        lemma_mutexes_apart(i, index);
        lemma_mutexes_apart(index, i);
        lemma_condvar_places(i);
        let other = MutexModel::of_index(i);
        assert forall|t: Label| #[trigger] after.transitions.contains(t) implies after.takes(
            other.unlocked,
            t,
        ) + after.takes(other.locked, t) == after.gives(t, other.unlocked) + after.gives(
            t,
            other.locked,
        ) by {
            assert(net.transitions.contains(t));
        }
    }
}

/// A new mutex keeps the guards.
pub proof fn lemma_new_mutex_keeps_guards(net: NetModel, index: nat)
    requires
        net.closed(),
        net.guards(),
        MutexModel::add_to(net, index).is_ok(),
    ensures
        MutexModel::add_to(net, index).guards(),
{
    let after = MutexModel::add_to(net, index);
    let mutex = MutexModel::of_index(index);
    lemma_mutex_places(index);
    assert forall|i: nat| #[trigger] after.guards_index(i) by {
        assert(net.guards_index(i));
        lemma_mutexes_apart(i, index);
        lemma_mutexes_apart(index, i);
        lemma_condvar_places(i);
        lemma_mutex_places(i);
    }
}

/// A new condition variable keeps the guards.
pub proof fn lemma_new_condvar_keeps_guards(net: NetModel, index: nat)
    requires
        net.closed(),
        net.guards(),
        CondvarModel::add_to(net, index).is_ok(),
    ensures
        CondvarModel::add_to(net, index).guards(),
{
    let after = CondvarModel::add_to(net, index);
    let condvar = CondvarModel::of_index(index);
    let transitions = crate::naming::condvar::transition_labels_spec(index);
    lemma_condvar_places(index);
    assert forall|i: nat| #[trigger] after.guards_index(i) by {
        assert(net.guards_index(i));
        lemma_condvar_places(i);
        lemma_mutex_places(i);
        let other = MutexModel::of_index(i);
        let other_condvar = CondvarModel::of_index(i);
        assert forall|t: Label| #[trigger] after.transitions.contains(t) implies after.takes(
            other.unlocked,
            t,
        ) + after.takes(other.locked, t) == after.gives(t, other.unlocked) + after.gives(
            t,
            other.locked,
        ) by {
            if net.transitions.contains(t) {
            }
        }
        if other_condvar.signal_output == condvar.signal_output {
            lemma_condvars_apart(i, index);
            lemma_same_frame(
                "CONDVAR_"@,
                crate::naming::decimal_spec(i),
                crate::naming::decimal_spec(index),
                "_SIGNAL_OUTPUT"@,
            );
            assert(other_condvar == condvar);
        }
    }
}

/// A call to `wait` that is linked to a condition variable keeps the guards.
pub proof fn lemma_link_to_wait_keeps_guards(
    net: NetModel,
    index: nat,
    wait_start: Label,
    wait_end: Label,
)
    requires
        net.guards(),
        CondvarModel::of_index(index).link_to_wait_call(net, wait_start, wait_end).is_ok(),
    ensures
        CondvarModel::of_index(index).link_to_wait_call(net, wait_start, wait_end).guards(),
{
    let after = CondvarModel::of_index(index).link_to_wait_call(net, wait_start, wait_end);
    lemma_condvar_places(index);
    assert forall|i: nat| #[trigger] after.guards_index(i) by {
        assert(net.guards_index(i));
        lemma_condvar_places(i);
        lemma_mutex_places(i);
        let other = MutexModel::of_index(i);
        assert forall|t: Label| #[trigger] after.transitions.contains(t) implies after.takes(
            other.unlocked,
            t,
        ) + after.takes(other.locked, t) == after.gives(t, other.unlocked) + after.gives(
            t,
            other.locked,
        ) by {
            assert(net.transitions.contains(t));
        }
    }
}

/// A call to `notify_one` that is linked to a condition variable changes
/// nothing at the guarded places.
pub proof fn lemma_link_to_notify_is_quiet(net: NetModel, index: nat, notify: Label)
    ensures
        CondvarModel::of_index(index).link_to_notify_one_call(net, notify).is_ok()
            ==> CondvarModel::of_index(index).link_to_notify_one_call(net, notify).quiet_since(
            net,
        ),
{
    lemma_condvar_places(index);
}

/// A new thread changes nothing at the guarded places.
pub proof fn lemma_new_thread_is_quiet(net: NetModel, index: nat, spawn_transition: Label)
    ensures
        ThreadModel::add_to(net, index, spawn_transition).is_ok() ==> ThreadModel::add_to(
            net,
            index,
            spawn_transition,
        ).quiet_since(net),
{
    lemma_thread_places_are_not_guarded(index);
}

/// The transition that joins a thread changes nothing at the guarded places.
pub proof fn lemma_join_is_quiet(net: NetModel, index: nat, join_transition: Label)
    ensures
        ThreadModel::of_index(index, None).set_join_transition(net, join_transition).is_ok()
            ==> ThreadModel::of_index(index, None).set_join_transition(
            net,
            join_transition,
        ).quiet_since(net),
{
    lemma_thread_places_are_not_guarded(index);
}

impl NetModel {
    /// A step that changes nothing at the guarded places keeps the guards.
    pub proof fn lemma_quiet_step_keeps_guards(self, before: NetModel)
        requires
            self.advances(before),
            self.is_ok() ==> self.quiet_since(before),
        ensures
            self.keeps_guards(before),
    {
        if self.is_ok() && before.closed() && before.guards() {
            self.lemma_quiet_keeps_guards(before);
        }
    }
}

/// A call to `std::sync::Condvar::new` keeps the guards.
pub proof fn lemma_call_condvar_new_keeps_guards(
    destination: Place,
    places: FunctionPlacesModel,
    net: NetModel,
    memory: MemoryModel,
    managers: SyncModel,
)
    requires
        places.is_unguarded(),
    ensures
        call_condvar_new_spec(destination, places, net, memory, managers).net.keeps_guards(net),
{
    let labels = crate::naming::condvar::new_transition_labels_spec(managers.condvars.count);
    let called = call_foreign_function_spec(net, places, labels);
    let after = call_condvar_new_spec(destination, places, net, memory, managers).net;
    if after.is_ok() && net.closed() && net.guards() {
        lemma_call_foreign_function_is_quiet(net, places, labels);
        crate::translator::invariants::lemma_call_foreign_function_advances(net, places, labels);
        called.lemma_quiet_keeps_guards(net);
        lemma_new_condvar_keeps_guards(called, managers.condvars.count);
    }
}

/// A call to `std::sync::Condvar::notify_one` keeps the guards.
pub proof fn lemma_call_condvar_notify_one_keeps_guards(
    args: Seq<Operand>,
    places: FunctionPlacesModel,
    net: NetModel,
    memory: MemoryModel,
    managers: SyncModel,
)
    requires
        places.is_unguarded(),
    ensures
        call_condvar_notify_one_spec(args, places, net, memory, managers).net.keeps_guards(net),
{
    let labels = crate::naming::condvar::notify_one_transition_labels_spec(
        managers.condvars.notify_one_counter,
    );
    let called = call_foreign_function_spec(net, places, labels);
    let after = call_condvar_notify_one_spec(args, places, net, memory, managers).net;
    if after.is_ok() && net.closed() && net.guards() {
        lemma_call_foreign_function_is_quiet(net, places, labels);
        crate::translator::invariants::lemma_call_foreign_function_advances(net, places, labels);
        called.lemma_quiet_keeps_guards(net);
        let receiver = crate::utils::nth_argument_spec(args, 0)->Some_0;
        let condvar_ref = memory.linked_condvar(receiver.local as int)->Ok_0;
        lemma_link_to_notify_is_quiet(called, condvar_ref.0 as nat, labels.0);
        after.lemma_quiet_keeps_guards(called);
    }
}

/// A call to `std::sync::Condvar::wait` keeps the guards: the start of the
/// wait unlocks the mutex and the end of the wait locks it again.
pub proof fn lemma_call_condvar_wait_keeps_guards(
    args: Seq<Operand>,
    destination: Place,
    places: FunctionPlacesModel,
    net: NetModel,
    memory: MemoryModel,
    managers: SyncModel,
)
    requires
        places.is_unguarded(),
    ensures
        translated_condvar_wait_spec(args, destination, places, net, memory, managers).net.keeps_guards(
            net,
        ),
{
    let labels = crate::naming::condvar::wait_transition_labels_spec(
        managers.condvars.wait_counter,
    );
    let called = create_wait_function_call_spec(net, places, labels);
    let after = translated_condvar_wait_spec(args, destination, places, net, memory, managers).net;
    if after.is_ok() && net.closed() && net.guards() {
        lemma_create_wait_function_call_is_quiet(net, places, labels);
        called.lemma_quiet_keeps_guards(net);
        let lock_guard = crate::utils::nth_argument_spec(args, 1)->Some_0;
        let mutex_ref = memory.linked_lock_guard(lock_guard.local as int)->Ok_0;
        let mutex = MutexModel::of_index(mutex_ref.0 as nat);
        let unlocked = mutex.add_unlock_guard(called, labels.0);
        lemma_unlock_guard_keeps_guards(called, mutex_ref.0 as nat, labels.0);
        let locked = mutex.add_lock_guard(unlocked, labels.1);
        lemma_lock_guard_keeps_guards(unlocked, mutex_ref.0 as nat, labels.1);
        let receiver = crate::utils::nth_argument_spec(args, 0)->Some_0;
        let condvar_ref = memory.linked_condvar(receiver.local as int)->Ok_0;
        lemma_link_to_wait_keeps_guards(locked, condvar_ref.0 as nat, labels.0, labels.1);
    }
}

/// A call to `std::sync::Mutex::<T>::lock` keeps the guards.
pub proof fn lemma_call_mutex_lock_keeps_guards(
    args: Seq<Operand>,
    destination: Place,
    places: FunctionPlacesModel,
    net: NetModel,
    memory: MemoryModel,
    managers: SyncModel,
)
    requires
        places.is_unguarded(),
    ensures
        call_mutex_lock_spec(args, destination, places, net, memory, managers).net.keeps_guards(
            net,
        ),
{
    let labels = crate::naming::mutex::lock_transition_labels_spec(managers.mutexes.lock_counter);
    let called = call_foreign_function_spec(net, places, labels);
    let after = call_mutex_lock_spec(args, destination, places, net, memory, managers).net;
    if after.is_ok() && net.closed() && net.guards() {
        lemma_call_foreign_function_is_quiet(net, places, labels);
        crate::translator::invariants::lemma_call_foreign_function_advances(net, places, labels);
        called.lemma_quiet_keeps_guards(net);
        let receiver = crate::utils::nth_argument_spec(args, 0)->Some_0;
        let mutex_ref = memory.linked_mutex(receiver.local as int)->Ok_0;
        lemma_lock_guard_keeps_guards(called, mutex_ref.0 as nat, labels.0);
    }
}

/// A call to `std::sync::Mutex::<T>::new` keeps the guards.
pub proof fn lemma_call_mutex_new_keeps_guards(
    destination: Place,
    places: FunctionPlacesModel,
    net: NetModel,
    memory: MemoryModel,
    managers: SyncModel,
)
    requires
        places.is_unguarded(),
    ensures
        translated_mutex_new_spec(destination, places, net, memory, managers).net.keeps_guards(net),
{
    let labels = crate::naming::mutex::new_transition_labels_spec(managers.mutexes.count);
    let called = call_foreign_function_spec(net, places, labels);
    let after = translated_mutex_new_spec(destination, places, net, memory, managers).net;
    if after.is_ok() && net.closed() && net.guards() {
        lemma_call_foreign_function_is_quiet(net, places, labels);
        crate::translator::invariants::lemma_call_foreign_function_advances(net, places, labels);
        called.lemma_quiet_keeps_guards(net);
        lemma_new_mutex_keeps_guards(called, managers.mutexes.count);
    }
}

/// A call to `std::thread::spawn` keeps the guards.
pub proof fn lemma_call_thread_spawn_keeps_guards(
    args: Seq<Operand>,
    destination: Place,
    places: FunctionPlacesModel,
    net: NetModel,
    memory: MemoryModel,
    managers: SyncModel,
)
    requires
        places.is_unguarded(),
    ensures
        call_thread_spawn_spec(args, destination, places, net, memory, managers).net.keeps_guards(
            net,
        ),
{
    let labels = crate::naming::thread::spawn_transition_labels_spec(managers.threads.count());
    let called = call_foreign_function_spec(net, places, labels);
    let after = call_thread_spawn_spec(args, destination, places, net, memory, managers).net;
    if after.is_ok() && net.closed() && net.guards() {
        lemma_call_foreign_function_is_quiet(net, places, labels);
        crate::translator::invariants::lemma_call_foreign_function_advances(net, places, labels);
        called.lemma_quiet_keeps_guards(net);
        lemma_new_thread_is_quiet(called, managers.threads.count(), labels.0);
        after.lemma_quiet_keeps_guards(called);
    }
}

/// A call to `std::thread::JoinHandle::<T>::join` keeps the guards.
pub proof fn lemma_call_thread_join_keeps_guards(
    args: Seq<Operand>,
    places: FunctionPlacesModel,
    net: NetModel,
    memory: MemoryModel,
    managers: SyncModel,
)
    requires
        places.is_unguarded(),
    ensures
        call_thread_join_spec(args, places, net, memory, managers).net.keeps_guards(net),
{
    let labels = crate::naming::thread::join_transition_labels_spec(managers.threads.join_counter);
    let called = call_foreign_function_spec(net, places, labels);
    let after = call_thread_join_spec(args, places, net, memory, managers).net;
    if after.is_ok() && net.closed() && net.guards() {
        lemma_call_foreign_function_is_quiet(net, places, labels);
        crate::translator::invariants::lemma_call_foreign_function_advances(net, places, labels);
        called.lemma_quiet_keeps_guards(net);
        let receiver = crate::utils::nth_argument_spec(args, 0)->Some_0;
        let thread_ref = memory.linked_join_handle(receiver.local as int)->Ok_0;
        lemma_join_is_quiet(called, thread_ref.0 as nat, labels.0);
        after.lemma_quiet_keeps_guards(called);
    }
}

/// The call of a supported function on a sync variable keeps the guards.
pub proof fn lemma_sync_call_keeps_guards(
    function_name: Seq<char>,
    args: Seq<Operand>,
    destination: Place,
    places: FunctionPlacesModel,
    net: NetModel,
    memory: MemoryModel,
    managers: SyncModel,
)
    requires
        places.is_unguarded(),
    ensures
        crate::translator::sync::translated_call_spec(
            function_name,
            args,
            destination,
            places,
            net,
            memory,
            managers,
        ).net.keeps_guards(net),
{
    lemma_call_condvar_new_keeps_guards(destination, places, net, memory, managers);
    lemma_call_condvar_notify_one_keeps_guards(args, places, net, memory, managers);
    lemma_call_condvar_wait_keeps_guards(args, destination, places, net, memory, managers);
    lemma_call_mutex_lock_keeps_guards(args, destination, places, net, memory, managers);
    lemma_call_mutex_new_keeps_guards(destination, places, net, memory, managers);
    lemma_call_thread_spawn_keeps_guards(args, destination, places, net, memory, managers);
    lemma_call_thread_join_keeps_guards(args, places, net, memory, managers);
}

/// The call of a supported function itself, before its task is done,
/// keeps the guards.
pub proof fn lemma_sync_call_itself_keeps_guards(
    function_name: Seq<char>,
    args: Seq<Operand>,
    destination: Place,
    places: FunctionPlacesModel,
    net: NetModel,
    memory: MemoryModel,
    managers: SyncModel,
)
    requires
        places.is_unguarded(),
    ensures
        crate::translator::sync::call_function_spec(
            function_name,
            args,
            destination,
            places,
            net,
            memory,
            managers,
        ).net.keeps_guards(net),
{
    let called = crate::translator::sync::call_function_spec(
        function_name,
        args,
        destination,
        places,
        net,
        memory,
        managers,
    );
    lemma_sync_call_keeps_guards(function_name, args, destination, places, net, memory, managers);
    crate::translator::invariants::lemma_sync_call_itself_advances(
        function_name,
        args,
        destination,
        places,
        net,
        memory,
        managers,
    );
    lemma_call_foreign_function_is_quiet(
        net,
        places,
        crate::naming::mutex::new_transition_labels_spec(managers.mutexes.count),
    );
    lemma_create_wait_function_call_is_quiet(
        net,
        places,
        crate::naming::condvar::wait_transition_labels_spec(managers.condvars.wait_counter),
    );
    if called.net.is_ok() && net.closed() && net.guards() {
        if called.task is Some && !(called.task->Some_0 is NewThread) {
            called.net.lemma_quiet_keeps_guards(net);
        }
    }
}

impl MirFunctionModel {
    /// Whether the places between which the function is translated are no guarded places.
    pub open spec fn has_unguarded_places(self) -> bool {
        &&& !is_guarded_place(self.start)
        &&& !is_guarded_place(self.end)
        &&& !is_guarded_place(self.unwind)
    }

    /// The place of a basic block is no guarded place.
    pub proof fn lemma_block_label_is_unguarded(self, block: nat)
        requires
            self.has_unguarded_places(),
        ensures
            !is_guarded_place(self.block_label(block)),
    {
        lemma_block_place_is_not_guarded(self.name, block);
    }

    /// The places of a call site are no guarded places.
    pub proof fn lemma_call_site_is_unguarded(self, target: nat, cleanup: Option<usize>)
        requires
            self.has_unguarded_places(),
        ensures
            self.call_site(target, cleanup).is_unguarded(),
    {
        self.lemma_block_label_is_unguarded(self.active_block);
        self.lemma_block_label_is_unguarded(target);
        if cleanup is Some {
            self.lemma_block_label_is_unguarded(cleanup->Some_0 as nat);
        }
    }

    /// The place of a basic block changes nothing at the guarded places.
    pub proof fn lemma_block_place_is_quiet(self, net: NetModel, block: nat)
        requires
            self.has_unguarded_places(),
        ensures
            self.block_place(net, block).0.is_ok() ==> self.block_place(net, block).0.quiet_since(
                net,
            ),
            self.block_place(net, block).1.has_unguarded_places(),
    {
        self.lemma_block_label_is_unguarded(block);
    }

    /// A `Goto` changes nothing at the guarded places.
    pub proof fn lemma_goto_is_quiet(self, net: NetModel, target: nat)
        requires
            self.has_unguarded_places(),
        ensures
            self.goto(net, target).0.is_ok() ==> self.goto(net, target).0.quiet_since(net),
            self.goto(net, target).1.has_unguarded_places(),
    {
        self.lemma_block_label_is_unguarded(target);
        self.lemma_block_label_is_unguarded(self.active_block);
    }

    /// A branch of a `SwitchInt` changes nothing at the guarded places.
    pub proof fn lemma_switch_branch_is_quiet(self, net: NetModel, target: nat, branch: nat)
        requires
            self.has_unguarded_places(),
        ensures
            self.switch_branch(net, target, branch).0.is_ok() ==> self.switch_branch(
                net,
                target,
                branch,
            ).0.quiet_since(net),
            self.switch_branch(net, target, branch).1.has_unguarded_places(),
            self.switch_branch(net, target, branch).1.active_block == self.active_block,
    {
        self.lemma_block_label_is_unguarded(target);
        self.lemma_block_label_is_unguarded(self.active_block);
    }

    /// A `SwitchInt` changes nothing at the guarded places.
    pub proof fn lemma_switch_int_is_quiet(self, net: NetModel, targets: Seq<usize>)
        requires
            self.has_unguarded_places(),
        ensures
            self.switch_int(net, targets).0.is_ok() ==> self.switch_int(net, targets).0.quiet_since(
                net,
            ),
            self.switch_int(net, targets).1.has_unguarded_places(),
        decreases targets.len(),
    {
        if targets.len() > 0 {
            let before = self.switch_int(net, targets.drop_last());
            self.lemma_switch_int_is_quiet(net, targets.drop_last());
            before.1.lemma_switch_branch_is_quiet(
                before.0,
                targets.last() as nat,
                (targets.len() - 1) as nat,
            );
        }
    }

    /// A `Resume` or an `Abort` changes nothing at the guarded places.
    pub proof fn lemma_unwind_is_quiet(self, net: NetModel)
        requires
            self.has_unguarded_places(),
        ensures
            self.unwind(net).is_ok() ==> self.unwind(net).quiet_since(net),
    {
        self.lemma_block_label_is_unguarded(self.active_block);
    }

    /// A `Return` changes nothing at the guarded places.
    pub proof fn lemma_return_statement_is_quiet(self, net: NetModel)
        requires
            self.has_unguarded_places(),
        ensures
            self.return_statement(net).0.is_ok() ==> self.return_statement(net).0.quiet_since(net),
            self.return_statement(net).1.has_unguarded_places(),
    {
        self.lemma_block_label_is_unguarded(self.active_block);
    }

    /// An `Unreachable` changes nothing at the guarded places.
    pub proof fn lemma_unreachable_is_quiet(self, net: NetModel)
        requires
            self.has_unguarded_places(),
        ensures
            self.unreachable(net, PROGRAM_END@).is_ok() ==> self.unreachable(
                net,
                PROGRAM_END@,
            ).quiet_since(net),
    {
        self.lemma_block_label_is_unguarded(self.active_block);
        lemma_program_places_are_not_guarded();
    }

    /// A terminator with a target and a second way out changes nothing at
    /// the guarded places.
    pub proof fn lemma_two_way_is_quiet(
        self,
        net: NetModel,
        target: nat,
        unwind: Option<usize>,
        labels: (Label, Label),
    )
        requires
            self.has_unguarded_places(),
        ensures
            self.two_way(net, target, unwind, labels).0.is_ok() ==> self.two_way(
                net,
                target,
                unwind,
                labels,
            ).0.quiet_since(net),
            self.two_way(net, target, unwind, labels).1.has_unguarded_places(),
    {
        self.lemma_block_label_is_unguarded(self.active_block);
        self.lemma_block_label_is_unguarded(target);
        if unwind is Some {
            self.lemma_block_label_is_unguarded(unwind->Some_0 as nat);
        }
    }

    /// The places of a call site change nothing at the guarded places.
    pub proof fn lemma_function_call_places_is_quiet(
        self,
        net: NetModel,
        target: nat,
        cleanup: Option<usize>,
    )
        requires
            self.has_unguarded_places(),
        ensures
            self.function_call_places(net, target, cleanup).0.is_ok()
                ==> self.function_call_places(net, target, cleanup).0.quiet_since(net),
            self.function_call_places(net, target, cleanup).1.has_unguarded_places(),
    {
        self.lemma_block_label_is_unguarded(target);
        if cleanup is Some {
            self.lemma_block_label_is_unguarded(cleanup->Some_0 as nat);
        }
    }
}

/// Two steps in a row that keep the guards keep the guards.
pub proof fn lemma_two_steps_keep_guards(first: NetModel, second: NetModel, third: NetModel)
    requires
        second.advances(first),
        third.advances(second),
        second.keeps_guards(first),
        third.keeps_guards(second),
    ensures
        third.keeps_guards(first),
        third.advances(first),
{
}

/// Whether a step of the walk keeps the guards and leaves the function
/// between places that are not guarded.
pub open spec fn walk_keeps_guards(after: WalkModel, before: WalkModel) -> bool {
    &&& after.net().keeps_guards(before.net())
    &&& after.net().advances(before.net())
    &&& after.function.has_unguarded_places()
}

/// A `Drop` keeps the guards, also where it unlocks a mutex.
pub proof fn lemma_drop_keeps_guards(
    state: WalkModel,
    place: Place,
    target: nat,
    unwind: Option<usize>,
)
    requires
        state.function.has_unguarded_places(),
    ensures
        ({
            let dropped = state.function.drop_value(state.net(), target, unwind);
            state.translator.managers.mutexes.handle_lock_guard_drop(
                dropped.0,
                dropped.1.memory,
                place,
                crate::naming::basic_block::drop_transition_labels_spec(
                    state.function.name,
                    state.function.active_block,
                ).0,
            )
        }).keeps_guards(state.net()),
        state.function.drop_value(state.net(), target, unwind).1.has_unguarded_places(),
{
    let labels = crate::naming::basic_block::drop_transition_labels_spec(
        state.function.name,
        state.function.active_block,
    );
    let dropped = state.function.drop_value(state.net(), target, unwind);
    let after = state.translator.managers.mutexes.handle_lock_guard_drop(
        dropped.0,
        dropped.1.memory,
        place,
        labels.0,
    );
    state.function.lemma_two_way_is_quiet(state.net(), target, unwind, labels);
    state.function.lemma_two_way_advances(state.net(), target, unwind, labels);
    dropped.0.lemma_quiet_step_keeps_guards(state.net());
    if after.is_ok() && state.net().closed() && state.net().guards() {
        match dropped.1.memory.get(place.local as int) {
            Ok(Value::MutexGuard(mutex_ref)) => {
                lemma_unlock_guard_keeps_guards(dropped.0, mutex_ref.0 as nat, labels.0);
            },
            _ => {},
        }
    }
}

/// A terminator keeps the guards.
pub proof fn lemma_visit_terminator_keeps_guards(
    program: Program,
    state: WalkModel,
    terminator: TerminatorKind,
    depth: nat,
)
    requires
        state.function.has_unguarded_places(),
    ensures
        walk_keeps_guards(visit_terminator_spec(program, state, terminator, depth), state),
    decreases depth, 1nat, 0nat,
{
    let net = state.net();
    let function = state.function;
    let after = visit_terminator_spec(program, state, terminator, depth);
    crate::translator::invariants::lemma_visit_terminator_advances(
        program,
        state,
        terminator,
        depth,
    );
    match terminator {
        TerminatorKind::Goto { target } => {
            function.lemma_goto_is_quiet(net, target as nat);
            after.net().lemma_quiet_step_keeps_guards(net);
        },
        TerminatorKind::SwitchInt { targets } => {
            function.lemma_switch_int_is_quiet(net, targets@);
            after.net().lemma_quiet_step_keeps_guards(net);
        },
        TerminatorKind::Resume => {
            function.lemma_unwind_is_quiet(net);
            after.net().lemma_quiet_step_keeps_guards(net);
        },
        TerminatorKind::Abort => {
            function.lemma_unwind_is_quiet(net);
            after.net().lemma_quiet_step_keeps_guards(net);
        },
        TerminatorKind::Return => {
            function.lemma_return_statement_is_quiet(net);
            after.net().lemma_quiet_step_keeps_guards(net);
        },
        TerminatorKind::Unreachable => {
            function.lemma_unreachable_is_quiet(net);
            after.net().lemma_quiet_step_keeps_guards(net);
        },
        TerminatorKind::Drop { place, target, unwind } => {
            lemma_drop_keeps_guards(state, place, target as nat, unwind);
        },
        TerminatorKind::Call { func, args, destination, target, cleanup } => {
            lemma_call_keeps_guards(program, state, func, args@, destination, target, cleanup, depth);
        },
        TerminatorKind::Assert { target, cleanup } => {
            function.lemma_two_way_is_quiet(
                net,
                target as nat,
                cleanup,
                crate::naming::basic_block::assert_transition_labels_spec(
                    function.name,
                    function.active_block,
                ),
            );
            after.net().lemma_quiet_step_keeps_guards(net);
        },
        _ => {},
    }
}

/// A call keeps the guards.
pub proof fn lemma_call_keeps_guards(
    program: Program,
    state: WalkModel,
    func: Operand,
    args: Seq<Operand>,
    destination: Place,
    target: Option<usize>,
    cleanup: Option<usize>,
    depth: nat,
)
    requires
        state.function.has_unguarded_places(),
    ensures
        walk_keeps_guards(
            call_spec(program, state, func, args, destination, target, cleanup, depth),
            state,
        ),
    decreases depth, 0nat, 3nat,
{
    let after = call_spec(program, state, func, args, destination, target, cleanup, depth);
    crate::translator::invariants::lemma_call_advances(
        program,
        state,
        func,
        args,
        destination,
        target,
        cleanup,
        depth,
    );
    state.function.lemma_block_label_is_unguarded(state.function.active_block);
    lemma_program_places_are_not_guarded();
    if target is Some && crate::utils::called_function_spec(func) is Ok {
        let def_id = crate::utils::called_function_spec(func)->Ok_0;
        let placed = state.function.function_call_places(
            state.net(),
            target->Some_0 as nat,
            cleanup,
        );
        let at_site = state.with(placed);
        let places = state.function.call_site(target->Some_0 as nat, cleanup);
        state.function.lemma_function_call_places_is_quiet(
            state.net(),
            target->Some_0 as nat,
            cleanup,
        );
        state.function.lemma_function_call_places_advances(
            state.net(),
            target->Some_0 as nat,
            cleanup,
        );
        state.function.lemma_call_site_is_unguarded(target->Some_0 as nat, cleanup);
        at_site.net().lemma_quiet_step_keeps_guards(state.net());
        lemma_call_at_site_keeps_guards(
            program,
            at_site,
            def_id,
            args,
            destination,
            places,
            depth,
        );
        if def_id < program.functions@.len() && !crate::translator::special_function::is_panic_function_spec(
            program.functions@[def_id as int].name@,
        ) {
            lemma_two_steps_keep_guards(state.net(), at_site.net(), after.net());
        }
    }
    if after.net().is_ok() {
        if target is None || (crate::utils::called_function_spec(func) is Ok
            && crate::utils::called_function_spec(func)->Ok_0 < program.functions@.len()
            && crate::translator::special_function::is_panic_function_spec(
            program.functions@[crate::utils::called_function_spec(func)->Ok_0 as int].name@,
        )) {
            after.net().lemma_quiet_step_keeps_guards(state.net());
        }
    }
}

/// A call whose places are in the net keeps the guards.
pub proof fn lemma_call_at_site_keeps_guards(
    program: Program,
    state: WalkModel,
    def_id: usize,
    args: Seq<Operand>,
    destination: Place,
    places: FunctionPlacesModel,
    depth: nat,
)
    requires
        state.function.has_unguarded_places(),
        places.is_unguarded(),
    ensures
        walk_keeps_guards(
            call_at_site_spec(program, state, def_id, args, destination, places, depth),
            state,
        ),
    decreases depth, 0nat, 2nat,
{
    let after = call_at_site_spec(program, state, def_id, args, destination, places, depth);
    crate::translator::invariants::lemma_call_at_site_advances(
        program,
        state,
        def_id,
        args,
        destination,
        places,
        depth,
    );
    if def_id < program.functions@.len() && state.net().error is None {
        let callee = program.functions@[def_id as int];
        let counters = state.translator.counters;
        if crate::translator::sync::is_supported_function_spec(callee.name@) {
            lemma_call_sync_keeps_guards(
                program,
                state,
                callee.name@,
                args,
                destination,
                places,
                depth,
            );
        } else if crate::translator::linking_function_spec(callee.name@) is Some {
            let kind = crate::translator::linking_function_spec(callee.name@)->Some_0;
            lemma_call_foreign_function_is_quiet(
                state.net(),
                places,
                crate::translator::linking_labels_spec(kind, counters.of_kind(kind)),
            );
            if after.net().is_ok() {
                after.net().lemma_quiet_step_keeps_guards(state.net());
            }
        } else if callee.body is Some {
            lemma_call_body_keeps_guards(program, state, def_id, args, destination, places, depth);
        } else {
            lemma_call_foreign_function_is_quiet(
                state.net(),
                places,
                crate::naming::function::foreign_call_transition_labels_spec(
                    crate::naming::function::call_name_spec(callee.name@, counters.call_counter),
                ),
            );
            if after.net().is_ok() {
                after.net().lemma_quiet_step_keeps_guards(state.net());
            }
        }
    }
}

/// A call to a supported function keeps the guards, and so does the
/// translation of the thread that it may spawn.
pub proof fn lemma_call_sync_keeps_guards(
    program: Program,
    state: WalkModel,
    function_name: Seq<char>,
    args: Seq<Operand>,
    destination: Place,
    places: FunctionPlacesModel,
    depth: nat,
)
    requires
        state.function.has_unguarded_places(),
        places.is_unguarded(),
    ensures
        walk_keeps_guards(
            call_sync_spec(program, state, function_name, args, destination, places, depth),
            state,
        ),
    decreases depth, 0nat, 1nat,
{
    crate::translator::sync::lemma_call_and_resolve(
        function_name,
        args,
        destination,
        places,
        state.net(),
        state.function.memory,
        state.translator.managers,
    );
    crate::translator::invariants::lemma_call_sync_advances(
        program,
        state,
        function_name,
        args,
        destination,
        places,
        depth,
    );
    crate::translator::invariants::lemma_sync_call_advances(
        function_name,
        args,
        destination,
        places,
        state.net(),
        state.function.memory,
        state.translator.managers,
    );
    lemma_sync_call_keeps_guards(
        function_name,
        args,
        destination,
        places,
        state.net(),
        state.function.memory,
        state.translator.managers,
    );
    let called = crate::translator::sync::translated_call_spec(
        function_name,
        args,
        destination,
        places,
        state.net(),
        state.function.memory,
        state.translator.managers,
    );
    let after = WalkModel {
        translator: TranslatorModel {
            net: called.net,
            managers: called.managers,
            ..state.translator
        },
        function: MirFunctionModel { memory: called.memory, ..state.function },
    };
    match called.task {
        Some(PostprocessingTaskModel::NewThread { thread, function, environment }) => {
            lemma_spawn_thread_keeps_guards(program, after, thread, function, environment, depth);
            lemma_two_steps_keep_guards(
                state.net(),
                after.net(),
                spawn_thread_spec(program, after, thread, function, environment, depth).net(),
            );
        },
        _ => {},
    }
}

/// The translation of the function of a thread keeps the guards.
pub proof fn lemma_spawn_thread_keeps_guards(
    program: Program,
    state: WalkModel,
    thread: ThreadRef,
    function: usize,
    environment: Value,
    depth: nat,
)
    requires
        state.function.has_unguarded_places(),
    ensures
        walk_keeps_guards(
            spawn_thread_spec(program, state, thread, function, environment, depth),
            state,
        ),
    decreases depth, 0nat, 0nat,
{
    let after = spawn_thread_spec(program, state, thread, function, environment, depth);
    crate::translator::invariants::lemma_spawn_thread_advances(
        program,
        state,
        thread,
        function,
        environment,
        depth,
    );
    let counters = state.translator.counters;
    let places = ThreadModel::of_index(thread.0 as nat, None);
    lemma_thread_places_are_not_guarded(thread.0 as nat);
    lemma_program_places_are_not_guarded();
    if function < program.functions@.len() {
        let callee = program.functions@[function as int];
        let name = crate::naming::function::call_name_spec(callee.name@, counters.call_counter);
        if callee.body is Some {
            if depth > 0 {
                lemma_translate_function_keeps_guards(
                    program,
                    TranslatorModel { counters: counters.count_call(), ..state.translator },
                    function,
                    name,
                    places.start,
                    places.end,
                    PROGRAM_PANIC@,
                    state.function.memory.enter(
                        callee.body->Some_0.local_count as nat,
                        seq![environment],
                    ),
                    (depth - 1) as nat,
                );
            }
        } else {
            lemma_call_foreign_function_is_quiet(
                state.net(),
                FunctionPlacesModel { start: places.start, end: places.end, cleanup: None },
                crate::naming::function::foreign_call_transition_labels_spec(name),
            );
            if after.net().is_ok() {
                after.net().lemma_quiet_step_keeps_guards(state.net());
            }
        }
    }
}

/// The translation of the body of a called function keeps the guards.
pub proof fn lemma_call_body_keeps_guards(
    program: Program,
    state: WalkModel,
    def_id: usize,
    args: Seq<Operand>,
    destination: Place,
    places: FunctionPlacesModel,
    depth: nat,
)
    requires
        state.function.has_unguarded_places(),
        places.is_unguarded(),
    ensures
        walk_keeps_guards(
            call_body_spec(program, state, def_id, args, destination, places, depth),
            state,
        ),
    decreases depth, 0nat, 0nat,
{
    crate::translator::invariants::lemma_call_body_advances(
        program,
        state,
        def_id,
        args,
        destination,
        places,
        depth,
    );
    let counters = state.translator.counters;
    if def_id < program.functions@.len() && program.functions@[def_id as int].body is Some
        && depth > 0 {
        let callee = program.functions@[def_id as int];
        lemma_translate_function_keeps_guards(
            program,
            TranslatorModel { counters: counters.count_call(), ..state.translator },
            def_id,
            crate::naming::function::call_name_spec(callee.name@, counters.call_counter),
            places.start,
            places.end,
            match places.cleanup {
                Some(cleanup) => cleanup,
                None => state.function.unwind,
            },
            state.function.memory.enter(
                callee.body->Some_0.local_count as nat,
                state.function.memory.argument_values(args),
            ),
            (depth - 1) as nat,
        );
    }
}

/// The translation of the body of a function between places that are not
/// guarded keeps the guards.
pub proof fn lemma_translate_function_keeps_guards(
    program: Program,
    translator: TranslatorModel,
    def_id: usize,
    name: Seq<char>,
    start: Label,
    end: Label,
    unwind: Label,
    memory: MemoryModel,
    depth: nat,
)
    requires
        !is_guarded_place(start),
        !is_guarded_place(end),
        !is_guarded_place(unwind),
    ensures
        translate_function_spec(
            program,
            translator,
            def_id,
            name,
            start,
            end,
            unwind,
            memory,
            depth,
        ).0.net.keeps_guards(translator.net),
    decreases depth, 3nat, 0nat,
{
    if def_id < program.functions@.len() && program.functions@[def_id as int].body is Some {
        let body = program.functions@[def_id as int].body->Some_0;
        let function = MirFunctionModel::new(
            name,
            start,
            end,
            unwind,
            body.basic_blocks@.len(),
            memory,
        );
        lemma_visit_blocks_keeps_guards(
            program,
            WalkModel { translator, function },
            body.basic_blocks@,
            0,
            depth,
        );
    }
}

/// The translation of basic blocks in a row keeps the guards.
pub proof fn lemma_visit_blocks_keeps_guards(
    program: Program,
    state: WalkModel,
    blocks: Seq<BasicBlockData>,
    from: nat,
    depth: nat,
)
    requires
        state.function.has_unguarded_places(),
    ensures
        walk_keeps_guards(visit_blocks_spec(program, state, blocks, from, depth), state),
    decreases depth, 2nat, blocks.len() - from,
{
    crate::translator::invariants::lemma_visit_blocks_advances(program, state, blocks, from, depth);
    if !(state.net().error is Some || from >= blocks.len()) {
        let next = visit_basic_block_data_spec(program, state, from, blocks[from as int], depth);
        lemma_visit_basic_block_data_keeps_guards(program, state, from, blocks[from as int], depth);
        lemma_visit_blocks_keeps_guards(program, next, blocks, from + 1, depth);
        lemma_two_steps_keep_guards(
            state.net(),
            next.net(),
            visit_blocks_spec(program, next, blocks, from + 1, depth).net(),
        );
    }
}

/// The translation of a basic block keeps the guards.
pub proof fn lemma_visit_basic_block_data_keeps_guards(
    program: Program,
    state: WalkModel,
    block: nat,
    data: BasicBlockData,
    depth: nat,
)
    requires
        state.function.has_unguarded_places(),
    ensures
        walk_keeps_guards(visit_basic_block_data_spec(program, state, block, data, depth), state),
    decreases depth, 1nat, 1nat,
{
    crate::translator::invariants::lemma_visit_basic_block_data_advances(
        program,
        state,
        block,
        data,
        depth,
    );
    let activated = state.with(state.function.activate_block(state.net(), block));
    state.function.lemma_block_place_is_quiet(state.net(), block);
    if activated.net().error is None {
        activated.net().lemma_quiet_step_keeps_guards(state.net());
        match crate::translator::visit_statements_spec(
            activated.function.memory,
            data.statements@,
            0,
        ) {
            Ok(memory) => {
                let visited = WalkModel {
                    function: MirFunctionModel { memory, ..activated.function },
                    ..activated
                };
                lemma_visit_terminator_keeps_guards(program, visited, data.terminator, depth);
                crate::translator::invariants::lemma_visit_terminator_advances(
                    program,
                    visited,
                    data.terminator,
                    depth,
                );
                lemma_two_steps_keep_guards(
                    state.net(),
                    activated.net(),
                    visit_terminator_spec(program, visited, data.terminator, depth).net(),
                );
            },
            Err(_) => {},
        }
    }
}

/// The net of a program that is translated without error guards its
/// mutexes and condition variables.
pub proof fn lemma_translation_guards(program: Program)
    requires
        translate_spec(program).is_ok(),
    ensures
        translate_spec(program).guards(),
        translate_spec(program).closed(),
{
    lemma_program_places_are_not_guarded();
    let initial = initial_net_spec();
    assert forall|index: nat| #[trigger] initial.guards_index(index) by {
        lemma_mutex_places(index);
        lemma_condvar_places(index);
        lemma_program_places_are_not_guarded();
    }
    if program.entry < program.functions@.len() {
        let translator = TranslatorModel {
            net: initial,
            managers: SyncModel::empty(),
            counters: crate::translator::CountersModel::zero(),
        };
        let memory = MemoryModel::new(
            match program.functions@[program.entry as int].body {
                Some(body) => body.local_count as nat,
                None => 0,
            },
        );
        lemma_translate_function_keeps_guards(
            program,
            translator,
            program.entry,
            program.functions@[program.entry as int].name@,
            PROGRAM_START@,
            PROGRAM_END@,
            PROGRAM_PANIC@,
            memory,
            crate::translator::MAX_CALL_DEPTH as nat,
        );
        crate::translator::invariants::lemma_translate_function_advances(
            program,
            translator,
            program.entry,
            program.functions@[program.entry as int].name@,
            PROGRAM_START@,
            PROGRAM_END@,
            PROGRAM_PANIC@,
            memory,
            crate::translator::MAX_CALL_DEPTH as nat,
        );
    }
}

/// Mutual exclusion: in the net of a program that is translated without
/// error, the place `locked` of a mutex holds at most one token in every
/// marking that can be reached from the initial marking.
pub proof fn lemma_translated_mutex_excludes(
    program: Program,
    index: nat,
    marking: crate::semantics::Marking,
)
    requires
        translate_spec(program).is_ok(),
        translate_spec(program).places.contains_key(MutexModel::of_index(index).locked),
        translate_spec(program).reachable(marking),
    ensures
        marking.contains_key(MutexModel::of_index(index).locked),
        marking[MutexModel::of_index(index).locked] <= 1,
{
    lemma_translation_guards(program);
    lemma_guarded_mutex_excludes(translate_spec(program), index, marking);
}

/// Signals without a waiter are lost: in the net of a program that is
/// translated without error, a run that starts with nobody waiting on a
/// condition variable and in which no wait on it starts never fires the
/// transition that hands a signal to a waiter, and leaves the place
/// `signal_output` empty. Every signal of such a run is taken by the
/// transition that loses it.
pub proof fn lemma_translated_condvar_loses_signals(
    program: Program,
    index: nat,
    marking: crate::semantics::Marking,
    firings: Seq<Label>,
)
    requires
        translate_spec(program).is_ok(),
        translate_spec(program).places.contains_key(CondvarModel::of_index(index).signal_output),
        marking.contains_key(CondvarModel::of_index(index).wait_input),
        marking.contains_key(CondvarModel::of_index(index).signal_output),
        marking[CondvarModel::of_index(index).wait_input] == 0,
        marking[CondvarModel::of_index(index).signal_output] == 0,
        translate_spec(program).can_run(marking, firings),
        forall|i: int|
            0 <= i < firings.len() ==> !translate_spec(program).outputs.contains(
                (#[trigger] firings[i], CondvarModel::of_index(index).wait_input),
            ),
    ensures
        forall|i: int|
            0 <= i < firings.len() ==> #[trigger] firings[i]
                != crate::naming::condvar::transition_labels_spec(index).1,
        translate_spec(program).run(marking, firings)[CondvarModel::of_index(
            index,
        ).signal_output] == 0,
{
    let net = translate_spec(program);
    lemma_translation_guards(program);
    assert(net.guards_index(index));
    CondvarModel::of_index(index).lemma_signals_without_waiter_are_lost(
        net,
        crate::naming::condvar::transition_labels_spec(index),
        marking,
        firings,
    );
}

/// A condition variable on which nobody waits is silent: in the net of a
/// program that is translated without error, if no call to `wait` is linked
/// to a condition variable, then in every marking that can be reached from
/// the initial marking its places `wait_input` and `signal_output` are
/// empty and the transition that hands a signal over is not enabled. Every
/// signal is taken by the transition that loses it.
pub proof fn lemma_translated_condvar_is_silent_without_wait(
    program: Program,
    index: nat,
    marking: crate::semantics::Marking,
)
    requires
        translate_spec(program).is_ok(),
        translate_spec(program).places.contains_key(CondvarModel::of_index(index).signal_output),
        forall|t: Label|
            !(#[trigger] translate_spec(program).outputs.contains(
                (t, CondvarModel::of_index(index).wait_input),
            )),
        translate_spec(program).reachable(marking),
    ensures
        marking.contains_key(CondvarModel::of_index(index).wait_input),
        marking.contains_key(CondvarModel::of_index(index).signal_output),
        marking[CondvarModel::of_index(index).wait_input] == 0,
        marking[CondvarModel::of_index(index).signal_output] == 0,
        !translate_spec(program).enabled(
            marking,
            crate::naming::condvar::transition_labels_spec(index).1,
        ),
{
    let net = translate_spec(program);
    lemma_translation_guards(program);
    assert(net.guards_index(index));
    CondvarModel::of_index(index).lemma_unwaited_condvar_is_silent(
        net,
        crate::naming::condvar::transition_labels_spec(index),
        marking,
    );
}

/// In a net that guards its mutexes, the place `locked` of a mutex holds
/// at most one token in every marking that can be reached from the initial
/// marking, and the two places of the mutex hold one token together.
pub proof fn lemma_guarded_mutex_excludes(
    net: NetModel,
    index: nat,
    marking: crate::semantics::Marking,
)
    requires
        net.guards(),
        net.places.contains_key(MutexModel::of_index(index).locked),
        net.reachable(marking),
    ensures
        marking.contains_key(MutexModel::of_index(index).locked),
        marking.contains_key(MutexModel::of_index(index).unlocked),
        marking[MutexModel::of_index(index).locked] <= 1,
        marking[MutexModel::of_index(index).locked] + marking[MutexModel::of_index(
            index,
        ).unlocked] == 1,
{
    assert(net.guards_index(index));
    lemma_mutexes_apart(index, index);
    MutexModel::of_index(index).lemma_mutual_exclusion(net, marking);
}

/// The drop of the guard of a mutex unlocks the mutex: the transition of
/// the drop takes a token from `locked` and puts one on `unlocked`, and it
/// puts none on `locked`.
pub proof fn lemma_drop_unlocks(
    state: WalkModel,
    place: Place,
    target: nat,
    unwind: Option<usize>,
    index: nat,
)
    requires
        state.function.has_unguarded_places(),
        state.net().closed(),
        state.function.drop_value(state.net(), target, unwind).1.memory.get(place.local as int)
            == Ok::<Value, crate::error_handling::TranslationError>(
            Value::MutexGuard(crate::translator::sync::MutexRef(index as usize)),
        ),
        index as usize == index,
        ({
            let dropped = state.function.drop_value(state.net(), target, unwind);
            state.translator.managers.mutexes.handle_lock_guard_drop(
                dropped.0,
                dropped.1.memory,
                place,
                crate::naming::basic_block::drop_transition_labels_spec(
                    state.function.name,
                    state.function.active_block,
                ).0,
            )
        }).is_ok(),
    ensures
        ({
            let dropped = state.function.drop_value(state.net(), target, unwind);
            let label = crate::naming::basic_block::drop_transition_labels_spec(
                state.function.name,
                state.function.active_block,
            ).0;
            let after = state.translator.managers.mutexes.handle_lock_guard_drop(
                dropped.0,
                dropped.1.memory,
                place,
                label,
            );
            let mutex = MutexModel::of_index(index);
            &&& after.inputs.contains((mutex.locked, label))
            &&& after.outputs.contains((label, mutex.unlocked))
            &&& !after.outputs.contains((label, mutex.locked))
            &&& !after.inputs.contains((mutex.unlocked, label))
        }),
{
    let labels = crate::naming::basic_block::drop_transition_labels_spec(
        state.function.name,
        state.function.active_block,
    );
    state.function.lemma_two_way_is_quiet(state.net(), target, unwind, labels);
    state.function.lemma_two_way_advances(state.net(), target, unwind, labels);
    state.function.lemma_block_label_is_unguarded(state.function.active_block);
    state.function.lemma_block_label_is_unguarded(target);
    lemma_mutex_places(index);
    lemma_mutexes_apart(index, index);
}

/// What is locked is unlocked on every way out: in the net of a program
/// that is translated without error, every transition that takes the token
/// from the place `locked` of a mutex puts it on the place `unlocked` of
/// that mutex, and every transition that takes the token from `unlocked`
/// puts it on `locked`.
pub proof fn lemma_translated_locked_tokens_return(program: Program, index: nat, transition: Label)
    requires
        translate_spec(program).is_ok(),
    ensures
        translate_spec(program).inputs.contains((MutexModel::of_index(index).locked, transition))
            ==> translate_spec(program).outputs.contains(
            (transition, MutexModel::of_index(index).unlocked),
        ),
        translate_spec(program).inputs.contains(
            (MutexModel::of_index(index).unlocked, transition),
        ) ==> translate_spec(program).outputs.contains(
            (transition, MutexModel::of_index(index).locked),
        ),
{
    lemma_translation_guards(program);
    assert(translate_spec(program).guards_index(index));
}

/// The side effects of a wait keep the guards: the start of the wait gets
/// the arcs that unlock the mutex, the end of the wait the arcs that lock it.
pub proof fn lemma_side_effects_wait_keep_guards(
    managers: SyncModel,
    net: NetModel,
    memory: MemoryModel,
    args: Seq<Operand>,
    wait_start: Label,
    wait_end: Label,
)
    ensures
        managers.condvars.translate_side_effects_wait(
            net,
            managers.mutexes,
            memory,
            args,
            wait_start,
            wait_end,
        ).keeps_guards(net),
{
    let after = managers.condvars.translate_side_effects_wait(
        net,
        managers.mutexes,
        memory,
        args,
        wait_start,
        wait_end,
    );
    if after.is_ok() && net.closed() && net.guards() {
        let lock_guard = crate::utils::nth_argument_spec(args, 1)->Some_0;
        let mutex_ref = memory.linked_lock_guard(lock_guard.local as int)->Ok_0;
        let mutex = MutexModel::of_index(mutex_ref.0 as nat);
        let unlocked = mutex.add_unlock_guard(net, wait_start);
        lemma_unlock_guard_keeps_guards(net, mutex_ref.0 as nat, wait_start);
        let locked = mutex.add_lock_guard(unlocked, wait_end);
        lemma_lock_guard_keeps_guards(unlocked, mutex_ref.0 as nat, wait_end);
        let receiver = crate::utils::nth_argument_spec(args, 0)->Some_0;
        let condvar_ref = memory.linked_condvar(receiver.local as int)->Ok_0;
        lemma_link_to_wait_keeps_guards(locked, condvar_ref.0 as nat, wait_start, wait_end);
    }
}

/// A task that is done keeps the guards.
pub proof fn lemma_resolved_task_keeps_guards(
    task: crate::translator::function_call::PostprocessingTaskModel,
    args: Seq<Operand>,
    destination: Place,
    net: NetModel,
    memory: MemoryModel,
    managers: SyncModel,
)
    ensures
        crate::translator::sync::resolve_task_spec(
            task,
            args,
            destination,
            net,
            memory,
            managers,
        ).net.keeps_guards(net),
{
    let after = crate::translator::sync::resolve_task_spec(
        task,
        args,
        destination,
        net,
        memory,
        managers,
    ).net;
    if after.is_ok() && net.closed() && net.guards() {
        match task {
            crate::translator::function_call::PostprocessingTaskModel::NewMutex => {
                lemma_new_mutex_keeps_guards(net, managers.mutexes.count);
            },
            crate::translator::function_call::PostprocessingTaskModel::LinkWait {
                wait_start,
                wait_end,
            } => {
                lemma_side_effects_wait_keep_guards(
                    managers,
                    net,
                    memory,
                    args,
                    wait_start,
                    wait_end,
                );
            },
            _ => {},
        }
    }
}

} // verus!
