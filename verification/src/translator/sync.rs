//! The translation of synchronization primitives and of threads.

pub mod condvar;
pub mod condvar_manager;
pub mod mutex;
pub mod mutex_manager;
pub mod thread;
pub mod thread_manager;

use crate::error_handling::{InternalDefect, TranslationError};
use crate::net_model::NetModel;
use crate::petri_net_interface::{outcome_matches, transition_label, Net};
use crate::program::{Operand, Place, ProjectionElem};
use crate::translator::function_call::{
    task_view, FunctionPlaces, FunctionPlacesModel, PostprocessingTask, PostprocessingTaskModel,
};
use crate::translator::mir_function::memory::{Memory, MemoryModel, Value};
use crate::translator::sync::condvar_manager::{CondvarManager, CondvarManagerModel};
use crate::translator::sync::mutex_manager::{MutexManager, MutexManagerModel};
use crate::translator::sync::thread_manager::{ThreadManager, ThreadManagerModel};
use crate::utils::{
    check_substring_in_place_type, contains_substring, extract_nth_argument,
    extract_nth_argument_as_place, nth_argument_spec,
};
use vstd::prelude::*;
use vstd::string::*;

verus! {

/// A mutex, named by its index in the list of the mutexes found so far.
#[derive(Clone, Copy, Debug, PartialEq, Eq)]
pub struct MutexRef(pub usize);

/// A thread, named by its index in the list of the threads found so far.
#[derive(Clone, Copy, Debug, PartialEq, Eq)]
pub struct ThreadRef(pub usize);


/// The managers of the three kinds of synchronization objects.
pub struct SyncManagers {
    pub mutex_manager: MutexManager,
    pub condvar_manager: CondvarManager,
    pub thread_manager: ThreadManager,
}

/// The state of the three managers.
pub struct SyncModel {
    pub mutexes: MutexManagerModel,
    pub condvars: CondvarManagerModel,
    pub threads: ThreadManagerModel,
}

impl SyncModel {
    /// The state in which no synchronization object was found yet.
    pub open spec fn empty() -> SyncModel {
        SyncModel {
            mutexes: MutexManagerModel { count: 0, lock_counter: 0 },
            condvars: CondvarManagerModel { count: 0, wait_counter: 0, notify_one_counter: 0 },
            threads: ThreadManagerModel { join_transitions: Seq::empty(), join_counter: 0 },
        }
    }
}

impl View for SyncManagers {
    type V = SyncModel;

    open spec fn view(&self) -> SyncModel {
        SyncModel {
            mutexes: self.mutex_manager@,
            condvars: self.condvar_manager@,
            threads: self.thread_manager@,
        }
    }
}

impl SyncManagers {
    /// Whether every synchronization object has its places in the net.
    pub open spec fn wf(&self, net: Net) -> bool {
        &&& self.mutex_manager.wf(net)
        &&& self.condvar_manager.wf(net)
        &&& self.thread_manager.wf(net)
    }

    /// The managers before any synchronization object was found.
    pub fn new() -> (managers: SyncManagers)
        ensures
            managers@ == SyncModel::empty(),
            forall|net: Net| managers.wf(net),
    {
        SyncManagers {
            mutex_manager: MutexManager::new(),
            condvar_manager: CondvarManager::new(),
            thread_manager: ThreadManager::new(),
        }
    }
}

/// Whether the function is one of the supported functions on mutexes,
/// condition variables and threads.
pub open spec fn is_supported_function_spec(function_name: Seq<char>) -> bool {
    ||| function_name == "std::sync::Condvar::new"@
    ||| function_name == "std::sync::Condvar::notify_one"@
    ||| function_name == "std::sync::Condvar::wait"@
    ||| function_name == "std::sync::Condvar::wait_while"@
    ||| function_name == "std::sync::Mutex::<T>::lock"@
    ||| function_name == "std::sync::Mutex::<T>::new"@
    ||| function_name == "std::thread::spawn"@
    ||| function_name == "std::thread::JoinHandle::<T>::join"@
}

fn is_name(function_name: &str, expected: &str) -> (equal: bool)
    ensures
        equal == (function_name@ == expected@),
{
    String::from_str(function_name) == String::from_str(expected)
}

/// Checks whether the function name corresponds to one of the
/// supported synchronization or multithreading functions.
pub fn is_supported_function(function_name: &str) -> (supported: bool)
    ensures
        supported == is_supported_function_spec(function_name@),
{
    is_name(function_name, "std::sync::Condvar::new") || is_name(
        function_name,
        "std::sync::Condvar::notify_one",
    ) || is_name(function_name, "std::sync::Condvar::wait") || is_name(
        function_name,
        "std::sync::Condvar::wait_while",
    ) || is_name(function_name, "std::sync::Mutex::<T>::lock") || is_name(
        function_name,
        "std::sync::Mutex::<T>::new",
    ) || is_name(function_name, "std::thread::spawn") || is_name(
        function_name,
        "std::thread::JoinHandle::<T>::join",
    )
}

/// Whether a printed type is that of a mutex, a mutex guard, a join handle or
/// a condition variable, or holds one.
pub open spec fn is_sync_type(printed_type: Seq<char>) -> bool {
    ||| contains_substring(printed_type, "std::sync::MutexGuard<"@)
    ||| contains_substring(printed_type, "std::sync::Mutex<"@)
    ||| contains_substring(printed_type, "std::thread::JoinHandle<"@)
    ||| contains_substring(printed_type, "std::sync::Condvar"@)
}

/// Checks whether a place contains a sync variable
/// (mutex, mutex guard, join handle or condition variable).
pub fn check_if_sync_variable(place: &Place) -> (is_sync: bool)
    ensures
        is_sync == is_sync_type(place.ty.name@),
{
    check_substring_in_place_type(place, "std::sync::MutexGuard<")
        || check_substring_in_place_type(place, "std::sync::Mutex<")
        || check_substring_in_place_type(place, "std::thread::JoinHandle<")
        || check_substring_in_place_type(place, "std::sync::Condvar")
}

/// What an operand contributes to an aggregate: what its place denotes, if
/// the place holds a sync variable; nothing otherwise.
pub open spec fn operand_value_spec(memory: MemoryModel, operand: Operand) -> Value {
    match nth_argument_spec(seq![operand], 0) {
        Some(place) => if is_sync_type(place.ty.name@) && place.local < memory.slots.len() {
            memory.slots[place.local as int]
        } else {
            Value::Unlinked
        },
        None => Value::Unlinked,
    }
}

/// Whether an operand is a place that holds a sync variable.
pub open spec fn is_sync_operand(operand: Operand) -> bool {
    match nth_argument_spec(seq![operand], 0) {
        Some(place) => is_sync_type(place.ty.name@),
        None => false,
    }
}

/// The memory after an assignment of an aggregate. If one of the operands
/// holds a sync variable, the place denotes a new aggregate with one field
/// for each operand, in their order.
pub open spec fn handle_aggregate_assignment_spec(
    memory: MemoryModel,
    place: Place,
    operands: Seq<Operand>,
) -> Result<MemoryModel, TranslationError> {
    if exists|i: int| 0 <= i < operands.len() && is_sync_operand(#[trigger] operands[i]) {
        memory.create_aggregate(
            place.local as int,
            Seq::new(operands.len(), |i: int| operand_value_spec(memory, operands[i])),
        )
    } else {
        Ok(memory)
    }
}

/// Handles assignments of the form: `_X = { copy_data: move _Y }`.
/// Creates a new aggregate value (tuple, array, `std::sync::Arc`, etc.) from the operands.
/// An operand that holds a sync variable contributes what it denotes;
/// any other operand contributes an empty field.
pub fn handle_aggregate_assignment(place: &Place, operands: &Vec<Operand>, memory: &mut Memory) -> (done:
    Result<(), TranslationError>)
    ensures
        done is Ok ==> handle_aggregate_assignment_spec(old(memory)@, *place, operands@) == Ok::<
            MemoryModel,
            TranslationError,
        >(final(memory)@),
        done is Err ==> handle_aggregate_assignment_spec(old(memory)@, *place, operands@) == Err::<
            MemoryModel,
            TranslationError,
        >(done->Err_0),
        done is Err ==> final(memory)@ == old(memory)@,
{
    let mut fields: Vec<Value> = Vec::new();
    let mut found = false;
    let mut i: usize = 0;
    while i < operands.len()
        invariant
            i <= operands@.len(),
            *memory == *old(memory),
            fields@.len() == i,
            forall|k: int|
                0 <= k < i ==> fields@[k] == operand_value_spec(memory@, #[trigger] operands@[k]),
            found <==> exists|k: int| 0 <= k < i && is_sync_operand(#[trigger] operands@[k]),
        decreases operands@.len() - i,
    {
        let ghost operand = operands@[i as int];
        assert(seq![operand][0] == operand);
        let value = match extract_nth_argument_as_place(operands, i) {
            Some(rhs) => {
                if check_if_sync_variable(rhs) {
                    found = true;
                    match memory.get(rhs.local) {
                        Ok(value) => value,
                        Err(_) => Value::Unlinked,
                    }
                } else {
                    Value::Unlinked
                }
            },
            // Nothing to do if we found a constant as one of the operands.
            None => Value::Unlinked,
        };
        fields.push(value);
        i = i + 1;
    }
    if found {
        assert(fields@ =~= Seq::new(
            operands@.len(),
            |i: int| operand_value_spec(memory@, operands@[i]),
        ));
        memory.create_aggregate(place.local, fields)
    } else {
        Ok(())
    }
}


/// The index of the last field access on the path of a place, if there is one.
pub open spec fn last_field_spec(projection: Seq<ProjectionElem>) -> Option<usize>
    decreases projection.len(),
{
    if projection.len() == 0 {
        None
    } else {
        match projection.last() {
            ProjectionElem::Field(number) => Some(number),
            _ => last_field_spec(projection.drop_last()),
        }
    }
}

fn last_field(projection: &Vec<ProjectionElem>) -> (field_number: Option<usize>)
    ensures
        field_number == last_field_spec(projection@),
{
    let mut field_number: Option<usize> = None;
    let mut i: usize = 0;
    assert(projection@.take(0) =~= Seq::empty());
    while i < projection.len()
        invariant
            i <= projection@.len(),
            field_number == last_field_spec(projection@.take(i as int)),
        decreases projection@.len() - i,
    {
        assert(projection@.take(i + 1).drop_last() =~= projection@.take(i as int));
        match projection[i] {
            ProjectionElem::Field(number) => {
                field_number = Some(number);
            },
            _ => {},
        }
        i = i + 1;
    }
    assert(projection@.take(projection@.len() as int) =~= projection@);
    field_number
}

/// The memory after `place_to_link` was linked to `place_linked`, provided
/// that the type of `place_to_check_type` is that of a sync variable.
pub open spec fn generalized_link_place_if_sync_variable_spec(
    memory: MemoryModel,
    place_to_link: Place,
    place_linked: Place,
    place_to_check_type: Place,
) -> Result<MemoryModel, TranslationError> {
    if is_sync_type(place_to_check_type.ty.name@) {
        memory.link(place_to_link.local as int, place_linked.local as int)
    } else {
        Ok(memory)
    }
}

/// The error of a path without a field access where one is needed.
pub open spec fn field_expected() -> TranslationError {
    TranslationError::Internal(InternalDefect::FieldExpected)
}

/// The memory after an assignment of `place_linked`, or of a reference to
/// it, to `place_to_link`. A local variable without a path is linked if it
/// holds a sync variable. Where `place_linked` has a path and the place
/// assigned to is of the type of a sync variable, the place now denotes what
/// the last field accessed on the path denotes; a path without a field
/// access is a defect.
pub open spec fn link_if_sync_variable_spec(
    memory: MemoryModel,
    place_to_link: Place,
    place_linked: Place,
) -> Result<MemoryModel, TranslationError> {
    if place_linked.projection@.len() == 0 {
        generalized_link_place_if_sync_variable_spec(
            memory,
            place_to_link,
            place_linked,
            place_linked,
        )
    } else if !is_sync_type(place_to_link.ty.name@) {
        Ok(memory)
    } else {
        match last_field_spec(place_linked.projection@) {
            Some(field_number) => memory.link_field(
                place_to_link.local as int,
                place_linked.local as int,
                field_number as int,
            ),
            None => Err(field_expected()),
        }
    }
}

/// The memory after a call whose return value may be the sync variable of
/// its first argument.
pub open spec fn link_return_value_if_sync_variable_spec(
    memory: MemoryModel,
    args: Seq<Operand>,
    return_value: Place,
) -> Result<MemoryModel, TranslationError> {
    match nth_argument_spec(args, 0) {
        Some(first_argument) => link_if_sync_variable_spec(memory, return_value, first_argument),
        None => Ok(memory),
    }
}

/// Checks if `place_linked` contains a mutex, a mutex guard, a join handle or a condition variable.
/// If `place_linked` contains a synchronization variable, links it to `place_to_link`.
///
/// This handler works for assignments of the form:
/// - `_X = _Y`
/// - `_X = &_Y`
/// - `_X = move _Y`
/// - `_X = (*_Y).Z:`
/// - `_X = &((*_Y).Z)`
/// - `_X = move (*_Y).Z`
///
/// It also works for checking if a function argument is a sync variable
/// and then linking the return value to the argument.
pub fn link_if_sync_variable(place_to_link: &Place, place_linked: &Place, memory: &mut Memory) -> (linked:
    Result<(), TranslationError>)
    ensures
        linked is Ok ==> link_if_sync_variable_spec(old(memory)@, *place_to_link, *place_linked)
            == Ok::<MemoryModel, TranslationError>(final(memory)@),
        linked is Err ==> link_if_sync_variable_spec(old(memory)@, *place_to_link, *place_linked)
            == Err::<MemoryModel, TranslationError>(linked->Err_0),
        linked is Err ==> final(memory)@ == old(memory)@,
{
    if place_linked.projection.len() == 0 {
        // In the normal case the place linked to the sync variable
        // is simply `place_linked`.
        generalized_link_place_if_sync_variable(place_to_link, place_linked, place_linked, memory)
    } else {
        if !check_if_sync_variable(place_to_link) {
            return Ok(());
        }
        // Get the field number, i.e., the index to access the aggregate value
        match last_field(&place_linked.projection) {
            Some(field_number) => memory.link_field_in_aggregate(
                place_to_link.local,
                place_linked.local,
                field_number,
            ),
            None => Err(TranslationError::Internal(InternalDefect::FieldExpected)),
        }
    }
}

/// Checks if `place_to_check_type` contains a mutex, a mutex guard, a join handle or a condition variable.
/// If `place_to_check_type` is of type of a synchronization variable, links `place_linked` to `place_to_link`.
///
/// This function decouples the place with the type of the sync variable from the place that is linked to the sync
/// variable.
fn generalized_link_place_if_sync_variable(
    place_to_link: &Place,
    place_linked: &Place,
    place_to_check_type: &Place,
    memory: &mut Memory,
) -> (linked: Result<(), TranslationError>)
    ensures
        linked is Ok ==> generalized_link_place_if_sync_variable_spec(
            old(memory)@,
            *place_to_link,
            *place_linked,
            *place_to_check_type,
        ) == Ok::<MemoryModel, TranslationError>(final(memory)@),
        linked is Err ==> generalized_link_place_if_sync_variable_spec(
            old(memory)@,
            *place_to_link,
            *place_linked,
            *place_to_check_type,
        ) == Err::<MemoryModel, TranslationError>(linked->Err_0),
        linked is Err ==> final(memory)@ == old(memory)@,
{
    if check_if_sync_variable(place_to_check_type) {
        memory.link_place_to_same_value(place_to_link.local, place_linked.local)
    } else {
        Ok(())
    }
}

/// Checks if the first argument for a function call contains a mutex, a mutex guard,
/// a join handle or a condition variable, i.e. a synchronization variable.
/// If the first argument contains a synchronization variable, links it to the return value.
/// If there is no first argument or it is a constant,
/// then there is nothing to check, therefore the function simply returns.
///
/// Why check only the first argument?
/// Because most function in the standard library involving synchronization primitives
/// receive it through the first argument. For instance:
///  * `std::clone::Clone::clone`
///  * `std::ops::Deref::deref`
///  * `std::ops::DerefMut::deref_mut`
///  * `std::result::Result::<T, E>::unwrap`
///  * `std::sync::Arc::<T>::new`
pub fn link_return_value_if_sync_variable(
    args: &Vec<Operand>,
    return_value: &Place,
    memory: &mut Memory,
) -> (linked: Result<(), TranslationError>)
    ensures
        linked is Ok ==> link_return_value_if_sync_variable_spec(
            old(memory)@,
            args@,
            *return_value,
        ) == Ok::<MemoryModel, TranslationError>(final(memory)@),
        linked is Err ==> link_return_value_if_sync_variable_spec(
            old(memory)@,
            args@,
            *return_value,
        ) == Err::<MemoryModel, TranslationError>(linked->Err_0),
        linked is Err ==> final(memory)@ == old(memory)@,
{
    match extract_nth_argument_as_place(args, 0) {
        Some(first_argument) => link_if_sync_variable(return_value, first_argument, memory),
        // Nothing to check: Either the first argument is not present or it is a constant.
        None => Ok(()),
    }
}


/// The state after the call of a supported function was translated.
pub struct SyncCallModel {
    pub net: NetModel,
    pub memory: MemoryModel,
    pub managers: SyncModel,
    /// What is left to do once the call is wired.
    pub task: Option<PostprocessingTaskModel>,
}

/// The error of a dispatch to a function for which no handler is defined.
pub open spec fn no_handler() -> TranslationError {
    TranslationError::Internal(InternalDefect::NoHandler)
}

/// The state after a call to `std::sync::Condvar::new`.
pub open spec fn call_condvar_new_spec(
    destination: Place,
    places: FunctionPlacesModel,
    net: NetModel,
    memory: MemoryModel,
    managers: SyncModel,
) -> SyncCallModel {
    let called = managers.condvars.translate_call_new(net, places);
    let done = managers.condvars.translate_side_effects_new(called, memory, destination);
    SyncCallModel {
        net: done.0,
        memory: done.1,
        managers: SyncModel {
            condvars: CondvarManagerModel {
                count: managers.condvars.count + 1,
                ..managers.condvars
            },
            ..managers
        },
        task: None,
    }
}

/// The state after a call to `std::sync::Condvar::notify_one`.
pub open spec fn call_condvar_notify_one_spec(
    args: Seq<Operand>,
    places: FunctionPlacesModel,
    net: NetModel,
    memory: MemoryModel,
    managers: SyncModel,
) -> SyncCallModel {
    let called = managers.condvars.translate_call_notify_one(net, places);
    let label = crate::naming::condvar::notify_one_transition_labels_spec(
        managers.condvars.notify_one_counter,
    ).0;
    SyncCallModel {
        net: managers.condvars.translate_side_effects_notify_one(called, memory, args, label),
        memory,
        managers: SyncModel {
            condvars: CondvarManagerModel {
                notify_one_counter: managers.condvars.notify_one_counter + 1,
                ..managers.condvars
            },
            ..managers
        },
        task: None,
    }
}

/// The state after a call to `std::sync::Condvar::wait` was translated and
/// what it left to be done was done. The return value denotes the guard
/// that was passed as the second argument.
pub open spec fn translated_condvar_wait_spec(
    args: Seq<Operand>,
    destination: Place,
    places: FunctionPlacesModel,
    net: NetModel,
    memory: MemoryModel,
    managers: SyncModel,
) -> SyncCallModel {
    let called = managers.condvars.translate_call_wait(net, places);
    let labels = crate::naming::condvar::wait_transition_labels_spec(
        managers.condvars.wait_counter,
    );
    let waited = managers.condvars.translate_side_effects_wait(
        called,
        managers.mutexes,
        memory,
        args,
        labels.0,
        labels.1,
    );
    let linked = match nth_argument_spec(args, 1) {
        Some(lock_guard) => memory.link(destination.local as int, lock_guard.local as int),
        None => Ok(memory),
    };
    SyncCallModel {
        net: match linked {
            Ok(_) => waited,
            Err(e) => waited.fail(e),
        },
        memory: match linked {
            Ok(m) => m,
            Err(_) => memory,
        },
        managers: SyncModel {
            condvars: CondvarManagerModel {
                wait_counter: managers.condvars.wait_counter + 1,
                ..managers.condvars
            },
            ..managers
        },
        task: None,
    }
}

/// The state after a call to `std::sync::Mutex::<T>::lock`.
pub open spec fn call_mutex_lock_spec(
    args: Seq<Operand>,
    destination: Place,
    places: FunctionPlacesModel,
    net: NetModel,
    memory: MemoryModel,
    managers: SyncModel,
) -> SyncCallModel {
    let called = managers.mutexes.translate_call_lock(net, places);
    let label = crate::naming::mutex::lock_transition_labels_spec(managers.mutexes.lock_counter).0;
    let done = managers.mutexes.translate_side_effects_lock(
        called,
        memory,
        args,
        destination,
        label,
    );
    SyncCallModel {
        net: done.0,
        memory: done.1,
        managers: SyncModel {
            mutexes: MutexManagerModel {
                lock_counter: managers.mutexes.lock_counter + 1,
                ..managers.mutexes
            },
            ..managers
        },
        task: None,
    }
}

/// The state after a call to `std::sync::Mutex::<T>::new` was translated
/// and what it left to be done was done.
pub open spec fn translated_mutex_new_spec(
    destination: Place,
    places: FunctionPlacesModel,
    net: NetModel,
    memory: MemoryModel,
    managers: SyncModel,
) -> SyncCallModel {
    let called = managers.mutexes.translate_call_new(net, places);
    let done = managers.mutexes.translate_side_effects_new(called, memory, destination);
    SyncCallModel {
        net: done.0,
        memory: done.1,
        managers: SyncModel {
            mutexes: MutexManagerModel { count: managers.mutexes.count + 1, ..managers.mutexes },
            ..managers
        },
        task: None,
    }
}

/// The state after a call to `std::thread::spawn`. The body of the thread is left as a task.
pub open spec fn call_thread_spawn_spec(
    args: Seq<Operand>,
    destination: Place,
    places: FunctionPlacesModel,
    net: NetModel,
    memory: MemoryModel,
    managers: SyncModel,
) -> SyncCallModel {
    let called = managers.threads.translate_call_spawn(net, places);
    let label = crate::naming::thread::spawn_transition_labels_spec(managers.threads.count()).0;
    let done = managers.threads.translate_side_effects_spawn(
        called,
        memory,
        args,
        destination,
        label,
    );
    SyncCallModel {
        net: done.0,
        memory: done.1,
        managers: SyncModel {
            threads: ThreadManagerModel {
                join_transitions: managers.threads.join_transitions.push(None),
                ..managers.threads
            },
            ..managers
        },
        task: Some(managers.threads.spawn_task(memory, args, destination)),
    }
}

/// The state after a call to `std::thread::JoinHandle::<T>::join`.
pub open spec fn call_thread_join_spec(
    args: Seq<Operand>,
    places: FunctionPlacesModel,
    net: NetModel,
    memory: MemoryModel,
    managers: SyncModel,
) -> SyncCallModel {
    let called = managers.threads.translate_call_join(net, places);
    let label = crate::naming::thread::join_transition_labels_spec(
        managers.threads.join_counter,
    ).0;
    let counted = ThreadManagerModel {
        join_counter: managers.threads.join_counter + 1,
        ..managers.threads
    };
    SyncCallModel {
        net: counted.translate_side_effects_join(called, memory, args, label),
        memory,
        managers: SyncModel { threads: counted.joined(memory, args, label), ..managers },
        task: None,
    }
}

/// The state after the call of a supported function was translated and
/// what it left to be done was done, but for the body of a spawned thread.
/// A function that is not supported is a defect of the caller.
pub open spec fn translated_call_spec(
    function_name: Seq<char>,
    args: Seq<Operand>,
    destination: Place,
    places: FunctionPlacesModel,
    net: NetModel,
    memory: MemoryModel,
    managers: SyncModel,
) -> SyncCallModel {
    if function_name == "std::sync::Condvar::new"@ {
        call_condvar_new_spec(destination, places, net, memory, managers)
    } else if function_name == "std::sync::Condvar::notify_one"@ {
        call_condvar_notify_one_spec(args, places, net, memory, managers)
    } else if function_name == "std::sync::Condvar::wait"@ || function_name
        == "std::sync::Condvar::wait_while"@ {
        translated_condvar_wait_spec(args, destination, places, net, memory, managers)
    } else if function_name == "std::sync::Mutex::<T>::lock"@ {
        call_mutex_lock_spec(args, destination, places, net, memory, managers)
    } else if function_name == "std::sync::Mutex::<T>::new"@ {
        translated_mutex_new_spec(destination, places, net, memory, managers)
    } else if function_name == "std::thread::spawn"@ {
        call_thread_spawn_spec(args, destination, places, net, memory, managers)
    } else if function_name == "std::thread::JoinHandle::<T>::join"@ {
        call_thread_join_spec(args, places, net, memory, managers)
    } else {
        SyncCallModel { net: net.fail(no_handler()), memory, managers, task: None }
    }
}

/// The state after a call to `std::sync::Condvar::wait` itself: the
/// transitions that start and end the wait stand between the places of the
/// call site. To link them to the condition variable and to the mutex is
/// left as a task.
pub open spec fn call_condvar_wait_spec(
    places: FunctionPlacesModel,
    net: NetModel,
    memory: MemoryModel,
    managers: SyncModel,
) -> SyncCallModel {
    let labels = crate::naming::condvar::wait_transition_labels_spec(
        managers.condvars.wait_counter,
    );
    SyncCallModel {
        net: managers.condvars.translate_call_wait(net, places),
        memory,
        managers: SyncModel {
            condvars: CondvarManagerModel {
                wait_counter: managers.condvars.wait_counter + 1,
                ..managers.condvars
            },
            ..managers
        },
        task: Some(PostprocessingTaskModel::LinkWait { wait_start: labels.0, wait_end: labels.1 }),
    }
}

/// The state after a call to `std::sync::Mutex::<T>::new` itself: the
/// transition of the call stands between the places of the call site. To
/// add the mutex to the net is left as a task.
pub open spec fn call_mutex_new_spec(
    places: FunctionPlacesModel,
    net: NetModel,
    memory: MemoryModel,
    managers: SyncModel,
) -> SyncCallModel {
    SyncCallModel {
        net: managers.mutexes.translate_call_new(net, places),
        memory,
        managers,
        task: Some(PostprocessingTaskModel::NewMutex),
    }
}

/// The state after the call of a supported function was translated. The
/// calls to `std::sync::Condvar::wait`, to `std::sync::Condvar::wait_while`
/// and to `std::sync::Mutex::<T>::new` leave a task, and so does the call
/// to `std::thread::spawn`; the other calls leave none.
/// A function that is not supported is a defect of the caller.
pub open spec fn call_function_spec(
    function_name: Seq<char>,
    args: Seq<Operand>,
    destination: Place,
    places: FunctionPlacesModel,
    net: NetModel,
    memory: MemoryModel,
    managers: SyncModel,
) -> SyncCallModel {
    if function_name == "std::sync::Condvar::new"@ {
        call_condvar_new_spec(destination, places, net, memory, managers)
    } else if function_name == "std::sync::Condvar::notify_one"@ {
        call_condvar_notify_one_spec(args, places, net, memory, managers)
    } else if function_name == "std::sync::Condvar::wait"@ || function_name
        == "std::sync::Condvar::wait_while"@ {
        call_condvar_wait_spec(places, net, memory, managers)
    } else if function_name == "std::sync::Mutex::<T>::lock"@ {
        call_mutex_lock_spec(args, destination, places, net, memory, managers)
    } else if function_name == "std::sync::Mutex::<T>::new"@ {
        call_mutex_new_spec(places, net, memory, managers)
    } else if function_name == "std::thread::spawn"@ {
        call_thread_spawn_spec(args, destination, places, net, memory, managers)
    } else if function_name == "std::thread::JoinHandle::<T>::join"@ {
        call_thread_join_spec(args, places, net, memory, managers)
    } else {
        SyncCallModel { net: net.fail(no_handler()), memory, managers, task: None }
    }
}

/// The state after a task was done that a call to `wait` or to
/// `Mutex::new` had left.
///
/// For a new mutex, the model of the mutex is in the net and the
/// destination of the call denotes the mutex. For a wait, the start of the
/// wait unlocks the mutex whose guard is the second argument of the call,
/// the end of the wait locks it again, both are linked to the condition
/// variable that the first argument denotes, and the destination of the
/// call denotes the guard. The body of a thread is not translated here:
/// that task is handed back.
pub open spec fn resolve_task_spec(
    task: PostprocessingTaskModel,
    args: Seq<Operand>,
    destination: Place,
    net: NetModel,
    memory: MemoryModel,
    managers: SyncModel,
) -> SyncCallModel {
    match task {
        PostprocessingTaskModel::NewMutex => {
            let done = managers.mutexes.translate_side_effects_new(net, memory, destination);
            SyncCallModel {
                net: done.0,
                memory: done.1,
                managers: SyncModel {
                    mutexes: MutexManagerModel {
                        count: managers.mutexes.count + 1,
                        ..managers.mutexes
                    },
                    ..managers
                },
                task: None,
            }
        },
        PostprocessingTaskModel::LinkWait { wait_start, wait_end } => {
            let waited = managers.condvars.translate_side_effects_wait(
                net,
                managers.mutexes,
                memory,
                args,
                wait_start,
                wait_end,
            );
            let linked = match nth_argument_spec(args, 1) {
                Some(lock_guard) => memory.link(destination.local as int, lock_guard.local as int),
                None => Ok(memory),
            };
            SyncCallModel {
                net: match linked {
                    Ok(_) => waited,
                    Err(e) => waited.fail(e),
                },
                memory: match linked {
                    Ok(m) => m,
                    Err(_) => memory,
                },
                managers,
                task: None,
            }
        },
        PostprocessingTaskModel::NewThread { .. } => SyncCallModel {
            net,
            memory,
            managers,
            task: Some(task),
        },
    }
}

/// The state after a call was translated and its task was done, if it
/// left one.
pub open spec fn call_and_resolve_spec(
    function_name: Seq<char>,
    args: Seq<Operand>,
    destination: Place,
    places: FunctionPlacesModel,
    net: NetModel,
    memory: MemoryModel,
    managers: SyncModel,
) -> SyncCallModel {
    let called = call_function_spec(
        function_name,
        args,
        destination,
        places,
        net,
        memory,
        managers,
    );
    match called.task {
        Some(task) => if called.net.error is Some {
            called
        } else {
            resolve_task_spec(task, args, destination, called.net, called.memory, called.managers)
        },
        None => called,
    }
}

/// A call and the task that it leaves do together what the call is to do:
/// where the call is translated without defect, the state after the task
/// was done is the state of `translated_call_spec`.
pub proof fn lemma_call_and_resolve(
    function_name: Seq<char>,
    args: Seq<Operand>,
    destination: Place,
    places: FunctionPlacesModel,
    net: NetModel,
    memory: MemoryModel,
    managers: SyncModel,
)
    ensures
        call_function_spec(function_name, args, destination, places, net, memory, managers).net.is_ok()
            ==> call_and_resolve_spec(
            function_name,
            args,
            destination,
            places,
            net,
            memory,
            managers,
        ) == translated_call_spec(function_name, args, destination, places, net, memory, managers),
        !call_function_spec(
            function_name,
            args,
            destination,
            places,
            net,
            memory,
            managers,
        ).net.is_ok() ==> !translated_call_spec(
            function_name,
            args,
            destination,
            places,
            net,
            memory,
            managers,
        ).net.is_ok(),
{
}

/// Whether a call to the function leaves a task: the calls to `wait`, to
/// `wait_while`, to `Mutex::new` and to `spawn` do.
pub open spec fn leaves_task(function_name: Seq<char>) -> bool {
    ||| function_name == "std::sync::Condvar::wait"@
    ||| function_name == "std::sync::Condvar::wait_while"@
    ||| function_name == "std::sync::Mutex::<T>::new"@
    ||| function_name == "std::thread::spawn"@
}

/// The model of a call holds a task exactly for the functions that leave one.
pub proof fn lemma_tasks_by_name(
    function_name: Seq<char>,
    args: Seq<Operand>,
    destination: Place,
    places: FunctionPlacesModel,
    net: NetModel,
    memory: MemoryModel,
    managers: SyncModel,
)
    ensures
        call_function_spec(function_name, args, destination, places, net, memory, managers).task
            is Some <==> leaves_task(function_name),
{
    reveal_strlit("std::sync::Condvar::new");
    reveal_strlit("std::sync::Condvar::notify_one");
    reveal_strlit("std::sync::Condvar::wait");
    reveal_strlit("std::sync::Condvar::wait_while");
    reveal_strlit("std::sync::Mutex::<T>::lock");
    reveal_strlit("std::sync::Mutex::<T>::new");
    reveal_strlit("std::thread::spawn");
    reveal_strlit("std::thread::JoinHandle::<T>::join");
    assert("std::sync::Condvar::new"@.len() == 23);
    assert("std::sync::Condvar::notify_one"@.len() == 30);
    assert("std::sync::Condvar::wait"@.len() == 24);
    assert("std::sync::Condvar::wait_while"@.len() == 30);
    assert("std::sync::Mutex::<T>::lock"@.len() == 27);
    assert("std::sync::Mutex::<T>::new"@.len() == 26);
    assert("std::thread::spawn"@.len() == 18);
    assert("std::thread::JoinHandle::<T>::join"@.len() == 34);
    assert("std::sync::Condvar::notify_one"@[20] == 'n');
    assert("std::sync::Condvar::wait_while"@[20] == 'w');
}

/// Whether the translation of a call ended as the model says.
pub open spec fn sync_call_matches(
    result: Result<Option<PostprocessingTask>, TranslationError>,
    net: Net,
    memory: Memory,
    managers: SyncManagers,
    model: SyncCallModel,
) -> bool {
    &&& outcome_matches(result, net, model.net)
    &&& result is Ok ==> memory@ == model.memory && managers@ == model.managers && task_view(
        result->Ok_0,
    ) == model.task && (result->Ok_0 is Some ==> result->Ok_0->Some_0.wf(net))
}

/// Translates a call to `std::sync::Condvar::new`.
pub fn call_condvar_new(
    destination: &Place,
    places: &FunctionPlaces,
    net: &mut Net,
    memory: &mut Memory,
    managers: &mut SyncManagers,
) -> (task: Result<Option<PostprocessingTask>, TranslationError>)
    requires
        old(net).wf(),
        old(managers).wf(*old(net)),
        places.wf(*old(net)),
    ensures
        final(net).wf(),
        final(net).extends(*old(net)),
        final(managers).wf(*final(net)),
        sync_call_matches(
            task,
            *final(net),
            *final(memory),
            *final(managers),
            call_condvar_new_spec(*destination, places@, old(net)@, old(memory)@, old(managers)@),
        ),
{
    managers.condvar_manager.translate_call_new(places, net)?;
    managers.condvar_manager.translate_side_effects_new(destination, net, memory)?;
    Ok(None)
}

/// Translates a call to `std::sync::Condvar::notify_one`.
pub fn call_condvar_notify_one(
    args: &Vec<Operand>,
    places: &FunctionPlaces,
    net: &mut Net,
    memory: &mut Memory,
    managers: &mut SyncManagers,
) -> (task: Result<Option<PostprocessingTask>, TranslationError>)
    requires
        old(net).wf(),
        old(managers).wf(*old(net)),
        places.wf(*old(net)),
    ensures
        final(net).wf(),
        final(net).extends(*old(net)),
        final(managers).wf(*final(net)),
        sync_call_matches(
            task,
            *final(net),
            *final(memory),
            *final(managers),
            call_condvar_notify_one_spec(args@, places@, old(net)@, old(memory)@, old(managers)@),
        ),
{
    let transition = managers.condvar_manager.translate_call_notify_one(places, net)?;
    managers.condvar_manager.translate_side_effects_notify_one(args, &transition, net, memory)?;
    Ok(None)
}

/// Translates a call to `std::sync::Condvar::wait`: adds the transitions
/// that start and end the wait, and leaves it as a task to link them.
pub fn call_condvar_wait(
    places: &FunctionPlaces,
    net: &mut Net,
    memory: &Memory,
    managers: &mut SyncManagers,
) -> (task: Result<Option<PostprocessingTask>, TranslationError>)
    requires
        old(net).wf(),
        old(managers).wf(*old(net)),
        places.wf(*old(net)),
    ensures
        final(net).wf(),
        final(net).extends(*old(net)),
        final(managers).wf(*final(net)),
        sync_call_matches(
            task,
            *final(net),
            *memory,
            *final(managers),
            call_condvar_wait_spec(places@, old(net)@, memory@, old(managers)@),
        ),
{
    let (wait_start, wait_end) = managers.condvar_manager.translate_call_wait(places, net)?;
    Ok(Some(PostprocessingTask::LinkWait { wait_start, wait_end }))
}

/// Translates a call to `std::sync::Mutex::<T>::lock`.
pub fn call_mutex_lock(
    args: &Vec<Operand>,
    destination: &Place,
    places: &FunctionPlaces,
    net: &mut Net,
    memory: &mut Memory,
    managers: &mut SyncManagers,
) -> (task: Result<Option<PostprocessingTask>, TranslationError>)
    requires
        old(net).wf(),
        old(managers).wf(*old(net)),
        places.wf(*old(net)),
    ensures
        final(net).wf(),
        final(net).extends(*old(net)),
        final(managers).wf(*final(net)),
        sync_call_matches(
            task,
            *final(net),
            *final(memory),
            *final(managers),
            call_mutex_lock_spec(
                args@,
                *destination,
                places@,
                old(net)@,
                old(memory)@,
                old(managers)@,
            ),
        ),
{
    let transition = managers.mutex_manager.translate_call_lock(places, net)?;
    managers.mutex_manager.translate_side_effects_lock(
        args,
        destination,
        &transition,
        net,
        memory,
    )?;
    Ok(None)
}

/// Translates a call to `std::sync::Mutex::<T>::new`: adds the transition
/// of the call, and leaves it as a task to add the mutex.
pub fn call_mutex_new(
    places: &FunctionPlaces,
    net: &mut Net,
    memory: &Memory,
    managers: &SyncManagers,
) -> (task: Result<Option<PostprocessingTask>, TranslationError>)
    requires
        old(net).wf(),
        managers.wf(*old(net)),
        places.wf(*old(net)),
    ensures
        final(net).wf(),
        final(net).extends(*old(net)),
        sync_call_matches(
            task,
            *final(net),
            *memory,
            *managers,
            call_mutex_new_spec(places@, old(net)@, memory@, managers@),
        ),
{
    managers.mutex_manager.translate_call_new(places, net)?;
    Ok(Some(PostprocessingTask::NewMutex))
}

/// Does the task that a call to `wait` or to `Mutex::new` has left, with
/// the arguments and the destination of that call.
pub fn resolve_task(
    task: PostprocessingTask,
    args: &Vec<Operand>,
    destination: &Place,
    net: &mut Net,
    memory: &mut Memory,
    managers: &mut SyncManagers,
) -> (left: Result<Option<PostprocessingTask>, TranslationError>)
    requires
        old(net).wf(),
        old(managers).wf(*old(net)),
        task.wf(*old(net)),
    ensures
        final(net).wf(),
        final(net).extends(*old(net)),
        final(managers).wf(*final(net)),
        sync_call_matches(
            left,
            *final(net),
            *final(memory),
            *final(managers),
            resolve_task_spec(task@, args@, *destination, old(net)@, old(memory)@, old(managers)@),
        ),
        left is Ok && !(task is NewThread) ==> left->Ok_0 is None,
        left is Ok && task is NewThread ==> left->Ok_0 == Some(task),
        left is Ok ==> final(net)@.keeps_guards(old(net)@),
{
    proof {
        crate::translator::guards::lemma_resolved_task_keeps_guards(
            task@,
            args@,
            *destination,
            net@,
            memory@,
            managers@,
        );
    }
    match task {
        PostprocessingTask::NewMutex => {
            managers.mutex_manager.translate_side_effects_new(destination, net, memory)?;
            Ok(None)
        },
        PostprocessingTask::LinkWait { wait_start, wait_end } => {
            let transitions = (wait_start, wait_end);
            managers.condvar_manager.translate_side_effects_wait(
                args,
                &transitions,
                net,
                &managers.mutex_manager,
                memory,
            )?;
            proof {
                net.lemma_view();
            }
            match extract_nth_argument_as_place(args, 1) {
                Some(lock_guard) => {
                    memory.link_place_to_same_value(destination.local, lock_guard.local)?;
                },
                None => {},
            }
            Ok(None)
        },
        PostprocessingTask::NewThread { thread, function, environment } => {
            proof {
                net.lemma_view();
            }
            Ok(Some(PostprocessingTask::NewThread { thread, function, environment }))
        },
    }
}

/// Translates a call to `std::thread::spawn`.
pub fn call_thread_spawn(
    args: &Vec<Operand>,
    destination: &Place,
    places: &FunctionPlaces,
    net: &mut Net,
    memory: &mut Memory,
    managers: &mut SyncManagers,
) -> (task: Result<Option<PostprocessingTask>, TranslationError>)
    requires
        old(net).wf(),
        old(managers).wf(*old(net)),
        places.wf(*old(net)),
    ensures
        final(net).wf(),
        final(net).extends(*old(net)),
        final(managers).wf(*final(net)),
        sync_call_matches(
            task,
            *final(net),
            *final(memory),
            *final(managers),
            call_thread_spawn_spec(
                args@,
                *destination,
                places@,
                old(net)@,
                old(memory)@,
                old(managers)@,
            ),
        ),
        task is Ok ==> task->Ok_0 is Some && task->Ok_0->Some_0 is NewThread
            && task->Ok_0->Some_0->thread.0 < final(managers)@.threads.count(),
{
    let transition = managers.thread_manager.translate_call_spawn(places, net)?;
    let task = managers.thread_manager.translate_side_effects_spawn(
        args,
        destination,
        &transition,
        net,
        memory,
    )?;
    Ok(Some(task))
}

/// Translates a call to `std::thread::JoinHandle::<T>::join`.
pub fn call_thread_join(
    args: &Vec<Operand>,
    places: &FunctionPlaces,
    net: &mut Net,
    memory: &mut Memory,
    managers: &mut SyncManagers,
) -> (task: Result<Option<PostprocessingTask>, TranslationError>)
    requires
        old(net).wf(),
        old(managers).wf(*old(net)),
        places.wf(*old(net)),
    ensures
        final(net).wf(),
        final(net).extends(*old(net)),
        final(managers).wf(*final(net)),
        sync_call_matches(
            task,
            *final(net),
            *final(memory),
            *final(managers),
            call_thread_join_spec(args@, places@, old(net)@, old(memory)@, old(managers)@),
        ),
{
    let transition = managers.thread_manager.translate_call_join(places, net)?;
    managers.thread_manager.translate_side_effects_join(args, &transition, net, memory)?;
    Ok(None)
}

/// Hands a call to the handler of the called function.
fn dispatch_call(
    function_name: &str,
    args: &Vec<Operand>,
    destination: &Place,
    places: &FunctionPlaces,
    net: &mut Net,
    memory: &mut Memory,
    managers: &mut SyncManagers,
) -> (task: Result<Option<PostprocessingTask>, TranslationError>)
    requires
        old(net).wf(),
        old(managers).wf(*old(net)),
        places.wf(*old(net)),
    ensures
        final(net).wf(),
        final(net).extends(*old(net)),
        final(managers).wf(*final(net)),
        sync_call_matches(
            task,
            *final(net),
            *final(memory),
            *final(managers),
            call_function_spec(
                function_name@,
                args@,
                *destination,
                places@,
                old(net)@,
                old(memory)@,
                old(managers)@,
            ),
        ),
        task is Ok && task->Ok_0 is Some && task->Ok_0->Some_0 is NewThread
            ==> task->Ok_0->Some_0->thread.0 < final(managers)@.threads.count(),
        !is_supported_function_spec(function_name@) ==> task is Err && task->Err_0
            == no_handler(),
        task is Err && !is_supported_function_spec(function_name@) ==> final(net)@ == old(net)@
            && final(memory)@ == old(memory)@ && final(managers)@ == old(managers)@,
{
    if is_name(function_name, "std::sync::Condvar::new") {
        call_condvar_new(destination, places, net, memory, managers)
    } else if is_name(function_name, "std::sync::Condvar::notify_one") {
        call_condvar_notify_one(args, places, net, memory, managers)
    } else if is_name(function_name, "std::sync::Condvar::wait") || is_name(
        function_name,
        "std::sync::Condvar::wait_while",
    ) {
        call_condvar_wait(places, net, memory, managers)
    } else if is_name(function_name, "std::sync::Mutex::<T>::lock") {
        call_mutex_lock(args, destination, places, net, memory, managers)
    } else if is_name(function_name, "std::sync::Mutex::<T>::new") {
        call_mutex_new(places, net, memory, managers)
    } else if is_name(function_name, "std::thread::spawn") {
        call_thread_spawn(args, destination, places, net, memory, managers)
    } else if is_name(function_name, "std::thread::JoinHandle::<T>::join") {
        call_thread_join(args, places, net, memory, managers)
    } else {
        proof {
            net.lemma_view();
        }
        Err(TranslationError::Internal(InternalDefect::NoHandler))
    }
}

/// Calls the corresponding handler for the supported synchronization or multithreading functions.
///
/// The calls to `std::sync::Condvar::wait`, to `std::sync::Condvar::wait_while`
/// and to `std::sync::Mutex::<T>::new` leave a task, which `resolve_task`
/// does once the call is wired; the call to `std::thread::spawn` leaves the
/// body of the thread as a task; the other calls leave none.
///
/// A function that is not supported is a defect of the caller: nothing is
/// added to the net, and the memory and the managers stay as they were.
/// A call that is translated without defect lets the net grow only and,
/// where the places of the call site are no guarded places, keeps the net
/// balanced for the places of every mutex. But for the transitions of a
/// wait, which the task links, it leaves no transition without an arc from
/// a place and an arc to a place.
#[verifier::rlimit(60)]
pub fn call_function(
    function_name: &str,
    args: &Vec<Operand>,
    destination: &Place,
    places: &FunctionPlaces,
    net: &mut Net,
    memory: &mut Memory,
    managers: &mut SyncManagers,
) -> (task: Result<Option<PostprocessingTask>, TranslationError>)
    requires
        old(net).wf(),
        old(managers).wf(*old(net)),
        places.wf(*old(net)),
    ensures
        final(net).wf(),
        final(net).extends(*old(net)),
        final(managers).wf(*final(net)),
        sync_call_matches(
            task,
            *final(net),
            *final(memory),
            *final(managers),
            call_function_spec(
                function_name@,
                args@,
                *destination,
                places@,
                old(net)@,
                old(memory)@,
                old(managers)@,
            ),
        ),
        task is Ok ==> (task->Ok_0 is Some <==> leaves_task(function_name@)),
        task is Ok && task->Ok_0 is Some && task->Ok_0->Some_0 is NewThread
            ==> task->Ok_0->Some_0->thread.0 < final(managers)@.threads.count(),
        !is_supported_function_spec(function_name@) ==> task is Err && task->Err_0
            == no_handler(),
        task is Err && !is_supported_function_spec(function_name@) ==> final(net)@ == old(net)@
            && final(memory)@ == old(memory)@ && final(managers)@ == old(managers)@,
        task is Ok ==> final(net)@.extends(old(net)@) && (old(net)@.closed()
            ==> final(net)@.closed()),
        task is Ok && !(task->Ok_0 is Some && task->Ok_0->Some_0 is LinkWait)
            ==> final(net)@.advances(old(net)@),
        task is Ok && places@.is_unguarded() ==> final(net)@.keeps_guards(old(net)@),
{
    let task = dispatch_call(function_name, args, destination, places, net, memory, managers);
    proof {
        lemma_tasks_by_name(
            function_name@,
            args@,
            *destination,
            places@,
            old(net)@,
            old(memory)@,
            old(managers)@,
        );
        crate::translator::invariants::lemma_sync_call_itself_advances(
            function_name@,
            args@,
            *destination,
            places@,
            old(net)@,
            old(memory)@,
            old(managers)@,
        );
        if places@.is_unguarded() {
            crate::translator::guards::lemma_sync_call_itself_keeps_guards(
                function_name@,
                args@,
                *destination,
                places@,
                old(net)@,
                old(memory)@,
                old(managers)@,
            );
        }
    }
    task
}

} // verus!
