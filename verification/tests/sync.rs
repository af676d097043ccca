use granite2::error_handling::{InternalDefect, TranslationError};
use granite2::petri_net_interface::Net;
use granite2::program::{Operand, Place, ProjectionElem, Ty, TyKind};
use granite2::translator::function_call::{FunctionPlaces, PostprocessingTask};
use granite2::translator::mir_function::memory::{Memory, Value};
use granite2::translator::special_function::{
    call_diverging_function, call_foreign_function, call_panic_function, is_panic_function,
};
use granite2::translator::sync::condvar::Condvar;
use granite2::translator::sync::condvar_manager::{CondvarManager, CondvarRef};
use granite2::translator::sync::mutex::Mutex;
use granite2::translator::sync::mutex_manager::MutexManager;
use granite2::translator::sync::thread::Thread;
use granite2::translator::sync::thread_manager::ThreadManager;
use granite2::translator::sync::{
    call_function, check_if_sync_variable, handle_aggregate_assignment, is_supported_function,
    link_if_sync_variable, link_return_value_if_sync_variable, resolve_task, MutexRef, SyncManagers,
    ThreadRef,
};
use granite2::translator::linking_function;
use granite2::translator::LinkingFunction;
use netcrab::petri_net::PetriNet;

fn internal(defect: InternalDefect) -> TranslationError {
    TranslationError::Internal(defect)
}

fn place(local: usize, name: &str) -> Place {
    Place { local, projection: vec![], ty: Ty { name: name.to_string(), kind: TyKind::Other } }
}

fn arcs(net: &PetriNet) -> Vec<String> {
    let mut arcs: Vec<String> = net
        .find_arcs_place_transition()
        .iter()
        .map(|(place, transition)| format!("{place} -> {transition}"))
        .collect();
    arcs.extend(
        net.find_arcs_transition_place()
            .iter()
            .map(|(transition, place)| format!("{transition} -> {place}")),
    );
    arcs.sort();
    arcs
}

fn call_site(net: &mut Net, cleanup: bool) -> FunctionPlaces {
    FunctionPlaces {
        start_place: net.add_place("START").unwrap(),
        end_place: net.add_place("END").unwrap(),
        cleanup_place: if cleanup { Some(net.add_place("CLEANUP").unwrap()) } else { None },
    }
}

#[test]
fn supported_functions() {
    for name in [
        "std::sync::Condvar::new",
        "std::sync::Condvar::notify_one",
        "std::sync::Condvar::wait",
        "std::sync::Condvar::wait_while",
        "std::sync::Mutex::<T>::lock",
        "std::sync::Mutex::<T>::new",
        "std::thread::spawn",
        "std::thread::JoinHandle::<T>::join",
    ] {
        assert!(is_supported_function(name), "{name}");
    }
    for name in ["", "std::sync::Mutex::new", "std::thread::spawn ", "std::sync::Condvar::notify_all"] {
        assert!(!is_supported_function(name), "{name}");
    }
}

#[test]
fn functions_that_panic() {
    for name in [
        "core::panicking::assert_failed",
        "core::panicking::panic",
        "core::panicking::panic_fmt",
        "std::rt::begin_panic",
        "std::rt::begin_panic_fmt",
    ] {
        assert!(is_panic_function(name), "{name}");
    }
    assert!(!is_panic_function("std::process::exit"));
    assert!(!is_panic_function("panic"));
}

#[test]
fn linking_functions() {
    assert_eq!(linking_function("std::clone::Clone::clone"), Some(LinkingFunction::CloneValue));
    assert_eq!(linking_function("std::ops::Deref::deref"), Some(LinkingFunction::Deref));
    assert_eq!(linking_function("std::ops::DerefMut::deref_mut"), Some(LinkingFunction::Deref));
    assert_eq!(
        linking_function("std::result::Result::<T, E>::unwrap"),
        Some(LinkingFunction::Unwrap)
    );
    assert_eq!(linking_function("std::sync::Arc::<T>::new"), Some(LinkingFunction::ArcNew));
    assert_eq!(linking_function("std::mem::drop"), None);
}

#[test]
fn sync_variables_by_type() {
    assert!(check_if_sync_variable(&place(1, "std::sync::Mutex<i32>")));
    assert!(check_if_sync_variable(&place(1, "&std::sync::MutexGuard<'_, bool>")));
    assert!(check_if_sync_variable(&place(1, "std::thread::JoinHandle<()>")));
    assert!(check_if_sync_variable(&place(1, "std::sync::Arc<std::sync::Condvar>")));
    assert!(!check_if_sync_variable(&place(1, "std::sync::RwLock<i32>")));
    assert!(!check_if_sync_variable(&place(1, "i32")));
}

#[test]
fn a_foreign_function_call() {
    let mut net = Net::new();
    let places = call_site(&mut net, true);
    let labels = ("F".to_string(), "F_UNWIND".to_string());
    let transition = call_foreign_function(&places, &labels, &mut net).unwrap();
    assert_eq!(transition.label(), "F");
    assert_eq!(
        arcs(net.petri_net()),
        vec!["F -> END", "F_UNWIND -> CLEANUP", "START -> F", "START -> F_UNWIND"]
    );
    assert_eq!(
        call_foreign_function(&places, &labels, &mut net).err(),
        Some(internal(InternalDefect::LabelInUse))
    );
}

#[test]
fn calls_that_end_the_program() {
    let mut net = Net::new();
    let places = call_site(&mut net, false);
    call_diverging_function(&places.start_place, "std::process::exit", &places.end_place, &mut net)
        .unwrap();
    call_panic_function(&places.start_place, "core::panicking::panic", &places.end_place, &mut net)
        .unwrap();
    assert_eq!(
        arcs(net.petri_net()),
        vec![
            "START -> core_panicking_panic_PANIC",
            "START -> std_process_exit_DIVERGING_CALL",
            "core_panicking_panic_PANIC -> END",
            "std_process_exit_DIVERGING_CALL -> END",
        ]
    );
}

#[test]
fn condvar_new_adds_the_model() {
    let mut net = Net::new();
    let condvar = Condvar::new(7, &mut net).unwrap();
    assert_eq!(condvar.lost_signal_possible.label(), "CONDVAR_7_LOST_SIGNAL_POSSIBLE");
    assert_eq!(condvar.signal_input.label(), "CONDVAR_7_SIGNAL_INPUT");
    assert_eq!(condvar.wait_input.label(), "CONDVAR_7_WAIT_INPUT");
    assert_eq!(condvar.signal_output.label(), "CONDVAR_7_SIGNAL_OUTPUT");
    let net = net.into_petri_net();
    assert_eq!(net.get_cardinality_places(), 4);
    assert_eq!(net.get_cardinality_transitions(), 2);
    assert_eq!(net.marking(&condvar.lost_signal_possible), Ok(1));
    assert_eq!(net.marking(&condvar.signal_input), Ok(0));
    assert_eq!(net.marking(&condvar.wait_input), Ok(0));
    assert_eq!(net.marking(&condvar.signal_output), Ok(0));
    assert_eq!(
        arcs(&net),
        vec![
            "CONDVAR_7_LOST_SIGNAL_POSSIBLE -> CONDVAR_7_LOST_SIGNAL_TRANSITION",
            "CONDVAR_7_LOST_SIGNAL_TRANSITION -> CONDVAR_7_LOST_SIGNAL_POSSIBLE",
            "CONDVAR_7_SIGNAL_INPUT -> CONDVAR_7_LOST_SIGNAL_TRANSITION",
            "CONDVAR_7_SIGNAL_INPUT -> CONDVAR_7_SIGNAL_TRANSITION",
            "CONDVAR_7_SIGNAL_TRANSITION -> CONDVAR_7_LOST_SIGNAL_POSSIBLE",
            "CONDVAR_7_SIGNAL_TRANSITION -> CONDVAR_7_SIGNAL_OUTPUT",
            "CONDVAR_7_WAIT_INPUT -> CONDVAR_7_SIGNAL_TRANSITION",
        ]
    );
}

#[test]
fn condvar_new_twice_with_one_index_is_a_defect() {
    let mut net = Net::new();
    Condvar::new(0, &mut net).unwrap();
    assert!(matches!(Condvar::new(0, &mut net), Err(TranslationError::Internal(InternalDefect::LabelInUse))));
    assert!(Condvar::new(1, &mut net).is_ok());
}

#[test]
fn condvar_links() {
    let mut net = Net::new();
    let condvar = Condvar::new(0, &mut net).unwrap();
    let wait_start = net.add_transition("WAIT_START").unwrap();
    let wait_end = net.add_transition("WAIT_END").unwrap();
    let notify = net.add_transition("NOTIFY").unwrap();
    let before = arcs(net.petri_net());
    condvar.link_to_wait_call(&wait_start, &wait_end, &mut net).unwrap();
    condvar.link_to_notify_one_call(&notify, &mut net).unwrap();
    let mut added: Vec<String> =
        arcs(net.petri_net()).into_iter().filter(|arc| !before.contains(arc)).collect();
    added.sort();
    assert_eq!(
        added,
        vec![
            "CONDVAR_0_LOST_SIGNAL_POSSIBLE -> WAIT_START",
            "CONDVAR_0_SIGNAL_OUTPUT -> WAIT_END",
            "NOTIFY -> CONDVAR_0_SIGNAL_INPUT",
            "WAIT_START -> CONDVAR_0_WAIT_INPUT",
        ]
    );
    assert_eq!(
        condvar.link_to_notify_one_call(&notify, &mut net),
        Err(internal(InternalDefect::DuplicateArc))
    );
    assert_eq!(
        condvar.link_to_wait_call(&wait_start, &wait_end, &mut net),
        Err(internal(InternalDefect::DuplicateArc))
    );
}

#[test]
fn condvar_manager_numbers_its_calls() {
    let mut net = Net::new();
    let places = call_site(&mut net, true);
    let mut manager = CondvarManager::new();
    let mut memory = Memory::new(3);

    let new_call = manager.translate_call_new(&places, &mut net).unwrap();
    assert_eq!(new_call.label(), "std_sync_Condvar_new_0");
    manager.translate_side_effects_new(&place(1, "std::sync::Condvar"), &mut net, &mut memory).unwrap();
    assert_eq!(memory.get_linked_condvar(1), Ok(CondvarRef(0)));
    assert_eq!(manager.condvars.len(), 1);
    assert_eq!(
        manager.get_condvar_from_ref(CondvarRef(0)).unwrap().signal_input.label(),
        "CONDVAR_0_SIGNAL_INPUT"
    );
    assert_eq!(
        manager.get_condvar_from_ref(CondvarRef(1)).err(),
        Some(internal(InternalDefect::StaleHandle))
    );

    let first = manager.translate_call_notify_one(&places, &mut net).unwrap();
    let second = manager.translate_call_notify_one(&places, &mut net).unwrap();
    assert_eq!(first.label(), "std_sync_Condvar_notify_one_0");
    assert_eq!(second.label(), "std_sync_Condvar_notify_one_1");
    let args = vec![Operand::Move(place(1, "&std::sync::Condvar"))];
    manager.translate_side_effects_notify_one(&args, &first, &mut net, &memory).unwrap();
    assert!(arcs(net.petri_net())
        .contains(&"std_sync_Condvar_notify_one_0 -> CONDVAR_0_SIGNAL_INPUT".to_string()));

    let (wait_start, wait_end) = manager.translate_call_wait(&places, &mut net).unwrap();
    assert_eq!(wait_start.label(), "std_sync_Condvar_wait_0_START");
    assert_eq!(wait_end.label(), "std_sync_Condvar_wait_0_END");
    let all = arcs(net.petri_net());
    assert!(all.contains(&"START -> std_sync_Condvar_wait_0_START".to_string()));
    assert!(all.contains(&"std_sync_Condvar_wait_0_END -> END".to_string()));
    assert!(all.contains(&"START -> std_sync_Condvar_wait_0_UNWIND".to_string()));
    assert!(all.contains(&"std_sync_Condvar_wait_0_UNWIND -> CLEANUP".to_string()));
    assert_eq!(manager.wait_counter, 1);
    assert_eq!(manager.notify_one_counter, 2);
}

#[test]
fn counters_do_not_wrap() {
    let mut net = Net::new();
    let places = call_site(&mut net, false);
    let mut condvars = CondvarManager::new();
    condvars.wait_counter = usize::MAX;
    condvars.notify_one_counter = usize::MAX;
    assert_eq!(
        condvars.translate_call_wait(&places, &mut net).err(),
        Some(internal(InternalDefect::CounterOverflow))
    );
    assert_eq!(
        condvars.translate_call_notify_one(&places, &mut net).err(),
        Some(internal(InternalDefect::CounterOverflow))
    );
    let mut mutexes = MutexManager::new();
    mutexes.lock_counter = usize::MAX;
    assert_eq!(
        mutexes.translate_call_lock(&places, &mut net).err(),
        Some(internal(InternalDefect::CounterOverflow))
    );
    let mut threads = ThreadManager::new();
    threads.join_counter = usize::MAX;
    assert_eq!(
        threads.translate_call_join(&places, &mut net).err(),
        Some(internal(InternalDefect::CounterOverflow))
    );
    assert_eq!(net.petri_net().get_cardinality_transitions(), 0);
}

#[test]
fn mutex_model() {
    let mut net = Net::new();
    let mutex = Mutex::new(3, &mut net).unwrap();
    assert_eq!(mutex.unlocked.label(), "MUTEX_3_UNLOCKED");
    assert_eq!(mutex.locked.label(), "MUTEX_3_LOCKED");
    assert_eq!(net.petri_net().marking(&mutex.unlocked), Ok(1));
    assert_eq!(net.petri_net().marking(&mutex.locked), Ok(0));
    let lock = net.add_transition("LOCK").unwrap();
    let unlock = net.add_transition("UNLOCK").unwrap();
    mutex.add_lock_guard(&lock, &mut net).unwrap();
    mutex.add_unlock_guard(&unlock, &mut net).unwrap();
    assert_eq!(
        arcs(net.petri_net()),
        vec![
            "LOCK -> MUTEX_3_LOCKED",
            "MUTEX_3_LOCKED -> UNLOCK",
            "MUTEX_3_UNLOCKED -> LOCK",
            "UNLOCK -> MUTEX_3_UNLOCKED",
        ]
    );
    assert_eq!(
        mutex.add_lock_guard(&lock, &mut net),
        Err(internal(InternalDefect::DuplicateArc))
    );
}

#[test]
fn mutex_manager_translates_new_lock_and_drop() {
    let mut net = Net::new();
    let places = call_site(&mut net, false);
    let mut manager = MutexManager::new();
    let mut memory = Memory::new(4);

    assert_eq!(manager.translate_call_new(&places, &mut net).unwrap().label(), "std_sync_Mutex_T_new_0");
    manager.translate_side_effects_new(&place(1, "std::sync::Mutex<i32>"), &mut net, &mut memory).unwrap();
    assert_eq!(memory.get_linked_mutex(1), Ok(MutexRef(0)));

    let lock = manager.translate_call_lock(&places, &mut net).unwrap();
    assert_eq!(lock.label(), "std_sync_Mutex_T_lock_0");
    let args = vec![Operand::Move(place(1, "&std::sync::Mutex<i32>"))];
    manager
        .translate_side_effects_lock(&args, &place(2, "guard"), &lock, &mut net, &mut memory)
        .unwrap();
    assert_eq!(memory.get_linked_lock_guard(2), Ok(MutexRef(0)));

    let drop_guard = net.add_transition("DROP_GUARD").unwrap();
    let drop_other = net.add_transition("DROP_OTHER").unwrap();
    manager.handle_lock_guard_drop(&place(2, "guard"), &drop_guard, &memory, &mut net).unwrap();
    manager.handle_lock_guard_drop(&place(1, "mutex"), &drop_other, &memory, &mut net).unwrap();
    manager.handle_lock_guard_drop(&place(99, "nothing"), &drop_other, &memory, &mut net).unwrap();
    let all = arcs(net.petri_net());
    assert!(all.contains(&"MUTEX_0_UNLOCKED -> std_sync_Mutex_T_lock_0".to_string()));
    assert!(all.contains(&"std_sync_Mutex_T_lock_0 -> MUTEX_0_LOCKED".to_string()));
    assert!(all.contains(&"MUTEX_0_LOCKED -> DROP_GUARD".to_string()));
    assert!(all.contains(&"DROP_GUARD -> MUTEX_0_UNLOCKED".to_string()));
    assert!(!all.iter().any(|arc| arc.contains("DROP_OTHER")));

    assert_eq!(
        manager.add_lock_guard(MutexRef(5), &lock, &mut net),
        Err(internal(InternalDefect::StaleHandle))
    );
    assert_eq!(
        manager.add_unlock_guard(MutexRef(5), &lock, &mut net),
        Err(internal(InternalDefect::StaleHandle))
    );
    assert!(manager.get_mutex_from_ref(MutexRef(0)).is_ok());
}

#[test]
fn thread_model() {
    let mut net = Net::new();
    let spawn = net.add_transition("SPAWN").unwrap();
    let join = net.add_transition("JOIN").unwrap();
    let mut thread = Thread::new(2, &spawn, &mut net).unwrap();
    assert_eq!(thread.start_place.label(), "THREAD_2_START");
    assert_eq!(thread.end_place.label(), "THREAD_2_END");
    assert!(thread.join_transition.is_none());
    thread.set_join_transition(&join, &mut net).unwrap();
    assert_eq!(thread.join_transition.as_ref().unwrap().label(), "JOIN");
    assert_eq!(arcs(net.petri_net()), vec!["SPAWN -> THREAD_2_START", "THREAD_2_END -> JOIN"]);
}

#[test]
fn thread_manager_translates_spawn_and_join() {
    let mut net = Net::new();
    let places = call_site(&mut net, false);
    let mut manager = ThreadManager::new();
    let mut memory = Memory::new(4);
    memory.create_aggregate(2, vec![Value::Mutex(MutexRef(0))]).unwrap();

    let spawn = manager.translate_call_spawn(&places, &mut net).unwrap();
    assert_eq!(spawn.label(), "std_thread_spawn_0");
    let closure = Place {
        local: 2,
        projection: vec![],
        ty: Ty { name: "[closure]".to_string(), kind: TyKind::Closure(5) },
    };
    let task = manager
        .translate_side_effects_spawn(
            &vec![Operand::Move(closure)],
            &place(1, "std::thread::JoinHandle<()>"),
            &spawn,
            &mut net,
            &mut memory,
        )
        .unwrap();
    assert!(matches!(
        task,
        PostprocessingTask::NewThread {
            thread: ThreadRef(0),
            function: 5,
            environment: Value::Aggregate(0)
        }
    ));
    assert_eq!(memory.get_linked_join_handle(1), Ok(ThreadRef(0)));
    assert_eq!(manager.get_thread_from_ref(ThreadRef(0)).unwrap().start_place.label(), "THREAD_0_START");
    assert_eq!(
        manager.get_thread_from_ref(ThreadRef(1)).err(),
        Some(internal(InternalDefect::StaleHandle))
    );

    let join = manager.translate_call_join(&places, &mut net).unwrap();
    assert_eq!(join.label(), "std_thread_JoinHandle_T_join_0");
    let args = vec![Operand::Move(place(1, "std::thread::JoinHandle<()>"))];
    manager.translate_side_effects_join(&args, &join, &mut net, &memory).unwrap();
    assert_eq!(
        manager.threads[0].join_transition.as_ref().unwrap().label(),
        "std_thread_JoinHandle_T_join_0"
    );
    let all = arcs(net.petri_net());
    assert!(all.contains(&"std_thread_spawn_0 -> THREAD_0_START".to_string()));
    assert!(all.contains(&"THREAD_0_END -> std_thread_JoinHandle_T_join_0".to_string()));
}

#[test]
fn assignments_link_sync_variables() {
    let mut memory = Memory::new(6);
    memory.link_place_to_mutex(1, MutexRef(0)).unwrap();
    let mutex = place(1, "std::sync::Mutex<i32>");
    let number = place(5, "i32");

    link_if_sync_variable(&place(2, "&std::sync::Mutex<i32>"), &mutex, &mut memory).unwrap();
    assert_eq!(memory.get(2), Ok(Value::Mutex(MutexRef(0))));
    // What is no sync variable is not linked.
    link_if_sync_variable(&place(3, "i32"), &number, &mut memory).unwrap();
    assert_eq!(memory.get(3), Ok(Value::Unlinked));

    // An aggregate keeps the position of its operands.
    let tuple = place(4, "(i32, std::sync::Mutex<i32>)");
    let operands = vec![
        Operand::Copy(number.clone()),
        Operand::Move(mutex.clone()),
        Operand::Constant(Ty { name: "bool".to_string(), kind: TyKind::Other }),
    ];
    handle_aggregate_assignment(&tuple, &operands, &mut memory).unwrap();
    assert_eq!(memory.get(4), Ok(Value::Aggregate(0)));
    assert_eq!(memory.field(4, 0), Ok(Value::Unlinked));
    assert_eq!(memory.field(4, 1), Ok(Value::Mutex(MutexRef(0))));
    assert_eq!(memory.field(4, 2), Ok(Value::Unlinked));

    // Without a sync variable among the operands nothing is recorded.
    handle_aggregate_assignment(&place(3, "(i32,)"), &vec![Operand::Copy(number)], &mut memory)
        .unwrap();
    assert_eq!(memory.get(3), Ok(Value::Unlinked));

    // A field is reached through the last field access of the path.
    let field = Place {
        local: 4,
        projection: vec![ProjectionElem::Field(0), ProjectionElem::Deref, ProjectionElem::Field(1)],
        ty: Ty { name: "std::sync::Mutex<i32>".to_string(), kind: TyKind::Other },
    };
    link_if_sync_variable(&place(0, "&std::sync::Mutex<i32>"), &field, &mut memory).unwrap();
    assert_eq!(memory.get(0), Ok(Value::Mutex(MutexRef(0))));
    // A path without a field access is a defect, and nothing is linked.
    for step in [ProjectionElem::Deref, ProjectionElem::Other] {
        let indirect = Place {
            local: 2,
            projection: vec![step],
            ty: Ty { name: "std::sync::Mutex<i32>".to_string(), kind: TyKind::Other },
        };
        assert_eq!(
            link_if_sync_variable(&place(3, "&std::sync::Mutex<i32>"), &indirect, &mut memory),
            Err(internal(InternalDefect::FieldExpected))
        );
        assert_eq!(memory.get(3), Ok(Value::Unlinked));
        // What is assigned to is no sync variable: the path does not matter.
        link_if_sync_variable(&place(3, "i32"), &indirect, &mut memory).unwrap();
        assert_eq!(memory.get(3), Ok(Value::Unlinked));
    }
    // A field of what is no aggregate is a defect.
    let no_aggregate = Place {
        local: 1,
        projection: vec![ProjectionElem::Field(0)],
        ty: Ty { name: "std::sync::Mutex<i32>".to_string(), kind: TyKind::Other },
    };
    assert_eq!(
        link_if_sync_variable(&place(3, "&std::sync::Mutex<i32>"), &no_aggregate, &mut memory),
        Err(internal(InternalDefect::AggregateExpected))
    );
}

#[test]
fn return_values_link_to_the_first_argument() {
    let mut memory = Memory::new(4);
    memory.link_place_to_condvar(1, CondvarRef(2)).unwrap();
    let args = vec![Operand::Move(place(1, "&std::sync::Condvar")), Operand::Copy(place(2, "i32"))];
    link_return_value_if_sync_variable(&args, &place(3, "&std::sync::Condvar"), &mut memory).unwrap();
    assert_eq!(memory.get(3), Ok(Value::Condvar(CondvarRef(2))));

    // A constant and no argument at all are ignored.
    let constants = vec![Operand::Constant(Ty { name: "i32".to_string(), kind: TyKind::Other })];
    link_return_value_if_sync_variable(&constants, &place(2, "i32"), &mut memory).unwrap();
    link_return_value_if_sync_variable(&vec![], &place(2, "i32"), &mut memory).unwrap();
    assert_eq!(memory.get(2), Ok(Value::Unlinked));
}

#[test]
fn dispatch_of_supported_functions() {
    let mut net = Net::new();
    let places = call_site(&mut net, false);
    let mut managers = SyncManagers::new();
    let mut memory = Memory::new(4);
    // The call to `Mutex::new` is wired; the mutex itself is left as a task.
    let task = call_function(
        "std::sync::Mutex::<T>::new",
        &vec![],
        &place(1, "std::sync::Mutex<i32>"),
        &places,
        &mut net,
        &mut memory,
        &mut managers,
    )
    .ok()
    .unwrap();
    assert!(matches!(task, Some(PostprocessingTask::NewMutex)));
    assert_eq!(
        arcs(net.petri_net()),
        vec!["START -> std_sync_Mutex_T_new_0", "std_sync_Mutex_T_new_0 -> END"]
    );
    assert_eq!(memory.get(1), Ok(Value::Unlinked));
    assert_eq!(managers.mutex_manager.mutexes.len(), 0);
    // Once the task is done, the mutex is in the net and the destination denotes it.
    let left = resolve_task(
        task.unwrap(),
        &vec![],
        &place(1, "std::sync::Mutex<i32>"),
        &mut net,
        &mut memory,
        &mut managers,
    )
    .ok()
    .unwrap();
    assert!(left.is_none());
    assert_eq!(memory.get_linked_mutex(1), Ok(MutexRef(0)));
    assert_eq!(managers.mutex_manager.mutexes.len(), 1);
    assert_eq!(net.petri_net().marking(&managers.mutex_manager.mutexes[0].unlocked), Ok(1));

    // A function without a handler is a defect, and nothing is added for it.
    let places_before = net.petri_net().get_cardinality_places();
    let transitions_before = net.petri_net().get_cardinality_transitions();
    let arcs_before = arcs(net.petri_net());
    assert_eq!(
        call_function(
            "std::mem::drop",
            &vec![Operand::Move(place(1, "std::sync::Mutex<i32>"))],
            &place(2, "()"),
            &places,
            &mut net,
            &mut memory,
            &mut managers,
        )
        .err(),
        Some(internal(InternalDefect::NoHandler))
    );
    assert_eq!(net.petri_net().get_cardinality_places(), places_before);
    assert_eq!(net.petri_net().get_cardinality_transitions(), transitions_before);
    assert_eq!(arcs(net.petri_net()), arcs_before);
    assert_eq!(memory.get(2), Ok(Value::Unlinked));
    assert_eq!(memory.get_linked_mutex(1), Ok(MutexRef(0)));
    assert_eq!(managers.mutex_manager.mutexes.len(), 1);
    assert_eq!(managers.mutex_manager.lock_counter, 0);
    assert_eq!(managers.condvar_manager.condvars.len(), 0);
    assert_eq!(managers.thread_manager.threads.len(), 0);
}

/// A mutex in local 1, its guard in local 2 and a condition variable in local 3.
fn managers_with_a_locked_mutex(net: &mut Net, memory: &mut Memory) -> SyncManagers {
    let mut managers = SyncManagers::new();
    managers
        .mutex_manager
        .translate_side_effects_new(&place(1, "std::sync::Mutex<i32>"), net, memory)
        .unwrap();
    memory.link_place_to_lock_guard(2, MutexRef(0)).unwrap();
    managers
        .condvar_manager
        .translate_side_effects_new(&place(3, "std::sync::Condvar"), net, memory)
        .unwrap();
    managers
}

fn arguments_of(name: &str) -> Vec<Operand> {
    match name {
        "std::sync::Mutex::<T>::lock" => vec![Operand::Move(place(1, "&std::sync::Mutex<i32>"))],
        "std::thread::JoinHandle::<T>::join" => {
            vec![Operand::Move(place(4, "std::thread::JoinHandle<()>"))]
        }
        "std::thread::spawn" => vec![Operand::Constant(Ty {
            name: "fn() {f}".to_string(),
            kind: TyKind::FnDef(0),
        })],
        "std::sync::Mutex::<T>::new" | "std::sync::Condvar::new" => vec![],
        _ => vec![
            Operand::Move(place(3, "&std::sync::Condvar")),
            Operand::Move(place(2, "std::sync::MutexGuard<'_, i32>")),
        ],
    }
}

#[test]
fn which_calls_leave_a_task() {
    let cases = [
        ("std::sync::Condvar::new", false),
        ("std::sync::Condvar::notify_one", false),
        ("std::sync::Condvar::wait", true),
        ("std::sync::Condvar::wait_while", true),
        ("std::sync::Mutex::<T>::lock", false),
        ("std::sync::Mutex::<T>::new", true),
        ("std::thread::spawn", true),
        ("std::thread::JoinHandle::<T>::join", false),
    ];
    for (name, leaves_task) in cases {
        let mut net = Net::new();
        let places = call_site(&mut net, false);
        let mut memory = Memory::new(7);
        let mut managers = managers_with_a_locked_mutex(&mut net, &mut memory);
        let spawn = net.add_transition("SPAWN").unwrap();
        managers
            .thread_manager
            .translate_side_effects_spawn(
                &arguments_of("std::thread::spawn"),
                &place(4, "std::thread::JoinHandle<()>"),
                &spawn,
                &mut net,
                &mut memory,
            )
            .ok()
            .unwrap();
        let task = call_function(
            name,
            &arguments_of(name),
            &place(6, "()"),
            &places,
            &mut net,
            &mut memory,
            &mut managers,
        )
        .ok()
        .unwrap();
        assert_eq!(task.is_some(), leaves_task, "{name}");
    }
}

#[test]
fn a_wait_is_linked_by_its_task() {
    for name in ["std::sync::Condvar::wait", "std::sync::Condvar::wait_while"] {
        let mut net = Net::new();
        let places = call_site(&mut net, true);
        let mut memory = Memory::new(5);
        let mut managers = managers_with_a_locked_mutex(&mut net, &mut memory);
        let args = arguments_of(name);
        let destination = place(4, "std::sync::LockResult<std::sync::MutexGuard<'_, i32>>");
        let before = arcs(net.petri_net());
        let task =
            call_function(name, &args, &destination, &places, &mut net, &mut memory, &mut managers)
                .ok()
                .unwrap()
                .unwrap();
        match &task {
            PostprocessingTask::LinkWait { wait_start, wait_end } => {
                assert_eq!(wait_start.label(), "std_sync_Condvar_wait_0_START");
                assert_eq!(wait_end.label(), "std_sync_Condvar_wait_0_END");
            }
            _ => panic!("a wait leaves the task of linking it"),
        }
        // The call itself joins the transitions to the places of the call site only.
        let wired: Vec<String> =
            arcs(net.petri_net()).into_iter().filter(|arc| !before.contains(arc)).collect();
        assert_eq!(
            wired,
            vec![
                "START -> std_sync_Condvar_wait_0_START",
                "START -> std_sync_Condvar_wait_0_UNWIND",
                "std_sync_Condvar_wait_0_END -> END",
                "std_sync_Condvar_wait_0_UNWIND -> CLEANUP",
            ]
        );
        assert_eq!(memory.get(4), Ok(Value::Unlinked));
        assert_eq!(managers.condvar_manager.wait_counter, 1);
        // The task links them to the mutex and to the condition variable.
        let wired_before = arcs(net.petri_net());
        let left = resolve_task(task, &args, &destination, &mut net, &mut memory, &mut managers)
            .ok()
            .unwrap();
        assert!(left.is_none());
        let linked: Vec<String> = arcs(net.petri_net())
            .into_iter()
            .filter(|arc| !wired_before.contains(arc))
            .collect();
        assert_eq!(
            linked,
            vec![
                "CONDVAR_0_LOST_SIGNAL_POSSIBLE -> std_sync_Condvar_wait_0_START",
                "CONDVAR_0_SIGNAL_OUTPUT -> std_sync_Condvar_wait_0_END",
                "MUTEX_0_LOCKED -> std_sync_Condvar_wait_0_START",
                "MUTEX_0_UNLOCKED -> std_sync_Condvar_wait_0_END",
                "std_sync_Condvar_wait_0_END -> MUTEX_0_LOCKED",
                "std_sync_Condvar_wait_0_START -> CONDVAR_0_WAIT_INPUT",
                "std_sync_Condvar_wait_0_START -> MUTEX_0_UNLOCKED",
            ]
        );
        assert_eq!(memory.get_linked_lock_guard(4), Ok(MutexRef(0)));
    }
}

#[test]
fn the_body_of_a_thread_is_not_done_with_the_other_tasks() {
    let mut net = Net::new();
    let mut memory = Memory::new(2);
    let mut managers = SyncManagers::new();
    let task = PostprocessingTask::NewThread {
        thread: ThreadRef(0),
        function: 3,
        environment: Value::Unlinked,
    };
    let left = resolve_task(task, &vec![], &place(1, "()"), &mut net, &mut memory, &mut managers)
        .ok()
        .unwrap();
    assert!(matches!(
        left,
        Some(PostprocessingTask::NewThread {
            thread: ThreadRef(0),
            function: 3,
            environment: Value::Unlinked
        })
    ));
    assert_eq!(net.petri_net().get_cardinality_places(), 0);
}
