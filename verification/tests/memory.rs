use granite2::error_handling::{InternalDefect, TranslationError};
use granite2::program::{Operand, Place, Ty, TyKind};
use granite2::translator::mir_function::memory::{Memory, Value};
use granite2::translator::sync::condvar_manager::CondvarRef;
use granite2::translator::sync::{MutexRef, ThreadRef};

fn internal(defect: InternalDefect) -> TranslationError {
    TranslationError::Internal(defect)
}

fn place(local: usize) -> Place {
    Place { local, projection: vec![], ty: Ty { name: "i32".to_string(), kind: TyKind::Other } }
}

#[test]
fn new_memory_denotes_nothing() {
    let memory = Memory::new(3);
    assert_eq!(memory.local_count(), 3);
    for local in 0..3 {
        assert_eq!(memory.get(local), Ok(Value::Unlinked));
    }
    assert_eq!(memory.get(3), Err(internal(InternalDefect::OutOfRange)));
}

#[test]
fn links_share_the_object() {
    let mut memory = Memory::new(4);
    memory.link_place_to_mutex(1, MutexRef(0)).unwrap();
    memory.link_place_to_same_value(2, 1).unwrap();
    memory.link_place_to_same_value(3, 2).unwrap();
    assert_eq!(memory.get_linked_mutex(1), Ok(MutexRef(0)));
    assert_eq!(memory.get_linked_mutex(2), Ok(MutexRef(0)));
    assert_eq!(memory.get_linked_mutex(3), Ok(MutexRef(0)));
}

#[test]
fn reassignment_overwrites() {
    let mut memory = Memory::new(2);
    memory.link_place_to_mutex(1, MutexRef(0)).unwrap();
    memory.link_place_to_condvar(1, CondvarRef(5)).unwrap();
    assert_eq!(memory.get(1), Ok(Value::Condvar(CondvarRef(5))));
    // Linking to a local that denotes nothing clears the denotation.
    memory.link_place_to_same_value(1, 0).unwrap();
    assert_eq!(memory.get(1), Ok(Value::Unlinked));
}

#[test]
fn lookups_fail_on_the_wrong_kind() {
    let mut memory = Memory::new(5);
    memory.link_place_to_mutex(0, MutexRef(1)).unwrap();
    memory.link_place_to_lock_guard(1, MutexRef(1)).unwrap();
    memory.link_place_to_condvar(2, CondvarRef(2)).unwrap();
    memory.link_place_to_join_handle(3, ThreadRef(3)).unwrap();

    assert_eq!(memory.get_linked_mutex(0), Ok(MutexRef(1)));
    assert_eq!(memory.get_linked_lock_guard(1), Ok(MutexRef(1)));
    assert_eq!(memory.get_linked_condvar(2), Ok(CondvarRef(2)));
    assert_eq!(memory.get_linked_join_handle(3), Ok(ThreadRef(3)));

    assert_eq!(memory.get_linked_mutex(1), Err(internal(InternalDefect::MutexExpected)));
    assert_eq!(memory.get_linked_lock_guard(0), Err(internal(InternalDefect::LockGuardExpected)));
    assert_eq!(memory.get_linked_condvar(4), Err(internal(InternalDefect::CondvarExpected)));
    assert_eq!(memory.get_linked_join_handle(2), Err(internal(InternalDefect::JoinHandleExpected)));
    assert_eq!(memory.get_linked_mutex(9), Err(internal(InternalDefect::OutOfRange)));
}

#[test]
fn binding_out_of_range_fails() {
    let mut memory = Memory::new(1);
    assert_eq!(memory.bind(1, Value::Unlinked), Err(internal(InternalDefect::OutOfRange)));
    assert_eq!(
        memory.link_place_to_same_value(0, 1),
        Err(internal(InternalDefect::OutOfRange))
    );
    assert_eq!(
        memory.link_place_to_same_value(1, 0),
        Err(internal(InternalDefect::OutOfRange))
    );
    assert_eq!(
        memory.create_aggregate(1, vec![]),
        Err(internal(InternalDefect::OutOfRange))
    );
}

#[test]
fn aggregates_hold_values_by_position() {
    let mut memory = Memory::new(4);
    let fields = vec![Value::Mutex(MutexRef(0)), Value::Unlinked, Value::Condvar(CondvarRef(0))];
    memory.create_aggregate(1, fields).unwrap();
    assert_eq!(memory.get(1), Ok(Value::Aggregate(0)));
    assert_eq!(memory.field(1, 0), Ok(Value::Mutex(MutexRef(0))));
    assert_eq!(memory.field(1, 1), Ok(Value::Unlinked));
    assert_eq!(memory.field(1, 2), Ok(Value::Condvar(CondvarRef(0))));
    assert_eq!(memory.field(1, 3), Err(internal(InternalDefect::AggregateExpected)));
    assert_eq!(memory.field(0, 0), Err(internal(InternalDefect::AggregateExpected)));

    memory.link_field_in_aggregate(2, 1, 2).unwrap();
    assert_eq!(memory.get_linked_condvar(2), Ok(CondvarRef(0)));
    assert_eq!(
        memory.link_field_in_aggregate(3, 2, 0),
        Err(internal(InternalDefect::AggregateExpected))
    );

    // A second aggregate gets the next index; an aggregate can hold an aggregate.
    memory.create_aggregate(3, vec![Value::Aggregate(0)]).unwrap();
    assert_eq!(memory.get(3), Ok(Value::Aggregate(1)));
    memory.link_field_in_aggregate(0, 3, 0).unwrap();
    assert_eq!(memory.field(0, 0), Ok(Value::Mutex(MutexRef(0))));
}

#[test]
fn arguments_enter_the_called_function() {
    let mut caller = Memory::new(4);
    caller.link_place_to_mutex(1, MutexRef(7)).unwrap();
    caller.create_aggregate(2, vec![Value::Condvar(CondvarRef(1))]).unwrap();
    let args = vec![
        Operand::Copy(place(1)),
        Operand::Constant(Ty { name: "i32".to_string(), kind: TyKind::Other }),
        Operand::Move(place(2)),
        Operand::Move(place(17)),
    ];
    let values = caller.argument_values(&args);
    assert_eq!(
        values,
        vec![Value::Mutex(MutexRef(7)), Value::Unlinked, Value::Aggregate(0), Value::Unlinked]
    );

    let callee = caller.enter(4, &values);
    assert_eq!(callee.local_count(), 4);
    assert_eq!(callee.get(0), Ok(Value::Unlinked));
    assert_eq!(callee.get(1), Ok(Value::Mutex(MutexRef(7))));
    assert_eq!(callee.get(2), Ok(Value::Unlinked));
    assert_eq!(callee.get(3), Ok(Value::Aggregate(0)));
    // The aggregates of the caller are known to the called function.
    assert_eq!(callee.field(3, 0), Ok(Value::Condvar(CondvarRef(1))));
}

#[test]
fn the_return_value_leaves_the_called_function() {
    let mut caller = Memory::new(3);
    let mut callee = caller.enter(2, &vec![]);
    callee.create_aggregate(0, vec![Value::JoinHandle(ThreadRef(4))]).unwrap();
    caller.leave(callee, 2).unwrap();
    assert_eq!(caller.get(2), Ok(Value::Aggregate(0)));
    assert_eq!(caller.field(2, 0), Ok(Value::JoinHandle(ThreadRef(4))));

    let other = caller.enter(1, &vec![]);
    assert_eq!(caller.leave(other, 3), Err(internal(InternalDefect::OutOfRange)));
    // A function without local variables returns nothing.
    let empty = caller.enter(0, &vec![]);
    caller.leave(empty, 2).unwrap();
    assert_eq!(caller.get(2), Ok(Value::Unlinked));
}
