//! Which synchronization object each local variable of a function call denotes.
//!
//! Mutexes, condition variables and threads are named by handles, so that any
//! number of local variables, in any number of calls, can denote the same
//! object. A local variable may also denote an aggregate (a tuple, a closure,
//! a wrapper) whose fields denote such objects.

use crate::error_handling::{InternalDefect, TranslationError};
use crate::program::Operand;
use crate::translator::sync::condvar_manager::CondvarRef;
use crate::translator::sync::{MutexRef, ThreadRef};
use vstd::prelude::*;

verus! {

/// What a local variable denotes.
#[derive(Clone, Copy, Debug, PartialEq, Eq)]
pub enum Value {
    /// No synchronization object.
    Unlinked,
    Mutex(MutexRef),
    /// The guard of a locked mutex.
    MutexGuard(MutexRef),
    Condvar(CondvarRef),
    /// The join handle of a thread.
    JoinHandle(ThreadRef),
    /// An aggregate, by its index in the list of aggregates of the memory.
    Aggregate(usize),
}

/// The memory of one function call.
pub struct Memory {
    slots: Vec<Value>,
    aggregates: Vec<Vec<Value>>,
}

/// The mathematical model of a memory.
pub struct MemoryModel {
    /// What each local variable denotes.
    pub slots: Seq<Value>,
    /// The fields of each aggregate.
    pub aggregates: Seq<Seq<Value>>,
}

/// The error of a local variable that does not exist.
pub open spec fn out_of_range() -> TranslationError {
    TranslationError::Internal(InternalDefect::OutOfRange)
}

impl MemoryModel {
    /// The memory of a call with the given number of local variables, none
    /// of which denotes anything yet.
    pub open spec fn new(local_count: nat) -> MemoryModel {
        MemoryModel { slots: Seq::new(local_count, |i: int| Value::Unlinked), aggregates: Seq::empty() }
    }

    /// What a local variable denotes.
    pub open spec fn get(self, local: int) -> Result<Value, TranslationError> {
        if 0 <= local < self.slots.len() {
            Ok(self.slots[local])
        } else {
            Err(out_of_range())
        }
    }

    /// Lets a local variable denote a value. What it denoted before is forgotten.
    pub open spec fn bind(self, local: int, value: Value) -> Result<MemoryModel, TranslationError> {
        if 0 <= local < self.slots.len() {
            Ok(MemoryModel { slots: self.slots.update(local, value), ..self })
        } else {
            Err(out_of_range())
        }
    }

    /// Lets `to` denote whatever `from` denotes.
    pub open spec fn link(self, to: int, from: int) -> Result<MemoryModel, TranslationError> {
        match self.get(from) {
            Ok(value) => self.bind(to, value),
            Err(e) => Err(e),
        }
    }

    /// The value of a field of the aggregate that a local variable denotes.
    pub open spec fn field(self, local: int, field: int) -> Result<Value, TranslationError> {
        match self.get(local) {
            Ok(Value::Aggregate(index)) => if index < self.aggregates.len() && 0 <= field
                < self.aggregates[index as int].len() {
                Ok(self.aggregates[index as int][field])
            } else {
                Err(TranslationError::Internal(InternalDefect::AggregateExpected))
            },
            Ok(_) => Err(TranslationError::Internal(InternalDefect::AggregateExpected)),
            Err(e) => Err(e),
        }
    }

    /// Lets `to` denote what the field of the aggregate in `aggregate` denotes.
    pub open spec fn link_field(self, to: int, aggregate: int, field: int) -> Result<
        MemoryModel,
        TranslationError,
    > {
        match self.field(aggregate, field) {
            Ok(value) => self.bind(to, value),
            Err(e) => Err(e),
        }
    }

    /// Lets a local variable denote a new aggregate with the given fields.
    pub open spec fn create_aggregate(self, local: int, fields: Seq<Value>) -> Result<
        MemoryModel,
        TranslationError,
    > {
        if 0 <= local < self.slots.len() {
            Ok(
                MemoryModel {
                    slots: self.slots.update(local, Value::Aggregate(self.aggregates.len() as usize)),
                    aggregates: self.aggregates.push(fields),
                },
            )
        } else {
            Err(out_of_range())
        }
    }

    /// The mutex that a local variable denotes.
    pub open spec fn linked_mutex(self, local: int) -> Result<MutexRef, TranslationError> {
        match self.get(local) {
            Ok(Value::Mutex(mutex_ref)) => Ok(mutex_ref),
            Ok(_) => Err(TranslationError::Internal(InternalDefect::MutexExpected)),
            Err(e) => Err(e),
        }
    }

    /// The mutex whose guard a local variable denotes.
    pub open spec fn linked_lock_guard(self, local: int) -> Result<MutexRef, TranslationError> {
        match self.get(local) {
            Ok(Value::MutexGuard(mutex_ref)) => Ok(mutex_ref),
            Ok(_) => Err(TranslationError::Internal(InternalDefect::LockGuardExpected)),
            Err(e) => Err(e),
        }
    }

    /// The condition variable that a local variable denotes.
    pub open spec fn linked_condvar(self, local: int) -> Result<CondvarRef, TranslationError> {
        match self.get(local) {
            Ok(Value::Condvar(condvar_ref)) => Ok(condvar_ref),
            Ok(_) => Err(TranslationError::Internal(InternalDefect::CondvarExpected)),
            Err(e) => Err(e),
        }
    }

    /// The thread whose join handle a local variable denotes.
    pub open spec fn linked_join_handle(self, local: int) -> Result<ThreadRef, TranslationError> {
        match self.get(local) {
            Ok(Value::JoinHandle(thread_ref)) => Ok(thread_ref),
            Ok(_) => Err(TranslationError::Internal(InternalDefect::JoinHandleExpected)),
            Err(e) => Err(e),
        }
    }
}

impl MemoryModel {
    /// What an argument of a call hands to the called function.
    pub open spec fn argument_value(self, operand: Operand) -> Value {
        match operand {
            Operand::Copy(place) => self.value_or_unlinked(place.local as int),
            Operand::Move(place) => self.value_or_unlinked(place.local as int),
            Operand::Constant(_) => Value::Unlinked,
        }
    }

    /// What a local variable denotes; nothing, if there is no such variable.
    pub open spec fn value_or_unlinked(self, local: int) -> Value {
        if 0 <= local < self.slots.len() {
            self.slots[local]
        } else {
            Value::Unlinked
        }
    }

    /// What the arguments of a call hand to the called function.
    pub open spec fn argument_values(self, args: Seq<Operand>) -> Seq<Value> {
        Seq::new(args.len(), |i: int| self.argument_value(args[i]))
    }

    /// What the function returns: what its local variable 0 denotes.
    pub open spec fn return_value(self) -> Value {
        self.value_or_unlinked(0)
    }

    /// The memory of a function that is entered from this memory: the
    /// local variables after local 0 denote what the arguments hand over,
    /// and the aggregates of the caller are known to the called function.
    pub open spec fn enter(self, local_count: nat, arguments: Seq<Value>) -> MemoryModel {
        MemoryModel {
            slots: Seq::new(
                local_count,
                |i: int|
                    if 1 <= i <= arguments.len() {
                        arguments[i - 1]
                    } else {
                        Value::Unlinked
                    },
            ),
            aggregates: self.aggregates,
        }
    }

    /// The memory of the caller after the called function has returned:
    /// the destination denotes what the function returned, and the
    /// aggregates that the function built are known to the caller.
    pub open spec fn leave(self, callee: MemoryModel, destination: int) -> Result<
        MemoryModel,
        TranslationError,
    > {
        if 0 <= destination < self.slots.len() {
            Ok(
                MemoryModel {
                    slots: self.slots.update(destination, callee.return_value()),
                    aggregates: callee.aggregates,
                },
            )
        } else {
            Err(out_of_range())
        }
    }
}

impl View for Memory {
    type V = MemoryModel;

    closed spec fn view(&self) -> MemoryModel {
        MemoryModel {
            slots: self.slots@,
            aggregates: Seq::new(self.aggregates@.len(), |i: int| self.aggregates@[i]@),
        }
    }
}

impl Memory {
    /// The memory of a call with the given number of local variables.
    pub fn new(local_count: usize) -> (memory: Memory)
        ensures
            memory@ == MemoryModel::new(local_count as nat),
    {
        let mut slots: Vec<Value> = Vec::new();
        let mut i: usize = 0;
        while i < local_count
            invariant
                i <= local_count,
                slots@.len() == i,
                forall|k: int| 0 <= k < i ==> slots@[k] == Value::Unlinked,
            decreases local_count - i,
        {
            slots.push(Value::Unlinked);
            i = i + 1;
        }
        let memory = Memory { slots, aggregates: Vec::new() };
        assert(memory@.slots =~= MemoryModel::new(local_count as nat).slots);
        assert(memory@.aggregates =~= MemoryModel::new(local_count as nat).aggregates);
        memory
    }

    /// What a local variable denotes; nothing, if there is no such variable.
    pub fn value_or_unlinked(&self, local: usize) -> (value: Value)
        ensures
            value == self@.value_or_unlinked(local as int),
    {
        if local < self.slots.len() {
            self.slots[local]
        } else {
            Value::Unlinked
        }
    }

    /// What the arguments of a call hand to the called function.
    pub fn argument_values(&self, args: &Vec<Operand>) -> (values: Vec<Value>)
        ensures
            values@ == self@.argument_values(args@),
    {
        let mut values: Vec<Value> = Vec::new();
        let mut i: usize = 0;
        while i < args.len()
            invariant
                i <= args@.len(),
                values@.len() == i,
                forall|k: int| 0 <= k < i ==> values@[k] == self@.argument_value(args@[k]),
            decreases args@.len() - i,
        {
            let value = match &args[i] {
                Operand::Copy(place) => self.value_or_unlinked(place.local),
                Operand::Move(place) => self.value_or_unlinked(place.local),
                Operand::Constant(_) => Value::Unlinked,
            };
            values.push(value);
            i = i + 1;
        }
        assert(values@ =~= self@.argument_values(args@));
        values
    }

    /// The memory of a function that is entered from this memory.
    pub fn enter(&self, local_count: usize, arguments: &Vec<Value>) -> (memory: Memory)
        ensures
            memory@ == self@.enter(local_count as nat, arguments@),
    {
        let mut slots: Vec<Value> = Vec::new();
        let mut i: usize = 0;
        while i < local_count
            invariant
                i <= local_count,
                slots@.len() == i,
                forall|k: int|
                    0 <= k < i ==> slots@[k] == if 1 <= k <= arguments@.len() {
                        arguments@[k - 1]
                    } else {
                        Value::Unlinked
                    },
            decreases local_count - i,
        {
            let value = if 1 <= i && i <= arguments.len() {
                arguments[i - 1]
            } else {
                Value::Unlinked
            };
            slots.push(value);
            i = i + 1;
        }
        let mut aggregates: Vec<Vec<Value>> = Vec::new();
        let mut a: usize = 0;
        while a < self.aggregates.len()
            invariant
                a <= self.aggregates@.len(),
                aggregates@.len() == a,
                forall|k: int| 0 <= k < a ==> aggregates@[k]@ == self.aggregates@[k]@,
            decreases self.aggregates@.len() - a,
        {
            let source = &self.aggregates[a];
            let mut fields: Vec<Value> = Vec::new();
            let mut f: usize = 0;
            while f < source.len()
                invariant
                    f <= source@.len(),
                    fields@.len() == f,
                    forall|k: int| 0 <= k < f ==> fields@[k] == source@[k],
                decreases source@.len() - f,
            {
                fields.push(source[f]);
                f = f + 1;
            }
            assert(fields@ =~= source@);
            aggregates.push(fields);
            a = a + 1;
        }
        let memory = Memory { slots, aggregates };
        assert(memory@.slots =~= self@.enter(local_count as nat, arguments@).slots);
        assert(memory@.aggregates =~= self@.aggregates);
        memory
    }

    /// Goes back to this memory from a function that was entered from it.
    pub fn leave(&mut self, callee: Memory, destination: usize) -> (left: Result<
        (),
        TranslationError,
    >)
        ensures
            left is Ok ==> old(self)@.leave(callee@, destination as int) == Ok::<
                MemoryModel,
                TranslationError,
            >(final(self)@),
            left is Err ==> old(self)@.leave(callee@, destination as int) == Err::<
                MemoryModel,
                TranslationError,
            >(left->Err_0),
            left is Err ==> final(self)@ == old(self)@,
    {
        if destination < self.slots.len() {
            let value = callee.value_or_unlinked(0);
            self.slots.set(destination, value);
            self.aggregates = callee.aggregates;
            Ok(())
        } else {
            Err(TranslationError::Internal(InternalDefect::OutOfRange))
        }
    }

    /// The number of local variables.
    pub fn local_count(&self) -> (count: usize)
        ensures
            count == self@.slots.len(),
    {
        self.slots.len()
    }

    /// What a local variable denotes.
    pub fn get(&self, local: usize) -> (value: Result<Value, TranslationError>)
        ensures
            value == self@.get(local as int),
    {
        if local < self.slots.len() {
            Ok(self.slots[local])
        } else {
            Err(TranslationError::Internal(InternalDefect::OutOfRange))
        }
    }

    /// Lets a local variable denote a value.
    pub fn bind(&mut self, local: usize, value: Value) -> (bound: Result<(), TranslationError>)
        ensures
            bound is Ok ==> old(self)@.bind(local as int, value) == Ok::<
                MemoryModel,
                TranslationError,
            >(final(self)@),
            bound is Err ==> old(self)@.bind(local as int, value) == Err::<
                MemoryModel,
                TranslationError,
            >(bound->Err_0),
            bound is Err ==> final(self)@ == old(self)@,
    {
        if local < self.slots.len() {
            self.slots.set(local, value);
            assert(self@.aggregates =~= old(self)@.aggregates);
            Ok(())
        } else {
            Err(TranslationError::Internal(InternalDefect::OutOfRange))
        }
    }

    /// Lets the place `to` denote whatever the place `from` denotes.
    pub fn link_place_to_same_value(&mut self, to: usize, from: usize) -> (linked: Result<
        (),
        TranslationError,
    >)
        ensures
            linked is Ok ==> old(self)@.link(to as int, from as int) == Ok::<
                MemoryModel,
                TranslationError,
            >(final(self)@),
            linked is Err ==> old(self)@.link(to as int, from as int) == Err::<
                MemoryModel,
                TranslationError,
            >(linked->Err_0),
            linked is Err ==> final(self)@ == old(self)@,
    {
        let value = self.get(from)?;
        self.bind(to, value)
    }

    /// The value of a field of the aggregate that a local variable denotes.
    pub fn field(&self, local: usize, field: usize) -> (value: Result<Value, TranslationError>)
        ensures
            value == self@.field(local as int, field as int),
    {
        match self.get(local)? {
            Value::Aggregate(index) => {
                if index < self.aggregates.len() && field < self.aggregates[index].len() {
                    Ok(self.aggregates[index][field])
                } else {
                    Err(TranslationError::Internal(InternalDefect::AggregateExpected))
                }
            },
            _ => Err(TranslationError::Internal(InternalDefect::AggregateExpected)),
        }
    }

    /// Lets the place `to` denote what a field of the aggregate in `aggregate` denotes.
    pub fn link_field_in_aggregate(&mut self, to: usize, aggregate: usize, field: usize) -> (linked:
        Result<(), TranslationError>)
        ensures
            linked is Ok ==> old(self)@.link_field(to as int, aggregate as int, field as int)
                == Ok::<MemoryModel, TranslationError>(final(self)@),
            linked is Err ==> old(self)@.link_field(to as int, aggregate as int, field as int)
                == Err::<MemoryModel, TranslationError>(linked->Err_0),
            linked is Err ==> final(self)@ == old(self)@,
    {
        let value = self.field(aggregate, field)?;
        self.bind(to, value)
    }

    /// Lets a local variable denote a new aggregate with the given fields.
    pub fn create_aggregate(&mut self, local: usize, fields: Vec<Value>) -> (created: Result<
        (),
        TranslationError,
    >)
        ensures
            created is Ok ==> old(self)@.create_aggregate(local as int, fields@) == Ok::<
                MemoryModel,
                TranslationError,
            >(final(self)@),
            created is Err ==> old(self)@.create_aggregate(local as int, fields@) == Err::<
                MemoryModel,
                TranslationError,
            >(created->Err_0),
            created is Err ==> final(self)@ == old(self)@,
    {
        if local < self.slots.len() {
            let index = self.aggregates.len();
            self.aggregates.push(fields);
            self.slots.set(local, Value::Aggregate(index));
            assert(self@.aggregates =~= old(self)@.aggregates.push(fields@));
            Ok(())
        } else {
            Err(TranslationError::Internal(InternalDefect::OutOfRange))
        }
    }

    /// Lets a place denote a mutex.
    pub fn link_place_to_mutex(&mut self, local: usize, mutex_ref: MutexRef) -> (linked: Result<
        (),
        TranslationError,
    >)
        ensures
            linked is Ok ==> old(self)@.bind(local as int, Value::Mutex(mutex_ref)) == Ok::<
                MemoryModel,
                TranslationError,
            >(final(self)@),
            linked is Err ==> old(self)@.bind(local as int, Value::Mutex(mutex_ref)) == Err::<
                MemoryModel,
                TranslationError,
            >(linked->Err_0),
            linked is Err ==> final(self)@ == old(self)@,
    {
        self.bind(local, Value::Mutex(mutex_ref))
    }

    /// Lets a place denote the guard of a mutex.
    pub fn link_place_to_lock_guard(&mut self, local: usize, mutex_ref: MutexRef) -> (linked:
        Result<(), TranslationError>)
        ensures
            linked is Ok ==> old(self)@.bind(local as int, Value::MutexGuard(mutex_ref)) == Ok::<
                MemoryModel,
                TranslationError,
            >(final(self)@),
            linked is Err ==> old(self)@.bind(local as int, Value::MutexGuard(mutex_ref)) == Err::<
                MemoryModel,
                TranslationError,
            >(linked->Err_0),
            linked is Err ==> final(self)@ == old(self)@,
    {
        self.bind(local, Value::MutexGuard(mutex_ref))
    }

    /// Lets a place denote a condition variable.
    pub fn link_place_to_condvar(&mut self, local: usize, condvar_ref: CondvarRef) -> (linked:
        Result<(), TranslationError>)
        ensures
            linked is Ok ==> old(self)@.bind(local as int, Value::Condvar(condvar_ref)) == Ok::<
                MemoryModel,
                TranslationError,
            >(final(self)@),
            linked is Err ==> old(self)@.bind(local as int, Value::Condvar(condvar_ref)) == Err::<
                MemoryModel,
                TranslationError,
            >(linked->Err_0),
            linked is Err ==> final(self)@ == old(self)@,
    {
        self.bind(local, Value::Condvar(condvar_ref))
    }

    /// Lets a place denote the join handle of a thread.
    pub fn link_place_to_join_handle(&mut self, local: usize, thread_ref: ThreadRef) -> (linked:
        Result<(), TranslationError>)
        ensures
            linked is Ok ==> old(self)@.bind(local as int, Value::JoinHandle(thread_ref)) == Ok::<
                MemoryModel,
                TranslationError,
            >(final(self)@),
            linked is Err ==> old(self)@.bind(local as int, Value::JoinHandle(thread_ref)) == Err::<
                MemoryModel,
                TranslationError,
            >(linked->Err_0),
            linked is Err ==> final(self)@ == old(self)@,
    {
        self.bind(local, Value::JoinHandle(thread_ref))
    }

    /// The mutex that a place denotes.
    pub fn get_linked_mutex(&self, local: usize) -> (mutex_ref: Result<MutexRef, TranslationError>)
        ensures
            mutex_ref == self@.linked_mutex(local as int),
    {
        match self.get(local)? {
            Value::Mutex(mutex_ref) => Ok(mutex_ref),
            _ => Err(TranslationError::Internal(InternalDefect::MutexExpected)),
        }
    }

    /// The mutex whose guard a place denotes.
    pub fn get_linked_lock_guard(&self, local: usize) -> (mutex_ref: Result<
        MutexRef,
        TranslationError,
    >)
        ensures
            mutex_ref == self@.linked_lock_guard(local as int),
    {
        match self.get(local)? {
            Value::MutexGuard(mutex_ref) => Ok(mutex_ref),
            _ => Err(TranslationError::Internal(InternalDefect::LockGuardExpected)),
        }
    }

    /// The condition variable that a place denotes.
    pub fn get_linked_condvar(&self, local: usize) -> (condvar_ref: Result<
        CondvarRef,
        TranslationError,
    >)
        ensures
            condvar_ref == self@.linked_condvar(local as int),
    {
        match self.get(local)? {
            Value::Condvar(condvar_ref) => Ok(condvar_ref),
            _ => Err(TranslationError::Internal(InternalDefect::CondvarExpected)),
        }
    }

    /// The thread whose join handle a place denotes.
    pub fn get_linked_join_handle(&self, local: usize) -> (thread_ref: Result<
        ThreadRef,
        TranslationError,
    >)
        ensures
            thread_ref == self@.linked_join_handle(local as int),
    {
        match self.get(local)? {
            Value::JoinHandle(thread_ref) => Ok(thread_ref),
            _ => Err(TranslationError::Internal(InternalDefect::JoinHandleExpected)),
        }
    }
}

} // verus!
