//! The translation of a program into a Petri net.
//!
//! The translation starts at the entry function of the program and walks
//! its basic blocks in their order. A call to a function with a body is
//! translated by walking that body between the places of the call site, so
//! that every call has its own copy of the called function in the net.

pub mod calls;
pub mod function_body;
pub mod function_call;
pub mod guards;
pub mod invariants;
pub mod joins;
pub mod mir_function;
pub mod mir_visitor;
pub mod special_function;
pub mod sync;

use crate::error_handling::{InternalDefect, TranslationError, UnsupportedConstruct};
use crate::naming::function::{
    arc_new_transition_labels, arc_new_transition_labels_spec, call_name, call_name_spec,
    clone_transition_labels, clone_transition_labels_spec, deref_transition_labels,
    deref_transition_labels_spec, foreign_call_transition_labels,
    foreign_call_transition_labels_spec, unwrap_transition_labels, unwrap_transition_labels_spec,
};
use crate::naming::program::{PROGRAM_END, PROGRAM_PANIC, PROGRAM_START};
use crate::net_model::{Label, NetModel};
use crate::petri_net_interface::{
    lemma_connected_by_arcs, net_view, net_wf, outcome_matches, place_label, Net,
};
use crate::program::{
    BasicBlockData, Body, Function, Operand, Place, Program, Rvalue, Statement, TerminatorKind,
};
use crate::translator::function_call::{
    FunctionPlaces, FunctionPlacesModel, PostprocessingTask, PostprocessingTaskModel,
};
use crate::translator::mir_function::memory::{out_of_range, Memory, MemoryModel, Value};
use crate::translator::mir_function::{MirFunction, MirFunctionModel};
use crate::translator::special_function::{
    call_diverging_function, call_diverging_function_spec, call_foreign_function,
    call_foreign_function_spec, call_panic_function, call_panic_function_spec, is_panic_function,
    is_panic_function_spec,
};
use crate::translator::sync::mutex_manager::{counter_overflow, stale_handle};
use crate::translator::sync::thread::ThreadModel;
use crate::translator::sync::{
    handle_aggregate_assignment_spec, is_supported_function, is_supported_function_spec,
    link_if_sync_variable_spec, link_return_value_if_sync_variable,
    link_return_value_if_sync_variable_spec, SyncManagers, SyncModel, ThreadRef,
};
use crate::utils::{called_function_spec, extract_def_id_of_called_function_from_operand};
use netcrab::petri_net::{PetriNet, PlaceRef};
use vstd::prelude::*;
use vstd::string::*;

verus! {

/// How many calls may be nested in one another before the translation gives up.
pub const MAX_CALL_DEPTH: usize = 64;

/// The functions of the standard library whose return value is the sync
/// variable of their first argument, and whose calls are numbered by kind.
#[derive(Clone, Copy, Debug, PartialEq, Eq)]
pub enum LinkingFunction {
    /// `std::clone::Clone::clone`
    CloneValue,
    /// `std::ops::Deref::deref` and `std::ops::DerefMut::deref_mut`
    Deref,
    /// `std::result::Result::<T, E>::unwrap`
    Unwrap,
    /// `std::sync::Arc::<T>::new`
    ArcNew,
}

/// The counters that number the calls in the labels.
pub struct Counters {
    /// Calls whose label holds the name of the called function.
    pub call_counter: usize,
    pub unwrap_counter: usize,
    pub arc_new_counter: usize,
    pub clone_counter: usize,
    pub deref_counter: usize,
}

/// The values of the counters.
pub struct CountersModel {
    pub call_counter: nat,
    pub unwrap_counter: nat,
    pub arc_new_counter: nat,
    pub clone_counter: nat,
    pub deref_counter: nat,
}

impl View for Counters {
    type V = CountersModel;

    open spec fn view(&self) -> CountersModel {
        CountersModel {
            call_counter: self.call_counter as nat,
            unwrap_counter: self.unwrap_counter as nat,
            arc_new_counter: self.arc_new_counter as nat,
            clone_counter: self.clone_counter as nat,
            deref_counter: self.deref_counter as nat,
        }
    }
}

impl CountersModel {
    /// All counters at zero.
    pub open spec fn zero() -> CountersModel {
        CountersModel {
            call_counter: 0,
            unwrap_counter: 0,
            arc_new_counter: 0,
            clone_counter: 0,
            deref_counter: 0,
        }
    }

    /// The counter of a kind of linking function.
    pub open spec fn of_kind(self, kind: LinkingFunction) -> nat {
        match kind {
            LinkingFunction::CloneValue => self.clone_counter,
            LinkingFunction::Deref => self.deref_counter,
            LinkingFunction::Unwrap => self.unwrap_counter,
            LinkingFunction::ArcNew => self.arc_new_counter,
        }
    }

    /// The counters after one more call of a kind of linking function.
    pub open spec fn count_kind(self, kind: LinkingFunction) -> CountersModel {
        match kind {
            LinkingFunction::CloneValue => CountersModel {
                clone_counter: self.clone_counter + 1,
                ..self
            },
            LinkingFunction::Deref => CountersModel {
                deref_counter: self.deref_counter + 1,
                ..self
            },
            LinkingFunction::Unwrap => CountersModel {
                unwrap_counter: self.unwrap_counter + 1,
                ..self
            },
            LinkingFunction::ArcNew => CountersModel {
                arc_new_counter: self.arc_new_counter + 1,
                ..self
            },
        }
    }

    /// The counters after one more call that is labelled by name.
    pub open spec fn count_call(self) -> CountersModel {
        CountersModel { call_counter: self.call_counter + 1, ..self }
    }
}

/// The translator: the net under construction and what was found so far.
pub struct Translator {
    pub net: Net,
    /// The place that a token reaches when the program ends.
    pub program_end: PlaceRef,
    /// The place that a token reaches when a panic ends the program.
    pub program_panic: PlaceRef,
    /// The place that holds the token of the initial marking.
    pub program_start: PlaceRef,
    pub managers: SyncManagers,
    pub counters: Counters,
}

/// The mathematical model of the translator.
pub struct TranslatorModel {
    pub net: NetModel,
    pub managers: SyncModel,
    pub counters: CountersModel,
}

/// The translator together with the function call that it is translating.
pub struct WalkModel {
    pub translator: TranslatorModel,
    pub function: MirFunctionModel,
}

impl WalkModel {
    /// The net of the translator.
    pub open spec fn net(self) -> NetModel {
        self.translator.net
    }

    /// The same state with another net.
    pub open spec fn with_net(self, net: NetModel) -> WalkModel {
        WalkModel { translator: TranslatorModel { net, ..self.translator }, ..self }
    }

    /// The same state with another net and another state of the function call.
    pub open spec fn with(self, step: (NetModel, MirFunctionModel)) -> WalkModel {
        WalkModel { translator: TranslatorModel { net: step.0, ..self.translator }, function: step.1 }
    }

    /// The state with a defect recorded.
    pub open spec fn fail(self, error: TranslationError) -> WalkModel {
        self.with_net(self.net().fail(error))
    }

    /// The state with other counters.
    pub open spec fn with_counters(self, counters: CountersModel) -> WalkModel {
        WalkModel { translator: TranslatorModel { counters, ..self.translator }, ..self }
    }
}

/// The error of a construct that is not modelled.
pub open spec fn unsupported(construct: UnsupportedConstruct) -> TranslationError {
    TranslationError::Unsupported(construct)
}

/// Which linking function a name is that of, if any.
pub open spec fn linking_function_spec(function_name: Seq<char>) -> Option<LinkingFunction> {
    if function_name == "std::clone::Clone::clone"@ {
        Some(LinkingFunction::CloneValue)
    } else if function_name == "std::ops::Deref::deref"@ || function_name
        == "std::ops::DerefMut::deref_mut"@ {
        Some(LinkingFunction::Deref)
    } else if function_name == "std::result::Result::<T, E>::unwrap"@ {
        Some(LinkingFunction::Unwrap)
    } else if function_name == "std::sync::Arc::<T>::new"@ {
        Some(LinkingFunction::ArcNew)
    } else {
        None
    }
}

/// The labels of a call to a linking function.
pub open spec fn linking_labels_spec(kind: LinkingFunction, index: nat) -> (Label, Label) {
    match kind {
        LinkingFunction::CloneValue => clone_transition_labels_spec(index),
        LinkingFunction::Deref => deref_transition_labels_spec(index),
        LinkingFunction::Unwrap => unwrap_transition_labels_spec(index),
        LinkingFunction::ArcNew => arc_new_transition_labels_spec(index),
    }
}

/// The memory after an assignment.
pub open spec fn visit_assign_spec(memory: MemoryModel, place: Place, rvalue: Rvalue) -> Result<
    MemoryModel,
    TranslationError,
> {
    match rvalue {
        Rvalue::Use(Operand::Copy(rhs)) => link_if_sync_variable_spec(memory, place, rhs),
        Rvalue::Use(Operand::Move(rhs)) => link_if_sync_variable_spec(memory, place, rhs),
        Rvalue::Use(Operand::Constant(_)) => Ok(memory),
        Rvalue::Ref(rhs) => link_if_sync_variable_spec(memory, place, rhs),
        Rvalue::Aggregate(operands) => handle_aggregate_assignment_spec(memory, place, operands@),
        Rvalue::Other => Ok(memory),
    }
}

/// The memory after a statement.
pub open spec fn visit_statement_spec(memory: MemoryModel, statement: Statement) -> Result<
    MemoryModel,
    TranslationError,
> {
    match statement {
        Statement::Assign(place, rvalue) => visit_assign_spec(memory, place, rvalue),
        Statement::Other => Ok(memory),
    }
}

/// The memory after the statements of a block from position `from` on,
/// or the defect of the first statement that has one.
pub open spec fn visit_statements_spec(
    memory: MemoryModel,
    statements: Seq<Statement>,
    from: nat,
) -> Result<MemoryModel, TranslationError>
    decreases statements.len() - from,
{
    if from >= statements.len() {
        Ok(memory)
    } else {
        match visit_statement_spec(memory, statements[from as int]) {
            Ok(after) => visit_statements_spec(after, statements, from + 1),
            Err(e) => Err(e),
        }
    }
}

/// The state after a call to a function that starts a panic: a transition
/// from the active block to the place `PROGRAM_PANIC`.
pub open spec fn call_panic_spec(state: WalkModel, function_name: Seq<char>) -> WalkModel {
    let counters = state.translator.counters;
    if counters.call_counter >= usize::MAX {
        state.fail(counter_overflow())
    } else {
        state.with_net(
            call_panic_function_spec(
                state.net(),
                state.function.active_label(),
                call_name_spec(function_name, counters.call_counter),
                PROGRAM_PANIC@,
            ),
        ).with_counters(counters.count_call())
    }
}

/// The state after a call that has no target, that is a call to a function
/// that does not return: a transition from the active block to the place `PROGRAM_END`.
pub open spec fn call_diverging_spec(state: WalkModel, function_name: Seq<char>) -> WalkModel {
    let counters = state.translator.counters;
    if counters.call_counter >= usize::MAX {
        state.fail(counter_overflow())
    } else {
        state.with_net(
            call_diverging_function_spec(
                state.net(),
                state.function.active_label(),
                call_name_spec(function_name, counters.call_counter),
                PROGRAM_END@,
            ),
        ).with_counters(counters.count_call())
    }
}

/// The state after the return value of a call that is not entered was
/// linked to the first argument, if that holds a sync variable.
pub open spec fn link_return_value_spec(
    state: WalkModel,
    args: Seq<Operand>,
    destination: Place,
) -> WalkModel {
    match link_return_value_if_sync_variable_spec(state.function.memory, args, destination) {
        Ok(memory) => WalkModel {
            function: MirFunctionModel { memory, ..state.function },
            ..state
        },
        Err(e) => state.fail(e),
    }
}

/// The state after a call to a linking function: the call is translated as
/// one to a foreign function, with a label numbered by kind, and the
/// return value denotes what the first argument denotes.
pub open spec fn call_linking_spec(
    state: WalkModel,
    kind: LinkingFunction,
    args: Seq<Operand>,
    destination: Place,
    places: FunctionPlacesModel,
) -> WalkModel {
    let counters = state.translator.counters;
    if counters.of_kind(kind) >= usize::MAX {
        state.fail(counter_overflow())
    } else {
        link_return_value_spec(
            state.with_net(
                call_foreign_function_spec(
                    state.net(),
                    places,
                    linking_labels_spec(kind, counters.of_kind(kind)),
                ),
            ).with_counters(counters.count_kind(kind)),
            args,
            destination,
        )
    }
}

/// The state after a call to a function without a body: one transition
/// for the call and, where the call has a cleanup block, one for its
/// unwinding; the return value denotes what the first argument denotes.
pub open spec fn call_foreign_spec(
    state: WalkModel,
    function_name: Seq<char>,
    args: Seq<Operand>,
    destination: Place,
    places: FunctionPlacesModel,
) -> WalkModel {
    let counters = state.translator.counters;
    if counters.call_counter >= usize::MAX {
        state.fail(counter_overflow())
    } else {
        link_return_value_spec(
            state.with_net(
                call_foreign_function_spec(
                    state.net(),
                    places,
                    foreign_call_transition_labels_spec(
                        call_name_spec(function_name, counters.call_counter),
                    ),
                ),
            ).with_counters(counters.count_call()),
            args,
            destination,
        )
    }
}

/// The state after the body of a function was translated between the given
/// places, and the memory of the function at its end.
pub open spec fn translate_function_spec(
    program: Program,
    translator: TranslatorModel,
    def_id: usize,
    name: Seq<char>,
    start: Label,
    end: Label,
    unwind: Label,
    memory: MemoryModel,
    depth: nat,
) -> (TranslatorModel, MemoryModel)
    decreases depth, 3nat, 0nat,
{
    if def_id < program.functions@.len() && program.functions@[def_id as int].body is Some {
        let body = program.functions@[def_id as int].body->Some_0;
        let function = MirFunctionModel::new(
            name,
            start,
            end,
            unwind,
            body.basic_blocks@.len(),
            memory,
        );
        let done = visit_blocks_spec(
            program,
            WalkModel { translator, function },
            body.basic_blocks@,
            0,
            depth,
        );
        (done.translator, done.function.memory)
    } else {
        (
            TranslatorModel { net: translator.net.fail(out_of_range()), ..translator },
            memory,
        )
    }
}

/// The state after the basic blocks from position `from` on were translated, in their order.
pub open spec fn visit_blocks_spec(
    program: Program,
    state: WalkModel,
    blocks: Seq<BasicBlockData>,
    from: nat,
    depth: nat,
) -> WalkModel
    decreases depth, 2nat, blocks.len() - from,
{
    if state.net().error is Some || from >= blocks.len() {
        state
    } else {
        visit_blocks_spec(
            program,
            visit_basic_block_data_spec(program, state, from, blocks[from as int], depth),
            blocks,
            from + 1,
            depth,
        )
    }
}

/// The state after a basic block was translated: the block is activated,
/// its statements change the memory, and its terminator extends the net.
pub open spec fn visit_basic_block_data_spec(
    program: Program,
    state: WalkModel,
    block: nat,
    data: BasicBlockData,
    depth: nat,
) -> WalkModel
    decreases depth, 1nat, 1nat,
{
    let activated = state.with(state.function.activate_block(state.net(), block));
    if activated.net().error is Some {
        activated
    } else {
        match visit_statements_spec(activated.function.memory, data.statements@, 0) {
            Ok(memory) => visit_terminator_spec(
                program,
                WalkModel {
                    function: MirFunctionModel { memory, ..activated.function },
                    ..activated
                },
                data.terminator,
                depth,
            ),
            Err(e) => activated.fail(e),
        }
    }
}

/// The state after a terminator was translated.
pub open spec fn visit_terminator_spec(
    program: Program,
    state: WalkModel,
    terminator: TerminatorKind,
    depth: nat,
) -> WalkModel
    decreases depth, 1nat, 0nat,
{
    let net = state.net();
    let function = state.function;
    match terminator {
        TerminatorKind::Goto { target } => state.with(function.goto(net, target as nat)),
        TerminatorKind::SwitchInt { targets } => state.with(function.switch_int(net, targets@)),
        TerminatorKind::Resume => state.with_net(function.unwind(net)),
        TerminatorKind::Abort => state.with_net(function.unwind(net)),
        TerminatorKind::Return => state.with(function.return_statement(net)),
        TerminatorKind::Unreachable => state.with_net(function.unreachable(net, PROGRAM_END@)),
        TerminatorKind::Drop { place, target, unwind } => {
            let dropped = function.drop_value(net, target as nat, unwind);
            state.with(
                (
                    state.translator.managers.mutexes.handle_lock_guard_drop(
                        dropped.0,
                        dropped.1.memory,
                        place,
                        crate::naming::basic_block::drop_transition_labels_spec(
                            function.name,
                            function.active_block,
                        ).0,
                    ),
                    dropped.1,
                ),
            )
        },
        TerminatorKind::DropAndReplace => state.fail(
            unsupported(UnsupportedConstruct::DropAndReplace),
        ),
        TerminatorKind::Call { func, args, destination, target, cleanup } => call_spec(
            program,
            state,
            func,
            args@,
            destination,
            target,
            cleanup,
            depth,
        ),
        TerminatorKind::Assert { target, cleanup } => state.with(
            function.assert_condition(net, target as nat, cleanup),
        ),
        TerminatorKind::Yield => state.fail(unsupported(UnsupportedConstruct::Yield)),
        TerminatorKind::GeneratorDrop => state.fail(
            unsupported(UnsupportedConstruct::GeneratorDrop),
        ),
        TerminatorKind::FalseEdge => state.fail(unsupported(UnsupportedConstruct::FalseEdge)),
        TerminatorKind::FalseUnwind => state.fail(unsupported(UnsupportedConstruct::FalseUnwind)),
        TerminatorKind::InlineAsm => state.fail(unsupported(UnsupportedConstruct::InlineAsm)),
    }
}

/// The state after a call was translated. The called function decides how:
/// a function that panics ends the program in a panic; a call without a
/// target ends the program; a supported function on a sync variable is
/// handed to the manager of that variable; a linking function and a
/// function without a body become one transition; any other function is entered.
pub open spec fn call_spec(
    program: Program,
    state: WalkModel,
    func: Operand,
    args: Seq<Operand>,
    destination: Place,
    target: Option<usize>,
    cleanup: Option<usize>,
    depth: nat,
) -> WalkModel
    decreases depth, 0nat, 3nat,
{
    if state.net().error is Some {
        state
    } else {
        match called_function_spec(func) {
            Err(e) => state.fail(e),
            Ok(def_id) => if def_id >= program.functions@.len() {
                state.fail(out_of_range())
            } else {
                let callee = program.functions@[def_id as int];
                if is_panic_function_spec(callee.name@) {
                    call_panic_spec(state, callee.name@)
                } else {
                    match target {
                        None => call_diverging_spec(state, callee.name@),
                        Some(target) => {
                            let at_site = state.with(
                                state.function.function_call_places(
                                    state.net(),
                                    target as nat,
                                    cleanup,
                                ),
                            );
                            let places = state.function.call_site(target as nat, cleanup);
                            call_at_site_spec(
                                program,
                                at_site,
                                def_id,
                                args,
                                destination,
                                places,
                                depth,
                            )
                        },
                    }
                }
            },
        }
    }
}

/// The state after a call was translated whose places are in the net:
/// a supported function on a sync variable is handed to the manager of that
/// variable; a linking function and a function without a body become one
/// transition; any other function is entered.
pub open spec fn call_at_site_spec(
    program: Program,
    state: WalkModel,
    def_id: usize,
    args: Seq<Operand>,
    destination: Place,
    places: FunctionPlacesModel,
    depth: nat,
) -> WalkModel
    decreases depth, 0nat, 2nat,
{
    if state.net().error is Some || def_id >= program.functions@.len() {
        state
    } else {
        let callee = program.functions@[def_id as int];
        if is_supported_function_spec(callee.name@) {
            call_sync_spec(program, state, callee.name@, args, destination, places, depth)
        } else if linking_function_spec(callee.name@) is Some {
            call_linking_spec(
                state,
                linking_function_spec(callee.name@)->Some_0,
                args,
                destination,
                places,
            )
        } else if callee.body is Some {
            call_body_spec(program, state, def_id, args, destination, places, depth)
        } else {
            call_foreign_spec(state, callee.name@, args, destination, places)
        }
    }
}

/// The state after a call to a supported function on a sync variable.
/// Once the call is wired, the task that it leaves is done: a mutex is
/// added, a wait is linked, or the function of a spawned thread is translated.
pub open spec fn call_sync_spec(
    program: Program,
    state: WalkModel,
    function_name: Seq<char>,
    args: Seq<Operand>,
    destination: Place,
    places: FunctionPlacesModel,
    depth: nat,
) -> WalkModel
    decreases depth, 0nat, 1nat,
{
    let called = crate::translator::sync::call_function_spec(
        function_name,
        args,
        destination,
        places,
        state.net(),
        state.function.memory,
        state.translator.managers,
    );
    let after = WalkModel {
        translator: TranslatorModel {
            net: called.net,
            managers: called.managers,
            ..state.translator
        },
        function: MirFunctionModel { memory: called.memory, ..state.function },
    };
    if called.net.error is Some {
        after
    } else {
        match called.task {
            Some(PostprocessingTaskModel::NewThread { thread, function, environment }) => spawn_thread_spec(
                program,
                after,
                thread,
                function,
                environment,
                depth,
            ),
            Some(task) => {
                let resolved = crate::translator::sync::resolve_task_spec(
                    task,
                    args,
                    destination,
                    called.net,
                    called.memory,
                    called.managers,
                );
                WalkModel {
                    translator: TranslatorModel {
                        net: resolved.net,
                        managers: resolved.managers,
                        ..state.translator
                    },
                    function: MirFunctionModel { memory: resolved.memory, ..state.function },
                }
            },
            None => after,
        }
    }
}

/// The state after the function of a spawned thread was translated between
/// the start place and the end place of the thread. Its first argument
/// denotes what was handed to `spawn`. A panic in the thread ends the program.
pub open spec fn spawn_thread_spec(
    program: Program,
    state: WalkModel,
    thread: ThreadRef,
    function: usize,
    environment: Value,
    depth: nat,
) -> WalkModel
    decreases depth, 0nat, 0nat,
{
    let counters = state.translator.counters;
    let places = ThreadModel::of_index(thread.0 as nat, None);
    if state.net().error is Some {
        state
    } else if thread.0 >= state.translator.managers.threads.count() {
        state.fail(stale_handle())
    } else if function >= program.functions@.len() {
        state.fail(out_of_range())
    } else if counters.call_counter >= usize::MAX {
        state.fail(counter_overflow())
    } else {
        let callee = program.functions@[function as int];
        let name = call_name_spec(callee.name@, counters.call_counter);
        match callee.body {
            None => state.with_net(
                call_foreign_function_spec(
                    state.net(),
                    FunctionPlacesModel { start: places.start, end: places.end, cleanup: None },
                    foreign_call_transition_labels_spec(name),
                ),
            ).with_counters(counters.count_call()),
            Some(body) => if depth == 0 {
                state.fail(unsupported(UnsupportedConstruct::CallDepth))
            } else {
                let done = translate_function_spec(
                    program,
                    TranslatorModel { counters: counters.count_call(), ..state.translator },
                    function,
                    name,
                    places.start,
                    places.end,
                    PROGRAM_PANIC@,
                    state.function.memory.enter(body.local_count as nat, seq![environment]),
                    (depth - 1) as nat,
                );
                WalkModel { translator: done.0, ..state }
            },
        }
    }
}

/// The state after a call to a function with a body: the body is
/// translated between the places of the call site. The function returns to
/// the target of the call and unwinds to the cleanup block of the call or,
/// where the call has none, to where the caller unwinds to.
pub open spec fn call_body_spec(
    program: Program,
    state: WalkModel,
    def_id: usize,
    args: Seq<Operand>,
    destination: Place,
    places: FunctionPlacesModel,
    depth: nat,
) -> WalkModel
    decreases depth, 0nat, 0nat,
{
    let counters = state.translator.counters;
    if state.net().error is Some {
        state
    } else if def_id >= program.functions@.len() || program.functions@[def_id as int].body
        is None {
        state.fail(out_of_range())
    } else if depth == 0 {
        state.fail(unsupported(UnsupportedConstruct::CallDepth))
    } else if counters.call_counter >= usize::MAX {
        state.fail(counter_overflow())
    } else {
        let callee = program.functions@[def_id as int];
        let done = translate_function_spec(
            program,
            TranslatorModel { counters: counters.count_call(), ..state.translator },
            def_id,
            call_name_spec(callee.name@, counters.call_counter),
            places.start,
            places.end,
            match places.cleanup {
                Some(cleanup) => cleanup,
                None => state.function.unwind,
            },
            state.function.memory.enter(
                callee.body->Some_0.local_count as nat,
                state.function.memory.argument_values(args),
            ),
            (depth - 1) as nat,
        );
        match state.function.memory.leave(done.1, destination.local as int) {
            Ok(memory) => WalkModel {
                translator: done.0,
                function: MirFunctionModel { memory, ..state.function },
            },
            Err(e) => WalkModel {
                translator: TranslatorModel { net: done.0.net.fail(e), ..done.0 },
                function: state.function,
            },
        }
    }
}

/// The net at the start of a translation: the three places of the
/// program, with one token on `PROGRAM_START`.
pub open spec fn initial_net_spec() -> NetModel {
    NetModel::empty().add_place(PROGRAM_START@).add_place(PROGRAM_END@).add_place(
        PROGRAM_PANIC@,
    ).add_tokens(PROGRAM_START@, 1)
}

/// The state of the translator after the translation of a program: the
/// entry function is translated between the places `PROGRAM_START` and
/// `PROGRAM_END`, and unwinds to `PROGRAM_PANIC`. A defect or an
/// unsupported construct is recorded as the error of the net.
pub open spec fn translation_spec(program: Program) -> TranslatorModel {
    let initial = TranslatorModel {
        net: initial_net_spec(),
        managers: SyncModel::empty(),
        counters: CountersModel::zero(),
    };
    if program.entry < program.functions@.len() {
        translate_function_spec(
            program,
            initial,
            program.entry,
            program.functions@[program.entry as int].name@,
            PROGRAM_START@,
            PROGRAM_END@,
            PROGRAM_PANIC@,
            MemoryModel::new(
                match program.functions@[program.entry as int].body {
                    Some(body) => body.local_count as nat,
                    None => 0,
                },
            ),
            MAX_CALL_DEPTH as nat,
        ).0
    } else {
        TranslatorModel { net: initial.net.fail(out_of_range()), ..initial }
    }
}

/// The net that models a program.
pub open spec fn translate_spec(program: Program) -> NetModel {
    translation_spec(program).net
}


impl View for Translator {
    type V = TranslatorModel;

    open spec fn view(&self) -> TranslatorModel {
        TranslatorModel { net: self.net@, managers: self.managers@, counters: self.counters@ }
    }
}

/// Whether a step of the walk ended as the model says: the net as
/// `outcome_matches` says and, on success, the translator and the function
/// call in the state of the model.
pub open spec fn walk_matches<T>(
    result: Result<T, TranslationError>,
    translator: Translator,
    function: MirFunction,
    model: WalkModel,
) -> bool {
    &&& outcome_matches(result, translator.net, model.net())
    &&& result is Ok ==> translator@ == model.translator && function@ == model.function
}

/// Which linking function a name is that of, if any.
pub fn linking_function(function_name: &str) -> (kind: Option<LinkingFunction>)
    ensures
        kind == linking_function_spec(function_name@),
{
    let name = String::from_str(function_name);
    if name == String::from_str("std::clone::Clone::clone") {
        Some(LinkingFunction::CloneValue)
    } else if name == String::from_str("std::ops::Deref::deref") || name == String::from_str(
        "std::ops::DerefMut::deref_mut",
    ) {
        Some(LinkingFunction::Deref)
    } else if name == String::from_str("std::result::Result::<T, E>::unwrap") {
        Some(LinkingFunction::Unwrap)
    } else if name == String::from_str("std::sync::Arc::<T>::new") {
        Some(LinkingFunction::ArcNew)
    } else {
        None
    }
}

impl Translator {
    /// Whether the translator is in a state that the translation can go on from.
    pub open spec fn wf(&self) -> bool {
        &&& self.net.wf()
        &&& self.managers.wf(self.net)
        &&& self.net.has_place(self.program_start)
        &&& self.net.has_place(self.program_end)
        &&& self.net.has_place(self.program_panic)
        &&& place_label(self.program_start) == PROGRAM_START@
        &&& place_label(self.program_end) == PROGRAM_END@
        &&& place_label(self.program_panic) == PROGRAM_PANIC@
    }

    /// The state of a walk: this translator and a function call.
    pub open spec fn walk(&self, function: MirFunction) -> WalkModel {
        WalkModel { translator: self@, function: function@ }
    }

    /// The next number for a call that is labelled by name.
    pub(crate) fn next_call(&mut self) -> (index: Result<usize, TranslationError>)
        ensures
            index is Ok <==> old(self)@.counters.call_counter < usize::MAX,
            index is Ok ==> index->Ok_0 == old(self)@.counters.call_counter,
            index is Ok ==> final(self)@ == (TranslatorModel {
                counters: old(self)@.counters.count_call(),
                ..old(self)@
            }),
            index is Err ==> index->Err_0 == counter_overflow(),
            index is Err ==> *final(self) == *old(self),
            final(self).net == old(self).net,
            final(self).managers == old(self).managers,
            final(self).program_end == old(self).program_end,
            final(self).program_panic == old(self).program_panic,
            final(self).program_start == old(self).program_start,
    {
        let index = self.counters.call_counter;
        if index == usize::MAX {
            return Err(TranslationError::Internal(InternalDefect::CounterOverflow));
        }
        self.counters.call_counter = index + 1;
        Ok(index)
    }

    /// The labels of the next call to a linking function.
    pub(crate) fn next_linking_labels(&mut self, kind: LinkingFunction) -> (labels: Result<
        (String, String),
        TranslationError,
    >)
        ensures
            labels is Ok <==> old(self)@.counters.of_kind(kind) < usize::MAX,
            labels is Ok ==> (labels->Ok_0.0@, labels->Ok_0.1@) == linking_labels_spec(
                kind,
                old(self)@.counters.of_kind(kind),
            ),
            labels is Ok ==> final(self)@ == (TranslatorModel {
                counters: old(self)@.counters.count_kind(kind),
                ..old(self)@
            }),
            labels is Err ==> labels->Err_0 == counter_overflow(),
            labels is Err ==> *final(self) == *old(self),
            final(self).net == old(self).net,
            final(self).managers == old(self).managers,
            final(self).program_end == old(self).program_end,
            final(self).program_panic == old(self).program_panic,
            final(self).program_start == old(self).program_start,
    {
        match kind {
            LinkingFunction::CloneValue => {
                let index = self.counters.clone_counter;
                if index == usize::MAX {
                    return Err(TranslationError::Internal(InternalDefect::CounterOverflow));
                }
                self.counters.clone_counter = index + 1;
                Ok(clone_transition_labels(index))
            },
            LinkingFunction::Deref => {
                let index = self.counters.deref_counter;
                if index == usize::MAX {
                    return Err(TranslationError::Internal(InternalDefect::CounterOverflow));
                }
                self.counters.deref_counter = index + 1;
                Ok(deref_transition_labels(index))
            },
            LinkingFunction::Unwrap => {
                let index = self.counters.unwrap_counter;
                if index == usize::MAX {
                    return Err(TranslationError::Internal(InternalDefect::CounterOverflow));
                }
                self.counters.unwrap_counter = index + 1;
                Ok(unwrap_transition_labels(index))
            },
            LinkingFunction::ArcNew => {
                let index = self.counters.arc_new_counter;
                if index == usize::MAX {
                    return Err(TranslationError::Internal(InternalDefect::CounterOverflow));
                }
                self.counters.arc_new_counter = index + 1;
                Ok(arc_new_transition_labels(index))
            },
        }
    }

    /// Translates a call to a function that starts a panic.
    pub(crate) fn call_panic(&mut self, function: &MirFunction, function_name: &str) -> (done: Result<
        (),
        TranslationError,
    >)
        requires
            old(self).wf(),
            function.wf(old(self).net),
            function.is_active(),
        ensures
            final(self).wf(),
            final(self).net.extends(old(self).net),
            walk_matches(
                done,
                *final(self),
                *function,
                call_panic_spec(old(self).walk(*function), function_name@),
            ),
    {
        proof {
            self.net.lemma_view();
        }
        let index = self.next_call()?;
        let name = call_name(function_name, index);
        call_panic_function(
            function.active_place(),
            name.as_str(),
            &self.program_panic,
            &mut self.net,
        )
    }

    /// Translates a call to a function that does not return.
    pub(crate) fn call_diverging(&mut self, function: &MirFunction, function_name: &str) -> (done: Result<
        (),
        TranslationError,
    >)
        requires
            old(self).wf(),
            function.wf(old(self).net),
            function.is_active(),
        ensures
            final(self).wf(),
            final(self).net.extends(old(self).net),
            walk_matches(
                done,
                *final(self),
                *function,
                call_diverging_spec(old(self).walk(*function), function_name@),
            ),
    {
        proof {
            self.net.lemma_view();
        }
        let index = self.next_call()?;
        let name = call_name(function_name, index);
        call_diverging_function(
            function.active_place(),
            name.as_str(),
            &self.program_end,
            &mut self.net,
        )
    }

    /// Links the return value of a call that is not entered to its first argument.
    pub(crate) fn link_return_value(
        &mut self,
        function: &mut MirFunction,
        args: &Vec<Operand>,
        destination: &Place,
    ) -> (done: Result<(), TranslationError>)
        requires
            old(self).wf(),
            old(function).wf(old(self).net),
            old(function).is_active(),
        ensures
            *final(self) == *old(self),
            final(function).wf(final(self).net),
            final(function).is_active(),
            walk_matches(
                done,
                *final(self),
                *final(function),
                link_return_value_spec(old(self).walk(*old(function)), args@, *destination),
            ),
    {
        proof {
            self.net.lemma_view();
        }
        link_return_value_if_sync_variable(args, destination, &mut function.memory)
    }

    /// Translates a call to a linking function.
    pub(crate) fn call_linking(
        &mut self,
        function: &mut MirFunction,
        kind: LinkingFunction,
        args: &Vec<Operand>,
        destination: &Place,
        places: &FunctionPlaces,
    ) -> (done: Result<(), TranslationError>)
        requires
            old(self).wf(),
            old(function).wf(old(self).net),
            old(function).is_active(),
            places.wf(old(self).net),
        ensures
            final(self).wf(),
            final(self).net.extends(old(self).net),
            final(function).wf(final(self).net),
            final(function).is_active(),
            walk_matches(
                done,
                *final(self),
                *final(function),
                call_linking_spec(
                    old(self).walk(*old(function)),
                    kind,
                    args@,
                    *destination,
                    places@,
                ),
            ),
    {
        proof {
            self.net.lemma_view();
        }
        let labels = self.next_linking_labels(kind)?;
        call_foreign_function(places, &labels, &mut self.net)?;
        self.link_return_value(function, args, destination)
    }

    /// Translates a call to a function without a body.
    pub(crate) fn call_foreign(
        &mut self,
        function: &mut MirFunction,
        function_name: &str,
        args: &Vec<Operand>,
        destination: &Place,
        places: &FunctionPlaces,
    ) -> (done: Result<(), TranslationError>)
        requires
            old(self).wf(),
            old(function).wf(old(self).net),
            old(function).is_active(),
            places.wf(old(self).net),
        ensures
            final(self).wf(),
            final(self).net.extends(old(self).net),
            final(function).wf(final(self).net),
            final(function).is_active(),
            walk_matches(
                done,
                *final(self),
                *final(function),
                call_foreign_spec(
                    old(self).walk(*old(function)),
                    function_name@,
                    args@,
                    *destination,
                    places@,
                ),
            ),
    {
        proof {
            self.net.lemma_view();
        }
        let index = self.next_call()?;
        let labels = foreign_call_transition_labels(call_name(function_name, index).as_str());
        call_foreign_function(places, &labels, &mut self.net)?;
        self.link_return_value(function, args, destination)
    }
}


/// The labels of the three places of the program differ from one another.
pub proof fn lemma_program_places_differ()
    ensures
        PROGRAM_START@ != PROGRAM_END@,
        PROGRAM_START@ != PROGRAM_PANIC@,
        PROGRAM_END@ != PROGRAM_PANIC@,
        initial_net_spec().is_ok(),
{
    reveal_strlit("PROGRAM_START");
    reveal_strlit("PROGRAM_END");
    reveal_strlit("PROGRAM_PANIC");
    assert(PROGRAM_START@.len() == 13);
    assert(PROGRAM_END@.len() == 11);
    assert(PROGRAM_START@[8] == 'S');
    assert(PROGRAM_PANIC@[8] == 'P');
}

impl Translator {
    /// A translator with the net in its initial state: the three places
    /// of the program, with one token on `PROGRAM_START`.
    pub fn new() -> (translator: Translator)
        ensures
            translator.wf(),
            translator@ == (TranslatorModel {
                net: initial_net_spec(),
                managers: SyncModel::empty(),
                counters: CountersModel::zero(),
            }),
    {
        proof {
            lemma_program_places_differ();
        }
        let mut net = Net::new();
        let program_start = match net.add_place(PROGRAM_START) {
            Ok(place) => place,
            Err(_) => vstd::pervasive::unreached(),
        };
        let program_end = match net.add_place(PROGRAM_END) {
            Ok(place) => place,
            Err(_) => vstd::pervasive::unreached(),
        };
        let program_panic = match net.add_place(PROGRAM_PANIC) {
            Ok(place) => place,
            Err(_) => vstd::pervasive::unreached(),
        };
        match net.add_token(&program_start, 1) {
            Ok(()) => {},
            Err(_) => vstd::pervasive::unreached(),
        }
        Translator {
            net,
            program_end,
            program_panic,
            program_start,
            managers: SyncManagers::new(),
            counters: Counters {
                call_counter: 0,
                unwrap_counter: 0,
                arc_new_counter: 0,
                clone_counter: 0,
                deref_counter: 0,
            },
        }
    }

    /// Translates the program, starting at its entry function.
    pub fn run(&mut self, program: &Program) -> (done: Result<(), TranslationError>)
        requires
            old(self).wf(),
            old(self)@ == (TranslatorModel {
                net: initial_net_spec(),
                managers: SyncModel::empty(),
                counters: CountersModel::zero(),
            }),
        ensures
            final(self).wf(),
            outcome_matches(done, final(self).net, translate_spec(*program)),
            done is Ok ==> final(self)@ == translation_spec(*program),
            done is Ok ==> final(self)@.net.connected() && final(self)@.net.closed()
                && final(self)@.net.guards() && final(self)@.joins_are_attached(),
    {
        let done = self.translate_entry(program);
        proof {
            if done is Ok {
                self.net.lemma_view();
                crate::translator::invariants::lemma_translation_is_connected(*program);
                crate::translator::guards::lemma_translation_guards(*program);
                crate::translator::joins::lemma_translation_attaches_joins(*program);
            }
        }
        done
    }

    /// Translates the entry function of the program between the places of the program.
    fn translate_entry(&mut self, program: &Program) -> (done: Result<(), TranslationError>)
        requires
            old(self).wf(),
            old(self)@ == (TranslatorModel {
                net: initial_net_spec(),
                managers: SyncModel::empty(),
                counters: CountersModel::zero(),
            }),
        ensures
            final(self).wf(),
            outcome_matches(done, final(self).net, translate_spec(*program)),
            done is Ok ==> final(self)@ == translation_spec(*program),
    {
        proof {
            self.net.lemma_view();
        }
        if program.entry >= program.functions.len() {
            return Err(TranslationError::Internal(InternalDefect::OutOfRange));
        }
        let entry = &program.functions[program.entry];
        let local_count = match &entry.body {
            Some(body) => body.local_count,
            None => 0,
        };
        let start_place = self.program_start.clone();
        let end_place = self.program_end.clone();
        let unwind_place = self.program_panic.clone();
        self.translate_function(
            program,
            program.entry,
            entry.name.clone(),
            start_place,
            end_place,
            unwind_place,
            Memory::new(local_count),
            MAX_CALL_DEPTH,
        )?;
        Ok(())
    }

    /// Hands out the net that was built.
    pub fn get_net(self) -> (net: PetriNet)
        requires
            self.wf(),
        ensures
            net_wf(net),
            net_view(net) == self@.net,
    {
        self.net.into_petri_net()
    }
}

/// Translates a program into the Petri net that models it.
///
/// The translation succeeds if and only if the model of the translation
/// records no error; the net is then the net of the model. Otherwise the
/// error is the one that the model records.
///
/// In the net of a translation every label is used once, every transition
/// has an arc from a place and an arc to a place, every arc joins a place
/// and a transition of the net, and the net is balanced for the places of
/// every mutex.
pub fn translate(program: &Program) -> (net: Result<PetriNet, TranslationError>)
    ensures
        net is Ok ==> net_wf(net->Ok_0) && net_view(net->Ok_0) == translate_spec(*program),
        net is Ok <==> translate_spec(*program).is_ok(),
        net is Err ==> translate_spec(*program).error == Some(net->Err_0),
        net is Ok ==> net_view(net->Ok_0).is_wired(),
        net is Ok ==> net_view(net->Ok_0).closed() && net_view(net->Ok_0).guards(),
{
    let mut translator = Translator::new();
    match translator.run(program) {
        Ok(()) => {
            proof {
                translator.net.lemma_view();
                crate::translator::invariants::lemma_translation_is_connected(*program);
                crate::translator::guards::lemma_translation_guards(*program);
            }
            let net = translator.get_net();
            proof {
                lemma_connected_by_arcs(net);
            }
            Ok(net)
        },
        Err(e) => Err(e),
    }
}


/// The translation is deterministic: two nets that are translations of
/// the same program have the same text in every format.
pub proof fn lemma_translation_is_deterministic(
    program: Program,
    first: PetriNet,
    second: PetriNet,
    format: crate::export::Format,
)
    requires
        net_view(first) == translate_spec(program),
        net_view(second) == translate_spec(program),
    ensures
        net_view(first) == net_view(second),
        crate::export::text_of(net_view(first), format) == crate::export::text_of(
            net_view(second),
            format,
        ),
{
}

} // verus!
