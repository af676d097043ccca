//! What every step of the translation keeps.
//!
//! A net that is built without defect only grows, and every transition
//! that a step adds has, at the end of the step, an arc from a place and an
//! arc to a place.

use crate::naming::program::{PROGRAM_END, PROGRAM_PANIC, PROGRAM_START};
use crate::net_model::{Label, NetModel};
use crate::program::{BasicBlockData, Operand, Place, Program, TerminatorKind};
use crate::translator::function_call::{FunctionPlacesModel, PostprocessingTaskModel};
use crate::translator::mir_function::memory::{MemoryModel, Value};
use crate::translator::mir_function::MirFunctionModel;
use crate::translator::special_function::{
    call_diverging_function_spec, call_foreign_function_spec, call_panic_function_spec,
};
use crate::translator::sync::{
    call_condvar_new_spec, call_condvar_notify_one_spec, translated_condvar_wait_spec,
    call_mutex_lock_spec, translated_mutex_new_spec, call_thread_join_spec, call_thread_spawn_spec,
    SyncModel, ThreadRef,
};
use crate::translator::{
    call_at_site_spec, call_body_spec, call_spec, call_sync_spec, initial_net_spec,
    spawn_thread_spec, translate_function_spec, translate_spec, visit_basic_block_data_spec,
    visit_blocks_spec, visit_terminator_spec, TranslatorModel, WalkModel,
};
use vstd::prelude::*;

verus! {

/// A call to a function that is not entered advances the net.
pub proof fn lemma_call_foreign_function_advances(
    net: NetModel,
    places: FunctionPlacesModel,
    labels: (Label, Label),
)
    ensures
        call_foreign_function_spec(net, places, labels).advances(net),
{
}

/// A call to `std::sync::Condvar::new` advances the net.
pub proof fn lemma_call_condvar_new_advances(
    destination: Place,
    places: FunctionPlacesModel,
    net: NetModel,
    memory: MemoryModel,
    managers: SyncModel,
)
    ensures
        call_condvar_new_spec(destination, places, net, memory, managers).net.advances(net),
{
}

/// A call to `std::sync::Condvar::notify_one` advances the net.
pub proof fn lemma_call_condvar_notify_one_advances(
    args: Seq<Operand>,
    places: FunctionPlacesModel,
    net: NetModel,
    memory: MemoryModel,
    managers: SyncModel,
)
    ensures
        call_condvar_notify_one_spec(args, places, net, memory, managers).net.advances(net),
{
}

/// A call to `std::sync::Condvar::wait` advances the net: the transition
/// that starts the wait puts a token on `wait_input`, and the transition
/// that ends it takes one from `signal_output`.
pub proof fn lemma_call_condvar_wait_advances(
    args: Seq<Operand>,
    destination: Place,
    places: FunctionPlacesModel,
    net: NetModel,
    memory: MemoryModel,
    managers: SyncModel,
)
    ensures
        translated_condvar_wait_spec(args, destination, places, net, memory, managers).net.advances(net),
{
}

/// A call to `std::sync::Mutex::<T>::lock` advances the net.
pub proof fn lemma_call_mutex_lock_advances(
    args: Seq<Operand>,
    destination: Place,
    places: FunctionPlacesModel,
    net: NetModel,
    memory: MemoryModel,
    managers: SyncModel,
)
    ensures
        call_mutex_lock_spec(args, destination, places, net, memory, managers).net.advances(net),
{
}

/// A call to `std::sync::Mutex::<T>::new` advances the net.
pub proof fn lemma_call_mutex_new_advances(
    destination: Place,
    places: FunctionPlacesModel,
    net: NetModel,
    memory: MemoryModel,
    managers: SyncModel,
)
    ensures
        translated_mutex_new_spec(destination, places, net, memory, managers).net.advances(net),
{
}

/// A call to `std::thread::spawn` advances the net.
pub proof fn lemma_call_thread_spawn_advances(
    args: Seq<Operand>,
    destination: Place,
    places: FunctionPlacesModel,
    net: NetModel,
    memory: MemoryModel,
    managers: SyncModel,
)
    ensures
        call_thread_spawn_spec(args, destination, places, net, memory, managers).net.advances(net),
{
}

/// A call to `std::thread::JoinHandle::<T>::join` advances the net.
pub proof fn lemma_call_thread_join_advances(
    args: Seq<Operand>,
    places: FunctionPlacesModel,
    net: NetModel,
    memory: MemoryModel,
    managers: SyncModel,
)
    ensures
        call_thread_join_spec(args, places, net, memory, managers).net.advances(net),
{
}

/// The call of a supported function on a sync variable advances the net.
pub proof fn lemma_sync_call_advances(
    function_name: Seq<char>,
    args: Seq<Operand>,
    destination: Place,
    places: FunctionPlacesModel,
    net: NetModel,
    memory: MemoryModel,
    managers: SyncModel,
)
    ensures
        crate::translator::sync::translated_call_spec(
            function_name,
            args,
            destination,
            places,
            net,
            memory,
            managers,
        ).net.advances(net),
{
    lemma_call_condvar_new_advances(destination, places, net, memory, managers);
    lemma_call_condvar_notify_one_advances(args, places, net, memory, managers);
    lemma_call_condvar_wait_advances(args, destination, places, net, memory, managers);
    lemma_call_mutex_lock_advances(args, destination, places, net, memory, managers);
    lemma_call_mutex_new_advances(destination, places, net, memory, managers);
    lemma_call_thread_spawn_advances(args, destination, places, net, memory, managers);
    lemma_call_thread_join_advances(args, places, net, memory, managers);
}

/// The call of a supported function itself, before its task is done, lets
/// the net grow only and keeps it closed. But for the transitions of a wait,
/// which its task links, it leaves no transition without an arc from a
/// place and an arc to a place.
pub proof fn lemma_sync_call_itself_advances(
    function_name: Seq<char>,
    args: Seq<Operand>,
    destination: Place,
    places: FunctionPlacesModel,
    net: NetModel,
    memory: MemoryModel,
    managers: SyncModel,
)
    ensures
        ({
            let called = crate::translator::sync::call_function_spec(
                function_name,
                args,
                destination,
                places,
                net,
                memory,
                managers,
            );
            called.net.is_ok() ==> net.is_ok() && called.net.extends(net) && (net.closed()
                ==> called.net.closed()) && (!(called.task is Some && called.task->Some_0
                is LinkWait) ==> called.net.advances(net))
        }),
{
    lemma_sync_call_advances(function_name, args, destination, places, net, memory, managers);
    lemma_call_foreign_function_advances(
        net,
        places,
        crate::naming::mutex::new_transition_labels_spec(managers.mutexes.count),
    );
}

impl MirFunctionModel {
    /// A `SwitchInt` advances the net.
    pub proof fn lemma_switch_int_advances(self, net: NetModel, targets: Seq<usize>)
        ensures
            self.switch_int(net, targets).0.advances(net),
        decreases targets.len(),
    {
        if targets.len() > 0 {
            self.lemma_switch_int_advances(net, targets.drop_last());
        }
    }
}

impl MirFunctionModel {
    /// A `Goto` advances the net.
    pub proof fn lemma_goto_advances(self, net: NetModel, target: nat)
        ensures
            self.goto(net, target).0.advances(net),
    {
    }

    /// A `Resume` or an `Abort` advances the net.
    pub proof fn lemma_unwind_advances(self, net: NetModel)
        ensures
            self.unwind(net).advances(net),
    {
    }

    /// A `Return` advances the net.
    pub proof fn lemma_return_statement_advances(self, net: NetModel)
        ensures
            self.return_statement(net).0.advances(net),
    {
    }

    /// An `Unreachable` advances the net.
    pub proof fn lemma_unreachable_advances(self, net: NetModel, program_end: Label)
        ensures
            self.unreachable(net, program_end).advances(net),
    {
    }

    /// A terminator with a target and a second way out advances the net.
    pub proof fn lemma_two_way_advances(
        self,
        net: NetModel,
        target: nat,
        unwind: Option<usize>,
        labels: (Label, Label),
    )
        ensures
            self.two_way(net, target, unwind, labels).0.advances(net),
    {
    }

    /// The places of a call site advance the net.
    pub proof fn lemma_function_call_places_advances(
        self,
        net: NetModel,
        target: nat,
        cleanup: Option<usize>,
    )
        ensures
            self.function_call_places(net, target, cleanup).0.advances(net),
    {
    }
}

/// A `Drop` advances the net, also where it unlocks a mutex.
pub proof fn lemma_drop_advances(state: WalkModel, place: Place, target: nat, unwind: Option<usize>)
    ensures
        ({
            let dropped = state.function.drop_value(state.net(), target, unwind);
            state.translator.managers.mutexes.handle_lock_guard_drop(
                dropped.0,
                dropped.1.memory,
                place,
                crate::naming::basic_block::drop_transition_labels_spec(
                    state.function.name,
                    state.function.active_block,
                ).0,
            )
        }).advances(state.net()),
{
    state.function.lemma_two_way_advances(
        state.net(),
        target,
        unwind,
        crate::naming::basic_block::drop_transition_labels_spec(
            state.function.name,
            state.function.active_block,
        ),
    );
}

/// A terminator advances the net.
pub proof fn lemma_visit_terminator_advances(
    program: Program,
    state: WalkModel,
    terminator: TerminatorKind,
    depth: nat,
)
    ensures
        visit_terminator_spec(program, state, terminator, depth).net().advances(state.net()),
    decreases depth, 1nat, 0nat,
{
    let net = state.net();
    let function = state.function;
    match terminator {
        TerminatorKind::Goto { target } => {
            function.lemma_goto_advances(net, target as nat);
        },
        TerminatorKind::SwitchInt { targets } => {
            function.lemma_switch_int_advances(net, targets@);
        },
        TerminatorKind::Resume => {
            function.lemma_unwind_advances(net);
        },
        TerminatorKind::Abort => {
            function.lemma_unwind_advances(net);
        },
        TerminatorKind::Return => {
            function.lemma_return_statement_advances(net);
        },
        TerminatorKind::Unreachable => {
            function.lemma_unreachable_advances(net, PROGRAM_END@);
        },
        TerminatorKind::Drop { place, target, unwind } => {
            lemma_drop_advances(state, place, target as nat, unwind);
        },
        TerminatorKind::Call { func, args, destination, target, cleanup } => {
            lemma_call_advances(program, state, func, args@, destination, target, cleanup, depth);
        },
        TerminatorKind::Assert { target, cleanup } => {
            function.lemma_two_way_advances(
                net,
                target as nat,
                cleanup,
                crate::naming::basic_block::assert_transition_labels_spec(
                    function.name,
                    function.active_block,
                ),
            );
        },
        _ => {},
    }
}

/// A call advances the net.
pub proof fn lemma_call_advances(
    program: Program,
    state: WalkModel,
    func: Operand,
    args: Seq<Operand>,
    destination: Place,
    target: Option<usize>,
    cleanup: Option<usize>,
    depth: nat,
)
    ensures
        call_spec(program, state, func, args, destination, target, cleanup, depth).net().advances(
            state.net(),
        ),
    decreases depth, 0nat, 3nat,
{
    if target is Some {
        let at_site = state.with(
            state.function.function_call_places(state.net(), target->Some_0 as nat, cleanup),
        );
        let places = state.function.call_site(target->Some_0 as nat, cleanup);
        if crate::utils::called_function_spec(func) is Ok {
            lemma_call_at_site_advances(
                program,
                at_site,
                crate::utils::called_function_spec(func)->Ok_0,
                args,
                destination,
                places,
                depth,
            );
        }
    }
}

/// A call whose places are in the net advances the net.
pub proof fn lemma_call_at_site_advances(
    program: Program,
    state: WalkModel,
    def_id: usize,
    args: Seq<Operand>,
    destination: Place,
    places: FunctionPlacesModel,
    depth: nat,
)
    ensures
        call_at_site_spec(program, state, def_id, args, destination, places, depth).net().advances(
            state.net(),
        ),
    decreases depth, 0nat, 2nat,
{
    if def_id < program.functions@.len() {
        let callee = program.functions@[def_id as int];
        lemma_call_sync_advances(program, state, callee.name@, args, destination, places, depth);
        lemma_call_body_advances(program, state, def_id, args, destination, places, depth);
    }
}

/// A call to a supported function advances the net, and so does the
/// translation of the thread that it may spawn.
pub proof fn lemma_call_sync_advances(
    program: Program,
    state: WalkModel,
    function_name: Seq<char>,
    args: Seq<Operand>,
    destination: Place,
    places: FunctionPlacesModel,
    depth: nat,
)
    ensures
        call_sync_spec(program, state, function_name, args, destination, places, depth).net().advances(
            state.net(),
        ),
    decreases depth, 0nat, 1nat,
{
    crate::translator::sync::lemma_call_and_resolve(
        function_name,
        args,
        destination,
        places,
        state.net(),
        state.function.memory,
        state.translator.managers,
    );
    lemma_sync_call_advances(
        function_name,
        args,
        destination,
        places,
        state.net(),
        state.function.memory,
        state.translator.managers,
    );
    let called = crate::translator::sync::translated_call_spec(
        function_name,
        args,
        destination,
        places,
        state.net(),
        state.function.memory,
        state.translator.managers,
    );
    let after = WalkModel {
        translator: TranslatorModel {
            net: called.net,
            managers: called.managers,
            ..state.translator
        },
        function: MirFunctionModel { memory: called.memory, ..state.function },
    };
    match called.task {
        Some(PostprocessingTaskModel::NewThread { thread, function, environment }) => {
            lemma_spawn_thread_advances(program, after, thread, function, environment, depth);
        },
        _ => {},
    }
}

/// The translation of the function of a thread advances the net.
pub proof fn lemma_spawn_thread_advances(
    program: Program,
    state: WalkModel,
    thread: ThreadRef,
    function: usize,
    environment: Value,
    depth: nat,
)
    ensures
        spawn_thread_spec(program, state, thread, function, environment, depth).net().advances(
            state.net(),
        ),
    decreases depth, 0nat, 0nat,
{
    let counters = state.translator.counters;
    if function < program.functions@.len() && depth > 0 {
        let callee = program.functions@[function as int];
        let places = crate::translator::sync::thread::ThreadModel::of_index(thread.0 as nat, None);
        if callee.body is Some {
            lemma_translate_function_advances(
                program,
                TranslatorModel { counters: counters.count_call(), ..state.translator },
                function,
                crate::naming::function::call_name_spec(callee.name@, counters.call_counter),
                places.start,
                places.end,
                PROGRAM_PANIC@,
                state.function.memory.enter(
                    callee.body->Some_0.local_count as nat,
                    seq![environment],
                ),
                (depth - 1) as nat,
            );
        }
    }
}

/// The translation of the body of a called function advances the net.
pub proof fn lemma_call_body_advances(
    program: Program,
    state: WalkModel,
    def_id: usize,
    args: Seq<Operand>,
    destination: Place,
    places: FunctionPlacesModel,
    depth: nat,
)
    ensures
        call_body_spec(program, state, def_id, args, destination, places, depth).net().advances(
            state.net(),
        ),
    decreases depth, 0nat, 0nat,
{
    let counters = state.translator.counters;
    if def_id < program.functions@.len() && program.functions@[def_id as int].body is Some
        && depth > 0 {
        let callee = program.functions@[def_id as int];
        lemma_translate_function_advances(
            program,
            TranslatorModel { counters: counters.count_call(), ..state.translator },
            def_id,
            crate::naming::function::call_name_spec(callee.name@, counters.call_counter),
            places.start,
            places.end,
            match places.cleanup {
                Some(cleanup) => cleanup,
                None => state.function.unwind,
            },
            state.function.memory.enter(
                callee.body->Some_0.local_count as nat,
                state.function.memory.argument_values(args),
            ),
            (depth - 1) as nat,
        );
    }
}

/// The translation of the body of a function advances the net.
pub proof fn lemma_translate_function_advances(
    program: Program,
    translator: TranslatorModel,
    def_id: usize,
    name: Seq<char>,
    start: Label,
    end: Label,
    unwind: Label,
    memory: MemoryModel,
    depth: nat,
)
    ensures
        translate_function_spec(
            program,
            translator,
            def_id,
            name,
            start,
            end,
            unwind,
            memory,
            depth,
        ).0.net.advances(translator.net),
    decreases depth, 3nat, 0nat,
{
    if def_id < program.functions@.len() && program.functions@[def_id as int].body is Some {
        let body = program.functions@[def_id as int].body->Some_0;
        let function = MirFunctionModel::new(
            name,
            start,
            end,
            unwind,
            body.basic_blocks@.len(),
            memory,
        );
        lemma_visit_blocks_advances(
            program,
            WalkModel { translator, function },
            body.basic_blocks@,
            0,
            depth,
        );
    }
}

/// The translation of basic blocks in a row advances the net.
pub proof fn lemma_visit_blocks_advances(
    program: Program,
    state: WalkModel,
    blocks: Seq<BasicBlockData>,
    from: nat,
    depth: nat,
)
    ensures
        visit_blocks_spec(program, state, blocks, from, depth).net().advances(state.net()),
    decreases depth, 2nat, blocks.len() - from,
{
    if !(state.net().error is Some || from >= blocks.len()) {
        let next = visit_basic_block_data_spec(program, state, from, blocks[from as int], depth);
        lemma_visit_basic_block_data_advances(program, state, from, blocks[from as int], depth);
        lemma_visit_blocks_advances(program, next, blocks, from + 1, depth);
    }
}

/// The translation of a basic block advances the net.
pub proof fn lemma_visit_basic_block_data_advances(
    program: Program,
    state: WalkModel,
    block: nat,
    data: BasicBlockData,
    depth: nat,
)
    ensures
        visit_basic_block_data_spec(program, state, block, data, depth).net().advances(state.net()),
    decreases depth, 1nat, 1nat,
{
    let activated = state.with(state.function.activate_block(state.net(), block));
    if activated.net().error is None {
        match crate::translator::visit_statements_spec(
            activated.function.memory,
            data.statements@,
            0,
        ) {
            Ok(memory) => {
                lemma_visit_terminator_advances(
                    program,
                    WalkModel {
                        function: MirFunctionModel { memory, ..activated.function },
                        ..activated
                    },
                    data.terminator,
                    depth,
                );
            },
            Err(_) => {},
        }
    }
}

/// The three places of the program are connected, there being no transition.
pub proof fn lemma_initial_net_is_connected()
    ensures
        initial_net_spec().is_ok() ==> initial_net_spec().connected(),
{
}

/// The net of a program that is translated without error is connected:
/// every transition takes a token from some place and puts one on some place.
pub proof fn lemma_translation_is_connected(program: Program)
    requires
        translate_spec(program).is_ok(),
    ensures
        translate_spec(program).connected(),
        translate_spec(program).extends(initial_net_spec()),
{
    lemma_initial_net_is_connected();
    if program.entry < program.functions@.len() {
        lemma_translate_function_advances(
            program,
            TranslatorModel {
                net: initial_net_spec(),
                managers: SyncModel::empty(),
                counters: crate::translator::CountersModel::zero(),
            },
            program.entry,
            program.functions@[program.entry as int].name@,
            PROGRAM_START@,
            PROGRAM_END@,
            PROGRAM_PANIC@,
            MemoryModel::new(
                match program.functions@[program.entry as int].body {
                    Some(body) => body.local_count as nat,
                    None => 0,
                },
            ),
            crate::translator::MAX_CALL_DEPTH as nat,
        );
    }
}

} // verus!
