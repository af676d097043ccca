//! The translation attaches every join to the thread that it joins.
//!
//! Once a call to `join` was translated, the transition of the call takes
//! a token from the end place of the thread whose join handle the call was
//! given, and it keeps doing so for the rest of the translation.

use crate::naming::program::{PROGRAM_END, PROGRAM_PANIC, PROGRAM_START};
use crate::naming::thread::end_place_label_spec;
use crate::net_model::{Label, NetModel};
use crate::program::{BasicBlockData, Operand, Place, Program, TerminatorKind};
use crate::semantics::Marking;
use crate::translator::function_call::{FunctionPlacesModel, PostprocessingTaskModel};
use crate::translator::invariants::{
    lemma_call_advances, lemma_call_at_site_advances, lemma_call_body_advances,
    lemma_call_sync_advances, lemma_spawn_thread_advances, lemma_sync_call_advances,
    lemma_translate_function_advances, lemma_visit_basic_block_data_advances,
    lemma_visit_blocks_advances, lemma_visit_terminator_advances,
};
use crate::translator::mir_function::memory::{MemoryModel, Value};
use crate::translator::mir_function::MirFunctionModel;
use crate::translator::sync::thread_manager::ThreadManagerModel;
use crate::translator::sync::{SyncModel, ThreadRef};
use crate::translator::{
    call_at_site_spec, call_body_spec, call_spec, call_sync_spec, initial_net_spec,
    spawn_thread_spec, translate_function_spec, translation_spec, visit_basic_block_data_spec,
    visit_blocks_spec, visit_terminator_spec, TranslatorModel, WalkModel,
};
use vstd::prelude::*;

verus! {

impl TranslatorModel {
    /// Whether the transition that joins a thread takes a token from the
    /// end place of that thread, for every thread that is joined.
    pub open spec fn joins_are_attached(self) -> bool {
        forall|i: int|
            0 <= i < self.managers.threads.join_transitions.len() && (
            #[trigger] self.managers.threads.join_transitions[i]) is Some
                ==> self.net.inputs.contains(
                (end_place_label_spec(i as nat), self.managers.threads.join_transitions[i]->Some_0),
            )
    }

    /// Whether the joins are attached in this state if they were in `before`
    /// and the net was built without defect.
    pub open spec fn keeps_joins(self, before: TranslatorModel) -> bool {
        self.net.is_ok() && before.joins_are_attached() ==> self.joins_are_attached()
    }
}

/// The call of a supported function on a sync variable keeps the joins
/// attached, and a call to `join` attaches one more.
pub proof fn lemma_sync_call_keeps_joins(
    translator: TranslatorModel,
    function_name: Seq<char>,
    args: Seq<Operand>,
    destination: Place,
    places: FunctionPlacesModel,
    memory: MemoryModel,
)
    ensures
        ({
            let called = crate::translator::sync::translated_call_spec(
                function_name,
                args,
                destination,
                places,
                translator.net,
                memory,
                translator.managers,
            );
            (TranslatorModel { net: called.net, managers: called.managers, ..translator })
        }).keeps_joins(translator),
{
    lemma_sync_call_advances(
        function_name,
        args,
        destination,
        places,
        translator.net,
        memory,
        translator.managers,
    );
}

/// A terminator keeps the joins attached.
pub proof fn lemma_visit_terminator_keeps_joins(
    program: Program,
    state: WalkModel,
    terminator: TerminatorKind,
    depth: nat,
)
    ensures
        visit_terminator_spec(program, state, terminator, depth).translator.keeps_joins(
            state.translator,
        ),
    decreases depth, 1nat, 0nat,
{
    lemma_visit_terminator_advances(program, state, terminator, depth);
    match terminator {
        TerminatorKind::Call { func, args, destination, target, cleanup } => {
            lemma_call_keeps_joins(program, state, func, args@, destination, target, cleanup, depth);
        },
        _ => {},
    }
}

/// A call keeps the joins attached.
pub proof fn lemma_call_keeps_joins(
    program: Program,
    state: WalkModel,
    func: Operand,
    args: Seq<Operand>,
    destination: Place,
    target: Option<usize>,
    cleanup: Option<usize>,
    depth: nat,
)
    ensures
        call_spec(
            program,
            state,
            func,
            args,
            destination,
            target,
            cleanup,
            depth,
        ).translator.keeps_joins(state.translator),
    decreases depth, 0nat, 3nat,
{
    lemma_call_advances(program, state, func, args, destination, target, cleanup, depth);
    if target is Some && crate::utils::called_function_spec(func) is Ok {
        let at_site = state.with(
            state.function.function_call_places(state.net(), target->Some_0 as nat, cleanup),
        );
        let places = state.function.call_site(target->Some_0 as nat, cleanup);
        state.function.lemma_function_call_places_advances(
            state.net(),
            target->Some_0 as nat,
            cleanup,
        );
        lemma_call_at_site_advances(
            program,
            at_site,
            crate::utils::called_function_spec(func)->Ok_0,
            args,
            destination,
            places,
            depth,
        );
        lemma_call_at_site_keeps_joins(
            program,
            at_site,
            crate::utils::called_function_spec(func)->Ok_0,
            args,
            destination,
            places,
            depth,
        );
    }
}

/// A call whose places are in the net keeps the joins attached.
pub proof fn lemma_call_at_site_keeps_joins(
    program: Program,
    state: WalkModel,
    def_id: usize,
    args: Seq<Operand>,
    destination: Place,
    places: FunctionPlacesModel,
    depth: nat,
)
    ensures
        call_at_site_spec(
            program,
            state,
            def_id,
            args,
            destination,
            places,
            depth,
        ).translator.keeps_joins(state.translator),
    decreases depth, 0nat, 2nat,
{
    lemma_call_at_site_advances(program, state, def_id, args, destination, places, depth);
    if def_id < program.functions@.len() {
        let callee = program.functions@[def_id as int];
        lemma_call_sync_keeps_joins(program, state, callee.name@, args, destination, places, depth);
        lemma_call_body_keeps_joins(program, state, def_id, args, destination, places, depth);
    }
}

/// A call to a supported function keeps the joins attached, and so does
/// the translation of the thread that it may spawn.
pub proof fn lemma_call_sync_keeps_joins(
    program: Program,
    state: WalkModel,
    function_name: Seq<char>,
    args: Seq<Operand>,
    destination: Place,
    places: FunctionPlacesModel,
    depth: nat,
)
    ensures
        call_sync_spec(
            program,
            state,
            function_name,
            args,
            destination,
            places,
            depth,
        ).translator.keeps_joins(state.translator),
    decreases depth, 0nat, 1nat,
{
    crate::translator::sync::lemma_call_and_resolve(
        function_name,
        args,
        destination,
        places,
        state.net(),
        state.function.memory,
        state.translator.managers,
    );
    lemma_call_sync_advances(program, state, function_name, args, destination, places, depth);
    lemma_sync_call_keeps_joins(
        state.translator,
        function_name,
        args,
        destination,
        places,
        state.function.memory,
    );
    let called = crate::translator::sync::translated_call_spec(
        function_name,
        args,
        destination,
        places,
        state.net(),
        state.function.memory,
        state.translator.managers,
    );
    let after = WalkModel {
        translator: TranslatorModel {
            net: called.net,
            managers: called.managers,
            ..state.translator
        },
        function: MirFunctionModel { memory: called.memory, ..state.function },
    };
    match called.task {
        Some(PostprocessingTaskModel::NewThread { thread, function, environment }) => {
            lemma_spawn_thread_advances(program, after, thread, function, environment, depth);
            lemma_spawn_thread_keeps_joins(program, after, thread, function, environment, depth);
        },
        _ => {},
    }
}

/// The translation of the function of a thread keeps the joins attached.
pub proof fn lemma_spawn_thread_keeps_joins(
    program: Program,
    state: WalkModel,
    thread: ThreadRef,
    function: usize,
    environment: Value,
    depth: nat,
)
    ensures
        spawn_thread_spec(
            program,
            state,
            thread,
            function,
            environment,
            depth,
        ).translator.keeps_joins(state.translator),
    decreases depth, 0nat, 0nat,
{
    lemma_spawn_thread_advances(program, state, thread, function, environment, depth);
    let counters = state.translator.counters;
    if function < program.functions@.len() && depth > 0 {
        let callee = program.functions@[function as int];
        let places = crate::translator::sync::thread::ThreadModel::of_index(thread.0 as nat, None);
        if callee.body is Some {
            lemma_translate_function_keeps_joins(
                program,
                TranslatorModel { counters: counters.count_call(), ..state.translator },
                function,
                crate::naming::function::call_name_spec(callee.name@, counters.call_counter),
                places.start,
                places.end,
                PROGRAM_PANIC@,
                state.function.memory.enter(
                    callee.body->Some_0.local_count as nat,
                    seq![environment],
                ),
                (depth - 1) as nat,
            );
        }
    }
}

/// The translation of the body of a called function keeps the joins attached.
pub proof fn lemma_call_body_keeps_joins(
    program: Program,
    state: WalkModel,
    def_id: usize,
    args: Seq<Operand>,
    destination: Place,
    places: FunctionPlacesModel,
    depth: nat,
)
    ensures
        call_body_spec(
            program,
            state,
            def_id,
            args,
            destination,
            places,
            depth,
        ).translator.keeps_joins(state.translator),
    decreases depth, 0nat, 0nat,
{
    lemma_call_body_advances(program, state, def_id, args, destination, places, depth);
    let counters = state.translator.counters;
    if def_id < program.functions@.len() && program.functions@[def_id as int].body is Some
        && depth > 0 {
        let callee = program.functions@[def_id as int];
        lemma_translate_function_keeps_joins(
            program,
            TranslatorModel { counters: counters.count_call(), ..state.translator },
            def_id,
            crate::naming::function::call_name_spec(callee.name@, counters.call_counter),
            places.start,
            places.end,
            match places.cleanup {
                Some(cleanup) => cleanup,
                None => state.function.unwind,
            },
            state.function.memory.enter(
                callee.body->Some_0.local_count as nat,
                state.function.memory.argument_values(args),
            ),
            (depth - 1) as nat,
        );
    }
}

/// The translation of the body of a function keeps the joins attached.
pub proof fn lemma_translate_function_keeps_joins(
    program: Program,
    translator: TranslatorModel,
    def_id: usize,
    name: Seq<char>,
    start: Label,
    end: Label,
    unwind: Label,
    memory: MemoryModel,
    depth: nat,
)
    ensures
        translate_function_spec(
            program,
            translator,
            def_id,
            name,
            start,
            end,
            unwind,
            memory,
            depth,
        ).0.keeps_joins(translator),
    decreases depth, 3nat, 0nat,
{
    if def_id < program.functions@.len() && program.functions@[def_id as int].body is Some {
        let body = program.functions@[def_id as int].body->Some_0;
        let function = MirFunctionModel::new(
            name,
            start,
            end,
            unwind,
            body.basic_blocks@.len(),
            memory,
        );
        lemma_visit_blocks_keeps_joins(
            program,
            WalkModel { translator, function },
            body.basic_blocks@,
            0,
            depth,
        );
    }
}

/// The translation of basic blocks in a row keeps the joins attached.
pub proof fn lemma_visit_blocks_keeps_joins(
    program: Program,
    state: WalkModel,
    blocks: Seq<BasicBlockData>,
    from: nat,
    depth: nat,
)
    ensures
        visit_blocks_spec(program, state, blocks, from, depth).translator.keeps_joins(
            state.translator,
        ),
    decreases depth, 2nat, blocks.len() - from,
{
    if !(state.net().error is Some || from >= blocks.len()) {
        let next = visit_basic_block_data_spec(program, state, from, blocks[from as int], depth);
        lemma_visit_basic_block_data_advances(program, state, from, blocks[from as int], depth);
        lemma_visit_basic_block_data_keeps_joins(program, state, from, blocks[from as int], depth);
        lemma_visit_blocks_advances(program, next, blocks, from + 1, depth);
        lemma_visit_blocks_keeps_joins(program, next, blocks, from + 1, depth);
    }
}

/// The translation of a basic block keeps the joins attached.
pub proof fn lemma_visit_basic_block_data_keeps_joins(
    program: Program,
    state: WalkModel,
    block: nat,
    data: BasicBlockData,
    depth: nat,
)
    ensures
        visit_basic_block_data_spec(program, state, block, data, depth).translator.keeps_joins(
            state.translator,
        ),
    decreases depth, 1nat, 1nat,
{
    let activated = state.with(state.function.activate_block(state.net(), block));
    if activated.net().error is None {
        match crate::translator::visit_statements_spec(
            activated.function.memory,
            data.statements@,
            0,
        ) {
            Ok(memory) => {
                let visited = WalkModel {
                    function: MirFunctionModel { memory, ..activated.function },
                    ..activated
                };
                lemma_visit_terminator_advances(program, visited, data.terminator, depth);
                lemma_visit_terminator_keeps_joins(program, visited, data.terminator, depth);
            },
            Err(_) => {},
        }
    }
}

/// A call to `join` is attached to the thread that it joins and to no
/// other: the transition of the call takes a token from the end place of the
/// thread whose join handle the first argument denotes, and from the end
/// place of no other thread. So it is not enabled while that end place is
/// empty. The call leaves nothing to be done later.
pub proof fn lemma_join_call_attaches(
    args: Seq<Operand>,
    places: FunctionPlacesModel,
    net: NetModel,
    memory: MemoryModel,
    managers: SyncModel,
    marking: Marking,
)
    requires
        net.closed(),
        forall|j: nat| places.start != #[trigger] end_place_label_spec(j),
        crate::translator::sync::call_thread_join_spec(
            args,
            places,
            net,
            memory,
            managers,
        ).net.is_ok(),
    ensures
        ({
            let after = crate::translator::sync::call_thread_join_spec(
                args,
                places,
                net,
                memory,
                managers,
            );
            let thread = memory.linked_join_handle(
                crate::utils::nth_argument_spec(args, 0)->Some_0.local as int,
            )->Ok_0.0 as nat;
            let join = crate::naming::thread::join_transition_labels_spec(
                managers.threads.join_counter,
            ).0;
            &&& after.task is None
            &&& after.net.inputs.contains((end_place_label_spec(thread), join))
            &&& forall|j: nat|
                j != thread ==> !after.net.inputs.contains((#[trigger] end_place_label_spec(j), join))
            &&& after.net.enabled(marking, join) ==> marking.contains_key(
                end_place_label_spec(thread),
            ) && marking[end_place_label_spec(thread)] >= 1
        }),
{
    let after = crate::translator::sync::call_thread_join_spec(args, places, net, memory, managers);
    let thread = memory.linked_join_handle(
        crate::utils::nth_argument_spec(args, 0)->Some_0.local as int,
    )->Ok_0.0 as nat;
    let join = crate::naming::thread::join_transition_labels_spec(
        managers.threads.join_counter,
    ).0;
    assert forall|j: nat| j != thread implies !after.net.inputs.contains(
        (#[trigger] end_place_label_spec(j), join),
    ) by {
        crate::naming::kinds::lemma_thread_places_differ(j, thread);
    }
    if after.net.enabled(marking, join) {
        after.net.lemma_enabled_needs_token(marking, end_place_label_spec(thread), join);
    }
}

/// In the state after a translation without error every join is attached.
pub proof fn lemma_translation_attaches_joins(program: Program)
    requires
        translation_spec(program).net.is_ok(),
    ensures
        translation_spec(program).joins_are_attached(),
{
    if program.entry < program.functions@.len() {
        lemma_translate_function_keeps_joins(
            program,
            TranslatorModel {
                net: initial_net_spec(),
                managers: SyncModel::empty(),
                counters: crate::translator::CountersModel::zero(),
            },
            program.entry,
            program.functions@[program.entry as int].name@,
            PROGRAM_START@,
            PROGRAM_END@,
            PROGRAM_PANIC@,
            MemoryModel::new(
                match program.functions@[program.entry as int].body {
                    Some(body) => body.local_count as nat,
                    None => 0,
                },
            ),
            crate::translator::MAX_CALL_DEPTH as nat,
        );
    }
}

/// A thread is joined only after it has ended: in the net of a program
/// that is translated without error, the transition of a call to `join`
/// is not enabled unless the end place of the thread that it joins holds a token.
pub proof fn lemma_translated_join_waits_for_the_end(
    program: Program,
    thread: int,
    marking: Marking,
)
    requires
        translation_spec(program).net.is_ok(),
        0 <= thread < translation_spec(program).managers.threads.join_transitions.len(),
        translation_spec(program).managers.threads.join_transitions[thread] is Some,
        translation_spec(program).net.enabled(
            marking,
            translation_spec(program).managers.threads.join_transitions[thread]->Some_0,
        ),
    ensures
        marking.contains_key(end_place_label_spec(thread as nat)),
        marking[end_place_label_spec(thread as nat)] >= 1,
{
    let translated = translation_spec(program);
    lemma_translation_attaches_joins(program);
    assert(translated.joins_are_attached());
    translated.net.lemma_enabled_needs_token(
        marking,
        end_place_label_spec(thread as nat),
        translated.managers.threads.join_transitions[thread]->Some_0,
    );
}

} // verus!
