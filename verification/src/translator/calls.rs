//! The translation of calls.

use crate::error_handling::{InternalDefect, TranslationError, UnsupportedConstruct};
use crate::naming::function::{call_name, foreign_call_transition_labels};
use crate::petri_net_interface::{outcome_matches, place_label, Net};
use crate::program::{Operand, Place, Program};
use crate::translator::function_call::{FunctionPlaces, PostprocessingTask};
use crate::translator::mir_function::memory::Value;
use crate::translator::mir_function::MirFunction;
use crate::translator::special_function::{call_foreign_function, is_panic_function};
use crate::translator::sync::{is_supported_function, ThreadRef};
use crate::translator::{
    call_at_site_spec, call_body_spec, call_spec, call_sync_spec, linking_function, spawn_thread_spec,
    translate_function_spec, walk_matches, Translator,
};
use crate::utils::extract_def_id_of_called_function_from_operand;
use vstd::prelude::*;
use vstd::string::*;

verus! {

impl Translator {
    /// Translates a call. The called function decides how: see `call_spec`.
    pub fn call_function(
        &mut self,
        program: &Program,
        function: &mut MirFunction,
        func: &Operand,
        args: &Vec<Operand>,
        destination: &Place,
        target: Option<usize>,
        cleanup: Option<usize>,
        depth: usize,
    ) -> (done: Result<(), TranslationError>)
        requires
            old(self).wf(),
            old(function).wf(old(self).net),
            old(function).is_active(),
        ensures
            final(self).wf(),
            final(self).net.extends(old(self).net),
            final(function).wf(final(self).net),
            walk_matches(
                done,
                *final(self),
                *final(function),
                call_spec(
                    *program,
                    old(self).walk(*old(function)),
                    *func,
                    args@,
                    *destination,
                    target,
                    cleanup,
                    depth as nat,
                ),
            ),
        decreases depth, 0nat, 3nat,
    {
        proof {
            self.net.lemma_view();
        }
        let def_id = extract_def_id_of_called_function_from_operand(func)?;
        if def_id >= program.functions.len() {
            return Err(TranslationError::Internal(InternalDefect::OutOfRange));
        }
        let callee = &program.functions[def_id];
        if is_panic_function(callee.name.as_str()) {
            return self.call_panic(function, callee.name.as_str());
        }
        let target = match target {
            Some(target) => target,
            None => {
                return self.call_diverging(function, callee.name.as_str());
            },
        };
        let places = function.function_call_places(target, cleanup, &mut self.net)?;
        self.call_at_site(program, function, def_id, args, destination, &places, depth)
    }

    /// Translates a call whose places are in the net.
    pub(crate) fn call_at_site(
        &mut self,
        program: &Program,
        function: &mut MirFunction,
        def_id: usize,
        args: &Vec<Operand>,
        destination: &Place,
        places: &FunctionPlaces,
        depth: usize,
    ) -> (done: Result<(), TranslationError>)
        requires
            old(self).wf(),
            old(function).wf(old(self).net),
            old(function).is_active(),
            places.wf(old(self).net),
            def_id < program.functions@.len(),
        ensures
            final(self).wf(),
            final(self).net.extends(old(self).net),
            final(function).wf(final(self).net),
            walk_matches(
                done,
                *final(self),
                *final(function),
                call_at_site_spec(
                    *program,
                    old(self).walk(*old(function)),
                    def_id,
                    args@,
                    *destination,
                    places@,
                    depth as nat,
                ),
            ),
        decreases depth, 0nat, 2nat,
    {
        proof {
            self.net.lemma_view();
        }
        let callee = &program.functions[def_id];
        if is_supported_function(callee.name.as_str()) {
            self.call_sync(program, function, callee.name.as_str(), args, destination, places, depth)
        } else {
            match linking_function(callee.name.as_str()) {
                Some(kind) => self.call_linking(function, kind, args, destination, places),
                None => {
                    if callee.body.is_some() {
                        self.call_body(program, function, def_id, args, destination, places, depth)
                    } else {
                        self.call_foreign(
                            function,
                            callee.name.as_str(),
                            args,
                            destination,
                            places,
                        )
                    }
                },
            }
        }
    }

    /// Translates a call to a supported function on a sync variable and
    /// then does what the call leaves to be done.
    pub(crate) fn call_sync(
        &mut self,
        program: &Program,
        function: &mut MirFunction,
        function_name: &str,
        args: &Vec<Operand>,
        destination: &Place,
        places: &FunctionPlaces,
        depth: usize,
    ) -> (done: Result<(), TranslationError>)
        requires
            old(self).wf(),
            old(function).wf(old(self).net),
            old(function).is_active(),
            places.wf(old(self).net),
        ensures
            final(self).wf(),
            final(self).net.extends(old(self).net),
            final(function).wf(final(self).net),
            walk_matches(
                done,
                *final(self),
                *final(function),
                call_sync_spec(
                    *program,
                    old(self).walk(*old(function)),
                    function_name@,
                    args@,
                    *destination,
                    places@,
                    depth as nat,
                ),
            ),
        decreases depth, 0nat, 1nat,
    {
        let task = crate::translator::sync::call_function(
            function_name,
            args,
            destination,
            places,
            &mut self.net,
            &mut function.memory,
            &mut self.managers,
        )?;
        proof {
            self.net.lemma_view();
        }
        match task {
            Some(PostprocessingTask::NewThread { thread, function: thread_function, environment }) => {
                self.spawn_thread(program, function, thread, thread_function, environment, depth)
            },
            Some(task) => {
                let left = crate::translator::sync::resolve_task(
                    task,
                    args,
                    destination,
                    &mut self.net,
                    &mut function.memory,
                    &mut self.managers,
                );
                proof {
                    self.net.lemma_view();
                    assert(function@.blocks =~= old(function)@.blocks);
                }
                match left {
                    Ok(_) => Ok(()),
                    Err(e) => Err(e),
                }
            },
            None => {
                proof {
                    self.net.lemma_view();
                    assert(function@.blocks =~= old(function)@.blocks);
                }
                Ok(())
            },
        }
    }

    /// Translates the function of a spawned thread between the start place
    /// and the end place of the thread.
    pub(crate) fn spawn_thread(
        &mut self,
        program: &Program,
        function: &MirFunction,
        thread: ThreadRef,
        thread_function: usize,
        environment: Value,
        depth: usize,
    ) -> (done: Result<(), TranslationError>)
        requires
            old(self).wf(),
            function.wf(old(self).net),
        ensures
            final(self).wf(),
            final(self).net.extends(old(self).net),
            walk_matches(
                done,
                *final(self),
                *function,
                spawn_thread_spec(
                    *program,
                    old(self).walk(*function),
                    thread,
                    thread_function,
                    environment,
                    depth as nat,
                ),
            ),
        decreases depth, 0nat, 0nat,
    {
        proof {
            self.net.lemma_view();
        }
        let (start_place, end_place) = match self.managers.thread_manager.get_thread_from_ref(
            thread,
        ) {
            Ok(found) => (found.start_place.clone(), found.end_place.clone()),
            Err(e) => {
                return Err(e);
            },
        };
        if thread_function >= program.functions.len() {
            return Err(TranslationError::Internal(InternalDefect::OutOfRange));
        }
        let callee = &program.functions[thread_function];
        let index = self.next_call()?;
        let name = call_name(callee.name.as_str(), index);
        match &callee.body {
            None => {
                let places = FunctionPlaces { start_place, end_place, cleanup_place: None };
                let labels = foreign_call_transition_labels(name.as_str());
                call_foreign_function(&places, &labels, &mut self.net)?;
                Ok(())
            },
            Some(body) => {
                if depth == 0 {
                    return Err(TranslationError::Unsupported(UnsupportedConstruct::CallDepth));
                }
                let mut arguments: Vec<Value> = Vec::new();
                arguments.push(environment);
                assert(arguments@ =~= seq![environment]);
                let memory = function.memory.enter(body.local_count, &arguments);
                let unwind_place = self.program_panic.clone();
                self.translate_function(
                    program,
                    thread_function,
                    name,
                    start_place,
                    end_place,
                    unwind_place,
                    memory,
                    depth - 1,
                )?;
                Ok(())
            },
        }
    }

    /// Translates a call to a function with a body by translating the body
    /// between the places of the call site.
    pub(crate) fn call_body(
        &mut self,
        program: &Program,
        function: &mut MirFunction,
        def_id: usize,
        args: &Vec<Operand>,
        destination: &Place,
        places: &FunctionPlaces,
        depth: usize,
    ) -> (done: Result<(), TranslationError>)
        requires
            old(self).wf(),
            old(function).wf(old(self).net),
            places.wf(old(self).net),
        ensures
            final(self).wf(),
            final(self).net.extends(old(self).net),
            final(function).wf(final(self).net),
            walk_matches(
                done,
                *final(self),
                *final(function),
                call_body_spec(
                    *program,
                    old(self).walk(*old(function)),
                    def_id,
                    args@,
                    *destination,
                    places@,
                    depth as nat,
                ),
            ),
        decreases depth, 0nat, 0nat,
    {
        proof {
            self.net.lemma_view();
        }
        if def_id >= program.functions.len() {
            return Err(TranslationError::Internal(InternalDefect::OutOfRange));
        }
        let callee = &program.functions[def_id];
        let body = match &callee.body {
            Some(body) => body,
            None => {
                return Err(TranslationError::Internal(InternalDefect::OutOfRange));
            },
        };
        if depth == 0 {
            return Err(TranslationError::Unsupported(UnsupportedConstruct::CallDepth));
        }
        let index = self.next_call()?;
        let name = call_name(callee.name.as_str(), index);
        let unwind_place = match &places.cleanup_place {
            Some(cleanup_place) => cleanup_place.clone(),
            None => function.unwind_place.clone(),
        };
        let arguments = function.memory.argument_values(args);
        let memory = function.memory.enter(body.local_count, &arguments);
        let returned = self.translate_function(
            program,
            def_id,
            name,
            places.start_place.clone(),
            places.end_place.clone(),
            unwind_place,
            memory,
            depth - 1,
        )?;
        proof {
            self.net.lemma_view();
        }
        function.memory.leave(returned, destination.local)
    }
}

} // verus!
