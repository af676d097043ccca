//! The translation of the body of a function.

use crate::error_handling::{InternalDefect, TranslationError};
use crate::petri_net_interface::{outcome_matches, place_label, Net};
use crate::program::Program;
use crate::translator::mir_function::memory::Memory;
use crate::translator::mir_function::MirFunction;
use crate::translator::{translate_function_spec, visit_blocks_spec, Translator};
use netcrab::petri_net::PlaceRef;
use vstd::prelude::*;

verus! {

impl Translator {
    /// Translates the body of a function between the given places: the
    /// function starts at `start_place`, returns to `end_place` and unwinds
    /// to `unwind_place`. Returns the memory of the function at its end.
    #[verifier::loop_isolation(false)]
    pub fn translate_function(
        &mut self,
        program: &Program,
        def_id: usize,
        name: String,
        start_place: PlaceRef,
        end_place: PlaceRef,
        unwind_place: PlaceRef,
        memory: Memory,
        depth: usize,
    ) -> (returned: Result<Memory, TranslationError>)
        requires
            old(self).wf(),
            old(self).net.has_place(start_place),
            old(self).net.has_place(end_place),
            old(self).net.has_place(unwind_place),
        ensures
            final(self).wf(),
            final(self).net.extends(old(self).net),
            outcome_matches(
                returned,
                final(self).net,
                translate_function_spec(
                    *program,
                    old(self)@,
                    def_id,
                    name@,
                    place_label(start_place),
                    place_label(end_place),
                    place_label(unwind_place),
                    memory@,
                    depth as nat,
                ).0.net,
            ),
            returned is Ok ==> final(self)@ == translate_function_spec(
                *program,
                old(self)@,
                def_id,
                name@,
                place_label(start_place),
                place_label(end_place),
                place_label(unwind_place),
                memory@,
                depth as nat,
            ).0,
            returned is Ok ==> returned->Ok_0@ == translate_function_spec(
                *program,
                old(self)@,
                def_id,
                name@,
                place_label(start_place),
                place_label(end_place),
                place_label(unwind_place),
                memory@,
                depth as nat,
            ).1,
        decreases depth, 3nat, 0nat,
    {
        proof {
            self.net.lemma_view();
        }
        if def_id >= program.functions.len() {
            return Err(TranslationError::Internal(InternalDefect::OutOfRange));
        }
        let body = match &program.functions[def_id].body {
            Some(body) => body,
            None => {
                return Err(TranslationError::Internal(InternalDefect::OutOfRange));
            },
        };
        let ghost whole = translate_function_spec(
            *program,
            self@,
            def_id,
            name@,
            place_label(start_place),
            place_label(end_place),
            place_label(unwind_place),
            memory@,
            depth as nat,
        );
        let mut function = MirFunction::new(
            def_id,
            name,
            start_place,
            end_place,
            unwind_place,
            body.basic_blocks.len(),
            memory,
        );
        let ghost start = self.walk(function);
        let ghost expected = visit_blocks_spec(
            *program,
            start,
            body.basic_blocks@,
            0,
            depth as nat,
        );
        let mut block: usize = 0;
        while block < body.basic_blocks.len()
            invariant
                block <= body.basic_blocks@.len(),
                expected == visit_blocks_spec(*program, start, body.basic_blocks@, 0, depth as nat),
                whole == (expected.translator, expected.function.memory),
                self.wf(),
                function.wf(self.net),
                self.net.extends(old(self).net),
                visit_blocks_spec(*program, start, body.basic_blocks@, 0, depth as nat)
                    == visit_blocks_spec(
                    *program,
                    self.walk(function),
                    body.basic_blocks@,
                    block as nat,
                    depth as nat,
                ),
            decreases depth, 2nat, body.basic_blocks@.len() - block,
        {
            proof {
                self.net.lemma_view();
            }
            let ghost before = self.walk(function);
            match self.visit_basic_block_data(
                program,
                &mut function,
                block,
                &body.basic_blocks[block],
                depth,
            ) {
                Ok(()) => {},
                Err(e) => {
                    proof {
                        let failed = crate::translator::visit_basic_block_data_spec(
                            *program,
                            before,
                            block as nat,
                            body.basic_blocks@[block as int],
                            depth as nat,
                        );
                        assert(visit_blocks_spec(
                            *program,
                            failed,
                            body.basic_blocks@,
                            (block + 1) as nat,
                            depth as nat,
                        ) == failed);
                    }
                    return Err(e);
                },
            }
            block = block + 1;
        }
        proof {
            self.net.lemma_view();
        }
        Ok(function.memory)
    }
}

} // verus!
