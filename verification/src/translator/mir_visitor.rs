//! The walk over the basic blocks of a function.
//!
//! Every element of the control flow that matters has a method that visits
//! it: a basic block, a statement, an assignment and a terminator.

use crate::error_handling::{TranslationError, UnsupportedConstruct};
use crate::program::{BasicBlockData, Operand, Place, Program, Rvalue, Statement, TerminatorKind};
use crate::translator::mir_function::memory::{Memory, MemoryModel};
use crate::translator::mir_function::MirFunction;
use crate::translator::sync::{handle_aggregate_assignment, link_if_sync_variable};
use crate::translator::{
    visit_assign_spec, visit_basic_block_data_spec, visit_statement_spec, visit_statements_spec,
    visit_terminator_spec, walk_matches, Translator,
};
use vstd::prelude::*;

verus! {

impl Translator {
    /// Entering a new basic block of the current function.
    /// Activates it, visits its statements and then its terminator.
    pub fn visit_basic_block_data(
        &mut self,
        program: &Program,
        function: &mut MirFunction,
        block: usize,
        data: &BasicBlockData,
        depth: usize,
    ) -> (done: Result<(), TranslationError>)
        requires
            old(self).wf(),
            old(function).wf(old(self).net),
        ensures
            final(self).wf(),
            final(self).net.extends(old(self).net),
            final(function).wf(final(self).net),
            walk_matches(
                done,
                *final(self),
                *final(function),
                visit_basic_block_data_spec(
                    *program,
                    old(self).walk(*old(function)),
                    block as nat,
                    *data,
                    depth as nat,
                ),
            ),
        decreases depth, 1nat, 1nat,
    {
        function.activate_block(block, &mut self.net)?;
        let ghost activated = self.walk(*function);
        proof {
            self.net.lemma_view();
        }
        Self::visit_statements(&data.statements, &mut function.memory)?;
        proof {
            assert(function@.blocks =~= activated.function.blocks);
            assert(self.walk(*function) == (crate::translator::WalkModel {
                function: crate::translator::mir_function::MirFunctionModel {
                    memory: function.memory@,
                    ..activated.function
                },
                ..activated
            }));
        }
        self.visit_terminator(program, function, &data.terminator, depth)
    }

    /// Visits the statements of a block in their order.
    pub fn visit_statements(statements: &Vec<Statement>, memory: &mut Memory) -> (done: Result<
        (),
        TranslationError,
    >)
        ensures
            done is Ok ==> visit_statements_spec(old(memory)@, statements@, 0) == Ok::<
                MemoryModel,
                TranslationError,
            >(final(memory)@),
            done is Err ==> visit_statements_spec(old(memory)@, statements@, 0) == Err::<
                MemoryModel,
                TranslationError,
            >(done->Err_0),
    {
        let mut i: usize = 0;
        while i < statements.len()
            invariant
                i <= statements@.len(),
                visit_statements_spec(old(memory)@, statements@, 0) == visit_statements_spec(
                    memory@,
                    statements@,
                    i as nat,
                ),
            decreases statements@.len() - i,
        {
            Self::visit_statement(&statements[i], memory)?;
            i = i + 1;
        }
        Ok(())
    }

    /// Visits an assignment: the place on the left denotes from now on what
    /// the right-hand side denotes, if that is a sync variable.
    pub fn visit_assign(place: &Place, rvalue: &Rvalue, memory: &mut Memory) -> (done: Result<
        (),
        TranslationError,
    >)
        ensures
            done is Ok ==> visit_assign_spec(old(memory)@, *place, *rvalue) == Ok::<
                MemoryModel,
                TranslationError,
            >(final(memory)@),
            done is Err ==> visit_assign_spec(old(memory)@, *place, *rvalue) == Err::<
                MemoryModel,
                TranslationError,
            >(done->Err_0),
            done is Err ==> final(memory)@ == old(memory)@,
    {
        match rvalue {
            Rvalue::Use(Operand::Copy(rhs)) => link_if_sync_variable(place, rhs, memory),
            Rvalue::Use(Operand::Move(rhs)) => link_if_sync_variable(place, rhs, memory),
            Rvalue::Use(Operand::Constant(_)) => Ok(()),
            Rvalue::Ref(rhs) => link_if_sync_variable(place, rhs, memory),
            Rvalue::Aggregate(operands) => handle_aggregate_assignment(place, operands, memory),
            Rvalue::Other => Ok(()),
        }
    }

    /// Visits a statement. Only assignments matter to the translation.
    pub fn visit_statement(statement: &Statement, memory: &mut Memory) -> (done: Result<
        (),
        TranslationError,
    >)
        ensures
            done is Ok ==> visit_statement_spec(old(memory)@, *statement) == Ok::<
                MemoryModel,
                TranslationError,
            >(final(memory)@),
            done is Err ==> visit_statement_spec(old(memory)@, *statement) == Err::<
                MemoryModel,
                TranslationError,
            >(done->Err_0),
            done is Err ==> final(memory)@ == old(memory)@,
    {
        match statement {
            Statement::Assign(place, rvalue) => Self::visit_assign(place, rvalue, memory),
            Statement::Other => Ok(()),
        }
    }

    /// Visits the terminator of the active block and extends the net by
    /// the transitions that lead out of the block.
    ///
    /// A terminator that is translated without defect lets the net grow
    /// only. It leaves no transition without an arc from a place and an arc
    /// to a place, if there was none before. Where the function is
    /// translated between places that are not guarded, it keeps the net
    /// balanced for the places of every mutex. It keeps every join attached
    /// to the end place of its thread.
    pub fn visit_terminator(
        &mut self,
        program: &Program,
        function: &mut MirFunction,
        terminator: &TerminatorKind,
        depth: usize,
    ) -> (done: Result<(), TranslationError>)
        requires
            old(self).wf(),
            old(function).wf(old(self).net),
            old(function).is_active(),
        ensures
            final(self).wf(),
            final(self).net.extends(old(self).net),
            final(function).wf(final(self).net),
            walk_matches(
                done,
                *final(self),
                *final(function),
                visit_terminator_spec(
                    *program,
                    old(self).walk(*old(function)),
                    *terminator,
                    depth as nat,
                ),
            ),
            done is Ok ==> final(self)@.net.advances(old(self)@.net),
            done is Ok && old(function)@.has_unguarded_places() ==> final(self)@.net.keeps_guards(
                old(self)@.net,
            ) && final(function)@.has_unguarded_places(),
            done is Ok ==> final(self)@.keeps_joins(old(self)@),
        decreases depth, 1nat, 0nat,
    {
        proof {
            self.net.lemma_view();
        }
        let done = match terminator {
            TerminatorKind::Goto { target } => function.goto(*target, &mut self.net),
            TerminatorKind::SwitchInt { targets } => function.switch_int(targets, &mut self.net),
            TerminatorKind::Resume => function.unwind(&mut self.net),
            TerminatorKind::Abort => function.unwind(&mut self.net),
            TerminatorKind::Return => function.return_statement(&mut self.net),
            TerminatorKind::Unreachable => function.unreachable(&self.program_end, &mut self.net),
            TerminatorKind::Drop { place, target, unwind } => {
                let transition_drop = function.drop_value(*target, *unwind, &mut self.net)?;
                self.managers.mutex_manager.handle_lock_guard_drop(
                    place,
                    &transition_drop,
                    &function.memory,
                    &mut self.net,
                )
            },
            TerminatorKind::DropAndReplace => Err(
                TranslationError::Unsupported(UnsupportedConstruct::DropAndReplace),
            ),
            TerminatorKind::Call { func, args, destination, target, cleanup } => {
                self.call_function(program, function, func, args, destination, *target, *cleanup, depth)
            },
            TerminatorKind::Assert { target, cleanup } => function.assert_condition(
                *target,
                *cleanup,
                &mut self.net,
            ),
            TerminatorKind::Yield => Err(TranslationError::Unsupported(UnsupportedConstruct::Yield)),
            TerminatorKind::GeneratorDrop => Err(
                TranslationError::Unsupported(UnsupportedConstruct::GeneratorDrop),
            ),
            TerminatorKind::FalseEdge => Err(
                TranslationError::Unsupported(UnsupportedConstruct::FalseEdge),
            ),
            TerminatorKind::FalseUnwind => Err(
                TranslationError::Unsupported(UnsupportedConstruct::FalseUnwind),
            ),
            TerminatorKind::InlineAsm => Err(
                TranslationError::Unsupported(UnsupportedConstruct::InlineAsm),
            ),
        };
        proof {
            let before = old(self).walk(*old(function));
            crate::translator::invariants::lemma_visit_terminator_advances(
                *program,
                before,
                *terminator,
                depth as nat,
            );
            crate::translator::joins::lemma_visit_terminator_keeps_joins(
                *program,
                before,
                *terminator,
                depth as nat,
            );
            if before.function.has_unguarded_places() {
                crate::translator::guards::lemma_visit_terminator_keeps_guards(
                    *program,
                    before,
                    *terminator,
                    depth as nat,
                );
            }
        }
        done
    }
}

} // verus!
