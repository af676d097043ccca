//! The state of one function call that is being translated.
//!
//! Every basic block of the function has one place in the net, which holds a
//! token while control is at the start of the block. The place of the first
//! block is the place where the call starts. The terminator of a block
//! becomes one or more transitions from the place of the block to the places
//! of the blocks that may follow.

pub mod memory;

use crate::error_handling::{InternalDefect, TranslationError};
use crate::naming::basic_block::{
    assert_transition_labels, assert_transition_labels_spec, block_place_label,
    block_place_label_spec, drop_transition_labels, drop_transition_labels_spec,
    goto_transition_label, goto_transition_label_spec, switch_int_transition_label,
    switch_int_transition_label_spec, unreachable_transition_label,
    unreachable_transition_label_spec, unwind_transition_label, unwind_transition_label_spec,
};
use crate::naming::function::{return_transition_label, return_transition_label_spec};
use crate::net_model::{Label, NetModel};
use crate::petri_net_interface::{outcome_matches, place_label, transition_label, Net};
use crate::translator::function_call::{FunctionPlaces, FunctionPlacesModel};
use crate::translator::mir_function::memory::{out_of_range, Memory, MemoryModel};
use netcrab::petri_net::{PlaceRef, TransitionRef};
use vstd::prelude::*;
use vstd::string::*;

verus! {

/// One function call that is being translated.
pub struct MirFunction {
    /// The index of the function in the program.
    pub def_id: usize,
    /// The name of the function in the labels of this call.
    pub name: String,
    /// The place where the call starts.
    pub start_place: PlaceRef,
    /// The place that the function returns to.
    pub end_place: PlaceRef,
    /// The place that the function unwinds to.
    pub unwind_place: PlaceRef,
    /// The place of each basic block, for the blocks that have one already.
    pub blocks: Vec<Option<PlaceRef>>,
    /// The block that is being translated.
    pub active_block: usize,
    /// The transition of the return, once the function has one.
    pub return_transition: Option<TransitionRef>,
    /// What the local variables denote.
    pub memory: Memory,
}

/// The mathematical model of a function call that is being translated.
pub struct MirFunctionModel {
    pub name: Seq<char>,
    pub start: Label,
    pub end: Label,
    pub unwind: Label,
    /// For each basic block, whether its place is in the net.
    pub blocks: Seq<bool>,
    pub active_block: nat,
    /// Whether the transition of the return is in the net.
    pub returned: bool,
    pub memory: MemoryModel,
}

impl MirFunctionModel {
    /// The state at the start of the translation of a call.
    pub open spec fn new(
        name: Seq<char>,
        start: Label,
        end: Label,
        unwind: Label,
        block_count: nat,
        memory: MemoryModel,
    ) -> MirFunctionModel {
        MirFunctionModel {
            name,
            start,
            end,
            unwind,
            blocks: Seq::new(block_count, |i: int| false),
            active_block: 0,
            returned: false,
            memory,
        }
    }

    /// The label of the place of a basic block.
    pub open spec fn block_label(self, block: nat) -> Label {
        if block == 0 {
            self.start
        } else {
            block_place_label_spec(self.name, block)
        }
    }

    /// The label of the place of the block that is being translated.
    pub open spec fn active_label(self) -> Label {
        self.block_label(self.active_block)
    }

    /// The state after the place of a block was asked for: the net has the
    /// place, added now unless it was there.
    pub open spec fn block_place(self, net: NetModel, block: nat) -> (NetModel, MirFunctionModel) {
        if block >= self.blocks.len() {
            (net.fail(out_of_range()), self)
        } else if self.blocks[block as int] || block == 0 {
            (net, MirFunctionModel { blocks: self.blocks.update(block as int, true), ..self })
        } else {
            (
                net.add_place(self.block_label(block)),
                MirFunctionModel { blocks: self.blocks.update(block as int, true), ..self },
            )
        }
    }

    /// The state after a block was activated.
    pub open spec fn activate_block(self, net: NetModel, block: nat) -> (
        NetModel,
        MirFunctionModel,
    ) {
        let placed = self.block_place(net, block);
        (placed.0, MirFunctionModel { active_block: block, ..placed.1 })
    }

    /// The state after a `Goto`: one transition from the active block to the target.
    pub open spec fn goto(self, net: NetModel, target: nat) -> (NetModel, MirFunctionModel) {
        let placed = self.block_place(net, target);
        (
            placed.0.add_step(
                self.active_label(),
                goto_transition_label_spec(self.name, self.active_block),
                self.block_label(target),
            ),
            placed.1,
        )
    }

    /// The state after one branch of a `SwitchInt`: a transition of its own
    /// from the active block to the target of the branch.
    pub open spec fn switch_branch(self, net: NetModel, target: nat, branch: nat) -> (
        NetModel,
        MirFunctionModel,
    ) {
        let placed = self.block_place(net, target);
        (
            placed.0.add_step(
                self.active_label(),
                switch_int_transition_label_spec(self.name, self.active_block, branch),
                self.block_label(target),
            ),
            placed.1,
        )
    }

    /// The state after a `SwitchInt`: one branch for each target, in their
    /// order. Which branch is taken is left open.
    pub open spec fn switch_int(self, net: NetModel, targets: Seq<usize>) -> (
        NetModel,
        MirFunctionModel,
    )
        decreases targets.len(),
    {
        if targets.len() == 0 {
            (net, self)
        } else {
            let before = self.switch_int(net, targets.drop_last());
            before.1.switch_branch(
                before.0,
                targets.last() as nat,
                (targets.len() - 1) as nat,
            )
        }
    }

    /// The net after a `Resume` or an `Abort`: a transition to the place that
    /// the function unwinds to.
    pub open spec fn unwind(self, net: NetModel) -> NetModel {
        net.add_step(
            self.active_label(),
            unwind_transition_label_spec(self.name, self.active_block),
            self.unwind,
        )
    }

    /// The state after a `Return`: the transition of the return, which leads
    /// to the place that the function returns to, takes the token of the
    /// active block. One transition serves every return of the call.
    pub open spec fn return_statement(self, net: NetModel) -> (NetModel, MirFunctionModel) {
        let label = return_transition_label_spec(self.name);
        let with_transition = if self.returned {
            net
        } else {
            net.add_transition(label).add_output(label, self.end)
        };
        (
            with_transition.add_input(self.active_label(), label),
            MirFunctionModel { returned: true, ..self },
        )
    }

    /// The net after an `Unreachable`: a transition to the end of the program.
    pub open spec fn unreachable(self, net: NetModel, program_end: Label) -> NetModel {
        net.add_step(
            self.active_label(),
            unreachable_transition_label_spec(self.name, self.active_block),
            program_end,
        )
    }

    /// The state after a terminator with a target and, maybe, a second block
    /// for the case of unwinding: one transition to the target and, if there
    /// is a second block, one to it.
    pub open spec fn two_way(
        self,
        net: NetModel,
        target: nat,
        unwind: Option<usize>,
        labels: (Label, Label),
    ) -> (NetModel, MirFunctionModel) {
        let placed = self.block_place(net, target);
        let stepped = placed.0.add_step(self.active_label(), labels.0, self.block_label(target));
        match unwind {
            Some(block) => {
                let cleanup = placed.1.block_place(stepped, block as nat);
                (
                    cleanup.0.add_step(
                        self.active_label(),
                        labels.1,
                        self.block_label(block as nat),
                    ),
                    cleanup.1,
                )
            },
            None => (stepped, placed.1),
        }
    }

    /// The state after a `Drop`.
    pub open spec fn drop_value(self, net: NetModel, target: nat, unwind: Option<usize>) -> (
        NetModel,
        MirFunctionModel,
    ) {
        self.two_way(
            net,
            target,
            unwind,
            drop_transition_labels_spec(self.name, self.active_block),
        )
    }

    /// The state after an `Assert`: the condition holds and control goes on
    /// at the target, or it fails and control goes on at the cleanup block.
    pub open spec fn assert_condition(self, net: NetModel, target: nat, cleanup: Option<usize>) -> (
        NetModel,
        MirFunctionModel,
    ) {
        self.two_way(
            net,
            target,
            cleanup,
            assert_transition_labels_spec(self.name, self.active_block),
        )
    }

    /// The state after the places of a call site were asked for.
    pub open spec fn function_call_places(
        self,
        net: NetModel,
        target: nat,
        cleanup: Option<usize>,
    ) -> (NetModel, MirFunctionModel) {
        let placed = self.block_place(net, target);
        match cleanup {
            Some(block) => placed.1.block_place(placed.0, block as nat),
            None => placed,
        }
    }

    /// The places of a call site.
    pub open spec fn call_site(self, target: nat, cleanup: Option<usize>) -> FunctionPlacesModel {
        FunctionPlacesModel {
            start: self.active_label(),
            end: self.block_label(target),
            cleanup: match cleanup {
                Some(block) => Some(self.block_label(block as nat)),
                None => None,
            },
        }
    }
}

impl View for MirFunction {
    type V = MirFunctionModel;

    open spec fn view(&self) -> MirFunctionModel {
        MirFunctionModel {
            name: self.name@,
            start: place_label(self.start_place),
            end: place_label(self.end_place),
            unwind: place_label(self.unwind_place),
            blocks: Seq::new(self.blocks@.len(), |i: int| self.blocks@[i] is Some),
            active_block: self.active_block as nat,
            returned: self.return_transition is Some,
            memory: self.memory@,
        }
    }
}

impl MirFunction {
    /// Whether the places and the transition that the call holds are in the
    /// net under the labels that the model gives them.
    pub open spec fn wf(&self, net: Net) -> bool {
        &&& net.has_place(self.start_place)
        &&& net.has_place(self.end_place)
        &&& net.has_place(self.unwind_place)
        &&& forall|i: int|
            0 <= i < self.blocks@.len() && (#[trigger] self.blocks@[i]) is Some ==> net.has_place(
                self.blocks@[i]->Some_0,
            ) && place_label(self.blocks@[i]->Some_0) == self@.block_label(i as nat)
        &&& self.return_transition is Some ==> net.has_transition(self.return_transition->Some_0)
            && transition_label(self.return_transition->Some_0) == return_transition_label_spec(
            self.name@,
        )
    }

    /// Whether the block that is being translated has its place.
    pub open spec fn is_active(&self) -> bool {
        self.active_block < self.blocks@.len() && self.blocks@[self.active_block as int] is Some
    }

    /// The state at the start of the translation of a call.
    pub fn new(
        def_id: usize,
        name: String,
        start_place: PlaceRef,
        end_place: PlaceRef,
        unwind_place: PlaceRef,
        block_count: usize,
        memory: Memory,
    ) -> (function: MirFunction)
        ensures
            function@ == MirFunctionModel::new(
                name@,
                place_label(start_place),
                place_label(end_place),
                place_label(unwind_place),
                block_count as nat,
                memory@,
            ),
            function.def_id == def_id,
            function.name == name,
            function.start_place == start_place,
            function.end_place == end_place,
            function.unwind_place == unwind_place,
            function.return_transition is None,
            forall|i: int| 0 <= i < function.blocks@.len() ==> function.blocks@[i] is None,
    {
        let mut blocks: Vec<Option<PlaceRef>> = Vec::new();
        let mut i: usize = 0;
        while i < block_count
            invariant
                i <= block_count,
                blocks@.len() == i,
                forall|k: int| 0 <= k < i ==> blocks@[k] is None,
            decreases block_count - i,
        {
            blocks.push(None);
            i = i + 1;
        }
        let function = MirFunction {
            def_id,
            name,
            start_place,
            end_place,
            unwind_place,
            blocks,
            active_block: 0,
            return_transition: None,
            memory,
        };
        assert(function@.blocks =~= Seq::new(block_count as nat, |i: int| false));
        function
    }

    /// The place of a basic block. It is added to the net unless it is there.
    pub fn block_place(&mut self, block: usize, net: &mut Net) -> (place: Result<
        PlaceRef,
        TranslationError,
    >)
        requires
            old(net).wf(),
            old(self).wf(*old(net)),
        ensures
            final(net).wf(),
            final(net).extends(*old(net)),
            final(self).wf(*final(net)),
            outcome_matches(place, *final(net), old(self)@.block_place(old(net)@, block as nat).0),
            place is Ok ==> final(self)@ == old(self)@.block_place(old(net)@, block as nat).1,
            place is Ok ==> final(net).has_place(place->Ok_0),
            place is Ok ==> place_label(place->Ok_0) == old(self)@.block_label(block as nat),
            place is Ok ==> block < final(self).blocks@.len() && final(self).blocks@[block as int] is Some,
            place is Err ==> *final(self) == *old(self),
            final(self).active_block == old(self).active_block,
            final(self).memory == old(self).memory,
            old(self).is_active() ==> final(self).is_active(),
    {
        proof {
            net.lemma_view();
        }
        if block >= self.blocks.len() {
            return Err(TranslationError::Internal(InternalDefect::OutOfRange));
        }
        let existing = match &self.blocks[block] {
            Some(place) => Some(place.clone()),
            None => None,
        };
        let place = match existing {
            Some(place) => place,
            None => {
                if block == 0 {
                    self.start_place.clone()
                } else {
                    net.add_place(block_place_label(self.name.as_str(), block).as_str())?
                }
            },
        };
        self.blocks.set(block, Some(place.clone()));
        proof {
            assert(self@.blocks =~= old(self)@.blocks.update(block as int, true));
        }
        Ok(place)
    }

    /// The place of the block that is being translated.
    pub fn active_place(&self) -> (place: &PlaceRef)
        requires
            self.is_active(),
        ensures
            Some(*place) == self.blocks@[self.active_block as int],
    {
        match &self.blocks[self.active_block] {
            Some(place) => place,
            None => &self.start_place,
        }
    }

    /// Activates a basic block: from now on the terminators are translated
    /// as leaving this block. The place of the block is added to the net
    /// unless an earlier terminator has added it as its target.
    pub fn activate_block(&mut self, block: usize, net: &mut Net) -> (activated: Result<
        (),
        TranslationError,
    >)
        requires
            old(net).wf(),
            old(self).wf(*old(net)),
        ensures
            final(net).wf(),
            final(net).extends(*old(net)),
            final(self).wf(*final(net)),
            outcome_matches(
                activated,
                *final(net),
                old(self)@.activate_block(old(net)@, block as nat).0,
            ),
            activated is Ok ==> final(self)@ == old(self)@.activate_block(
                old(net)@,
                block as nat,
            ).1,
            activated is Ok ==> final(self).is_active(),
    {
        self.block_place(block, net)?;
        self.active_block = block;
        Ok(())
    }

    /// Translates a `Goto`: one transition from the active block to the target.
    pub fn goto(&mut self, target: usize, net: &mut Net) -> (done: Result<(), TranslationError>)
        requires
            old(net).wf(),
            old(self).wf(*old(net)),
            old(self).is_active(),
        ensures
            final(net).wf(),
            final(net).extends(*old(net)),
            final(self).wf(*final(net)),
            final(self).is_active(),
            outcome_matches(done, *final(net), old(self)@.goto(old(net)@, target as nat).0),
            done is Ok ==> final(self)@ == old(self)@.goto(old(net)@, target as nat).1,
    {
        let target_place = self.block_place(target, net)?;
        let label = goto_transition_label(self.name.as_str(), self.active_block);
        net.add_step(self.active_place(), label.as_str(), &target_place)?;
        Ok(())
    }

    /// Translates one branch of a `SwitchInt`.
    fn switch_branch(&mut self, target: usize, branch: usize, net: &mut Net) -> (done: Result<
        (),
        TranslationError,
    >)
        requires
            old(net).wf(),
            old(self).wf(*old(net)),
            old(self).is_active(),
        ensures
            final(net).wf(),
            final(net).extends(*old(net)),
            final(self).wf(*final(net)),
            final(self).is_active(),
            outcome_matches(
                done,
                *final(net),
                old(self)@.switch_branch(old(net)@, target as nat, branch as nat).0,
            ),
            done is Ok ==> final(self)@ == old(self)@.switch_branch(
                old(net)@,
                target as nat,
                branch as nat,
            ).1,
    {
        let target_place = self.block_place(target, net)?;
        let label = switch_int_transition_label(self.name.as_str(), self.active_block, branch);
        net.add_step(self.active_place(), label.as_str(), &target_place)?;
        Ok(())
    }

    /// Translates a `SwitchInt`: one transition from the active block to
    /// each of the targets. No condition is attached to the branches.
    pub fn switch_int(&mut self, targets: &Vec<usize>, net: &mut Net) -> (done: Result<
        (),
        TranslationError,
    >)
        requires
            old(net).wf(),
            old(self).wf(*old(net)),
            old(self).is_active(),
        ensures
            final(net).wf(),
            final(net).extends(*old(net)),
            final(self).wf(*final(net)),
            final(self).is_active(),
            outcome_matches(done, *final(net), old(self)@.switch_int(old(net)@, targets@).0),
            done is Ok ==> final(self)@ == old(self)@.switch_int(old(net)@, targets@).1,
    {
        let ghost start = self@;
        let ghost start_net = net@;
        let mut i: usize = 0;
        proof {
            assert(targets@.take(0) =~= Seq::<usize>::empty());
        }
        while i < targets.len()
            invariant
                i <= targets@.len(),
                start == old(self)@,
                start_net == old(net)@,
                net.wf(),
                net.extends(*old(net)),
                self.wf(*net),
                self.is_active(),
                net@ == start.switch_int(start_net, targets@.take(i as int)).0,
                self@ == start.switch_int(start_net, targets@.take(i as int)).1,
            decreases targets@.len() - i,
        {
            proof {
                assert(targets@.take(i + 1).drop_last() =~= targets@.take(i as int));
            }
            match self.switch_branch(targets[i], i, net) {
                Ok(()) => {},
                Err(e) => {
                    proof {
                        start.lemma_switch_int_error_stays(start_net, targets@, i + 1);
                    }
                    return Err(e);
                },
            }
            i = i + 1;
        }
        proof {
            assert(targets@.take(targets@.len() as int) =~= targets@);
        }
        Ok(())
    }

    /// Translates a `Resume` or an `Abort`: a transition from the active
    /// block to the place that the function unwinds to.
    pub fn unwind(&self, net: &mut Net) -> (done: Result<(), TranslationError>)
        requires
            old(net).wf(),
            self.wf(*old(net)),
            self.is_active(),
        ensures
            final(net).wf(),
            final(net).extends(*old(net)),
            outcome_matches(done, *final(net), self@.unwind(old(net)@)),
    {
        let label = unwind_transition_label(self.name.as_str(), self.active_block);
        net.add_step(self.active_place(), label.as_str(), &self.unwind_place)?;
        Ok(())
    }

    /// Translates a `Return`: the transition of the return takes the token
    /// of the active block and puts one on the place that the function
    /// returns to.
    pub fn return_statement(&mut self, net: &mut Net) -> (done: Result<(), TranslationError>)
        requires
            old(net).wf(),
            old(self).wf(*old(net)),
            old(self).is_active(),
        ensures
            final(net).wf(),
            final(net).extends(*old(net)),
            final(self).wf(*final(net)),
            final(self).is_active(),
            outcome_matches(done, *final(net), old(self)@.return_statement(old(net)@).0),
            done is Ok ==> final(self)@ == old(self)@.return_statement(old(net)@).1,
    {
        proof {
            net.lemma_view();
        }
        let existing = match &self.return_transition {
            Some(transition) => Some(transition.clone()),
            None => None,
        };
        let transition = match existing {
            Some(transition) => transition,
            None => {
                let label = return_transition_label(self.name.as_str());
                let transition = net.add_transition(label.as_str())?;
                net.add_arc_transition_place(&transition, &self.end_place)?;
                transition
            },
        };
        net.add_arc_place_transition(self.active_place(), &transition)?;
        self.return_transition = Some(transition);
        Ok(())
    }

    /// Translates an `Unreachable`: a transition from the active block to
    /// the end of the program.
    pub fn unreachable(&self, program_end: &PlaceRef, net: &mut Net) -> (done: Result<
        (),
        TranslationError,
    >)
        requires
            old(net).wf(),
            self.wf(*old(net)),
            self.is_active(),
            old(net).has_place(*program_end),
        ensures
            final(net).wf(),
            final(net).extends(*old(net)),
            outcome_matches(
                done,
                *final(net),
                self@.unreachable(old(net)@, place_label(*program_end)),
            ),
    {
        let label = unreachable_transition_label(self.name.as_str(), self.active_block);
        net.add_step(self.active_place(), label.as_str(), program_end)?;
        Ok(())
    }

    /// Translates a terminator that goes on at a target or, in the case of
    /// unwinding, at a second block. Returns the transition to the target.
    fn two_way(
        &mut self,
        target: usize,
        unwind: Option<usize>,
        labels: &(String, String),
        net: &mut Net,
    ) -> (transition: Result<TransitionRef, TranslationError>)
        requires
            old(net).wf(),
            old(self).wf(*old(net)),
            old(self).is_active(),
        ensures
            final(net).wf(),
            final(net).extends(*old(net)),
            final(self).wf(*final(net)),
            final(self).is_active(),
            outcome_matches(
                transition,
                *final(net),
                old(self)@.two_way(old(net)@, target as nat, unwind, (labels.0@, labels.1@)).0,
            ),
            transition is Ok ==> final(self)@ == old(self)@.two_way(
                old(net)@,
                target as nat,
                unwind,
                (labels.0@, labels.1@),
            ).1,
            transition is Ok ==> final(net).has_transition(transition->Ok_0),
            transition is Ok ==> transition_label(transition->Ok_0) == labels.0@,
            final(self).memory == old(self).memory,
    {
        let target_place = self.block_place(target, net)?;
        let transition = net.add_step(self.active_place(), labels.0.as_str(), &target_place)?;
        match unwind {
            Some(block) => {
                let unwind_place = self.block_place(block, net)?;
                net.add_step(self.active_place(), labels.1.as_str(), &unwind_place)?;
            },
            None => {},
        }
        Ok(transition)
    }

    /// Translates a `Drop`: a transition from the active block to the
    /// target and, if the drop may unwind, a second one to the block where
    /// the unwinding goes on. Returns the transition to the target.
    pub fn drop_value(&mut self, target: usize, unwind: Option<usize>, net: &mut Net) -> (transition:
        Result<TransitionRef, TranslationError>)
        requires
            old(net).wf(),
            old(self).wf(*old(net)),
            old(self).is_active(),
        ensures
            final(net).wf(),
            final(net).extends(*old(net)),
            final(self).wf(*final(net)),
            final(self).is_active(),
            outcome_matches(
                transition,
                *final(net),
                old(self)@.drop_value(old(net)@, target as nat, unwind).0,
            ),
            transition is Ok ==> final(self)@ == old(self)@.drop_value(
                old(net)@,
                target as nat,
                unwind,
            ).1,
            transition is Ok ==> final(net).has_transition(transition->Ok_0),
            transition is Ok ==> transition_label(transition->Ok_0) == drop_transition_labels_spec(
                old(self)@.name,
                old(self)@.active_block,
            ).0,
            final(self).memory == old(self).memory,
    {
        let labels = drop_transition_labels(self.name.as_str(), self.active_block);
        self.two_way(target, unwind, &labels, net)
    }

    /// Translates an `Assert`: a transition from the active block to the
    /// target and, if there is a cleanup block, a second one to it.
    pub fn assert_condition(&mut self, target: usize, cleanup: Option<usize>, net: &mut Net) -> (done:
        Result<(), TranslationError>)
        requires
            old(net).wf(),
            old(self).wf(*old(net)),
            old(self).is_active(),
        ensures
            final(net).wf(),
            final(net).extends(*old(net)),
            final(self).wf(*final(net)),
            final(self).is_active(),
            outcome_matches(
                done,
                *final(net),
                old(self)@.assert_condition(old(net)@, target as nat, cleanup).0,
            ),
            done is Ok ==> final(self)@ == old(self)@.assert_condition(
                old(net)@,
                target as nat,
                cleanup,
            ).1,
    {
        let labels = assert_transition_labels(self.name.as_str(), self.active_block);
        self.two_way(target, cleanup, &labels, net)?;
        Ok(())
    }

    /// The places of the call site of the active block: the call starts at
    /// the active block, ends at the target and is cleaned up at the cleanup block.
    pub fn function_call_places(&mut self, target: usize, cleanup: Option<usize>, net: &mut Net) -> (places:
        Result<FunctionPlaces, TranslationError>)
        requires
            old(net).wf(),
            old(self).wf(*old(net)),
            old(self).is_active(),
        ensures
            final(net).wf(),
            final(net).extends(*old(net)),
            final(self).wf(*final(net)),
            final(self).is_active(),
            outcome_matches(
                places,
                *final(net),
                old(self)@.function_call_places(old(net)@, target as nat, cleanup).0,
            ),
            places is Ok ==> final(self)@ == old(self)@.function_call_places(
                old(net)@,
                target as nat,
                cleanup,
            ).1,
            places is Ok ==> places->Ok_0.wf(*final(net)),
            places is Ok ==> places->Ok_0@ == old(self)@.call_site(target as nat, cleanup),
            final(self).memory == old(self).memory,
    {
        let end_place = self.block_place(target, net)?;
        let cleanup_place = match cleanup {
            Some(block) => Some(self.block_place(block, net)?),
            None => None,
        };
        Ok(FunctionPlaces { start_place: self.active_place().clone(), end_place, cleanup_place })
    }
}

impl MirFunctionModel {
    /// Once a branch of a `SwitchInt` has met a defect, the branches after it change nothing.
    pub proof fn lemma_switch_int_error_stays(self, net: NetModel, targets: Seq<usize>, k: int)
        requires
            0 <= k <= targets.len(),
            self.switch_int(net, targets.take(k)).0.error is Some,
        ensures
            self.switch_int(net, targets).0 == self.switch_int(net, targets.take(k)).0,
        decreases targets.len() - k,
    {
        if k < targets.len() {
            assert(targets.take(k + 1).drop_last() =~= targets.take(k));
            self.lemma_switch_int_error_stays(net, targets, k + 1);
        } else {
            assert(targets.take(k) =~= targets);
        }
    }
}

} // verus!
