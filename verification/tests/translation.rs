use granite2::error_handling::{InternalDefect, TranslationError, UnsupportedConstruct};
use granite2::program::{
    BasicBlockData, Body, Function, Operand, Place, Program, ProjectionElem, Rvalue, Statement,
    TerminatorKind, Ty, TyKind,
};
use granite2::translator::{translate, Translator, MAX_CALL_DEPTH};
use netcrab::petri_net::PetriNet;
use std::collections::{BTreeMap, BTreeSet};

const MUTEX: &str = "std::sync::Mutex<i32>";
const MUTEX_REF: &str = "&std::sync::Mutex<i32>";
const GUARD: &str = "std::sync::MutexGuard<'_, i32>";
const LOCK_RESULT: &str =
    "std::result::Result<std::sync::MutexGuard<'_, i32>, std::sync::PoisonError<std::sync::MutexGuard<'_, i32>>>";
const CONDVAR: &str = "std::sync::Condvar";
const CONDVAR_REF: &str = "&std::sync::Condvar";
const JOIN_HANDLE: &str = "std::thread::JoinHandle<()>";

fn ty(name: &str) -> Ty {
    Ty { name: name.to_string(), kind: TyKind::Other }
}

fn place(local: usize, name: &str) -> Place {
    Place { local, projection: vec![], ty: ty(name) }
}

fn function_item(def_id: usize) -> Operand {
    Operand::Constant(Ty { name: "fn item".to_string(), kind: TyKind::FnDef(def_id) })
}

fn constant() -> Operand {
    Operand::Constant(ty("i32"))
}

fn block(statements: Vec<Statement>, terminator: TerminatorKind) -> BasicBlockData {
    BasicBlockData { statements, terminator }
}

fn call(
    def_id: usize,
    args: Vec<Operand>,
    destination: Place,
    target: Option<usize>,
    cleanup: Option<usize>,
) -> TerminatorKind {
    TerminatorKind::Call { func: function_item(def_id), args, destination, target, cleanup }
}

fn reference(to: Place, from: Place) -> Statement {
    Statement::Assign(to, Rvalue::Ref(from))
}

fn with_body(name: &str, local_count: usize, basic_blocks: Vec<BasicBlockData>) -> Function {
    Function { name: name.to_string(), body: Some(Body { local_count, basic_blocks }) }
}

fn foreign(name: &str) -> Function {
    Function { name: name.to_string(), body: None }
}

fn main_only(local_count: usize, basic_blocks: Vec<BasicBlockData>) -> Program {
    Program { functions: vec![with_body("main", local_count, basic_blocks)], entry: 0 }
}

/// The net by its labels: the tokens of each place and the places before and after each transition.
struct Snapshot {
    marking: BTreeMap<String, usize>,
    transitions: BTreeMap<String, (BTreeSet<String>, BTreeSet<String>)>,
}

fn snapshot(net: &PetriNet) -> Snapshot {
    let marking = net
        .places_iter()
        .map(|(place_ref, place)| (place_ref.to_string(), place.marking()))
        .collect();
    let transitions = net
        .transitions_iter()
        .map(|(transition_ref, transition)| {
            (
                transition_ref.to_string(),
                (
                    transition.get_preset().iter().map(|place| place.to_string()).collect(),
                    transition.get_postset().iter().map(|place| place.to_string()).collect(),
                ),
            )
        })
        .collect();
    Snapshot { marking, transitions }
}

fn set(labels: &[&str]) -> BTreeSet<String> {
    labels.iter().map(|label| label.to_string()).collect()
}

impl Snapshot {
    fn places(&self) -> BTreeSet<String> {
        self.marking.keys().cloned().collect()
    }

    fn transition_labels(&self) -> BTreeSet<String> {
        self.transitions.keys().cloned().collect()
    }

    fn inputs(&self, transition: &str) -> BTreeSet<String> {
        self.transitions[transition].0.clone()
    }

    fn outputs(&self, transition: &str) -> BTreeSet<String> {
        self.transitions[transition].1.clone()
    }

    /// The transitions that take a token from the place.
    fn consumers(&self, place: &str) -> BTreeSet<String> {
        self.transitions
            .iter()
            .filter(|(_, (inputs, _))| inputs.contains(place))
            .map(|(label, _)| label.clone())
            .collect()
    }

    fn enabled(&self, marking: &BTreeMap<String, usize>, transition: &str) -> bool {
        self.transitions[transition].0.iter().all(|place| marking[place] >= 1)
    }

    fn fire(&self, marking: &BTreeMap<String, usize>, transition: &str) -> BTreeMap<String, usize> {
        let mut next = marking.clone();
        for place in &self.transitions[transition].0 {
            *next.get_mut(place).unwrap() -= 1;
        }
        for place in &self.transitions[transition].1 {
            *next.get_mut(place).unwrap() += 1;
        }
        next
    }

    /// Every marking that can be reached from the initial marking, and
    /// every transition that fires on the way.
    fn explore(&self) -> (BTreeSet<BTreeMap<String, usize>>, BTreeSet<String>) {
        let mut seen = BTreeSet::new();
        let mut fired = BTreeSet::new();
        let mut todo = vec![self.marking.clone()];
        while let Some(marking) = todo.pop() {
            if !seen.insert(marking.clone()) {
                continue;
            }
            assert!(seen.len() < 10_000, "the state space is expected to be small");
            for transition in self.transitions.keys() {
                if self.enabled(&marking, transition) {
                    fired.insert(transition.clone());
                    todo.push(self.fire(&marking, transition));
                }
            }
        }
        (seen, fired)
    }

    fn can_mark(&self, place: &str) -> bool {
        self.explore().0.iter().any(|marking| marking[place] >= 1)
    }

    fn is_well_formed(&self) -> bool {
        self.transitions.values().all(|(inputs, outputs)| !inputs.is_empty() && !outputs.is_empty())
    }
}

fn translated(program: &Program) -> Snapshot {
    snapshot(&translate(program).expect("the program is translated"))
}

fn unsupported(construct: UnsupportedConstruct) -> TranslationError {
    TranslationError::Unsupported(construct)
}

fn internal(defect: InternalDefect) -> TranslationError {
    TranslationError::Internal(defect)
}

#[test]
fn a_new_translator_holds_the_places_of_the_program() {
    let net = snapshot(&Translator::new().get_net());
    assert_eq!(net.places(), set(&["PROGRAM_END", "PROGRAM_PANIC", "PROGRAM_START"]));
    assert_eq!(net.marking["PROGRAM_START"], 1);
    assert_eq!(net.marking["PROGRAM_END"], 0);
    assert_eq!(net.marking["PROGRAM_PANIC"], 0);
    assert!(net.transitions.is_empty());
}

#[test]
fn a_program_that_returns() {
    let net = translated(&main_only(1, vec![block(vec![], TerminatorKind::Return)]));
    assert_eq!(net.places(), set(&["PROGRAM_END", "PROGRAM_PANIC", "PROGRAM_START"]));
    assert_eq!(net.transition_labels(), set(&["main_RETURN"]));
    assert_eq!(net.inputs("main_RETURN"), set(&["PROGRAM_START"]));
    assert_eq!(net.outputs("main_RETURN"), set(&["PROGRAM_END"]));
    assert_eq!(net.marking["PROGRAM_START"], 1);
    assert!(net.can_mark("PROGRAM_END"));
    assert!(!net.can_mark("PROGRAM_PANIC"));
}

#[test]
fn translation_is_deterministic() {
    let program = mutex_program(Some(5));
    let first = translate(&program).unwrap();
    let second = translate(&program).unwrap();
    assert_eq!(first.to_dot_string().unwrap(), second.to_dot_string().unwrap());
    assert_eq!(first.to_lola_string().unwrap(), second.to_lola_string().unwrap());
    assert_eq!(first.to_pnml_string().unwrap(), second.to_pnml_string().unwrap());
}

#[test]
fn goto_and_switch() {
    let program = main_only(
        1,
        vec![
            block(vec![], TerminatorKind::SwitchInt { targets: vec![1, 2, 1] }),
            block(vec![Statement::Other], TerminatorKind::Goto { target: 2 }),
            block(vec![], TerminatorKind::Return),
        ],
    );
    let net = translated(&program);
    assert_eq!(
        net.places(),
        set(&["PROGRAM_END", "PROGRAM_PANIC", "PROGRAM_START", "main_BB1", "main_BB2"])
    );
    assert_eq!(
        net.transition_labels(),
        set(&[
            "main_BB0_SWITCH_0",
            "main_BB0_SWITCH_1",
            "main_BB0_SWITCH_2",
            "main_BB1_GOTO",
            "main_RETURN"
        ])
    );
    // One branch for each target, also where two branches share a target.
    assert_eq!(net.inputs("main_BB0_SWITCH_0"), set(&["PROGRAM_START"]));
    assert_eq!(net.outputs("main_BB0_SWITCH_0"), set(&["main_BB1"]));
    assert_eq!(net.outputs("main_BB0_SWITCH_1"), set(&["main_BB2"]));
    assert_eq!(net.outputs("main_BB0_SWITCH_2"), set(&["main_BB1"]));
    assert_eq!(net.inputs("main_BB1_GOTO"), set(&["main_BB1"]));
    assert_eq!(net.outputs("main_BB1_GOTO"), set(&["main_BB2"]));
    assert_eq!(net.inputs("main_RETURN"), set(&["main_BB2"]));
    assert!(net.is_well_formed());
}

#[test]
fn an_infinite_loop_never_ends() {
    let program = main_only(1, vec![block(vec![], TerminatorKind::Goto { target: 0 })]);
    let net = translated(&program);
    assert_eq!(net.transition_labels(), set(&["main_BB0_GOTO"]));
    assert_eq!(net.inputs("main_BB0_GOTO"), set(&["PROGRAM_START"]));
    assert_eq!(net.outputs("main_BB0_GOTO"), set(&["PROGRAM_START"]));
    assert!(!net.can_mark("PROGRAM_END"));
}

#[test]
fn two_returns_share_one_transition() {
    let program = main_only(
        1,
        vec![
            block(vec![], TerminatorKind::SwitchInt { targets: vec![1, 2] }),
            block(vec![], TerminatorKind::Return),
            block(vec![], TerminatorKind::Return),
        ],
    );
    let net = translated(&program);
    assert_eq!(net.inputs("main_RETURN"), set(&["main_BB1", "main_BB2"]));
    assert_eq!(net.outputs("main_RETURN"), set(&["PROGRAM_END"]));
}

#[test]
fn unwinding_out_of_the_entry_function_is_a_panic() {
    for terminator in [TerminatorKind::Resume, TerminatorKind::Abort] {
        let net = translated(&main_only(1, vec![block(vec![], terminator)]));
        assert_eq!(net.transition_labels(), set(&["main_BB0_UNWIND"]));
        assert_eq!(net.inputs("main_BB0_UNWIND"), set(&["PROGRAM_START"]));
        assert_eq!(net.outputs("main_BB0_UNWIND"), set(&["PROGRAM_PANIC"]));
    }
}

#[test]
fn unreachable_ends_the_program() {
    let net = translated(&main_only(1, vec![block(vec![], TerminatorKind::Unreachable)]));
    assert_eq!(net.inputs("main_BB0_UNREACHABLE"), set(&["PROGRAM_START"]));
    assert_eq!(net.outputs("main_BB0_UNREACHABLE"), set(&["PROGRAM_END"]));
}

#[test]
fn drop_and_assert_have_a_second_way_out() {
    let program = main_only(
        2,
        vec![
            block(
                vec![],
                TerminatorKind::Drop { place: place(1, "i32"), target: 1, unwind: Some(3) },
            ),
            block(vec![], TerminatorKind::Assert { target: 2, cleanup: Some(3) }),
            block(vec![], TerminatorKind::Assert { target: 4, cleanup: None }),
            block(vec![], TerminatorKind::Resume),
            block(vec![], TerminatorKind::Return),
        ],
    );
    let net = translated(&program);
    assert_eq!(net.inputs("main_BB0_DROP"), set(&["PROGRAM_START"]));
    assert_eq!(net.outputs("main_BB0_DROP"), set(&["main_BB1"]));
    assert_eq!(net.inputs("main_BB0_DROP_UNWIND"), set(&["PROGRAM_START"]));
    assert_eq!(net.outputs("main_BB0_DROP_UNWIND"), set(&["main_BB3"]));
    assert_eq!(net.outputs("main_BB1_ASSERT"), set(&["main_BB2"]));
    assert_eq!(net.outputs("main_BB1_ASSERT_CLEANUP"), set(&["main_BB3"]));
    assert_eq!(net.outputs("main_BB2_ASSERT"), set(&["main_BB4"]));
    assert!(!net.transitions.contains_key("main_BB2_ASSERT_CLEANUP"));
    assert_eq!(net.outputs("main_BB3_UNWIND"), set(&["PROGRAM_PANIC"]));
    assert!(net.is_well_formed());
}

#[test]
fn terminators_that_are_not_modelled() {
    let cases = [
        (TerminatorKind::Yield, UnsupportedConstruct::Yield),
        (TerminatorKind::GeneratorDrop, UnsupportedConstruct::GeneratorDrop),
        (TerminatorKind::FalseEdge, UnsupportedConstruct::FalseEdge),
        (TerminatorKind::FalseUnwind, UnsupportedConstruct::FalseUnwind),
        (TerminatorKind::InlineAsm, UnsupportedConstruct::InlineAsm),
        (TerminatorKind::DropAndReplace, UnsupportedConstruct::DropAndReplace),
    ];
    for (terminator, construct) in cases {
        let error = translate(&main_only(1, vec![block(vec![], terminator)])).err().unwrap();
        assert_eq!(error, unsupported(construct));
        assert!(error.is_unsupported());
    }
}

#[test]
fn calls_that_cannot_be_resolved() {
    let pointer = Operand::Copy(Place {
        local: 1,
        projection: vec![],
        ty: Ty { name: "fn()".to_string(), kind: TyKind::FnPtr },
    });
    let by_pointer = main_only(
        2,
        vec![
            block(
                vec![],
                TerminatorKind::Call {
                    func: pointer,
                    args: vec![],
                    destination: place(0, "()"),
                    target: Some(1),
                    cleanup: None,
                },
            ),
            block(vec![], TerminatorKind::Return),
        ],
    );
    assert_eq!(translate(&by_pointer).err(), Some(unsupported(UnsupportedConstruct::FunctionPointer)));

    let no_function = main_only(
        1,
        vec![block(
            vec![],
            TerminatorKind::Call {
                func: constant(),
                args: vec![],
                destination: place(0, "()"),
                target: None,
                cleanup: None,
            },
        )],
    );
    assert_eq!(translate(&no_function).err(), Some(unsupported(UnsupportedConstruct::UnresolvedCall)));
}

#[test]
fn malformed_programs_are_defects() {
    let no_entry = Program { functions: vec![], entry: 0 };
    assert_eq!(translate(&no_entry).err(), Some(internal(InternalDefect::OutOfRange)));

    let foreign_entry = Program { functions: vec![foreign("main")], entry: 0 };
    assert_eq!(translate(&foreign_entry).err(), Some(internal(InternalDefect::OutOfRange)));

    let no_such_block = main_only(1, vec![block(vec![], TerminatorKind::Goto { target: 7 })]);
    let error = translate(&no_such_block).err().unwrap();
    assert_eq!(error, internal(InternalDefect::OutOfRange));
    assert!(!error.is_unsupported());

    let no_such_function =
        main_only(1, vec![block(vec![], call(9, vec![], place(0, "()"), None, None))]);
    assert_eq!(translate(&no_such_function).err(), Some(internal(InternalDefect::OutOfRange)));
}

#[test]
fn a_foreign_call() {
    let program = Program {
        functions: vec![
            with_body(
                "main",
                1,
                vec![
                    block(vec![], call(1, vec![], place(0, "()"), Some(1), Some(2))),
                    block(vec![], call(1, vec![], place(0, "()"), Some(3), None)),
                    block(vec![], TerminatorKind::Resume),
                    block(vec![], TerminatorKind::Return),
                ],
            ),
            foreign("std::io::_print"),
        ],
        entry: 0,
    };
    let net = translated(&program);
    assert_eq!(net.inputs("std_io__print_0_CALL"), set(&["PROGRAM_START"]));
    assert_eq!(net.outputs("std_io__print_0_CALL"), set(&["main_BB1"]));
    assert_eq!(net.inputs("std_io__print_0_CALL_UNWIND"), set(&["PROGRAM_START"]));
    assert_eq!(net.outputs("std_io__print_0_CALL_UNWIND"), set(&["main_BB2"]));
    // The second call has its own transition and no cleanup block.
    assert_eq!(net.inputs("std_io__print_1_CALL"), set(&["main_BB1"]));
    assert_eq!(net.outputs("std_io__print_1_CALL"), set(&["main_BB3"]));
    assert!(!net.transitions.contains_key("std_io__print_1_CALL_UNWIND"));
    assert!(net.is_well_formed());
}

#[test]
fn diverging_and_panicking_calls() {
    let program = Program {
        functions: vec![
            with_body(
                "main",
                1,
                vec![
                    block(vec![], TerminatorKind::SwitchInt { targets: vec![1, 2] }),
                    block(vec![], call(1, vec![], place(0, "!"), None, None)),
                    block(vec![], call(2, vec![], place(0, "!"), None, Some(3))),
                    block(vec![], TerminatorKind::Resume),
                ],
            ),
            foreign("std::process::exit"),
            foreign("core::panicking::panic"),
        ],
        entry: 0,
    };
    let net = translated(&program);
    assert_eq!(net.inputs("std_process_exit_0_DIVERGING_CALL"), set(&["main_BB1"]));
    assert_eq!(net.outputs("std_process_exit_0_DIVERGING_CALL"), set(&["PROGRAM_END"]));
    assert_eq!(net.inputs("core_panicking_panic_1_PANIC"), set(&["main_BB2"]));
    assert_eq!(net.outputs("core_panicking_panic_1_PANIC"), set(&["PROGRAM_PANIC"]));
    assert!(net.can_mark("PROGRAM_END"));
    assert!(net.can_mark("PROGRAM_PANIC"));
}

/// `main` calls `helper` twice; `helper` returns at once.
fn program_with_two_calls() -> Program {
    Program {
        functions: vec![
            with_body(
                "main",
                1,
                vec![
                    block(vec![], call(1, vec![], place(0, "()"), Some(1), None)),
                    block(vec![], call(1, vec![], place(0, "()"), Some(2), Some(3))),
                    block(vec![], TerminatorKind::Return),
                    block(vec![], TerminatorKind::Resume),
                ],
            ),
            with_body(
                "helper",
                1,
                vec![
                    block(vec![], TerminatorKind::SwitchInt { targets: vec![1, 2] }),
                    block(vec![], TerminatorKind::Return),
                    block(vec![], TerminatorKind::Resume),
                ],
            ),
        ],
        entry: 0,
    }
}

#[test]
fn every_call_has_its_own_copy_of_the_function() {
    let net = translated(&program_with_two_calls());
    // The first call starts where `main` starts and returns to the second block of `main`.
    assert_eq!(net.inputs("helper_0_BB0_SWITCH_0"), set(&["PROGRAM_START"]));
    assert_eq!(net.outputs("helper_0_BB0_SWITCH_0"), set(&["helper_0_BB1"]));
    assert_eq!(net.inputs("helper_0_RETURN"), set(&["helper_0_BB1"]));
    assert_eq!(net.outputs("helper_0_RETURN"), set(&["main_BB1"]));
    // Without a cleanup block the function unwinds to where `main` unwinds to.
    assert_eq!(net.inputs("helper_0_BB2_UNWIND"), set(&["helper_0_BB2"]));
    assert_eq!(net.outputs("helper_0_BB2_UNWIND"), set(&["PROGRAM_PANIC"]));
    // The second call is a second copy, which unwinds to the cleanup block of the call.
    assert_eq!(net.inputs("helper_1_BB0_SWITCH_0"), set(&["main_BB1"]));
    assert_eq!(net.outputs("helper_1_RETURN"), set(&["main_BB2"]));
    assert_eq!(net.outputs("helper_1_BB2_UNWIND"), set(&["main_BB3"]));
    assert_eq!(net.outputs("main_RETURN"), set(&["PROGRAM_END"]));
    assert!(net.is_well_formed());
    assert!(net.can_mark("PROGRAM_END"));
}

#[test]
fn unbounded_recursion_is_given_up() {
    let program = Program {
        functions: vec![with_body(
            "main",
            1,
            vec![
                block(vec![], call(0, vec![], place(0, "()"), Some(1), None)),
                block(vec![], TerminatorKind::Return),
            ],
        )],
        entry: 0,
    };
    assert_eq!(translate(&program).err(), Some(unsupported(UnsupportedConstruct::CallDepth)));
    assert_eq!(MAX_CALL_DEPTH, 64);
}

/// `let m = Mutex::new(0); let g = m.lock().unwrap(); drop(g);`
/// The drop unwinds to the given block, if any.
fn mutex_program(unwind: Option<usize>) -> Program {
    Program {
        functions: vec![
            with_body(
                "main",
                5,
                vec![
                    block(vec![], call(1, vec![constant()], place(1, MUTEX), Some(1), None)),
                    block(
                        vec![reference(place(3, MUTEX_REF), place(1, MUTEX))],
                        call(
                            2,
                            vec![Operand::Move(place(3, MUTEX_REF))],
                            place(2, LOCK_RESULT),
                            Some(2),
                            None,
                        ),
                    ),
                    block(
                        vec![],
                        call(
                            3,
                            vec![Operand::Move(place(2, LOCK_RESULT))],
                            place(4, GUARD),
                            Some(3),
                            None,
                        ),
                    ),
                    block(
                        vec![],
                        TerminatorKind::Drop { place: place(4, GUARD), target: 4, unwind },
                    ),
                    block(vec![], TerminatorKind::Return),
                    block(vec![], TerminatorKind::Resume),
                ],
            ),
            foreign("std::sync::Mutex::<T>::new"),
            foreign("std::sync::Mutex::<T>::lock"),
            foreign("std::result::Result::<T, E>::unwrap"),
        ],
        entry: 0,
    }
}

#[test]
fn a_mutex_that_is_locked_and_dropped() {
    let net = translated(&mutex_program(None));
    assert_eq!(net.marking["MUTEX_0_UNLOCKED"], 1);
    assert_eq!(net.marking["MUTEX_0_LOCKED"], 0);
    assert_eq!(net.inputs("std_sync_Mutex_T_new_0"), set(&["PROGRAM_START"]));
    assert_eq!(net.outputs("std_sync_Mutex_T_new_0"), set(&["main_BB1"]));
    assert_eq!(net.inputs("std_sync_Mutex_T_lock_0"), set(&["MUTEX_0_UNLOCKED", "main_BB1"]));
    assert_eq!(net.outputs("std_sync_Mutex_T_lock_0"), set(&["MUTEX_0_LOCKED", "main_BB2"]));
    assert_eq!(net.inputs("std_result_Result_unwrap_0"), set(&["main_BB2"]));
    // The only arc out of `locked` leads to the drop, which gives the token back to `unlocked`.
    assert_eq!(net.consumers("MUTEX_0_LOCKED"), set(&["main_BB3_DROP"]));
    assert_eq!(net.inputs("main_BB3_DROP"), set(&["MUTEX_0_LOCKED", "main_BB3"]));
    assert_eq!(net.outputs("main_BB3_DROP"), set(&["MUTEX_0_UNLOCKED", "main_BB4"]));
    assert!(net.is_well_formed());
    assert!(net.can_mark("PROGRAM_END"));
}

#[test]
fn a_mutex_holds_one_token() {
    let net = translated(&mutex_program(Some(5)));
    assert_eq!(net.consumers("MUTEX_0_LOCKED"), set(&["main_BB3_DROP"]));
    let (markings, _) = net.explore();
    for marking in &markings {
        assert!(marking["MUTEX_0_LOCKED"] <= 1);
        assert_eq!(marking["MUTEX_0_LOCKED"] + marking["MUTEX_0_UNLOCKED"], 1);
    }
}

#[test]
fn locking_twice_is_a_deadlock() {
    let mut program = mutex_program(None);
    let body = program.functions[0].body.as_mut().unwrap();
    // In place of the drop, the mutex is locked a second time.
    body.basic_blocks[3] = block(
        vec![reference(place(3, MUTEX_REF), place(1, MUTEX))],
        call(2, vec![Operand::Move(place(3, MUTEX_REF))], place(2, LOCK_RESULT), Some(4), None),
    );
    let net = translated(&program);
    assert_eq!(net.inputs("std_sync_Mutex_T_lock_1"), set(&["MUTEX_0_UNLOCKED", "main_BB3"]));
    assert!(net.can_mark("main_BB3"));
    assert!(!net.can_mark("main_BB4"));
    assert!(!net.can_mark("PROGRAM_END"));
}

#[test]
fn locking_what_is_no_mutex_is_a_defect() {
    let mut program = mutex_program(None);
    let body = program.functions[0].body.as_mut().unwrap();
    body.basic_blocks[1].statements.clear();
    assert_eq!(translate(&program).err(), Some(internal(InternalDefect::MutexExpected)));

    let without_receiver = Program {
        functions: vec![
            with_body(
                "main",
                1,
                vec![
                    block(vec![], call(1, vec![], place(0, LOCK_RESULT), Some(1), None)),
                    block(vec![], TerminatorKind::Return),
                ],
            ),
            foreign("std::sync::Mutex::<T>::lock"),
        ],
        entry: 0,
    };
    assert_eq!(translate(&without_receiver).err(), Some(internal(InternalDefect::MissingArgument)));
}

/// `main` makes a condition variable and notifies it the given number of times.
fn notifying_program(notifications: usize) -> Program {
    let mut blocks =
        vec![block(vec![], call(1, vec![], place(1, CONDVAR), Some(1), None))];
    for i in 0..notifications {
        blocks.push(block(
            vec![reference(place(2, CONDVAR_REF), place(1, CONDVAR))],
            call(2, vec![Operand::Move(place(2, CONDVAR_REF))], place(3, "()"), Some(i + 2), None),
        ));
    }
    blocks.push(block(vec![], TerminatorKind::Return));
    Program {
        functions: vec![
            with_body("main", 4, blocks),
            foreign("std::sync::Condvar::new"),
            foreign("std::sync::Condvar::notify_one"),
        ],
        entry: 0,
    }
}

#[test]
fn the_model_of_a_condition_variable() {
    let net = translated(&notifying_program(0));
    for place in [
        "CONDVAR_0_LOST_SIGNAL_POSSIBLE",
        "CONDVAR_0_SIGNAL_INPUT",
        "CONDVAR_0_WAIT_INPUT",
        "CONDVAR_0_SIGNAL_OUTPUT",
    ] {
        assert!(net.marking.contains_key(place));
    }
    assert_eq!(net.marking["CONDVAR_0_LOST_SIGNAL_POSSIBLE"], 1);
    assert_eq!(net.marking["CONDVAR_0_SIGNAL_INPUT"], 0);
    assert_eq!(net.marking["CONDVAR_0_WAIT_INPUT"], 0);
    assert_eq!(net.marking["CONDVAR_0_SIGNAL_OUTPUT"], 0);
    assert_eq!(
        net.inputs("CONDVAR_0_LOST_SIGNAL_TRANSITION"),
        set(&["CONDVAR_0_LOST_SIGNAL_POSSIBLE", "CONDVAR_0_SIGNAL_INPUT"])
    );
    assert_eq!(
        net.outputs("CONDVAR_0_LOST_SIGNAL_TRANSITION"),
        set(&["CONDVAR_0_LOST_SIGNAL_POSSIBLE"])
    );
    assert_eq!(
        net.inputs("CONDVAR_0_SIGNAL_TRANSITION"),
        set(&["CONDVAR_0_SIGNAL_INPUT", "CONDVAR_0_WAIT_INPUT"])
    );
    assert_eq!(
        net.outputs("CONDVAR_0_SIGNAL_TRANSITION"),
        set(&["CONDVAR_0_LOST_SIGNAL_POSSIBLE", "CONDVAR_0_SIGNAL_OUTPUT"])
    );
    assert_eq!(net.outputs("std_sync_Condvar_new_0"), set(&["main_BB1"]));
    assert!(net.is_well_formed());
}

#[test]
fn signals_without_a_waiter_are_lost() {
    let net = translated(&notifying_program(2));
    assert_eq!(net.inputs("std_sync_Condvar_notify_one_0"), set(&["main_BB1"]));
    assert_eq!(
        net.outputs("std_sync_Condvar_notify_one_0"),
        set(&["CONDVAR_0_SIGNAL_INPUT", "main_BB2"])
    );
    assert_eq!(
        net.outputs("std_sync_Condvar_notify_one_1"),
        set(&["CONDVAR_0_SIGNAL_INPUT", "main_BB3"])
    );
    let (markings, fired) = net.explore();
    assert!(fired.contains("std_sync_Condvar_notify_one_0"));
    assert!(fired.contains("std_sync_Condvar_notify_one_1"));
    assert!(fired.contains("CONDVAR_0_LOST_SIGNAL_TRANSITION"));
    assert!(!fired.contains("CONDVAR_0_SIGNAL_TRANSITION"));
    for marking in &markings {
        assert_eq!(marking["CONDVAR_0_SIGNAL_OUTPUT"], 0);
        assert_eq!(marking["CONDVAR_0_WAIT_INPUT"], 0);
    }
    assert!(net.can_mark("PROGRAM_END"));
}

/// `main` locks a mutex and waits on a condition variable with the guard.
fn waiting_program() -> Program {
    Program {
        functions: vec![
            with_body(
                "main",
                8,
                vec![
                    block(vec![], call(1, vec![constant()], place(1, MUTEX), Some(1), None)),
                    block(vec![], call(2, vec![], place(2, CONDVAR), Some(2), None)),
                    block(
                        vec![reference(place(3, MUTEX_REF), place(1, MUTEX))],
                        call(
                            3,
                            vec![Operand::Move(place(3, MUTEX_REF))],
                            place(4, LOCK_RESULT),
                            Some(3),
                            None,
                        ),
                    ),
                    block(
                        vec![],
                        call(
                            4,
                            vec![Operand::Move(place(4, LOCK_RESULT))],
                            place(5, GUARD),
                            Some(4),
                            None,
                        ),
                    ),
                    block(
                        vec![reference(place(6, CONDVAR_REF), place(2, CONDVAR))],
                        call(
                            5,
                            vec![
                                Operand::Move(place(6, CONDVAR_REF)),
                                Operand::Move(place(5, GUARD)),
                            ],
                            place(7, LOCK_RESULT),
                            Some(5),
                            Some(6),
                        ),
                    ),
                    block(vec![], TerminatorKind::Return),
                    block(vec![], TerminatorKind::Resume),
                ],
            ),
            foreign("std::sync::Mutex::<T>::new"),
            foreign("std::sync::Condvar::new"),
            foreign("std::sync::Mutex::<T>::lock"),
            foreign("std::result::Result::<T, E>::unwrap"),
            foreign("std::sync::Condvar::wait"),
        ],
        entry: 0,
    }
}

#[test]
fn waiting_releases_the_mutex() {
    let net = translated(&waiting_program());
    assert_eq!(
        net.inputs("std_sync_Condvar_wait_0_START"),
        set(&["CONDVAR_0_LOST_SIGNAL_POSSIBLE", "MUTEX_0_LOCKED", "main_BB4"])
    );
    assert_eq!(
        net.outputs("std_sync_Condvar_wait_0_START"),
        set(&["CONDVAR_0_WAIT_INPUT", "MUTEX_0_UNLOCKED"])
    );
    assert_eq!(
        net.inputs("std_sync_Condvar_wait_0_END"),
        set(&["CONDVAR_0_SIGNAL_OUTPUT", "MUTEX_0_UNLOCKED"])
    );
    assert_eq!(
        net.outputs("std_sync_Condvar_wait_0_END"),
        set(&["MUTEX_0_LOCKED", "main_BB5"])
    );
    assert_eq!(net.inputs("std_sync_Condvar_wait_0_UNWIND"), set(&["main_BB4"]));
    assert_eq!(net.outputs("std_sync_Condvar_wait_0_UNWIND"), set(&["main_BB6"]));
    assert!(net.is_well_formed());
    // Nobody notifies: the wait never ends.
    let (_, fired) = net.explore();
    assert!(fired.contains("std_sync_Condvar_wait_0_START"));
    assert!(!fired.contains("std_sync_Condvar_wait_0_END"));
    assert!(!net.can_mark("main_BB5"));
}

#[test]
fn waiting_without_a_guard_is_a_defect() {
    let mut program = waiting_program();
    let body = program.functions[0].body.as_mut().unwrap();
    body.basic_blocks[4].terminator = call(
        5,
        vec![Operand::Move(place(6, CONDVAR_REF)), Operand::Move(place(1, MUTEX))],
        place(7, LOCK_RESULT),
        Some(5),
        None,
    );
    assert_eq!(translate(&program).err(), Some(internal(InternalDefect::LockGuardExpected)));

    let mut program = waiting_program();
    let body = program.functions[0].body.as_mut().unwrap();
    body.basic_blocks[4].statements.clear();
    assert_eq!(translate(&program).err(), Some(internal(InternalDefect::CondvarExpected)));
}

/// `main` spawns a thread that runs the given blocks and joins it at once.
fn spawning_program(thread: Vec<BasicBlockData>) -> Program {
    let closure = Place {
        local: 2,
        projection: vec![],
        ty: Ty { name: "[closure@main.rs:2:19: 2:21]".to_string(), kind: TyKind::Closure(3) },
    };
    Program {
        functions: vec![
            with_body(
                "main",
                4,
                vec![
                    block(
                        vec![Statement::Assign(closure.clone(), Rvalue::Aggregate(vec![]))],
                        call(1, vec![Operand::Move(closure)], place(1, JOIN_HANDLE), Some(1), None),
                    ),
                    block(
                        vec![],
                        call(
                            2,
                            vec![Operand::Move(place(1, JOIN_HANDLE))],
                            place(3, "std::thread::Result<()>"),
                            Some(2),
                            None,
                        ),
                    ),
                    block(vec![], TerminatorKind::Return),
                ],
            ),
            foreign("std::thread::spawn"),
            foreign("std::thread::JoinHandle::<T>::join"),
            with_body("main::{closure#0}", 2, thread),
        ],
        entry: 0,
    }
}

#[test]
fn joining_a_thread_that_ends() {
    let net = translated(&spawning_program(vec![block(vec![], TerminatorKind::Return)]));
    assert_eq!(net.inputs("std_thread_spawn_0"), set(&["PROGRAM_START"]));
    assert_eq!(net.outputs("std_thread_spawn_0"), set(&["THREAD_0_START", "main_BB1"]));
    assert_eq!(net.inputs("main_closure_0_0_RETURN"), set(&["THREAD_0_START"]));
    assert_eq!(net.outputs("main_closure_0_0_RETURN"), set(&["THREAD_0_END"]));
    assert_eq!(
        net.inputs("std_thread_JoinHandle_T_join_0"),
        set(&["THREAD_0_END", "main_BB1"])
    );
    assert_eq!(net.outputs("std_thread_JoinHandle_T_join_0"), set(&["main_BB2"]));
    assert!(net.is_well_formed());
    assert!(net.can_mark("PROGRAM_END"));
}

#[test]
fn joining_a_thread_that_never_ends() {
    let net =
        translated(&spawning_program(vec![block(vec![], TerminatorKind::Goto { target: 0 })]));
    assert_eq!(
        net.inputs("std_thread_JoinHandle_T_join_0"),
        set(&["THREAD_0_END", "main_BB1"])
    );
    let (markings, fired) = net.explore();
    assert!(fired.contains("std_thread_spawn_0"));
    assert!(fired.contains("main_closure_0_0_BB0_GOTO"));
    // The join is never enabled, and the program never ends.
    assert!(!fired.contains("std_thread_JoinHandle_T_join_0"));
    for marking in &markings {
        assert_eq!(marking["THREAD_0_END"], 0);
        assert_eq!(marking["PROGRAM_END"], 0);
    }
}

#[test]
fn a_panic_in_a_thread_ends_the_program() {
    let net = translated(&spawning_program(vec![block(vec![], TerminatorKind::Resume)]));
    assert_eq!(net.inputs("main_closure_0_0_BB0_UNWIND"), set(&["THREAD_0_START"]));
    assert_eq!(net.outputs("main_closure_0_0_BB0_UNWIND"), set(&["PROGRAM_PANIC"]));
}

#[test]
fn joining_what_is_no_join_handle_is_a_defect() {
    let mut program = spawning_program(vec![block(vec![], TerminatorKind::Return)]);
    let body = program.functions[0].body.as_mut().unwrap();
    body.basic_blocks[1].terminator = call(
        2,
        vec![Operand::Move(place(3, JOIN_HANDLE))],
        place(3, "std::thread::Result<()>"),
        Some(2),
        None,
    );
    assert_eq!(translate(&program).err(), Some(internal(InternalDefect::JoinHandleExpected)));
}

/// A thread locks the mutex that `main` hands to it in a tuple inside its closure.
#[test]
fn a_mutex_reaches_a_thread_through_its_closure() {
    let closure = Place {
        local: 2,
        projection: vec![],
        ty: Ty {
            name: "[closure@main.rs:4:19: 4:26] holding std::sync::Mutex<i32>".to_string(),
            kind: TyKind::Closure(4),
        },
    };
    let captured = Place {
        local: 1,
        projection: vec![ProjectionElem::Deref, ProjectionElem::Field(1)],
        ty: ty(MUTEX_REF),
    };
    let program = Program {
        functions: vec![
            with_body(
                "main",
                4,
                vec![
                    block(vec![], call(1, vec![constant()], place(1, MUTEX), Some(1), None)),
                    block(
                        vec![Statement::Assign(
                            closure.clone(),
                            Rvalue::Aggregate(vec![constant(), Operand::Move(place(1, MUTEX))]),
                        )],
                        call(2, vec![Operand::Move(closure)], place(3, JOIN_HANDLE), Some(2), None),
                    ),
                    block(vec![], TerminatorKind::Return),
                ],
            ),
            foreign("std::sync::Mutex::<T>::new"),
            foreign("std::thread::spawn"),
            foreign("std::sync::Mutex::<T>::lock"),
            with_body(
                "main::{closure#0}",
                4,
                vec![
                    block(
                        vec![Statement::Assign(
                            place(2, MUTEX_REF),
                            Rvalue::Use(Operand::Copy(captured)),
                        )],
                        call(
                            3,
                            vec![Operand::Move(place(2, MUTEX_REF))],
                            place(3, LOCK_RESULT),
                            Some(1),
                            None,
                        ),
                    ),
                    block(vec![], TerminatorKind::Return),
                ],
            ),
        ],
        entry: 0,
    };
    let net = translated(&program);
    assert_eq!(
        net.inputs("std_sync_Mutex_T_lock_0"),
        set(&["MUTEX_0_UNLOCKED", "THREAD_0_START"])
    );
    assert_eq!(
        net.outputs("std_sync_Mutex_T_lock_0"),
        set(&["MUTEX_0_LOCKED", "main_closure_0_0_BB1"])
    );
}

#[test]
fn a_path_without_a_field_is_a_defect() {
    let mut program = mutex_program(None);
    let body = program.functions[0].body.as_mut().unwrap();
    let dereferenced = Place {
        local: 1,
        projection: vec![ProjectionElem::Deref],
        ty: ty(MUTEX),
    };
    body.basic_blocks[1].statements = vec![reference(place(3, MUTEX_REF), dereferenced)];
    assert_eq!(translate(&program).err(), Some(internal(InternalDefect::FieldExpected)));
}

/// A function gets a mutex as its argument, locks it and returns the guard.
#[test]
fn sync_variables_cross_calls() {
    let program = Program {
        functions: vec![
            with_body(
                "main",
                4,
                vec![
                    block(vec![], call(1, vec![constant()], place(1, MUTEX), Some(1), None)),
                    block(
                        vec![reference(place(2, MUTEX_REF), place(1, MUTEX))],
                        call(
                            3,
                            vec![Operand::Move(place(2, MUTEX_REF))],
                            place(3, GUARD),
                            Some(2),
                            None,
                        ),
                    ),
                    block(
                        vec![],
                        TerminatorKind::Drop { place: place(3, GUARD), target: 3, unwind: None },
                    ),
                    block(vec![], TerminatorKind::Return),
                ],
            ),
            foreign("std::sync::Mutex::<T>::new"),
            foreign("std::sync::Mutex::<T>::lock"),
            with_body(
                "lock_it",
                2,
                vec![
                    block(
                        vec![],
                        call(
                            2,
                            vec![Operand::Move(place(1, MUTEX_REF))],
                            place(0, GUARD),
                            Some(1),
                            None,
                        ),
                    ),
                    block(vec![], TerminatorKind::Return),
                ],
            ),
        ],
        entry: 0,
    };
    let net = translated(&program);
    assert_eq!(
        net.inputs("std_sync_Mutex_T_lock_0"),
        set(&["MUTEX_0_UNLOCKED", "main_BB1"])
    );
    assert_eq!(net.outputs("lock_it_0_RETURN"), set(&["main_BB2"]));
    // The guard that the function returned is dropped in `main`.
    assert_eq!(net.inputs("main_BB2_DROP"), set(&["MUTEX_0_LOCKED", "main_BB2"]));
    assert_eq!(net.outputs("main_BB2_DROP"), set(&["MUTEX_0_UNLOCKED", "main_BB3"]));
    assert!(net.can_mark("PROGRAM_END"));
}

#[test]
fn linking_functions_are_numbered_by_kind() {
    let arc = "std::sync::Arc<std::sync::Mutex<i32>>";
    let program = Program {
        functions: vec![
            with_body(
                "main",
                6,
                vec![
                    block(vec![], call(1, vec![constant()], place(1, MUTEX), Some(1), None)),
                    block(
                        vec![],
                        call(2, vec![Operand::Move(place(1, MUTEX))], place(2, arc), Some(2), None),
                    ),
                    block(
                        vec![reference(place(3, "&std::sync::Arc<std::sync::Mutex<i32>>"), place(2, arc))],
                        call(
                            3,
                            vec![Operand::Move(place(3, "&std::sync::Arc<std::sync::Mutex<i32>>"))],
                            place(4, arc),
                            Some(3),
                            None,
                        ),
                    ),
                    block(
                        vec![reference(place(3, "&std::sync::Arc<std::sync::Mutex<i32>>"), place(4, arc))],
                        call(
                            4,
                            vec![Operand::Move(place(3, "&std::sync::Arc<std::sync::Mutex<i32>>"))],
                            place(5, MUTEX_REF),
                            Some(4),
                            None,
                        ),
                    ),
                    block(
                        vec![],
                        call(
                            5,
                            vec![Operand::Move(place(5, MUTEX_REF))],
                            place(0, LOCK_RESULT),
                            Some(5),
                            None,
                        ),
                    ),
                    block(vec![], TerminatorKind::Return),
                ],
            ),
            foreign("std::sync::Mutex::<T>::new"),
            foreign("std::sync::Arc::<T>::new"),
            foreign("std::clone::Clone::clone"),
            foreign("std::ops::Deref::deref"),
            foreign("std::sync::Mutex::<T>::lock"),
        ],
        entry: 0,
    };
    let net = translated(&program);
    assert_eq!(net.inputs("std_sync_Arc_T_new_0"), set(&["main_BB1"]));
    assert_eq!(net.inputs("std_clone_Clone_clone_0"), set(&["main_BB2"]));
    assert_eq!(net.inputs("std_ops_Deref_deref_0"), set(&["main_BB3"]));
    // The mutex was followed through `Arc::new`, `clone` and `deref`.
    assert_eq!(
        net.inputs("std_sync_Mutex_T_lock_0"),
        set(&["MUTEX_0_UNLOCKED", "main_BB4"])
    );
}
