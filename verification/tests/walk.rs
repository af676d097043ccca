use granite2::error_handling::{InternalDefect, TranslationError, UnsupportedConstruct};
use granite2::petri_net_interface::Net;
use granite2::program::{
    BasicBlockData, Body, Function, Operand, Place, Program, Rvalue, Statement, TerminatorKind,
    Ty, TyKind,
};
use granite2::translator::mir_function::memory::{Memory, Value};
use granite2::translator::mir_function::MirFunction;
use granite2::translator::sync::MutexRef;
use granite2::translator::Translator;
use netcrab::petri_net::PetriNet;

fn internal(defect: InternalDefect) -> TranslationError {
    TranslationError::Internal(defect)
}

fn place(local: usize, name: &str) -> Place {
    Place { local, projection: vec![], ty: Ty { name: name.to_string(), kind: TyKind::Other } }
}

fn arcs(net: &PetriNet) -> Vec<String> {
    let mut arcs: Vec<String> = net
        .find_arcs_place_transition()
        .iter()
        .map(|(place, transition)| format!("{place} -> {transition}"))
        .collect();
    arcs.extend(
        net.find_arcs_transition_place()
            .iter()
            .map(|(transition, place)| format!("{transition} -> {place}")),
    );
    arcs.sort();
    arcs
}

/// A call of the function `f` with three blocks, between places of its own.
fn function_in(net: &mut Net) -> MirFunction {
    let start = net.add_place("START").unwrap();
    let end = net.add_place("END").unwrap();
    let unwind = net.add_place("UNWIND").unwrap();
    MirFunction::new(7, "f".to_string(), start, end, unwind, 3, Memory::new(2))
}

#[test]
fn a_new_function_call_has_no_block_places() {
    let mut net = Net::new();
    let function = function_in(&mut net);
    assert_eq!(function.def_id, 7);
    assert_eq!(function.name, "f");
    assert_eq!(function.blocks.len(), 3);
    assert!(function.blocks.iter().all(|block| block.is_none()));
    assert_eq!(function.active_block, 0);
    assert!(function.return_transition.is_none());
    assert_eq!(function.memory.local_count(), 2);
}

#[test]
fn the_first_block_starts_where_the_call_starts() {
    let mut net = Net::new();
    let mut function = function_in(&mut net);
    function.activate_block(0, &mut net).unwrap();
    assert_eq!(function.active_place().label(), "START");
    assert_eq!(net.petri_net().get_cardinality_places(), 3);
    function.activate_block(2, &mut net).unwrap();
    assert_eq!(function.active_block, 2);
    assert_eq!(function.active_place().label(), "f_BB2");
    assert_eq!(net.petri_net().get_cardinality_places(), 4);
}

#[test]
fn a_block_gets_its_place_once() {
    let mut net = Net::new();
    let mut function = function_in(&mut net);
    let first = function.block_place(1, &mut net).unwrap();
    let second = function.block_place(1, &mut net).unwrap();
    assert_eq!(first.label(), "f_BB1");
    assert!(first == second);
    assert_eq!(net.petri_net().get_cardinality_places(), 4);
    // A block that is activated after it was a target keeps its place.
    function.activate_block(1, &mut net).unwrap();
    assert!(*function.active_place() == first);
    assert_eq!(
        function.block_place(3, &mut net).err(),
        Some(internal(InternalDefect::OutOfRange))
    );
    assert_eq!(function.activate_block(9, &mut net), Err(internal(InternalDefect::OutOfRange)));
}

#[test]
fn terminators_of_a_function_call() {
    let mut net = Net::new();
    let program_end = net.add_place("PROGRAM_END").unwrap();
    let mut function = function_in(&mut net);
    function.activate_block(0, &mut net).unwrap();
    function.goto(1, &mut net).unwrap();
    function.activate_block(1, &mut net).unwrap();
    function.switch_int(&vec![2, 0], &mut net).unwrap();
    function.unwind(&mut net).unwrap();
    function.unreachable(&program_end, &mut net).unwrap();
    function.return_statement(&mut net).unwrap();
    function.activate_block(2, &mut net).unwrap();
    function.return_statement(&mut net).unwrap();
    let drop_transition = function.drop_value(0, Some(1), &mut net).unwrap();
    assert_eq!(drop_transition.label(), "f_BB2_DROP");
    function.assert_condition(1, None, &mut net).unwrap();
    assert_eq!(
        arcs(net.petri_net()),
        vec![
            "START -> f_BB0_GOTO",
            "f_BB0_GOTO -> f_BB1",
            "f_BB1 -> f_BB1_SWITCH_0",
            "f_BB1 -> f_BB1_SWITCH_1",
            "f_BB1 -> f_BB1_UNREACHABLE",
            "f_BB1 -> f_BB1_UNWIND",
            "f_BB1 -> f_RETURN",
            "f_BB1_SWITCH_0 -> f_BB2",
            "f_BB1_SWITCH_1 -> START",
            "f_BB1_UNREACHABLE -> PROGRAM_END",
            "f_BB1_UNWIND -> UNWIND",
            "f_BB2 -> f_BB2_ASSERT",
            "f_BB2 -> f_BB2_DROP",
            "f_BB2 -> f_BB2_DROP_UNWIND",
            "f_BB2 -> f_RETURN",
            "f_BB2_ASSERT -> f_BB1",
            "f_BB2_DROP -> START",
            "f_BB2_DROP_UNWIND -> f_BB1",
            "f_RETURN -> END",
        ]
    );
    // A second terminator of the same kind in one block is a defect.
    assert_eq!(
        function.assert_condition(1, None, &mut net),
        Err(internal(InternalDefect::LabelInUse))
    );
    assert_eq!(function.goto(5, &mut net), Err(internal(InternalDefect::OutOfRange)));
    assert_eq!(
        function.switch_int(&vec![1, 8], &mut net),
        Err(internal(InternalDefect::OutOfRange))
    );
}

#[test]
fn the_places_of_a_call_site() {
    let mut net = Net::new();
    let mut function = function_in(&mut net);
    function.activate_block(1, &mut net).unwrap();
    let places = function.function_call_places(2, Some(0), &mut net).unwrap();
    assert_eq!(places.start_place.label(), "f_BB1");
    assert_eq!(places.end_place.label(), "f_BB2");
    assert_eq!(places.cleanup_place.as_ref().unwrap().label(), "START");
    let places = function.function_call_places(2, None, &mut net).unwrap();
    assert!(places.cleanup_place.is_none());
    assert_eq!(
        function.function_call_places(2, Some(3), &mut net).err(),
        Some(internal(InternalDefect::OutOfRange))
    );
}

#[test]
fn assignments_and_statements() {
    let mut memory = Memory::new(4);
    memory.link_place_to_mutex(1, MutexRef(0)).unwrap();
    let mutex = place(1, "std::sync::Mutex<i32>");
    let reference = place(2, "&std::sync::Mutex<i32>");

    Translator::visit_assign(&reference, &Rvalue::Ref(mutex.clone()), &mut memory).unwrap();
    assert_eq!(memory.get(2), Ok(Value::Mutex(MutexRef(0))));
    Translator::visit_assign(
        &place(3, "&std::sync::Mutex<i32>"),
        &Rvalue::Use(Operand::Copy(reference.clone())),
        &mut memory,
    )
    .unwrap();
    assert_eq!(memory.get(3), Ok(Value::Mutex(MutexRef(0))));
    Translator::visit_assign(
        &place(0, "(std::sync::Mutex<i32>,)"),
        &Rvalue::Aggregate(vec![Operand::Move(mutex.clone())]),
        &mut memory,
    )
    .unwrap();
    assert_eq!(memory.get(0), Ok(Value::Aggregate(0)));
    // A constant and any other right-hand side leave the memory as it is.
    Translator::visit_assign(
        &reference,
        &Rvalue::Use(Operand::Constant(Ty { name: "i32".to_string(), kind: TyKind::Other })),
        &mut memory,
    )
    .unwrap();
    Translator::visit_assign(&reference, &Rvalue::Other, &mut memory).unwrap();
    assert_eq!(memory.get(2), Ok(Value::Mutex(MutexRef(0))));

    Translator::visit_statement(&Statement::Other, &mut memory).unwrap();
    let statements = vec![
        Statement::Assign(place(2, "&std::sync::Mutex<i32>"), Rvalue::Ref(place(9, MUTEX))),
        Statement::Assign(place(3, "&std::sync::Mutex<i32>"), Rvalue::Ref(place(0, "i32"))),
    ];
    // The first statement names a local variable that does not exist.
    assert_eq!(
        Translator::visit_statements(&statements, &mut memory),
        Err(internal(InternalDefect::OutOfRange))
    );
    assert_eq!(memory.get(3), Ok(Value::Mutex(MutexRef(0))));
    Translator::visit_statements(&statements[1..].to_vec(), &mut memory).unwrap();
    assert_eq!(memory.get(3), Ok(Value::Mutex(MutexRef(0))));
}

const MUTEX: &str = "std::sync::Mutex<i32>";

#[test]
fn the_translator_walks_one_block_at_a_time() {
    let program = Program {
        functions: vec![Function {
            name: "main".to_string(),
            body: Some(Body {
                local_count: 1,
                basic_blocks: vec![
                    BasicBlockData {
                        statements: vec![],
                        terminator: TerminatorKind::Goto { target: 1 },
                    },
                    BasicBlockData { statements: vec![], terminator: TerminatorKind::Return },
                ],
            }),
        }],
        entry: 0,
    };
    let body = program.functions[0].body.as_ref().unwrap();
    let mut translator = Translator::new();
    let mut function = MirFunction::new(
        0,
        "main".to_string(),
        translator.program_start.clone(),
        translator.program_end.clone(),
        translator.program_panic.clone(),
        2,
        Memory::new(1),
    );
    translator
        .visit_basic_block_data(&program, &mut function, 0, &body.basic_blocks[0], 4)
        .unwrap();
    assert_eq!(
        arcs(translator.net.petri_net()),
        vec!["PROGRAM_START -> main_BB0_GOTO", "main_BB0_GOTO -> main_BB1"]
    );
    function.activate_block(1, &mut translator.net).unwrap();
    translator
        .visit_terminator(&program, &mut function, &TerminatorKind::Return, 4)
        .unwrap();
    assert_eq!(
        translator.visit_terminator(&program, &mut function, &TerminatorKind::Yield, 4),
        Err(TranslationError::Unsupported(UnsupportedConstruct::Yield))
    );
    assert_eq!(
        arcs(&translator.get_net()),
        vec![
            "PROGRAM_START -> main_BB0_GOTO",
            "main_BB0_GOTO -> main_BB1",
            "main_BB1 -> main_RETURN",
            "main_RETURN -> PROGRAM_END",
        ]
    );
}

#[test]
fn running_the_translator() {
    let program = Program {
        functions: vec![Function {
            name: "main".to_string(),
            body: Some(Body {
                local_count: 1,
                basic_blocks: vec![BasicBlockData {
                    statements: vec![],
                    terminator: TerminatorKind::Unreachable,
                }],
            }),
        }],
        entry: 0,
    };
    let mut translator = Translator::new();
    translator.run(&program).unwrap();
    assert_eq!(
        arcs(&translator.get_net()),
        vec!["PROGRAM_START -> main_BB0_UNREACHABLE", "main_BB0_UNREACHABLE -> PROGRAM_END"]
    );
}
