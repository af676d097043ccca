use granite2::export::{net_to_string, Format};
use granite2::petri_net_interface::Net;
use granite2::program::{BasicBlockData, Body, Function, Program, TerminatorKind};
use granite2::translator::translate;

fn looping_program() -> Program {
    Program {
        functions: vec![Function {
            name: "main".to_string(),
            body: Some(Body {
                local_count: 1,
                basic_blocks: vec![
                    BasicBlockData {
                        statements: vec![],
                        terminator: TerminatorKind::SwitchInt { targets: vec![0, 1] },
                    },
                    BasicBlockData { statements: vec![], terminator: TerminatorKind::Return },
                ],
            }),
        }],
        entry: 0,
    }
}

#[test]
fn the_text_is_that_of_the_writer() {
    let net = translate(&looping_program()).unwrap();
    assert_eq!(net_to_string(&net, Format::Dot), net.to_dot_string().ok());
    assert_eq!(net_to_string(&net, Format::Lola), net.to_lola_string().ok());
    assert_eq!(net_to_string(&net, Format::Pnml), net.to_pnml_string().ok());
}

#[test]
fn the_text_of_a_small_net() {
    let mut net = Net::new();
    let place = net.add_place("P").unwrap();
    let transition = net.add_transition("T").unwrap();
    net.add_token(&place, 2).unwrap();
    net.add_arc_place_transition(&place, &transition).unwrap();
    let dot = net_to_string(net.petri_net(), Format::Dot).unwrap();
    assert_eq!(
        dot,
        "digraph petrinet {\n    P [shape=\"circle\" xlabel=\"P\" label=\"••\"];\n    T [shape=\"box\" xlabel=\"\" label=\"T\"];\n    P -> T;\n}\n"
    );
    let lola = net_to_string(net.petri_net(), Format::Lola).unwrap();
    assert_eq!(
        lola,
        "PLACE\n    P;\n\nMARKING\n    P : 2;\n\nTRANSITION T\n  CONSUME\n    P : 1;\n  PRODUCE;\n"
    );
    let pnml = net_to_string(net.petri_net(), Format::Pnml).unwrap();
    assert!(pnml.contains("<place id=\"P\">"));
    assert!(pnml.contains("<transition id=\"T\">"));
    assert!(pnml.contains("<arc source=\"P\" target=\"T\" id=\"(P, T)\">"));
}

#[test]
fn there_is_always_a_text() {
    let empty = Net::new();
    for format in [Format::Dot, Format::Lola, Format::Pnml] {
        assert!(net_to_string(empty.petri_net(), format).is_some());
    }
    assert_eq!(net_to_string(empty.petri_net(), Format::Lola), Some(String::new()));
    // Labels with characters that the formats treat specially are written too.
    let mut net = Net::new();
    let place = net.add_place("a<b>&\"c\"\n").unwrap();
    let transition = net.add_transition("").unwrap();
    net.add_arc_transition_place(&transition, &place).unwrap();
    for format in [Format::Dot, Format::Lola, Format::Pnml] {
        assert!(net_to_string(net.petri_net(), format).is_some());
    }
}

#[test]
fn two_translations_have_the_same_text() {
    let program = looping_program();
    for format in [Format::Dot, Format::Lola, Format::Pnml] {
        let first = translate(&program).unwrap();
        let second = translate(&program).unwrap();
        let text = net_to_string(&first, format);
        assert!(text.is_some());
        assert_eq!(text, net_to_string(&second, format));
    }
}
