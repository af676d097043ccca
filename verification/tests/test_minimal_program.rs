use granite2::program::{BasicBlockData, Body, Function, Program, TerminatorKind};
use granite2::translator::translate;
use netcrab::petri_net::PetriNet;

const MINIMAL_PROGRAM_DOT_OUTPUT: &str = r#"digraph petrinet {
    PROGRAM_END [shape="circle" xlabel="PROGRAM_END" label=""];
    PROGRAM_PANIC [shape="circle" xlabel="PROGRAM_PANIC" label=""];
    PROGRAM_START [shape="circle" xlabel="PROGRAM_START" label="•"];
    main_RETURN [shape="box" xlabel="" label="main_RETURN"];
    PROGRAM_START -> main_RETURN;
    main_RETURN -> PROGRAM_END;
}
"#;

const MINIMAL_PROGRAM_LOLA_OUTPUT: &str = r#"PLACE
    PROGRAM_END,
    PROGRAM_PANIC,
    PROGRAM_START;

MARKING
    PROGRAM_START : 1;

TRANSITION main_RETURN
  CONSUME
    PROGRAM_START : 1;
  PRODUCE
    PROGRAM_END : 1;
"#;

const MINIMAL_PROGRAM_PNML_OUTPUT: &str = r#"<?xml version="1.0" encoding="utf-8"?>
<pnml xmlns="http://www.pnml.org/version-2009/grammar/pnml">
  <net id="net0" type="http://www.pnml.org/version-2009/grammar/ptnet">
    <page id="page0">
      <place id="PROGRAM_END">
        <name>
          <text>PROGRAM_END</text>
        </name>
      </place>
      <place id="PROGRAM_PANIC">
        <name>
          <text>PROGRAM_PANIC</text>
        </name>
      </place>
      <place id="PROGRAM_START">
        <name>
          <text>PROGRAM_START</text>
        </name>
        <initialMarking>
          <text>1</text>
        </initialMarking>
      </place>
      <transition id="main_RETURN">
        <name>
          <text>main_RETURN</text>
        </name>
      </transition>
      <arc source="PROGRAM_START" target="main_RETURN" id="(PROGRAM_START, main_RETURN)">
        <name>
          <text>(PROGRAM_START, main_RETURN)</text>
        </name>
        <inscription>
          <text>1</text>
        </inscription>
      </arc>
      <arc source="main_RETURN" target="PROGRAM_END" id="(main_RETURN, PROGRAM_END)">
        <name>
          <text>(main_RETURN, PROGRAM_END)</text>
        </name>
        <inscription>
          <text>1</text>
        </inscription>
      </arc>
    </page>
  </net>
</pnml>"#;

/// `fn main() {}`: one basic block that returns.
fn minimal_program() -> Program {
    Program {
        functions: vec![Function {
            name: "main".to_string(),
            body: Some(Body {
                local_count: 1,
                basic_blocks: vec![BasicBlockData {
                    statements: vec![],
                    terminator: TerminatorKind::Return,
                }],
            }),
        }],
        entry: 0,
    }
}

/// What `netcrab` 1.0.2 writes for the minimal program in the format of
/// LoLA: it lists every place under MARKING, also the places without tokens.
const MINIMAL_PROGRAM_LOLA_OUTPUT_OF_NETCRAB: &str = r#"PLACE
    PROGRAM_END,
    PROGRAM_PANIC,
    PROGRAM_START;

MARKING
    PROGRAM_END : 0,
    PROGRAM_PANIC : 0,
    PROGRAM_START : 1;

TRANSITION main_RETURN
  CONSUME
    PROGRAM_START : 1;
  PRODUCE
    PROGRAM_END : 1;
"#;

/// The net as a place/transition enumeration that lists the marked places
/// only, which is the form of the expected text.
fn lola_text(net: &PetriNet) -> String {
    let mut text = String::new();
    let places: Vec<String> = net.places_iter().map(|(place, _)| place.to_string()).collect();
    if !places.is_empty() {
        text.push_str("PLACE\n");
        text.push_str(&format!("    {};\n\n", places.join(",\n    ")));
    }
    let marked: Vec<String> = net
        .places_iter()
        .filter(|(_, place)| !place.is_empty())
        .map(|(place_ref, place)| format!("{} : {}", place_ref, place.marking()))
        .collect();
    if !marked.is_empty() {
        text.push_str("MARKING\n");
        text.push_str(&format!("    {};\n\n", marked.join(",\n    ")));
    }
    for (transition_ref, transition) in net.transitions_iter() {
        text.push_str(&format!("TRANSITION {transition_ref}\n"));
        for (header, set) in [
            ("CONSUME", transition.get_preset()),
            ("PRODUCE", transition.get_postset()),
        ] {
            if set.is_empty() {
                text.push_str(&format!("  {header};\n"));
            } else {
                let arcs: Vec<String> = set.iter().map(|place| format!("{place} : 1")).collect();
                text.push_str(&format!("  {header}\n    {};\n", arcs.join(",\n    ")));
            }
        }
    }
    text
}

/// The net in the interchange format, with the name of the encoding
/// written in lower case as in the expected text.
fn pnml_text(net: &PetriNet) -> String {
    net.to_pnml_string()
        .unwrap()
        .replacen("encoding=\"UTF-8\"", "encoding=\"utf-8\"", 1)
}

#[test]
fn minimal_program_generates_correct_dot_output_file() {
    let net = translate(&minimal_program()).expect("the minimal program is translated");
    assert_eq!(net.to_dot_string().unwrap(), MINIMAL_PROGRAM_DOT_OUTPUT);
}

#[test]
fn minimal_program_generates_correct_lola_output_file() {
    let net = translate(&minimal_program()).expect("the minimal program is translated");
    // The text that is written with this version of `netcrab` differs
    // from the expected text in the places without tokens only.
    assert_eq!(net.to_lola_string().unwrap(), MINIMAL_PROGRAM_LOLA_OUTPUT_OF_NETCRAB);
    assert_eq!(lola_text(&net), MINIMAL_PROGRAM_LOLA_OUTPUT);
}

#[test]
fn minimal_program_generates_correct_pnml_output_file() {
    let net = translate(&minimal_program()).expect("the minimal program is translated");
    // The text that is written with this version of `netcrab` differs
    // from the expected text in the case of the name of the encoding only.
    assert_eq!(
        net.to_pnml_string().unwrap(),
        MINIMAL_PROGRAM_PNML_OUTPUT.replacen("encoding=\"utf-8\"", "encoding=\"UTF-8\"", 1)
    );
    assert!(net.to_pnml_string().unwrap().starts_with("<?xml version=\"1.0\" encoding=\"UTF-8\"?>\n"));
    assert_eq!(pnml_text(&net), MINIMAL_PROGRAM_PNML_OUTPUT);
}
