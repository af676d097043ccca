use granite2::error_handling::{InternalDefect, TranslationError};
use granite2::petri_net_interface::{add_arc_place_transition, add_arc_transition_place, Net};
use netcrab::petri_net::PetriNet;

fn internal(defect: InternalDefect) -> TranslationError {
    TranslationError::Internal(defect)
}

fn arcs(net: &PetriNet) -> Vec<String> {
    let mut arcs: Vec<String> = net
        .find_arcs_place_transition()
        .iter()
        .map(|(place, transition)| format!("{place} -> {transition}"))
        .collect();
    arcs.extend(
        net.find_arcs_transition_place()
            .iter()
            .map(|(transition, place)| format!("{transition} -> {place}")),
    );
    arcs.sort();
    arcs
}

#[test]
fn a_new_net_is_empty() {
    let net = Net::new().into_petri_net();
    assert_eq!(net.get_cardinality_places(), 0);
    assert_eq!(net.get_cardinality_transitions(), 0);
}

#[test]
fn places_and_transitions_get_their_labels() {
    let mut net = Net::new();
    let place = net.add_place("P").unwrap();
    let transition = net.add_transition("T").unwrap();
    assert_eq!(place.label(), "P");
    assert_eq!(transition.label(), "T");
    assert!(net.is_label_in_use("P"));
    assert!(net.is_label_in_use("T"));
    assert!(!net.is_label_in_use("Q"));
    let net = net.into_petri_net();
    assert!(net.check_place_ref(&place));
    assert!(net.check_transition_ref(&transition));
    assert_eq!(net.marking(&place), Ok(0));
}

#[test]
fn a_label_is_used_once() {
    let mut net = Net::new();
    net.add_place("X").unwrap();
    net.add_transition("Y").unwrap();
    assert_eq!(net.add_place("X").err(), Some(internal(InternalDefect::LabelInUse)));
    assert_eq!(net.add_transition("X").err(), Some(internal(InternalDefect::LabelInUse)));
    assert_eq!(net.add_place("Y").err(), Some(internal(InternalDefect::LabelInUse)));
    assert_eq!(net.add_transition("Y").err(), Some(internal(InternalDefect::LabelInUse)));
    let net = net.into_petri_net();
    assert_eq!(net.get_cardinality_places(), 1);
    assert_eq!(net.get_cardinality_transitions(), 1);
}

#[test]
fn tokens_add_up() {
    let mut net = Net::new();
    let place = net.add_place("P").unwrap();
    net.add_token(&place, 2).unwrap();
    net.add_token(&place, 3).unwrap();
    assert_eq!(net.petri_net().marking(&place), Ok(5));
    assert_eq!(
        net.add_token(&place, usize::MAX),
        Err(internal(InternalDefect::TokenOverflow))
    );
    assert_eq!(net.petri_net().marking(&place), Ok(5));
}

#[test]
fn an_arc_is_added_once() {
    let mut net = Net::new();
    let place = net.add_place("P").unwrap();
    let transition = net.add_transition("T").unwrap();
    net.add_arc_place_transition(&place, &transition).unwrap();
    net.add_arc_transition_place(&transition, &place).unwrap();
    assert_eq!(
        net.add_arc_place_transition(&place, &transition),
        Err(internal(InternalDefect::DuplicateArc))
    );
    assert_eq!(
        net.add_arc_transition_place(&transition, &place),
        Err(internal(InternalDefect::DuplicateArc))
    );
    assert_eq!(arcs(net.petri_net()), vec!["P -> T", "T -> P"]);
}

#[test]
fn a_step_joins_two_places() {
    let mut net = Net::new();
    let from = net.add_place("A").unwrap();
    let to = net.add_place("B").unwrap();
    let transition = net.add_step(&from, "A_TO_B", &to).unwrap();
    assert_eq!(transition.label(), "A_TO_B");
    assert_eq!(arcs(net.petri_net()), vec!["A -> A_TO_B", "A_TO_B -> B"]);
    assert_eq!(
        net.add_step(&from, "A_TO_B", &to).err(),
        Some(internal(InternalDefect::LabelInUse))
    );
}

#[test]
fn arcs_on_the_net_itself() {
    let mut built = Net::new();
    let place = built.add_place("P").unwrap();
    let transition = built.add_transition("T").unwrap();
    let mut net = built.into_petri_net();
    add_arc_place_transition(&mut net, &place, &transition);
    add_arc_transition_place(&mut net, &transition, &place);
    assert_eq!(arcs(&net), vec!["P -> T", "T -> P"]);
}
