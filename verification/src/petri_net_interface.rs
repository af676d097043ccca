//! The net under construction and the operations that extend it.
//!
//! The net itself is a `netcrab::petri_net::PetriNet`. What it holds is
//! described here by a mathematical model, and every operation states how it
//! changes that model.

use crate::error_handling::{InternalDefect, TranslationError};
use crate::net_model::{Label, NetModel};
pub use netcrab::petri_net::{PetriNet, PlaceRef, TransitionRef};
use vstd::prelude::*;
use vstd::string::*;

verus! {

#[verifier::external_type_specification]
#[verifier::external_body]
pub struct ExPetriNet(PetriNet);

#[verifier::external_type_specification]
#[verifier::external_body]
pub struct ExPlaceRef(PlaceRef);

#[verifier::external_type_specification]
#[verifier::external_body]
pub struct ExTransitionRef(TransitionRef);

/// What identifies a place or a transition inside a net: its label and the
/// unique number that it was given when it was added.
pub type RefKey = (Seq<char>, u128);

/// What identifies an arc: the source and the target.
pub type ArcKey = (RefKey, RefKey);

/// The label and the unique number that a reference to a place holds.
pub uninterp spec fn place_ref_key(place_ref: PlaceRef) -> (Seq<char>, u128);

/// The label and the unique number that a reference to a transition holds.
pub uninterp spec fn transition_ref_key(transition_ref: TransitionRef) -> (Seq<char>, u128);

/// The places of a net, each with the number of tokens on it.
pub uninterp spec fn net_places(net: PetriNet) -> Map<(Seq<char>, u128), nat>;

/// The transitions of a net.
pub uninterp spec fn net_transitions(net: PetriNet) -> Set<(Seq<char>, u128)>;

/// The arcs of a net that lead from a place to a transition.
pub uninterp spec fn net_inputs(net: PetriNet) -> Set<((Seq<char>, u128), (Seq<char>, u128))>;

/// The arcs of a net that lead from a transition to a place.
pub uninterp spec fn net_outputs(net: PetriNet) -> Set<((Seq<char>, u128), (Seq<char>, u128))>;

/// `PetriNet::new`: a net without places, transitions or arcs.
#[verifier::external_body]
fn net_new() -> (net: PetriNet)
    ensures
        net_places(net).dom() == Set::<RefKey>::empty(),
        net_transitions(net) == Set::<RefKey>::empty(),
        net_inputs(net) == Set::<ArcKey>::empty(),
        net_outputs(net) == Set::<ArcKey>::empty(),
{
    PetriNet::new()
}

/// `PetriNet::add_place`: adds a place without tokens and without arcs under
/// the given label and hands out the reference to it. The label must not be
/// that of a place of the net.
#[verifier::external_body]
fn net_add_place(net: &mut PetriNet, label: &str) -> (place_ref: PlaceRef)
    requires
        forall|k: RefKey| net_places(*old(net)).contains_key(k) ==> k.0 != label@,
    ensures
        place_ref_key(place_ref).0 == label@,
        net_places(*final(net)) == net_places(*old(net)).insert(place_ref_key(place_ref), 0),
        net_transitions(*final(net)) == net_transitions(*old(net)),
        net_inputs(*final(net)) == net_inputs(*old(net)),
        net_outputs(*final(net)) == net_outputs(*old(net)),
{
    net.add_place(label)
}

/// `PetriNet::add_transition`: adds a transition without arcs under the given
/// label and hands out the reference to it. The label must not be that of a
/// transition of the net.
#[verifier::external_body]
fn net_add_transition(net: &mut PetriNet, label: &str) -> (transition_ref: TransitionRef)
    requires
        forall|k: RefKey| net_transitions(*old(net)).contains(k) ==> k.0 != label@,
    ensures
        transition_ref_key(transition_ref).0 == label@,
        net_transitions(*final(net)) == net_transitions(*old(net)).insert(
            transition_ref_key(transition_ref),
        ),
        net_places(*final(net)) == net_places(*old(net)),
        net_inputs(*final(net)) == net_inputs(*old(net)),
        net_outputs(*final(net)) == net_outputs(*old(net)),
{
    net.add_transition(label)
}

/// `PetriNet::add_token`: puts more tokens on a place. It succeeds when the
/// place is in the net and the sum fits a `usize`; else the net stays as it was.
#[verifier::external_body]
fn net_add_token(net: &mut PetriNet, place_ref: &PlaceRef, tokens: usize) -> (added: bool)
    ensures
        added <==> net_places(*old(net)).contains_key(place_ref_key(*place_ref)) && net_places(
            *old(net),
        )[place_ref_key(*place_ref)] + tokens <= usize::MAX,
        added ==> net_places(*final(net)) == net_places(*old(net)).insert(
            place_ref_key(*place_ref),
            net_places(*old(net))[place_ref_key(*place_ref)] + tokens as nat,
        ),
        !added ==> net_places(*final(net)) == net_places(*old(net)),
        net_transitions(*final(net)) == net_transitions(*old(net)),
        net_inputs(*final(net)) == net_inputs(*old(net)),
        net_outputs(*final(net)) == net_outputs(*old(net)),
{
    net.add_token(place_ref, tokens).is_ok()
}

/// `PetriNet::add_arc_place_transition`: adds the arc from the place to the
/// transition. It succeeds when both are in the net and the arc is not; else
/// the net stays as it was.
#[verifier::external_body]
fn net_add_arc_place_transition(
    net: &mut PetriNet,
    place_ref: &PlaceRef,
    transition_ref: &TransitionRef,
) -> (added: bool)
    ensures
        added <==> net_places(*old(net)).contains_key(place_ref_key(*place_ref))
            && net_transitions(*old(net)).contains(transition_ref_key(*transition_ref))
            && !net_inputs(*old(net)).contains(
            (place_ref_key(*place_ref), transition_ref_key(*transition_ref)),
        ),
        added ==> net_inputs(*final(net)) == net_inputs(*old(net)).insert(
            (place_ref_key(*place_ref), transition_ref_key(*transition_ref)),
        ),
        !added ==> net_inputs(*final(net)) == net_inputs(*old(net)),
        net_places(*final(net)) == net_places(*old(net)),
        net_transitions(*final(net)) == net_transitions(*old(net)),
        net_outputs(*final(net)) == net_outputs(*old(net)),
{
    net.add_arc_place_transition(place_ref, transition_ref).is_ok()
}

/// `PetriNet::add_arc_transition_place`: adds the arc from the transition to
/// the place. It succeeds when both are in the net and the arc is not; else
/// the net stays as it was.
#[verifier::external_body]
fn net_add_arc_transition_place(
    net: &mut PetriNet,
    transition_ref: &TransitionRef,
    place_ref: &PlaceRef,
) -> (added: bool)
    ensures
        added <==> net_places(*old(net)).contains_key(place_ref_key(*place_ref))
            && net_transitions(*old(net)).contains(transition_ref_key(*transition_ref))
            && !net_outputs(*old(net)).contains(
            (transition_ref_key(*transition_ref), place_ref_key(*place_ref)),
        ),
        added ==> net_outputs(*final(net)) == net_outputs(*old(net)).insert(
            (transition_ref_key(*transition_ref), place_ref_key(*place_ref)),
        ),
        !added ==> net_outputs(*final(net)) == net_outputs(*old(net)),
        net_places(*final(net)) == net_places(*old(net)),
        net_transitions(*final(net)) == net_transitions(*old(net)),
        net_inputs(*final(net)) == net_inputs(*old(net)),
{
    net.add_arc_transition_place(transition_ref, place_ref).is_ok()
}

/// `PlaceRef::clone`: a second reference to the same place.
pub assume_specification[ <PlaceRef as Clone>::clone ](place_ref: &PlaceRef) -> (copy: PlaceRef)
    ensures
        place_ref_key(copy) == place_ref_key(*place_ref),
;

/// `TransitionRef::clone`: a second reference to the same transition.
pub assume_specification[ <TransitionRef as Clone>::clone ](transition_ref: &TransitionRef) -> (copy:
    TransitionRef)
    ensures
        transition_ref_key(copy) == transition_ref_key(*transition_ref),
;


/// The label of the place that a reference names.
pub open spec fn place_label(place_ref: PlaceRef) -> Label {
    place_ref_key(place_ref).0
}

/// The label of the transition that a reference names.
pub open spec fn transition_label(transition_ref: TransitionRef) -> Label {
    transition_ref_key(transition_ref).0
}

/// Whether the reference names a place of this net.
pub open spec fn has_place(net: PetriNet, place_ref: PlaceRef) -> bool {
    net_places(net).contains_key(place_ref_key(place_ref))
}

/// Whether the reference names a transition of this net.
pub open spec fn has_transition(net: PetriNet, transition_ref: TransitionRef) -> bool {
    net_transitions(net).contains(transition_ref_key(transition_ref))
}

/// Whether every place and transition of `before` is still in `after`.
pub open spec fn net_extends(after: PetriNet, before: PetriNet) -> bool {
    &&& forall|k: RefKey| #[trigger]
        net_places(before).contains_key(k) ==> net_places(after).contains_key(k)
    &&& forall|k: RefKey| #[trigger]
        net_transitions(before).contains(k) ==> net_transitions(after).contains(k)
}

/// The invariant of a net that is built through this module: no label is
/// used twice, and every arc joins a place and a transition of the net.
pub closed spec fn net_wf(net: PetriNet) -> bool {
    let places = net_places(net);
    let transitions = net_transitions(net);
    &&& forall|a: RefKey, b: RefKey|
        #![trigger places.contains_key(a), places.contains_key(b)]
        places.contains_key(a) && places.contains_key(b) && a.0 == b.0 ==> a == b
    &&& forall|a: RefKey, b: RefKey|
        #![trigger transitions.contains(a), transitions.contains(b)]
        transitions.contains(a) && transitions.contains(b) && a.0 == b.0 ==> a == b
    &&& forall|a: RefKey, b: RefKey|
        #![trigger places.contains_key(a), transitions.contains(b)]
        places.contains_key(a) && transitions.contains(b) ==> a.0 != b.0
    &&& forall|a: RefKey, b: RefKey| #[trigger]
        net_inputs(net).contains((a, b)) ==> places.contains_key(a) && transitions.contains(b)
    &&& forall|a: RefKey, b: RefKey| #[trigger]
        net_outputs(net).contains((a, b)) ==> transitions.contains(a) && places.contains_key(b)
}

/// What a net holds, by label.
pub closed spec fn net_view(net: PetriNet) -> NetModel {
    NetModel {
        places: Map::new(
            |l: Label| exists|u: u128| net_places(net).contains_key((l, u)),
            |l: Label| net_places(net)[(l, choose|u: u128| net_places(net).contains_key((l, u)))],
        ),
        transitions: Set::new(|l: Label| exists|u: u128| net_transitions(net).contains((l, u))),
        inputs: Set::new(
            |arc: (Label, Label)|
                exists|u: u128, v: u128| net_inputs(net).contains(((arc.0, u), (arc.1, v))),
        ),
        outputs: Set::new(
            |arc: (Label, Label)|
                exists|u: u128, v: u128| net_outputs(net).contains(((arc.0, u), (arc.1, v))),
        ),
        fed: Set::new(
            |t: Label| exists|place: RefKey, v: u128| net_inputs(net).contains((place, (t, v))),
        ),
        feeding: Set::new(
            |t: Label| exists|place: RefKey, v: u128| net_outputs(net).contains(((t, v), place)),
        ),
        error: None,
    }
}

/// A net is never handed out with a defect recorded.
pub proof fn lemma_net_view_is_ok(net: PetriNet)
    ensures
        net_view(net).is_ok(),
{
}

/// The places and transitions that references name are in the model under their labels.
pub proof fn lemma_refs_in_view(net: PetriNet)
    ensures
        forall|p: PlaceRef| #[trigger]
            has_place(net, p) ==> net_view(net).places.contains_key(place_label(p)),
        forall|t: TransitionRef| #[trigger]
            has_transition(net, t) ==> net_view(net).transitions.contains(transition_label(t)),
{
    assert forall|p: PlaceRef| #[trigger] has_place(net, p) implies net_view(
        net,
    ).places.contains_key(place_label(p)) by {
        let k = place_ref_key(p);
        assert(net_places(net).contains_key((k.0, k.1)));
    }
    assert forall|t: TransitionRef| #[trigger] has_transition(net, t) implies net_view(
        net,
    ).transitions.contains(transition_label(t)) by {
        let k = transition_ref_key(t);
        assert(net_transitions(net).contains((k.0, k.1)));
    }
}

proof fn lemma_place_marking(net: PetriNet, k: RefKey)
    requires
        net_wf(net),
        net_places(net).contains_key(k),
    ensures
        net_view(net).places.contains_key(k.0),
        net_view(net).places[k.0] == net_places(net)[k],
{
    assert(net_places(net).contains_key((k.0, k.1)));
    let u = choose|u: u128| net_places(net).contains_key((k.0, u));
    assert(net_places(net).contains_key((k.0, u)));
    assert((k.0, u) == k);
}

proof fn lemma_new_net(net: PetriNet)
    requires
        net_places(net).dom() == Set::<RefKey>::empty(),
        net_transitions(net) == Set::<RefKey>::empty(),
        net_inputs(net) == Set::<ArcKey>::empty(),
        net_outputs(net) == Set::<ArcKey>::empty(),
    ensures
        net_wf(net),
        net_view(net) == NetModel::empty(),
{
    let v = net_view(net);
    assert(v.places =~= Map::empty());
    assert(v.transitions =~= Set::empty());
    assert(v.inputs =~= Set::empty());
    assert(v.outputs =~= Set::empty());
    assert(v.fed =~= Set::empty());
    assert(v.feeding =~= Set::empty());
}

proof fn lemma_add_place(before: PetriNet, after: PetriNet, key: RefKey)
    requires
        net_wf(before),
        !net_view(before).has_label(key.0),
        net_places(after) == net_places(before).insert(key, 0),
        net_transitions(after) == net_transitions(before),
        net_inputs(after) == net_inputs(before),
        net_outputs(after) == net_outputs(before),
    ensures
        net_wf(after),
        net_view(after) == net_view(before).add_place(key.0),
{
    let old_v = net_view(before);
    let new_v = net_view(after);
    let expected = old_v.add_place(key.0);
    assert forall|k: RefKey| net_places(before).contains_key(k) implies k.0 != key.0 by {
        assert(net_places(before).contains_key((k.0, k.1)));
    }
    assert forall|k: RefKey| net_transitions(before).contains(k) implies k.0 != key.0 by {
        assert(net_transitions(before).contains((k.0, k.1)));
    }
    assert(net_places(after).contains_key(key));
    assert(net_wf(after));
    assert forall|l: Label| new_v.places.contains_key(l) == expected.places.contains_key(l) by {
        if l == key.0 {
            assert(net_places(after).contains_key((l, key.1)));
        } else if old_v.places.contains_key(l) {
            let u = choose|u: u128| net_places(before).contains_key((l, u));
            assert(net_places(after).contains_key((l, u)));
        } else if new_v.places.contains_key(l) {
            let u = choose|u: u128| net_places(after).contains_key((l, u));
            assert(net_places(before).contains_key((l, u)));
        }
    }
    assert forall|l: Label| new_v.places.contains_key(l) implies new_v.places[l]
        == expected.places[l] by {
        let u = choose|u: u128| net_places(after).contains_key((l, u));
        lemma_place_marking(after, (l, u));
        if l != key.0 {
            assert(net_places(before).contains_key((l, u)));
            lemma_place_marking(before, (l, u));
        } else {
            assert((l, u) == key);
        }
    }
    assert(new_v.places =~= expected.places);
    assert(new_v.transitions =~= expected.transitions);
    assert(new_v.inputs =~= expected.inputs);
    assert(new_v.outputs =~= expected.outputs);
    assert(new_v.fed =~= expected.fed);
    assert(new_v.feeding =~= expected.feeding);
}

proof fn lemma_add_transition(before: PetriNet, after: PetriNet, key: RefKey)
    requires
        net_wf(before),
        !net_view(before).has_label(key.0),
        net_transitions(after) == net_transitions(before).insert(key),
        net_places(after) == net_places(before),
        net_inputs(after) == net_inputs(before),
        net_outputs(after) == net_outputs(before),
    ensures
        net_wf(after),
        net_view(after) == net_view(before).add_transition(key.0),
{
    let old_v = net_view(before);
    let new_v = net_view(after);
    let expected = old_v.add_transition(key.0);
    assert forall|k: RefKey| net_places(before).contains_key(k) implies k.0 != key.0 by {
        assert(net_places(before).contains_key((k.0, k.1)));
    }
    assert forall|k: RefKey| net_transitions(before).contains(k) implies k.0 != key.0 by {
        assert(net_transitions(before).contains((k.0, k.1)));
    }
    assert(net_transitions(after).contains(key));
    assert(net_wf(after));
    assert forall|l: Label| new_v.transitions.contains(l) == expected.transitions.contains(l) by {
        if l == key.0 {
            assert(net_transitions(after).contains((l, key.1)));
        } else if old_v.transitions.contains(l) {
            let u = choose|u: u128| net_transitions(before).contains((l, u));
            assert(net_transitions(after).contains((l, u)));
        } else if new_v.transitions.contains(l) {
            let u = choose|u: u128| net_transitions(after).contains((l, u));
            assert(net_transitions(before).contains((l, u)));
        }
    }
    assert(new_v.places =~= expected.places);
    assert(new_v.transitions =~= expected.transitions);
    assert(new_v.inputs =~= expected.inputs);
    assert(new_v.outputs =~= expected.outputs);
    assert(new_v.fed =~= expected.fed);
    assert(new_v.feeding =~= expected.feeding);
}

proof fn lemma_add_tokens(before: PetriNet, after: PetriNet, key: RefKey, tokens: nat)
    requires
        net_wf(before),
        net_places(before).contains_key(key),
        net_places(before)[key] + tokens <= usize::MAX,
        net_places(after) == net_places(before).insert(key, net_places(before)[key] + tokens),
        net_transitions(after) == net_transitions(before),
        net_inputs(after) == net_inputs(before),
        net_outputs(after) == net_outputs(before),
    ensures
        net_wf(after),
        net_view(after) == net_view(before).add_tokens(key.0, tokens),
{
    let old_v = net_view(before);
    let new_v = net_view(after);
    lemma_place_marking(before, key);
    let expected = old_v.add_tokens(key.0, tokens);
    assert(net_places(after).dom() =~= net_places(before).dom());
    assert(net_wf(after));
    assert forall|l: Label| new_v.places.contains_key(l) == expected.places.contains_key(l) by {
        if old_v.places.contains_key(l) {
            let u = choose|u: u128| net_places(before).contains_key((l, u));
            assert(net_places(after).contains_key((l, u)));
        } else if new_v.places.contains_key(l) {
            let u = choose|u: u128| net_places(after).contains_key((l, u));
            assert(net_places(before).contains_key((l, u)));
        }
    }
    assert forall|l: Label| new_v.places.contains_key(l) implies new_v.places[l]
        == expected.places[l] by {
        let u = choose|u: u128| net_places(after).contains_key((l, u));
        lemma_place_marking(after, (l, u));
        assert(net_places(before).contains_key((l, u)));
        lemma_place_marking(before, (l, u));
        if l == key.0 {
            assert((l, u) == key);
        }
    }
    assert(new_v.places =~= expected.places);
    assert(new_v.transitions =~= expected.transitions);
    assert(new_v.inputs =~= expected.inputs);
    assert(new_v.outputs =~= expected.outputs);
    assert(new_v.fed =~= expected.fed);
    assert(new_v.feeding =~= expected.feeding);
}

/// Whether the arc between two nodes of the net is present shows in the labels.
proof fn lemma_input_by_label(net: PetriNet, place: RefKey, transition: RefKey)
    requires
        net_wf(net),
        net_places(net).contains_key(place),
        net_transitions(net).contains(transition),
    ensures
        net_inputs(net).contains((place, transition)) <==> net_view(net).inputs.contains(
            (place.0, transition.0),
        ),
{
    let arc = (place.0, transition.0);
    if net_inputs(net).contains((place, transition)) {
        assert(place == (arc.0, place.1));
        assert(transition == (arc.1, transition.1));
        assert(net_inputs(net).contains(((arc.0, place.1), (arc.1, transition.1))));
        assert(net_view(net).inputs.contains(arc));
    }
    if net_view(net).inputs.contains(arc) {
        let (u, v) = choose|u: u128, v: u128| net_inputs(net).contains(((arc.0, u), (arc.1, v)));
        assert(net_inputs(net).contains(((arc.0, u), (arc.1, v))));
        assert(net_places(net).contains_key((arc.0, u)));
        assert(net_transitions(net).contains((arc.1, v)));
        assert((arc.0, u) == place);
        assert((arc.1, v) == transition);
    }
}

proof fn lemma_output_by_label(net: PetriNet, transition: RefKey, place: RefKey)
    requires
        net_wf(net),
        net_places(net).contains_key(place),
        net_transitions(net).contains(transition),
    ensures
        net_outputs(net).contains((transition, place)) <==> net_view(net).outputs.contains(
            (transition.0, place.0),
        ),
{
    let arc = (transition.0, place.0);
    if net_outputs(net).contains((transition, place)) {
        assert(transition == (arc.0, transition.1));
        assert(place == (arc.1, place.1));
        assert(net_outputs(net).contains(((arc.0, transition.1), (arc.1, place.1))));
        assert(net_view(net).outputs.contains(arc));
    }
    if net_view(net).outputs.contains(arc) {
        let (u, v) = choose|u: u128, v: u128| net_outputs(net).contains(((arc.0, u), (arc.1, v)));
        assert(net_outputs(net).contains(((arc.0, u), (arc.1, v))));
        assert(net_transitions(net).contains((arc.0, u)));
        assert(net_places(net).contains_key((arc.1, v)));
        assert((arc.0, u) == transition);
        assert((arc.1, v) == place);
    }
}

proof fn lemma_add_input(before: PetriNet, after: PetriNet, place: RefKey, transition: RefKey)
    requires
        net_wf(before),
        net_places(before).contains_key(place),
        net_transitions(before).contains(transition),
        !net_inputs(before).contains((place, transition)),
        net_inputs(after) == net_inputs(before).insert((place, transition)),
        net_places(after) == net_places(before),
        net_transitions(after) == net_transitions(before),
        net_outputs(after) == net_outputs(before),
    ensures
        net_wf(after),
        net_view(after) == net_view(before).add_input(place.0, transition.0),
{
    let old_v = net_view(before);
    let new_v = net_view(after);
    lemma_input_by_label(before, place, transition);
    assert(net_places(before).contains_key((place.0, place.1)));
    assert(net_transitions(before).contains((transition.0, transition.1)));
    let expected = old_v.add_input(place.0, transition.0);
    assert(net_wf(after));
    assert forall|arc: (Label, Label)| new_v.inputs.contains(arc) == expected.inputs.contains(
        arc,
    ) by {
        if arc == (place.0, transition.0) {
            assert(net_inputs(after).contains(((arc.0, place.1), (arc.1, transition.1))));
        } else if old_v.inputs.contains(arc) {
            let (u, v) = choose|u: u128, v: u128|
                net_inputs(before).contains(((arc.0, u), (arc.1, v)));
            assert(net_inputs(after).contains(((arc.0, u), (arc.1, v))));
        } else if new_v.inputs.contains(arc) {
            let (u, v) = choose|u: u128, v: u128|
                net_inputs(after).contains(((arc.0, u), (arc.1, v)));
            assert(net_inputs(before).contains(((arc.0, u), (arc.1, v))));
        }
    }
    assert forall|t: Label| new_v.fed.contains(t) == expected.fed.contains(t) by {
        if t == transition.0 {
            assert(net_inputs(after).contains((place, (t, transition.1))));
        } else if old_v.fed.contains(t) {
            let (q, v) = choose|q: RefKey, v: u128| net_inputs(before).contains((q, (t, v)));
            assert(net_inputs(after).contains((q, (t, v))));
        } else if new_v.fed.contains(t) {
            let (q, v) = choose|q: RefKey, v: u128| net_inputs(after).contains((q, (t, v)));
            assert(net_inputs(before).contains((q, (t, v))));
        }
    }
    assert(new_v.places =~= expected.places);
    assert(new_v.transitions =~= expected.transitions);
    assert(new_v.inputs =~= expected.inputs);
    assert(new_v.outputs =~= expected.outputs);
    assert(new_v.fed =~= expected.fed);
    assert(new_v.feeding =~= expected.feeding);
}

proof fn lemma_add_output(before: PetriNet, after: PetriNet, transition: RefKey, place: RefKey)
    requires
        net_wf(before),
        net_places(before).contains_key(place),
        net_transitions(before).contains(transition),
        !net_outputs(before).contains((transition, place)),
        net_outputs(after) == net_outputs(before).insert((transition, place)),
        net_places(after) == net_places(before),
        net_transitions(after) == net_transitions(before),
        net_inputs(after) == net_inputs(before),
    ensures
        net_wf(after),
        net_view(after) == net_view(before).add_output(transition.0, place.0),
{
    let old_v = net_view(before);
    let new_v = net_view(after);
    lemma_output_by_label(before, transition, place);
    assert(net_places(before).contains_key((place.0, place.1)));
    assert(net_transitions(before).contains((transition.0, transition.1)));
    let expected = old_v.add_output(transition.0, place.0);
    assert(net_wf(after));
    assert forall|arc: (Label, Label)| new_v.outputs.contains(arc) == expected.outputs.contains(
        arc,
    ) by {
        if arc == (transition.0, place.0) {
            assert(net_outputs(after).contains(((arc.0, transition.1), (arc.1, place.1))));
        } else if old_v.outputs.contains(arc) {
            let (u, v) = choose|u: u128, v: u128|
                net_outputs(before).contains(((arc.0, u), (arc.1, v)));
            assert(net_outputs(after).contains(((arc.0, u), (arc.1, v))));
        } else if new_v.outputs.contains(arc) {
            let (u, v) = choose|u: u128, v: u128|
                net_outputs(after).contains(((arc.0, u), (arc.1, v)));
            assert(net_outputs(before).contains(((arc.0, u), (arc.1, v))));
        }
    }
    assert forall|t: Label| new_v.feeding.contains(t) == expected.feeding.contains(t) by {
        if t == transition.0 {
            assert(net_outputs(after).contains(((t, transition.1), place)));
        } else if old_v.feeding.contains(t) {
            let (q, v) = choose|q: RefKey, v: u128| net_outputs(before).contains(((t, v), q));
            assert(net_outputs(after).contains(((t, v), q)));
        } else if new_v.feeding.contains(t) {
            let (q, v) = choose|q: RefKey, v: u128| net_outputs(after).contains(((t, v), q));
            assert(net_outputs(before).contains(((t, v), q)));
        }
    }
    assert(new_v.places =~= expected.places);
    assert(new_v.transitions =~= expected.transitions);
    assert(new_v.inputs =~= expected.inputs);
    assert(new_v.outputs =~= expected.outputs);
    assert(new_v.fed =~= expected.fed);
    assert(new_v.feeding =~= expected.feeding);
}

/// Adds an arc from a place to a transition with multiplicity one.
///
/// The place and the transition must be in the net and the arc must not be.
pub fn add_arc_place_transition(
    net: &mut PetriNet,
    place_ref: &PlaceRef,
    transition_ref: &TransitionRef,
)
    requires
        net_wf(*old(net)),
        has_place(*old(net), *place_ref),
        has_transition(*old(net), *transition_ref),
        !net_view(*old(net)).inputs.contains(
            (place_label(*place_ref), transition_label(*transition_ref)),
        ),
    ensures
        net_wf(*final(net)),
        net_extends(*final(net), *old(net)),
        net_view(*final(net)) == net_view(*old(net)).add_input(
            place_label(*place_ref),
            transition_label(*transition_ref),
        ),
        net_view(*final(net)).is_ok(),
{
    proof {
        lemma_input_by_label(*net, place_ref_key(*place_ref), transition_ref_key(*transition_ref));
    }
    let ghost before = *net;
    let added = net_add_arc_place_transition(net, place_ref, transition_ref);
    proof {
        lemma_add_input(
            before,
            *net,
            place_ref_key(*place_ref),
            transition_ref_key(*transition_ref),
        );
    }
}

/// Adds an arc from a transition to a place with multiplicity one.
///
/// The place and the transition must be in the net and the arc must not be.
pub fn add_arc_transition_place(
    net: &mut PetriNet,
    transition_ref: &TransitionRef,
    place_ref: &PlaceRef,
)
    requires
        net_wf(*old(net)),
        has_place(*old(net), *place_ref),
        has_transition(*old(net), *transition_ref),
        !net_view(*old(net)).outputs.contains(
            (transition_label(*transition_ref), place_label(*place_ref)),
        ),
    ensures
        net_wf(*final(net)),
        net_extends(*final(net), *old(net)),
        net_view(*final(net)) == net_view(*old(net)).add_output(
            transition_label(*transition_ref),
            place_label(*place_ref),
        ),
        net_view(*final(net)).is_ok(),
{
    proof {
        lemma_output_by_label(*net, transition_ref_key(*transition_ref), place_ref_key(*place_ref));
    }
    let ghost before = *net;
    let added = net_add_arc_transition_place(net, transition_ref, place_ref);
    proof {
        lemma_add_output(
            before,
            *net,
            transition_ref_key(*transition_ref),
            place_ref_key(*place_ref),
        );
    }
}


/// Whether an operation ended as the model says: on success the net is the
/// model, and on failure the error is the defect that the model records.
pub open spec fn outcome_matches<T>(
    result: Result<T, TranslationError>,
    net: Net,
    model: NetModel,
) -> bool {
    match result {
        Ok(_) => net@ == model,
        Err(e) => model.error == Some(e),
    }
}

/// Whether a label is among those of a list.
pub open spec fn labels_contain(labels: Seq<String>, label: Label) -> bool {
    exists|i: int| 0 <= i < labels.len() && (#[trigger] labels[i])@ == label
}

/// A net under construction together with the list of the labels in use.
///
/// A place or transition is added only under a label that is not in use, and
/// an arc only once: an attempt to do otherwise is reported as a defect and
/// leaves the net as it was.
pub struct Net {
    net: PetriNet,
    labels: Vec<String>,
}

impl View for Net {
    type V = NetModel;

    open spec fn view(&self) -> NetModel {
        net_view(self.inner())
    }
}

impl Net {
    /// The invariant of the net: see `net_wf`; and the list of labels holds
    /// exactly the labels of the net.
    pub closed spec fn wf(&self) -> bool {
        &&& net_wf(self.net)
        &&& forall|l: Label| #[trigger] self@.has_label(l) <==> labels_contain(self.labels@, l)
    }

    /// The net itself.
    pub closed spec fn inner(&self) -> PetriNet {
        self.net
    }

    /// Whether the reference names a place of this net.
    pub open spec fn has_place(&self, place_ref: PlaceRef) -> bool {
        has_place(self.inner(), place_ref)
    }

    /// Whether the reference names a transition of this net.
    pub open spec fn has_transition(&self, transition_ref: TransitionRef) -> bool {
        has_transition(self.inner(), transition_ref)
    }

    /// Whether every place and transition that a reference named in `before`
    /// is still in this net.
    pub open spec fn extends(&self, before: Net) -> bool {
        &&& forall|p: PlaceRef| #[trigger] before.has_place(p) ==> self.has_place(p)
        &&& forall|t: TransitionRef| #[trigger] before.has_transition(t) ==> self.has_transition(t)
    }

    /// A net never holds a defect; the places and transitions that
    /// references name are in its model under their labels.
    pub proof fn lemma_view(&self)
        ensures
            self@.is_ok(),
            forall|p: PlaceRef| #[trigger]
                self.has_place(p) ==> self@.places.contains_key(place_label(p)),
            forall|t: TransitionRef| #[trigger]
                self.has_transition(t) ==> self@.transitions.contains(transition_label(t)),
    {
        lemma_refs_in_view(self.net);
    }

    /// Every arc of the net joins a place and a transition of the net.
    pub proof fn lemma_closed(&self)
        requires
            self.wf(),
        ensures
            self@.closed(),
    {
        lemma_net_is_closed(self.net);
    }

    /// The empty net.
    pub fn new() -> (net: Net)
        ensures
            net.wf(),
            net@ == NetModel::empty(),
    {
        let inner = net_new();
        proof {
            lemma_new_net(inner);
        }
        let net = Net { net: inner, labels: Vec::new() };
        assert forall|l: Label| #[trigger] net@.has_label(l) <==> labels_contain(net.labels@, l) by {
        }
        net
    }

    /// Whether a place or transition of the net has this label.
    pub fn is_label_in_use(&self, label: &str) -> (in_use: bool)
        requires
            self.wf(),
        ensures
            in_use == self@.has_label(label@),
    {
        let wanted = String::from_str(label);
        let mut i: usize = 0;
        while i < self.labels.len()
            invariant
                self.wf(),
                i <= self.labels.len(),
                wanted@ == label@,
                forall|j: int| 0 <= j < i ==> (#[trigger] self.labels@[j])@ != label@,
            decreases self.labels.len() - i,
        {
            if self.labels[i] == wanted {
                assert(labels_contain(self.labels@, label@));
                assert(self@.has_label(label@));
                return true;
            }
            i = i + 1;
        }
        assert(!labels_contain(self.labels@, label@));
        assert(!self@.has_label(label@));
        false
    }

    /// Adds a place without tokens under a label that is not in use.
    pub fn add_place(&mut self, label: &str) -> (added: Result<PlaceRef, TranslationError>)
        requires
            old(self).wf(),
        ensures
            final(self).wf(),
            final(self).extends(*old(self)),
            added is Ok ==> final(self)@ == old(self)@.add_place(label@),
            added is Ok ==> final(self).has_place(added->Ok_0),
            added is Ok ==> place_label(added->Ok_0) == label@,
            added is Err ==> old(self)@.add_place(label@).error == Some(added->Err_0),
            added is Err ==> final(self)@ == old(self)@,
    {
        proof {
            lemma_net_view_is_ok(self.net);
        }
        if self.is_label_in_use(label) {
            return Err(TranslationError::Internal(InternalDefect::LabelInUse));
        }
        let ghost before = *self;
        proof {
            assert forall|k: RefKey| net_places(self.net).contains_key(k) implies k.0
                != label@ by {
                lemma_place_marking(self.net, k);
            }
        }
        let place_ref = net_add_place(&mut self.net, label);
        self.labels.push(String::from_str(label));
        proof {
            lemma_add_place(before.net, self.net, place_ref_key(place_ref));
            lemma_net_view_is_ok(self.net);
            self.lemma_label_added(before, label@);
        }
        Ok(place_ref)
    }

    /// Adds a transition under a label that is not in use.
    pub fn add_transition(&mut self, label: &str) -> (added: Result<TransitionRef, TranslationError>)
        requires
            old(self).wf(),
        ensures
            final(self).wf(),
            final(self).extends(*old(self)),
            added is Ok ==> final(self)@ == old(self)@.add_transition(label@),
            added is Ok ==> final(self).has_transition(added->Ok_0),
            added is Ok ==> transition_label(added->Ok_0) == label@,
            added is Err ==> old(self)@.add_transition(label@).error == Some(added->Err_0),
            added is Err ==> final(self)@ == old(self)@,
    {
        proof {
            lemma_net_view_is_ok(self.net);
        }
        if self.is_label_in_use(label) {
            return Err(TranslationError::Internal(InternalDefect::LabelInUse));
        }
        let ghost before = *self;
        proof {
            assert forall|k: RefKey| net_transitions(self.net).contains(k) implies k.0
                != label@ by {
                assert(net_transitions(self.net).contains((k.0, k.1)));
                assert(net_view(self.net).transitions.contains(k.0));
            }
        }
        let transition_ref = net_add_transition(&mut self.net, label);
        self.labels.push(String::from_str(label));
        proof {
            lemma_add_transition(before.net, self.net, transition_ref_key(transition_ref));
            lemma_net_view_is_ok(self.net);
            self.lemma_label_added(before, label@);
        }
        Ok(transition_ref)
    }

    /// Puts more tokens on a place of the net.
    pub fn add_token(&mut self, place_ref: &PlaceRef, tokens: usize) -> (added: Result<
        (),
        TranslationError,
    >)
        requires
            old(self).wf(),
            old(self).has_place(*place_ref),
        ensures
            final(self).wf(),
            final(self).extends(*old(self)),
            added is Ok ==> final(self)@ == old(self)@.add_tokens(
                place_label(*place_ref),
                tokens as nat,
            ),
            added is Err ==> old(self)@.add_tokens(place_label(*place_ref), tokens as nat).error
                == Some(added->Err_0),
            added is Err ==> final(self)@ == old(self)@,
    {
        let ghost before = *self;
        proof {
            lemma_net_view_is_ok(self.net);
            lemma_place_marking(self.net, place_ref_key(*place_ref));
        }
        let added = net_add_token(&mut self.net, place_ref, tokens);
        if added {
            proof {
                lemma_add_tokens(before.net, self.net, place_ref_key(*place_ref), tokens as nat);
                lemma_net_view_is_ok(self.net);
                assert(self@.places.dom() =~= before@.places.dom());
                self.lemma_labels_kept(before);
            }
            Ok(())
        } else {
            proof {
                lemma_same_contents(before.net, self.net);
                self.lemma_labels_kept(before);
            }
            Err(TranslationError::Internal(InternalDefect::TokenOverflow))
        }
    }

    /// Adds the arc from a place to a transition, unless it is there already.
    pub fn add_arc_place_transition(
        &mut self,
        place_ref: &PlaceRef,
        transition_ref: &TransitionRef,
    ) -> (added: Result<(), TranslationError>)
        requires
            old(self).wf(),
            old(self).has_place(*place_ref),
            old(self).has_transition(*transition_ref),
        ensures
            final(self).wf(),
            final(self).extends(*old(self)),
            added is Ok ==> final(self)@ == old(self)@.add_input(
                place_label(*place_ref),
                transition_label(*transition_ref),
            ),
            added is Err ==> old(self)@.add_input(
                place_label(*place_ref),
                transition_label(*transition_ref),
            ).error == Some(added->Err_0),
            added is Err ==> final(self)@ == old(self)@,
    {
        let ghost before = *self;
        proof {
            lemma_net_view_is_ok(self.net);
            lemma_refs_in_view(self.net);
            lemma_input_by_label(
                self.net,
                place_ref_key(*place_ref),
                transition_ref_key(*transition_ref),
            );
        }
        let added = net_add_arc_place_transition(&mut self.net, place_ref, transition_ref);
        if added {
            proof {
                lemma_add_input(
                    before.net,
                    self.net,
                    place_ref_key(*place_ref),
                    transition_ref_key(*transition_ref),
                );
                lemma_net_view_is_ok(self.net);
                self.lemma_labels_kept(before);
            }
            Ok(())
        } else {
            proof {
                lemma_same_contents(before.net, self.net);
                self.lemma_labels_kept(before);
            }
            Err(TranslationError::Internal(InternalDefect::DuplicateArc))
        }
    }

    /// Adds the arc from a transition to a place, unless it is there already.
    pub fn add_arc_transition_place(
        &mut self,
        transition_ref: &TransitionRef,
        place_ref: &PlaceRef,
    ) -> (added: Result<(), TranslationError>)
        requires
            old(self).wf(),
            old(self).has_place(*place_ref),
            old(self).has_transition(*transition_ref),
        ensures
            final(self).wf(),
            final(self).extends(*old(self)),
            added is Ok ==> final(self)@ == old(self)@.add_output(
                transition_label(*transition_ref),
                place_label(*place_ref),
            ),
            added is Err ==> old(self)@.add_output(
                transition_label(*transition_ref),
                place_label(*place_ref),
            ).error == Some(added->Err_0),
            added is Err ==> final(self)@ == old(self)@,
    {
        let ghost before = *self;
        proof {
            lemma_net_view_is_ok(self.net);
            lemma_refs_in_view(self.net);
            lemma_output_by_label(
                self.net,
                transition_ref_key(*transition_ref),
                place_ref_key(*place_ref),
            );
        }
        let added = net_add_arc_transition_place(&mut self.net, transition_ref, place_ref);
        if added {
            proof {
                lemma_add_output(
                    before.net,
                    self.net,
                    transition_ref_key(*transition_ref),
                    place_ref_key(*place_ref),
                );
                lemma_net_view_is_ok(self.net);
                self.lemma_labels_kept(before);
            }
            Ok(())
        } else {
            proof {
                lemma_same_contents(before.net, self.net);
                self.lemma_labels_kept(before);
            }
            Err(TranslationError::Internal(InternalDefect::DuplicateArc))
        }
    }

    /// Adds a transition that takes a token from `from` and puts one on `to`.
    pub fn add_step(&mut self, from: &PlaceRef, label: &str, to: &PlaceRef) -> (added: Result<
        TransitionRef,
        TranslationError,
    >)
        requires
            old(self).wf(),
            old(self).has_place(*from),
            old(self).has_place(*to),
        ensures
            final(self).wf(),
            final(self).extends(*old(self)),
            added is Ok ==> final(self)@ == old(self)@.add_step(
                place_label(*from),
                label@,
                place_label(*to),
            ),
            added is Ok ==> final(self).has_transition(added->Ok_0),
            added is Ok ==> transition_label(added->Ok_0) == label@,
            added is Err ==> old(self)@.add_step(place_label(*from), label@, place_label(*to)).error
                == Some(added->Err_0),
    {
        proof {
            self.lemma_view();
        }
        let transition = self.add_transition(label)?;
        self.add_arc_place_transition(from, &transition)?;
        self.add_arc_transition_place(&transition, to)?;
        Ok(transition)
    }

    /// The net that was built.
    pub fn into_petri_net(self) -> (net: PetriNet)
        requires
            self.wf(),
        ensures
            net == self.inner(),
            net_wf(net),
            net_view(net) == self@,
    {
        self.net
    }

    /// The net that was built so far.
    pub fn petri_net(&self) -> (net: &PetriNet)
        requires
            self.wf(),
        ensures
            *net == self.inner(),
            net_wf(*net),
            net_view(*net) == self@,
    {
        &self.net
    }
}

impl Net {
    /// A change that keeps the labels of the net keeps the invariant of the list of labels.
    proof fn lemma_labels_kept(&self, before: Net)
        requires
            before.wf(),
            net_wf(self.net),
            self.labels == before.labels,
            forall|l: Label| self@.has_label(l) == before@.has_label(l),
        ensures
            self.wf(),
    {
        assert forall|l: Label| #[trigger] self@.has_label(l) <==> labels_contain(
            self.labels@,
            l,
        ) by {
            assert(before@.has_label(l) <==> labels_contain(before.labels@, l));
        }
    }

    /// A new label in the net and in the list keeps the invariant of the list of labels.
    proof fn lemma_label_added(&self, before: Net, label: Label)
        requires
            before.wf(),
            net_wf(self.net),
            self.labels@.len() == before.labels@.len() + 1,
            forall|i: int| 0 <= i < before.labels@.len() ==> self.labels@[i] == before.labels@[i],
            self.labels@[before.labels@.len() as int]@ == label,
            forall|l: Label| self@.has_label(l) == (before@.has_label(l) || l == label),
        ensures
            self.wf(),
    {
        assert forall|l: Label| #[trigger] self@.has_label(l) <==> labels_contain(
            self.labels@,
            l,
        ) by {
            assert(before@.has_label(l) <==> labels_contain(before.labels@, l));
            if labels_contain(before.labels@, l) {
                let i = choose|i: int|
                    0 <= i < before.labels@.len() && (#[trigger] before.labels@[i])@ == l;
                assert(self.labels@[i]@ == l);
            }
            if l == label {
                assert(self.labels@[before.labels@.len() as int]@ == l);
            }
            if labels_contain(self.labels@, l) {
                let i = choose|i: int|
                    0 <= i < self.labels@.len() && (#[trigger] self.labels@[i])@ == l;
                if i < before.labels@.len() {
                    assert(before.labels@[i]@ == l);
                }
            }
        }
    }
}

/// Nets with the same contents have the same model.
proof fn lemma_same_contents(a: PetriNet, b: PetriNet)
    requires
        net_places(a) == net_places(b),
        net_transitions(a) == net_transitions(b),
        net_inputs(a) == net_inputs(b),
        net_outputs(a) == net_outputs(b),
    ensures
        net_view(a) == net_view(b),
        net_wf(a) == net_wf(b),
{
    assert(net_view(a).places =~= net_view(b).places);
    assert(net_view(a).transitions =~= net_view(b).transitions);
    assert(net_view(a).inputs =~= net_view(b).inputs);
    assert(net_view(a).outputs =~= net_view(b).outputs);
    assert(net_view(a).fed =~= net_view(b).fed);
    assert(net_view(a).feeding =~= net_view(b).feeding);
}


/// In a net that is built through this module every arc joins a place and
/// a transition of the net: a transition that was just added has no arc yet.
pub proof fn lemma_net_is_closed(net: PetriNet)
    requires
        net_wf(net),
    ensures
        net_view(net).closed(),
{
    let view = net_view(net);
    assert forall|place: Label, transition: Label| #[trigger]
        view.inputs.contains((place, transition)) implies view.places.contains_key(place)
        && view.transitions.contains(transition) by {
        let arc = (place, transition);
        let (u, v) = choose|u: u128, v: u128| net_inputs(net).contains(((arc.0, u), (arc.1, v)));
        assert(net_inputs(net).contains(((arc.0, u), (arc.1, v))));
        assert(net_places(net).contains_key((place, u)));
        assert(net_transitions(net).contains((transition, v)));
    }
    assert forall|transition: Label, place: Label| #[trigger]
        view.outputs.contains((transition, place)) implies view.places.contains_key(place)
        && view.transitions.contains(transition) by {
        let arc = (transition, place);
        let (u, v) = choose|u: u128, v: u128| net_outputs(net).contains(((arc.0, u), (arc.1, v)));
        assert(net_outputs(net).contains(((arc.0, u), (arc.1, v))));
        assert(net_transitions(net).contains((transition, u)));
        assert(net_places(net).contains_key((place, v)));
    }
}

/// In a net that is built through this module every label is used once:
/// two references to places with one label name one place, two references
/// to transitions with one label name one transition, and no place has the
/// label of a transition.
pub proof fn lemma_labels_are_used_once(net: PetriNet)
    requires
        net_wf(net),
    ensures
        forall|p: PlaceRef, q: PlaceRef|
            #![trigger has_place(net, p), has_place(net, q)]
            has_place(net, p) && has_place(net, q) && place_label(p) == place_label(q)
                ==> place_ref_key(p) == place_ref_key(q),
        forall|t: TransitionRef, u: TransitionRef|
            #![trigger has_transition(net, t), has_transition(net, u)]
            has_transition(net, t) && has_transition(net, u) && transition_label(t)
                == transition_label(u) ==> transition_ref_key(t) == transition_ref_key(u),
        forall|label: Label| #[trigger]
            net_view(net).places.contains_key(label) ==> !net_view(net).transitions.contains(label),
{
    let view = net_view(net);
    assert forall|label: Label| #[trigger] view.places.contains_key(label) implies 
        !view.transitions.contains(label) by {
        if view.transitions.contains(label) {
            let u = choose|u: u128| net_places(net).contains_key((label, u));
            let v = choose|v: u128| net_transitions(net).contains((label, v));
            assert(net_places(net).contains_key((label, u)));
            assert(net_transitions(net).contains((label, v)));
        }
    }
}

/// In a net that is connected, every transition has an arc from a place
/// and an arc to a place.
pub proof fn lemma_connected_by_arcs(net: PetriNet)
    requires
        net_view(net).connected(),
    ensures
        net_view(net).is_wired(),
{
    let view = net_view(net);
    assert forall|t: Label| #[trigger] view.transitions.contains(t) implies view.has_input_arc(t)
        && view.has_output_arc(t) by {
        assert(view.fed.contains(t));
        let (q, v) = choose|q: RefKey, v: u128| net_inputs(net).contains((q, (t, v)));
        let arc = (q.0, t);
        assert(net_inputs(net).contains(((arc.0, q.1), (arc.1, v))));
        assert(view.inputs.contains(arc));
        assert(view.feeding.contains(t));
        let (r, w) = choose|r: RefKey, w: u128| net_outputs(net).contains(((t, w), r));
        let out = (t, r.0);
        assert(net_outputs(net).contains(((out.0, w), (out.1, r.1))));
        assert(view.outputs.contains(out));
    }
}

} // verus!
