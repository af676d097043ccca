//! The text of a net in the formats of the tools that read it.
//!
//! The formats are written by `netcrab`. In a net whose labels are used
//! once, the text is a function of what the net holds under its labels.

use crate::net_model::NetModel;
use crate::petri_net_interface::{net_view, net_wf};
use netcrab::petri_net::PetriNet;
use vstd::prelude::*;

verus! {

/// The formats in which a net can be written.
#[derive(Clone, Copy, Debug, PartialEq, Eq)]
pub enum Format {
    /// The graph description language of Graphviz.
    Dot,
    /// The input format of the model checker LoLA.
    Lola,
    /// The Petri Net Markup Language.
    Pnml,
}

/// The text of a net in the DOT format: the places with their tokens, the
/// transitions and the arcs, each in the order of the labels.
pub uninterp spec fn dot_text(
    places: Map<Seq<char>, nat>,
    transitions: Set<Seq<char>>,
    inputs: Set<(Seq<char>, Seq<char>)>,
    outputs: Set<(Seq<char>, Seq<char>)>,
) -> Seq<char>;

/// The text of a net in the format of LoLA.
pub uninterp spec fn lola_text(
    places: Map<Seq<char>, nat>,
    transitions: Set<Seq<char>>,
    inputs: Set<(Seq<char>, Seq<char>)>,
    outputs: Set<(Seq<char>, Seq<char>)>,
) -> Seq<char>;

/// The text of a net in the Petri Net Markup Language.
pub uninterp spec fn pnml_text(
    places: Map<Seq<char>, nat>,
    transitions: Set<Seq<char>>,
    inputs: Set<(Seq<char>, Seq<char>)>,
    outputs: Set<(Seq<char>, Seq<char>)>,
) -> Seq<char>;

/// `PetriNet::to_dot_string`: the net in the DOT format. The writer writes
/// into memory and cannot fail, so there is always a text. In a net whose
/// labels are used once the text is determined by the labels of the places
/// with their tokens, of the transitions and of the ends of the arcs.
#[verifier::external_body]
fn net_to_dot_string(net: &PetriNet) -> (text: Option<String>)
    requires
        net_wf(*net),
    ensures
        text is Some,
        text->Some_0@ == dot_text(
            net_view(*net).places,
            net_view(*net).transitions,
            net_view(*net).inputs,
            net_view(*net).outputs,
        ),
{
    net.to_dot_string().ok()
}

/// `PetriNet::to_lola_string`: the net in the format of LoLA. The writer
/// writes into memory and cannot fail, so there is always a text. In a net
/// whose labels are used once the text is determined by the labels of the
/// places with their tokens, of the transitions and of the ends of the arcs.
#[verifier::external_body]
fn net_to_lola_string(net: &PetriNet) -> (text: Option<String>)
    requires
        net_wf(*net),
    ensures
        text is Some,
        text->Some_0@ == lola_text(
            net_view(*net).places,
            net_view(*net).transitions,
            net_view(*net).inputs,
            net_view(*net).outputs,
        ),
{
    net.to_lola_string().ok()
}

/// `PetriNet::to_pnml_string`: the net in the Petri Net Markup Language.
/// The writer writes into memory, and the elements that it opens and closes
/// are fixed and well nested, so there is always a text. In a net whose
/// labels are used once the text is determined by the labels of the places
/// with their tokens, of the transitions and of the ends of the arcs.
#[verifier::external_body]
fn net_to_pnml_string(net: &PetriNet) -> (text: Option<String>)
    requires
        net_wf(*net),
    ensures
        text is Some,
        text->Some_0@ == pnml_text(
            net_view(*net).places,
            net_view(*net).transitions,
            net_view(*net).inputs,
            net_view(*net).outputs,
        ),
{
    net.to_pnml_string().ok()
}

/// The text of a net in a format.
pub open spec fn text_of(net: NetModel, format: Format) -> Seq<char> {
    match format {
        Format::Dot => dot_text(net.places, net.transitions, net.inputs, net.outputs),
        Format::Lola => lola_text(net.places, net.transitions, net.inputs, net.outputs),
        Format::Pnml => pnml_text(net.places, net.transitions, net.inputs, net.outputs),
    }
}

/// Writes a net in a format. There is always a text, and it is the text
/// of the net in the format.
pub fn net_to_string(net: &PetriNet, format: Format) -> (text: Option<String>)
    requires
        net_wf(*net),
    ensures
        text is Some,
        text->Some_0@ == text_of(net_view(*net), format),
{
    match format {
        Format::Dot => net_to_dot_string(net),
        Format::Lola => net_to_lola_string(net),
        Format::Pnml => net_to_pnml_string(net),
    }
}

} // verus!
