//! The mathematical model of a net under construction.
//!
//! Places and transitions are told apart by their labels. The model also
//! records the first defect that was met while the net was built: from then
//! on no operation changes it any more.

use crate::error_handling::{InternalDefect, TranslationError};
use vstd::prelude::*;

verus! {

/// The label of a place or of a transition.
pub type Label = Seq<char>;

/// A net under construction.
pub struct NetModel {
    /// The places, each with the tokens of the initial marking.
    pub places: Map<Label, nat>,
    /// The transitions.
    pub transitions: Set<Label>,
    /// The arcs from a place to a transition, source first.
    pub inputs: Set<(Label, Label)>,
    /// The arcs from a transition to a place, source first.
    pub outputs: Set<(Label, Label)>,
    /// The transitions that take a token from at least one place.
    pub fed: Set<Label>,
    /// The transitions that put a token on at least one place.
    pub feeding: Set<Label>,
    /// The first defect met, if any.
    pub error: Option<TranslationError>,
}

impl NetModel {
    /// The net without places and transitions.
    pub open spec fn empty() -> NetModel {
        NetModel {
            places: Map::empty(),
            transitions: Set::empty(),
            inputs: Set::empty(),
            outputs: Set::empty(),
            fed: Set::empty(),
            feeding: Set::empty(),
            error: None,
        }
    }

    /// Whether a place or a transition of the net has this label.
    pub open spec fn has_label(self, label: Label) -> bool {
        self.places.contains_key(label) || self.transitions.contains(label)
    }

    /// Whether the net was built without defect so far.
    pub open spec fn is_ok(self) -> bool {
        self.error is None
    }

    /// Records a defect, unless one is recorded already.
    pub open spec fn fail(self, error: TranslationError) -> NetModel {
        if self.error is Some {
            self
        } else {
            NetModel { error: Some(error), ..self }
        }
    }

    /// Adds a place without tokens. A label that is in use is a defect.
    pub open spec fn add_place(self, label: Label) -> NetModel {
        if self.error is Some {
            self
        } else if self.has_label(label) {
            self.fail(TranslationError::Internal(InternalDefect::LabelInUse))
        } else {
            NetModel { places: self.places.insert(label, 0), ..self }
        }
    }

    /// Adds a transition. A label that is in use is a defect.
    pub open spec fn add_transition(self, label: Label) -> NetModel {
        if self.error is Some {
            self
        } else if self.has_label(label) {
            self.fail(TranslationError::Internal(InternalDefect::LabelInUse))
        } else {
            NetModel { transitions: self.transitions.insert(label), ..self }
        }
    }

    /// Puts more tokens on a place of the net.
    pub open spec fn add_tokens(self, place: Label, tokens: nat) -> NetModel {
        if self.error is Some {
            self
        } else if !self.places.contains_key(place) {
            self.fail(TranslationError::Internal(InternalDefect::UnknownNode))
        } else if self.places[place] + tokens > usize::MAX {
            self.fail(TranslationError::Internal(InternalDefect::TokenOverflow))
        } else {
            NetModel { places: self.places.insert(place, self.places[place] + tokens), ..self }
        }
    }

    /// Adds the arc from a place to a transition, with multiplicity one.
    pub open spec fn add_input(self, place: Label, transition: Label) -> NetModel {
        if self.error is Some {
            self
        } else if !self.places.contains_key(place) || !self.transitions.contains(transition) {
            self.fail(TranslationError::Internal(InternalDefect::UnknownNode))
        } else if self.inputs.contains((place, transition)) {
            self.fail(TranslationError::Internal(InternalDefect::DuplicateArc))
        } else {
            NetModel {
                inputs: self.inputs.insert((place, transition)),
                fed: self.fed.insert(transition),
                ..self
            }
        }
    }

    /// Adds the arc from a transition to a place, with multiplicity one.
    pub open spec fn add_output(self, transition: Label, place: Label) -> NetModel {
        if self.error is Some {
            self
        } else if !self.places.contains_key(place) || !self.transitions.contains(transition) {
            self.fail(TranslationError::Internal(InternalDefect::UnknownNode))
        } else if self.outputs.contains((transition, place)) {
            self.fail(TranslationError::Internal(InternalDefect::DuplicateArc))
        } else {
            NetModel {
                outputs: self.outputs.insert((transition, place)),
                feeding: self.feeding.insert(transition),
                ..self
            }
        }
    }

    /// Whether every transition takes a token from some place and puts one
    /// on some place.
    pub open spec fn connected(self) -> bool {
        self.transitions.subset_of(self.fed) && self.transitions.subset_of(self.feeding)
    }

    /// Whether the net holds every place, transition and arc of `before`.
    pub open spec fn extends(self, before: NetModel) -> bool {
        &&& before.places.dom().subset_of(self.places.dom())
        &&& before.transitions.subset_of(self.transitions)
        &&& before.inputs.subset_of(self.inputs)
        &&& before.outputs.subset_of(self.outputs)
    }

    /// Whether an arc leads from some place to the transition.
    pub open spec fn has_input_arc(self, transition: Label) -> bool {
        exists|place: Label| self.inputs.contains((place, transition))
    }

    /// Whether an arc leads from the transition to some place.
    pub open spec fn has_output_arc(self, transition: Label) -> bool {
        exists|place: Label| self.outputs.contains((transition, place))
    }

    /// Whether every transition has at least one arc from a place and at
    /// least one arc to a place.
    pub open spec fn is_wired(self) -> bool {
        forall|transition: Label| #[trigger]
            self.transitions.contains(transition) ==> self.has_input_arc(transition)
                && self.has_output_arc(transition)
    }

    /// Whether every arc joins a place and a transition of the net.
    pub open spec fn closed(self) -> bool {
        &&& forall|place: Label, transition: Label| #[trigger]
            self.inputs.contains((place, transition)) ==> self.places.contains_key(place)
                && self.transitions.contains(transition)
        &&& forall|transition: Label, place: Label| #[trigger]
            self.outputs.contains((transition, place)) ==> self.places.contains_key(place)
                && self.transitions.contains(transition)
    }

    /// Whether this net, if it was built without defect, grew out of
    /// `before`, is connected if `before` was, and is closed if `before` was.
    pub open spec fn advances(self, before: NetModel) -> bool {
        self.is_ok() ==> before.is_ok() && self.extends(before) && (before.connected()
            ==> self.connected()) && (before.closed() ==> self.closed())
    }

    /// Adds a transition that takes a token from `from` and puts one on `to`.
    pub open spec fn add_step(self, from: Label, transition: Label, to: Label) -> NetModel {
        self.add_transition(transition).add_input(from, transition).add_output(transition, to)
    }
}

} // verus!
