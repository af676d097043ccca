//! The token game on the model of a net, and what the models of mutexes,
//! condition variables and threads guarantee in it.
//!
//! A marking gives the number of tokens on every place. A transition is
//! enabled if every place that it takes a token from holds one. An enabled
//! transition may fire: it takes one token from each place before it and
//! puts one on each place after it.

use crate::net_model::{Label, NetModel};
use crate::translator::sync::condvar::CondvarModel;
use crate::translator::sync::mutex::MutexModel;
use vstd::prelude::*;

verus! {

/// The number of tokens on every place.
pub type Marking = Map<Label, nat>;

impl NetModel {
    /// The marking before any transition has fired.
    pub open spec fn initial_marking(self) -> Marking {
        self.places
    }

    /// How many tokens the transition takes from the place when it fires.
    pub open spec fn takes(self, place: Label, transition: Label) -> nat {
        if self.inputs.contains((place, transition)) {
            1
        } else {
            0
        }
    }

    /// How many tokens the transition puts on the place when it fires.
    pub open spec fn gives(self, transition: Label, place: Label) -> nat {
        if self.outputs.contains((transition, place)) {
            1
        } else {
            0
        }
    }

    /// Whether the transition may fire in the marking.
    pub open spec fn enabled(self, marking: Marking, transition: Label) -> bool {
        &&& self.transitions.contains(transition)
        &&& forall|place: Label| #[trigger]
            self.inputs.contains((place, transition)) ==> marking.contains_key(place)
                && marking[place] >= 1
    }

    /// The marking after the transition has fired.
    pub open spec fn fire(self, marking: Marking, transition: Label) -> Marking {
        Map::new(
            |place: Label| marking.contains_key(place),
            |place: Label|
                (marking[place] - self.takes(place, transition) + self.gives(
                    transition,
                    place,
                )) as nat,
        )
    }

    /// The marking after the transitions have fired one after the other.
    pub open spec fn run(self, marking: Marking, firings: Seq<Label>) -> Marking
        decreases firings.len(),
    {
        if firings.len() == 0 {
            marking
        } else {
            self.fire(self.run(marking, firings.drop_last()), firings.last())
        }
    }

    /// Whether the transitions can fire one after the other: each is
    /// enabled in the marking that those before it have left.
    pub open spec fn can_run(self, marking: Marking, firings: Seq<Label>) -> bool
        decreases firings.len(),
    {
        firings.len() > 0 ==> self.can_run(marking, firings.drop_last()) && self.enabled(
            self.run(marking, firings.drop_last()),
            firings.last(),
        )
    }

    /// Whether the marking can be reached from the initial marking.
    pub open spec fn reachable(self, marking: Marking) -> bool {
        exists|firings: Seq<Label>|
            self.can_run(self.initial_marking(), firings) && self.run(
                self.initial_marking(),
                firings,
            ) == marking
    }

    /// Whether no transition changes the number of tokens that two places
    /// hold together.
    pub open spec fn balanced(self, first: Label, second: Label) -> bool {
        forall|transition: Label| #[trigger]
            self.transitions.contains(transition) ==> self.takes(first, transition) + self.takes(
                second,
                transition,
            ) == self.gives(transition, first) + self.gives(transition, second)
    }

    /// A transition that takes a token from a place is not enabled while
    /// the place is empty.
    pub proof fn lemma_enabled_needs_token(self, marking: Marking, place: Label, transition: Label)
        requires
            self.inputs.contains((place, transition)),
            self.enabled(marking, transition),
        ensures
            marking.contains_key(place),
            marking[place] >= 1,
    {
    }

    /// Firing keeps the places of a marking.
    pub proof fn lemma_run_keeps_places(self, marking: Marking, firings: Seq<Label>)
        ensures
            self.run(marking, firings).dom() == marking.dom(),
        decreases firings.len(),
    {
        if firings.len() > 0 {
            self.lemma_run_keeps_places(marking, firings.drop_last());
            assert(self.run(marking, firings).dom() =~= marking.dom());
        }
    }

    /// In a net that is balanced for two places, the two places hold
    /// together as many tokens after every run as before it.
    pub proof fn lemma_balanced_places_keep_their_tokens(
        self,
        first: Label,
        second: Label,
        marking: Marking,
        firings: Seq<Label>,
    )
        requires
            self.balanced(first, second),
            first != second,
            marking.contains_key(first),
            marking.contains_key(second),
            self.can_run(marking, firings),
        ensures
            self.run(marking, firings).contains_key(first),
            self.run(marking, firings).contains_key(second),
            self.run(marking, firings)[first] + self.run(marking, firings)[second]
                == marking[first] + marking[second],
        decreases firings.len(),
    {
        if firings.len() > 0 {
            let before = self.run(marking, firings.drop_last());
            let transition = firings.last();
            self.lemma_balanced_places_keep_their_tokens(
                first,
                second,
                marking,
                firings.drop_last(),
            );
            assert(self.transitions.contains(transition));
            if self.inputs.contains((first, transition)) {
                self.lemma_enabled_needs_token(before, first, transition);
            }
            if self.inputs.contains((second, transition)) {
                self.lemma_enabled_needs_token(before, second, transition);
            }
        }
    }
}

impl MutexModel {
    /// A mutex excludes: in a net that is balanced for the two places of a
    /// mutex and that starts with the mutex unlocked, the place `locked`
    /// holds at most one token in every marking that can be reached.
    pub proof fn lemma_mutual_exclusion(self, net: NetModel, marking: Marking)
        requires
            net.balanced(self.unlocked, self.locked),
            self.unlocked != self.locked,
            net.places.contains_key(self.unlocked),
            net.places.contains_key(self.locked),
            net.places[self.unlocked] == 1,
            net.places[self.locked] == 0,
            net.reachable(marking),
        ensures
            marking.contains_key(self.locked),
            marking.contains_key(self.unlocked),
            marking[self.locked] <= 1,
            marking[self.locked] + marking[self.unlocked] == 1,
    {
        let firings = choose|firings: Seq<Label>|
            net.can_run(net.initial_marking(), firings) && net.run(net.initial_marking(), firings)
                == marking;
        net.lemma_balanced_places_keep_their_tokens(
            self.unlocked,
            self.locked,
            net.initial_marking(),
            firings,
        );
    }
}

impl CondvarModel {
    /// Whether the net holds the arcs of the condition variable with the
    /// given transitions, and no other arc leads to `signal_output`.
    pub open spec fn is_modelled_in(self, net: NetModel, transitions: (Label, Label)) -> bool {
        &&& net.inputs.contains((self.wait_input, transitions.1))
        &&& net.inputs.contains((self.signal_input, transitions.1))
        &&& net.inputs.contains((self.signal_input, transitions.0))
        &&& net.inputs.contains((self.lost_signal_possible, transitions.0))
        &&& forall|t: Label| #[trigger]
            net.outputs.contains((t, self.signal_output)) ==> t == transitions.1
    }

    /// While no thread waits, a signal cannot reach a waiter: the
    /// transition that hands a signal to a waiter is not enabled while the
    /// place `wait_input` is empty.
    pub proof fn lemma_no_signal_without_waiter(
        self,
        net: NetModel,
        transitions: (Label, Label),
        marking: Marking,
    )
        requires
            self.is_modelled_in(net, transitions),
            marking.contains_key(self.wait_input) ==> marking[self.wait_input] == 0,
        ensures
            !net.enabled(marking, transitions.1),
    {
        if net.enabled(marking, transitions.1) {
            net.lemma_enabled_needs_token(marking, self.wait_input, transitions.1);
        }
    }

    /// Whether the condition variable stands in the net as it was made: its
    /// four places differ, `lost_signal_possible` holds the one token, the
    /// transition that loses a signal has the arcs from `lost_signal_possible`
    /// and `signal_input` and the arc to `lost_signal_possible`, the
    /// transition that hands a signal over has the arcs from `signal_input`
    /// and `wait_input` and the arcs to `signal_output` and
    /// `lost_signal_possible`, and the two transitions have no other arc.
    pub open spec fn is_wired_in(self, net: NetModel, transitions: (Label, Label)) -> bool {
        &&& self.lost_signal_possible != self.signal_input
        &&& self.lost_signal_possible != self.wait_input
        &&& self.lost_signal_possible != self.signal_output
        &&& self.signal_input != self.wait_input
        &&& self.signal_input != self.signal_output
        &&& self.wait_input != self.signal_output
        &&& transitions.0 != transitions.1
        &&& net.transitions.contains(transitions.0)
        &&& net.transitions.contains(transitions.1)
        &&& net.places.contains_key(self.lost_signal_possible)
        &&& net.places.contains_key(self.signal_input)
        &&& net.places.contains_key(self.wait_input)
        &&& net.places.contains_key(self.signal_output)
        &&& forall|p: Label| #[trigger]
            net.inputs.contains((p, transitions.0)) <==> p == self.lost_signal_possible || p
                == self.signal_input
        &&& forall|p: Label| #[trigger]
            net.outputs.contains((transitions.0, p)) <==> p == self.lost_signal_possible
        &&& forall|p: Label| #[trigger]
            net.inputs.contains((p, transitions.1)) <==> p == self.signal_input || p
                == self.wait_input
        &&& forall|p: Label| #[trigger]
            net.outputs.contains((transitions.1, p)) <==> p == self.signal_output || p
                == self.lost_signal_possible
    }

    /// Whether no call to `wait` is linked to the condition variable: no arc
    /// leads to `wait_input`, and only the transition that hands a signal
    /// over has an arc to `signal_output`.
    pub open spec fn has_no_waiter_in(self, net: NetModel, transitions: (Label, Label)) -> bool {
        &&& forall|t: Label| !(#[trigger] net.outputs.contains((t, self.wait_input)))
        &&& forall|t: Label| #[trigger]
            net.outputs.contains((t, self.signal_output)) ==> t == transitions.1
    }

    /// A new condition variable stands in the net as it was made, with the
    /// one token on `lost_signal_possible` and with nobody waiting. The net
    /// from which it is made must be closed, which a net of this library is.
    pub proof fn lemma_new_condvar_is_wired(net: NetModel, index: nat)
        requires
            net.closed(),
            CondvarModel::add_to(net, index).is_ok(),
        ensures
            CondvarModel::of_index(index).is_wired_in(
                CondvarModel::add_to(net, index),
                crate::naming::condvar::transition_labels_spec(index),
            ),
            CondvarModel::of_index(index).is_modelled_in(
                CondvarModel::add_to(net, index),
                crate::naming::condvar::transition_labels_spec(index),
            ),
            CondvarModel::of_index(index).has_no_waiter_in(
                CondvarModel::add_to(net, index),
                crate::naming::condvar::transition_labels_spec(index),
            ),
            CondvarModel::add_to(net, index).places[CondvarModel::of_index(
                index,
            ).lost_signal_possible] == 1,
            CondvarModel::add_to(net, index).places[CondvarModel::of_index(index).signal_input]
                == 0,
            CondvarModel::add_to(net, index).places[CondvarModel::of_index(index).wait_input] == 0,
            CondvarModel::add_to(net, index).places[CondvarModel::of_index(index).signal_output]
                == 0,
    {
    }

    /// A call to `notify_one` that is linked to a condition variable lets
    /// nobody wait on it who did not wait before.
    pub proof fn lemma_notify_adds_no_waiter(
        self,
        net: NetModel,
        transitions: (Label, Label),
        notify: Label,
    )
        requires
            self.has_no_waiter_in(net, transitions),
            self.signal_input != self.wait_input,
            self.signal_input != self.signal_output,
        ensures
            self.has_no_waiter_in(self.link_to_notify_one_call(net, notify), transitions),
    {
    }

    /// A signal that meets no waiter is lost. In a marking in which
    /// `signal_input` holds a signal, `lost_signal_possible` holds its token
    /// and `wait_input` is empty, the transition that loses a signal is
    /// enabled and the transition that hands it over is not. Firing takes the
    /// signal and changes nothing else at the four places, so that the next
    /// signal is lost in the same way.
    pub proof fn lemma_signal_is_lost(
        self,
        net: NetModel,
        transitions: (Label, Label),
        marking: Marking,
    )
        requires
            self.is_wired_in(net, transitions),
            marking.contains_key(self.lost_signal_possible),
            marking.contains_key(self.signal_input),
            marking.contains_key(self.wait_input),
            marking.contains_key(self.signal_output),
            marking[self.lost_signal_possible] >= 1,
            marking[self.signal_input] >= 1,
            marking[self.wait_input] == 0,
        ensures
            net.enabled(marking, transitions.0),
            !net.enabled(marking, transitions.1),
            net.fire(marking, transitions.0)[self.lost_signal_possible]
                == marking[self.lost_signal_possible],
            net.fire(marking, transitions.0)[self.signal_input] == marking[self.signal_input] - 1,
            net.fire(marking, transitions.0)[self.wait_input] == 0,
            net.fire(marking, transitions.0)[self.signal_output] == marking[self.signal_output],
    {
        assert(net.inputs.contains((self.wait_input, transitions.1)));
        assert(net.inputs.contains((self.lost_signal_possible, transitions.0)));
        assert(net.inputs.contains((self.signal_input, transitions.0)));
        assert(net.outputs.contains((transitions.0, self.lost_signal_possible)));
    }

    /// A condition variable on which nobody waits is silent: in a net in
    /// which no call to `wait` is linked to it and which starts with
    /// `wait_input` and `signal_output` empty, both places are empty in
    /// every marking that can be reached, and the transition that hands a
    /// signal over is never enabled.
    pub proof fn lemma_unwaited_condvar_is_silent(
        self,
        net: NetModel,
        transitions: (Label, Label),
        marking: Marking,
    )
        requires
            self.is_modelled_in(net, transitions),
            self.has_no_waiter_in(net, transitions),
            net.places.contains_key(self.wait_input),
            net.places.contains_key(self.signal_output),
            net.places[self.wait_input] == 0,
            net.places[self.signal_output] == 0,
            net.reachable(marking),
        ensures
            marking.contains_key(self.wait_input),
            marking.contains_key(self.signal_output),
            marking[self.wait_input] == 0,
            marking[self.signal_output] == 0,
            !net.enabled(marking, transitions.1),
    {
        let firings = choose|firings: Seq<Label>|
            net.can_run(net.initial_marking(), firings) && net.run(net.initial_marking(), firings)
                == marking;
        self.lemma_signals_without_waiter_are_lost(
            net,
            transitions,
            net.initial_marking(),
            firings,
        );
        self.lemma_no_signal_without_waiter(net, transitions, marking);
    }

    /// Signals without a waiter are lost: in a run in which no transition
    /// puts a token on `wait_input`, and which starts with `wait_input`
    /// and `signal_output` empty, the transition that hands a signal to a
    /// waiter never fires and `signal_output` stays empty.
    pub proof fn lemma_signals_without_waiter_are_lost(
        self,
        net: NetModel,
        transitions: (Label, Label),
        marking: Marking,
        firings: Seq<Label>,
    )
        requires
            self.is_modelled_in(net, transitions),
            marking.contains_key(self.wait_input),
            marking.contains_key(self.signal_output),
            marking[self.wait_input] == 0,
            marking[self.signal_output] == 0,
            net.can_run(marking, firings),
            forall|i: int|
                0 <= i < firings.len() ==> !net.outputs.contains(
                    (#[trigger] firings[i], self.wait_input),
                ),
        ensures
            forall|i: int| 0 <= i < firings.len() ==> #[trigger] firings[i] != transitions.1,
            net.run(marking, firings).contains_key(self.wait_input),
            net.run(marking, firings).contains_key(self.signal_output),
            net.run(marking, firings)[self.wait_input] == 0,
            net.run(marking, firings)[self.signal_output] == 0,
        decreases firings.len(),
    {
        if firings.len() > 0 {
            let earlier = firings.drop_last();
            let before = net.run(marking, earlier);
            assert forall|i: int| 0 <= i < earlier.len() implies !net.outputs.contains(
                (#[trigger] earlier[i], self.wait_input),
            ) by {
                assert(earlier[i] == firings[i]);
            }
            self.lemma_signals_without_waiter_are_lost(net, transitions, marking, earlier);
            self.lemma_no_signal_without_waiter(net, transitions, before);
            assert(firings.last() == firings[firings.len() - 1]);
            assert(firings.last() != transitions.1);
            assert forall|i: int| 0 <= i < firings.len() implies #[trigger] firings[i]
                != transitions.1 by {
                if i < earlier.len() {
                    assert(earlier[i] == firings[i]);
                }
            }
        }
    }
}


impl NetModel {
    /// Whether the mutex with the given index, if it is in the net, starts
    /// unlocked and the net is balanced for its two places: every
    /// transition that takes the token from `locked` puts it on `unlocked`,
    /// and every transition that takes it from `unlocked` puts it on `locked`.
    pub open spec fn guards_mutex(self, index: nat) -> bool {
        let mutex = MutexModel::of_index(index);
        &&& self.balanced(mutex.unlocked, mutex.locked)
        &&& forall|t: Label| #[trigger]
            self.inputs.contains((mutex.locked, t)) ==> self.outputs.contains((t, mutex.unlocked))
        &&& forall|t: Label| #[trigger]
            self.inputs.contains((mutex.unlocked, t)) ==> self.outputs.contains((t, mutex.locked))
        &&& self.places.contains_key(mutex.unlocked) || self.places.contains_key(mutex.locked)
            ==> self.places.contains_key(mutex.unlocked) && self.places.contains_key(
            mutex.locked,
        ) && self.places[mutex.unlocked] == 1 && self.places[mutex.locked] == 0
    }

    /// Whether the condition variable with the given index, if it is in
    /// the net, is modelled in it, starts with `wait_input` and
    /// `signal_output` empty, and only its own transition puts a token on its
    /// place `signal_output`.
    pub open spec fn guards_condvar(self, index: nat) -> bool {
        let condvar = CondvarModel::of_index(index);
        let transitions = crate::naming::condvar::transition_labels_spec(index);
        &&& forall|t: Label| #[trigger]
            self.outputs.contains((t, condvar.signal_output)) ==> t == transitions.1
        &&& self.places.contains_key(condvar.signal_output) ==> condvar.is_modelled_in(
            self,
            transitions,
        ) && self.places.contains_key(condvar.wait_input) && self.places[condvar.signal_output]
            == 0 && self.places[condvar.wait_input] == 0
    }

    /// Whether the net guards the mutex and the condition variable with the given index.
    pub open spec fn guards_index(self, index: nat) -> bool {
        self.guards_mutex(index) && self.guards_condvar(index)
    }

    /// Whether the net guards every mutex and every condition variable.
    pub open spec fn guards(self) -> bool {
        forall|index: nat| #[trigger] self.guards_index(index)
    }

    /// Whether the net has at its guarded places what `before` has there,
    /// the same places and the same arcs, and has on every place of
    /// `before` the tokens that it has in `before`.
    pub open spec fn quiet_since(self, before: NetModel) -> bool {
        &&& forall|place: Label| #[trigger]
            before.places.contains_key(place) ==> self.places.contains_key(place)
                && self.places[place] == before.places[place]
        &&& forall|place: Label|
            crate::naming::kinds::is_guarded_place(place) ==> (#[trigger] self.places.contains_key(
                place,
            ) == before.places.contains_key(place)) && self.places[place] == before.places[place]
        &&& forall|place: Label, transition: Label|
            crate::naming::kinds::is_guarded_place(place) ==> (#[trigger] self.inputs.contains(
                (place, transition),
            ) == before.inputs.contains((place, transition)))
        &&& forall|transition: Label, place: Label|
            crate::naming::kinds::is_guarded_place(place) ==> (#[trigger] self.outputs.contains(
                (transition, place),
            ) == before.outputs.contains((transition, place)))
    }

    /// Whether this net, if it was built without defect out of a net that
    /// is closed and guards its mutexes and condition variables, guards them too.
    pub open spec fn keeps_guards(self, before: NetModel) -> bool {
        self.is_ok() && before.closed() && before.guards() ==> self.guards()
    }

    /// A net that grew out of a net without a change at the guarded places
    /// guards what that net guards.
    pub proof fn lemma_quiet_keeps_guards(self, before: NetModel)
        requires
            self.extends(before),
            self.quiet_since(before),
            before.closed(),
            before.guards(),
        ensures
            self.guards(),
    {
        assert forall|index: nat| #[trigger] self.guards_index(index) by {
            let mutex = MutexModel::of_index(index);
            let condvar = CondvarModel::of_index(index);
            crate::naming::kinds::lemma_mutex_places(index);
            crate::naming::kinds::lemma_condvar_places(index);
            assert(before.guards_index(index));
            assert forall|t: Label| #[trigger] self.transitions.contains(t) implies self.takes(
                mutex.unlocked,
                t,
            ) + self.takes(mutex.locked, t) == self.gives(t, mutex.unlocked) + self.gives(
                t,
                mutex.locked,
            ) by {
                assert(self.inputs.contains((mutex.unlocked, t)) == before.inputs.contains(
                    (mutex.unlocked, t),
                ));
                assert(self.inputs.contains((mutex.locked, t)) == before.inputs.contains(
                    (mutex.locked, t),
                ));
                assert(self.outputs.contains((t, mutex.unlocked)) == before.outputs.contains(
                    (t, mutex.unlocked),
                ));
                assert(self.outputs.contains((t, mutex.locked)) == before.outputs.contains(
                    (t, mutex.locked),
                ));
                if before.transitions.contains(t) {
                } else {
                }
            }
            assert(self.places.contains_key(mutex.unlocked) == before.places.contains_key(
                mutex.unlocked,
            ));
            assert(self.places.contains_key(mutex.locked) == before.places.contains_key(
                mutex.locked,
            ));
            assert forall|t: Label| #[trigger]
                self.outputs.contains((t, condvar.signal_output)) implies t
                == crate::naming::condvar::transition_labels_spec(index).1 by {
                assert(before.outputs.contains((t, condvar.signal_output)));
            }
            assert(self.places.contains_key(condvar.signal_output) == before.places.contains_key(
                condvar.signal_output,
            ));
            assert(self.balanced(mutex.unlocked, mutex.locked));
            assert(self.places[mutex.unlocked] == before.places[mutex.unlocked]);
            assert(self.places[mutex.locked] == before.places[mutex.locked]);
            assert(self.guards_mutex(index));
            if self.places.contains_key(condvar.signal_output) {
                let transitions = crate::naming::condvar::transition_labels_spec(index);
                assert(before.places.contains_key(condvar.wait_input));
                assert(before.places.dom().contains(condvar.wait_input));
                assert(self.places.dom().contains(condvar.wait_input));
                assert(self.places[condvar.signal_output] == before.places[condvar.signal_output]);
                assert(condvar.is_modelled_in(before, transitions));
                assert(condvar.is_modelled_in(self, transitions));
            }
            assert(self.guards_condvar(index));
        }
    }
}

} // verus!
