//! The shared, immutable machine definition behind a [`crate::Machine`].

use vstd::prelude::*;
use crate::error::{StateError, StateErrorView};
use crate::model::{
    Edge, is_terminal_in, lists_exactly, sources_of, states_of, successors, valid_graph,
};
use crate::transition::Transition;
use crate::transitions::{Transitions, edges_of, names};

verus! {

/// The internally shared immutable state-machine definition.
#[derive(Debug)]
pub struct MachineInner {
    transitions: Transitions,
}

impl View for MachineInner {
    type V = Set<Edge>;

    closed spec fn view(&self) -> Set<Edge> {
        self.transitions@
    }
}

impl MachineInner {
    /// Constructs a machine definition from validated transitions.
    pub fn new(transitions: Transitions) -> (r: Self)
        ensures
            r@ == transitions@,
    {
        MachineInner { transitions }
    }

    /// Returns whether the transition from `from` to `to` is allowed.
    pub fn can_transition(&self, from: &str, to: &str) -> (r: bool)
        ensures
            r == self@.contains((from@, to@)),
    {
        self.transitions.contains(from, to)
    }

    /// Validates that the transition from `from` to `to` is allowed.
    ///
    /// Names are matched exactly; an absent transition is
    /// [`StateError::InvalidTransition`], which carries both names.
    pub fn validate_transition(&self, from: &str, to: &str) -> (r: Result<(), StateError>)
        ensures
            r is Ok <==> self@.contains((from@, to@)),
            r matches Err(e) ==> e@ == StateErrorView::InvalidTransition(from@, to@),
    {
        if self.can_transition(from, to) {
            Ok(())
        } else {
            Err(StateError::InvalidTransition { from: from.to_owned(), to: to.to_owned() })
        }
    }

    /// Returns the number of transitions in the machine.
    pub fn transition_count(&self) -> (r: usize)
        ensures
            r == self@.len(),
            valid_graph(self@),
    {
        self.transitions.len()
    }

    /// Returns whether `state` appears as either endpoint of a transition.
    pub fn contains_state(&self, state: &str) -> (r: bool)
        ensures
            r == states_of(self@).contains(state@),
    {
        self.transitions.contains_state(state)
    }

    /// Returns the states directly reachable from `from`, each once, in an
    /// unspecified order; empty when `from` has no outgoing transition.
    pub fn targets_from(&self, from: &str) -> (r: Vec<String>)
        ensures
            lists_exactly(names(r@), successors(self@, from@)),
    {
        self.transitions.targets_from(from)
    }

    /// Returns every state with an outgoing transition, each once, in an
    /// unspecified order.
    pub fn sources(&self) -> (r: Vec<String>)
        ensures
            lists_exactly(names(r@), sources_of(self@)),
    {
        self.transitions.sources()
    }

    /// Returns every state of the machine, each once, in an unspecified order.
    pub fn states(&self) -> (r: Vec<String>)
        ensures
            lists_exactly(names(r@), states_of(self@)),
    {
        self.transitions.states()
    }

    /// Returns the transitions of the machine, each once, in an unspecified
    /// order.
    pub fn transitions(&self) -> (r: &[Transition])
        ensures
            lists_exactly(edges_of(r@), self@),
    {
        self.transitions.iter()
    }

    /// A state is terminal when it has no outgoing transitions.
    pub fn is_terminal(&self, state: &str) -> (r: bool)
        ensures
            r == is_terminal_in(self@, state@),
    {
        let targets = self.transitions.targets_from(state);
        proof {
            let g = self@;
            let s = state@;
            if targets.len() == 0 {
                assert(names(targets@).to_set() =~= Set::empty());
                if sources_of(g).contains(s) {
                    let t = choose|t: Seq<char>| g.contains((s, t));
                    assert(successors(g, s).contains(t));
                }
            } else {
                assert(names(targets@).to_set().contains(names(targets@)[0]));
                let t = names(targets@)[0];
                assert(g.contains((s, t)));
            }
        }
        targets.len() == 0
    }
}

impl PartialEq for MachineInner {
    fn eq(&self, other: &Self) -> (r: bool) {
        self.transitions == other.transitions
    }
}

impl vstd::std_specs::cmp::PartialEqSpecImpl for MachineInner {
    open spec fn obeys_eq_spec() -> bool {
        true
    }

    open spec fn eq_spec(&self, other: &Self) -> bool {
        self@ == other@
    }
}

impl Eq for MachineInner {

}

} // verus!
