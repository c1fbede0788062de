//! Incremental, validating construction of a [`crate::Machine`].

use vstd::prelude::*;
use crate::error::{StateError, StateErrorView};
use crate::machine::Machine;
use crate::model::{Edge, states_of, transition_problem, valid_graph};
use crate::transition::Transition;
use crate::transitions::Transitions;

verus! {

/// A builder for constructing a [`Machine`].
///
/// Transitions are added with [`MachineBuilder::try_allow`] and validated
/// immediately before being stored. [`MachineBuilder::build`] only succeeds
/// when at least one transition has been configured.
///
/// State names are case-sensitive. Empty state names and self-transitions are
/// rejected. Cycles are allowed.
#[derive(Debug)]
pub struct MachineBuilder {
    transitions: Transitions,
}

impl View for MachineBuilder {
    type V = Set<Edge>;

    closed spec fn view(&self) -> Set<Edge> {
        self.transitions@
    }
}

impl MachineBuilder {
    /// Creates an empty builder.
    pub fn new() -> (r: Self)
        ensures
            r@ == Set::<Edge>::empty(),
    {
        MachineBuilder { transitions: Transitions::new() }
    }

    /// Adds an allowed transition from one state to another, for callers
    /// that have already validated it.
    ///
    /// Adding the same transition more than once has no additional effect.
    /// Superseded by [`MachineBuilder::try_allow`].
    pub fn allow(self, from: &str, to: &str) -> (r: Self)
        requires
            transition_problem(from@, to@) is None,
        ensures
            r@ == self@.insert((from@, to@)),
    {
        match self.try_allow(from, to) {
            Ok(b) => b,
            Err(_) => {
                proof {
                    assert(false);
                }
                MachineBuilder::new()
            },
        }
    }

    /// Adds an allowed transition from one state to another.
    ///
    /// Adding the same transition more than once has no additional effect.
    ///
    /// # Errors
    ///
    /// The source name is checked first, then the target name, then that
    /// they differ:
    ///
    /// - [`StateError::EmptyState`] if a name has no non-whitespace character;
    /// - [`StateError::AmbiguousStateName`] if a name begins or ends with
    ///   Unicode whitespace (the error carries that name);
    /// - [`StateError::SelfTransition`] if both names are the same.
    pub fn try_allow(self, from: &str, to: &str) -> (r: Result<Self, StateError>)
        ensures
            match transition_problem(from@, to@) {
                None => r matches Ok(b) && b@ == self@.insert((from@, to@)),
                Some(e) => r matches Err(x) && x@ == e,
            },
    {
        let transition = Transition::try_new(from, to)?;
        let mut builder = self;
        builder.transitions.add(transition);
        Ok(builder)
    }

    /// Builds an immutable [`Machine`] holding the configured transitions.
    ///
    /// # Errors
    ///
    /// Returns [`StateError::NoTransitions`] if no transitions were configured.
    pub fn build(self) -> (r: Result<Machine, StateError>)
        ensures
            r is Err <==> self@ == Set::<Edge>::empty(),
            r matches Ok(m) ==> m@ == self@,
            r matches Err(e) ==> e@ == StateErrorView::NoTransitions,
    {
        if self.transitions.len() == 0 {
            proof {
                self.transitions@.lemma_len0_is_empty();
            }
            return Err(StateError::NoTransitions);
        }
        Ok(Machine::new(self.transitions))
    }

    /// Returns the number of transitions added so far.
    pub fn transition_count(&self) -> (r: usize)
        ensures
            r == self@.len(),
            valid_graph(self@),
    {
        self.transitions.len()
    }

    /// Returns the number of unique states used by the configured transitions.
    pub fn state_count(&self) -> (r: usize)
        ensures
            r == states_of(self@).len(),
    {
        self.transitions.state_count()
    }
}

impl PartialEq for MachineBuilder {
    fn eq(&self, other: &Self) -> (r: bool) {
        self.transitions == other.transitions
    }
}

impl vstd::std_specs::cmp::PartialEqSpecImpl for MachineBuilder {
    open spec fn obeys_eq_spec() -> bool {
        true
    }

    open spec fn eq_spec(&self, other: &Self) -> bool {
        self@ == other@
    }
}

impl Eq for MachineBuilder {

}

} // verus!
