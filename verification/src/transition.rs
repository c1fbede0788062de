//! A validated directed transition between two states.

use vstd::prelude::*;
use crate::error::StateError;
use crate::model::{Edge, transition_problem, valid_edge};
use crate::state_name::{StateName, same_name};

verus! {

/// A validated directed transition between two states.
///
/// Both state names are valid and the source and target differ.
#[derive(Debug)]
pub struct Transition {
    source: StateName,
    target: StateName,
}

impl View for Transition {
    type V = Edge;

    closed spec fn view(&self) -> Edge {
        (self.source@, self.target@)
    }
}

impl Transition {
    /// A transition is always valid.
    #[verifier::type_invariant]
    pub(crate) open spec fn inv(self) -> bool {
        valid_edge(self@)
    }

    /// Creates a validated transition from `source` to `target`.
    ///
    /// The source name is checked first, then the target name; a transition
    /// whose two names are equal is [`StateError::SelfTransition`].
    pub fn try_new(source: &str, target: &str) -> (r: Result<Self, StateError>)
        ensures
            match transition_problem(source@, target@) {
                None => r matches Ok(t) && t@ == (source@, target@),
                Some(e) => r matches Err(x) && x@ == e,
            },
    {
        let source = StateName::try_from(source)?;
        let target = StateName::try_from(target)?;
        if same_name(source.as_str(), target.as_str()) {
            return Err(StateError::SelfTransition { state: source.into_string() });
        }
        Ok(Transition { source, target })
    }

    /// Returns the source state of the transition.
    pub fn source(&self) -> (r: &str)
        ensures
            r@ == self@.0,
    {
        self.source.as_str()
    }

    /// Returns the target state of the transition.
    pub fn target(&self) -> (r: &str)
        ensures
            r@ == self@.1,
    {
        self.target.as_str()
    }
}

impl Clone for Transition {
    fn clone(&self) -> (r: Self)
        ensures
            r@ == self@,
    {
        proof {
            use_type_invariant(self);
        }
        Transition { source: self.source.clone(), target: self.target.clone() }
    }
}

impl PartialEq for Transition {
    fn eq(&self, other: &Self) -> (r: bool) {
        same_name(self.source.as_str(), other.source.as_str()) && same_name(
            self.target.as_str(),
            other.target.as_str(),
        )
    }
}

impl vstd::std_specs::cmp::PartialEqSpecImpl for Transition {
    open spec fn obeys_eq_spec() -> bool {
        true
    }

    open spec fn eq_spec(&self, other: &Self) -> bool {
        self@ == other@
    }
}

impl Eq for Transition {

}

} // verus!
