//! The immutable state-machine definition.

use std::sync::Arc;
use vstd::prelude::*;
use crate::builder::MachineBuilder;
use crate::error::{StateError, StateErrorView};
use crate::inner::MachineInner;
use crate::instance::MachineInstance;
use crate::model::{Edge, lists_exactly, sources_of, states_of, successors, valid_graph};
use crate::transition::Transition;
use crate::transitions::{Transitions, edges_of, names};

verus! {

/// Returns a second handle to a shared machine definition (`Arc::clone`).
///
/// Trusted: the handle points to the same definition, so its value is the
/// same.
#[verifier::external_body]
pub(crate) fn share(handle: &Arc<MachineInner>) -> (r: Arc<MachineInner>)
    ensures
        r == *handle,
{
    Arc::clone(handle)
}

/// An immutable state-machine definition.
///
/// A `Machine` contains at least one transition, and every stored state name
/// and transition has already been validated by the builder. It is a shared
/// handle: instances created from it refer to the same definition.
#[derive(Debug)]
pub struct Machine {
    inner: Arc<MachineInner>,
}

impl View for Machine {
    type V = Set<Edge>;

    closed spec fn view(&self) -> Set<Edge> {
        self.inner@
    }
}

impl Machine {
    /// A machine holds at least one transition.
    #[verifier::type_invariant]
    closed spec fn inv(self) -> bool {
        self.inner@.len() > 0
    }

    /// Constructs a machine from a validated, non-empty transition table.
    pub(crate) fn new(transitions: Transitions) -> (r: Self)
        requires
            transitions@.len() > 0,
        ensures
            r@ == transitions@,
    {
        Machine { inner: Arc::new(MachineInner::new(transitions)) }
    }

    /// Constructs a machine handle from a shared, non-empty definition.
    pub(crate) fn from_inner(inner: Arc<MachineInner>) -> (r: Self)
        requires
            inner@.len() > 0,
        ensures
            r@ == inner@,
    {
        Machine { inner }
    }

    /// Returns a builder for constructing a [`Machine`].
    pub fn builder() -> (r: MachineBuilder)
        ensures
            r@ == Set::<Edge>::empty(),
    {
        MachineBuilder::new()
    }

    /// Returns whether the transition from `from` to `to` is allowed.
    ///
    /// State names are matched exactly; nothing is trimmed or normalised.
    pub fn can_transition(&self, from: &str, to: &str) -> (r: bool)
        ensures
            r == self@.contains((from@, to@)),
    {
        self.inner.can_transition(from, to)
    }

    /// Validates that the transition from `from` to `to` is allowed.
    ///
    /// # Errors
    ///
    /// Returns [`StateError::InvalidTransition`], carrying both names, when
    /// the machine does not contain the requested transition. State names are
    /// matched exactly.
    pub fn validate_transition(&self, from: &str, to: &str) -> (r: Result<(), StateError>)
        ensures
            r is Ok <==> self@.contains((from@, to@)),
            r matches Err(e) ==> e@ == StateErrorView::InvalidTransition(from@, to@),
    {
        self.inner.validate_transition(from, to)
    }

    /// Returns the number of transitions in the state machine.
    pub fn transition_count(&self) -> (r: usize)
        ensures
            r == self@.len(),
            r > 0,
            valid_graph(self@),
    {
        proof {
            use_type_invariant(self);
        }
        self.inner.transition_count()
    }

    /// Returns whether `state` appears as either endpoint of a transition.
    pub fn contains_state(&self, state: &str) -> (r: bool)
        ensures
            r == states_of(self@).contains(state@),
    {
        self.inner.contains_state(state)
    }

    /// Returns the states directly reachable from `from`, or `None` when
    /// `from` has no outgoing transitions.
    ///
    /// Superseded by [`Machine::targets_from`], which returns an empty
    /// collection in that case.
    pub fn targets(&self, from: &str) -> (r: Option<Vec<String>>)
        ensures
            r is None <==> successors(self@, from@) == Set::<Seq<char>>::empty(),
            r matches Some(v) ==> lists_exactly(names(v@), successors(self@, from@)),
    {
        let v = self.targets_from(from);
        if v.len() == 0 {
            proof {
                assert(names(v@).to_set() =~= Set::<Seq<char>>::empty());
            }
            None
        } else {
            proof {
                assert(names(v@).to_set().contains(names(v@)[0]));
            }
            Some(v)
        }
    }

    /// Returns the states directly reachable from `from`, each once, in an
    /// unspecified order.
    ///
    /// The result is empty when `from` has no outgoing transitions, which
    /// includes states that appear only as targets and unknown names.
    pub fn targets_from(&self, from: &str) -> (r: Vec<String>)
        ensures
            lists_exactly(names(r@), successors(self@, from@)),
    {
        self.inner.targets_from(from)
    }

    /// Returns every source state, each once, in an unspecified order.
    pub fn sources(&self) -> (r: Vec<String>)
        ensures
            lists_exactly(names(r@), sources_of(self@)),
    {
        self.inner.sources()
    }

    /// Returns every unique source and target state, each once, in an
    /// unspecified order.
    pub fn states(&self) -> (r: Vec<String>)
        ensures
            lists_exactly(names(r@), states_of(self@)),
    {
        self.inner.states()
    }

    /// Returns the transitions of the machine, each once, in an unspecified
    /// order.
    pub fn transitions(&self) -> (r: &[Transition])
        ensures
            lists_exactly(edges_of(r@), self@),
    {
        self.inner.transitions()
    }

    /// Creates an instance of this machine standing on `initial`.
    ///
    /// # Errors
    ///
    /// Returns [`StateError::UnknownInitialState`] when `initial` is not a
    /// state of the machine. Names are matched exactly.
    pub fn instance(&self, initial: &str) -> (r: Result<MachineInstance, StateError>)
        ensures
            r is Ok <==> states_of(self@).contains(initial@),
            r matches Ok(i) ==> i@ == (self@, initial@),
            r matches Err(e) ==> e@ == StateErrorView::UnknownInitialState(initial@),
    {
        MachineInstance::try_new(share(&self.inner), initial.to_owned())
    }
}

impl PartialEq for Machine {
    fn eq(&self, other: &Self) -> (r: bool) {
        *self.inner == *other.inner
    }
}

impl vstd::std_specs::cmp::PartialEqSpecImpl for Machine {
    open spec fn obeys_eq_spec() -> bool {
        true
    }

    open spec fn eq_spec(&self, other: &Self) -> bool {
        self@ == other@
    }
}

impl Eq for Machine {

}

} // verus!
