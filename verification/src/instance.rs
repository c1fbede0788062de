//! A running instance of a machine: a current state that moves only along
//! allowed transitions.

use std::sync::Arc;
use vstd::prelude::*;
use crate::error::{StateError, StateErrorView};
use crate::inner::MachineInner;
use crate::machine::{Machine, share};
use crate::model::{Edge, Name, is_terminal_in, lemma_state_implies_nonempty, states_of, targets_of};

verus! {

/// The instance of a state machine.
///
/// An instance always stands on a state of its machine. Its model is the pair
/// of the machine's transitions and the current state.
#[derive(Debug)]
pub struct MachineInstance {
    machine: Arc<MachineInner>,
    current: String,
}

impl View for MachineInstance {
    type V = (Set<Edge>, Name);

    closed spec fn view(&self) -> (Set<Edge>, Name) {
        (self.machine@, self.current@)
    }
}

impl MachineInstance {
    /// The current state is a state of a non-empty machine.
    #[verifier::type_invariant]
    closed spec fn inv(self) -> bool {
        &&& self.machine@.finite()
        &&& self.machine@.len() > 0
        &&& states_of(self.machine@).contains(self.current@)
    }

    /// Creates an instance standing on `initial`.
    ///
    /// Returns [`StateError::UnknownInitialState`] if `initial` is not a
    /// state of `machine`.
    pub(crate) fn try_new(machine: Arc<MachineInner>, initial: String) -> (r: Result<
        Self,
        StateError,
    >)
        ensures
            r is Ok <==> states_of(machine@).contains(initial@),
            r matches Ok(i) ==> i@ == (machine@, initial@),
            r matches Err(e) ==> e@ == StateErrorView::UnknownInitialState(initial@),
    {
        let _ = machine.transition_count();
        if !machine.contains_state(initial.as_str()) {
            return Err(StateError::UnknownInitialState { state: initial });
        }
        proof {
            lemma_state_implies_nonempty(machine@, initial@);
        }
        Ok(MachineInstance { machine, current: initial })
    }

    /// Returns the current state, which is always a state of the machine.
    pub fn state(&self) -> (r: &str)
        ensures
            r@ == self@.1,
            states_of(self@.0).contains(r@),
    {
        proof {
            use_type_invariant(self);
        }
        self.current.as_str()
    }

    /// Returns whether the instance can transition to `target`.
    pub fn can_transition_to(&self, target: &str) -> (r: bool)
        ensures
            r == self@.0.contains((self@.1, target@)),
    {
        self.machine.can_transition(self.current.as_str(), target)
    }

    /// Changes the state to `target` if the transition is allowed.
    ///
    /// # Errors
    ///
    /// Returns [`StateError::InvalidTransition`] when the machine does not
    /// allow the transition; the instance is then left unchanged.
    pub fn transition_to(&mut self, target: &str) -> (r: Result<(), StateError>)
        ensures
            r is Ok <==> old(self)@.0.contains((old(self)@.1, target@)),
            r is Ok ==> final(self)@ == (old(self)@.0, target@),
            r matches Err(e) ==> final(self)@ == old(self)@ && e@
                == StateErrorView::InvalidTransition(old(self)@.1, target@),
    {
        proof {
            use_type_invariant(&*self);
        }
        self.machine.validate_transition(self.current.as_str(), target)?;
        proof {
            assert(targets_of(self.machine@).contains(target@));
        }
        self.current = target.to_owned();
        Ok(())
    }

    /// Returns whether the current state has no outgoing transitions.
    pub fn is_terminal(&self) -> (r: bool)
        ensures
            r == is_terminal_in(self@.0, self@.1),
    {
        self.machine.is_terminal(self.current.as_str())
    }

    /// Returns a shared handle to this instance's machine definition.
    pub fn machine(&self) -> (r: Machine)
        ensures
            r@ == self@.0,
    {
        proof {
            use_type_invariant(self);
        }
        Machine::from_inner(share(&self.machine))
    }
}

impl PartialEq for MachineInstance {
    fn eq(&self, other: &Self) -> (r: bool) {
        *self.machine == *other.machine && self.current == other.current
    }
}

impl vstd::std_specs::cmp::PartialEqSpecImpl for MachineInstance {
    open spec fn obeys_eq_spec() -> bool {
        true
    }

    open spec fn eq_spec(&self, other: &Self) -> bool {
        self@ == other@
    }
}

impl Eq for MachineInstance {

}

} // verus!
