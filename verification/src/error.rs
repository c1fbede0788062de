//! The errors of the library and their mathematical model.

use vstd::prelude::*;

verus! {

/// Errors produced when constructing or using a state machine.
///
/// Each variant represents either a violated construction invariant or an
/// invalid operation against a machine definition.
#[derive(Debug)]
pub enum StateError {
    /// The machine must contain at least one transition.
    NoTransitions,
    /// A state name must contain at least one non-whitespace character.
    EmptyState,
    /// A state name must not begin or end with Unicode whitespace.
    AmbiguousStateName {
        /// The offending state name, exactly as supplied.
        state: String,
    },
    /// A transition must connect two different states.
    SelfTransition {
        /// The state that was used as both the source and destination.
        state: String,
    },
    /// The requested transition must be present in the machine definition.
    InvalidTransition {
        /// The source state.
        from: String,
        /// The requested destination state.
        to: String,
    },
    /// An instance must start on a state of its machine.
    UnknownInitialState {
        /// The requested initial state.
        state: String,
    },
}

/// The mathematical value of a [`StateError`]: the variant, with each
/// carried name taken as its sequence of characters.
pub enum StateErrorView {
    NoTransitions,
    EmptyState,
    AmbiguousStateName(Seq<char>),
    SelfTransition(Seq<char>),
    InvalidTransition(Seq<char>, Seq<char>),
    UnknownInitialState(Seq<char>),
}

impl View for StateError {
    type V = StateErrorView;

    open spec fn view(&self) -> StateErrorView {
        match self {
            StateError::NoTransitions => StateErrorView::NoTransitions,
            StateError::EmptyState => StateErrorView::EmptyState,
            StateError::AmbiguousStateName { state } => StateErrorView::AmbiguousStateName(state@),
            StateError::SelfTransition { state } => StateErrorView::SelfTransition(state@),
            StateError::InvalidTransition { from, to } => StateErrorView::InvalidTransition(
                from@,
                to@,
            ),
            StateError::UnknownInitialState { state } => StateErrorView::UnknownInitialState(
                state@,
            ),
        }
    }
}

/// The human-readable description of an error.
pub open spec fn error_message(e: StateErrorView) -> Seq<char> {
    match e {
        StateErrorView::NoTransitions => "state machine must define at least one transition"@,
        StateErrorView::EmptyState => "state names must not be empty"@,
        StateErrorView::AmbiguousStateName(_) =>
            "state names must not begin or end with Unicode whitespace"@,
        StateErrorView::SelfTransition(s) => "self-transitions are not allowed for state `"@ + s
            + "`"@,
        StateErrorView::InvalidTransition(f, t) => "transition from `"@ + f + "` to `"@ + t
            + "` is not allowed"@,
        StateErrorView::UnknownInitialState(s) => "initial state `"@ + s
            + "` is not a state of the machine"@,
    }
}

impl StateError {
    /// Returns the human-readable description of this error.
    pub fn message(&self) -> (r: String)
        ensures
            r@ == error_message(self@),
    {
        match self {
            StateError::NoTransitions => "state machine must define at least one transition".to_owned(),
            StateError::EmptyState => "state names must not be empty".to_owned(),
            StateError::AmbiguousStateName { .. } =>
                "state names must not begin or end with Unicode whitespace".to_owned(),
            StateError::SelfTransition { state } => {
                let mut r = "self-transitions are not allowed for state `".to_owned();
                r.append(state.as_str());
                r.append("`");
                r
            },
            StateError::InvalidTransition { from, to } => {
                let mut r = "transition from `".to_owned();
                r.append(from.as_str());
                r.append("` to `");
                r.append(to.as_str());
                r.append("` is not allowed");
                r
            },
            StateError::UnknownInitialState { state } => {
                let mut r = "initial state `".to_owned();
                r.append(state.as_str());
                r.append("` is not a state of the machine");
                r
            },
        }
    }
}

impl PartialEq for StateError {
    fn eq(&self, other: &Self) -> (r: bool) {
        match (self, other) {
            (StateError::NoTransitions, StateError::NoTransitions) => true,
            (StateError::EmptyState, StateError::EmptyState) => true,
            (
                StateError::AmbiguousStateName { state: a },
                StateError::AmbiguousStateName { state: b },
            ) => *a == *b,
            (StateError::SelfTransition { state: a }, StateError::SelfTransition { state: b }) =>
                *a == *b,
            (
                StateError::InvalidTransition { from: f1, to: t1 },
                StateError::InvalidTransition { from: f2, to: t2 },
            ) => *f1 == *f2 && *t1 == *t2,
            (
                StateError::UnknownInitialState { state: a },
                StateError::UnknownInitialState { state: b },
            ) => *a == *b,
            _ => false,
        }
    }
}

impl vstd::std_specs::cmp::PartialEqSpecImpl for StateError {
    open spec fn obeys_eq_spec() -> bool {
        true
    }

    open spec fn eq_spec(&self, other: &Self) -> bool {
        self@ == other@
    }
}

impl Eq for StateError {

}

} // verus!
