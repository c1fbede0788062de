//! An immutable state-transition validator for workflows whose states are
//! data rather than code.
//!
//! A [`Machine`] is built from a [`MachineBuilder`], which validates every
//! state name and transition as it is added. Once built, a machine answers
//! whether a transition between two named states is allowed, and exposes its
//! transition graph for inspection. A [`MachineInstance`] walks a machine one
//! allowed transition at a time.
//!
//! The mathematical model of a machine is the finite set of its transitions,
//! each a pair of state names (sequences of `char`); every contract in this
//! crate is stated over that set and the functions of [`model`].

pub mod builder;
pub mod error;
pub mod inner;
pub mod instance;
pub mod laws;
pub mod machine;
pub mod model;
pub mod state_name;
pub mod transition;
pub mod transitions;

pub use builder::MachineBuilder;
pub use error::{StateError, StateErrorView};
pub use inner::MachineInner;
pub use instance::MachineInstance;
pub use machine::Machine;
pub use transitions::Transitions;
pub use transition::Transition;
