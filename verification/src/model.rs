//! The mathematical model of a transition graph.
//!
//! A graph is a finite set of transitions, each a pair of state names
//! `(source, target)`. The functions here name what the library's queries
//! return over such a set.

use vstd::prelude::*;
use crate::error::StateErrorView;
use crate::state_name::name_problem;

verus! {

/// A state name, as a sequence of characters.
pub type Name = Seq<char>;

/// A transition, as the pair of its source and target names.
pub type Edge = (Seq<char>, Seq<char>);

/// What is wrong with a transition from `source` to `target`, if anything.
///
/// The source name is checked first, then the target name, then that the two
/// differ.
pub open spec fn transition_problem(source: Name, target: Name) -> Option<StateErrorView> {
    if name_problem(source) is Some {
        name_problem(source)
    } else if name_problem(target) is Some {
        name_problem(target)
    } else if source == target {
        Some(StateErrorView::SelfTransition(source))
    } else {
        None
    }
}

/// A transition that the library can hold: both names valid, and distinct.
pub open spec fn valid_edge(e: Edge) -> bool {
    transition_problem(e.0, e.1) is None
}

/// Every transition of the graph is valid.
pub open spec fn valid_graph(g: Set<Edge>) -> bool {
    &&& g.finite()
    &&& forall|e: Edge| #[trigger] g.contains(e) ==> valid_edge(e)
}

/// The states with at least one outgoing transition.
pub open spec fn sources_of(g: Set<Edge>) -> Set<Name> {
    Set::new(|s: Name| exists|t: Name| #[trigger] g.contains((s, t)))
}

/// The states with at least one incoming transition.
pub open spec fn targets_of(g: Set<Edge>) -> Set<Name> {
    Set::new(|t: Name| exists|s: Name| #[trigger] g.contains((s, t)))
}

/// The states that appear as either endpoint of a transition.
pub open spec fn states_of(g: Set<Edge>) -> Set<Name> {
    sources_of(g) + targets_of(g)
}

/// The states directly reachable from `source`.
pub open spec fn successors(g: Set<Edge>, source: Name) -> Set<Name> {
    Set::new(|t: Name| g.contains((source, t)))
}

/// `state` has no outgoing transition.
pub open spec fn is_terminal_in(g: Set<Edge>, state: Name) -> bool {
    !sources_of(g).contains(state)
}

/// The set of distinct elements of `s`, given that `s` repeats none of them.
pub open spec fn lists_exactly<A>(s: Seq<A>, set: Set<A>) -> bool {
    s.no_duplicates() && s.to_set() == set
}

/// A finite graph with a state has a transition.
pub proof fn lemma_state_implies_nonempty(g: Set<Edge>, s: Name)
    requires
        g.finite(),
        states_of(g).contains(s),
    ensures
        g.len() > 0,
{
    if sources_of(g).contains(s) {
        let t = choose|t: Name| g.contains((s, t));
        assert(g.contains((s, t)));
    } else {
        let t = choose|t: Name| g.contains((t, s));
        assert(g.contains((t, s)));
    }
}

} // verus!
