//! Properties of the library that relate several operations, proved over the
//! model that the operations' contracts speak of.
//!
//! `Machine::can_transition`, `Machine::targets_from`, `Machine::sources`,
//! `Machine::states`, `Machine::transitions` and the counts all return
//! exactly the model functions used below, so each law here is a law of
//! those operations.

use vstd::prelude::*;
use crate::error::StateErrorView;
use crate::model::{
    Edge, Name, is_terminal_in, lists_exactly, sources_of, states_of, successors, targets_of,
    transition_problem, valid_edge, valid_graph,
};
use crate::state_name::{is_unicode_whitespace, name_problem, valid_state_name};

verus! {

/// A transition that was added is allowed afterwards, and adding it keeps
/// every transition that was there before.
pub proof fn law_added_transition_is_allowed(g: Set<Edge>, from: Name, to: Name, other: Edge)
    ensures
        g.insert((from, to)).contains((from, to)),
        g.contains(other) ==> g.insert((from, to)).contains(other),
        states_of(g.insert((from, to))).contains(from),
        states_of(g.insert((from, to))).contains(to),
{
    let h = g.insert((from, to));
    assert(h.contains((from, to)));
    assert(sources_of(h).contains(from));
    assert(targets_of(h).contains(to));
}

/// Adding the same transition more than once has no additional effect.
pub proof fn law_duplicate_transition_has_no_effect(g: Set<Edge>, e: Edge)
    ensures
        g.insert(e).insert(e) == g.insert(e),
        g.contains(e) ==> g.insert(e) == g,
{
    assert(g.insert(e).insert(e) =~= g.insert(e));
    if g.contains(e) {
        assert(g.insert(e) =~= g);
    }
}

/// The targets listed from a state are exactly the states it can move to.
pub proof fn law_targets_agree_with_transitions(g: Set<Edge>, source: Name, target: Name)
    ensures
        successors(g, source).contains(target) <==> g.contains((source, target)),
{
}

/// Every source is a state, every target is a state, and the states are
/// exactly the sources and the targets.
pub proof fn law_sources_and_targets_are_states(g: Set<Edge>, s: Name)
    ensures
        sources_of(g).contains(s) ==> states_of(g).contains(s),
        targets_of(g).contains(s) ==> states_of(g).contains(s),
        states_of(g).contains(s) ==> sources_of(g).contains(s) || targets_of(g).contains(s),
{
}

/// Both endpoints of an allowed transition are states.
pub proof fn law_endpoints_are_states(g: Set<Edge>, source: Name, target: Name)
    requires
        g.contains((source, target)),
    ensures
        states_of(g).contains(source),
        states_of(g).contains(target),
        sources_of(g).contains(source),
{
    assert(sources_of(g).contains(source));
    assert(targets_of(g).contains(target));
}

/// A state is terminal exactly when it can move nowhere.
pub proof fn law_terminal_means_no_transition(g: Set<Edge>, s: Name, t: Name)
    ensures
        is_terminal_in(g, s) <==> successors(g, s) == Set::<Name>::empty(),
        is_terminal_in(g, s) ==> !g.contains((s, t)),
{
    if !is_terminal_in(g, s) {
        let u = choose|u: Name| g.contains((s, u));
        assert(successors(g, s).contains(u));
    } else {
        assert(successors(g, s) =~= Set::<Name>::empty());
    }
}

/// A listing without repetition has as many entries as the set it lists: the
/// counts of transitions and states agree with the listings of transitions
/// and states.
pub proof fn law_listing_length_is_count<A>(s: Seq<A>, set: Set<A>)
    requires
        lists_exactly(s, set),
    ensures
        s.len() == set.len(),
        set.finite(),
{
    s.unique_seq_to_set();
}

/// Every state of a machine has a valid name, and no transition of a machine
/// leads from a state to itself.
pub proof fn law_machine_states_are_valid(g: Set<Edge>, s: Name, t: Name)
    requires
        valid_graph(g),
    ensures
        states_of(g).contains(s) ==> valid_state_name(s),
        g.contains((s, t)) ==> s != t && valid_state_name(s) && valid_state_name(t),
{
    if sources_of(g).contains(s) {
        let u = choose|u: Name| g.contains((s, u));
        assert(valid_edge((s, u)));
    }
    if targets_of(g).contains(s) {
        let u = choose|u: Name| g.contains((u, s));
        assert(valid_edge((u, s)));
    }
    if g.contains((s, t)) {
        assert(valid_edge((s, t)));
    }
}

/// A machine, which holds at least one transition, has at least two states.
pub proof fn law_machine_has_two_states(g: Set<Edge>)
    requires
        valid_graph(g),
        g.len() > 0,
    ensures
        states_of(g).finite(),
        states_of(g).len() >= 2,
{
    let st = states_of(g);
    let ends = g.map(|e: Edge| e.0) + g.map(|e: Edge| e.1);
    g.lemma_map_finite(|e: Edge| e.0);
    g.lemma_map_finite(|e: Edge| e.1);
    assert forall|s: Name| #[trigger] st.contains(s) implies ends.contains(s) by {
        if sources_of(g).contains(s) {
            let u = choose|u: Name| g.contains((s, u));
            assert(g.map(|e: Edge| e.0).contains((s, u).0));
        } else {
            let u = choose|u: Name| g.contains((u, s));
            assert(g.map(|e: Edge| e.1).contains((u, s).1));
        }
    }
    vstd::set_lib::lemma_len_subset(st, ends);
    let e = g.choose();
    assert(g.contains(e));
    assert(valid_edge(e));
    assert(g.contains((e.0, e.1)));
    assert(sources_of(g).contains(e.0));
    assert(targets_of(g).contains(e.1));
    let pair = set![e.0, e.1];
    assert(pair.len() == 2) by {
        assert(set![e.0].insert(e.1).len() == set![e.0].len() + 1);
    }
    vstd::set_lib::lemma_len_subset(pair, st);
}

/// An accepted name is non-empty, has a non-whitespace character, and
/// neither begins nor ends with whitespace.
pub proof fn law_accepted_names_are_trimmed(s: Name)
    requires
        valid_state_name(s),
    ensures
        s.len() > 0,
        !is_unicode_whitespace(s[0]),
        !is_unicode_whitespace(s[s.len() - 1]),
        exists|i: int| 0 <= i < s.len() && !is_unicode_whitespace(#[trigger] s[i]),
{
}

/// A name is accepted exactly when it has a character that is not
/// whitespace and neither its first nor its last character is whitespace.
/// Nothing else counts: internal whitespace, punctuation and length never
/// make a name invalid.
pub proof fn law_valid_names_are_exactly_the_trimmed_non_blank_ones(s: Name)
    ensures
        name_problem(s) is None <==> (exists|i: int|
            0 <= i < s.len() && !is_unicode_whitespace(#[trigger] s[i]))
            && !is_unicode_whitespace(s[0]) && !is_unicode_whitespace(s[s.len() - 1]),
{
}

/// A rejected name is reported as empty exactly when every character is
/// whitespace (the empty name included), and otherwise as ambiguous,
/// carrying the name unchanged, exactly when it has a non-whitespace
/// character and begins or ends with whitespace.
pub proof fn law_rejected_names_are_classified(s: Name)
    ensures
        name_problem(s) == Some(StateErrorView::EmptyState) <==> (forall|i: int|
            0 <= i < s.len() ==> is_unicode_whitespace(#[trigger] s[i])),
        name_problem(s) == Some(StateErrorView::AmbiguousStateName(s)) <==> (exists|i: int|
            0 <= i < s.len() && !is_unicode_whitespace(#[trigger] s[i])) && (is_unicode_whitespace(
            s[0],
        ) || is_unicode_whitespace(s[s.len() - 1])),
        name_problem(s) is None || name_problem(s) == Some(StateErrorView::EmptyState)
            || name_problem(s) == Some(StateErrorView::AmbiguousStateName(s)),
{
}

/// Between two valid names, a transition is refused exactly when the names
/// are identical, and then as a self-transition of that name: any two
/// distinct valid names, however alike, make a valid transition.
pub proof fn law_only_identical_names_are_self_transitions(s: Name, t: Name)
    requires
        name_problem(s) is None,
        name_problem(t) is None,
    ensures
        transition_problem(s, t) is None <==> s != t,
        s == t ==> transition_problem(s, t) == Some(StateErrorView::SelfTransition(s)),
{
}

/// A transition is accepted exactly when both names are accepted and the
/// names differ.
pub proof fn law_valid_transitions_are_pairs_of_distinct_valid_names(s: Name, t: Name)
    ensures
        transition_problem(s, t) is None <==> name_problem(s) is None && name_problem(t) is None
            && s != t,
{
}

/// Source and target names are checked by the same rules: an invalid name
/// is reported the same way on either side of a transition.
pub proof fn law_name_checks_are_symmetric(valid: Name, invalid: Name)
    requires
        valid_state_name(valid),
        !valid_state_name(invalid),
    ensures
        transition_problem(valid, invalid) == name_problem(invalid),
        transition_problem(invalid, valid) == name_problem(invalid),
{
}

} // verus!
