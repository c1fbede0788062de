//! The collection of transitions of a builder or a machine.

use vstd::prelude::*;
use crate::model::{
    Edge, Name, lists_exactly, sources_of, states_of, successors, targets_of, valid_edge, valid_graph,
};
use crate::state_name::same_name;
use crate::transition::Transition;

verus! {

/// The names held by a vector of strings, in order.
pub open spec fn names(v: Seq<String>) -> Seq<Name> {
    v.map_values(|s: String| s@)
}

/// The transitions held by a sequence, in order.
pub open spec fn edges_of(v: Seq<Transition>) -> Seq<Edge> {
    v.map_values(|t: Transition| t@)
}

/// Returns whether `name` is one of the names in `v`.
pub fn contains_name(v: &Vec<String>, name: &str) -> (r: bool)
    ensures
        r == names(v@).contains(name@),
{
    let mut i: usize = 0;
    while i < v.len()
        invariant
            i <= v@.len(),
            forall|j: int| 0 <= j < i ==> names(v@)[j] != name@,
        decreases v@.len() - i,
    {
        if same_name(v[i].as_str(), name) {
            assert(names(v@)[i as int] == name@);
            return true;
        }
        i = i + 1;
    }
    false
}

/// Appends `name` to `v` unless `v` already holds it.
pub fn push_unique(v: &mut Vec<String>, name: &str)
    requires
        names(old(v)@).no_duplicates(),
    ensures
        names(final(v)@).no_duplicates(),
        names(final(v)@).to_set() == names(old(v)@).to_set().insert(name@),
        names(final(v)@).len() <= names(old(v)@).len() + 1,
{
    let ghost before = names(v@);
    if !contains_name(v, name) {
        v.push(name.to_owned());
        proof {
            assert(names(v@) =~= before.push(name@));
            before.lemma_push_to_set_commute(name@);
        }
    } else {
        proof {
            assert(before.to_set() =~= before.to_set().insert(name@));
        }
    }
}

/// A collection of unique, valid transitions.
#[derive(Debug)]
pub struct Transitions {
    items: Vec<Transition>,
}

impl View for Transitions {
    type V = Set<Edge>;

    closed spec fn view(&self) -> Set<Edge> {
        edges_of(self.items@).to_set()
    }
}

impl Transitions {
    /// Nothing is held twice, and every transition held is valid.
    #[verifier::type_invariant]
    closed spec fn inv(self) -> bool {
        &&& edges_of(self.items@).no_duplicates()
        &&& forall|i: int|
            0 <= i < self.items@.len() ==> valid_edge(#[trigger] edges_of(self.items@)[i])
    }

    /// Constructs an empty collection.
    pub fn new() -> (r: Self)
        ensures
            r@ == Set::<Edge>::empty(),
    {
        let r = Transitions { items: Vec::new() };
        proof {
            assert(r@ =~= Set::<Edge>::empty());
        }
        r
    }

    /// Returns the number of transitions in the collection.
    pub fn len(&self) -> (r: usize)
        ensures
            r == self@.len(),
            valid_graph(self@),
    {
        proof {
            use_type_invariant(self);
            let es = edges_of(self.items@);
            es.unique_seq_to_set();
            assert forall|e: Edge| #[trigger] self@.contains(e) implies valid_edge(e) by {
                let i = es.index_of(e);
            }
        }
        self.items.len()
    }

    /// Returns whether the collection holds no transition.
    pub fn is_empty(&self) -> (r: bool)
        ensures
            r == (self@ == Set::<Edge>::empty()),
    {
        let n = self.len();
        proof {
            if n != 0 {
                assert(self@.len() != 0);
            } else {
                assert(self@ =~= Set::<Edge>::empty());
            }
        }
        n == 0
    }

    /// Returns whether the collection holds the transition from `source` to `target`.
    pub fn contains(&self, source: &str, target: &str) -> (r: bool)
        ensures
            r == self@.contains((source@, target@)),
    {
        let ghost es = edges_of(self.items@);
        let mut i: usize = 0;
        while i < self.items.len()
            invariant
                es == edges_of(self.items@),
                i <= self.items@.len(),
                forall|j: int| 0 <= j < i ==> es[j] != (source@, target@),
            decreases self.items@.len() - i,
        {
            let t = &self.items[i];
            if same_name(t.source(), source) && same_name(t.target(), target) {
                assert(es[i as int] == (source@, target@));
                return true;
            }
            i = i + 1;
        }
        false
    }

    /// Adds `transition`; adding one already held changes nothing.
    ///
    /// Returns the collection itself, so that additions can be chained.
    pub fn add(&mut self, transition: Transition) -> (r: &mut Self)
        ensures
            r@ == old(self)@.insert(transition@),
            *final(self) == *final(r),
    {
        proof {
            use_type_invariant(&*self);
            use_type_invariant(&transition);
        }
        let ghost before = edges_of(self.items@);
        if !self.contains(transition.source(), transition.target()) {
            let ghost e = transition@;
            let mut items = Vec::new();
            std::mem::swap(&mut items, &mut self.items);
            assert(edges_of(items@) == before);
            items.push(transition);
            proof {
                assert(edges_of(items@) =~= before.push(e));
                assert(!before.contains(e));
                before.lemma_push_to_set_commute(e);
                assert(edges_of(items@).no_duplicates());
                assert forall|i: int| 0 <= i < items@.len() implies valid_edge(
                    #[trigger] edges_of(items@)[i],
                ) by {
                    if i < before.len() {
                        assert(edges_of(items@)[i] == before[i]);
                    }
                }
            }
            self.items = items;
        } else {
            proof {
                assert(before.to_set() =~= before.to_set().insert(transition@));
            }
        }
        self
    }

    /// Returns whether `state` appears as either endpoint of a transition.
    pub fn contains_state(&self, state: &str) -> (r: bool)
        ensures
            r == states_of(self@).contains(state@),
    {
        let ghost es = edges_of(self.items@);
        let mut i: usize = 0;
        while i < self.items.len()
            invariant
                es == edges_of(self.items@),
                i <= self.items@.len(),
                forall|j: int| 0 <= j < i ==> es[j].0 != state@ && es[j].1 != state@,
            decreases self.items@.len() - i,
        {
            let t = &self.items[i];
            if same_name(t.source(), state) || same_name(t.target(), state) {
                proof {
                    let e = es[i as int];
                    assert(self@.contains(e));
                    assert(self@.contains((e.0, e.1)));
                    if e.0 == state@ {
                        assert(sources_of(self@).contains(state@));
                    } else {
                        assert(targets_of(self@).contains(state@));
                    }
                }
                return true;
            }
            i = i + 1;
        }
        proof {
            if sources_of(self@).contains(state@) {
                let t = choose|t: Name| self@.contains((state@, t));
                let j = es.index_of((state@, t));
            }
            if targets_of(self@).contains(state@) {
                let s = choose|s: Name| self@.contains((s, state@));
                let j = es.index_of((s, state@));
            }
        }
        false
    }

    /// Returns the states directly reachable from `source`, each once, in an
    /// unspecified order.
    pub fn targets_from(&self, source: &str) -> (r: Vec<String>)
        ensures
            lists_exactly(names(r@), successors(self@, source@)),
    {
        let ghost es = edges_of(self.items@);
        let mut r: Vec<String> = Vec::new();
        let mut i: usize = 0;
        proof {
            assert(names(r@).to_set() =~= Set::new(|t: Name| exists|j: int| 0 <= j < 0 && es[j] == (source@, t)));
        }
        while i < self.items.len()
            invariant
                es == edges_of(self.items@),
                i <= self.items@.len(),
                names(r@).no_duplicates(),
                names(r@).to_set() == Set::new(|t: Name| exists|j: int| 0 <= j < i && es[j] == (source@, t)),
            decreases self.items@.len() - i,
        {
            let ghost before = names(r@).to_set();
            let t = &self.items[i];
            let ghost e = es[i as int];
            assert(e == t@);
            if same_name(t.source(), source) {
                push_unique(&mut r, t.target());
            }
            proof {
                assert(names(r@).to_set() =~= Set::new(|u: Name| exists|j: int| 0 <= j < i + 1 && es[j] == (source@, u))) by {
                    assert forall|u: Name| (exists|j: int| 0 <= j < i + 1 && es[j] == (source@, u)) implies #[trigger] names(r@).to_set().contains(u) by {
                        let j = choose|j: int| 0 <= j < i + 1 && es[j] == (source@, u);
                        if j < i {
                            assert(before.contains(u));
                        }
                    }
                    assert forall|u: Name| #[trigger] names(r@).to_set().contains(u) implies (exists|j: int| 0 <= j < i + 1 && es[j] == (source@, u)) by {
                        if e != (source@, u) {
                            assert(before.contains(u));
                        } else {
                            assert(es[i as int] == (source@, u));
                        }
                    }
                }
            }
            i = i + 1;
        }
        proof {
            assert forall|u: Name| #[trigger] names(r@).to_set().contains(u) <==> successors(self@, source@).contains(u) by {
                if names(r@).to_set().contains(u) {
                    let j = choose|j: int| 0 <= j < es.len() && es[j] == (source@, u);
                    assert(self@.contains(es[j]));
                }
                if self@.contains((source@, u)) {
                    let j = es.index_of((source@, u));
                }
            }
            assert(names(r@).to_set() =~= successors(self@, source@));
        }
        r
    }

    /// Returns every state with an outgoing transition, each once, in an
    /// unspecified order.
    pub fn sources(&self) -> (r: Vec<String>)
        ensures
            lists_exactly(names(r@), sources_of(self@)),
    {
        let ghost es = edges_of(self.items@);
        let mut r: Vec<String> = Vec::new();
        let mut i: usize = 0;
        proof {
            assert(names(r@).to_set() =~= Set::new(|s: Name| exists|j: int| 0 <= j < 0 && es[j].0 == s));
        }
        while i < self.items.len()
            invariant
                es == edges_of(self.items@),
                i <= self.items@.len(),
                names(r@).no_duplicates(),
                names(r@).to_set() == Set::new(|s: Name| exists|j: int| 0 <= j < i && es[j].0 == s),
            decreases self.items@.len() - i,
        {
            let ghost before = names(r@).to_set();
            push_unique(&mut r, self.items[i].source());
            proof {
                assert(es[i as int].0 == self.items@[i as int]@.0);
                assert(names(r@).to_set() =~= Set::new(|s: Name| exists|j: int| 0 <= j < i + 1 && es[j].0 == s)) by {
                    assert forall|s: Name| (exists|j: int| 0 <= j < i + 1 && es[j].0 == s) implies #[trigger] names(r@).to_set().contains(s) by {
                        let j = choose|j: int| 0 <= j < i + 1 && es[j].0 == s;
                        if j < i {
                            assert(before.contains(s));
                        }
                    }
                    assert forall|s: Name| #[trigger] names(r@).to_set().contains(s) implies (exists|j: int| 0 <= j < i + 1 && es[j].0 == s) by {
                        if s != es[i as int].0 {
                            assert(before.contains(s));
                        }
                    }
                }
            }
            i = i + 1;
        }
        proof {
            assert forall|s: Name| #[trigger] names(r@).to_set().contains(s) <==> sources_of(self@).contains(s) by {
                if names(r@).to_set().contains(s) {
                    let j = choose|j: int| 0 <= j < es.len() && es[j].0 == s;
                    assert(self@.contains(es[j]));
                    assert(self@.contains((s, es[j].1)));
                }
                if sources_of(self@).contains(s) {
                    let t = choose|t: Name| self@.contains((s, t));
                    let j = es.index_of((s, t));
                    assert(es[j].0 == s);
                }
            }
            assert(names(r@).to_set() =~= sources_of(self@));
        }
        r
    }

    /// Returns every state that appears as either endpoint of a transition,
    /// each once, in an unspecified order.
    pub fn states(&self) -> (r: Vec<String>)
        ensures
            lists_exactly(names(r@), states_of(self@)),
    {
        let ghost es = edges_of(self.items@);
        let mut r: Vec<String> = Vec::new();
        let mut i: usize = 0;
        proof {
            assert(names(r@).to_set() =~= Set::new(|s: Name| exists|j: int| 0 <= j < 0 && (es[j].0 == s || es[j].1 == s)));
        }
        while i < self.items.len()
            invariant
                es == edges_of(self.items@),
                i <= self.items@.len(),
                names(r@).no_duplicates(),
                names(r@).to_set() == Set::new(|s: Name| exists|j: int| 0 <= j < i && (es[j].0 == s || es[j].1 == s)),
            decreases self.items@.len() - i,
        {
            let ghost before = names(r@).to_set();
            push_unique(&mut r, self.items[i].source());
            push_unique(&mut r, self.items[i].target());
            proof {
                let e = es[i as int];
                assert(e == self.items@[i as int]@);
                assert(names(r@).to_set() =~= Set::new(|s: Name| exists|j: int| 0 <= j < i + 1 && (es[j].0 == s || es[j].1 == s))) by {
                    assert forall|s: Name| (exists|j: int| 0 <= j < i + 1 && (es[j].0 == s || es[j].1 == s)) implies #[trigger] names(r@).to_set().contains(s) by {
                        let j = choose|j: int| 0 <= j < i + 1 && (es[j].0 == s || es[j].1 == s);
                        if j < i {
                            assert(before.contains(s));
                        }
                    }
                    assert forall|s: Name| #[trigger] names(r@).to_set().contains(s) implies (exists|j: int| 0 <= j < i + 1 && (es[j].0 == s || es[j].1 == s)) by {
                        if s != e.0 && s != e.1 {
                            assert(before.contains(s));
                        }
                    }
                }
            }
            i = i + 1;
        }
        proof {
            assert forall|s: Name| #[trigger] names(r@).to_set().contains(s) <==> states_of(self@).contains(s) by {
                if names(r@).to_set().contains(s) {
                    let j = choose|j: int| 0 <= j < es.len() && (es[j].0 == s || es[j].1 == s);
                    assert(self@.contains(es[j]));
                    if es[j].0 == s {
                        assert(self@.contains((s, es[j].1)));
                        assert(sources_of(self@).contains(s));
                    } else {
                        assert(self@.contains((es[j].0, s)));
                        assert(targets_of(self@).contains(s));
                    }
                }
                if sources_of(self@).contains(s) {
                    let t = choose|t: Name| self@.contains((s, t));
                    let j = es.index_of((s, t));
                    assert(es[j].0 == s);
                }
                if targets_of(self@).contains(s) {
                    let t = choose|t: Name| self@.contains((t, s));
                    let j = es.index_of((t, s));
                    assert(es[j].1 == s);
                }
            }
            assert(names(r@).to_set() =~= states_of(self@));
        }
        r
    }

    /// Returns the number of distinct states used by the transitions.
    pub fn state_count(&self) -> (r: usize)
        ensures
            r == states_of(self@).len(),
    {
        let v = self.states();
        proof {
            names(v@).unique_seq_to_set();
        }
        v.len()
    }

    /// Returns the transitions of the collection, each once, in an
    /// unspecified order.
    pub fn iter(&self) -> (r: &[Transition])
        ensures
            lists_exactly(edges_of(r@), self@),
    {
        proof {
            use_type_invariant(self);
        }
        self.items.as_slice()
    }
}

impl PartialEq for Transitions {
    fn eq(&self, other: &Self) -> (r: bool) {
        if self.len() != other.len() {
            return false;
        }
        let ghost es = edges_of(self.items@);
        let mut i: usize = 0;
        while i < self.items.len()
            invariant
                es == edges_of(self.items@),
                i <= self.items@.len(),
                forall|j: int| 0 <= j < i ==> other@.contains(#[trigger] es[j]),
            decreases self.items@.len() - i,
        {
            let t = &self.items[i];
            if !other.contains(t.source(), t.target()) {
                assert(self@.contains(es[i as int]));
                return false;
            }
            i = i + 1;
        }
        proof {
            assert forall|e: Edge| #[trigger] self@.contains(e) implies other@.contains(e) by {
                let j = es.index_of(e);
            }
            vstd::set_lib::lemma_subset_equality(self@, other@);
        }
        true
    }
}

impl vstd::std_specs::cmp::PartialEqSpecImpl for Transitions {
    open spec fn obeys_eq_spec() -> bool {
        true
    }

    open spec fn eq_spec(&self, other: &Self) -> bool {
        self@ == other@
    }
}

impl Eq for Transitions {

}

} // verus!
