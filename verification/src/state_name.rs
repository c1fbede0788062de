//! State names: which strings may name a state, and exact comparison of names.
//!
//! A valid state name contains at least one character that is not Unicode
//! whitespace, and neither begins nor ends with Unicode whitespace. Names are
//! case-sensitive and compared exactly: nothing is trimmed or normalised.

use vstd::prelude::*;
use crate::error::{StateError, StateErrorView};
use vstd::utf8::encode_utf8;

verus! {

/// The Unicode `White_Space` property, the set of characters for which
/// `char::is_whitespace` is true.
pub open spec fn is_unicode_whitespace(c: char) -> bool {
    let u = c as u32;
    ||| 0x09 <= u <= 0x0D
    ||| u == 0x20
    ||| u == 0x85
    ||| u == 0xA0
    ||| u == 0x1680
    ||| 0x2000 <= u <= 0x200A
    ||| u == 0x2028
    ||| u == 0x2029
    ||| u == 0x202F
    ||| u == 0x205F
    ||| u == 0x3000
}

/// Every character of `s` is whitespace (true of the empty name).
pub open spec fn all_whitespace(s: Seq<char>) -> bool {
    forall|i: int| 0 <= i < s.len() ==> #[trigger] is_unicode_whitespace(s[i])
}

/// The name begins or ends with whitespace.
pub open spec fn has_outer_whitespace(s: Seq<char>) -> bool {
    s.len() > 0 && (is_unicode_whitespace(s[0]) || is_unicode_whitespace(s[s.len() - 1]))
}

/// What is wrong with `s` as a state name, if anything.
pub open spec fn name_problem(s: Seq<char>) -> Option<StateErrorView> {
    if all_whitespace(s) {
        Some(StateErrorView::EmptyState)
    } else if has_outer_whitespace(s) {
        Some(StateErrorView::AmbiguousStateName(s))
    } else {
        None
    }
}

/// `s` may name a state.
pub open spec fn valid_state_name(s: Seq<char>) -> bool {
    name_problem(s) is None
}

/// Returns whether `c` is Unicode whitespace, exactly as `char::is_whitespace`.
pub fn is_whitespace(c: char) -> (r: bool)
    ensures
        r == is_unicode_whitespace(c),
{
    let u = c as u32;
    (0x09 <= u && u <= 0x0D) || u == 0x20 || u == 0x85 || u == 0xA0 || u == 0x1680 || (0x2000
        <= u && u <= 0x200A) || u == 0x2028 || u == 0x2029 || u == 0x202F || u == 0x205F || u
        == 0x3000
}

/// Validates `name` against the state-name rules.
///
/// A name made only of whitespace (the empty name included) is
/// [`StateError::EmptyState`]; one that begins or ends with whitespace is
/// [`StateError::AmbiguousStateName`], which carries the name unchanged.
pub fn check_state_name(name: &str) -> (r: Result<(), StateError>)
    ensures
        match name_problem(name@) {
            None => r is Ok,
            Some(e) => r matches Err(x) && x@ == e,
        },
{
    broadcast use vstd::string::group_string_axioms;
    let mut all_ws = true;
    let mut first_ws = false;
    let mut last_ws = false;
    let mut seen = false;
    let ghost chars = name@;
    for c in it: name.chars()
        invariant
            chars == name@,
            it.seq() == chars,
            it.index() <= chars.len(),
            seen == (it.index() > 0),
            all_ws == all_whitespace(chars.take(it.index() as int)),
            seen ==> first_ws == is_unicode_whitespace(chars[0]),
            seen ==> last_ws == is_unicode_whitespace(chars[it.index() - 1]),
    {
        let ghost k = it.index();
        let w = is_whitespace(c);
        if !seen {
            first_ws = w;
        }
        seen = true;
        last_ws = w;
        all_ws = all_ws && w;
        proof {
            let t0 = chars.take(k as int);
            let t1 = chars.take(k + 1);
            assert(t1 =~= t0.push(c));
            if all_whitespace(t0) && w {
                assert forall|i: int| 0 <= i < t1.len() implies #[trigger] is_unicode_whitespace(
                    t1[i],
                ) by {
                    if i < k {
                        assert(t1[i] == t0[i]);
                    }
                }
            }
            if !all_whitespace(t0) {
                let i = choose|i: int| 0 <= i < t0.len() && !is_unicode_whitespace(t0[i]);
                assert(t1[i] == t0[i]);
            }
            if !w {
                assert(t1[k as int] == c);
            }
        }
    }
    proof {
        assert(chars.take(chars.len() as int) =~= chars);
    }
    if all_ws {
        Err(StateError::EmptyState)
    } else if first_ws || last_ws {
        Err(StateError::AmbiguousStateName { state: name.to_owned() })
    } else {
        Ok(())
    }
}

/// Returns whether two names are the same sequence of characters.
///
/// Two strings are equal exactly when their UTF-8 encodings are, so the
/// comparison runs over bytes.
pub fn same_name(a: &str, b: &str) -> (r: bool)
    ensures
        r == (a@ == b@),
{
    let x = a.as_bytes();
    let y = b.as_bytes();
    proof {
        vstd::utf8::encode_utf8_decode_utf8(a@);
        vstd::utf8::encode_utf8_decode_utf8(b@);
    }
    if x.len() != y.len() {
        return false;
    }
    let mut i: usize = 0;
    while i < x.len()
        invariant
            x@ == encode_utf8(a@),
            y@ == encode_utf8(b@),
            x@.len() == y@.len(),
            i <= x@.len(),
            forall|j: int| 0 <= j < i ==> x@[j] == y@[j],
        decreases x@.len() - i,
    {
        if x[i] != y[i] {
            return false;
        }
        i = i + 1;
    }
    proof {
        assert(x@ =~= y@);
    }
    true
}

/// A validated state name.
///
/// Holds a name that satisfies [`valid_state_name`]; two state names are the
/// same state exactly when their characters are equal.
#[derive(Debug)]
pub(crate) struct StateName {
    name: String,
}

impl View for StateName {
    type V = Seq<char>;

    closed spec fn view(&self) -> Seq<char> {
        self.name@
    }
}

impl StateName {
    /// A state name is always valid.
    #[verifier::type_invariant]
    pub(crate) open spec fn inv(self) -> bool {
        valid_state_name(self@)
    }

    /// Validates `value` and holds it as a state name.
    pub(crate) fn try_from(value: &str) -> (r: Result<Self, StateError>)
        ensures
            match name_problem(value@) {
                None => r matches Ok(n) && n@ == value@,
                Some(e) => r matches Err(x) && x@ == e,
            },
    {
        check_state_name(value)?;
        Ok(StateName { name: value.to_owned() })
    }

    /// Returns the name.
    pub(crate) fn as_str(&self) -> (r: &str)
        ensures
            r@ == self@,
    {
        self.name.as_str()
    }

    /// Returns the name as an owned string.
    pub(crate) fn into_string(self) -> (r: String)
        ensures
            r@ == self@,
    {
        self.name
    }
}

impl Clone for StateName {
    fn clone(&self) -> (r: Self)
        ensures
            r@ == self@,
    {
        proof {
            use_type_invariant(self);
        }
        StateName { name: self.name.clone() }
    }
}

} // verus!
