//! Verified identity claims for one request.

use vstd::prelude::*;
use crate::attrs::AttrMap;

verus! {

/// What a profile selector can read of a claim's value: a string, an array
/// (whose string elements are compared), or anything else.
pub enum ClaimValue {
    Str(String),
    Array(Vec<ClaimValue>),
    Other,
}

/// Whether `v` is the string `expected`.
pub open spec fn is_string(v: ClaimValue, expected: Seq<char>) -> bool {
    match v {
        ClaimValue::Str(s) => s@ == expected,
        _ => false,
    }
}

/// Whether some element of `items` is the string `expected`.
pub open spec fn contains_string(items: Seq<ClaimValue>, expected: Seq<char>) -> bool {
    exists|i: int| 0 <= i < items.len() && is_string(#[trigger] items[i], expected)
}

/// Whether a claim value selects `expected`: it is that string, or an array
/// that holds it.
pub open spec fn value_matches(v: ClaimValue, expected: Seq<char>) -> bool {
    match v {
        ClaimValue::Str(s) => s@ == expected,
        ClaimValue::Array(items) => contains_string(items@, expected),
        ClaimValue::Other => false,
    }
}

/// If `a` holds the string `expected`, so does any `b` with the same elements.
proof fn lemma_contains_string_transfer(a: Seq<ClaimValue>, b: Seq<ClaimValue>, expected: Seq<char>)
    requires
        a.to_multiset() == b.to_multiset(),
        contains_string(a, expected),
    ensures
        contains_string(b, expected),
{
    let i = choose|i: int| 0 <= i < a.len() && is_string(#[trigger] a[i], expected);
    let x = a[i];
    assert(a.contains(x));
    a.to_multiset_ensures();
    b.to_multiset_ensures();
    assert(a.to_multiset().count(x) > 0);
    assert(b.to_multiset().count(x) > 0);
    assert(b.contains(x));
    let j = choose|j: int| 0 <= j < b.len() && b[j] == x;
    assert(is_string(b[j], expected));
}

/// An array claim selects a string regardless of the order of its elements:
/// two arrays with the same elements, counted with multiplicity, select the
/// same strings.
pub proof fn lemma_array_match_order_independent(
    a: Seq<ClaimValue>,
    b: Seq<ClaimValue>,
    expected: Seq<char>,
)
    requires
        a.to_multiset() == b.to_multiset(),
    ensures
        contains_string(a, expected) == contains_string(b, expected),
{
    if contains_string(a, expected) {
        lemma_contains_string_transfer(a, b, expected);
    }
    if contains_string(b, expected) {
        lemma_contains_string_transfer(b, a, expected);
    }
}

impl ClaimValue {
    /// Whether this value selects `expected` (see `value_matches`).
    pub fn matches(&self, expected: &String) -> (r: bool)
        ensures
            r == value_matches(*self, expected@),
    {
        match self {
            ClaimValue::Str(s) => *s == *expected,
            ClaimValue::Array(items) => {
                let mut i: usize = 0;
                while i < items.len()
                    invariant
                        0 <= i <= items@.len(),
                        value_matches(*self, expected@) == contains_string(items@, expected@),
                        forall|j: int| 0 <= j < i ==> !is_string(#[trigger] items@[j], expected@),
                    decreases items@.len() - i,
                {
                    match &items[i] {
                        ClaimValue::Str(s) => {
                            if *s == *expected {
                                assert(is_string(items@[i as int], expected@));
                                assert(contains_string(items@, expected@));
                                return true;
                            }
                        },
                        _ => {},
                    }
                    i = i + 1;
                }
                false
            },
            ClaimValue::Other => false,
        }
    }
}

/// Whether entry `i` is the first one called `name`.
pub open spec fn is_first_claim(other: Seq<(String, ClaimValue)>, name: Seq<char>, i: int) -> bool {
    &&& 0 <= i < other.len()
    &&& other[i].0@ == name
    &&& forall|j: int| 0 <= j < i ==> (#[trigger] other[j]).0@ != name
}

/// The value of the first claim called `name`.
pub open spec fn claim_get(other: Seq<(String, ClaimValue)>, name: Seq<char>) -> Option<ClaimValue> {
    if exists|i: int| is_first_claim(other, name, i) {
        Some(other[choose|i: int| is_first_claim(other, name, i)].1)
    } else {
        None
    }
}

/// The facts that an identity provider asserted about the requester.
pub struct CertificateClaims {
    pub validity: Option<u64>,
    pub key_id: Option<String>,
    pub valid_principals: Vec<String>,
    pub comment: Option<String>,
    pub critical_options: Option<AttrMap>,
    pub extensions: Option<AttrMap>,
    /// Every other claim, by name.
    pub other: Vec<(String, ClaimValue)>,
}

impl CertificateClaims {
    /// The value of the claim called `name`.
    pub fn get_other(&self, name: &String) -> (r: Option<&ClaimValue>)
        ensures
            match r {
                Some(v) => claim_get(self.other@, name@) == Some(*v),
                None => claim_get(self.other@, name@) is None,
            },
    {
        let mut i: usize = 0;
        while i < self.other.len()
            invariant
                0 <= i <= self.other@.len(),
                forall|j: int| 0 <= j < i ==> (#[trigger] self.other@[j]).0@ != name@,
            decreases self.other@.len() - i,
        {
            if self.other[i].0 == *name {
                assert(is_first_claim(self.other@, name@, i as int));
                proof {
                    let k = choose|k: int| is_first_claim(self.other@, name@, k);
                    if k < i {
                        assert(self.other@[k].0@ != name@);
                    } else if k > i {
                        assert(self.other@[i as int].0@ != name@);
                    }
                }
                return Some(&self.other[i].1);
            }
            i = i + 1;
        }
        assert(!exists|k: int| is_first_claim(self.other@, name@, k));
        None
    }
}

} // verus!
