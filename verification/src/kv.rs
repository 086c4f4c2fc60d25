//! Association lists of strings: the manifest readers keep script and
//! dependency tables as ordered (key, value) pairs, and these helpers give
//! them verified lookup.

use vstd::prelude::*;
use crate::text::str_eq;

verus! {

/// View of a vector of string pairs.
pub open spec fn pairs_view(v: Seq<(String, String)>) -> Seq<(Seq<char>, Seq<char>)> {
    v.map_values(|p: (String, String)| (p.0@, p.1@))
}

/// View of a vector of strings.
pub open spec fn names_view(v: Seq<String>) -> Seq<Seq<char>> {
    v.map_values(|s: String| s@)
}

/// Does any pair carry key `k`?
pub open spec fn assoc_has(m: Seq<(Seq<char>, Seq<char>)>, k: Seq<char>) -> bool {
    exists|i: int| 0 <= i < m.len() && (#[trigger] m[i]).0 == k
}

/// The value of the first pair with key `k`, searched from index `i` on.
pub open spec fn assoc_get_from(
    m: Seq<(Seq<char>, Seq<char>)>,
    k: Seq<char>,
    i: int,
) -> Option<Seq<char>>
    decreases m.len() - i,
        when 0 <= i <= m.len()
{
    if i >= m.len() {
        None
    } else if m[i].0 == k {
        Some(m[i].1)
    } else {
        assoc_get_from(m, k, i + 1)
    }
}

/// The value of the first pair with key `k`.
pub open spec fn assoc_get(m: Seq<(Seq<char>, Seq<char>)>, k: Seq<char>) -> Option<Seq<char>> {
    assoc_get_from(m, k, 0)
}

/// Is `k` among the names?
pub open spec fn names_has(ns: Seq<Seq<char>>, k: Seq<char>) -> bool {
    exists|i: int| 0 <= i < ns.len() && #[trigger] ns[i] == k
}

/// A key is found exactly when some pair carries it.
pub proof fn lemma_assoc_get_has(m: Seq<(Seq<char>, Seq<char>)>, k: Seq<char>, i: int)
    requires
        0 <= i <= m.len(),
    ensures
        assoc_get_from(m, k, i) is Some <==> exists|j: int|
            i <= j < m.len() && (#[trigger] m[j]).0 == k,
    decreases m.len() - i,
{
    if i < m.len() && m[i].0 != k {
        lemma_assoc_get_has(m, k, i + 1);
    }
}

/// The value of the first pair whose key is `k`, at run time.
pub fn assoc_lookup<'a>(m: &'a Vec<(String, String)>, k: &str) -> (r: Option<&'a String>)
    ensures
        match r {
            Some(v) => assoc_get(pairs_view(m@), k@) == Some(v@),
            None => assoc_get(pairs_view(m@), k@) is None,
        },
{
    let ghost mv = pairs_view(m@);
    let n = m.len();
    let mut i: usize = 0;
    while i < n
        invariant
            n == m@.len(),
            mv == pairs_view(m@),
            mv.len() == n,
            i <= n,
            assoc_get(mv, k@) == assoc_get_from(mv, k@, i as int),
        decreases n - i,
    {
        if str_eq(m[i].0.as_str(), k) {
            proof {
                assert(mv[i as int].0 == m@[i as int].0@);
            }
            return Some(&m[i].1);
        }
        proof {
            assert(mv[i as int].0 == m@[i as int].0@);
        }
        i = i + 1;
    }
    None
}

/// Does some pair carry key `k`, at run time?
pub fn assoc_contains(m: &Vec<(String, String)>, k: &str) -> (r: bool)
    ensures
        r == assoc_has(pairs_view(m@), k@),
{
    let got = assoc_lookup(m, k);
    proof {
        lemma_assoc_get_has(pairs_view(m@), k@, 0);
    }
    got.is_some()
}

/// Is `k` among the names, at run time?
pub fn names_contain(ns: &Vec<String>, k: &str) -> (r: bool)
    ensures
        r == names_has(names_view(ns@), k@),
{
    let ghost nv = names_view(ns@);
    let n = ns.len();
    let mut i: usize = 0;
    while i < n
        invariant
            n == ns@.len(),
            nv == names_view(ns@),
            nv.len() == n,
            i <= n,
            forall|j: int| 0 <= j < i ==> nv[j] != k@,
        decreases n - i,
    {
        if str_eq(ns[i].as_str(), k) {
            proof {
                assert(nv[i as int] == ns@[i as int]@);
            }
            return true;
        }
        proof {
            assert(nv[i as int] == ns@[i as int]@);
        }
        i = i + 1;
    }
    false
}

} // verus!
