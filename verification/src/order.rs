//! Lexicographic order on strings (by code point, which is the order of
//! `String`'s `Ord`) and insertion into sorted vectors.
//!
//! The document checker keeps its sets and counts of model ids in plain and
//! sorted vectors rather than in `HashMap`/`HashSet`: with `String` keys,
//! vstd's specifications of those types give nothing that a proof of the
//! report's exact contents could use. Its reports are sorted in any case.

use vstd::prelude::*;
use crate::text::{str_chars, strs};

verus! {

/// `a` comes strictly before `b` in lexicographic code-point order.
pub open spec fn seq_lt(a: Seq<char>, b: Seq<char>) -> bool
    decreases a.len(),
{
    if a.len() == 0 {
        b.len() > 0
    } else if b.len() == 0 {
        false
    } else if a[0] == b[0] {
        seq_lt(a.drop_first(), b.drop_first())
    } else {
        (a[0] as u32) < (b[0] as u32)
    }
}

/// The order on pairs of strings: by the first component, then the second.
pub open spec fn pair_lt(p: (Seq<char>, Seq<char>), q: (Seq<char>, Seq<char>)) -> bool {
    seq_lt(p.0, q.0) || (p.0 == q.0 && seq_lt(p.1, q.1))
}

/// The views of a sequence of string pairs.
pub open spec fn str_pairs(v: Seq<(String, String)>) -> Seq<(Seq<char>, Seq<char>)> {
    v.map_values(|p: (String, String)| (p.0@, p.1@))
}

/// Every element is strictly smaller than the ones after it.
pub open spec fn sorted_strict(s: Seq<Seq<char>>) -> bool {
    forall|i: int, j: int| 0 <= i < j < s.len() ==> seq_lt(s[i], s[j])
}

/// No element is greater than one after it.
pub open spec fn sorted_pairs(s: Seq<(Seq<char>, Seq<char>)>) -> bool {
    forall|i: int, j: int| 0 <= i < j < s.len() ==> !pair_lt(s[j], s[i])
}

pub proof fn lemma_seq_lt_irreflexive(a: Seq<char>)
    ensures
        !seq_lt(a, a),
    decreases a.len(),
{
    if a.len() > 0 {
        lemma_seq_lt_irreflexive(a.drop_first());
    }
}

pub proof fn lemma_seq_lt_transitive(a: Seq<char>, b: Seq<char>, c: Seq<char>)
    requires
        seq_lt(a, b),
        seq_lt(b, c),
    ensures
        seq_lt(a, c),
    decreases a.len(),
{
    if a.len() > 0 && b.len() > 0 && c.len() > 0 {
        if a[0] == b[0] && b[0] == c[0] {
            lemma_seq_lt_transitive(a.drop_first(), b.drop_first(), c.drop_first());
        }
    }
}

pub proof fn lemma_seq_lt_total(a: Seq<char>, b: Seq<char>)
    ensures
        a == b || seq_lt(a, b) || seq_lt(b, a),
    decreases a.len(),
{
    if a.len() > 0 && b.len() > 0 {
        if a[0] == b[0] {
            lemma_seq_lt_total(a.drop_first(), b.drop_first());
            if a.drop_first() == b.drop_first() {
                assert(a =~= seq![a[0]] + a.drop_first());
                assert(b =~= seq![b[0]] + b.drop_first());
            }
        } else {
            vstd::utf8::char_u32_cast(a[0], a[0] as u32);
            vstd::utf8::char_u32_cast(b[0], b[0] as u32);
            assert((a[0] as u32) != (b[0] as u32));
        }
    } else if a.len() == 0 && b.len() == 0 {
        assert(a =~= b);
    }
}

pub proof fn lemma_pair_lt_transitive(p: (Seq<char>, Seq<char>), q: (Seq<char>, Seq<char>), r: (Seq<char>, Seq<char>))
    requires
        pair_lt(p, q),
        pair_lt(q, r),
    ensures
        pair_lt(p, r),
{
    if seq_lt(p.0, q.0) && seq_lt(q.0, r.0) {
        lemma_seq_lt_transitive(p.0, q.0, r.0);
    } else if seq_lt(p.1, q.1) && seq_lt(q.1, r.1) && p.0 == q.0 && q.0 == r.0 {
        lemma_seq_lt_transitive(p.1, q.1, r.1);
    }
}

pub proof fn lemma_pair_lt_total(p: (Seq<char>, Seq<char>), q: (Seq<char>, Seq<char>))
    ensures
        p == q || pair_lt(p, q) || pair_lt(q, p),
{
    lemma_seq_lt_total(p.0, q.0);
    lemma_seq_lt_total(p.1, q.1);
}

pub proof fn lemma_pair_lt_irreflexive(p: (Seq<char>, Seq<char>))
    ensures
        !pair_lt(p, p),
{
    lemma_seq_lt_irreflexive(p.0);
    lemma_seq_lt_irreflexive(p.1);
}

/// Two strictly sorted sequences holding the same strings are equal.
pub proof fn lemma_sorted_strict_unique(a: Seq<Seq<char>>, b: Seq<Seq<char>>)
    requires
        sorted_strict(a),
        sorted_strict(b),
        forall|x: Seq<char>| a.contains(x) <==> b.contains(x),
    ensures
        a == b,
    decreases a.len(),
{
    if a.len() == 0 {
        if b.len() > 0 {
            assert(b.contains(b[0]));
        }
        assert(a =~= b);
    } else {
        assert(a.contains(a[0]));
        let k = choose|k: int| 0 <= k < b.len() && b[k] == a[0];
        assert(b.contains(b[0]));
        let m = choose|m: int| 0 <= m < a.len() && a[m] == b[0];
        if k > 0 {
            assert(seq_lt(b[0], b[k]));
            if m > 0 {
                assert(seq_lt(a[0], a[m]));
                lemma_seq_lt_transitive(a[0], a[m], a[0]);
                lemma_seq_lt_irreflexive(a[0]);
            } else {
                lemma_seq_lt_irreflexive(a[0]);
            }
        }
        assert(a[0] == b[0]);
        let a1 = a.drop_first();
        let b1 = b.drop_first();
        assert forall|x: Seq<char>| a1.contains(x) <==> b1.contains(x) by {
            if a1.contains(x) {
                let i = choose|i: int| 0 <= i < a1.len() && a1[i] == x;
                assert(a[i + 1] == x);
                assert(seq_lt(a[0], a[i + 1]));
                assert(b.contains(x));
                let j = choose|j: int| 0 <= j < b.len() && b[j] == x;
                if j == 0 {
                    lemma_seq_lt_irreflexive(x);
                }
                assert(b1[j - 1] == x);
            }
            if b1.contains(x) {
                let i = choose|i: int| 0 <= i < b1.len() && b1[i] == x;
                assert(b[i + 1] == x);
                assert(seq_lt(b[0], b[i + 1]));
                assert(a.contains(x));
                let j = choose|j: int| 0 <= j < a.len() && a[j] == x;
                if j == 0 {
                    lemma_seq_lt_irreflexive(x);
                }
                assert(a1[j - 1] == x);
            }
        }
        lemma_sorted_strict_unique(a1, b1);
        assert(a =~= seq![a[0]] + a1);
        assert(b =~= seq![b[0]] + b1);
    }
}

/// Two sorted sequences of string pairs holding the same pairs, as many
/// times each, are equal.
pub proof fn lemma_sorted_pairs_unique(a: Seq<(Seq<char>, Seq<char>)>, b: Seq<(Seq<char>, Seq<char>)>)
    requires
        sorted_pairs(a),
        sorted_pairs(b),
        a.to_multiset() == b.to_multiset(),
    ensures
        a == b,
    decreases a.len(),
{
    vstd::seq_lib::to_multiset_len(a);
    vstd::seq_lib::to_multiset_len(b);
    if a.len() == 0 {
        assert(a =~= b);
    } else {
        vstd::seq_lib::to_multiset_contains(a, a[0]);
        vstd::seq_lib::to_multiset_contains(b, a[0]);
        vstd::seq_lib::to_multiset_contains(b, b[0]);
        vstd::seq_lib::to_multiset_contains(a, b[0]);
        let k = choose|k: int| 0 <= k < b.len() && b[k] == a[0];
        let m = choose|m: int| 0 <= m < a.len() && a[m] == b[0];
        if k > 0 {
            assert(!pair_lt(b[k], b[0]));
        }
        if m > 0 {
            assert(!pair_lt(a[m], a[0]));
        }
        lemma_pair_lt_total(a[0], b[0]);
        lemma_pair_lt_irreflexive(a[0]);
        assert(a[0] == b[0]);
        vstd::seq_lib::to_multiset_remove(a, 0);
        vstd::seq_lib::to_multiset_remove(b, 0);
        assert(a.remove(0) =~= a.drop_first());
        assert(b.remove(0) =~= b.drop_first());
        let a1 = a.drop_first();
        let b1 = b.drop_first();
        assert(sorted_pairs(a1)) by {
            assert forall|i: int, j: int| 0 <= i < j < a1.len() implies !pair_lt(a1[j], a1[i]) by {
                assert(a1[i] == a[i + 1] && a1[j] == a[j + 1]);
            }
        }
        assert(sorted_pairs(b1)) by {
            assert forall|i: int, j: int| 0 <= i < j < b1.len() implies !pair_lt(b1[j], b1[i]) by {
                assert(b1[i] == b[i + 1] && b1[j] == b[j + 1]);
            }
        }
        lemma_sorted_pairs_unique(a1, b1);
        assert(a =~= seq![a[0]] + a1);
        assert(b =~= seq![b[0]] + b1);
    }
}

/// Whether `a` comes strictly before `b` in lexicographic code-point order.
pub fn str_lt(a: &String, b: &String) -> (r: bool)
    ensures
        r == seq_lt(a@, b@),
{
    let x = str_chars(a.as_str());
    let y = str_chars(b.as_str());
    let n = x.len();
    let m = y.len();
    let mut i: usize = 0;
    proof {
        assert(a@.skip(0) =~= a@);
        assert(b@.skip(0) =~= b@);
    }
    while i < n && i < m
        invariant
            n == x@.len(),
            m == y@.len(),
            x@ == a@,
            y@ == b@,
            i <= n,
            i <= m,
            seq_lt(a@, b@) == seq_lt(a@.skip(i as int), b@.skip(i as int)),
        decreases n - i,
    {
        if x[i] != y[i] {
            proof {
                assert(a@.skip(i as int)[0] == x@[i as int]);
                assert(b@.skip(i as int)[0] == y@[i as int]);
            }
            return (x[i] as u32) < (y[i] as u32);
        }
        proof {
            assert(a@.skip(i as int).drop_first() =~= a@.skip(i + 1));
            assert(b@.skip(i as int).drop_first() =~= b@.skip(i + 1));
        }
        i = i + 1;
    }
    n - i == 0 && m - i > 0
}

/// Inserts `x` into the strictly sorted `v` unless it is already there.
pub fn insert_sorted_unique(v: &mut Vec<String>, x: String)
    requires
        sorted_strict(strs(old(v)@)),
    ensures
        sorted_strict(strs(final(v)@)),
        forall|y: Seq<char>|
            #[trigger] strs(final(v)@).contains(y) <==> (old(v)@.map_values(
                |s: String| s@,
            ).contains(y) || y == x@),
{
    let ghost sv = strs(old(v)@);
    let n = v.len();
    let mut p: usize = 0;
    while p < n && str_lt(&v[p], &x)
        invariant
            n == v@.len(),
            v@ == old(v)@,
            sv == strs(v@),
            p <= n,
            sorted_strict(sv),
            forall|j: int| 0 <= j < p ==> seq_lt(#[trigger] sv[j], x@),
        decreases n - p,
    {
        p = p + 1;
    }
    if p < n && v[p] == x {
        proof {
            assert forall|y: Seq<char>| #[trigger] strs(v@).contains(y) <==> (sv.contains(y) || y == x@) by {
                if y == x@ {
                    assert(sv[p as int] == y);
                }
            }
        }
        return;
    }
    proof {
        if p < n {
            lemma_seq_lt_total(sv[p as int], x@);
            assert(seq_lt(x@, sv[p as int]));
        }
    }
    v.insert(p, x);
    proof {
        let nv = strs(v@);
        assert(nv =~= sv.insert(p as int, x@));
        assert forall|i: int, j: int| 0 <= i < j < nv.len() implies seq_lt(nv[i], nv[j]) by {
            if j < p {
            } else if j == p {
                assert(nv[i] == sv[i]);
            } else if i == p {
                assert(nv[j] == sv[j - 1]);
                if j - 1 > p {
                    lemma_seq_lt_transitive(x@, sv[p as int], sv[j - 1]);
                }
            } else if i < p {
                assert(nv[i] == sv[i]);
                assert(nv[j] == sv[j - 1]);
            } else {
                assert(nv[i] == sv[i - 1]);
                assert(nv[j] == sv[j - 1]);
            }
        }
        assert forall|y: Seq<char>| #[trigger] nv.contains(y) <==> (sv.contains(y) || y == x@) by {
            if nv.contains(y) {
                let k = choose|k: int| 0 <= k < nv.len() && nv[k] == y;
                if k < p {
                    assert(sv[k] == y);
                } else if k > p {
                    assert(sv[k - 1] == y);
                }
            }
            if sv.contains(y) {
                let k = choose|k: int| 0 <= k < sv.len() && sv[k] == y;
                if k < p {
                    assert(nv[k] == y);
                } else {
                    assert(nv[k + 1] == y);
                }
            }
            if y == x@ {
                assert(nv[p as int] == y);
            }
        }
    }
}


/// Whether `a` comes strictly before `b` in the order [`pair_lt`].
pub fn pair_less(a: &(String, String), b: &(String, String)) -> (r: bool)
    ensures
        r == pair_lt((a.0@, a.1@), (b.0@, b.1@)),
{
    str_lt(&a.0, &b.0) || (a.0 == b.0 && str_lt(&a.1, &b.1))
}

/// Inserts `x` into `v`, which is sorted by [`pair_lt`], after every element
/// not greater than it.
pub fn insert_sorted_pair(v: &mut Vec<(String, String)>, x: (String, String))
    requires
        sorted_pairs(str_pairs(old(v)@)),
    ensures
        sorted_pairs(str_pairs(final(v)@)),
        str_pairs(final(v)@).to_multiset() == str_pairs(old(v)@).to_multiset().insert((x.0@, x.1@)),
{
    let ghost sv = str_pairs(old(v)@);
    let ghost xv = (x.0@, x.1@);
    let n = v.len();
    let mut p: usize = 0;
    while p < n
        invariant
            n == v@.len(),
            v@ == old(v)@,
            sv == str_pairs(v@),
            p <= n,
            sorted_pairs(sv),
            xv == (x.0@, x.1@),
            forall|j: int| 0 <= j < p ==> !pair_lt(xv, #[trigger] sv[j]),
        ensures
            p <= n,
            p < n ==> pair_lt(xv, sv[p as int]),
            forall|j: int| 0 <= j < p ==> !pair_lt(xv, #[trigger] sv[j]),
        decreases n - p,
    {
        let later = pair_less(&x, &v[p]);
        proof {
            assert(sv[p as int] == (v@[p as int].0@, v@[p as int].1@));
        }
        if later {
            break;
        }
        p = p + 1;
    }
    v.insert(p, x);
    proof {
        let nv = str_pairs(v@);
        assert(nv =~= sv.insert(p as int, xv));
        assert forall|i: int, j: int| 0 <= i < j < nv.len() implies !pair_lt(nv[j], nv[i]) by {
            if j < p {
            } else if j == p {
                assert(nv[i] == sv[i]);
            } else if i == p {
                assert(nv[j] == sv[j - 1]);
                if pair_lt(nv[j], xv) {
                    if j - 1 > p {
                        // sv[p] <= sv[j-1] < x < sv[p] is impossible
                        if pair_lt(sv[j - 1], sv[p as int]) {
                        } else {
                            lemma_pair_lt_total(sv[j - 1], sv[p as int]);
                            if sv[j - 1] == sv[p as int] {
                                lemma_pair_lt_transitive(xv, sv[p as int], xv);
                                lemma_pair_lt_irreflexive(xv);
                            } else {
                                lemma_pair_lt_transitive(sv[p as int], sv[j - 1], xv);
                                lemma_pair_lt_transitive(xv, sv[p as int], xv);
                                lemma_pair_lt_irreflexive(xv);
                            }
                        }
                    } else {
                        lemma_pair_lt_transitive(xv, sv[p as int], xv);
                        lemma_pair_lt_irreflexive(xv);
                    }
                }
            } else if i < p {
                assert(nv[i] == sv[i]);
                assert(nv[j] == sv[j - 1]);
            } else {
                assert(nv[i] == sv[i - 1]);
                assert(nv[j] == sv[j - 1]);
            }
        }
        vstd::seq_lib::to_multiset_insert(sv, p as int, xv);
    }
}

} // verus!
