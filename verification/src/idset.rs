//! Finite sets of entity ids, kept as strictly increasing vectors.
//!
//! Trigger occupancy and the writeback records need set semantics with a
//! canonical, reproducible element order; a strictly sorted `Vec<u64>` gives
//! both, so two equal sets are equal vectors and serialize identically.

use vstd::prelude::*;

verus! {

/// The elements appear in strictly increasing order (hence without duplicates).
pub open spec fn strictly_sorted(s: Seq<u64>) -> bool {
    forall|i: int, j: int| 0 <= i < j < s.len() ==> s[i] < s[j]
}

/// Whether `x` is an element of the set held by `v`.
pub fn id_contains(v: &Vec<u64>, x: u64) -> (r: bool)
    ensures
        r == v@.contains(x),
{
    let mut i: usize = 0;
    while i < v.len()
        invariant
            0 <= i <= v.len(),
            forall|k: int| 0 <= k < i ==> v@[k] != x,
        decreases v.len() - i,
    {
        if v[i] == x {
            assert(v@[i as int] == x);
            return true;
        }
        i += 1;
    }
    false
}

/// Insert `x`, keeping the vector strictly sorted; a no-op if already present.
pub fn id_insert(v: &mut Vec<u64>, x: u64)
    requires
        strictly_sorted(old(v)@),
    ensures
        strictly_sorted(final(v)@),
        forall|y: u64| final(v)@.contains(y) <==> (old(v)@.contains(y) || y == x),
{
    let ghost orig = v@;
    let mut i: usize = 0;
    while i < v.len() && v[i] < x
        invariant
            v@ == orig,
            strictly_sorted(v@),
            0 <= i <= v.len(),
            forall|k: int| 0 <= k < i ==> v@[k] < x,
        decreases v.len() - i,
    {
        i += 1;
    }
    if i < v.len() && v[i] == x {
        assert(v@.contains(x));
        return;
    }
    assert(forall|k: int| i <= k < v@.len() ==> v@[k] > x);
    v.insert(i, x);
    proof {
        orig.insert_ensures(i as int, x);
        assert(v@.contains(x)) by {
            assert(v@[i as int] == x);
        }
        assert forall|y: u64| v@.contains(y) implies (orig.contains(y) || y == x) by {
            let k = choose|k: int| 0 <= k < v@.len() && v@[k] == y;
            if k < i {
                assert(orig[k] == y);
            } else if k > i {
                assert(orig[k - 1] == y);
            }
        }
        assert forall|y: u64| orig.contains(y) implies v@.contains(y) by {
            let k = choose|k: int| 0 <= k < orig.len() && orig[k] == y;
            if k < i {
                assert(v@[k] == y);
            } else {
                assert(v@[k + 1] == y);
            }
        }
    }
}

/// Remove `x`, keeping the vector strictly sorted; a no-op if absent.
pub fn id_remove(v: &mut Vec<u64>, x: u64)
    requires
        strictly_sorted(old(v)@),
    ensures
        strictly_sorted(final(v)@),
        forall|y: u64| final(v)@.contains(y) <==> (old(v)@.contains(y) && y != x),
{
    let ghost orig = v@;
    let mut i: usize = 0;
    while i < v.len()
        invariant
            old(v)@ == orig,
            v@ == orig,
            strictly_sorted(v@),
            0 <= i <= v.len(),
            forall|k: int| 0 <= k < i ==> v@[k] != x,
        decreases v.len() - i,
    {
        if v[i] == x {
            v.remove(i);
            proof {
                orig.remove_ensures(i as int);
                assert forall|y: u64| v@.contains(y) implies (orig.contains(y) && y != x) by {
                    let k = choose|k: int| 0 <= k < v@.len() && v@[k] == y;
                    assert(orig[i as int] == x);
                    if k < i {
                        assert(orig[k] == y);
                        assert(orig[k] != x);
                    } else {
                        assert(orig[k + 1] == y);
                        assert(orig[i as int] < orig[k + 1]);
                    }
                }
                assert forall|y: u64| orig.contains(y) && y != x implies v@.contains(y) by {
                    let k = choose|k: int| 0 <= k < orig.len() && orig[k] == y;
                    if k < i {
                        assert(v@[k] == y);
                    } else {
                        assert(orig[i as int] == x);
                        assert(k != i);
                        assert(v@[k - 1] == y);
                    }
                }
            }
            return;
        }
        i += 1;
    }
}

/// The elements of `a` that are not elements of `b`, in `a`'s order.
pub fn id_diff(a: &Vec<u64>, b: &Vec<u64>) -> (r: Vec<u64>)
    requires
        strictly_sorted(a@),
    ensures
        strictly_sorted(r@),
        forall|y: u64| r@.contains(y) <==> (a@.contains(y) && !b@.contains(y)),
{
    let mut r: Vec<u64> = Vec::new();
    let mut i: usize = 0;
    while i < a.len()
        invariant
            strictly_sorted(a@),
            0 <= i <= a.len(),
            forall|k: int| 0 <= k < r@.len() ==> a@.contains(r@[k]) && !b@.contains(r@[k]),
            forall|y: u64| a@.take(i as int).contains(y) && !b@.contains(y) ==> r@.contains(y),
            forall|k: int|
                #![trigger r@[k]]
                0 <= k < r@.len() ==> exists|n: int| 0 <= n < i && #[trigger] a@[n] == r@[k],
            forall|k1: int, k2: int| 0 <= k1 < k2 < r@.len() ==> r@[k1] < r@[k2],
        decreases a.len() - i,
    {
        let x = a[i];
        let present = id_contains(b, x);
        let ghost r_before = r@;
        if !present {
            proof {
                assert(a@.contains(x)) by {
                    assert(a@[i as int] == x);
                }
                assert forall|k: int| 0 <= k < r@.len() implies r@[k] < x by {
                    let n = choose|n: int| 0 <= n < i && #[trigger] a@[n] == r@[k];
                }
            }
            r.push(x);
        }
        proof {
            assert forall|y: u64| a@.take(i + 1).contains(y) && !b@.contains(y) implies r@.contains(
                y,
            ) by {
                if y == x {
                    assert(r@[r@.len() - 1] == y);
                } else {
                    assert(a@.take(i as int).contains(y)) by {
                        let k = choose|k: int|
                            0 <= k < i + 1 && #[trigger] a@.take(i + 1)[k] == y;
                        assert(a@.take(i + 1)[i as int] == x);
                        assert(k != i);
                        assert(a@.take(i as int)[k] == y);
                    }
                    assert(r_before.contains(y));
                    let m = choose|m: int| 0 <= m < r_before.len() && r_before[m] == y;
                    assert(r@[m] == y);
                }
            }
        }
        i += 1;
    }
    proof {
        assert(a@.take(a@.len() as int) == a@);
    }
    r
}

/// A set of ids has exactly one stored form: two strictly sorted vectors
/// with the same elements are the same vector. Equal occupancy therefore
/// serializes identically, run after run.
pub proof fn lemma_sorted_unique_representation(a: Seq<u64>, b: Seq<u64>)
    requires
        strictly_sorted(a),
        strictly_sorted(b),
        forall|y: u64| a.contains(y) <==> b.contains(y),
    ensures
        a == b,
    decreases a.len(),
{
    if a.len() == 0 {
        if b.len() > 0 {
            assert(b.contains(b[0]));
        }
        assert(a =~= b);
    } else {
        assert(a.contains(a[0]));
        assert(b.len() > 0) by {
            assert(b.contains(a[0]));
        }
        assert(a[0] == b[0]) by {
            assert(b.contains(a[0]));
            assert(b.contains(b[0]));
            assert(a.contains(b[0]));
            let ka = choose|k: int| 0 <= k < b.len() && b[k] == a[0];
            let kb = choose|k: int| 0 <= k < a.len() && a[k] == b[0];
            if ka > 0 {
                assert(b[0] < b[ka]);
                if kb > 0 {
                    assert(a[0] < a[kb]);
                }
            }
        }
        let ta = a.drop_first();
        let tb = b.drop_first();
        assert forall|y: u64| ta.contains(y) implies tb.contains(y) by {
            let k = choose|k: int| 0 <= k < ta.len() && ta[k] == y;
            assert(a[k + 1] == y);
            assert(a[0] < y);
            assert(b.contains(y));
            let m = choose|m: int| 0 <= m < b.len() && b[m] == y;
            assert(m != 0);
            assert(tb[m - 1] == y);
        }
        assert forall|y: u64| tb.contains(y) implies ta.contains(y) by {
            let k = choose|k: int| 0 <= k < tb.len() && tb[k] == y;
            assert(b[k + 1] == y);
            assert(b[0] < y);
            assert(a.contains(y));
            let m = choose|m: int| 0 <= m < a.len() && a[m] == y;
            assert(m != 0);
            assert(ta[m - 1] == y);
        }
        assert(strictly_sorted(ta)) by {
            assert(forall|i: int, j: int|
                0 <= i < j < ta.len() ==> ta[i] == a[i + 1] && ta[j] == a[j + 1]);
        }
        assert(strictly_sorted(tb)) by {
            assert(forall|i: int, j: int|
                0 <= i < j < tb.len() ==> tb[i] == b[i + 1] && tb[j] == b[j + 1]);
        }
        lemma_sorted_unique_representation(ta, tb);
        assert(a.len() == b.len());
        assert forall|i: int| 0 <= i < a.len() implies a[i] == b[i] by {
            if i > 0 {
                assert(ta[i - 1] == a[i]);
                assert(tb[i - 1] == b[i]);
            }
        }
        assert(a =~= b);
    }
}

/// A strictly sorted vector holding the same elements as `v`.
pub fn id_sorted(v: &Vec<u64>) -> (r: Vec<u64>)
    ensures
        strictly_sorted(r@),
        forall|y: u64| r@.contains(y) <==> v@.contains(y),
{
    let mut r: Vec<u64> = Vec::new();
    let mut i: usize = 0;
    while i < v.len()
        invariant
            0 <= i <= v.len(),
            strictly_sorted(r@),
            forall|y: u64| r@.contains(y) <==> v@.take(i as int).contains(y),
        decreases v.len() - i,
    {
        let ghost before = r@;
        id_insert(&mut r, v[i]);
        proof {
            assert forall|y: u64| r@.contains(y) implies v@.take(i + 1).contains(y) by {
                if y == v@[i as int] {
                    assert(v@.take(i + 1)[i as int] == y);
                } else {
                    let k = choose|k: int| 0 <= k < i && v@.take(i as int)[k] == y;
                    assert(v@.take(i + 1)[k] == y);
                }
            }
            assert forall|y: u64| v@.take(i + 1).contains(y) implies r@.contains(y) by {
                let k = choose|k: int| 0 <= k < i + 1 && #[trigger] v@.take(i + 1)[k] == y;
                if k < i {
                    assert(v@.take(i as int)[k] == y);
                }
            }
        }
        i += 1;
    }
    proof {
        assert(v@.take(v@.len() as int) == v@);
    }
    r
}

} // verus!
