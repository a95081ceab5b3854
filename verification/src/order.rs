//! Stable sorting by an order that is given as a value.
use vstd::prelude::*;

verus! {

/// A strict weak order on `T`: two items neither of which comes before the
/// other are tied.
pub trait Order<T> {
    spec fn before(&self, a: T, b: T) -> bool;

    proof fn asymmetric(&self, a: T, b: T)
        requires
            self.before(a, b),
        ensures
            !self.before(b, a),
    ;

    proof fn negatively_transitive(&self, a: T, b: T, c: T)
        requires
            !self.before(a, b),
            !self.before(b, c),
        ensures
            !self.before(a, c),
    ;

    fn is_before(&self, a: &T, b: &T) -> (r: bool)
        ensures
            r == self.before(*a, *b),
    ;
}

/// `r` holds the items of `s` in the places that `p` gives, in order, with tied
/// items in the order in which `s` has them.
pub open spec fn arranged<T, O: Order<T>>(o: O, s: Seq<T>, p: Seq<int>, r: Seq<T>) -> bool {
    &&& p.len() == s.len()
    &&& r.len() == s.len()
    &&& p.no_duplicates()
    &&& forall|i: int| 0 <= i < p.len() ==> 0 <= #[trigger] p[i] < s.len() && r[i] == s[p[i]]
    &&& forall|i: int, j: int|
        #![trigger r[i], r[j]]
        0 <= i < j < r.len() ==> !o.before(r[j], r[i]) && (o.before(r[i], r[j]) || p[i] < p[j])
}

/// `r` is `s` sorted by `o`, tied items staying in their order.
pub open spec fn stably_sorted<T, O: Order<T>>(o: O, s: Seq<T>, r: Seq<T>) -> bool {
    &&& exists|p: Seq<int>| arranged(o, s, p, r)
    &&& r.to_multiset() == s.to_multiset()
}

/// Sorts by `o`, tied items staying in their order.
pub fn stable_sort<T, O: Order<T>>(o: &O, v: Vec<T>) -> (r: Vec<T>)
    ensures
        stably_sorted(*o, v@, r@),
{
    let ghost s = v@;
    let mut rest = v;
    let mut out: Vec<T> = Vec::new();
    let ghost mut p: Seq<int> = Seq::empty();
    proof {
        assert(s.skip(s.len() as int) =~= Seq::<T>::empty());
        assert(out@ =~= Seq::<T>::empty());
    }
    while rest.len() > 0
        invariant
            rest@.len() <= s.len(),
            rest@ == s.take(rest@.len() as int),
            out@.len() == s.len() - rest@.len(),
            p.len() == out@.len(),
            p.no_duplicates(),
            forall|i: int|
                0 <= i < p.len() ==> rest@.len() <= #[trigger] p[i] < s.len() && out@[i] == s[p[i]],
            forall|i: int, j: int|
                #![trigger out@[i], out@[j]]
                0 <= i < j < out@.len() ==> !o.before(out@[j], out@[i]) && (o.before(
                    out@[i],
                    out@[j],
                ) || p[i] < p[j]),
            out@.to_multiset() == s.skip(rest@.len() as int).to_multiset(),
        decreases rest@.len(),
    {
        let ghost m = rest@.len() - 1;
        let ghost out0 = out@;
        let x = match rest.pop() {
            Some(x) => x,
            None => {
                return out;
            },
        };
        let mut k: usize = 0;
        while k < out.len() && o.is_before(&out[k], &x)
            invariant
                k <= out@.len(),
                out@ == out0,
                forall|i: int| 0 <= i < k ==> o.before(#[trigger] out@[i], x),
            decreases out.len() - k,
        {
            k += 1;
        }
        proof {
            assert(rest@ =~= s.take(m));
            assert(x == s[m]);
            // Everything from position k on does not come before x.
            assert forall|i: int| k <= i < out0.len() implies !o.before(#[trigger] out0[i], x) by {
                if i > k {
                    assert(!o.before(out0[i], out0[k as int]));
                    o.negatively_transitive(out0[i], out0[k as int], x);
                }
            }
            assert forall|i: int| 0 <= i < k implies !o.before(x, #[trigger] out0[i]) by {
                o.asymmetric(out0[i], x);
            }
        }
        out.insert(k, x);
        proof {
            let p0 = p;
            p = p0.insert(k as int, m);
            assert(out@ == out0.insert(k as int, x));
            assert forall|i: int| 0 <= i < p.len() implies m <= #[trigger] p[i] < s.len() && out@[i]
                == s[p[i]] by {
                if i < k {
                    assert(p[i] == p0[i]);
                } else if i > k {
                    assert(p[i] == p0[i - 1]);
                }
            }
            assert(p.no_duplicates()) by {
                assert forall|i: int, j: int| 0 <= i < p.len() && 0 <= j < p.len() && i != j implies p[i]
                    != p[j] by {
                    let i0 = if i < k { i } else { i - 1 };
                    let j0 = if j < k { j } else { j - 1 };
                    if i != k && j != k {
                        assert(p[i] == p0[i0] && p[j] == p0[j0]);
                    } else if i == k {
                        assert(p[j] == p0[j0]);
                    } else {
                        assert(p[i] == p0[i0]);
                    }
                }
            }
            assert forall|i: int, j: int|
                #![trigger out@[i], out@[j]]
                0 <= i < j < out@.len() implies !o.before(out@[j], out@[i]) && (o.before(
                out@[i],
                out@[j],
            ) || p[i] < p[j]) by {
                let i0 = if i < k { i } else { i - 1 };
                let j0 = if j < k { j } else { j - 1 };
                if i != k && j != k {
                    assert(out@[i] == out0[i0] && out@[j] == out0[j0]);
                    assert(p[i] == p0[i0] && p[j] == p0[j0]);
                } else if i == k {
                    assert(out@[j] == out0[j0]);
                    assert(p[j] == p0[j0]);
                } else {
                    assert(out@[i] == out0[i0]);
                    assert(o.before(out0[i0], x));
                }
            }
            assert(s.skip(m) =~= seq![x] + s.skip(m + 1));
            vstd::seq_lib::lemma_multiset_commutative(seq![x], s.skip(m + 1));
            assert(seq![x].to_multiset() =~= vstd::multiset::Multiset::singleton(x)) by {
                assert(seq![x] =~= Seq::<T>::empty().push(x));
                seq![x].to_multiset_ensures();
                Seq::<T>::empty().to_multiset_ensures();
                broadcast use vstd::seq_lib::group_to_multiset_ensures;
            }
            assert(out@.to_multiset() =~= out0.to_multiset().insert(x)) by {
                broadcast use vstd::seq_lib::group_to_multiset_ensures;
            }
        }
    }
    proof {
        assert(s.skip(0) =~= s);
        assert(arranged(*o, s, p, out@));
    }
    out
}

/// What is sorted holds the same items, none of which comes before one that stands in front
/// of it; of tied items the one that came first stands first.
pub proof fn sorted_items_are_in_order<T, O: Order<T>>(o: O, s: Seq<T>, r: Seq<T>)
    requires
        stably_sorted(o, s, r),
    ensures
        r.len() == s.len(),
        r.to_multiset() == s.to_multiset(),
        forall|i: int, j: int|
            #![trigger r[i], r[j]]
            0 <= i < j < r.len() ==> !o.before(r[j], r[i]),
        exists|p: Seq<int>|
            p.len() == s.len() && p.no_duplicates() && (forall|i: int|
                0 <= i < p.len() ==> 0 <= #[trigger] p[i] < s.len() && r[i] == s[p[i]]) && (forall|
                i: int,
                j: int,
            |
                #![trigger p[i], p[j]]
                0 <= i < j < p.len() && !o.before(r[i], r[j]) ==> p[i] < p[j]),
{
    let p = choose|p: Seq<int>| arranged(o, s, p, r);
    assert(p.len() == s.len() && p.no_duplicates());
    assert forall|i: int, j: int|
        #![trigger p[i], p[j]]
        0 <= i < j < p.len() && !o.before(r[i], r[j]) implies p[i] < p[j] by {
        assert(r[i] == s[p[i]] && r[j] == s[p[j]]);
    }
}

/// Nothing is lost and nothing is added by sorting.
pub proof fn sorting_keeps_every_item<T, O: Order<T>>(o: O, s: Seq<T>, r: Seq<T>, x: T)
    requires
        stably_sorted(o, s, r),
    ensures
        r.contains(x) <==> s.contains(x),
{
    s.to_multiset_ensures();
    r.to_multiset_ensures();
    assert(s.to_multiset().count(x) > 0 <==> s.contains(x));
    assert(r.to_multiset().count(x) > 0 <==> r.contains(x));
}

} // verus!
