//! Intersection records and selection of the visible hit: the record with
//! the smallest non-negative `t`. A record refers to its shape by index
//! into the owning world's shape list.

use vstd::prelude::*;
use vstd::multiset::Multiset;
use crate::fixed::Fx;

verus! {

#[derive(Clone, Copy, Debug, PartialEq, Eq, Structural)]
pub struct Intersection {
    /// The ray parameter of the crossing; may be negative (behind the
    /// ray's origin).
    pub t: Fx,
    /// The index of the shape crossed, into the owning world's shapes.
    pub shape: usize,
}

impl Intersection {
    pub fn new(t: Fx, shape: usize) -> (r: Intersection)
        ensures
            r == (Intersection { t, shape }),
    {
        Intersection { t, shape }
    }
}

/// `a` is at least as good a visible hit as `b`: a smaller `t`, with ties
/// broken toward the smaller shape index.
pub open spec fn beats(a: Intersection, b: Intersection) -> bool {
    a.t.raw < b.t.raw || (a.t.raw == b.t.raw && a.shape <= b.shape)
}

/// `h` is the visible hit of `s`: it occurs in `s`, its `t` is
/// non-negative, and it beats every entry of `s` with non-negative `t`.
pub open spec fn is_hit_of(s: Seq<Intersection>, h: Intersection) -> bool {
    &&& s.contains(h)
    &&& h.t.raw >= 0
    &&& forall|x: Intersection| #[trigger] s.contains(x) && x.t.raw >= 0 ==> beats(h, x)
}

/// The visible hit of a set of intersections: the entry with the smallest
/// non-negative `t`, or `None` when the set is empty or every `t` is
/// negative. Ties on `t` go to the smaller shape index.
pub open spec fn spec_hit(s: Seq<Intersection>) -> Option<Intersection> {
    if exists|h: Intersection| is_hit_of(s, h) {
        Some(choose|h: Intersection| is_hit_of(s, h))
    } else {
        None
    }
}

/// Two visible hits of the same sequence are equal: each beats the other.
pub proof fn lemma_hit_unique(s: Seq<Intersection>, h1: Intersection, h2: Intersection)
    requires
        is_hit_of(s, h1),
        is_hit_of(s, h2),
    ensures
        h1 == h2,
{
    assert(beats(h1, h2));
    assert(beats(h2, h1));
}

/// The visible hit depends only on which intersections occur, not on the
/// order they are listed in.
pub proof fn lemma_hit_multiset(s1: Seq<Intersection>, s2: Seq<Intersection>)
    requires
        s1.to_multiset() == s2.to_multiset(),
    ensures
        spec_hit(s1) == spec_hit(s2),
{
    broadcast use vstd::seq_lib::group_to_multiset_ensures;

    assert forall|x: Intersection| s1.contains(x) <==> s2.contains(x) by {
        assert(s1.contains(x) <==> s1.to_multiset().count(x) > 0);
        assert(s2.contains(x) <==> s2.to_multiset().count(x) > 0);
    }
    if exists|h: Intersection| is_hit_of(s1, h) {
        let h = choose|h: Intersection| is_hit_of(s1, h);
        assert(is_hit_of(s2, h)) by {
            assert forall|x: Intersection| #[trigger] s2.contains(x) && x.t.raw >= 0 implies beats(
                h,
                x,
            ) by {
                assert(s1.contains(x));
            }
        }
        let h2 = choose|h2: Intersection| is_hit_of(s2, h2);
        lemma_hit_unique(s2, h, h2);
    } else {
        if exists|h: Intersection| is_hit_of(s2, h) {
            let h = choose|h: Intersection| is_hit_of(s2, h);
            assert(is_hit_of(s1, h)) by {
                assert forall|x: Intersection| #[trigger] s1.contains(x) && x.t.raw >= 0 implies
                    beats(h, x) by {
                    assert(s2.contains(x));
                }
            }
        }
    }
}

/// A set whose parameters are all negative has no visible hit.
pub proof fn lemma_all_negative_no_hit(s: Seq<Intersection>)
    requires
        forall|j: int| 0 <= j < s.len() ==> (#[trigger] s[j]).t.raw < 0,
    ensures
        spec_hit(s) is None,
{
    if exists|h: Intersection| is_hit_of(s, h) {
        let h = choose|h: Intersection| is_hit_of(s, h);
        let j = choose|j: int| 0 <= j < s.len() && s[j] == h;
        assert(s[j].t.raw < 0);
    }
}

/// Select the visible hit: the intersection with the smallest
/// non-negative `t` (ties toward the smaller shape index), or `None` when
/// the set is empty or every `t` is negative.
pub fn hit(xs: Vec<Intersection>) -> (r: Option<Intersection>)
    ensures
        r == spec_hit(xs@),
        r is None ==> forall|j: int| 0 <= j < xs@.len() ==> (#[trigger] xs@[j]).t.raw < 0,
{
    let ghost s = xs@;
    let mut best: Option<Intersection> = None;
    let mut k: usize = 0;
    while k < xs.len()
        invariant
            s == xs@,
            k <= xs.len(),
            match best {
                None => forall|j: int| 0 <= j < k ==> s[j].t.raw < 0,
                Some(b) => {
                    &&& exists|j: int| 0 <= j < k && s[j] == b
                    &&& b.t.raw >= 0
                    &&& forall|j: int| 0 <= j < k && s[j].t.raw >= 0 ==> beats(b, s[j])
                },
            },
        decreases xs.len() - k,
    {
        let x = xs[k];
        if x.t.raw >= 0 {
            match best {
                None => {
                    best = Some(x);
                },
                Some(b) => {
                    if x.t.raw < b.t.raw || (x.t.raw == b.t.raw && x.shape < b.shape) {
                        best = Some(x);
                    }
                },
            }
        }
        k = k + 1;
    }
    proof {
        match best {
            None => {
                assert forall|h: Intersection| !is_hit_of(s, h) by {
                    if s.contains(h) && h.t.raw >= 0 {
                        let j = choose|j: int| 0 <= j < s.len() && s[j] == h;
                        assert(s[j].t.raw < 0);
                    }
                }
            },
            Some(b) => {
                assert(is_hit_of(s, b)) by {
                    assert forall|x: Intersection| #[trigger] s.contains(x) && x.t.raw >= 0
                        implies beats(b, x) by {
                        let j = choose|j: int| 0 <= j < s.len() && s[j] == x;
                        assert(beats(b, s[j]));
                    }
                }
                let c = choose|h: Intersection| is_hit_of(s, h);
                lemma_hit_unique(s, b, c);
            },
        }
    }
    best
}

/// `s` is ordered by non-decreasing `t`.
pub open spec fn sorted_by_t(s: Seq<Intersection>) -> bool {
    forall|i: int, j: int| 0 <= i < j < s.len() ==> s[i].t.raw <= s[j].t.raw
}

/// Sort intersections by `t`, ascending, by insertion; the result holds
/// exactly the intersections given.
pub fn sort_by_t(v: Vec<Intersection>) -> (r: Vec<Intersection>)
    ensures
        r@.to_multiset() == v@.to_multiset(),
        sorted_by_t(r@),
        r@.len() == v@.len(),
{
    broadcast use vstd::seq_lib::group_to_multiset_ensures;

    let mut r: Vec<Intersection> = Vec::new();
    let mut i: usize = 0;
    proof {
        assert(v@.subrange(0, 0) =~= Seq::<Intersection>::empty());
        assert(Seq::<Intersection>::empty().to_multiset() =~= Multiset::<Intersection>::empty());
    }
    while i < v.len()
        invariant
            i <= v.len(),
            r@.len() == i,
            r@.to_multiset() == v@.subrange(0, i as int).to_multiset(),
            sorted_by_t(r@),
        decreases v.len() - i,
    {
        let x = v[i];
        let mut p: usize = 0;
        while p < r.len() && r[p].t.raw <= x.t.raw
            invariant
                p <= r.len(),
                forall|q: int| 0 <= q < p ==> r@[q].t.raw <= x.t.raw,
            decreases r.len() - p,
        {
            p = p + 1;
        }
        let ghost r_old = r@;
        r.insert(p, x);
        proof {
            vstd::seq_lib::to_multiset_insert(r_old, p as int, x);
            vstd::seq_lib::to_multiset_build(v@.subrange(0, i as int), x);
            assert(v@.subrange(0, i + 1 as int) =~= v@.subrange(0, i as int).push(x));
            assert forall|a: int, b: int| 0 <= a < b < r@.len() implies r@[a].t.raw <= r@[b].t.raw
                by {
                if b < p {
                } else if a < p && b == p {
                } else if a < p && b > p {
                    assert(r@[b] == r_old[b - 1]);
                } else if a == p {
                    assert(r@[b] == r_old[b - 1]);
                    assert(r_old[p as int].t.raw > x.t.raw || p == r_old.len());
                    assert(r_old[p as int].t.raw <= r_old[b - 1].t.raw || p as int == b - 1);
                } else {
                    assert(r@[a] == r_old[a - 1]);
                    assert(r@[b] == r_old[b - 1]);
                }
            }
        }
        i = i + 1;
    }
    proof {
        assert(v@.subrange(0, v@.len() as int) =~= v@);
    }
    r
}

} // verus!
