//! Intersections: a shape identity paired with a parametric distance,
//! their ascending order, and the visibility rule that picks the hit.

use crate::fixed::Fx;
use crate::ray::Ray;
use crate::shape::{shape_id_view, spec_shape_intersect, Shape};
use vstd::prelude::*;
use vstd::seq_lib::group_to_multiset_ensures;

verus! {

/// A shape identity and the distance `t` along the ray. Shapes are not
/// held here; shading looks them back up by identity.
#[derive(Debug, Clone, PartialEq)]
pub struct Intersection {
    pub shape_id: String,
    pub t: Fx,
}

/// The ghost face of an intersection: the identity as a character
/// sequence and the distance.
pub open spec fn iview(i: Intersection) -> (Seq<char>, Fx) {
    (i.shape_id@, i.t)
}

pub open spec fn ivs(s: Seq<Intersection>) -> Seq<(Seq<char>, Fx)> {
    s.map_values(|i: Intersection| iview(i))
}

/// Ascending by distance.
pub open spec fn sorted_pairs(s: Seq<(Seq<char>, Fx)>) -> bool {
    forall|i: int, j: int|
        #![trigger s[i], s[j]]
        0 <= i <= j < s.len() ==> s[i].1.raw <= s[j].1.raw
}

/// Stable insertion into an ascending sequence: the new entry lands
/// after every entry at or below its distance.
pub open spec fn spec_insert(s: Seq<(Seq<char>, Fx)>, x: (Seq<char>, Fx)) -> Seq<(Seq<char>, Fx)>
    decreases s.len(),
{
    if s.len() == 0 {
        seq![x]
    } else if x.1.raw < s.last().1.raw {
        spec_insert(s.drop_last(), x).push(s.last())
    } else {
        s.push(x)
    }
}

/// Stable insertion sort, ascending by distance.
pub open spec fn spec_sort(s: Seq<(Seq<char>, Fx)>) -> Seq<(Seq<char>, Fx)>
    decreases s.len(),
{
    if s.len() == 0 {
        Seq::empty()
    } else {
        spec_insert(spec_sort(s.drop_last()), s.last())
    }
}

/// The visibility rule: the first entry with a strictly positive
/// distance, in the order given.
pub open spec fn spec_hit(s: Seq<(Seq<char>, Fx)>) -> Option<(Seq<char>, Fx)>
    decreases s.len(),
{
    if s.len() == 0 {
        None
    } else if s[0].1.raw > 0 {
        Some(s[0])
    } else {
        spec_hit(s.drop_first())
    }
}

pub proof fn lemma_insert_len(s: Seq<(Seq<char>, Fx)>, x: (Seq<char>, Fx))
    ensures
        spec_insert(s, x).len() == s.len() + 1,
    decreases s.len(),
{
    if s.len() != 0 && x.1.raw < s.last().1.raw {
        lemma_insert_len(s.drop_last(), x);
    }
}

/// Insertion adds exactly the new entry: the contents as a multiset
/// grow by one occurrence of it.
pub proof fn lemma_insert_multiset(s: Seq<(Seq<char>, Fx)>, x: (Seq<char>, Fx))
    ensures
        spec_insert(s, x).to_multiset() =~= s.to_multiset().insert(x),
    decreases s.len(),
{
    broadcast use group_to_multiset_ensures;

    if s.len() == 0 {
        assert(seq![x] =~= Seq::<(Seq<char>, Fx)>::empty().push(x));
    } else if x.1.raw < s.last().1.raw {
        lemma_insert_multiset(s.drop_last(), x);
        assert(s.drop_last().push(s.last()) =~= s);
    } else {
    }
}

pub proof fn lemma_sort_len(s: Seq<(Seq<char>, Fx)>)
    ensures
        spec_sort(s).len() == s.len(),
    decreases s.len(),
{
    if s.len() != 0 {
        lemma_sort_len(s.drop_last());
        lemma_insert_len(spec_sort(s.drop_last()), s.last());
    }
}

/// Sorting keeps exactly the given entries: the multiset of contents
/// is unchanged.
pub proof fn lemma_sort_multiset(s: Seq<(Seq<char>, Fx)>)
    ensures
        spec_sort(s).to_multiset() =~= s.to_multiset(),
    decreases s.len(),
{
    broadcast use group_to_multiset_ensures;

    if s.len() != 0 {
        lemma_sort_multiset(s.drop_last());
        lemma_insert_multiset(spec_sort(s.drop_last()), s.last());
        assert(s.drop_last().push(s.last()) =~= s);
    }
}

pub proof fn lemma_insert_sorted(s: Seq<(Seq<char>, Fx)>, x: (Seq<char>, Fx))
    requires
        sorted_pairs(s),
    ensures
        sorted_pairs(spec_insert(s, x)),
    decreases s.len(),
{
    broadcast use group_to_multiset_ensures;

    if s.len() == 0 {
    } else if x.1.raw < s.last().1.raw {
        let inner = spec_insert(s.drop_last(), x);
        lemma_insert_sorted(s.drop_last(), x);
        lemma_insert_len(s.drop_last(), x);
        lemma_insert_multiset(s.drop_last(), x);
        assert forall|k: int| 0 <= k < inner.len() implies inner[k].1.raw <= s.last().1.raw by {
            assert(inner.contains(inner[k]));
            assert(inner.to_multiset().count(inner[k]) > 0);
            if inner[k] == x {
            } else {
                assert(s.drop_last().to_multiset().count(inner[k]) > 0);
                assert(s.drop_last().contains(inner[k]));
                let j = choose|j: int|
                    0 <= j < s.drop_last().len() && s.drop_last()[j] == inner[k];
                assert(s[j] == s.drop_last()[j]);
                assert(s[j].1.raw <= s.last().1.raw);
            }
        }
        let r = inner.push(s.last());
        assert forall|i: int, j: int|
            #![trigger r[i], r[j]]
            0 <= i <= j < r.len() implies r[i].1.raw <= r[j].1.raw by {
            if j < inner.len() {
                assert(inner[i].1.raw <= inner[j].1.raw);
            } else {
                if i < inner.len() {
                    assert(inner[i].1.raw <= s.last().1.raw);
                }
            }
        }
    } else {
        let r = s.push(x);
        assert forall|i: int, j: int|
            #![trigger r[i], r[j]]
            0 <= i <= j < r.len() implies r[i].1.raw <= r[j].1.raw by {
            if j < s.len() {
                assert(s[i].1.raw <= s[j].1.raw);
            } else {
                if i < s.len() {
                    assert(s[i].1.raw <= s.last().1.raw);
                }
            }
        }
    }
}

/// Where the runtime scan stops is where the stable insertion lands:
/// at the first position whose entry lies strictly above the new one.
pub proof fn lemma_insert_position(s: Seq<(Seq<char>, Fx)>, x: (Seq<char>, Fx), p: int)
    requires
        sorted_pairs(s),
        0 <= p <= s.len(),
        forall|k: int| 0 <= k < p ==> (#[trigger] s[k]).1.raw <= x.1.raw,
        forall|k: int| p <= k < s.len() ==> (#[trigger] s[k]).1.raw > x.1.raw,
    ensures
        spec_insert(s, x) =~= s.insert(p, x),
    decreases s.len(),
{
    if s.len() == 0 {
        assert(spec_insert(s, x) =~= s.insert(0, x));
    } else if x.1.raw < s.last().1.raw {
        assert(p <= s.len() - 1) by {
            if p == s.len() {
                assert(s[s.len() - 1].1.raw <= x.1.raw);
            }
        }
        assert(forall|k: int|
            0 <= k < p ==> (#[trigger] s.drop_last()[k]).1.raw <= x.1.raw) by {
            assert(forall|k: int| 0 <= k < s.len() - 1 ==> s.drop_last()[k] == s[k]);
        }
        assert(forall|k: int|
            p <= k < s.drop_last().len() ==> (#[trigger] s.drop_last()[k]).1.raw > x.1.raw) by {
            assert(forall|k: int| 0 <= k < s.len() - 1 ==> s.drop_last()[k] == s[k]);
        }
        lemma_insert_position(s.drop_last(), x, p);
        assert(spec_insert(s.drop_last(), x).push(s.last()) =~= s.insert(p, x)) by {
            lemma_insert_len(s.drop_last(), x);
        }
    } else {
        assert(p == s.len()) by {
            if p < s.len() {
                assert(s[s.len() - 1].1.raw > x.1.raw) by {
                    assert(s[p].1.raw > x.1.raw);
                    assert(s[p].1.raw <= s[s.len() - 1].1.raw);
                }
            }
        }
        assert(s.push(x) =~= s.insert(p, x));
    }
}

/// What `spec_hit` finds: nothing only when nothing lies ahead, or the
/// entry at the first index with positive distance.
pub proof fn lemma_hit_characterization(s: Seq<(Seq<char>, Fx)>)
    ensures
        match spec_hit(s) {
            None => forall|k: int| 0 <= k < s.len() ==> (#[trigger] s[k]).1.raw <= 0,
            Some(h) => exists|k: int|
                0 <= k < s.len() && s[k] == h && h.1.raw > 0 && (forall|j: int|
                    0 <= j < k ==> (#[trigger] s[j]).1.raw <= 0),
        },
    decreases s.len(),
{
    if s.len() == 0 {
    } else if s[0].1.raw > 0 {
        let h = s[0];
        assert(0 <= 0 < s.len() && s[0] == h && h.1.raw > 0 && (forall|j: int|
            0 <= j < 0 ==> (#[trigger] s[j]).1.raw <= 0));
    } else {
        lemma_hit_characterization(s.drop_first());
        match spec_hit(s.drop_first()) {
            None => {
                assert forall|k: int| 1 <= k < s.len() implies (#[trigger] s[k]).1.raw <= 0 by {
                    assert(s.drop_first()[k - 1] == s[k]);
                    assert(s.drop_first()[k - 1].1.raw <= 0);
                }
            },
            Some(h) => {
                let k0 = choose|k: int|
                    0 <= k < s.drop_first().len() && s.drop_first()[k] == h && h.1.raw > 0 && (
                    forall|j: int| 0 <= j < k ==> (#[trigger] s.drop_first()[j]).1.raw <= 0);
                assert(s[k0 + 1] == h);
                assert(forall|j: int| 0 <= j < k0 + 1 ==> (#[trigger] s[j]).1.raw <= 0) by {
                    assert(forall|j: int|
                        1 <= j < k0 + 1 ==> s[j] == s.drop_first()[j - 1]);
                }
                assert(0 <= k0 + 1 < s.len() && s[k0 + 1] == h && h.1.raw > 0 && (forall|j: int|
                    0 <= j < k0 + 1 ==> (#[trigger] s[j]).1.raw <= 0));
            },
        }
    }
}

/// The visibility law: on an ascending sequence the hit is the lowest
/// strictly positive distance, and there is none exactly when no
/// distance is positive.
pub proof fn lemma_hit_lowest_positive(s: Seq<(Seq<char>, Fx)>)
    requires
        sorted_pairs(s),
    ensures
        match spec_hit(s) {
            None => forall|k: int| 0 <= k < s.len() ==> (#[trigger] s[k]).1.raw <= 0,
            Some(h) => h.1.raw > 0 && s.contains(h) && (forall|k: int|
                0 <= k < s.len() && (#[trigger] s[k]).1.raw > 0 ==> h.1.raw <= s[k].1.raw),
        },
{
    lemma_hit_characterization(s);
    match spec_hit(s) {
        None => {},
        Some(h) => {
            let k0 = choose|k: int|
                0 <= k < s.len() && s[k] == h && h.1.raw > 0 && (forall|j: int|
                    0 <= j < k ==> (#[trigger] s[j]).1.raw <= 0);
            assert forall|k: int|
                0 <= k < s.len() && (#[trigger] s[k]).1.raw > 0 implies h.1.raw <= s[k].1.raw by {
                if k < k0 {
                    assert(s[k].1.raw <= 0);
                } else {
                    assert(s[k0].1.raw <= s[k].1.raw);
                }
            }
        },
    }
}

/// Intersections of one ray against one shape: each root wrapped with
/// the shape's identity.
pub open spec fn spec_intersections(s: Shape, r: Ray) -> Option<Seq<(Seq<char>, Fx)>> {
    match spec_shape_intersect(s, r) {
        None => None,
        Some(roots) => Some(roots.map_values(|t: Fx| (shape_id_view(s), t))),
    }
}

impl Intersection {
    pub fn new(shape_id: &str, t: Fx) -> (r: Intersection)
        ensures
            r.shape_id@ == shape_id@,
            r.t == t,
    {
        Intersection { shape_id: shape_id.to_owned(), t }
    }

    /// Wrap each world-space root of the shape into an intersection
    /// carrying the shape's identity; nothing when the shape reports
    /// no roots.
    pub fn intersects(s: &Shape, r: &Ray) -> (res: Option<Vec<Intersection>>)
        requires
            s.wf(),
        ensures
            match res {
                Some(v) => spec_intersections(*s, *r) == Some(ivs(v@)),
                None => spec_intersections(*s, *r) is None,
            },
    {
        let roots = match s.intersect(r) {
            Some(ts) => ts,
            None => {
                return None;
            },
        };
        let id = s.get_shape_id();
        let mut out: Vec<Intersection> = Vec::new();
        let mut k: usize = 0;
        while k < roots.len()
            invariant
                k <= roots@.len(),
                out@.len() == k,
                forall|j: int|
                    0 <= j < k ==> (#[trigger] out@[j]).shape_id@ == shape_id_view(*s)
                        && out@[j].t == roots@[j],
                id@ == shape_id_view(*s),
            decreases roots@.len() - k,
        {
            let t = roots[k];
            out.push(Intersection::new(id.as_str(), t));
            k += 1;
        }
        proof {
            assert(ivs(out@) =~= spec_intersections(*s, *r)->Some_0);
        }
        Some(out)
    }
}

/// Sort ascending by distance, keeping the given order among equal
/// distances.
pub fn sort_intersections(xs: &mut Vec<Intersection>)
    ensures
        ivs(final(xs)@) == spec_sort(ivs(old(xs)@)),
        sorted_pairs(ivs(final(xs)@)),
        ivs(final(xs)@).to_multiset() == ivs(old(xs)@).to_multiset(),
        final(xs)@.len() == old(xs)@.len(),
{
    let ghost orig = xs@;
    let mut sorted_v: Vec<Intersection> = Vec::new();
    while xs.len() > 0
        invariant
            xs@ == orig.skip(orig.len() - xs@.len()),
            xs@.len() <= orig.len(),
            ivs(sorted_v@) == spec_sort(ivs(orig.take(orig.len() - xs@.len()))),
            sorted_pairs(ivs(sorted_v@)),
        decreases xs@.len(),
    {
        let ghost k = orig.len() - xs@.len();
        let x = xs.remove(0);
        proof {
            assert(x == orig[k]);
            assert(xs@ =~= orig.skip(k + 1));
        }
        let mut p: usize = 0;
        while p < sorted_v.len() && sorted_v[p].t.raw <= x.t.raw
            invariant
                p <= sorted_v@.len(),
                forall|j: int| 0 <= j < p ==> (#[trigger] sorted_v@[j]).t.raw <= x.t.raw,
            decreases sorted_v@.len() - p,
        {
            p += 1;
        }
        proof {
            assert forall|j: int|
                p <= j < sorted_v@.len() implies (#[trigger] ivs(sorted_v@)[j]).1.raw
                > x.t.raw by {
                if p < sorted_v@.len() {
                    assert(ivs(sorted_v@)[p as int].1.raw <= ivs(sorted_v@)[j].1.raw);
                }
            }
            lemma_insert_position(ivs(sorted_v@), iview(x), p as int);
            lemma_insert_sorted(ivs(sorted_v@), iview(x));
        }
        let ghost pre = sorted_v@;
        sorted_v.insert(p, x);
        proof {
            assert(ivs(sorted_v@) =~= ivs(pre).insert(p as int, iview(x)));
            assert(ivs(orig.take(k + 1)).drop_last() =~= ivs(orig.take(k)));
            assert(ivs(orig.take(k + 1)).last() == iview(orig[k]));
            assert(ivs(sorted_v@) == spec_sort(ivs(orig.take(k + 1))));
        }
    }
    proof {
        assert(orig.take(orig.len() as int) =~= orig);
    }
    *xs = sorted_v;
    proof {
        lemma_sort_multiset(ivs(orig));
        lemma_sort_len(ivs(orig));
        assert(ivs(final(xs)@).len() == final(xs)@.len());
        assert(ivs(orig).len() == orig.len());
    }
}

/// The hit: the first intersection with `t > 0` in the given order, or
/// nothing. Behind-the-origin intersections never win.
pub fn hit(xs: Vec<Intersection>) -> (res: Option<Intersection>)
    ensures
        match res {
            None => spec_hit(ivs(xs@)) is None,
            Some(i) => spec_hit(ivs(xs@)) == Some(iview(i)),
        },
{
    let mut v = xs;
    let ghost orig = v@;
    let mut i: usize = 0;
    while i < v.len()
        invariant
            orig == xs@,
            v@ == orig,
            i <= orig.len(),
            forall|k: int| 0 <= k < i ==> (#[trigger] orig[k]).t.raw <= 0,
        decreases orig.len() - i,
    {
        if v[i].t.raw > 0 {
            let e = v.remove(i);
            proof {
                assert forall|k: int| 0 <= k < i implies (#[trigger] ivs(orig)[k]).1.raw <= 0 by {
                    assert(ivs(orig)[k] == iview(orig[k]));
                }
                lemma_hit_skip(ivs(orig), i as int);
                assert(ivs(orig).skip(i as int)[0] == ivs(orig)[i as int]);
                assert(ivs(orig)[i as int] == iview(orig[i as int]));
                assert(e == orig[i as int]);
                assert(orig[i as int].t.raw > 0);
                assert(ivs(orig).skip(i as int).len() > 0);
                assert(spec_hit(ivs(orig).skip(i as int)) == Some(ivs(orig)[i as int]));
                assert(spec_hit(ivs(orig)) == Some(iview(e)));
            }
            return Some(e);
        }
        i += 1;
    }
    proof {
        assert forall|k: int|
            0 <= k < orig.len() implies (#[trigger] ivs(orig)[k]).1.raw <= 0 by {
            assert(ivs(orig)[k] == iview(orig[k]));
        }
        lemma_hit_skip(ivs(orig), orig.len() as int);
        assert(ivs(orig).skip(orig.len() as int).len() == 0);
    }
    None
}

/// Dropping a nonpositive prefix does not change the hit.
pub proof fn lemma_hit_skip(s: Seq<(Seq<char>, Fx)>, i: int)
    requires
        0 <= i <= s.len(),
        forall|k: int| 0 <= k < i ==> (#[trigger] s[k]).1.raw <= 0,
    ensures
        spec_hit(s) == spec_hit(s.skip(i)),
    decreases i,
{
    if i > 0 {
        assert(s.skip(1) =~= s.drop_first());
        assert(s[0].1.raw <= 0);
        assert forall|k: int|
            0 <= k < i - 1 implies (#[trigger] s.drop_first()[k]).1.raw <= 0 by {
            assert(s.drop_first()[k] == s[k + 1]);
            assert(s[k + 1].1.raw <= 0);
        }
        lemma_hit_skip(s.drop_first(), i - 1);
        assert(s.drop_first().skip(i - 1) =~= s.skip(i));
    } else {
        assert(s.skip(0) =~= s);
    }
}

} // verus!
