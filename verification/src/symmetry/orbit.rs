//! Orbits: sets of points kept in the order of their canonical keys.
//!
//! An orbit never holds two points with the same key, and hands its points
//! out by ascending key. Since a key determines the bit pattern of a point,
//! two points coincide in an orbit only when they agree bit for bit.

use crate::symmetry::key::{
    key_before,
    lemma_point_key_injective,
    lemma_point_order,
    point3_decode,
    point_key,
    point_lt,
};
use crate::symmetry::point::Point3;
use vstd::prelude::*;

verus! {

/// Whether the points of `s` stand in strictly ascending order of their keys.
pub open spec fn ascending(s: Seq<Point3>) -> bool {
    forall|i: int, j: int| 0 <= i < j < s.len() ==> point_lt(#[trigger] s[i], #[trigger] s[j])
}

/// Whether `orbit` is the orbit made of `points`: it holds exactly the points
/// that occur in `points`, each once, by ascending key.
pub open spec fn is_orbit_of(orbit: Seq<Point3>, points: Seq<Point3>) -> bool {
    &&& ascending(orbit)
    &&& forall|p: Point3| orbit.contains(p) <==> points.contains(p)
}

/// Decides whether `p` comes strictly before `q` in the order of their keys.
pub fn point_before(p: Point3, q: Point3) -> (r: bool)
    ensures
        r == point_lt(p, q),
{
    let a = point3_decode(p);
    let b = point3_decode(q);
    key_before(&a, &b)
}

/// A set of points ordered by canonical key.
pub struct Orbit {
    points: Vec<Point3>,
}

impl View for Orbit {
    type V = Seq<Point3>;

    closed spec fn view(&self) -> Seq<Point3> {
        self.points@
    }
}

impl Orbit {
    /// The invariant of an orbit: its points stand by strictly ascending
    /// key. Every constructor establishes it and every method keeps it.
    pub open spec fn wf(&self) -> bool {
        ascending(self@)
    }

    /// The empty orbit.
    pub fn new() -> (orbit: Orbit)
        ensures
            orbit.wf(),
            orbit@ == Seq::<Point3>::empty(),
    {
        Orbit { points: Vec::new() }
    }

    /// The number of points.
    pub fn len(&self) -> (n: usize)
        ensures
            n == self@.len(),
    {
        self.points.len()
    }

    /// The index of the first point that does not come before `p`, which is
    /// where `p` stands or would have to stand.
    fn position(&self, p: Point3) -> (at: usize)
        requires
            self.wf(),
        ensures
            at <= self@.len(),
            forall|i: int| 0 <= i < at ==> point_lt(#[trigger] self@[i], p),
            forall|i: int| at <= i < self@.len() ==> !point_lt(#[trigger] self@[i], p),
    {
        let mut lo: usize = 0;
        let mut hi: usize = self.points.len();
        while lo < hi
            invariant
                lo <= hi <= self.points@.len(),
                ascending(self.points@),
                forall|i: int| 0 <= i < lo ==> point_lt(#[trigger] self.points@[i], p),
                forall|i: int| hi <= i < self.points@.len() ==> !point_lt(#[trigger] self.points@[i], p),
            decreases hi - lo,
        {
            let mid: usize = lo + (hi - lo) / 2;
            if point_before(self.points[mid], p) {
                assert forall|i: int| 0 <= i < mid + 1 implies point_lt(
                    #[trigger] self.points@[i],
                    p,
                ) by {
                    lemma_point_order(self.points@[i], self.points@[mid as int], p);
                }
                lo = mid + 1;
            } else {
                assert forall|i: int| mid <= i < self.points@.len() implies !point_lt(
                    #[trigger] self.points@[i],
                    p,
                ) by {
                    lemma_point_order(self.points@[mid as int], self.points@[i], p);
                }
                hi = mid;
            }
        }
        lo
    }

    /// Whether the orbit holds `p`.
    pub fn contains(&self, p: Point3) -> (found: bool)
        requires
            self.wf(),
        ensures
            found == self@.contains(p),
    {
        let at = self.position(p);
        if at < self.points.len() && self.points[at] == p {
            true
        } else {
            proof {
                lemma_absent(self.points@, at as int, p);
            }
            false
        }
    }

    /// Puts `p` into the orbit, unless a point with the same key, that is the
    /// same point, is there already. Returns whether `p` was new.
    pub fn insert(&mut self, p: Point3) -> (added: bool)
        requires
            old(self).wf(),
        ensures
            final(self).wf(),
            added == !old(self)@.contains(p),
            is_orbit_of(final(self)@, old(self)@.push(p)),
            !added ==> final(self)@ == old(self)@,
            added ==> final(self)@.len() == old(self)@.len() + 1,
    {
        let at = self.position(p);
        if at < self.points.len() && self.points[at] == p {
            assert forall|q: Point3| self.points@.contains(q) <==> self.points@.push(p).contains(
                q,
            ) by {
                lemma_push_contains(self.points@, p, q);
            }
            false
        } else {
            let ghost before = self.points@;
            proof {
                lemma_absent(before, at as int, p);
                lemma_insert_ascending(before, at as int, p);
            }
            self.points.insert(at, p);
            assert forall|q: Point3| self.points@.contains(q) <==> before.push(p).contains(q) by {
                lemma_push_contains(before, p, q);
                lemma_insert_contains(before, at as int, p, q);
            }
            true
        }
    }

    /// Puts every point of `points` into the orbit.
    pub fn extend(&mut self, points: &Vec<Point3>)
        requires
            old(self).wf(),
        ensures
            final(self).wf(),
            is_orbit_of(final(self)@, old(self)@ + points@),
    {
        let mut i: usize = 0;
        assert(old(self)@ + points@.take(0) =~= old(self)@);
        while i < points.len()
            invariant
                i <= points@.len(),
                self.wf(),
                is_orbit_of(self@, old(self)@ + points@.take(i as int)),
            decreases points@.len() - i,
        {
            let ghost before = self@;
            let ghost seen = old(self)@ + points@.take(i as int);
            self.insert(points[i]);
            proof {
                let next = old(self)@ + points@.take(i + 1);
                assert(next =~= seen.push(points@[i as int]));
                assert forall|q: Point3| self@.contains(q) <==> next.contains(q) by {
                    lemma_push_contains(before, points@[i as int], q);
                    lemma_push_contains(seen, points@[i as int], q);
                }
            }
            i += 1;
        }
        assert(points@.take(points@.len() as int) =~= points@);
    }

    /// The orbit made of `points`.
    pub fn from_points(points: &Vec<Point3>) -> (orbit: Orbit)
        ensures
            orbit.wf(),
            is_orbit_of(orbit@, points@),
    {
        let mut orbit = Orbit::new();
        orbit.extend(points);
        assert(Seq::<Point3>::empty() + points@ =~= points@);
        orbit
    }

    /// The points of the orbit, by ascending key.
    pub fn into_values(self) -> (points: Vec<Point3>)
        requires
            self.wf(),
        ensures
            points@ == self@,
            ascending(points@),
    {
        self.points
    }
}

/// A point occurs in `s.push(p)` exactly when it is `p` or occurs in `s`.
proof fn lemma_push_contains(s: Seq<Point3>, p: Point3, q: Point3)
    ensures
        s.push(p).contains(q) <==> (q == p || s.contains(q)),
{
    if s.push(p).contains(q) {
        let i = choose|i: int| 0 <= i < s.push(p).len() && s.push(p)[i] == q;
        if i < s.len() {
            assert(s[i] == q);
        }
    }
    if s.contains(q) {
        let i = choose|i: int| 0 <= i < s.len() && s[i] == q;
        assert(s.push(p)[i] == q);
    }
    if q == p {
        assert(s.push(p)[s.len() as int] == q);
    }
}

/// A point occurs in `s.insert(at, p)` exactly when it is `p` or occurs in
/// `s`.
proof fn lemma_insert_contains(s: Seq<Point3>, at: int, p: Point3, q: Point3)
    requires
        0 <= at <= s.len(),
    ensures
        s.insert(at, p).contains(q) <==> (q == p || s.contains(q)),
{
    let t = s.insert(at, p);
    if t.contains(q) {
        let i = choose|i: int| 0 <= i < t.len() && t[i] == q;
        if i < at {
            assert(s[i] == q);
        } else if i > at {
            assert(s[i - 1] == q);
        }
    }
    if s.contains(q) {
        let i = choose|i: int| 0 <= i < s.len() && s[i] == q;
        if i < at {
            assert(t[i] == q);
        } else {
            assert(t[i + 1] == q);
        }
    }
    if q == p {
        assert(t[at] == q);
    }
}

/// In an ascending sequence, a point that does not stand at the index where
/// the points that do not come before it begin occurs nowhere.
proof fn lemma_absent(s: Seq<Point3>, at: int, p: Point3)
    requires
        ascending(s),
        0 <= at <= s.len(),
        forall|i: int| 0 <= i < at ==> point_lt(#[trigger] s[i], p),
        forall|i: int| at <= i < s.len() ==> !point_lt(#[trigger] s[i], p),
        !(at < s.len() && s[at] == p),
    ensures
        !s.contains(p),
        forall|i: int| at <= i < s.len() ==> point_lt(p, #[trigger] s[i]),
{
    assert forall|i: int| at <= i < s.len() implies point_lt(p, #[trigger] s[i]) by {
        lemma_point_order(s[at], s[i], p);
        lemma_point_order(s[at], p, s[i]);
        lemma_point_order(p, s[at], s[i]);
    }
    if s.contains(p) {
        let i = choose|i: int| 0 <= i < s.len() && s[i] == p;
        lemma_point_order(p, p, p);
    }
}

/// Putting a point where it belongs keeps an ascending sequence ascending.
proof fn lemma_insert_ascending(s: Seq<Point3>, at: int, p: Point3)
    requires
        ascending(s),
        0 <= at <= s.len(),
        forall|i: int| 0 <= i < at ==> point_lt(#[trigger] s[i], p),
        forall|i: int| at <= i < s.len() ==> point_lt(p, #[trigger] s[i]),
    ensures
        ascending(s.insert(at, p)),
{
    let t = s.insert(at, p);
    assert forall|i: int, j: int| 0 <= i < j < t.len() implies point_lt(
        #[trigger] t[i],
        #[trigger] t[j],
    ) by {
        if j < at {
            assert(t[i] == s[i] && t[j] == s[j]);
        } else if j == at {
            assert(t[i] == s[i]);
        } else if i < at {
            assert(t[i] == s[i] && t[j] == s[j - 1]);
        } else if i == at {
            assert(t[j] == s[j - 1]);
        } else {
            assert(t[i] == s[i - 1] && t[j] == s[j - 1]);
        }
    }
}

/// No two points of an orbit have the same key: no duplicate bit pattern
/// survives.
pub proof fn lemma_keys_distinct(orbit: Seq<Point3>)
    requires
        ascending(orbit),
    ensures
        forall|i: int, j: int|
            0 <= i < orbit.len() && 0 <= j < orbit.len() && i != j ==> point_key(
                #[trigger] orbit[i],
            ) != point_key(#[trigger] orbit[j]),
        orbit.no_duplicates(),
{
    assert forall|i: int, j: int| 0 <= i < orbit.len() && 0 <= j < orbit.len() && i != j implies (
    point_key(#[trigger] orbit[i]) != point_key(#[trigger] orbit[j]) && orbit[i] != orbit[j]) by {
        lemma_point_order(orbit[i], orbit[j], orbit[i]);
        lemma_point_key_injective(orbit[i], orbit[j]);
        if i < j {
            assert(point_lt(orbit[i], orbit[j]));
        } else {
            assert(point_lt(orbit[j], orbit[i]));
        }
    }
}

/// The orbit made of given points is determined by them: two sequences that
/// both are the orbit of `points` are equal, position by position.
pub proof fn lemma_orbit_unique(a: Seq<Point3>, b: Seq<Point3>, points: Seq<Point3>)
    requires
        is_orbit_of(a, points),
        is_orbit_of(b, points),
    ensures
        a == b,
{
    lemma_same_points_same_order(a, b);
}

proof fn lemma_same_points_same_order(a: Seq<Point3>, b: Seq<Point3>)
    requires
        ascending(a),
        ascending(b),
        forall|p: Point3| a.contains(p) <==> b.contains(p),
    ensures
        a == b,
    decreases a.len(),
{
    if a.len() == 0 {
        if b.len() > 0 {
            assert(b.contains(b[0]));
            assert(a.contains(b[0]));
        }
        assert(a =~= b);
    } else {
        assert(a.contains(a[0]));
        assert(b.contains(a[0]));
        let k = choose|k: int| 0 <= k < b.len() && b[k] == a[0];
        assert(b.contains(b[0]));
        assert(a.contains(b[0]));
        let m = choose|m: int| 0 <= m < a.len() && a[m] == b[0];
        lemma_point_order(b[0], a[0], b[0]);
        if k > 0 {
            assert(point_lt(b[0], b[k]));
            if m > 0 {
                assert(point_lt(a[0], a[m]));
            }
        }
        assert(a[0] == b[0]);
        let ta = a.subrange(1, a.len() as int);
        let tb = b.subrange(1, b.len() as int);
        assert forall|p: Point3| ta.contains(p) <==> tb.contains(p) by {
            lemma_point_order(a[0], p, a[0]);
            if ta.contains(p) {
                let i = choose|i: int| 0 <= i < ta.len() && ta[i] == p;
                assert(a[i + 1] == p);
                assert(point_lt(a[0], a[i + 1]));
                assert(a.contains(p));
                let j = choose|j: int| 0 <= j < b.len() && b[j] == p;
                assert(j > 0);
                assert(tb[j - 1] == p);
            }
            if tb.contains(p) {
                let i = choose|i: int| 0 <= i < tb.len() && tb[i] == p;
                assert(b[i + 1] == p);
                assert(point_lt(b[0], b[i + 1]));
                assert(b.contains(p));
                let j = choose|j: int| 0 <= j < a.len() && a[j] == p;
                assert(j > 0);
                assert(ta[j - 1] == p);
            }
        }
        assert forall|i: int, j: int| 0 <= i < j < ta.len() implies point_lt(
            #[trigger] ta[i],
            #[trigger] ta[j],
        ) by {
            assert(point_lt(a[i + 1], a[j + 1]));
        }
        assert forall|i: int, j: int| 0 <= i < j < tb.len() implies point_lt(
            #[trigger] tb[i],
            #[trigger] tb[j],
        ) by {
            assert(point_lt(b[i + 1], b[j + 1]));
        }
        lemma_same_points_same_order(ta, tb);
        assert(ta.len() == a.len() - 1);
        assert(tb.len() == b.len() - 1);
        assert(a.len() == b.len());
        assert forall|i: int| 0 <= i < a.len() implies a[i] == b[i] by {
            if i > 0 {
                assert(ta[i - 1] == a[i]);
                assert(tb[i - 1] == b[i]);
            }
        }
        assert(a =~= b);
    }
}

/// The orbit made of a single point is that point alone.
pub proof fn lemma_orbit_of_single(orbit: Seq<Point3>, p: Point3)
    requires
        is_orbit_of(orbit, seq![p]),
    ensures
        orbit == seq![p],
{
    let single = seq![p];
    assert(single[0] == p);
    assert(is_orbit_of(single, single));
    lemma_orbit_unique(orbit, single, single);
}

/// Making an orbit of the points of an orbit changes nothing.
pub proof fn lemma_orbit_idempotent(again: Seq<Point3>, orbit: Seq<Point3>)
    requires
        ascending(orbit),
        is_orbit_of(again, orbit),
    ensures
        again == orbit,
{
    lemma_orbit_unique(again, orbit, orbit);
}

/// The orbit depends only on which points are given, not on their order nor
/// on how often each is given.
pub proof fn lemma_orbit_of_same_points(
    a: Seq<Point3>,
    b: Seq<Point3>,
    first: Seq<Point3>,
    second: Seq<Point3>,
)
    requires
        is_orbit_of(a, first),
        is_orbit_of(b, second),
        forall|p: Point3| first.contains(p) <==> second.contains(p),
    ensures
        a == b,
{
    lemma_orbit_unique(a, b, first);
}

} // verus!
