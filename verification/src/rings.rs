//! The two rotating rings.
//!
//! Each ring is a small fixed shape anchored at a mutable position. A ring
//! moves on a six-position cyclic horizontal track and slides vertically
//! without bound. The shared legality check, `can_move`, asks only whether
//! the ring's displaced shape is disjoint from two given obstacle sets.

use vstd::prelude::*;

use crate::geometry::{contains_point, pts_view, pts_wf};
use crate::point::{
    lemma_wrap6_add_assoc, wrap6, Inside, ModPoint, Outside, Vec2, TRACK_WIDTH,
};

verus! {

/// The local shape of the inner ring, in its own frame.
pub open spec fn inner_shape() -> Seq<(int, int)> {
    seq![(0int, 1int), (1int, 2int), (2int, 2int), (3int, 2int)]
}

/// The local shape of the outer ring, in its own frame.
pub open spec fn outer_shape() -> Seq<(int, int)> {
    seq![(0int, 0int), (3int, 2int), (5int, 2int)]
}

/// Where one shape point lands when the ring sits at `pos` and is probed
/// with the extra displacement `d`: `x` wraps on the track, `y` accumulates.
pub open spec fn ring_probe(pos: (int, int), local: (int, int), d: (int, int)) -> (int, int) {
    (wrap6(pos.0 + local.0 + d.0), pos.1 + local.1 + d.1)
}

/// All world-space points of a ring shape anchored at `pos`, displaced by `d`.
pub open spec fn ring_points_spec(
    pos: (int, int),
    shape: Seq<(int, int)>,
    d: (int, int),
) -> Seq<(int, int)> {
    shape.map_values(|local: (int, int)| ring_probe(pos, local, d))
}

/// None of the points of `probes` overlaps either obstacle set.
pub open spec fn points_clear(
    probes: Seq<(int, int)>,
    obstacles_a: Seq<(int, int)>,
    obstacles_b: Seq<(int, int)>,
) -> bool {
    forall|i: int|
        0 <= i < probes.len() ==> !obstacles_a.contains(#[trigger] probes[i])
            && !obstacles_b.contains(probes[i])
}

/// The single legality check of the puzzle: after displacing the ring by
/// `d`, none of its points overlaps either obstacle set. It depends on
/// nothing but its arguments.
pub open spec fn ring_clear(
    pos: (int, int),
    shape: Seq<(int, int)>,
    d: (int, int),
    obstacles_a: Seq<(int, int)>,
    obstacles_b: Seq<(int, int)>,
) -> bool {
    points_clear(ring_points_spec(pos, shape, d), obstacles_a, obstacles_b)
}

/// Whether none of `probes` occurs in either obstacle list.
fn all_points_clear<U>(
    probes: &Vec<ModPoint<U>>,
    obstacles_a: &Vec<ModPoint<U>>,
    obstacles_b: &Vec<ModPoint<U>>,
) -> (r: bool)
    ensures
        r == points_clear(pts_view(probes@), pts_view(obstacles_a@), pts_view(obstacles_b@)),
{
    let mut i: usize = 0;
    while i < probes.len()
        invariant
            0 <= i <= probes@.len(),
            forall|j: int|
                0 <= j < i ==> !pts_view(obstacles_a@).contains(#[trigger] pts_view(probes@)[j])
                    && !pts_view(obstacles_b@).contains(pts_view(probes@)[j]),
        decreases probes@.len() - i,
    {
        let p = probes[i];
        if contains_point(obstacles_a, p) {
            assert(pts_view(obstacles_a@).contains(pts_view(probes@)[i as int]));
            return false;
        }
        if contains_point(obstacles_b, p) {
            assert(pts_view(obstacles_b@).contains(pts_view(probes@)[i as int]));
            return false;
        }
        i = i + 1;
    }
    true
}

/// The inner ring: four shape points in the inside space, anchored at a
/// mutable position.
pub struct InnerRing {
    position: ModPoint<Inside>,
}

impl View for InnerRing {
    type V = (int, int);

    closed spec fn view(&self) -> (int, int) {
        self.position@
    }
}

impl InnerRing {
    /// The position stays on the track and within the machine type.
    pub open spec fn wf(self) -> bool {
        &&& 0 <= self@.0 < TRACK_WIDTH
        &&& i32::MIN <= self@.1 <= i32::MAX
    }
}

impl Default for InnerRing {
    /// The initial configuration anchors the inner ring at `(4, 1)`.
    fn default() -> (r: Self)
        ensures
            r@ == (4int, 1int),
            r.wf(),
    {
        InnerRing { position: ModPoint::new(4, 1) }
    }
}

impl InnerRing {
    /// The ring's current anchor position.
    pub fn position(&self) -> (r: ModPoint<Inside>)
        ensures
            r@ == self@,
    {
        self.position
    }

    /// The constant local shape, in the ring's own frame.
    pub fn points_local(&self) -> (r: Vec<ModPoint<InnerRing>>)
        ensures
            pts_view(r@) == inner_shape(),
            pts_wf(r@),
            forall|j: int| 0 <= j < r@.len() ==> 0 <= (#[trigger] r@[j])@.1 <= 4,
    {
        let mut r: Vec<ModPoint<InnerRing>> = Vec::new();
        r.push(ModPoint::new(0, 1));
        r.push(ModPoint::new(1, 2));
        r.push(ModPoint::new(2, 2));
        r.push(ModPoint::new(3, 2));
        proof {
            assert(pts_view(r@) =~= inner_shape());
        }
        r
    }

    /// World-space occupied points, optionally displaced by a probe `shift`
    /// to test a hypothetical future position without mutating.
    pub fn points(&self, shift: Option<Vec2<Inside>>) -> (r: Vec<ModPoint<Inside>>)
        requires
            self.wf(),
            i32::MIN <= self@.1 + shift_view(shift).1,
            self@.1 + shift_view(shift).1 + 4 <= i32::MAX,
        ensures
            pts_view(r@) == ring_points_spec(self@, inner_shape(), shift_view(shift)),
            pts_wf(r@),
    {
        let sv = match shift {
            Some(v) => v,
            None => Vec2::new(0, 0),
        };
        let base = self.position.translate(sv);
        let locals = self.points_local();
        let mut r: Vec<ModPoint<Inside>> = Vec::new();
        let mut i: usize = 0;
        while i < locals.len()
            invariant
                0 <= i <= locals@.len(),
                pts_view(locals@) == inner_shape(),
                pts_wf(locals@),
                forall|j: int| 0 <= j < locals@.len() ==> 0 <= (#[trigger] locals@[j])@.1 <= 4,
                base@ == (
                    wrap6(self@.0 + shift_view(shift).0),
                    self@.1 + shift_view(shift).1,
                ),
                base.wf(),
                self@.1 + shift_view(shift).1 + 4 <= i32::MAX,
                r@.len() == i,
                forall|j: int|
                    0 <= j < i ==> (#[trigger] r@[j])@ == ring_probe(
                        self@,
                        inner_shape()[j],
                        shift_view(shift),
                    ) && r@[j].wf(),
            decreases locals@.len() - i,
        {
            let q: ModPoint<Inside> = locals[i].cast_unit();
            assert(q@ == inner_shape()[i as int]);
            assert(0 <= q@.1 <= 4);
            let p = base.translate(Vec2::new(q.x(), q.y()));
            proof {
                lemma_wrap6_add_assoc(
                    self@.0 + shift_view(shift).0,
                    inner_shape()[i as int].0,
                );
            }
            r.push(p);
            i = i + 1;
        }
        proof {
            assert(pts_view(r@) =~= ring_points_spec(self@, inner_shape(), shift_view(shift)));
        }
        r
    }

    /// True iff displacing the ring by `direction` leaves it disjoint from
    /// both obstacle sets. The check reads nothing but its arguments.
    pub fn can_move(
        &self,
        hanayama_points: &Vec<ModPoint<Inside>>,
        valve_points: &Vec<ModPoint<Inside>>,
        direction: Vec2<Inside>,
    ) -> (r: bool)
        requires
            self.wf(),
            i32::MIN <= self@.1 + direction@.1,
            self@.1 + direction@.1 + 4 <= i32::MAX,
        ensures
            r == ring_clear(
                self@,
                inner_shape(),
                direction@,
                pts_view(hanayama_points@),
                pts_view(valve_points@),
            ),
    {
        let probes = self.points(Some(direction));
        all_points_clear(&probes, hanayama_points, valve_points)
    }

    /// Shifts the anchor by `vector`: `x` wraps on the track, `y` accumulates.
    pub fn shift(&mut self, vector: Vec2<Inside>)
        requires
            old(self).wf(),
            i32::MIN <= old(self)@.1 + vector@.1 <= i32::MAX,
        ensures
            final(self)@ == (wrap6(old(self)@.0 + vector@.0), old(self)@.1 + vector@.1),
            final(self).wf(),
    {
        self.position = self.position.translate(vector);
    }
}

/// The outer ring: three shape points in the outside space, anchored at a
/// mutable position.
pub struct OuterRing {
    position: ModPoint<Outside>,
}

impl View for OuterRing {
    type V = (int, int);

    closed spec fn view(&self) -> (int, int) {
        self.position@
    }
}

impl OuterRing {
    /// The position stays on the track and within the machine type.
    pub open spec fn wf(self) -> bool {
        &&& 0 <= self@.0 < TRACK_WIDTH
        &&& i32::MIN <= self@.1 <= i32::MAX
    }
}

impl Default for OuterRing {
    /// The initial configuration anchors the outer ring at `(0, 1)`.
    fn default() -> (r: Self)
        ensures
            r@ == (0int, 1int),
            r.wf(),
    {
        OuterRing { position: ModPoint::new(0, 1) }
    }
}

impl OuterRing {
    /// The ring's current anchor position.
    pub fn position(&self) -> (r: ModPoint<Outside>)
        ensures
            r@ == self@,
    {
        self.position
    }

    /// The constant local shape, in the ring's own frame.
    pub fn points_local(&self) -> (r: Vec<ModPoint<OuterRing>>)
        ensures
            pts_view(r@) == outer_shape(),
            pts_wf(r@),
            forall|j: int| 0 <= j < r@.len() ==> 0 <= (#[trigger] r@[j])@.1 <= 4,
    {
        let mut r: Vec<ModPoint<OuterRing>> = Vec::new();
        r.push(ModPoint::new(0, 0));
        r.push(ModPoint::new(3, 2));
        r.push(ModPoint::new(5, 2));
        proof {
            assert(pts_view(r@) =~= outer_shape());
        }
        r
    }

    /// World-space occupied points, optionally displaced by a probe `shift`.
    pub fn points(&self, shift: Option<Vec2<Outside>>) -> (r: Vec<ModPoint<Outside>>)
        requires
            self.wf(),
            i32::MIN <= self@.1 + shift_view(shift).1,
            self@.1 + shift_view(shift).1 + 4 <= i32::MAX,
        ensures
            pts_view(r@) == ring_points_spec(self@, outer_shape(), shift_view(shift)),
            pts_wf(r@),
    {
        let sv = match shift {
            Some(v) => v,
            None => Vec2::new(0, 0),
        };
        let base = self.position.translate(sv);
        let locals = self.points_local();
        let mut r: Vec<ModPoint<Outside>> = Vec::new();
        let mut i: usize = 0;
        while i < locals.len()
            invariant
                0 <= i <= locals@.len(),
                pts_view(locals@) == outer_shape(),
                pts_wf(locals@),
                forall|j: int| 0 <= j < locals@.len() ==> 0 <= (#[trigger] locals@[j])@.1 <= 4,
                base@ == (
                    wrap6(self@.0 + shift_view(shift).0),
                    self@.1 + shift_view(shift).1,
                ),
                base.wf(),
                self@.1 + shift_view(shift).1 + 4 <= i32::MAX,
                r@.len() == i,
                forall|j: int|
                    0 <= j < i ==> (#[trigger] r@[j])@ == ring_probe(
                        self@,
                        outer_shape()[j],
                        shift_view(shift),
                    ) && r@[j].wf(),
            decreases locals@.len() - i,
        {
            let q: ModPoint<Outside> = locals[i].cast_unit();
            assert(q@ == outer_shape()[i as int]);
            assert(0 <= q@.1 <= 4);
            let p = base.translate(Vec2::new(q.x(), q.y()));
            proof {
                lemma_wrap6_add_assoc(
                    self@.0 + shift_view(shift).0,
                    outer_shape()[i as int].0,
                );
            }
            r.push(p);
            i = i + 1;
        }
        proof {
            assert(pts_view(r@) =~= ring_points_spec(self@, outer_shape(), shift_view(shift)));
        }
        r
    }

    /// True iff displacing the ring by `direction` leaves it disjoint from
    /// both obstacle sets.
    pub fn can_move(
        &self,
        hanayama_points: &Vec<ModPoint<Outside>>,
        valve_points: &Vec<ModPoint<Outside>>,
        direction: Vec2<Outside>,
    ) -> (r: bool)
        requires
            self.wf(),
            i32::MIN <= self@.1 + direction@.1,
            self@.1 + direction@.1 + 4 <= i32::MAX,
        ensures
            r == ring_clear(
                self@,
                outer_shape(),
                direction@,
                pts_view(hanayama_points@),
                pts_view(valve_points@),
            ),
    {
        let probes = self.points(Some(direction));
        all_points_clear(&probes, hanayama_points, valve_points)
    }

    /// Shifts the anchor by `vector`: `x` wraps on the track, `y` accumulates.
    pub fn shift(&mut self, vector: Vec2<Outside>)
        requires
            old(self).wf(),
            i32::MIN <= old(self)@.1 + vector@.1 <= i32::MAX,
        ensures
            final(self)@ == (wrap6(old(self)@.0 + vector@.0), old(self)@.1 + vector@.1),
            final(self).wf(),
    {
        self.position = self.position.translate(vector);
    }
}

/// The displacement an optional probe shift stands for: zero when absent.
pub open spec fn shift_view<U>(shift: Option<Vec2<U>>) -> (int, int) {
    match shift {
        Some(v) => v@,
        None => (0int, 0int),
    }
}

} // verus!
