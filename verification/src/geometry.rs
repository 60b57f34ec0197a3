//! Fixed and sliding obstacle geometry.
//!
//! The frame ([`HanayamaHalf`]) is an immutable set of points in each
//! coordinate space. The valve half ([`ValveHalf`], the yoke) occupies a
//! fixed local shape translated by its mutable vertical offset.

use vstd::prelude::*;

use crate::point::{Inside, ModPoint, Outside};

verus! {

/// The points of a sequence, as bare coordinate pairs.
pub open spec fn pts_view<U>(s: Seq<ModPoint<U>>) -> Seq<(int, int)> {
    s.map_values(|p: ModPoint<U>| p@)
}

/// Every point of the sequence is well-formed.
pub open spec fn pts_wf<U>(s: Seq<ModPoint<U>>) -> bool {
    forall|i: int| 0 <= i < s.len() ==> (#[trigger] s[i]).wf()
}

/// The frame's obstacle points in the inside space.
pub open spec fn frame_inside_pts() -> Seq<(int, int)> {
    seq![
        (0int, 0int),
        (1int, 0int),
        (2int, 0int),
        (0int, 1int),
        (0int, 2int),
        (2int, 3int),
        (0int, 4int),
        (1int, 4int),
        (2int, 4int),
    ]
}

/// The frame's obstacle points in the outside space.
pub open spec fn frame_outside_pts() -> Seq<(int, int)> {
    seq![
        (3int, 0int),
        (4int, 0int),
        (5int, 0int),
        (5int, 2int),
        (3int, 4int),
        (4int, 4int),
        (5int, 4int),
    ]
}

/// The valve half's occupied points in the inside space when its offset
/// (plus any probe shift) is `y`.
pub open spec fn valve_inside_pts(y: int) -> Seq<(int, int)> {
    seq![
        (3int, y),
        (4int, y),
        (5int, y),
        (5int, y + 2),
        (3int, y + 4),
        (4int, y + 4),
        (5int, y + 4),
    ]
}

/// The valve half's occupied points in the outside space when its offset
/// (plus any probe shift) is `y`.
pub open spec fn valve_outside_pts(y: int) -> Seq<(int, int)> {
    seq![
        (0int, y),
        (1int, y),
        (2int, y),
        (0int, y + 2),
        (1int, y + 2),
        (0int, y + 4),
        (1int, y + 4),
        (2int, y + 4),
    ]
}

/// The immovable lobed body of the puzzle. It owns no mutable state and
/// exposes only its constant obstacle points.
pub struct HanayamaHalf;

impl Default for HanayamaHalf {
    fn default() -> (r: Self) {
        HanayamaHalf
    }
}

impl HanayamaHalf {
    /// The frame's obstacle points in the inside space.
    pub fn inside_points(&self) -> (r: Vec<ModPoint<Inside>>)
        ensures
            pts_view(r@) == frame_inside_pts(),
            pts_wf(r@),
    {
        let mut r: Vec<ModPoint<Inside>> = Vec::new();
        r.push(ModPoint::new(0, 0));
        r.push(ModPoint::new(1, 0));
        r.push(ModPoint::new(2, 0));
        r.push(ModPoint::new(0, 1));
        r.push(ModPoint::new(0, 2));
        r.push(ModPoint::new(2, 3));
        r.push(ModPoint::new(0, 4));
        r.push(ModPoint::new(1, 4));
        r.push(ModPoint::new(2, 4));
        proof {
            assert(pts_view(r@) =~= frame_inside_pts());
        }
        r
    }

    /// The frame's obstacle points in the outside space.
    pub fn outside_points(&self) -> (r: Vec<ModPoint<Outside>>)
        ensures
            pts_view(r@) == frame_outside_pts(),
            pts_wf(r@),
    {
        let mut r: Vec<ModPoint<Outside>> = Vec::new();
        r.push(ModPoint::new(3, 0));
        r.push(ModPoint::new(4, 0));
        r.push(ModPoint::new(5, 0));
        r.push(ModPoint::new(5, 2));
        r.push(ModPoint::new(3, 4));
        r.push(ModPoint::new(4, 4));
        r.push(ModPoint::new(5, 4));
        proof {
            assert(pts_view(r@) =~= frame_outside_pts());
        }
        r
    }
}

/// The sliding dual-lobed piece (the yoke): a single mutable vertical
/// offset; its shape in each space is constant.
pub struct ValveHalf {
    y: i32,
}

impl View for ValveHalf {
    type V = int;

    closed spec fn view(&self) -> int {
        self.y as int
    }
}

impl Default for ValveHalf {
    /// The initial configuration has the valve half at offset zero.
    fn default() -> (r: Self)
        ensures
            r@ == 0,
    {
        ValveHalf { y: 0 }
    }
}

impl ValveHalf {
    /// The current vertical offset.
    pub fn y(&self) -> (r: i32)
        ensures
            r as int == self@,
    {
        self.y
    }

    /// Occupied points in the inside space, optionally displaced by a probe
    /// `shift` to test a hypothetical future offset without mutating.
    pub fn inside_points(&self, shift: Option<i32>) -> (r: Vec<ModPoint<Inside>>)
        requires
            i32::MIN <= self@ + shift_of(shift),
            self@ + shift_of(shift) + 4 <= i32::MAX,
        ensures
            pts_view(r@) == valve_inside_pts(self@ + shift_of(shift)),
            pts_wf(r@),
    {
        let s = match shift {
            Some(s) => s,
            None => 0,
        };
        let y = self.y + s;
        let mut r: Vec<ModPoint<Inside>> = Vec::new();
        r.push(ModPoint::new(3, y));
        r.push(ModPoint::new(4, y));
        r.push(ModPoint::new(5, y));
        r.push(ModPoint::new(5, y + 2));
        r.push(ModPoint::new(3, y + 4));
        r.push(ModPoint::new(4, y + 4));
        r.push(ModPoint::new(5, y + 4));
        proof {
            assert(pts_view(r@) =~= valve_inside_pts(self@ + shift_of(shift)));
        }
        r
    }

    /// Occupied points in the outside space, optionally displaced by a
    /// probe `shift`.
    pub fn outside_points(&self, shift: Option<i32>) -> (r: Vec<ModPoint<Outside>>)
        requires
            i32::MIN <= self@ + shift_of(shift),
            self@ + shift_of(shift) + 4 <= i32::MAX,
        ensures
            pts_view(r@) == valve_outside_pts(self@ + shift_of(shift)),
            pts_wf(r@),
    {
        let s = match shift {
            Some(s) => s,
            None => 0,
        };
        let y = self.y + s;
        let mut r: Vec<ModPoint<Outside>> = Vec::new();
        r.push(ModPoint::new(0, y));
        r.push(ModPoint::new(1, y));
        r.push(ModPoint::new(2, y));
        r.push(ModPoint::new(0, y + 2));
        r.push(ModPoint::new(1, y + 2));
        r.push(ModPoint::new(0, y + 4));
        r.push(ModPoint::new(1, y + 4));
        r.push(ModPoint::new(2, y + 4));
        proof {
            assert(pts_view(r@) =~= valve_outside_pts(self@ + shift_of(shift)));
        }
        r
    }

    /// Slides the valve half vertically by `dy`.
    pub fn shift(&mut self, dy: i32)
        requires
            i32::MIN <= old(self)@ + dy <= i32::MAX,
        ensures
            final(self)@ == old(self)@ + dy,
    {
        self.y = self.y + dy;
    }
}

/// The displacement a probe shift stands for: its value, or zero when absent.
pub open spec fn shift_of(shift: Option<i32>) -> int {
    match shift {
        Some(s) => s as int,
        None => 0,
    }
}

/// Whether `p` occurs among the points of `pts`.
pub fn contains_point<U>(pts: &Vec<ModPoint<U>>, p: ModPoint<U>) -> (r: bool)
    ensures
        r == pts_view(pts@).contains(p@),
{
    let mut i: usize = 0;
    while i < pts.len()
        invariant
            0 <= i <= pts@.len(),
            forall|j: int| 0 <= j < i ==> pts_view(pts@)[j] != p@,
        decreases pts@.len() - i,
    {
        let q = pts[i];
        if q.x() == p.x() && q.y() == p.y() {
            assert(pts_view(pts@)[i as int] == p@);
            return true;
        }
        i = i + 1;
    }
    false
}

} // verus!
