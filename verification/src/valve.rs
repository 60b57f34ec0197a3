//! The puzzle aggregate: one frame, one valve half and two rings, with the
//! move-legality check and the unchecked mutator.
//!
//! Legality and mutation are deliberately split: the legality check is a
//! pure function of the state, and the mutator applies a move without
//! re-validating. The history relies on this split to undo moves by their
//! exact inverses without re-checking.

use vstd::prelude::*;

use crate::geometry::{
    frame_inside_pts, frame_outside_pts, valve_inside_pts, valve_outside_pts, HanayamaHalf,
    ValveHalf,
};
use crate::moves::{Move, VerticalPieces};
use crate::point::{wrap6, Inside, Vec2, TRACK_WIDTH};
use crate::rings::{inner_shape, outer_shape, ring_clear, InnerRing, OuterRing};

verus! {

/// The mathematical state of the puzzle: both ring anchors and the valve
/// half's offset. The frame is constant and not part of the state.
pub ghost struct ValveModel {
    pub inner: (int, int),
    pub outer: (int, int),
    pub valve_y: int,
}

impl ValveModel {
    /// Both ring anchors lie on the cyclic track. The vertical coordinates
    /// are unbounded in the model.
    pub open spec fn wf(self) -> bool {
        &&& 0 <= self.inner.0 < TRACK_WIDTH
        &&& 0 <= self.outer.0 < TRACK_WIDTH
    }

    /// Every vertical coordinate fits the machine type.
    pub open spec fn ys_in_range(self) -> bool {
        &&& i32::MIN <= self.inner.1 <= i32::MAX
        &&& i32::MIN <= self.outer.1 <= i32::MAX
        &&& i32::MIN <= self.valve_y <= i32::MAX
    }

    /// Every vertical coordinate has slack for one probe: a unit step plus
    /// a shape offset of at most four stays within the machine type.
    pub open spec fn step_safe(self) -> bool {
        &&& i32::MIN + 5 <= self.inner.1 <= i32::MAX - 5
        &&& i32::MIN + 5 <= self.outer.1 <= i32::MAX - 5
        &&& i32::MIN + 5 <= self.valve_y <= i32::MAX - 5
    }
}

/// The initial configuration: inner ring at `(4, 1)`, outer ring at
/// `(0, 1)`, valve half at offset `0`.
pub open spec fn initial_model() -> ValveModel {
    ValveModel { inner: (4int, 1int), outer: (0int, 1int), valve_y: 0int }
}

/// The vertical displacement a move gives to one piece: the move's unit
/// step if the piece is selected, zero otherwise.
pub open spec fn piece_dy(m: Move, piece: VerticalPieces) -> int {
    match m {
        Move::Vertical { direction, pieces } => if pieces.has(piece) {
            direction.dy()
        } else {
            0
        },
        _ => 0,
    }
}

/// Whether `m` may be applied in state `s`: the moved pieces, at their
/// hypothetical next positions, overlap neither the frame nor the valve
/// half as it would stand after the move.
pub open spec fn is_legal(s: ValveModel, m: Move) -> bool {
    match m {
        Move::InnerRingRotate(dir) => ring_clear(
            s.inner,
            inner_shape(),
            (dir.dx(), 0int),
            frame_inside_pts(),
            valve_inside_pts(s.valve_y),
        ),
        Move::OuterRingRotate(dir) => ring_clear(
            s.outer,
            outer_shape(),
            (dir.dx(), 0int),
            frame_outside_pts(),
            valve_outside_pts(s.valve_y),
        ),
        Move::Vertical { .. } => {
            let vdy = piece_dy(m, VerticalPieces::ValveHalf);
            &&& ring_clear(
                s.inner,
                inner_shape(),
                (0int, piece_dy(m, VerticalPieces::InnerRing)),
                frame_inside_pts(),
                valve_inside_pts(s.valve_y + vdy),
            )
            &&& ring_clear(
                s.outer,
                outer_shape(),
                (0int, piece_dy(m, VerticalPieces::OuterRing)),
                frame_outside_pts(),
                valve_outside_pts(s.valve_y + vdy),
            )
        },
    }
}

/// The state after applying `m` unconditionally: exactly the implicated
/// positions change; ring `x` wraps on the track, vertical coordinates
/// accumulate without bound.
pub open spec fn apply_move(s: ValveModel, m: Move) -> ValveModel {
    match m {
        Move::InnerRingRotate(dir) => ValveModel {
            inner: (wrap6(s.inner.0 + dir.dx()), s.inner.1),
            outer: s.outer,
            valve_y: s.valve_y,
        },
        Move::OuterRingRotate(dir) => ValveModel {
            inner: s.inner,
            outer: (wrap6(s.outer.0 + dir.dx()), s.outer.1),
            valve_y: s.valve_y,
        },
        Move::Vertical { .. } => ValveModel {
            inner: (s.inner.0, s.inner.1 + piece_dy(m, VerticalPieces::InnerRing)),
            outer: (s.outer.0, s.outer.1 + piece_dy(m, VerticalPieces::OuterRing)),
            valve_y: s.valve_y + piece_dy(m, VerticalPieces::ValveHalf),
        },
    }
}

/// Whether applying `m` in state `s` keeps every vertical coordinate
/// within the machine type. Only vertical moves change them, by one step.
pub open spec fn fits(s: ValveModel, m: Move) -> bool {
    &&& i32::MIN <= s.inner.1 + piece_dy(m, VerticalPieces::InnerRing) <= i32::MAX
    &&& i32::MIN <= s.outer.1 + piece_dy(m, VerticalPieces::OuterRing) <= i32::MAX
    &&& i32::MIN <= s.valve_y + piece_dy(m, VerticalPieces::ValveHalf) <= i32::MAX
}

/// The puzzle aggregate. It owns one instance of each geometry piece and
/// exposes the legality check and the raw mutator.
pub struct Valve {
    pub inner_ring: InnerRing,
    pub outer_ring: OuterRing,
    pub valve_half: ValveHalf,
    pub hanayama_half: HanayamaHalf,
}

impl View for Valve {
    type V = ValveModel;

    open spec fn view(&self) -> ValveModel {
        ValveModel {
            inner: self.inner_ring@,
            outer: self.outer_ring@,
            valve_y: self.valve_half@,
        }
    }
}

impl Valve {
    /// The rings sit on the track and every coordinate fits the machine
    /// type.
    pub open spec fn wf(self) -> bool {
        &&& self@.wf()
        &&& self@.ys_in_range()
    }
}

impl Default for Valve {
    /// The initial configuration.
    fn default() -> (r: Self)
        ensures
            r@ == initial_model(),
            r.wf(),
    {
        Valve {
            inner_ring: InnerRing::default(),
            outer_ring: OuterRing::default(),
            valve_half: ValveHalf::default(),
            hanayama_half: HanayamaHalf::default(),
        }
    }
}

impl Valve {
    /// The legality check: a pure function of the current state and the
    /// constant frame. The state is not touched.
    pub fn can_move(&self, muv: &Move) -> (r: bool)
        requires
            self.wf(),
            self@.step_safe(),
        ensures
            r == is_legal(self@, *muv),
    {
        match muv {
            Move::InnerRingRotate(dir) => {
                let frame = self.hanayama_half.inside_points();
                let valve = self.valve_half.inside_points(None);
                self.inner_ring.can_move(&frame, &valve, dir.vector())
            },
            Move::OuterRingRotate(dir) => {
                let frame = self.hanayama_half.outside_points();
                let valve = self.valve_half.outside_points(None);
                self.outer_ring.can_move(&frame, &valve, dir.vector())
            },
            Move::Vertical { direction, pieces } => {
                let step_vec: Vec2<Inside> = direction.vector();
                let step = step_vec.y();
                let inner_dy = if pieces.contains(VerticalPieces::InnerRing) { step } else { 0 };
                let outer_dy = if pieces.contains(VerticalPieces::OuterRing) { step } else { 0 };
                let valve_dy = if pieces.contains(VerticalPieces::ValveHalf) { step } else { 0 };

                let frame_in = self.hanayama_half.inside_points();
                let valve_in = self.valve_half.inside_points(Some(valve_dy));
                let inner_ok = self.inner_ring.can_move(
                    &frame_in,
                    &valve_in,
                    Vec2::new(0, inner_dy),
                );

                let frame_out = self.hanayama_half.outside_points();
                let valve_out = self.valve_half.outside_points(Some(valve_dy));
                let outer_ok = self.outer_ring.can_move(
                    &frame_out,
                    &valve_out,
                    Vec2::new(0, outer_dy),
                );

                inner_ok && outer_ok
            },
        }
    }

    /// Applies `m` without any legality check; legality is the caller's
    /// responsibility. Exactly the implicated positions change.
    pub fn make_move_unchecked(&mut self, muv: &Move)
        requires
            old(self).wf(),
            fits(old(self)@, *muv),
        ensures
            final(self)@ == apply_move(old(self)@, *muv),
            final(self).wf(),
    {
        match muv {
            Move::InnerRingRotate(dir) => {
                self.inner_ring.shift(dir.vector());
            },
            Move::OuterRingRotate(dir) => {
                self.outer_ring.shift(dir.vector());
            },
            Move::Vertical { direction, pieces } => {
                proof {
                    lemma_wrap6_identity(old(self)@.inner.0);
                    lemma_wrap6_identity(old(self)@.outer.0);
                }
                let step_vec: Vec2<Inside> = direction.vector();
                if pieces.contains(VerticalPieces::InnerRing) {
                    self.inner_ring.shift(step_vec);
                }
                if pieces.contains(VerticalPieces::OuterRing) {
                    self.outer_ring.shift(step_vec.cast_unit());
                }
                if pieces.contains(VerticalPieces::ValveHalf) {
                    self.valve_half.shift(step_vec.y());
                }
            },
        }
    }
}

/// A state with probe slack accepts any single move: every move changes a
/// vertical coordinate by at most one step.
pub proof fn lemma_step_safe_fits(s: ValveModel, m: Move)
    requires
        s.step_safe(),
    ensures
        fits(s, m),
{
}

/// A track coordinate wraps to itself.
pub proof fn lemma_wrap6_identity(x: int)
    requires
        0 <= x < TRACK_WIDTH,
    ensures
        wrap6(x) == x,
{
    vstd::arithmetic::div_mod::lemma_small_mod(x as nat, 6nat);
}

/// Undo exactly reverses a move: applying a move and then its inverse
/// restores the starting state, for every move and every on-track state.
pub proof fn lemma_apply_inverse(s: ValveModel, m: Move)
    requires
        s.wf(),
    ensures
        apply_move(apply_move(s, m), m.inverse_spec()) == s,
{
    match m {
        Move::InnerRingRotate(dir) => {
            crate::point::lemma_wrap6_add_assoc(s.inner.0 + dir.dx(), dir.inverse_spec().dx());
            lemma_wrap6_identity(s.inner.0);
        },
        Move::OuterRingRotate(dir) => {
            crate::point::lemma_wrap6_add_assoc(s.outer.0 + dir.dx(), dir.inverse_spec().dx());
            lemma_wrap6_identity(s.outer.0);
        },
        Move::Vertical { .. } => {
        },
    }
}

/// Rotating a ring six times in one sense returns the state to exactly
/// where it began: the ring's `x` has wrapped around the whole track, and
/// a rotation never touches any vertical coordinate.
pub proof fn lemma_rotate_six_round_trip(s: ValveModel, m: Move)
    requires
        s.wf(),
        m is InnerRingRotate || m is OuterRingRotate,
    ensures
        apply_move(
            apply_move(apply_move(apply_move(apply_move(apply_move(s, m), m), m), m), m),
            m,
        ) == s,
        apply_move(s, m).inner.1 == s.inner.1,
        apply_move(s, m).outer.1 == s.outer.1,
        apply_move(s, m).valve_y == s.valve_y,
{
    let dx = match m {
        Move::InnerRingRotate(dir) => dir.dx(),
        Move::OuterRingRotate(dir) => dir.dx(),
        Move::Vertical { .. } => 0int,
    };
    let x0 = match m {
        Move::InnerRingRotate(_) => s.inner.0,
        Move::OuterRingRotate(_) => s.outer.0,
        Move::Vertical { .. } => 0int,
    };
    assert forall|k: int| #[trigger] wrap6(wrap6(k) + dx) == wrap6(k + dx) by {
        crate::point::lemma_wrap6_add_assoc(k, dx);
    }
    assert(wrap6(wrap6(wrap6(wrap6(wrap6(wrap6(x0 + dx) + dx) + dx) + dx) + dx) + dx) == wrap6(
        x0 + 6 * dx,
    ));
    vstd::arithmetic::div_mod::lemma_mod_multiples_vanish(dx, x0, 6);
    lemma_wrap6_identity(x0);
}

} // verus!
