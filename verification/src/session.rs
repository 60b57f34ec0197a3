//! The move dispatcher: resolves a raw directional gesture plus the
//! current ring selection into zero, one or many legal candidate moves.
//!
//! Zero candidates are rejected, a unique candidate is applied and
//! recorded, and two or more candidates are reported as ambiguous; in the
//! last two failure cases the state is left untouched.

use vstd::prelude::*;

use crate::moves::{
    all_moves, all_piece_sets, lemma_all_piece_sets, piece_sets, Move, PieceSet, RingDirection,
    VerticalDirection,
};
use crate::record::{edit_spec, redo_spec, undo_spec, Record};
use crate::valve::{initial_model, is_legal, ValveModel, Valve};

verus! {

/// How the dispatcher answered a gesture.
#[derive(Debug, Clone, Copy, PartialEq, Eq, Structural)]
pub enum Outcome {
    /// The unique legal candidate move was applied and recorded.
    Applied,
    /// No candidate move was legal; the state is unchanged.
    Rejected,
    /// Two or more candidate moves were legal; the state is unchanged and
    /// a more specific selection is needed.
    Ambiguous,
}

/// The rotation move a directional gesture stands for, given which ring is
/// selected.
pub open spec fn selected_rotation(move_inner: bool, dir: RingDirection) -> Move {
    if move_inner {
        Move::InnerRingRotate(dir)
    } else {
        Move::OuterRingRotate(dir)
    }
}

/// The piece subsets whose vertical move in direction `dir` is legal in
/// state `v`, in enumeration order.
pub open spec fn legal_vertical_sets(v: ValveModel, dir: VerticalDirection) -> Seq<PieceSet> {
    all_piece_sets().filter(
        |p: PieceSet| is_legal(v, Move::Vertical { direction: dir, pieces: p }),
    )
}

/// The dispatcher's answer to a vertical gesture: rejection with no legal
/// candidate, application with exactly one, ambiguity with more.
pub open spec fn vertical_outcome(v: ValveModel, dir: VerticalDirection) -> Outcome {
    let n = legal_vertical_sets(v, dir).len();
    if n == 0 {
        Outcome::Rejected
    } else if n == 1 {
        Outcome::Applied
    } else {
        Outcome::Ambiguous
    }
}

/// The moves of the full enumeration that are legal in state `v`, in
/// enumeration order.
pub open spec fn legal_moves_spec(v: ValveModel) -> Seq<Move> {
    all_moves().filter(|m: Move| is_legal(v, m))
}

/// Filtering one more element extends the filtered prefix by the element
/// exactly when it satisfies the predicate.
proof fn lemma_filter_take_succ<A>(s: Seq<A>, pred: spec_fn(A) -> bool, i: int)
    requires
        0 <= i < s.len(),
    ensures
        s.take(i + 1).filter(pred) == (if pred(s[i]) {
            s.take(i).filter(pred).push(s[i])
        } else {
            s.take(i).filter(pred)
        }),
{
    reveal(Seq::filter);
    assert(s.take(i + 1).drop_last() =~= s.take(i));
    assert(s.take(i + 1).last() == s[i]);
}

/// The whole session the input layer drives: the puzzle, its history, and
/// which ring the next rotation gesture addresses.
pub struct State {
    pub valve: Valve,
    pub record: Record,
    pub move_inner: bool,
}

impl State {
    /// The puzzle and the history are well-formed.
    pub open spec fn wf(self) -> bool {
        &&& self.valve.wf()
        &&& self.record.wf()
    }

    /// A fresh session: the initial configuration, an empty history, and
    /// the inner ring selected.
    pub fn new() -> (r: Self)
        ensures
            r.valve@ == initial_model(),
            r.record@.moves == Seq::<Move>::empty(),
            r.record@.cursor == 0,
            r.move_inner == true,
            r.wf(),
    {
        State { valve: Valve::default(), record: Record::new(), move_inner: true }
    }

    /// Selects the other ring for subsequent rotation gestures.
    pub fn toggle_ring(&mut self)
        ensures
            final(self).move_inner == !old(self).move_inner,
            final(self).valve@ == old(self).valve@,
            final(self).record@ == old(self).record@,
            final(self).wf() == old(self).wf(),
    {
        self.move_inner = !self.move_inner;
    }

    /// A rotation gesture: builds the rotation of the selected ring and
    /// applies it if it is legal; an illegal rotation changes nothing.
    pub fn move_ring(&mut self, dir: RingDirection) -> (applied: bool)
        requires
            old(self).wf(),
            old(self).valve@.step_safe(),
        ensures
            applied == is_legal(old(self).valve@, selected_rotation(old(self).move_inner, dir)),
            final(self).move_inner == old(self).move_inner,
            applied ==> (final(self).record@, final(self).valve@) == edit_spec(
                old(self).record@,
                old(self).valve@,
                selected_rotation(old(self).move_inner, dir),
            ),
            !applied ==> final(self).valve@ == old(self).valve@ && final(self).record@ == old(self).record@,
            final(self).wf(),
    {
        let muv = if self.move_inner {
            Move::InnerRingRotate(dir)
        } else {
            Move::OuterRingRotate(dir)
        };
        if self.valve.can_move(&muv) {
            self.record.edit(&mut self.valve, muv);
            true
        } else {
            false
        }
    }

    /// A vertical gesture: enumerates the seven candidate subsets, filters
    /// them to the currently legal ones, and applies the policy: none —
    /// reject; exactly one — apply and record it; several — report
    /// ambiguity. In every case but application the state is unchanged.
    pub fn move_vertical(&mut self, dir: VerticalDirection) -> (r: Outcome)
        requires
            old(self).wf(),
            old(self).valve@.step_safe(),
        ensures
            r == vertical_outcome(old(self).valve@, dir),
            final(self).move_inner == old(self).move_inner,
            r == Outcome::Applied ==> legal_vertical_sets(old(self).valve@, dir).len() == 1 && (
            final(self).record@,
            final(self).valve@,
            ) == edit_spec(
                old(self).record@,
                old(self).valve@,
                Move::Vertical {
                    direction: dir,
                    pieces: legal_vertical_sets(old(self).valve@, dir)[0],
                },
            ),
            r != Outcome::Applied ==> final(self).valve@ == old(self).valve@ && final(self).record@ == old(self).record@,
            final(self).wf(),
    {
        let ghost v0 = self.valve@;
        let ghost pred = |p: PieceSet| is_legal(v0, Move::Vertical { direction: dir, pieces: p });
        let sets = piece_sets();
        let mut candidates: Vec<PieceSet> = Vec::new();
        let mut i: usize = 0;
        proof {
            lemma_all_piece_sets();
            assert(all_piece_sets().take(0).filter(pred) =~= Seq::<PieceSet>::empty());
        }
        while i < sets.len()
            invariant
                all_piece_sets().len() == 7,
                0 <= i <= 7,
                sets@ == all_piece_sets(),
                self.valve@ == v0,
                self.wf(),
                self.valve@.step_safe(),
                pred == (|p: PieceSet| is_legal(
                    v0,
                    Move::Vertical { direction: dir, pieces: p },
                )),
                candidates@ == all_piece_sets().take(i as int).filter(pred),
            decreases sets@.len() - i,
        {
            let p = sets[i];
            let muv = Move::Vertical { direction: dir, pieces: p };
            proof {
                lemma_filter_take_succ(all_piece_sets(), pred, i as int);
            }
            if self.valve.can_move(&muv) {
                candidates.push(p);
            }
            i = i + 1;
        }
        proof {
            assert(all_piece_sets().take(7) =~= all_piece_sets());
            assert(candidates@ == legal_vertical_sets(v0, dir));
        }
        if candidates.len() == 0 {
            Outcome::Rejected
        } else if candidates.len() == 1 {
            let p = candidates[0];
            let muv = Move::Vertical { direction: dir, pieces: p };
            proof {
                lemma_all_piece_sets();
                assert(candidates@[0] == p);
                assert(all_piece_sets().filter(pred).contains(p));
                all_piece_sets().lemma_filter_contains_rev(pred, p);
                assert(all_piece_sets().contains(p));
            }
            self.record.edit(&mut self.valve, muv);
            Outcome::Applied
        } else {
            Outcome::Ambiguous
        }
    }

    /// An undo gesture: steps the history one move back, applying the
    /// exact inverse of the newest done move. Returns false, changing
    /// nothing, at the history boundary.
    pub fn undo(&mut self) -> (r: bool)
        requires
            old(self).wf(),
            old(self).valve@.step_safe(),
        ensures
            r == (old(self).record@.cursor > 0),
            r ==> (final(self).record@, final(self).valve@) == undo_spec(
                old(self).record@,
                old(self).valve@,
            ),
            !r ==> final(self).valve@ == old(self).valve@ && final(self).record@ == old(self).record@,
            final(self).move_inner == old(self).move_inner,
            final(self).wf(),
    {
        proof {
            if self.record@.cursor > 0 {
                crate::valve::lemma_step_safe_fits(
                    self.valve@,
                    self.record@.moves[self.record@.cursor - 1].inverse_spec(),
                );
            }
        }
        self.record.undo(&mut self.valve)
    }

    /// A redo gesture: re-applies the newest undone move. Returns false,
    /// changing nothing, at the history boundary.
    pub fn redo(&mut self) -> (r: bool)
        requires
            old(self).wf(),
            old(self).valve@.step_safe(),
        ensures
            r == (old(self).record@.cursor < old(self).record@.moves.len()),
            r ==> (final(self).record@, final(self).valve@) == redo_spec(
                old(self).record@,
                old(self).valve@,
            ),
            !r ==> final(self).valve@ == old(self).valve@ && final(self).record@ == old(self).record@,
            final(self).move_inner == old(self).move_inner,
            final(self).wf(),
    {
        proof {
            if self.record@.cursor < self.record@.moves.len() {
                crate::valve::lemma_step_safe_fits(
                    self.valve@,
                    self.record@.moves[self.record@.cursor],
                );
            }
        }
        self.record.redo(&mut self.valve)
    }

    /// A reset gesture: replaces the whole session with the fresh one —
    /// the initial configuration, an empty history, the inner ring
    /// selected.
    pub fn reset(&mut self)
        ensures
            final(self).valve@ == initial_model(),
            final(self).record@.moves == Seq::<Move>::empty(),
            final(self).record@.cursor == 0,
            final(self).move_inner == true,
            final(self).wf(),
    {
        *self = State::new();
    }

    /// Applies `muv` if it is currently legal, recording it in the
    /// history; an illegal move changes nothing.
    pub fn apply_if_legal(&mut self, muv: &Move) -> (applied: bool)
        requires
            old(self).wf(),
            old(self).valve@.step_safe(),
            muv.wf(),
        ensures
            applied == is_legal(old(self).valve@, *muv),
            final(self).move_inner == old(self).move_inner,
            applied ==> (final(self).record@, final(self).valve@) == edit_spec(
                old(self).record@,
                old(self).valve@,
                *muv,
            ),
            !applied ==> final(self).valve@ == old(self).valve@ && final(self).record@ == old(self).record@,
            final(self).wf(),
    {
        if self.valve.can_move(muv) {
            self.record.edit(&mut self.valve, *muv);
            true
        } else {
            false
        }
    }

    /// The currently legal moves, in enumeration order: the subset of the
    /// eighteen descriptors whose legality check passes right now.
    pub fn legal_moves(&self) -> (r: Vec<Move>)
        requires
            self.wf(),
            self.valve@.step_safe(),
        ensures
            r@ == legal_moves_spec(self.valve@),
    {
        let ghost pred = |m: Move| is_legal(self.valve@, m);
        let all = Move::iter();
        let mut r: Vec<Move> = Vec::new();
        let mut i: usize = 0;
        proof {
            lemma_all_piece_sets();
            assert(all_moves().take(0).filter(pred) =~= Seq::<Move>::empty());
        }
        while i < all.len()
            invariant
                0 <= i <= all@.len(),
                all@ == all_moves(),
                pred == (|m: Move| is_legal(self.valve@, m)),
                self.wf(),
                self.valve@.step_safe(),
                r@ == all_moves().take(i as int).filter(pred),
            decreases all@.len() - i,
        {
            let muv = all[i];
            proof {
                lemma_filter_take_succ(all_moves(), pred, i as int);
            }
            if self.valve.can_move(&muv) {
                r.push(muv);
            }
            i = i + 1;
        }
        proof {
            assert(all_moves().take(all_moves().len() as int) =~= all_moves());
        }
        r
    }
}

} // verus!
