//! The reversible move history: an append/truncate command stack with a
//! cursor separating done moves from undone ones.
//!
//! Undo and redo re-apply stored moves (or their exact inverses) through
//! the unchecked mutator; by the invariant that only legal moves are ever
//! recorded, no re-validation is needed.

use vstd::prelude::*;

use crate::moves::Move;
use crate::valve::{apply_move, fits, Valve, ValveModel};

verus! {

/// The mathematical state of a history: the recorded moves and the cursor.
/// Moves before the cursor are done; moves after it have been undone.
pub ghost struct RecordModel {
    pub moves: Seq<Move>,
    pub cursor: int,
}

impl RecordModel {
    /// The cursor stays within the stack and every recorded move is
    /// well-formed.
    pub open spec fn wf(self) -> bool {
        &&& 0 <= self.cursor <= self.moves.len()
        &&& forall|i: int| 0 <= i < self.moves.len() ==> (#[trigger] self.moves[i]).wf()
    }
}

/// What `edit` does to history and puzzle: truncate the undone tail,
/// append the move, advance the cursor, and apply the move to the puzzle.
pub open spec fn edit_spec(r: RecordModel, v: ValveModel, m: Move) -> (RecordModel, ValveModel) {
    (
        RecordModel { moves: r.moves.take(r.cursor).push(m), cursor: r.cursor + 1 },
        apply_move(v, m),
    )
}

/// What `undo` does when the cursor is positive: step the cursor back and
/// apply the inverse of the move it passed. The stack itself is kept.
pub open spec fn undo_spec(r: RecordModel, v: ValveModel) -> (RecordModel, ValveModel) {
    (
        RecordModel { moves: r.moves, cursor: r.cursor - 1 },
        apply_move(v, r.moves[r.cursor - 1].inverse_spec()),
    )
}

/// What `redo` does when the cursor is not at the end: re-apply the move
/// at the cursor and step it forward.
pub open spec fn redo_spec(r: RecordModel, v: ValveModel) -> (RecordModel, ValveModel) {
    (
        RecordModel { moves: r.moves, cursor: r.cursor + 1 },
        apply_move(v, r.moves[r.cursor]),
    )
}

/// The reversible command stack.
pub struct Record {
    moves: Vec<Move>,
    cursor: usize,
}

impl View for Record {
    type V = RecordModel;

    closed spec fn view(&self) -> RecordModel {
        RecordModel { moves: self.moves@, cursor: self.cursor as int }
    }
}

impl Record {
    /// The cursor stays within the stack and every recorded move is
    /// well-formed.
    pub open spec fn wf(self) -> bool {
        self@.wf()
    }

    /// An empty history.
    pub fn new() -> (r: Self)
        ensures
            r@.moves == Seq::<Move>::empty(),
            r@.cursor == 0,
            r.wf(),
    {
        Record { moves: Vec::new(), cursor: 0 }
    }

    /// How many moves are recorded, done and undone together.
    pub fn len(&self) -> (r: usize)
        ensures
            r as int == self@.moves.len(),
    {
        self.moves.len()
    }

    /// How many recorded moves are currently done.
    pub fn cursor(&self) -> (r: usize)
        ensures
            r as int == self@.cursor,
    {
        self.cursor
    }

    /// Applies `m` to the puzzle, discards any undone moves, and records
    /// `m` as the newest done move.
    pub fn edit(&mut self, valve: &mut Valve, m: Move)
        requires
            old(self).wf(),
            m.wf(),
            old(valve).wf(),
            fits(old(valve)@, m),
        ensures
            (final(self)@, final(valve)@) == edit_spec(old(self)@, old(valve)@, m),
            final(self).wf(),
            final(valve).wf(),
    {
        valve.make_move_unchecked(&m);
        let ghost orig_moves = self.moves@;
        let ghost orig_cursor = self.cursor as int;
        proof {
            assert(self.moves@ =~= orig_moves.take(self.moves@.len() as int));
        }
        while self.moves.len() > self.cursor
            invariant
                self.cursor as int == orig_cursor,
                orig_cursor <= self.moves@.len() <= orig_moves.len(),
                self.moves@ == orig_moves.take(self.moves@.len() as int),
            decreases self.moves@.len(),
        {
            self.moves.pop();
            proof {
                assert(self.moves@ =~= orig_moves.take(self.moves@.len() as int));
            }
        }
        self.moves.push(m);
        self.cursor = self.moves.len();
        proof {
            assert(self@.moves =~= orig_moves.take(orig_cursor).push(m));
        }
    }

    /// Steps one move back in the history, applying its inverse to the
    /// puzzle. Returns false, changing nothing, when nothing is done.
    pub fn undo(&mut self, valve: &mut Valve) -> (r: bool)
        requires
            old(self).wf(),
            old(valve).wf(),
            old(self)@.cursor > 0 ==> fits(
                old(valve)@,
                old(self)@.moves[old(self)@.cursor - 1].inverse_spec(),
            ),
        ensures
            r == (old(self)@.cursor > 0),
            r ==> (final(self)@, final(valve)@) == undo_spec(old(self)@, old(valve)@),
            !r ==> final(self)@ == old(self)@ && final(valve)@ == old(valve)@,
            final(self).wf(),
            final(valve).wf(),
    {
        if self.cursor == 0 {
            return false;
        }
        self.cursor = self.cursor - 1;
        let m = self.moves[self.cursor];
        let inverse = m.inverse();
        valve.make_move_unchecked(&inverse);
        true
    }

    /// Steps one move forward in the history, re-applying it to the
    /// puzzle. Returns false, changing nothing, when nothing is undone.
    pub fn redo(&mut self, valve: &mut Valve) -> (r: bool)
        requires
            old(self).wf(),
            old(valve).wf(),
            old(self)@.cursor < old(self)@.moves.len() ==> fits(
                old(valve)@,
                old(self)@.moves[old(self)@.cursor],
            ),
        ensures
            r == (old(self)@.cursor < old(self)@.moves.len()),
            r ==> (final(self)@, final(valve)@) == redo_spec(old(self)@, old(valve)@),
            !r ==> final(self)@ == old(self)@ && final(valve)@ == old(valve)@,
            final(self).wf(),
            final(valve).wf(),
    {
        if self.cursor >= self.moves.len() {
            return false;
        }
        let m = self.moves[self.cursor];
        valve.make_move_unchecked(&m);
        self.cursor = self.cursor + 1;
        true
    }
}

/// The history round trip: an edit followed by an undo restores the exact
/// prior puzzle state, for every move and every on-track state. The undo
/// is always possible, since the edit has just advanced the cursor.
pub proof fn lemma_edit_then_undo(r: RecordModel, v: ValveModel, m: Move)
    requires
        r.wf(),
        v.wf(),
    ensures
        edit_spec(r, v, m).0.cursor > 0,
        undo_spec(edit_spec(r, v, m).0, edit_spec(r, v, m).1).1 == v,
{
    let (r1, v1) = edit_spec(r, v, m);
    assert(r1.moves[r1.cursor - 1] == m);
    crate::valve::lemma_apply_inverse(v, m);
}

} // verus!
