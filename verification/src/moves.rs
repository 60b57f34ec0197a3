//! The move model: an exhaustive enumeration of the eighteen atomic
//! transforms, their inverses and their stable textual encoding.
//!
//! A move either rotates one ring by one step, or slides a non-empty subset
//! of the three movable pieces vertically by one step.

use vstd::prelude::*;

verus! {

/// Rotation sense of a ring move.
#[derive(Debug, Clone, Copy, PartialEq, Eq, Structural)]
pub enum RingDirection {
    Left,
    Right,
}

impl RingDirection {
    /// The horizontal unit step this rotation stands for.
    pub open spec fn dx(self) -> int {
        match self {
            RingDirection::Left => -1,
            RingDirection::Right => 1,
        }
    }

    /// The opposite rotation sense.
    pub open spec fn inverse_spec(self) -> Self {
        match self {
            RingDirection::Left => RingDirection::Right,
            RingDirection::Right => RingDirection::Left,
        }
    }

    /// The opposite rotation sense.
    pub fn inverse(self) -> (r: Self)
        ensures
            r == self.inverse_spec(),
    {
        match self {
            RingDirection::Left => RingDirection::Right,
            RingDirection::Right => RingDirection::Left,
        }
    }

    /// The displacement vector of this rotation, in any coordinate space.
    pub fn vector<U>(&self) -> (r: crate::point::Vec2<U>)
        ensures
            r@ == (self.dx(), 0int),
    {
        match self {
            RingDirection::Left => crate::point::Vec2::new(-1, 0),
            RingDirection::Right => crate::point::Vec2::new(1, 0),
        }
    }
}

/// Sense of a vertical slide. `Down` increases `y`.
#[derive(Debug, Clone, Copy, PartialEq, Eq, Structural)]
pub enum VerticalDirection {
    Up,
    Down,
}

impl VerticalDirection {
    /// The vertical unit step this slide stands for.
    pub open spec fn dy(self) -> int {
        match self {
            VerticalDirection::Up => -1,
            VerticalDirection::Down => 1,
        }
    }

    /// The opposite slide sense.
    pub open spec fn inverse_spec(self) -> Self {
        match self {
            VerticalDirection::Up => VerticalDirection::Down,
            VerticalDirection::Down => VerticalDirection::Up,
        }
    }

    /// The opposite slide sense.
    pub fn inverse(self) -> (r: Self)
        ensures
            r == self.inverse_spec(),
    {
        match self {
            VerticalDirection::Up => VerticalDirection::Down,
            VerticalDirection::Down => VerticalDirection::Up,
        }
    }

    /// The displacement vector of this slide, in any coordinate space.
    pub fn vector<U>(&self) -> (r: crate::point::Vec2<U>)
        ensures
            r@ == (0int, self.dy()),
    {
        match self {
            VerticalDirection::Up => crate::point::Vec2::new(0, -1),
            VerticalDirection::Down => crate::point::Vec2::new(0, 1),
        }
    }
}

/// The three movable pieces a vertical move may select.
#[derive(Debug, Clone, Copy, PartialEq, Eq, Structural)]
pub enum VerticalPieces {
    InnerRing,
    OuterRing,
    ValveHalf,
}

/// A non-empty subset of the three movable pieces. The only constructor,
/// [`PieceSet::new`], rejects the empty selection, so an empty subset is
/// never handed to the move model.
#[derive(Debug, Clone, Copy, PartialEq, Eq, Structural)]
pub struct PieceSet {
    inner_ring: bool,
    outer_ring: bool,
    valve_half: bool,
}

impl PieceSet {
    /// Whether `piece` belongs to the subset.
    pub closed spec fn has(self, piece: VerticalPieces) -> bool {
        match piece {
            VerticalPieces::InnerRing => self.inner_ring,
            VerticalPieces::OuterRing => self.outer_ring,
            VerticalPieces::ValveHalf => self.valve_half,
        }
    }

    /// At least one piece is selected.
    pub open spec fn non_empty(self) -> bool {
        ||| self.has(VerticalPieces::InnerRing)
        ||| self.has(VerticalPieces::OuterRing)
        ||| self.has(VerticalPieces::ValveHalf)
    }

    /// Builds the subset selecting exactly the pieces flagged true; the
    /// empty selection is refused.
    pub fn new(inner_ring: bool, outer_ring: bool, valve_half: bool) -> (r: Option<PieceSet>)
        ensures
            r is Some <==> (inner_ring || outer_ring || valve_half),
            r is Some ==> {
                let p = r->Some_0;
                &&& p.has(VerticalPieces::InnerRing) == inner_ring
                &&& p.has(VerticalPieces::OuterRing) == outer_ring
                &&& p.has(VerticalPieces::ValveHalf) == valve_half
                &&& p.non_empty()
            },
    {
        if inner_ring || outer_ring || valve_half {
            Some(PieceSet { inner_ring, outer_ring, valve_half })
        } else {
            None
        }
    }

    /// Whether `piece` belongs to the subset.
    pub fn contains(&self, piece: VerticalPieces) -> (r: bool)
        ensures
            r == self.has(piece),
    {
        match piece {
            VerticalPieces::InnerRing => self.inner_ring,
            VerticalPieces::OuterRing => self.outer_ring,
            VerticalPieces::ValveHalf => self.valve_half,
        }
    }
}

/// The seven non-empty piece subsets, in enumeration order: the three
/// singletons, the three pairs, then the full set.
pub closed spec fn all_piece_sets() -> Seq<PieceSet> {
    seq![
        PieceSet { inner_ring: true, outer_ring: false, valve_half: false },
        PieceSet { inner_ring: false, outer_ring: true, valve_half: false },
        PieceSet { inner_ring: false, outer_ring: false, valve_half: true },
        PieceSet { inner_ring: true, outer_ring: true, valve_half: false },
        PieceSet { inner_ring: true, outer_ring: false, valve_half: true },
        PieceSet { inner_ring: false, outer_ring: true, valve_half: true },
        PieceSet { inner_ring: true, outer_ring: true, valve_half: true },
    ]
}

/// The enumeration of piece subsets lists exactly the non-empty subsets,
/// each once.
pub proof fn lemma_all_piece_sets()
    ensures
        all_piece_sets().len() == 7,
        forall|k: int| 0 <= k < 7 ==> (#[trigger] all_piece_sets()[k]).non_empty(),
        forall|i: int, j: int|
            0 <= i < j < 7 ==> all_piece_sets()[i] != all_piece_sets()[j],
        forall|p: PieceSet| p.non_empty() ==> all_piece_sets().contains(p),
{
    assert forall|p: PieceSet| p.non_empty() implies all_piece_sets().contains(p) by {
        if p.inner_ring {
            if p.outer_ring {
                if p.valve_half {
                    assert(all_piece_sets()[6] == p);
                } else {
                    assert(all_piece_sets()[3] == p);
                }
            } else {
                if p.valve_half {
                    assert(all_piece_sets()[4] == p);
                } else {
                    assert(all_piece_sets()[0] == p);
                }
            }
        } else {
            if p.outer_ring {
                if p.valve_half {
                    assert(all_piece_sets()[5] == p);
                } else {
                    assert(all_piece_sets()[1] == p);
                }
            } else {
                assert(all_piece_sets()[2] == p);
            }
        }
    }
}

/// The seven non-empty piece subsets, in enumeration order.
pub fn piece_sets() -> (r: Vec<PieceSet>)
    ensures
        r@ == all_piece_sets(),
{
    let mut r: Vec<PieceSet> = Vec::new();
    r.push(PieceSet { inner_ring: true, outer_ring: false, valve_half: false });
    r.push(PieceSet { inner_ring: false, outer_ring: true, valve_half: false });
    r.push(PieceSet { inner_ring: false, outer_ring: false, valve_half: true });
    r.push(PieceSet { inner_ring: true, outer_ring: true, valve_half: false });
    r.push(PieceSet { inner_ring: true, outer_ring: false, valve_half: true });
    r.push(PieceSet { inner_ring: false, outer_ring: true, valve_half: true });
    r.push(PieceSet { inner_ring: true, outer_ring: true, valve_half: true });
    proof {
        assert(r@ =~= all_piece_sets());
    }
    r
}

/// One atomic transform of the puzzle.
#[derive(Debug, Clone, Copy, PartialEq, Eq, Structural)]
pub enum Move {
    /// Rotate the inner ring one step.
    InnerRingRotate(RingDirection),
    /// Rotate the outer ring one step.
    OuterRingRotate(RingDirection),
    /// Slide every selected piece one step vertically.
    Vertical { direction: VerticalDirection, pieces: PieceSet },
}

impl Move {
    /// A vertical move always selects at least one piece.
    pub open spec fn wf(self) -> bool {
        match self {
            Move::Vertical { pieces, .. } => pieces.non_empty(),
            _ => true,
        }
    }

    /// The move that exactly reverses this one: the opposite direction over
    /// the same piece selection.
    pub open spec fn inverse_spec(self) -> Move {
        match self {
            Move::InnerRingRotate(d) => Move::InnerRingRotate(d.inverse_spec()),
            Move::OuterRingRotate(d) => Move::OuterRingRotate(d.inverse_spec()),
            Move::Vertical { direction, pieces } => Move::Vertical {
                direction: direction.inverse_spec(),
                pieces,
            },
        }
    }

    /// The move that exactly reverses this one.
    pub fn inverse(&self) -> (r: Move)
        ensures
            r == self.inverse_spec(),
            r.wf() == self.wf(),
    {
        match self {
            Move::InnerRingRotate(d) => Move::InnerRingRotate(d.inverse()),
            Move::OuterRingRotate(d) => Move::OuterRingRotate(d.inverse()),
            Move::Vertical { direction, pieces } => Move::Vertical {
                direction: direction.inverse(),
                pieces: *pieces,
            },
        }
    }

    /// The stable textual encoding of this move: two letters for a ring
    /// rotation; a direction letter and a brace-delimited, comma-joined
    /// piece list for a vertical move.
    pub open spec fn code(self) -> Seq<char> {
        match self {
            Move::InnerRingRotate(RingDirection::Left) => "IL"@,
            Move::InnerRingRotate(RingDirection::Right) => "IR"@,
            Move::OuterRingRotate(RingDirection::Left) => "OL"@,
            Move::OuterRingRotate(RingDirection::Right) => "OR"@,
            Move::Vertical { direction, pieces } => vertical_code(
                direction,
                pieces.has(VerticalPieces::InnerRing),
                pieces.has(VerticalPieces::OuterRing),
                pieces.has(VerticalPieces::ValveHalf),
            ),
        }
    }

    /// The stable textual encoding of this move.
    pub fn as_str(&self) -> (r: &'static str)
        ensures
            r@ == self.code(),
    {
        match self {
            Move::InnerRingRotate(RingDirection::Left) => "IL",
            Move::InnerRingRotate(RingDirection::Right) => "IR",
            Move::OuterRingRotate(RingDirection::Left) => "OL",
            Move::OuterRingRotate(RingDirection::Right) => "OR",
            Move::Vertical { direction, pieces } => {
                let i = pieces.contains(VerticalPieces::InnerRing);
                let o = pieces.contains(VerticalPieces::OuterRing);
                let v = pieces.contains(VerticalPieces::ValveHalf);
                match direction {
                    VerticalDirection::Up => vertical_str_up(i, o, v),
                    VerticalDirection::Down => vertical_str_down(i, o, v),
                }
            },
        }
    }

    /// All eighteen move descriptors, in enumeration order: the four ring
    /// rotations, then each vertical direction over the seven subsets.
    pub fn iter() -> (r: Vec<Move>)
        ensures
            r@ == all_moves(),
            forall|i: int| 0 <= i < r@.len() ==> (#[trigger] r@[i]).wf(),
    {
        let mut r: Vec<Move> = Vec::new();
        r.push(Move::InnerRingRotate(RingDirection::Left));
        r.push(Move::InnerRingRotate(RingDirection::Right));
        r.push(Move::OuterRingRotate(RingDirection::Left));
        r.push(Move::OuterRingRotate(RingDirection::Right));
        let sets = piece_sets();
        let mut i: usize = 0;
        while i < sets.len()
            invariant
                0 <= i <= 7,
                sets@ == all_piece_sets(),
                r@ =~= all_moves().take(4 + i as int),
            decreases sets@.len() - i,
        {
            r.push(Move::Vertical { direction: VerticalDirection::Up, pieces: sets[i] });
            proof {
                assert(r@ =~= all_moves().take(4 + i as int + 1));
            }
            i = i + 1;
        }
        let mut j: usize = 0;
        while j < sets.len()
            invariant
                0 <= j <= 7,
                sets@ == all_piece_sets(),
                r@ =~= all_moves().take(11 + j as int),
            decreases sets@.len() - j,
        {
            r.push(Move::Vertical { direction: VerticalDirection::Down, pieces: sets[j] });
            proof {
                assert(r@ =~= all_moves().take(11 + j as int + 1));
            }
            j = j + 1;
        }
        proof {
            assert(r@ =~= all_moves());
            lemma_all_piece_sets();
            assert(forall|i: int| 0 <= i < r@.len() ==> (#[trigger] r@[i]).wf());
        }
        r
    }
}

/// The encoding of a vertical move: its direction letter, then the brace-
/// delimited, comma-joined codes of the selected pieces, in enumeration
/// order.
pub open spec fn vertical_code(
    direction: VerticalDirection,
    i: bool,
    o: bool,
    v: bool,
) -> Seq<char> {
    match direction {
        VerticalDirection::Up => {
            if i && o && v {
                "U{I, O, V}"@
            } else if i && o {
                "U{I, O}"@
            } else if i && v {
                "U{I, V}"@
            } else if o && v {
                "U{O, V}"@
            } else if i {
                "U{I}"@
            } else if o {
                "U{O}"@
            } else {
                "U{V}"@
            }
        },
        VerticalDirection::Down => {
            if i && o && v {
                "D{I, O, V}"@
            } else if i && o {
                "D{I, O}"@
            } else if i && v {
                "D{I, V}"@
            } else if o && v {
                "D{O, V}"@
            } else if i {
                "D{I}"@
            } else if o {
                "D{O}"@
            } else {
                "D{V}"@
            }
        },
    }
}

/// The encoded upward vertical move selecting the flagged pieces.
fn vertical_str_up(i: bool, o: bool, v: bool) -> (r: &'static str)
    ensures
        r@ == vertical_code(VerticalDirection::Up, i, o, v),
{
    if i && o && v {
        "U{I, O, V}"
    } else if i && o {
        "U{I, O}"
    } else if i && v {
        "U{I, V}"
    } else if o && v {
        "U{O, V}"
    } else if i {
        "U{I}"
    } else if o {
        "U{O}"
    } else {
        "U{V}"
    }
}

/// The encoded downward vertical move selecting the flagged pieces.
fn vertical_str_down(i: bool, o: bool, v: bool) -> (r: &'static str)
    ensures
        r@ == vertical_code(VerticalDirection::Down, i, o, v),
{
    if i && o && v {
        "D{I, O, V}"
    } else if i && o {
        "D{I, O}"
    } else if i && v {
        "D{I, V}"
    } else if o && v {
        "D{O, V}"
    } else if i {
        "D{I}"
    } else if o {
        "D{O}"
    } else {
        "D{V}"
    }
}

/// The move enumeration lists exactly eighteen descriptors, each
/// well-formed, and no two alike: four ring rotations and each vertical
/// direction over the seven non-empty subsets.
pub proof fn lemma_all_moves()
    ensures
        all_moves().len() == 18,
        forall|i: int| 0 <= i < 18 ==> (#[trigger] all_moves()[i]).wf(),
        forall|i: int, j: int| 0 <= i < j < 18 ==> all_moves()[i] != all_moves()[j],
{
    lemma_all_piece_sets();
    let a = all_moves();
    assert(a.len() == 18);
    assert forall|i: int| 0 <= i < 18 implies (#[trigger] a[i]).wf() by {
        if 4 <= i < 11 {
            assert(a[i] == Move::Vertical {
                direction: VerticalDirection::Up,
                pieces: all_piece_sets()[i - 4],
            });
        } else if 11 <= i < 18 {
            assert(a[i] == Move::Vertical {
                direction: VerticalDirection::Down,
                pieces: all_piece_sets()[i - 11],
            });
        }
    }
    assert forall|i: int, j: int| 0 <= i < j < 18 implies a[i] != a[j] by {
        if 4 <= i < 11 {
            assert(a[i] == Move::Vertical {
                direction: VerticalDirection::Up,
                pieces: all_piece_sets()[i - 4],
            });
        }
        if 11 <= i < 18 {
            assert(a[i] == Move::Vertical {
                direction: VerticalDirection::Down,
                pieces: all_piece_sets()[i - 11],
            });
        }
        if 4 <= j < 11 {
            assert(a[j] == Move::Vertical {
                direction: VerticalDirection::Up,
                pieces: all_piece_sets()[j - 4],
            });
        }
        if 11 <= j < 18 {
            assert(a[j] == Move::Vertical {
                direction: VerticalDirection::Down,
                pieces: all_piece_sets()[j - 11],
            });
        }
    }
}

/// All eighteen move descriptors, in enumeration order.
pub open spec fn all_moves() -> Seq<Move> {
    seq![
        Move::InnerRingRotate(RingDirection::Left),
        Move::InnerRingRotate(RingDirection::Right),
        Move::OuterRingRotate(RingDirection::Left),
        Move::OuterRingRotate(RingDirection::Right),
    ] + all_piece_sets().map_values(
        |p: PieceSet| Move::Vertical { direction: VerticalDirection::Up, pieces: p },
    ) + all_piece_sets().map_values(
        |p: PieceSet| Move::Vertical { direction: VerticalDirection::Down, pieces: p },
    )
}

} // verus!
