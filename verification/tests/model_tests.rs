//! Tests of the coordinate model, the geometry and the move model.

use valve_model::moves::{Move, PieceSet, RingDirection, VerticalDirection, VerticalPieces};
use valve_model::point::{Inside, ModPoint, Outside};
use valve_model::{HanayamaHalf, InnerRing, OuterRing, ValveHalf};

fn pt_pairs_inside(pts: &[ModPoint<Inside>]) -> Vec<(i32, i32)> {
    pts.iter().map(|p| (p.x(), p.y())).collect()
}

fn pt_pairs_outside(pts: &[ModPoint<Outside>]) -> Vec<(i32, i32)> {
    pts.iter().map(|p| (p.x(), p.y())).collect()
}

fn pieces(i: bool, o: bool, v: bool) -> PieceSet {
    PieceSet::new(i, o, v).expect("a non-empty piece subset")
}

#[test]
fn point_new_wraps_x_and_keeps_y() {
    let p: ModPoint<Inside> = ModPoint::new(7, -3);
    assert_eq!(p.x(), 1);
    assert_eq!(p.y(), -3);
    let q: ModPoint<Inside> = ModPoint::new(-1, 9);
    assert_eq!(q.x(), 5);
    assert_eq!(q.y(), 9);
    let r: ModPoint<Inside> = ModPoint::new(-13, 0);
    assert_eq!(r.x(), 5);
}

#[test]
fn point_translate_wraps_x_only() {
    let p: ModPoint<Inside> = ModPoint::new(5, 2);
    let q = p.translate(valve_model::Vec2::new(1, 10));
    assert_eq!((q.x(), q.y()), (0, 12));
    let r = q.translate(valve_model::Vec2::new(-1, -10));
    assert_eq!((r.x(), r.y()), (5, 2));
}

#[test]
fn point_add_and_sub_are_component_wise() {
    let p: ModPoint<Inside> = ModPoint::new(5, 2);
    let q: ModPoint<Inside> = ModPoint::new(2, 7);
    let s = p.add(q);
    assert_eq!((s.x(), s.y()), (1, 9));
    let d = p.sub(q);
    assert_eq!((d.x(), d.y()), (3, -5));
    let d2 = q.sub(p);
    assert_eq!((d2.x(), d2.y()), (3, 5));
}

#[test]
fn point_cast_unit_keeps_coordinates() {
    let p: ModPoint<Inside> = ModPoint::new(3, -4);
    let q: ModPoint<Outside> = p.cast_unit();
    assert_eq!((q.x(), q.y()), (3, -4));
}

#[test]
fn frame_point_sets() {
    let frame = HanayamaHalf::default();
    let inside = pt_pairs_inside(&frame.inside_points());
    assert_eq!(inside.len(), 9);
    for p in [(0, 0), (1, 0), (2, 0), (0, 1), (0, 2), (2, 3), (0, 4), (1, 4), (2, 4)] {
        assert!(inside.contains(&p), "missing inside frame point {:?}", p);
    }
    let outside = pt_pairs_outside(&frame.outside_points());
    assert_eq!(outside.len(), 7);
    for p in [(3, 0), (4, 0), (5, 0), (5, 2), (3, 4), (4, 4), (5, 4)] {
        assert!(outside.contains(&p), "missing outside frame point {:?}", p);
    }
}

#[test]
fn valve_half_points_follow_offset() {
    let mut valve = ValveHalf::default();
    assert_eq!(valve.y(), 0);
    let inside = pt_pairs_inside(&valve.inside_points(None));
    assert_eq!(inside.len(), 7);
    for p in [(3, 0), (4, 0), (5, 0), (5, 2), (3, 4), (4, 4), (5, 4)] {
        assert!(inside.contains(&p), "missing valve inside point {:?}", p);
    }
    valve.shift(2);
    assert_eq!(valve.y(), 2);
    let outside = pt_pairs_outside(&valve.outside_points(Some(-1)));
    assert_eq!(outside.len(), 8);
    for p in [(0, 1), (1, 1), (2, 1), (0, 3), (1, 3), (0, 5), (1, 5), (2, 5)] {
        assert!(outside.contains(&p), "missing valve outside point {:?}", p);
    }
}

#[test]
fn ring_local_shapes() {
    let inner = InnerRing::default();
    let inner_local: Vec<(i32, i32)> =
        inner.points_local().iter().map(|p| (p.x(), p.y())).collect();
    assert_eq!(inner_local, vec![(0, 1), (1, 2), (2, 2), (3, 2)]);
    let outer = OuterRing::default();
    let outer_local: Vec<(i32, i32)> =
        outer.points_local().iter().map(|p| (p.x(), p.y())).collect();
    assert_eq!(outer_local, vec![(0, 0), (3, 2), (5, 2)]);
}

#[test]
fn ring_world_points_from_initial_positions() {
    let inner = InnerRing::default();
    let pos = inner.position();
    assert_eq!((pos.x(), pos.y()), (4, 1));
    let world = pt_pairs_inside(&inner.points(None));
    assert_eq!(world, vec![(4, 2), (5, 3), (0, 3), (1, 3)]);

    let outer = OuterRing::default();
    let pos = outer.position();
    assert_eq!((pos.x(), pos.y()), (0, 1));
    let world = pt_pairs_outside(&outer.points(None));
    assert_eq!(world, vec![(0, 1), (3, 3), (5, 3)]);
}

#[test]
fn ring_shift_wraps_horizontally() {
    let mut inner = InnerRing::default();
    for _ in 0..3 {
        inner.shift(RingDirection::Right.vector());
    }
    let pos = inner.position();
    assert_eq!((pos.x(), pos.y()), (1, 1));
    inner.shift(VerticalDirection::Down.vector());
    let pos = inner.position();
    assert_eq!((pos.x(), pos.y()), (1, 2));
}

#[test]
fn direction_vectors() {
    let left: valve_model::Vec2<Inside> = RingDirection::Left.vector();
    assert_eq!((left.x(), left.y()), (-1, 0));
    let right: valve_model::Vec2<Inside> = RingDirection::Right.vector();
    assert_eq!((right.x(), right.y()), (1, 0));
    let up: valve_model::Vec2<Inside> = VerticalDirection::Up.vector();
    assert_eq!((up.x(), up.y()), (0, -1));
    let down: valve_model::Vec2<Inside> = VerticalDirection::Down.vector();
    assert_eq!((down.x(), down.y()), (0, 1));
}

#[test]
fn empty_piece_subset_is_not_representable() {
    assert!(PieceSet::new(false, false, false).is_none());
    let p = pieces(true, false, true);
    assert!(p.contains(VerticalPieces::InnerRing));
    assert!(!p.contains(VerticalPieces::OuterRing));
    assert!(p.contains(VerticalPieces::ValveHalf));
}

#[test]
fn move_enumeration_lists_eighteen_distinct_moves() {
    let moves = Move::iter();
    assert_eq!(moves.len(), 18);
    for i in 0..moves.len() {
        for j in 0..i {
            assert_ne!(moves[i], moves[j], "duplicate move in enumeration");
        }
    }
    let codes: Vec<&str> = moves.iter().map(|m| m.as_str()).collect();
    assert_eq!(
        codes,
        vec![
            "IL",
            "IR",
            "OL",
            "OR",
            "U{I}",
            "U{O}",
            "U{V}",
            "U{I, O}",
            "U{I, V}",
            "U{O, V}",
            "U{I, O, V}",
            "D{I}",
            "D{O}",
            "D{V}",
            "D{I, O}",
            "D{I, V}",
            "D{O, V}",
            "D{I, O, V}",
        ]
    );
}

#[test]
fn move_inverse_flips_direction_and_keeps_pieces() {
    assert_eq!(
        Move::InnerRingRotate(RingDirection::Left).inverse(),
        Move::InnerRingRotate(RingDirection::Right)
    );
    assert_eq!(
        Move::OuterRingRotate(RingDirection::Right).inverse(),
        Move::OuterRingRotate(RingDirection::Left)
    );
    let m = Move::Vertical { direction: VerticalDirection::Up, pieces: pieces(true, false, true) };
    assert_eq!(
        m.inverse(),
        Move::Vertical { direction: VerticalDirection::Down, pieces: pieces(true, false, true) }
    );
    for m in Move::iter() {
        assert_eq!(m.inverse().inverse(), m);
    }
}
