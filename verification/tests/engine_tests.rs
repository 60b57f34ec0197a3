//! Tests of the puzzle aggregate, the history and the dispatcher.

use valve_model::moves::{Move, PieceSet, RingDirection, VerticalDirection};
use valve_model::session::{Outcome, State};
use valve_model::Valve;

fn vertical(dir: VerticalDirection, i: bool, o: bool, v: bool) -> Move {
    Move::Vertical { direction: dir, pieces: PieceSet::new(i, o, v).expect("non-empty subset") }
}

fn positions(valve: &Valve) -> ((i32, i32), (i32, i32), i32) {
    let ip = valve.inner_ring.position();
    let op = valve.outer_ring.position();
    ((ip.x(), ip.y()), (op.x(), op.y()), valve.valve_half.y())
}

/// Repeats `muv` on the valve `n` times, without legality checks.
fn drive(valve: &mut Valve, muv: Move, n: usize) {
    for _ in 0..n {
        valve.make_move_unchecked(&muv);
    }
}

#[test]
fn initial_configuration() {
    let valve = Valve::default();
    assert_eq!(positions(&valve), ((4, 1), (0, 1), 0));
}

#[test]
fn legality_is_a_pure_function_of_the_state() {
    let valve = Valve::default();
    for muv in Move::iter() {
        let first = valve.can_move(&muv);
        let second = valve.can_move(&muv);
        assert_eq!(first, second, "re-evaluating legality changed the answer");
    }
    assert_eq!(positions(&valve), ((4, 1), (0, 1), 0));
}

#[test]
fn initial_legal_moves() {
    let state = State::new();
    let codes: Vec<&str> = state.legal_moves().iter().map(|m| m.as_str()).collect();
    assert_eq!(codes, vec!["IL", "OL", "OR"]);
}

#[test]
fn apply_unchecked_then_inverse_restores_the_state() {
    for muv in Move::iter() {
        let mut valve = Valve::default();
        valve.make_move_unchecked(&muv);
        valve.make_move_unchecked(&muv.inverse());
        assert_eq!(positions(&valve), ((4, 1), (0, 1), 0), "round trip failed for {}", muv.as_str());
    }
}

#[test]
fn six_right_rotations_wrap_around_the_track() {
    let mut valve = Valve::default();
    drive(&mut valve, Move::InnerRingRotate(RingDirection::Right), 6);
    assert_eq!(positions(&valve), ((4, 1), (0, 1), 0));
    drive(&mut valve, Move::OuterRingRotate(RingDirection::Right), 6);
    assert_eq!(positions(&valve), ((4, 1), (0, 1), 0));
}

#[test]
fn rotation_never_touches_vertical_coordinates() {
    let mut valve = Valve::default();
    for k in 1..=6 {
        drive(&mut valve, Move::InnerRingRotate(RingDirection::Right), 1);
        let ip = valve.inner_ring.position();
        assert_eq!(ip.x(), (4 + k) % 6);
        assert_eq!(ip.y(), 1);
    }
}

#[test]
fn scenario_outer_rotation_from_initial_configuration() {
    let mut state = State::new();
    state.toggle_ring();
    assert!(state.move_ring(RingDirection::Right));
    assert_eq!(positions(&state.valve), ((4, 1), (1, 1), 0));
    assert_eq!(state.record.cursor(), 1);
}

#[test]
fn apply_if_legal_applies_and_records_a_legal_move() {
    let mut state = State::new();
    assert!(state.apply_if_legal(&Move::OuterRingRotate(RingDirection::Right)));
    assert_eq!(positions(&state.valve), ((4, 1), (1, 1), 0));
    assert_eq!(state.record.len(), 1);
}

#[test]
fn apply_if_legal_rejects_an_illegal_move_unchanged() {
    let mut state = State::new();
    assert!(!state.apply_if_legal(&Move::InnerRingRotate(RingDirection::Right)));
    assert_eq!(positions(&state.valve), ((4, 1), (0, 1), 0));
    assert_eq!(state.record.len(), 0);
}

#[test]
fn blocked_rotation_changes_nothing() {
    let mut state = State::new();
    assert!(!state.move_ring(RingDirection::Right));
    assert_eq!(positions(&state.valve), ((4, 1), (0, 1), 0));
    assert_eq!(state.record.len(), 0);
}

#[test]
fn vertical_gesture_with_no_legal_subset_is_rejected() {
    let mut state = State::new();
    assert_eq!(state.move_vertical(VerticalDirection::Up), Outcome::Rejected);
    assert_eq!(state.move_vertical(VerticalDirection::Down), Outcome::Rejected);
    assert_eq!(positions(&state.valve), ((4, 1), (0, 1), 0));
    assert_eq!(state.record.len(), 0);
}

#[test]
fn vertical_gesture_with_several_legal_subsets_is_ambiguous() {
    // A state where both {InnerRing} alone and {InnerRing, ValveHalf}
    // together are legal downward moves.
    let mut state = State::new();
    drive(&mut state.valve, Move::InnerRingRotate(RingDirection::Right), 2);
    drive(&mut state.valve, vertical(VerticalDirection::Up, true, false, false), 6);
    drive(&mut state.valve, vertical(VerticalDirection::Up, false, true, false), 6);
    drive(&mut state.valve, vertical(VerticalDirection::Up, false, false, true), 4);
    assert_eq!(positions(&state.valve), ((0, -5), (0, -5), -4));
    assert!(state.valve.can_move(&vertical(VerticalDirection::Down, true, false, false)));
    assert!(state.valve.can_move(&vertical(VerticalDirection::Down, true, false, true)));

    assert_eq!(state.move_vertical(VerticalDirection::Down), Outcome::Ambiguous);
    assert_eq!(positions(&state.valve), ((0, -5), (0, -5), -4));
    assert_eq!(state.record.len(), 0);
}

#[test]
fn scenario_unique_vertical_match_moves_the_valve_half() {
    // A state where {ValveHalf} is the unique legal downward subset.
    let mut state = State::new();
    drive(&mut state.valve, Move::InnerRingRotate(RingDirection::Right), 2);
    drive(&mut state.valve, vertical(VerticalDirection::Up, true, false, false), 6);
    drive(&mut state.valve, vertical(VerticalDirection::Up, false, true, false), 4);
    drive(&mut state.valve, vertical(VerticalDirection::Up, false, false, true), 3);
    assert_eq!(positions(&state.valve), ((0, -5), (0, -3), -3));

    assert_eq!(state.move_vertical(VerticalDirection::Down), Outcome::Applied);
    assert_eq!(positions(&state.valve), ((0, -5), (0, -3), -2));
    assert_eq!(state.record.cursor(), 1);
}

#[test]
fn vertical_slide_moves_only_the_selected_pieces() {
    let mut valve = Valve::default();
    valve.make_move_unchecked(&vertical(VerticalDirection::Down, false, false, true));
    assert_eq!(positions(&valve), ((4, 1), (0, 1), 1));
    valve.make_move_unchecked(&vertical(VerticalDirection::Up, true, true, false));
    assert_eq!(positions(&valve), ((4, 0), (0, 0), 1));
}

#[test]
fn undo_and_redo_step_through_the_history() {
    let mut state = State::new();
    assert!(state.move_ring(RingDirection::Left));
    assert_eq!(positions(&state.valve), ((3, 1), (0, 1), 0));

    assert!(state.undo());
    assert_eq!(positions(&state.valve), ((4, 1), (0, 1), 0));
    assert!(!state.undo(), "undo past the beginning must fail");

    assert!(state.redo());
    assert_eq!(positions(&state.valve), ((3, 1), (0, 1), 0));
    assert!(!state.redo(), "redo past the end must fail");
}

#[test]
fn edit_after_undo_discards_the_undone_tail() {
    let mut state = State::new();
    assert!(state.move_ring(RingDirection::Left));
    assert!(state.undo());
    state.toggle_ring();
    assert!(state.move_ring(RingDirection::Right));
    assert_eq!(state.record.len(), 1);
    assert_eq!(state.record.cursor(), 1);
    assert!(!state.redo(), "the discarded move must not be redoable");
}

#[test]
fn history_round_trip_for_every_initially_legal_move() {
    let state = State::new();
    for muv in state.legal_moves() {
        let mut s = State::new();
        assert!(s.apply_if_legal(&muv));
        assert!(s.undo());
        assert_eq!(positions(&s.valve), ((4, 1), (0, 1), 0));
    }
}

#[test]
fn reset_restores_the_initial_configuration_and_clears_history() {
    let mut state = State::new();
    assert!(state.move_ring(RingDirection::Left));
    state.toggle_ring();
    assert!(state.move_ring(RingDirection::Right));
    assert!(state.undo());
    state.reset();
    assert_eq!(positions(&state.valve), ((4, 1), (0, 1), 0));
    assert_eq!(state.record.len(), 0);
    assert_eq!(state.record.cursor(), 0);
    assert!(state.move_inner);
    assert!(!state.undo());
    assert!(!state.redo());
}
