use pacbrow::cursor::{jump_cursor, last_position, move_cursor, BoundKind};

#[test]
fn editing_cursor_may_sit_past_the_end() {
    assert_eq!(move_cursor(3, 1, 4, BoundKind::Editing), 4);
    assert_eq!(move_cursor(4, 1, 4, BoundKind::Editing), 4);
}

#[test]
fn selection_cursor_stops_on_the_last_element() {
    assert_eq!(move_cursor(2, 1, 4, BoundKind::Selection), 3);
    assert_eq!(move_cursor(3, 1, 4, BoundKind::Selection), 3);
    assert_eq!(move_cursor(0, 10, 3, BoundKind::Selection), 2);
}

#[test]
fn cursor_saturates_at_zero() {
    assert_eq!(move_cursor(1, -1, 4, BoundKind::Editing), 0);
    assert_eq!(move_cursor(0, -1, 4, BoundKind::Editing), 0);
    assert_eq!(move_cursor(3, -10, 4, BoundKind::Selection), 0);
    assert_eq!(move_cursor(5, i32::MIN, 9, BoundKind::Selection), 0);
}

#[test]
fn empty_collection_clamps_to_zero() {
    assert_eq!(move_cursor(0, 1, 0, BoundKind::Selection), 0);
    assert_eq!(move_cursor(0, 1, 0, BoundKind::Editing), 0);
    assert_eq!(last_position(BoundKind::Selection, 0), 0);
    assert_eq!(last_position(BoundKind::Editing, 0), 0);
}

#[test]
fn large_moves_stay_in_range() {
    assert_eq!(move_cursor(7, i32::MAX, 10, BoundKind::Editing), 10);
    assert_eq!(move_cursor(usize::MAX, 1, usize::MAX, BoundKind::Editing), usize::MAX);
    assert_eq!(move_cursor(20, 0, 10, BoundKind::Selection), 9);
}

#[test]
fn every_move_sequence_stays_in_bounds() {
    let deltas = [3, -1, 10, -10, 1, 1, -2, 10];
    for len in 0..5usize {
        for kind in [BoundKind::Editing, BoundKind::Selection] {
            let mut cursor = 0usize;
            for d in deltas {
                cursor = move_cursor(cursor, d, len, kind);
                assert!(cursor <= last_position(kind, len));
            }
        }
    }
}

#[test]
fn jump_goes_to_nearest_valid_position() {
    assert_eq!(jump_cursor(0, 5, BoundKind::Selection), 0);
    assert_eq!(jump_cursor(4, 5, BoundKind::Selection), 4);
    assert_eq!(jump_cursor(9, 5, BoundKind::Selection), 4);
    assert_eq!(jump_cursor(9, 5, BoundKind::Editing), 5);
}
