use gpui_ios::text_input::{
    character_range_at_point, character_range_by_extending, closest_position, compare_positions,
    direction_offset, document_length_from, marked_text_action, offset_from_position,
    position_from_position_direction, position_from_position_offset, position_within_range,
    selection_cursor, text_position_index, text_range_from_positions, text_range_is_empty,
    MarkedTextAction, NSRange,
};

#[test]
fn ns_range_not_found_is_invalid() {
    let r = NSRange { location: usize::MAX, length: 0 };
    assert!(!r.is_valid());
    assert_eq!(r.to_range(), None);
}

#[test]
fn ns_range_to_range_covers_length() {
    let r = NSRange { location: 3, length: 4 };
    assert!(r.is_valid());
    assert_eq!(r.to_range(), Some(3..7));
}

#[test]
fn ns_range_round_trip() {
    let r = NSRange::from(5..9);
    assert_eq!(r.location, 5);
    assert_eq!(r.length, 4);
    assert_eq!(r.to_range(), Some(5..9));
    let empty = NSRange::from(2..2);
    assert_eq!(empty.to_range(), Some(2..2));
}

#[test]
fn nil_position_reads_as_zero() {
    assert_eq!(text_position_index(None), 0);
    assert_eq!(text_position_index(Some(12)), 12);
}

#[test]
fn range_emptiness() {
    assert!(text_range_is_empty(&(4..4)));
    assert!(!text_range_is_empty(&(4..5)));
}

#[test]
fn range_from_positions_needs_both() {
    assert_eq!(text_range_from_positions(Some(1), Some(6)), Some(1..6));
    assert_eq!(text_range_from_positions(None, Some(6)), None);
    assert_eq!(text_range_from_positions(Some(1), None), None);
}

#[test]
fn offset_stays_inside_document() {
    assert_eq!(position_from_position_offset(Some(3), 2, 10), Some(5));
    assert_eq!(position_from_position_offset(Some(3), -3, 10), Some(0));
    assert_eq!(position_from_position_offset(Some(3), -4, 10), None);
    assert_eq!(position_from_position_offset(Some(3), 7, 10), Some(10));
    assert_eq!(position_from_position_offset(Some(3), 8, 10), None);
    assert_eq!(position_from_position_offset(None, 1, 10), None);
}

#[test]
fn direction_negates_left_and_up() {
    assert_eq!(direction_offset(1, 2), 2);
    assert_eq!(direction_offset(2, 2), -2);
    assert_eq!(direction_offset(3, 5), -5);
    assert_eq!(direction_offset(4, 5), 5);
    assert_eq!(direction_offset(9, 5), 5);
}

#[test]
fn position_by_direction() {
    assert_eq!(position_from_position_direction(Some(4), 2, 1, 10), Some(3));
    assert_eq!(position_from_position_direction(Some(4), 1, 1, 10), Some(5));
    assert_eq!(position_from_position_direction(Some(0), 3, 1, 10), None);
    assert_eq!(position_from_position_direction(None, 1, 1, 10), None);
}

#[test]
fn compare_orders_positions() {
    assert_eq!(compare_positions(1, 2), -1);
    assert_eq!(compare_positions(2, 2), 0);
    assert_eq!(compare_positions(3, 2), 1);
}

#[test]
fn offset_between_positions() {
    assert_eq!(offset_from_position(2, 7), 5);
    assert_eq!(offset_from_position(7, 2), -5);
    // Moving by the measured offset returns to the target position.
    let off = offset_from_position(2, 7);
    assert_eq!(position_from_position_offset(Some(2), off, 10), Some(7));
}

#[test]
fn position_within_range_picks_edge() {
    assert_eq!(position_within_range(Some(2..6), 2), Some(2));
    assert_eq!(position_within_range(Some(2..6), 3), Some(2));
    assert_eq!(position_within_range(Some(2..6), 1), Some(6));
    assert_eq!(position_within_range(Some(2..6), 4), Some(6));
    assert_eq!(position_within_range(None, 1), None);
}

#[test]
fn extending_clips_to_document() {
    assert_eq!(character_range_by_extending(Some(3), 1, 10), Some(3..4));
    assert_eq!(character_range_by_extending(Some(10), 1, 10), Some(10..10));
    assert_eq!(character_range_by_extending(Some(3), 2, 10), Some(2..3));
    assert_eq!(character_range_by_extending(Some(0), 2, 10), Some(0..0));
    assert_eq!(character_range_by_extending(None, 2, 10), None);
}

#[test]
fn closest_position_clamps_into_range() {
    assert_eq!(closest_position(Some(7), None), 7);
    assert_eq!(closest_position(None, None), 0);
    assert_eq!(closest_position(Some(1), Some(3..6)), 3);
    assert_eq!(closest_position(Some(9), Some(3..6)), 6);
    assert_eq!(closest_position(Some(4), Some(3..6)), 4);
    assert_eq!(closest_position(None, Some(3..6)), 3);
}

#[test]
fn character_at_point() {
    assert_eq!(character_range_at_point(Some(5)), Some(5..6));
    assert_eq!(character_range_at_point(None), None);
}

#[test]
fn document_length_from_adjusted_range() {
    assert_eq!(document_length_from(Some(0..42)), 42);
    // A handler that gives no text makes the document empty.
    assert_eq!(document_length_from(None), 0);
}

#[test]
fn offset_from_index_past_isize_max() {
    // The index is read as an isize, as UIKit's positions are.
    assert_eq!(position_from_position_offset(Some(usize::MAX), 1, 10), Some(0));
    assert_eq!(position_from_position_offset(Some(usize::MAX), 0, 10), None);
}

#[test]
fn offsets_are_antisymmetric() {
    for (a, b) in [(0usize, 9usize), (4, 4), (12, 3)] {
        assert_eq!(offset_from_position(a, b), -offset_from_position(b, a));
    }
}

#[test]
fn empty_marked_text_unmarks() {
    match marked_text_action(String::new(), NSRange { location: 0, length: 0 }) {
        MarkedTextAction::Unmark => {}
        other => panic!("unexpected {:?}", other),
    }
}

#[test]
fn marked_text_replaces_and_marks() {
    match marked_text_action("にほ".to_string(), NSRange { location: 2, length: 0 }) {
        MarkedTextAction::ReplaceAndMark { text, selected } => {
            assert_eq!(text, "にほ");
            assert_eq!(selected, Some(2..2));
        }
        other => panic!("unexpected {:?}", other),
    }
    match marked_text_action("a".to_string(), NSRange { location: usize::MAX, length: 0 }) {
        MarkedTextAction::ReplaceAndMark { selected, .. } => assert_eq!(selected, None),
        other => panic!("unexpected {:?}", other),
    }
}

#[test]
fn cursor_collapses_to_start() {
    assert_eq!(selection_cursor(&(4..9)), 4..4);
}
