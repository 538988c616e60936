use nyekis_search::selection::{
    logical_to_visual, visual_row_count, visual_to_logical, Motion, SelectionState,
};

#[test]
fn new_selection_is_on_the_first_result() {
    let selection = SelectionState::new();
    assert_eq!(selection.index, 0);
    assert_eq!(selection.selected(3), Some(0));
}

#[test]
fn next_advances_by_one_and_stops_at_the_end() {
    let mut selection = SelectionState::new();
    selection.next(3);
    assert_eq!(selection.index, 1);
    selection.next(3);
    assert_eq!(selection.index, 2);
    selection.next(3);
    assert_eq!(selection.index, 2);
}

#[test]
fn previous_goes_back_by_one_and_stops_at_the_start() {
    let mut selection = SelectionState { index: 2 };
    selection.previous(3);
    assert_eq!(selection.index, 1);
    selection.previous(3);
    assert_eq!(selection.index, 0);
    selection.previous(3);
    assert_eq!(selection.index, 0);
}

#[test]
fn first_and_last_jump_to_the_ends() {
    let mut selection = SelectionState { index: 1 };
    selection.last(5);
    assert_eq!(selection.index, 4);
    selection.last(5);
    assert_eq!(selection.index, 4);
    selection.first(5);
    assert_eq!(selection.index, 0);
    selection.first(5);
    assert_eq!(selection.index, 0);
}

#[test]
fn nothing_moves_in_an_empty_list() {
    let mut selection = SelectionState::new();
    selection.next(0);
    assert_eq!(selection.index, 0);
    selection.previous(0);
    assert_eq!(selection.index, 0);
    selection.first(0);
    assert_eq!(selection.index, 0);
    selection.last(0);
    assert_eq!(selection.index, 0);
    assert_eq!(selection.selected(0), None);
}

#[test]
fn a_single_result_stays_selected() {
    let mut selection = SelectionState::new();
    for motion in [Motion::Next, Motion::Previous, Motion::Last, Motion::First] {
        selection.apply(motion, 1);
        assert_eq!(selection.index, 0);
    }
}

#[test]
fn a_selection_past_the_end_is_brought_back_inside() {
    let mut selection = SelectionState { index: 10 };
    selection.next(3);
    assert_eq!(selection.index, 2);

    let mut selection = SelectionState { index: 10 };
    selection.previous(3);
    assert_eq!(selection.index, 2);

    let mut selection = SelectionState { index: 3 };
    selection.previous(3);
    assert_eq!(selection.index, 2);

    let selection = SelectionState { index: 3 };
    assert_eq!(selection.selected(3), None);
}

#[test]
fn next_at_the_largest_index_does_not_overflow() {
    let mut selection = SelectionState { index: usize::MAX };
    selection.next(usize::MAX);
    assert_eq!(selection.index, usize::MAX - 1);
}

#[test]
fn apply_does_what_the_named_motion_does() {
    let mut selection = SelectionState::new();
    selection.apply(Motion::Next, 4);
    assert_eq!(selection.index, 1);
    selection.apply(Motion::Last, 4);
    assert_eq!(selection.index, 3);
    selection.apply(Motion::Previous, 4);
    assert_eq!(selection.index, 2);
    selection.apply(Motion::First, 4);
    assert_eq!(selection.index, 0);
}

#[test]
fn every_sequence_of_motions_stays_inside_the_list() {
    let motions = [Motion::Next, Motion::Previous, Motion::First, Motion::Last];
    for item_count in 1..5usize {
        for a in motions {
            for b in motions {
                for c in motions {
                    for d in motions {
                        let mut selection = SelectionState::new();
                        for motion in [a, b, c, d] {
                            selection.apply(motion, item_count);
                            assert!(selection.index < item_count);
                        }
                    }
                }
            }
        }
    }
}

#[test]
fn results_sit_on_even_rows() {
    assert_eq!(logical_to_visual(0), 0);
    assert_eq!(logical_to_visual(1), 2);
    assert_eq!(logical_to_visual(2), 4);
    assert_eq!(logical_to_visual(7), 14);
}

#[test]
fn rows_lead_back_to_their_results() {
    assert_eq!(visual_to_logical(0), 0);
    assert_eq!(visual_to_logical(1), 0);
    assert_eq!(visual_to_logical(2), 1);
    assert_eq!(visual_to_logical(3), 1);
    assert_eq!(visual_to_logical(4), 2);
    assert_eq!(visual_to_logical(usize::MAX), usize::MAX / 2);
}

#[test]
fn row_and_result_round_trip() {
    for index in 0..100usize {
        assert_eq!(visual_to_logical(logical_to_visual(index)), index);
    }
}

#[test]
fn row_count_has_one_gap_between_each_two_results() {
    assert_eq!(visual_row_count(0), 0);
    assert_eq!(visual_row_count(1), 1);
    assert_eq!(visual_row_count(2), 3);
    assert_eq!(visual_row_count(3), 5);
    assert_eq!(visual_row_count(10), 19);
}
