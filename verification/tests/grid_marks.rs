use porecatu_ui::grid_marks::{is_selected, occurrence_at, SelectionSpan};
use porecatu_ui::search_bar::OccurrenceSpan;

fn span(sr: usize, sc: usize, er: usize, ec: usize, is_block: bool) -> SelectionSpan {
    SelectionSpan { start_row: sr, start_col: sc, end_row: er, end_col: ec, is_block }
}

#[test]
fn no_selection_marks_nothing() {
    assert!(!is_selected(None, 0, 0));
}

#[test]
fn a_linear_selection_follows_the_text_flow() {
    let s = Some(span(1, 5, 3, 2, false));
    assert!(!is_selected(s, 1, 4));
    assert!(is_selected(s, 1, 5));
    assert!(is_selected(s, 1, 79));
    assert!(is_selected(s, 2, 0));
    assert!(is_selected(s, 3, 2));
    assert!(!is_selected(s, 3, 3));
    assert!(!is_selected(s, 0, 6));
    assert!(!is_selected(s, 4, 0));
}

#[test]
fn a_block_selection_is_a_rectangle() {
    let s = Some(span(1, 5, 3, 7, true));
    assert!(is_selected(s, 2, 6));
    assert!(!is_selected(s, 2, 4));
    assert!(!is_selected(s, 2, 8));
    assert!(is_selected(s, 1, 7));
}

#[test]
fn a_single_row_selection_is_bounded_on_both_sides() {
    let s = Some(span(2, 3, 2, 5, false));
    assert!(is_selected(s, 2, 3));
    assert!(!is_selected(s, 2, 6));
    assert!(!is_selected(s, 2, 2));
}

#[test]
fn the_first_covering_occurrence_says_whether_it_is_active() {
    let occ = |sr, sc, er, ec, active| OccurrenceSpan {
        start_row: sr,
        start_col: sc,
        end_row: er,
        end_col: ec,
        active,
    };
    let occs = [occ(0, 2, 0, 4, false), occ(0, 4, 1, 1, true)];
    assert_eq!(occurrence_at(&occs, 0, 3), Some(false));
    assert_eq!(occurrence_at(&occs, 0, 4), Some(false));
    assert_eq!(occurrence_at(&occs, 0, 9), Some(true));
    assert_eq!(occurrence_at(&occs, 1, 1), Some(true));
    assert_eq!(occurrence_at(&occs, 1, 2), None);
    assert_eq!(occurrence_at(&[], 0, 0), None);
}
