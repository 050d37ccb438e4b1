use porecatu_ui::ids::TabId;
use porecatu_ui::search_bar::{
    occurrences_in_view, scroll_delta_to_reveal, to_viewport_row, GridPos, Occurrence,
    SearchBarState, NO_RESULTS_LABEL, PATTERN_INVALID_LABEL,
};

fn occ(line: i32, from: usize, to: usize) -> Occurrence {
    Occurrence {
        start: GridPos { line, column: from },
        end: GridPos { line, column: to },
    }
}

#[test]
fn to_viewport_row_converts_and_clips() {
    assert_eq!(to_viewport_row(0, 0, 24), Some(0));
    assert_eq!(to_viewport_row(-5, 10, 24), Some(5));
    assert_eq!(to_viewport_row(-5, 2, 24), None, "acima do topo da vista");
    assert_eq!(to_viewport_row(30, 0, 24), None, "abaixo do fundo da vista");
}

#[test]
fn occurrences_in_view_marks_the_active_one_and_drops_out_of_view() {
    let occurrences = vec![occ(-3, 0, 2), occ(-100, 0, 2)];
    let mut spans = Vec::new();
    occurrences_in_view(&occurrences, 0, 10, 24, &mut spans);
    assert_eq!(spans.len(), 1, "a segunda está muito acima da vista");
    assert_eq!(spans[0].start_row, 7);
    assert!(spans[0].active);
}

#[test]
fn scroll_delta_is_zero_when_already_visible_below_the_bar() {
    assert_eq!(scroll_delta_to_reveal(5, 0, 24, 2), 0);
}

#[test]
fn scroll_delta_reveals_a_line_covered_by_the_bar() {
    assert_eq!(scroll_delta_to_reveal(0, 0, 24, 2), 2);
}

#[test]
fn scroll_delta_reveals_a_line_above_the_current_viewport() {
    assert_eq!(scroll_delta_to_reveal(-50, 0, 24, 2), 52);
}

#[test]
fn state_new_has_no_error_and_blank_counter() {
    let state = SearchBarState::new(TabId::new(0));
    assert_eq!(state.counter_display(), (String::new(), false));
    assert!(state.occurrences().is_empty());
}

#[test]
fn advance_without_occurrences_is_none() {
    let mut state = SearchBarState::new(TabId::new(0));
    assert_eq!(state.advance(true), None);
}

// --- further cases ---

#[test]
fn scroll_delta_reveals_a_line_below_the_viewport() {
    assert_eq!(scroll_delta_to_reveal(30, 0, 24, 2), -28);
}

#[test]
fn advance_wraps_in_both_directions() {
    let mut state = SearchBarState::new(TabId::new(1));
    state.set_query("ab".to_owned());
    state.record_restart(Ok((vec![occ(0, 0, 1), occ(1, 0, 1), occ(2, 0, 1)], false)));
    assert_eq!(state.active_index(), 0);
    assert_eq!(state.advance(false), Some(occ(2, 0, 1)));
    assert_eq!(state.advance(true), Some(occ(0, 0, 1)));
    assert_eq!(state.advance(true), Some(occ(1, 0, 1)));
    assert_eq!(state.counter_display(), ("2/3".to_owned(), false));
}

#[test]
fn an_invalid_pattern_keeps_the_last_valid_result() {
    let mut state = SearchBarState::new(TabId::new(1));
    state.set_query("a".to_owned());
    state.record_restart(Ok((vec![occ(0, 0, 0)], true)));
    assert!(state.scope_reduced());
    state.set_query("a(".to_owned());
    state.toggle_regex();
    assert!(state.is_regex());
    state.record_restart(Err("unclosed group".to_owned()));
    assert_eq!(state.occurrences().len(), 1);
    assert_eq!(state.counter_display(), (PATTERN_INVALID_LABEL.to_owned(), true));
}

#[test]
fn progress_appends_and_no_results_is_reported() {
    let mut state = SearchBarState::new(TabId::new(2));
    state.set_query("zz".to_owned());
    state.record_restart(Ok((Vec::new(), false)));
    assert_eq!(state.counter_display(), (NO_RESULTS_LABEL.to_owned(), false));
    state.record_progress(vec![occ(4, 1, 2)]);
    assert_eq!(state.occurrences(), &[occ(4, 1, 2)]);
    assert_eq!(state.counter_display(), ("1/1".to_owned(), false));
    assert_eq!(state.tab(), TabId::new(2));
    assert_eq!(state.query(), "zz");
}

#[test]
fn an_occurrence_crossing_the_viewport_edge_is_dropped() {
    let occurrences = vec![Occurrence {
        start: GridPos { line: 23, column: 5 },
        end: GridPos { line: 24, column: 1 },
    }];
    let mut spans = Vec::new();
    occurrences_in_view(&occurrences, 0, 0, 24, &mut spans);
    assert!(spans.is_empty());
}

#[test]
fn a_reduced_scope_is_told_after_the_counter() {
    let mut state = SearchBarState::new(TabId::new(3));
    assert_eq!(state.counter_label(), (String::new(), false));
    state.set_query("ls".to_owned());
    state.record_restart(Ok((vec![occ(0, 0, 1)], true)));
    assert_eq!(state.counter_label(), ("1/1 (tela alternativa)".to_owned(), false));
    state.record_restart(Ok((Vec::new(), true)));
    assert_eq!(state.counter_label(), ("nenhum resultado (tela alternativa)".to_owned(), false));
    state.record_restart(Err("bad".to_owned()));
    assert_eq!(state.counter_label(), ("padrão inválido".to_owned(), true));
}
