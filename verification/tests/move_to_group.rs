use porecatu_ui::ids::{GroupId, TabId};
use porecatu_ui::move_to_group::{visible_window, MoveTarget, MoveToGroupPopover};

fn g(n: u32) -> GroupId {
    GroupId::new(n)
}

#[test]
fn new_group_is_always_the_last_row() {
    let popover = MoveToGroupPopover::new(TabId::new(0), (0.0, 0.0), vec![g(1), g(2)]);
    assert_eq!(popover.row_count(), 3);
    let mut popover = popover;
    popover.set_highlight(2);
    assert_eq!(popover.selected(), MoveTarget::NewGroup);
}

#[test]
fn empty_targets_still_offer_new_group() {
    let popover = MoveToGroupPopover::new(TabId::new(0), (0.0, 0.0), vec![]);
    assert_eq!(popover.row_count(), 1);
    assert_eq!(popover.selected(), MoveTarget::NewGroup);
}

#[test]
fn move_highlight_wraps_across_all_rows() {
    let mut popover = MoveToGroupPopover::new(TabId::new(0), (0.0, 0.0), vec![g(1)]);
    assert_eq!(popover.selected(), MoveTarget::Group(g(1)));
    popover.move_highlight(-1);
    assert_eq!(popover.selected(), MoveTarget::NewGroup);
    popover.move_highlight(1);
    assert_eq!(popover.selected(), MoveTarget::Group(g(1)));
}

#[test]
fn set_highlight_ignores_out_of_range() {
    let mut popover = MoveToGroupPopover::new(TabId::new(0), (0.0, 0.0), vec![g(1)]);
    popover.set_highlight(99);
    assert_eq!(popover.selected(), MoveTarget::Group(g(1)));
}

#[test]
fn the_window_shows_every_row_when_they_fit() {
    assert_eq!(visible_window(3, 8, 2), (3, 0));
}

#[test]
fn the_window_scrolls_just_enough_to_show_the_highlight() {
    assert_eq!(visible_window(20, 8, 0), (8, 0));
    assert_eq!(visible_window(20, 8, 7), (8, 0));
    assert_eq!(visible_window(20, 8, 8), (8, 1));
    assert_eq!(visible_window(20, 8, 19), (8, 12));
}

#[test]
fn a_window_of_no_rows_never_scrolls_past_the_end() {
    assert_eq!(visible_window(5, 0, 3), (0, 3));
    assert_eq!(visible_window(5, 0, 9), (0, 5));
}
