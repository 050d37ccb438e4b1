use porecatu_ui::group_editor::{EditorRegion, GroupEditor};
use porecatu_ui::group_menu::GroupAction;
use porecatu_ui::ids::GroupId;

fn g() -> GroupId {
    GroupId::new(0)
}

#[test]
fn new_starts_with_given_focus_and_name() {
    let editor = GroupEditor::new(g(), "trabalho", 2, EditorRegion::Swatches);
    assert_eq!(editor.focus(), EditorRegion::Swatches);
    assert_eq!(editor.name_buffer(), "trabalho");
    assert_eq!(editor.swatch_highlight(), 2);
}

#[test]
fn push_char_and_backspace_only_affect_buffer_in_name_focus() {
    let mut editor = GroupEditor::new(g(), "", 0, EditorRegion::Swatches);
    editor.push_char('x');
    assert_eq!(editor.name_buffer(), "");
    editor.set_focus(EditorRegion::Name);
    editor.push_char('x');
    editor.push_char('y');
    assert_eq!(editor.name_buffer(), "xy");
    editor.backspace();
    assert_eq!(editor.name_buffer(), "x");
}

#[test]
fn cycle_focus_forward_goes_through_all_three_and_wraps() {
    let mut editor = GroupEditor::new(g(), "", 0, EditorRegion::Name);
    editor.cycle_focus(true);
    assert_eq!(editor.focus(), EditorRegion::Swatches);
    editor.cycle_focus(true);
    assert_eq!(editor.focus(), EditorRegion::Actions);
    editor.cycle_focus(true);
    assert_eq!(editor.focus(), EditorRegion::Name);
}

#[test]
fn cycle_focus_backward_wraps() {
    let mut editor = GroupEditor::new(g(), "", 0, EditorRegion::Name);
    editor.cycle_focus(false);
    assert_eq!(editor.focus(), EditorRegion::Actions);
}

#[test]
fn move_highlight_in_swatches_wraps_at_six() {
    let mut editor = GroupEditor::new(g(), "", 5, EditorRegion::Swatches);
    editor.move_highlight(1);
    assert_eq!(editor.swatch_highlight(), 0);
    editor.move_highlight(-1);
    assert_eq!(editor.swatch_highlight(), 5);
}

#[test]
fn move_highlight_in_actions_wraps_at_three() {
    let mut editor = GroupEditor::new(g(), "", 0, EditorRegion::Actions);
    editor.move_highlight(-1);
    assert_eq!(editor.action_highlight(), 2);
    assert_eq!(editor.selected_action(), GroupAction::CloseAll);
}

#[test]
fn move_highlight_in_name_region_is_noop() {
    let mut editor = GroupEditor::new(g(), "", 0, EditorRegion::Name);
    editor.move_highlight(1);
    assert_eq!(editor.swatch_highlight(), 0);
    assert_eq!(editor.action_highlight(), 0);
}

#[test]
fn selected_action_starts_at_toggle_collapse() {
    let editor = GroupEditor::new(g(), "", 0, EditorRegion::Actions);
    assert_eq!(editor.selected_action(), GroupAction::ToggleCollapse);
}

#[test]
fn a_colour_index_past_the_strip_is_clamped_to_the_last_swatch() {
    let editor = GroupEditor::new(g(), "", 42, EditorRegion::Swatches);
    assert_eq!(editor.swatch_highlight(), 5);
}

#[test]
fn backspace_on_an_empty_name_is_a_noop() {
    let mut editor = GroupEditor::new(g(), "", 0, EditorRegion::Name);
    editor.backspace();
    assert_eq!(editor.name_buffer(), "");
}

#[test]
fn set_highlights_ignore_out_of_range_indices() {
    let mut editor = GroupEditor::new(g(), "", 1, EditorRegion::Swatches);
    editor.set_swatch_highlight(6);
    assert_eq!(editor.swatch_highlight(), 1);
    editor.set_swatch_highlight(4);
    assert_eq!(editor.swatch_highlight(), 4);
    editor.set_action_highlight(3);
    assert_eq!(editor.action_highlight(), 0);
    editor.set_action_highlight(1);
    assert_eq!(editor.selected_action(), GroupAction::Dissolve);
}
