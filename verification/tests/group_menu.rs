use porecatu_ui::group_menu::{
    editor_action_order, group_action_items, group_action_order, GroupAction, GroupContextMenu,
};
use porecatu_ui::ids::GroupId;

fn g(n: u32) -> GroupId {
    GroupId::new(n)
}

#[test]
fn group_action_items_toggle_collapse_label_reflects_state() {
    let expanded = group_action_items(false, 3);
    let collapsed = group_action_items(true, 3);
    assert_eq!(expanded[2].label, "Colapsar grupo");
    assert_eq!(collapsed[2].label, "Expandir grupo");
}

#[test]
fn group_action_items_close_all_label_counts_tabs_and_pluralizes() {
    let one = group_action_items(false, 1);
    let many = group_action_items(false, 4);
    assert_eq!(one[4].label, "Fechar grupo (1 aba)");
    assert_eq!(many[4].label, "Fechar grupo (4 abas)");
    assert!(one[4].destructive);
}

#[test]
fn group_action_items_order_matches_rf_2_22() {
    let items = group_action_items(false, 0);
    let actions: Vec<GroupAction> = items.iter().map(|i| i.action).collect();
    assert_eq!(actions, group_action_order());
}

#[test]
fn editor_action_order_is_subset_in_spec_order() {
    assert_eq!(
        editor_action_order(),
        [
            GroupAction::ToggleCollapse,
            GroupAction::Dissolve,
            GroupAction::CloseAll,
        ]
    );
}

#[test]
fn group_context_menu_starts_at_first_item() {
    let menu = GroupContextMenu::new(g(1), (0.0, 0.0));
    assert_eq!(menu.highlighted(), 0);
    assert_eq!(menu.selected(), GroupAction::Rename);
}

#[test]
fn group_context_menu_move_highlight_wraps() {
    let mut menu = GroupContextMenu::new(g(1), (0.0, 0.0));
    menu.move_highlight(-1);
    assert_eq!(menu.selected(), GroupAction::Dissolve);
    menu.move_highlight(1);
    assert_eq!(menu.selected(), GroupAction::Rename);
}

#[test]
fn group_context_menu_set_highlight_ignores_out_of_range() {
    let mut menu = GroupContextMenu::new(g(1), (0.0, 0.0));
    menu.set_highlight(99);
    assert_eq!(menu.selected(), GroupAction::Rename);
    menu.set_highlight(3);
    assert_eq!(menu.selected(), GroupAction::NewTab);
}

#[test]
fn zero_tabs_is_plural() {
    let items = group_action_items(false, 0);
    assert_eq!(items[4].label, "Fechar grupo (0 abas)");
    assert_eq!(items[0].label, "Renomear");
    assert_eq!(items[1].label, "Mudar cor");
    assert_eq!(items[3].label, "Nova aba no grupo");
    assert_eq!(items[5].label, "Desagrupar");
    assert!(items.iter().filter(|i| i.destructive).count() == 1);
}
