use porecatu_ui::context_menu::{first_enabled_index, tab_menu_items, ContextMenu, MenuAction};
use porecatu_ui::ids::TabId;

#[test]
fn starts_highlighting_first_enabled_item() {
    let menu = ContextMenu::new(TabId::new(0), (0.0, 0.0));
    assert_eq!(menu.highlighted(), 0);
    assert_eq!(menu.selected(), MenuAction::NewTab);
}

#[test]
fn move_highlight_skips_disabled_items() {
    let mut menu = ContextMenu::new(TabId::new(0), (0.0, 0.0));
    menu.move_highlight(1);
    assert_eq!(menu.selected(), MenuAction::CloseTab);
    menu.move_highlight(1);
    assert_eq!(menu.selected(), MenuAction::NewTab);
}

#[test]
fn move_highlight_backwards_wraps_to_last_enabled() {
    let mut menu = ContextMenu::new(TabId::new(0), (0.0, 0.0));
    menu.move_highlight(-1);
    assert_eq!(menu.selected(), MenuAction::CloseTab);
}

#[test]
fn set_highlight_ignores_disabled_index() {
    let mut menu = ContextMenu::new(TabId::new(0), (0.0, 0.0));
    menu.set_highlight(2);
    assert_eq!(menu.selected(), MenuAction::NewTab);
    menu.set_highlight(1);
    assert_eq!(menu.selected(), MenuAction::CloseTab);
}

#[test]
fn tab_menu_lists_three_items_with_move_dimmed() {
    let items = tab_menu_items();
    assert_eq!(items[0].action, MenuAction::NewTab);
    assert_eq!(items[1].action, MenuAction::CloseTab);
    assert_eq!(items[2].action, MenuAction::MoveToGroup);
    assert!(items[0].enabled && items[1].enabled && !items[2].enabled);
    assert_eq!(first_enabled_index(), 0);
}

#[test]
fn set_highlight_past_the_end_is_ignored() {
    let mut menu = ContextMenu::new(TabId::new(0), (0.0, 0.0));
    menu.set_highlight(1);
    menu.set_highlight(9);
    assert_eq!(menu.selected(), MenuAction::CloseTab);
}
