use porecatu_ui::context_menu::{ContextMenu, MenuAction};
use porecatu_ui::dialog::{ConfirmDialog, DialogAction, DialogButton};
use porecatu_ui::group_editor::{EditorRegion, GroupEditor};
use porecatu_ui::group_menu::{GroupAction, GroupContextMenu};
use porecatu_ui::ids::{GroupId, TabId};
use porecatu_ui::keymap::{Key, NamedKey};
use porecatu_ui::move_to_group::{MoveTarget, MoveToGroupPopover};
use porecatu_ui::popover_input::{
    context_menu_click, context_menu_key, dialog_click, dialog_key, group_editor_click,
    group_editor_key, group_menu_click, group_menu_key, move_to_group_click, move_to_group_key,
    GroupEditorHit, GroupEditorOutcome, key_target, KeyTarget, ModalState,
    click_target, is_secondary_click, ClickTarget, PointerPlace,
};
use porecatu_ui::input::PointerButton;

fn named(n: NamedKey) -> Key {
    Key::Named(n)
}

fn dialog() -> Option<ConfirmDialog> {
    Some(ConfirmDialog::new(
        "t".to_owned(),
        "b".to_owned(),
        "Fechar".to_owned(),
        DialogAction::CloseTab(TabId::new(4)),
    ))
}

#[test]
fn enter_on_the_initial_focus_cancels() {
    let mut d = dialog();
    assert_eq!(dialog_key(&mut d, true, &named(NamedKey::Enter)), None);
    assert!(d.is_none());
}

#[test]
fn tab_then_enter_confirms() {
    let mut d = dialog();
    assert_eq!(dialog_key(&mut d, true, &named(NamedKey::Tab)), None);
    assert_eq!(d.as_ref().unwrap().focused(), DialogButton::Confirm);
    assert_eq!(
        dialog_key(&mut d, true, &named(NamedKey::Enter)),
        Some(DialogAction::CloseTab(TabId::new(4)))
    );
    assert!(d.is_none());
}

#[test]
fn escape_closes_and_releases_are_ignored() {
    let mut d = dialog();
    assert_eq!(dialog_key(&mut d, false, &named(NamedKey::Escape)), None);
    assert!(d.is_some());
    assert_eq!(dialog_key(&mut d, true, &Key::Character("x".to_owned())), None);
    assert!(d.is_some());
    assert_eq!(dialog_key(&mut d, true, &named(NamedKey::Escape)), None);
    assert!(d.is_none());
}

#[test]
fn context_menu_arrows_then_enter() {
    let mut m = Some(ContextMenu::new(TabId::new(0), ()));
    assert_eq!(context_menu_key(&mut m, true, &named(NamedKey::ArrowDown)), None);
    assert_eq!(context_menu_key(&mut m, true, &named(NamedKey::Enter)), Some(MenuAction::CloseTab));
    assert!(m.is_none());
    let mut none: Option<ContextMenu<()>> = None;
    assert_eq!(context_menu_key(&mut none, true, &named(NamedKey::Enter)), None);
}

#[test]
fn group_menu_wraps_upwards_to_the_last_action() {
    let mut m = Some(GroupContextMenu::new(GroupId::new(1), ()));
    assert_eq!(group_menu_key(&mut m, true, &named(NamedKey::ArrowUp)), None);
    assert_eq!(group_menu_key(&mut m, true, &named(NamedKey::Enter)), Some(GroupAction::Dissolve));
}

#[test]
fn move_to_group_enter_yields_the_highlighted_target() {
    let mut p = Some(MoveToGroupPopover::new(TabId::new(0), (), vec![GroupId::new(8)]));
    assert_eq!(move_to_group_key(&mut p, true, &named(NamedKey::ArrowUp)), None);
    assert_eq!(move_to_group_key(&mut p, true, &named(NamedKey::Enter)), Some(MoveTarget::NewGroup));
    let mut q = Some(MoveToGroupPopover::new(TabId::new(0), (), vec![GroupId::new(8)]));
    assert_eq!(move_to_group_key(&mut q, true, &named(NamedKey::Escape)), None);
    assert!(q.is_none());
}

#[test]
fn group_editor_types_renames_and_closes() {
    let mut e = Some(GroupEditor::new(GroupId::new(2), "ab", 0, EditorRegion::Name));
    let out = group_editor_key(&mut e, true, &Key::Character("c".to_owned()), false, Some("c\u{7}"));
    assert_eq!(out, GroupEditorOutcome::Nothing);
    assert_eq!(e.as_ref().unwrap().name_buffer(), "abc");
    group_editor_key(&mut e, true, &named(NamedKey::Backspace), false, None);
    assert_eq!(
        group_editor_key(&mut e, true, &named(NamedKey::Enter), false, None),
        GroupEditorOutcome::Rename(GroupId::new(2), "ab".to_owned())
    );
    assert!(e.is_none());
}

#[test]
fn group_editor_enter_in_swatches_and_actions_keeps_it_open() {
    let mut e = Some(GroupEditor::new(GroupId::new(2), "g", 3, EditorRegion::Swatches));
    group_editor_key(&mut e, true, &named(NamedKey::ArrowDown), false, None);
    assert_eq!(
        group_editor_key(&mut e, true, &named(NamedKey::Enter), false, None),
        GroupEditorOutcome::SetColor(GroupId::new(2), 4)
    );
    group_editor_key(&mut e, true, &named(NamedKey::Tab), false, None);
    assert_eq!(e.as_ref().unwrap().focus(), EditorRegion::Actions);
    group_editor_key(&mut e, true, &named(NamedKey::ArrowUp), false, None);
    assert_eq!(
        group_editor_key(&mut e, true, &named(NamedKey::Enter), false, None),
        GroupEditorOutcome::Action(GroupId::new(2), GroupAction::CloseAll)
    );
    group_editor_key(&mut e, true, &named(NamedKey::Tab), true, None);
    assert_eq!(e.as_ref().unwrap().focus(), EditorRegion::Swatches);
    group_editor_key(&mut e, true, &Key::Character("z".to_owned()), false, Some("z"));
    assert_eq!(e.as_ref().unwrap().name_buffer(), "g");
}

#[test]
fn a_left_click_on_confirm_runs_the_action_and_other_buttons_keep_the_dialog() {
    let mut d = dialog();
    assert_eq!(dialog_click(&mut d, false, Some(DialogButton::Confirm)), None);
    assert!(d.is_some());
    assert_eq!(
        dialog_click(&mut d, true, Some(DialogButton::Confirm)),
        Some(DialogAction::CloseTab(TabId::new(4)))
    );
    assert!(d.is_none());
    let mut d2 = dialog();
    assert_eq!(dialog_click(&mut d2, true, None), None);
    assert!(d2.is_none());
}

#[test]
fn menu_clicks_close_and_run_only_enabled_items() {
    let mut m = Some(ContextMenu::new(TabId::new(0), ()));
    assert_eq!(context_menu_click(&mut m, true, Some(2)), None);
    assert!(m.is_none());
    let mut m = Some(ContextMenu::new(TabId::new(0), ()));
    assert_eq!(context_menu_click(&mut m, true, Some(1)), Some(MenuAction::CloseTab));
    let mut g = Some(GroupContextMenu::new(GroupId::new(1), ()));
    assert_eq!(group_menu_click(&mut g, true, Some(4)), Some(GroupAction::CloseAll));
    assert!(g.is_none());
    let mut g = Some(GroupContextMenu::new(GroupId::new(1), ()));
    assert_eq!(group_menu_click(&mut g, false, Some(4)), None);
    assert!(g.is_none());
}

#[test]
fn a_row_click_moves_the_tab_to_that_row() {
    let mut p = Some(MoveToGroupPopover::new(TabId::new(3), (), vec![GroupId::new(8), GroupId::new(9)]));
    assert_eq!(
        move_to_group_click(&mut p, true, Some(1)),
        Some((TabId::new(3), MoveTarget::Group(GroupId::new(9))))
    );
    assert!(p.is_none());
    let mut p = Some(MoveToGroupPopover::new(TabId::new(3), (), vec![GroupId::new(8)]));
    assert_eq!(
        move_to_group_click(&mut p, true, Some(1)),
        Some((TabId::new(3), MoveTarget::NewGroup))
    );
    let mut p = Some(MoveToGroupPopover::new(TabId::new(3), (), vec![GroupId::new(8)]));
    assert_eq!(move_to_group_click(&mut p, true, None), None);
    assert!(p.is_none());
}

#[test]
fn editor_clicks_focus_highlight_and_report() {
    let mut e = Some(GroupEditor::new(GroupId::new(5), "x", 0, EditorRegion::Name));
    assert_eq!(
        group_editor_click(&mut e, true, Some(GroupEditorHit::Swatch(3))),
        GroupEditorOutcome::SetColor(GroupId::new(5), 3)
    );
    assert_eq!(e.as_ref().unwrap().focus(), EditorRegion::Swatches);
    assert_eq!(e.as_ref().unwrap().swatch_highlight(), 3);
    assert_eq!(
        group_editor_click(&mut e, true, Some(GroupEditorHit::Action(1))),
        GroupEditorOutcome::Action(GroupId::new(5), GroupAction::Dissolve)
    );
    assert_eq!(
        group_editor_click(&mut e, true, Some(GroupEditorHit::NameField)),
        GroupEditorOutcome::Nothing
    );
    assert_eq!(e.as_ref().unwrap().focus(), EditorRegion::Name);
    assert_eq!(group_editor_click(&mut e, true, None), GroupEditorOutcome::Nothing);
    assert!(e.is_none());
}

fn nothing_open() -> ModalState {
    ModalState {
        dialog: false,
        context_menu: false,
        group_menu: false,
        group_editor: false,
        move_to_group: false,
        dragging: false,
        renaming: false,
        warnings: false,
        selection: false,
    }
}

#[test]
fn the_capture_chain_follows_its_order() {
    let esc = named(NamedKey::Escape);
    let a = Key::Character("a".to_owned());
    let mut s = nothing_open();
    assert_eq!(key_target(s, true, &esc), KeyTarget::TabAction);
    s.selection = true;
    assert_eq!(key_target(s, true, &esc), KeyTarget::ClearSelection);
    assert_eq!(key_target(s, false, &esc), KeyTarget::TabAction);
    assert_eq!(key_target(s, true, &a), KeyTarget::TabAction);
    s.warnings = true;
    assert_eq!(key_target(s, true, &esc), KeyTarget::DismissWarning);
    s.renaming = true;
    assert_eq!(key_target(s, true, &esc), KeyTarget::Rename);
    assert_eq!(key_target(s, true, &a), KeyTarget::Rename);
    s.dragging = true;
    assert_eq!(key_target(s, true, &esc), KeyTarget::CancelDrag);
    assert_eq!(key_target(s, true, &a), KeyTarget::Rename);
    s.move_to_group = true;
    assert_eq!(key_target(s, true, &esc), KeyTarget::MoveToGroup);
    s.group_editor = true;
    assert_eq!(key_target(s, false, &a), KeyTarget::GroupEditor);
    s.group_menu = true;
    assert_eq!(key_target(s, true, &a), KeyTarget::GroupMenu);
    s.context_menu = true;
    assert_eq!(key_target(s, true, &a), KeyTarget::ContextMenu);
    s.dialog = true;
    assert_eq!(key_target(s, true, &esc), KeyTarget::Dialog);
}

fn place(in_bar: bool) -> PointerPlace {
    PointerPlace { in_bar, over_warning: false, at_resize_border: false, over_window_button: false }
}

#[test]
fn the_mouse_capture_chain_follows_its_order() {
    let left = PointerButton::Left;
    let mut s = nothing_open();
    assert_eq!(click_target(s, true, false, left, false, false, place(true)), ClickTarget::FinishDrag);
    assert_eq!(click_target(s, false, false, left, false, false, place(false)), ClickTarget::TerminalRelease);
    assert_eq!(click_target(s, false, false, left, false, false, place(true)), ClickTarget::Nothing);
    assert_eq!(click_target(s, false, true, left, false, false, place(false)), ClickTarget::Terminal);
    assert_eq!(click_target(s, false, true, left, false, false, place(true)), ClickTarget::BarClick);
    assert_eq!(
        click_target(s, false, true, PointerButton::Right, false, false, place(true)),
        ClickTarget::SecondaryBarClick
    );
    assert_eq!(click_target(s, false, true, left, true, true, place(true)), ClickTarget::SecondaryBarClick);
    assert_eq!(click_target(s, false, true, left, true, false, place(true)), ClickTarget::BarClick);
    assert_eq!(
        click_target(s, false, true, PointerButton::Middle, false, false, place(true)),
        ClickTarget::Nothing
    );
    let mut border = place(true);
    border.at_resize_border = true;
    assert_eq!(click_target(s, false, true, left, false, false, border), ClickTarget::ResizeWindow);
    border.over_window_button = true;
    assert_eq!(click_target(s, false, true, left, false, false, border), ClickTarget::BarClick);
    let mut warn = border;
    warn.over_warning = true;
    assert_eq!(click_target(s, false, true, left, false, false, warn), ClickTarget::Warning);
    s.move_to_group = true;
    assert_eq!(click_target(s, false, true, left, false, false, warn), ClickTarget::MoveToGroup);
    s.group_editor = true;
    assert_eq!(click_target(s, false, true, left, false, false, warn), ClickTarget::GroupEditor);
    s.group_menu = true;
    assert_eq!(click_target(s, false, true, left, false, false, warn), ClickTarget::GroupMenu);
    s.context_menu = true;
    assert_eq!(click_target(s, false, true, left, false, false, warn), ClickTarget::ContextMenu);
    s.dialog = true;
    assert_eq!(click_target(s, false, true, left, false, false, warn), ClickTarget::Dialog);
    assert!(is_secondary_click(PointerButton::Right, false, false));
    assert!(!is_secondary_click(PointerButton::Left, true, false));
}
