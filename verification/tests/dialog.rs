use porecatu_ui::dialog::{
    close_tab_confirmation, close_window_confirmation, ConfirmDialog, DialogAction, DialogButton,
};
use porecatu_ui::ids::TabId;

fn dialog(action: DialogAction) -> ConfirmDialog {
    ConfirmDialog::new("t".to_owned(), "b".to_owned(), "Fechar".to_owned(), action)
}

#[test]
fn starts_focused_on_cancel() {
    let dialog = dialog(DialogAction::CloseWindow);
    assert_eq!(dialog.focused(), DialogButton::Cancel);
}

#[test]
fn toggle_focus_swaps_between_the_two_buttons() {
    let mut dialog = dialog(DialogAction::CloseWindow);
    dialog.toggle_focus();
    assert_eq!(dialog.focused(), DialogButton::Confirm);
    dialog.toggle_focus();
    assert_eq!(dialog.focused(), DialogButton::Cancel);
}

#[test]
fn new_keeps_its_texts_and_action() {
    let d = dialog(DialogAction::CloseTab(TabId::new(7)));
    assert_eq!(d.title, "t");
    assert_eq!(d.body, "b");
    assert_eq!(d.confirm_label, "Fechar");
    assert_eq!(d.action, DialogAction::CloseTab(TabId::new(7)));
}

#[test]
fn closing_a_busy_tab_asks_and_an_idle_one_does_not() {
    assert!(close_tab_confirmation(TabId::new(1), "zsh", false, false).is_none());
    let d = close_tab_confirmation(TabId::new(1), "htop", true, false).unwrap();
    assert_eq!(d.title, "Fechar aba?");
    assert_eq!(d.body, "\"htop\" tem um programa em primeiro plano. Fechar mesmo assim?");
    assert_eq!(d.confirm_label, "Fechar aba");
    assert_eq!(d.action, DialogAction::CloseTab(TabId::new(1)));
    assert_eq!(d.focused(), DialogButton::Cancel);
    assert!(close_tab_confirmation(TabId::new(1), "vim", false, true).is_some());
}

#[test]
fn closing_a_window_asks_only_with_more_than_one_tab() {
    assert!(close_window_confirmation(0).is_none());
    assert!(close_window_confirmation(1).is_none());
    let d = close_window_confirmation(2).unwrap();
    assert_eq!(d.title, "Fechar janela?");
    assert_eq!(d.body, "Esta janela tem mais de uma aba aberta.");
    assert_eq!(d.confirm_label, "Fechar janela");
    assert_eq!(d.action, DialogAction::CloseWindow);
}
