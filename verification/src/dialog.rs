//! Confirmation dialog: modal per window, initial focus on the safe button.
use vstd::prelude::*;

use crate::ids::TabId;
use vstd::string::StringExecFns;

verus! {

broadcast use vstd::string::group_string_axioms;

/// The two buttons of a confirmation dialog.
#[derive(Debug, Clone, Copy, PartialEq, Eq, Structural)]
pub enum DialogButton {
    Cancel,
    Confirm,
}

/// What confirming actually does; resolved by the application.
#[derive(Debug, Clone, Copy, PartialEq, Eq, Structural)]
pub enum DialogAction {
    CloseTab(TabId),
    CloseWindow,
}

/// A confirmation dialog: plain data, no captured application state.
#[derive(Debug)]
pub struct ConfirmDialog {
    pub title: String,
    pub body: String,
    pub confirm_label: String,
    pub action: DialogAction,
    /// The button that `Enter` activates.
    pub focused: DialogButton,
}

impl ConfirmDialog {
    pub open spec fn focused_spec(&self) -> DialogButton {
        self.focused
    }

    /// Opens focused on `Cancel`: `Enter` right away never confirms.
    pub fn new(title: String, body: String, confirm_label: String, action: DialogAction) -> (d: Self)
        ensures
            d.title@ == title@,
            d.body@ == body@,
            d.confirm_label@ == confirm_label@,
            d.action == action,
            d.focused_spec() == DialogButton::Cancel,
    {
        ConfirmDialog { title, body, confirm_label, action, focused: DialogButton::Cancel }
    }

    pub fn focused(&self) -> (b: DialogButton)
        ensures
            b == self.focused_spec(),
    {
        self.focused
    }

    /// Swaps the focus between the two buttons.
    pub fn toggle_focus(&mut self)
        ensures
            final(self).focused_spec() == (match old(self).focused_spec() {
                DialogButton::Cancel => DialogButton::Confirm,
                DialogButton::Confirm => DialogButton::Cancel,
            }),
            final(self).title == old(self).title,
            final(self).body == old(self).body,
            final(self).confirm_label == old(self).confirm_label,
            final(self).action == old(self).action,
    {
        self.focused = match self.focused {
            DialogButton::Cancel => DialogButton::Confirm,
            DialogButton::Confirm => DialogButton::Cancel,
        };
    }
}

/// Toggling the focus twice gives back the focus it started with.
pub proof fn lemma_toggle_twice_restores(b: DialogButton)
    ensures
        toggled(toggled(b)) == b,
{
}

pub open spec fn toggled(b: DialogButton) -> DialogButton {
    match b {
        DialogButton::Cancel => DialogButton::Confirm,
        DialogButton::Confirm => DialogButton::Cancel,
    }
}

/// Closing a tab asks first when a program holds the foreground: the
/// alternate screen is on or the program asked for mouse reports.
/// Otherwise the tab closes at once (`None`).
pub fn close_tab_confirmation(tab: TabId, title: &str, alt_screen: bool, mouse_reporting: bool) -> (r:
    Option<ConfirmDialog>)
    ensures
        !(alt_screen || mouse_reporting) ==> r is None,
        (alt_screen || mouse_reporting) ==> (r matches Some(d) && {
            &&& d.title@ == "Fechar aba?"@
            &&& d.body@ == "\""@ + title@ + "\" tem um programa em primeiro plano. Fechar mesmo assim?"@
            &&& d.confirm_label@ == "Fechar aba"@
            &&& d.action == DialogAction::CloseTab(tab)
            &&& d.focused == DialogButton::Cancel
        }),
{
    if !(alt_screen || mouse_reporting) {
        return None;
    }
    let mut body = "\"".to_owned();
    body.append(title);
    body.append("\" tem um programa em primeiro plano. Fechar mesmo assim?");
    Some(
        ConfirmDialog::new(
            "Fechar aba?".to_owned(),
            body,
            "Fechar aba".to_owned(),
            DialogAction::CloseTab(tab),
        ),
    )
}

/// Closing a window with more than one tab asks first; otherwise it closes
/// at once (`None`).
pub fn close_window_confirmation(tab_count: usize) -> (r: Option<ConfirmDialog>)
    ensures
        tab_count <= 1 ==> r is None,
        tab_count > 1 ==> (r matches Some(d) && {
            &&& d.title@ == "Fechar janela?"@
            &&& d.body@ == "Esta janela tem mais de uma aba aberta."@
            &&& d.confirm_label@ == "Fechar janela"@
            &&& d.action == DialogAction::CloseWindow
            &&& d.focused == DialogButton::Cancel
        }),
{
    if tab_count <= 1 {
        return None;
    }
    Some(
        ConfirmDialog::new(
            "Fechar janela?".to_owned(),
            "Esta janela tem mais de uma aba aberta.".to_owned(),
            "Fechar janela".to_owned(),
            DialogAction::CloseWindow,
        ),
    )
}

} // verus!
