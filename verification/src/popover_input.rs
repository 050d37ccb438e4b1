//! Keyboard and mouse of the modal surfaces (confirmation dialog, context
//! menus, group editor, move-to-group popover): each takes the surface that
//! is open, if any, and a key press or a click (already resolved to what it
//! hit), updates or closes the surface, and returns what the application
//! has to carry out.
use vstd::prelude::*;

use crate::context_menu::{item_enabled, menu_action_spec, next_enabled, tab_menu_items, ContextMenu, MenuAction};
use crate::dialog::{toggled, ConfirmDialog, DialogAction, DialogButton};
use crate::group_editor::{region_at, region_index, EditorRegion, GroupEditor, EDITOR_ACTION_COUNT, SWATCH_COUNT};
use crate::group_menu::{editor_action_at, editor_action_order_spec, group_action_order, group_action_order_spec, GroupAction, GroupContextMenu};
use crate::ids::{GroupId, TabId};
use crate::input::PointerButton;
use crate::keymap::{Key, NamedKey};
use crate::move_to_group::{MoveTarget, MoveToGroupPopover};
use crate::text::chars_of;

verus! {

/// The named key of a key, if it is one.
pub open spec fn named_of(key: Key) -> Option<NamedKey> {
    match key {
        Key::Named(n) => Some(n),
        _ => None,
    }
}

/// Confirmation dialog: `Escape` closes it; `Enter` closes it and yields its
/// action when `Confirm` has the focus; `Tab`, `Left` and `Right` move the
/// focus to the other button. Other keys, releases, and no dialog: nothing.
pub fn dialog_key(dialog: &mut Option<ConfirmDialog>, pressed: bool, key: &Key) -> (r: Option<
    DialogAction,
>)
    ensures
        (!pressed || (*old(dialog)) is None) ==> *final(dialog) == *old(dialog) && r is None,
        (pressed && (*old(dialog)) is Some) ==> {
            let d = (*old(dialog))->0;
            match named_of(*key) {
                Some(NamedKey::Escape) => (*final(dialog)) is None && r is None,
                Some(NamedKey::Enter) => (*final(dialog)) is None && r == (if d.focused
                    == DialogButton::Confirm {
                    Some(d.action)
                } else {
                    None
                }),
                Some(NamedKey::Tab) | Some(NamedKey::ArrowLeft) | Some(NamedKey::ArrowRight) => {
                    &&& (*final(dialog)) is Some
                    &&& (*final(dialog))->0.focused == toggled(d.focused)
                    &&& (*final(dialog))->0.action == d.action
                    &&& (*final(dialog))->0.title == d.title
                    &&& (*final(dialog))->0.body == d.body
                    &&& (*final(dialog))->0.confirm_label == d.confirm_label
                    &&& r is None
                },
                _ => *final(dialog) == *old(dialog) && r is None,
            }
        },
{
    if !pressed {
        return None;
    }
    let named = match key {
        Key::Named(n) => *n,
        _ => {
            return None;
        },
    };
    match dialog {
        None => None,
        Some(d) => match named {
            NamedKey::Escape => {
                *dialog = None;
                None
            },
            NamedKey::Enter => {
                let confirmed = d.focused() == DialogButton::Confirm;
                let action = d.action;
                *dialog = None;
                if confirmed {
                    Some(action)
                } else {
                    None
                }
            },
            NamedKey::Tab | NamedKey::ArrowLeft | NamedKey::ArrowRight => {
                d.toggle_focus();
                None
            },
            _ => None,
        },
    }
}

/// Tab context menu: arrows move the highlight over the enabled items,
/// `Enter` closes it and yields the highlighted action, `Escape` closes it.
pub fn context_menu_key<A>(menu: &mut Option<ContextMenu<A>>, pressed: bool, key: &Key) -> (r:
    Option<MenuAction>)
    requires
        (*old(menu)) is Some ==> (*old(menu))->0.wf(),
    ensures
        (*final(menu)) is Some ==> (*final(menu))->0.wf(),
        (!pressed || (*old(menu)) is None) ==> *final(menu) == *old(menu) && r is None,
        (pressed && (*old(menu)) is Some) ==> {
            let m = (*old(menu))->0;
            match named_of(*key) {
                Some(NamedKey::Escape) => (*final(menu)) is None && r is None,
                Some(NamedKey::Enter) => (*final(menu)) is None && r == Some(
                    menu_action_spec(m.highlighted_spec() as int),
                ),
                Some(NamedKey::ArrowUp) => {
                    &&& (*final(menu)) is Some
                    &&& (*final(menu))->0.highlighted_spec() == next_enabled(
                        m.highlighted_spec() as int,
                        -1,
                    )
                    &&& (*final(menu))->0.tab_spec() == m.tab_spec()
                    &&& (*final(menu))->0.anchor_spec() == m.anchor_spec()
                    &&& r is None
                },
                Some(NamedKey::ArrowDown) => {
                    &&& (*final(menu)) is Some
                    &&& (*final(menu))->0.highlighted_spec() == next_enabled(
                        m.highlighted_spec() as int,
                        1,
                    )
                    &&& (*final(menu))->0.tab_spec() == m.tab_spec()
                    &&& (*final(menu))->0.anchor_spec() == m.anchor_spec()
                    &&& r is None
                },
                _ => *final(menu) == *old(menu) && r is None,
            }
        },
{
    if !pressed {
        return None;
    }
    let named = match key {
        Key::Named(n) => *n,
        _ => {
            return None;
        },
    };
    match menu {
        None => None,
        Some(m) => {
            proof {
                m.lemma_wf();
            }
            match named {
            NamedKey::Escape => {
                *menu = None;
                None
            },
            NamedKey::ArrowUp => {
                m.move_highlight(-1);
                None
            },
            NamedKey::ArrowDown => {
                m.move_highlight(1);
                None
            },
            NamedKey::Enter => {
                let action = m.selected();
                *menu = None;
                Some(action)
            },
            _ => None,
            }
        },
    }
}

/// Group context menu: as the tab menu, over its six actions, wrapping.
pub fn group_menu_key<A>(menu: &mut Option<GroupContextMenu<A>>, pressed: bool, key: &Key) -> (r:
    Option<GroupAction>)
    requires
        (*old(menu)) is Some ==> (*old(menu))->0.wf(),
    ensures
        (*final(menu)) is Some ==> (*final(menu))->0.wf(),
        (!pressed || (*old(menu)) is None) ==> *final(menu) == *old(menu) && r is None,
        (pressed && (*old(menu)) is Some) ==> {
            let m = (*old(menu))->0;
            match named_of(*key) {
                Some(NamedKey::Escape) => (*final(menu)) is None && r is None,
                Some(NamedKey::Enter) => (*final(menu)) is None && r == Some(
                    group_action_order_spec()[m.highlighted_spec() as int],
                ),
                Some(NamedKey::ArrowUp) => {
                    &&& (*final(menu)) is Some
                    &&& (*final(menu))->0.highlighted_spec() == (m.highlighted_spec() + 5) % 6
                    &&& (*final(menu))->0.group_spec() == m.group_spec()
                    &&& (*final(menu))->0.anchor_spec() == m.anchor_spec()
                    &&& r is None
                },
                Some(NamedKey::ArrowDown) => {
                    &&& (*final(menu)) is Some
                    &&& (*final(menu))->0.highlighted_spec() == (m.highlighted_spec() + 1) % 6
                    &&& (*final(menu))->0.group_spec() == m.group_spec()
                    &&& (*final(menu))->0.anchor_spec() == m.anchor_spec()
                    &&& r is None
                },
                _ => *final(menu) == *old(menu) && r is None,
            }
        },
{
    if !pressed {
        return None;
    }
    let named = match key {
        Key::Named(n) => *n,
        _ => {
            return None;
        },
    };
    match menu {
        None => None,
        Some(m) => {
            proof {
                m.lemma_wf();
            }
            match named {
            NamedKey::Escape => {
                *menu = None;
                None
            },
            NamedKey::ArrowUp => {
                m.move_highlight(-1);
                None
            },
            NamedKey::ArrowDown => {
                m.move_highlight(1);
                None
            },
            NamedKey::Enter => {
                let action = m.selected();
                *menu = None;
                Some(action)
            },
            _ => None,
            }
        },
    }
}

/// Move-to-group popover: as the menus, over its rows, wrapping; `Enter`
/// yields the highlighted target.
pub fn move_to_group_key<A>(popover: &mut Option<MoveToGroupPopover<A>>, pressed: bool, key: &Key) -> (r:
    Option<MoveTarget>)
    requires
        (*old(popover)) is Some ==> (*old(popover))->0.wf(),
    ensures
        (*final(popover)) is Some ==> (*final(popover))->0.wf(),
        (!pressed || (*old(popover)) is None) ==> *final(popover) == *old(popover) && r is None,
        (pressed && (*old(popover)) is Some) ==> {
            let p = (*old(popover))->0;
            let rows: int = p.targets_spec().len() as int + 1;
            match named_of(*key) {
                Some(NamedKey::Escape) => (*final(popover)) is None && r is None,
                Some(NamedKey::Enter) => (*final(popover)) is None && r == Some(
                    if p.highlighted_spec() < p.targets_spec().len() {
                        MoveTarget::Group(p.targets_spec()[p.highlighted_spec() as int])
                    } else {
                        MoveTarget::NewGroup
                    },
                ),
                Some(NamedKey::ArrowUp) => {
                    &&& (*final(popover)) is Some
                    &&& (*final(popover))->0.highlighted_spec() == (p.highlighted_spec() + rows - 1)
                        % rows
                    &&& (*final(popover))->0.targets_spec() == p.targets_spec()
                    &&& (*final(popover))->0.tab_spec() == p.tab_spec()
                    &&& (*final(popover))->0.anchor_spec() == p.anchor_spec()
                    &&& r is None
                },
                Some(NamedKey::ArrowDown) => {
                    &&& (*final(popover)) is Some
                    &&& (*final(popover))->0.highlighted_spec() == (p.highlighted_spec() + 1) % rows
                    &&& (*final(popover))->0.targets_spec() == p.targets_spec()
                    &&& (*final(popover))->0.tab_spec() == p.tab_spec()
                    &&& (*final(popover))->0.anchor_spec() == p.anchor_spec()
                    &&& r is None
                },
                _ => *final(popover) == *old(popover) && r is None,
            }
        },
{
    if !pressed {
        return None;
    }
    let named = match key {
        Key::Named(n) => *n,
        _ => {
            return None;
        },
    };
    match popover {
        None => None,
        Some(p) => {
            proof {
                p.lemma_wf();
            }
            match named {
            NamedKey::Escape => {
                *popover = None;
                None
            },
            NamedKey::ArrowUp => {
                let ghost h = p.highlighted_spec() as int;
                let ghost rows: int = p.targets_spec().len() as int + 1;
                p.move_highlight(-1);
                assert((h - 1) % rows == (h + rows - 1) % rows) by (nonlinear_arith)
                    requires
                        rows > 0,
                ;
                None
            },
            NamedKey::ArrowDown => {
                p.move_highlight(1);
                None
            },
            NamedKey::Enter => {
                let target = p.selected();
                *popover = None;
                Some(target)
            },
            _ => None,
            }
        },
    }
}

/// What the group editor asks the application to do.
#[derive(Debug, Clone, PartialEq, Eq)]
pub enum GroupEditorOutcome {
    Nothing,
    /// Rename the group (the editor closed).
    Rename(GroupId, String),
    /// Give the group the colour of that swatch (the editor stays open).
    SetColor(GroupId, usize),
    /// Run that group action (the editor stays open).
    Action(GroupId, GroupAction),
}

/// Whether `c` is a control character (general category `Cc`).
pub open spec fn is_control(c: char) -> bool {
    (c as u32) <= 0x1f || (0x7f <= (c as u32) && (c as u32) <= 0x9f)
}

pub fn is_control_exec(c: char) -> (r: bool)
    ensures
        r == is_control(c),
{
    let n = c as u32;
    n <= 0x1f || (0x7f <= n && n <= 0x9f)
}

/// The characters of `s` that are not control characters, in order.
pub open spec fn printable(s: Seq<char>) -> Seq<char>
    decreases s.len(),
{
    if s.len() == 0 {
        Seq::empty()
    } else {
        let rest = printable(s.drop_last());
        if is_control(s.last()) {
            rest
        } else {
            rest.push(s.last())
        }
    }
}

/// The group editor's keyboard: `Escape` closes; `Tab` cycles the region
/// (`Shift` backwards); the arrows move the highlight of the region;
/// `Backspace` edits the name; `Enter` renames and closes in the name
/// field, sets the highlighted colour in the swatch strip, runs the
/// highlighted action in the list; any other key types its text, control
/// characters left out, while the name field has the focus.
pub fn group_editor_key(
    editor: &mut Option<GroupEditor>,
    pressed: bool,
    key: &Key,
    shift: bool,
    text: Option<&str>,
) -> (r: GroupEditorOutcome)
    requires
        (*old(editor)) is Some ==> (*old(editor))->0.wf(),
    ensures
        (*final(editor)) is Some ==> (*final(editor))->0.wf(),
        (!pressed || (*old(editor)) is None) ==> *final(editor) == *old(editor) && r
            == GroupEditorOutcome::Nothing,
        (pressed && (*old(editor)) is Some) ==> {
            let e = (*old(editor))->0;
            match named_of(*key) {
                Some(NamedKey::Escape) => (*final(editor)) is None && r == GroupEditorOutcome::Nothing,
                Some(NamedKey::Enter) => match e.focus_spec() {
                    EditorRegion::Name => (*final(editor)) is None && (r matches GroupEditorOutcome::Rename(g, n) && g == e.group_spec() && n@ == e.name_spec()),
                    EditorRegion::Swatches => *final(editor) == *old(editor) && r
                        == GroupEditorOutcome::SetColor(e.group_spec(), e.swatch_spec()),
                    EditorRegion::Actions => *final(editor) == *old(editor) && r
                        == GroupEditorOutcome::Action(
                        e.group_spec(),
                        editor_action_order_spec()[e.action_spec() as int],
                    ),
                },
                _ => {
                    let f = (*final(editor))->0;
                    &&& (*final(editor)) is Some
                    &&& r == GroupEditorOutcome::Nothing
                    &&& f.group_spec() == e.group_spec()
                    &&& f.focus_spec() == (if named_of(*key) == Some(NamedKey::Tab) {
                        region_at(
                            (region_index(e.focus_spec()) + (if shift {
                                -1int
                            } else {
                                1int
                            })) % 3,
                        )
                    } else {
                        e.focus_spec()
                    })
                    &&& f.swatch_spec() as int == (if e.focus_spec() == EditorRegion::Swatches {
                        if named_of(*key) == Some(NamedKey::ArrowUp) {
                            (e.swatch_spec() + 5) % 6
                        } else if named_of(*key) == Some(NamedKey::ArrowDown) {
                            (e.swatch_spec() + 1) % 6
                        } else {
                            e.swatch_spec() as int
                        }
                    } else {
                        e.swatch_spec() as int
                    })
                    &&& f.action_spec() as int == (if e.focus_spec() == EditorRegion::Actions {
                        if named_of(*key) == Some(NamedKey::ArrowUp) {
                            (e.action_spec() + 2) % 3
                        } else if named_of(*key) == Some(NamedKey::ArrowDown) {
                            (e.action_spec() + 1) % 3
                        } else {
                            e.action_spec() as int
                        }
                    } else {
                        e.action_spec() as int
                    })
                    &&& f.name_spec() == (if e.focus_spec() != EditorRegion::Name {
                        e.name_spec()
                    } else if named_of(*key) == Some(NamedKey::Backspace) {
                        if e.name_spec().len() > 0 {
                            e.name_spec().drop_last()
                        } else {
                            e.name_spec()
                        }
                    } else if named_of(*key) == Some(NamedKey::Tab) || named_of(*key) == Some(
                        NamedKey::ArrowUp,
                    ) || named_of(*key) == Some(NamedKey::ArrowDown) {
                        e.name_spec()
                    } else {
                        match text {
                            Some(t) => e.name_spec() + printable(t@),
                            None => e.name_spec(),
                        }
                    })
                },
            }
        },
{
    if !pressed {
        return GroupEditorOutcome::Nothing;
    }
    let named: Option<NamedKey> = match key {
        Key::Named(n) => Some(*n),
        _ => None,
    };
    match editor {
        None => GroupEditorOutcome::Nothing,
        Some(e) => {
            proof {
                e.lemma_wf();
            }
            match named {
            Some(NamedKey::Escape) => {
                *editor = None;
                GroupEditorOutcome::Nothing
            },
            Some(NamedKey::Tab) => {
                e.cycle_focus(!shift);
                GroupEditorOutcome::Nothing
            },
            Some(NamedKey::ArrowUp) => {
                let ghost s0 = e.swatch_spec() as int;
                let ghost a0 = e.action_spec() as int;
                e.move_highlight(-1);
                assert((s0 - 1) % 6 == (s0 + 5) % 6);
                assert((a0 - 1) % 3 == (a0 + 2) % 3);
                GroupEditorOutcome::Nothing
            },
            Some(NamedKey::ArrowDown) => {
                e.move_highlight(1);
                GroupEditorOutcome::Nothing
            },
            Some(NamedKey::Backspace) => {
                e.backspace();
                GroupEditorOutcome::Nothing
            },
            Some(NamedKey::Enter) => match e.focus() {
                EditorRegion::Name => {
                    let group = e.group();
                    let name = e.name_buffer().to_owned();
                    *editor = None;
                    GroupEditorOutcome::Rename(group, name)
                },
                EditorRegion::Swatches => GroupEditorOutcome::SetColor(e.group(), e.swatch_highlight()),
                EditorRegion::Actions => GroupEditorOutcome::Action(e.group(), e.selected_action()),
            },
            _ => {
                if e.focus() == EditorRegion::Name {
                    if let Some(t) = text {
                        type_printable(e, t);
                    }
                }
                GroupEditorOutcome::Nothing
            },
            }
        },
    }
}

/// Types the non-control characters of `t` into the editor's name field.
fn type_printable(e: &mut GroupEditor, t: &str)
    requires
        old(e).wf(),
        old(e).focus_spec() == EditorRegion::Name,
    ensures
        final(e).wf(),
        final(e).name_spec() == old(e).name_spec() + printable(t@),
        final(e).focus_spec() == old(e).focus_spec(),
        final(e).swatch_spec() == old(e).swatch_spec(),
        final(e).action_spec() == old(e).action_spec(),
        final(e).group_spec() == old(e).group_spec(),
{
    let cs = chars_of(t);
    let mut i: usize = 0;
    while i < cs.len()
        invariant
            cs@ == t@,
            i <= cs@.len(),
            e.wf(),
            e.focus_spec() == EditorRegion::Name,
            e.name_spec() == old(e).name_spec() + printable(cs@.take(i as int)),
            e.swatch_spec() == old(e).swatch_spec(),
            e.action_spec() == old(e).action_spec(),
            e.group_spec() == old(e).group_spec(),
        decreases cs.len() - i,
    {
        let c = cs[i];
        assert(cs@.take(i + 1).drop_last() =~= cs@.take(i as int));
        if !is_control_exec(c) {
            e.push_char(c);
            assert(old(e).name_spec() + printable(cs@.take(i + 1)) =~= (old(e).name_spec()
                + printable(cs@.take(i as int))).push(c));
        }
        i = i + 1;
    }
    assert(cs@.take(cs@.len() as int) =~= cs@);
}

/// A click while the dialog is open: with the left button, `Confirm`
/// closes it and yields its action, anything else closes it; other
/// buttons leave it open.
pub fn dialog_click(dialog: &mut Option<ConfirmDialog>, left: bool, hit: Option<DialogButton>) -> (r:
    Option<DialogAction>)
    ensures
        ((*old(dialog)) is None || !left) ==> *final(dialog) == *old(dialog) && r is None,
        ((*old(dialog)) is Some && left) ==> {
            &&& (*final(dialog)) is None
            &&& r == (if hit == Some(DialogButton::Confirm) {
                Some((*old(dialog))->0.action)
            } else {
                None
            })
        },
{
    if !left {
        return None;
    }
    match dialog {
        None => None,
        Some(d) => {
            let action = d.action;
            *dialog = None;
            match hit {
                Some(DialogButton::Confirm) => Some(action),
                _ => None,
            }
        },
    }
}

/// A click while the tab menu is open: the menu closes; a left click on an
/// enabled item yields its action.
pub fn context_menu_click<A>(menu: &mut Option<ContextMenu<A>>, left: bool, hit: Option<usize>) -> (r:
    Option<MenuAction>)
    requires
        hit matches Some(i) ==> i < 3,
    ensures
        (*final(menu)) is None,
        r == (if (*old(menu)) is Some && left && (hit matches Some(i) && item_enabled(i as int)) {
            Some(menu_action_spec(hit->0 as int))
        } else {
            None
        }),
{
    let open = menu.is_some();
    *menu = None;
    if !open || !left {
        return None;
    }
    match hit {
        Some(i) => {
            let items = tab_menu_items();
            if items[i].enabled {
                Some(items[i].action)
            } else {
                None
            }
        },
        None => None,
    }
}

/// A click while the group menu is open: the menu closes; a left click on
/// an item yields its action.
pub fn group_menu_click<A>(menu: &mut Option<GroupContextMenu<A>>, left: bool, hit: Option<usize>) -> (r:
    Option<GroupAction>)
    requires
        hit matches Some(i) ==> i < 6,
    ensures
        (*final(menu)) is None,
        r == (if (*old(menu)) is Some && left && hit is Some {
            Some(group_action_order_spec()[hit->0 as int])
        } else {
            None
        }),
{
    let open = menu.is_some();
    *menu = None;
    if !open || !left {
        return None;
    }
    match hit {
        Some(i) => {
            let order = group_action_order();
            Some(order[i])
        },
        None => None,
    }
}

/// A click while the move-to-group popover is open: it closes; a left
/// click on a row yields the tab and that row's target (a row past the
/// end leaves the highlighted one).
pub fn move_to_group_click<A>(popover: &mut Option<MoveToGroupPopover<A>>, left: bool, hit: Option<usize>) -> (r:
    Option<(TabId, MoveTarget)>)
    requires
        (*old(popover)) is Some ==> (*old(popover))->0.wf(),
    ensures
        (*final(popover)) is None,
        ((*old(popover)) is None || !left || hit is None) ==> r is None,
        ((*old(popover)) is Some && left && hit is Some) ==> {
            let p = (*old(popover))->0;
            let i = hit->0;
            let row = if i <= p.targets_spec().len() {
                i as int
            } else {
                p.highlighted_spec() as int
            };
            r == Some((
                p.tab_spec(),
                if row < p.targets_spec().len() {
                    MoveTarget::Group(p.targets_spec()[row])
                } else {
                    MoveTarget::NewGroup
                },
            ))
        },
{
    let taken = popover.take();
    match taken {
        None => None,
        Some(mut p) => {
            if !left {
                return None;
            }
            match hit {
                None => None,
                Some(index) => {
                    let ghost before = p;
                    p.set_highlight(index);
                    proof {
                        p.lemma_wf();
                    }
                    assert(p.highlighted_spec() == (if index <= before.targets_spec().len() {
                        index
                    } else {
                        before.highlighted_spec()
                    }));
                    let tab = p.tab();
                    let target = p.selected();
                    Some((tab, target))
                },
            }
        },
    }
}

/// What a click in the group editor landed on.
#[derive(Debug, Clone, Copy, PartialEq, Eq, Structural)]
pub enum GroupEditorHit {
    NameField,
    Swatch(usize),
    Action(usize),
}

/// A click while the group editor is open: any button but the left one,
/// or a click outside it, closes it; the name field takes the focus; a
/// swatch takes the focus and the highlight and sets that colour; an
/// action takes the focus and the highlight and runs.
pub fn group_editor_click(editor: &mut Option<GroupEditor>, left: bool, hit: Option<GroupEditorHit>) -> (r:
    GroupEditorOutcome)
    requires
        (*old(editor)) is Some ==> (*old(editor))->0.wf(),
        hit matches Some(GroupEditorHit::Swatch(i)) ==> i < SWATCH_COUNT,
        hit matches Some(GroupEditorHit::Action(i)) ==> i < EDITOR_ACTION_COUNT,
    ensures
        (*final(editor)) is Some ==> (*final(editor))->0.wf(),
        (*old(editor)) is None ==> (*final(editor)) is None && r == GroupEditorOutcome::Nothing,
        (*old(editor)) is Some ==> {
            let e = (*old(editor))->0;
            if !left || hit is None {
                (*final(editor)) is None && r == GroupEditorOutcome::Nothing
            } else {
                let f = (*final(editor))->0;
                &&& (*final(editor)) is Some
                &&& f.group_spec() == e.group_spec()
                &&& f.name_spec() == e.name_spec()
                &&& match hit->0 {
                    GroupEditorHit::NameField => {
                        &&& f.focus_spec() == EditorRegion::Name
                        &&& f.swatch_spec() == e.swatch_spec()
                        &&& f.action_spec() == e.action_spec()
                        &&& r == GroupEditorOutcome::Nothing
                    },
                    GroupEditorHit::Swatch(i) => {
                        &&& f.focus_spec() == EditorRegion::Swatches
                        &&& f.swatch_spec() == i
                        &&& f.action_spec() == e.action_spec()
                        &&& r == GroupEditorOutcome::SetColor(e.group_spec(), i)
                    },
                    GroupEditorHit::Action(i) => {
                        &&& f.focus_spec() == EditorRegion::Actions
                        &&& f.swatch_spec() == e.swatch_spec()
                        &&& f.action_spec() == i
                        &&& r == GroupEditorOutcome::Action(
                            e.group_spec(),
                            editor_action_order_spec()[i as int],
                        )
                    },
                }
            }
        },
{
    match editor {
        None => GroupEditorOutcome::Nothing,
        Some(e) => {
            if !left {
                *editor = None;
                return GroupEditorOutcome::Nothing;
            }
            match hit {
                None => {
                    *editor = None;
                    GroupEditorOutcome::Nothing
                },
                Some(GroupEditorHit::NameField) => {
                    e.set_focus(EditorRegion::Name);
                    GroupEditorOutcome::Nothing
                },
                Some(GroupEditorHit::Swatch(i)) => {
                    e.set_focus(EditorRegion::Swatches);
                    e.set_swatch_highlight(i);
                    GroupEditorOutcome::SetColor(e.group(), i)
                },
                Some(GroupEditorHit::Action(i)) => {
                    e.set_focus(EditorRegion::Actions);
                    e.set_action_highlight(i);
                    GroupEditorOutcome::Action(e.group(), editor_action_at(i))
                },
            }
        },
    }
}

/// Which surfaces of the window are open or active when a key arrives.
#[derive(Debug, Clone, Copy, PartialEq, Eq, Structural)]
pub struct ModalState {
    pub dialog: bool,
    pub context_menu: bool,
    pub group_menu: bool,
    pub group_editor: bool,
    pub move_to_group: bool,
    /// A tab or a group is being dragged.
    pub dragging: bool,
    /// A tab is being renamed.
    pub renaming: bool,
    /// At least one warning is shown.
    pub warnings: bool,
    /// At least one tab is selected.
    pub selection: bool,
}

/// Who takes a key event.
#[derive(Debug, Clone, Copy, PartialEq, Eq, Structural)]
pub enum KeyTarget {
    Dialog,
    ContextMenu,
    GroupMenu,
    GroupEditor,
    MoveToGroup,
    /// `Escape` cancels the drag in progress.
    CancelDrag,
    Rename,
    /// `Escape` dismisses the top warning.
    DismissWarning,
    /// `Escape` clears the tab selection.
    ClearSelection,
    /// The keybindings, then the terminal.
    TabAction,
}

/// The capture chain: the dialog, the tab menu, the group menu, the group
/// editor and the move-to-group popover each take every key while open, in
/// that order; then a pressed `Escape` cancels a drag; then the rename
/// field takes every key; then a pressed `Escape` dismisses the top warning,
/// or else clears the selection; everything else goes to the keybindings
/// (and from there to the terminal).
pub open spec fn key_target_spec(s: ModalState, pressed: bool, key: Key) -> KeyTarget {
    let escape = pressed && named_of(key) == Some(NamedKey::Escape);
    if s.dialog {
        KeyTarget::Dialog
    } else if s.context_menu {
        KeyTarget::ContextMenu
    } else if s.group_menu {
        KeyTarget::GroupMenu
    } else if s.group_editor {
        KeyTarget::GroupEditor
    } else if s.move_to_group {
        KeyTarget::MoveToGroup
    } else if s.dragging && escape {
        KeyTarget::CancelDrag
    } else if s.renaming {
        KeyTarget::Rename
    } else if s.warnings && escape {
        KeyTarget::DismissWarning
    } else if s.selection && escape {
        KeyTarget::ClearSelection
    } else {
        KeyTarget::TabAction
    }
}

/// Decides who takes a key event (see [`key_target_spec`]).
pub fn key_target(s: ModalState, pressed: bool, key: &Key) -> (t: KeyTarget)
    ensures
        t == key_target_spec(s, pressed, *key),
{
    let escape = pressed && match key {
        Key::Named(NamedKey::Escape) => true,
        _ => false,
    };
    if s.dialog {
        KeyTarget::Dialog
    } else if s.context_menu {
        KeyTarget::ContextMenu
    } else if s.group_menu {
        KeyTarget::GroupMenu
    } else if s.group_editor {
        KeyTarget::GroupEditor
    } else if s.move_to_group {
        KeyTarget::MoveToGroup
    } else if s.dragging && escape {
        KeyTarget::CancelDrag
    } else if s.renaming {
        KeyTarget::Rename
    } else if s.warnings && escape {
        KeyTarget::DismissWarning
    } else if s.selection && escape {
        KeyTarget::ClearSelection
    } else {
        KeyTarget::TabAction
    }
}

/// While a modal surface is open no key reaches the keybindings or the
/// terminal; a key other than a pressed `Escape` reaches them exactly when
/// no surface is open and no tab is being renamed.
pub proof fn lemma_modal_surfaces_capture_every_key(s: ModalState, pressed: bool, key: Key)
    ensures
        (s.dialog || s.context_menu || s.group_menu || s.group_editor || s.move_to_group)
            ==> key_target_spec(s, pressed, key) != KeyTarget::TabAction,
        !(pressed && named_of(key) == Some(NamedKey::Escape)) ==> (key_target_spec(s, pressed, key)
            == KeyTarget::TabAction <==> !(s.dialog || s.context_menu || s.group_menu
            || s.group_editor || s.move_to_group || s.renaming)),
{
}

/// Where the pointer is, as the window's geometry tells it.
#[derive(Debug, Clone, Copy, PartialEq, Eq, Structural)]
pub struct PointerPlace {
    /// Over the tab bar.
    pub in_bar: bool,
    /// Over a warning (its body or its close button).
    pub over_warning: bool,
    /// On the window's resize border.
    pub at_resize_border: bool,
    /// Over one of the window buttons (minimise, maximise, close).
    pub over_window_button: bool,
}

/// Who takes a mouse button event.
#[derive(Debug, Clone, Copy, PartialEq, Eq, Structural)]
pub enum ClickTarget {
    /// Nothing happens (beyond remembering the button).
    Nothing,
    /// A left release ends the drag in progress.
    FinishDrag,
    /// A release over the terminal goes to the terminal.
    TerminalRelease,
    Dialog,
    ContextMenu,
    GroupMenu,
    GroupEditor,
    MoveToGroup,
    /// The warning under the pointer (close button dismisses).
    Warning,
    /// Start resizing the window from its border.
    ResizeWindow,
    /// The tab bar's secondary click (context menus).
    SecondaryBarClick,
    /// The tab bar's primary click.
    BarClick,
    /// A press over the terminal goes to the terminal.
    Terminal,
}

/// The secondary click of the tab bar: the right button, or on macOS a
/// left click with `Ctrl`.
pub open spec fn is_secondary_click_spec(button: PointerButton, ctrl: bool, macos: bool) -> bool {
    button == PointerButton::Right || (macos && button == PointerButton::Left && ctrl)
}

pub fn is_secondary_click(button: PointerButton, ctrl: bool, macos: bool) -> (b: bool)
    ensures
        b == is_secondary_click_spec(button, ctrl, macos),
{
    button == PointerButton::Right || (macos && button == PointerButton::Left && ctrl)
}

/// The capture chain of a mouse button. A release ends a drag (left
/// button), else goes to the terminal when not over the bar. A press goes
/// to the first open surface among dialog, tab menu, group menu, group
/// editor and move-to-group popover; then to a warning under the pointer;
/// then a left press on the resize border (not over a window button)
/// resizes; then the bar takes secondary and left clicks; what is left
/// goes to the terminal when not over the bar.
pub open spec fn click_target_spec(
    s: ModalState,
    drag_active: bool,
    pressed: bool,
    button: PointerButton,
    ctrl: bool,
    macos: bool,
    at: PointerPlace,
) -> ClickTarget {
    if !pressed {
        if button == PointerButton::Left && drag_active {
            ClickTarget::FinishDrag
        } else if !at.in_bar {
            ClickTarget::TerminalRelease
        } else {
            ClickTarget::Nothing
        }
    } else if s.dialog {
        ClickTarget::Dialog
    } else if s.context_menu {
        ClickTarget::ContextMenu
    } else if s.group_menu {
        ClickTarget::GroupMenu
    } else if s.group_editor {
        ClickTarget::GroupEditor
    } else if s.move_to_group {
        ClickTarget::MoveToGroup
    } else if at.over_warning {
        ClickTarget::Warning
    } else if button == PointerButton::Left && !at.over_window_button && at.at_resize_border {
        ClickTarget::ResizeWindow
    } else if is_secondary_click_spec(button, ctrl, macos) && at.in_bar {
        ClickTarget::SecondaryBarClick
    } else if button == PointerButton::Left && at.in_bar {
        ClickTarget::BarClick
    } else if !at.in_bar {
        ClickTarget::Terminal
    } else {
        ClickTarget::Nothing
    }
}

/// Decides who takes a mouse button event (see [`click_target_spec`]).
/// `drag_active`: a tab or group drag is under way or pending.
pub fn click_target(
    s: ModalState,
    drag_active: bool,
    pressed: bool,
    button: PointerButton,
    ctrl: bool,
    macos: bool,
    at: PointerPlace,
) -> (t: ClickTarget)
    ensures
        t == click_target_spec(s, drag_active, pressed, button, ctrl, macos, at),
{
    if !pressed {
        if button == PointerButton::Left && drag_active {
            ClickTarget::FinishDrag
        } else if !at.in_bar {
            ClickTarget::TerminalRelease
        } else {
            ClickTarget::Nothing
        }
    } else if s.dialog {
        ClickTarget::Dialog
    } else if s.context_menu {
        ClickTarget::ContextMenu
    } else if s.group_menu {
        ClickTarget::GroupMenu
    } else if s.group_editor {
        ClickTarget::GroupEditor
    } else if s.move_to_group {
        ClickTarget::MoveToGroup
    } else if at.over_warning {
        ClickTarget::Warning
    } else if button == PointerButton::Left && !at.over_window_button && at.at_resize_border {
        ClickTarget::ResizeWindow
    } else if is_secondary_click(button, ctrl, macos) && at.in_bar {
        ClickTarget::SecondaryBarClick
    } else if button == PointerButton::Left && at.in_bar {
        ClickTarget::BarClick
    } else if !at.in_bar {
        ClickTarget::Terminal
    } else {
        ClickTarget::Nothing
    }
}

/// While a modal surface is open, no press reaches the tab bar, the
/// window border or the terminal.
pub proof fn lemma_modal_surfaces_capture_every_press(
    s: ModalState,
    drag_active: bool,
    button: PointerButton,
    ctrl: bool,
    macos: bool,
    at: PointerPlace,
)
    requires
        s.dialog || s.context_menu || s.group_menu || s.group_editor || s.move_to_group,
    ensures
        ({
            let t = click_target_spec(s, drag_active, true, button, ctrl, macos, at);
            t == ClickTarget::Dialog || t == ClickTarget::ContextMenu || t == ClickTarget::GroupMenu
                || t == ClickTarget::GroupEditor || t == ClickTarget::MoveToGroup
        }),
{
}

} // verus!
