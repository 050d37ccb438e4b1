//! The single list of group actions, shared by the group context menu and
//! the group editor, and the group context menu itself.
use vstd::prelude::*;

use crate::cycle::wrap_index;
use crate::ids::GroupId;
use crate::text;
use crate::text::usize_to_string;
use vstd::string::StringExecFns;

verus! {

broadcast use vstd::string::group_string_axioms;

#[derive(Debug, Clone, Copy, PartialEq, Eq, Structural)]
pub enum GroupAction {
    Rename,
    SetColor,
    ToggleCollapse,
    NewTab,
    CloseAll,
    Dissolve,
}

/// Order of the group actions: rename, change colour, collapse/expand, new
/// tab in the group, close the group, ungroup.
pub open spec fn group_action_order_spec() -> Seq<GroupAction> {
    seq![
        GroupAction::Rename,
        GroupAction::SetColor,
        GroupAction::ToggleCollapse,
        GroupAction::NewTab,
        GroupAction::CloseAll,
        GroupAction::Dissolve,
    ]
}

pub fn group_action_order() -> (r: [GroupAction; 6])
    ensures
        r@ == group_action_order_spec(),
{
    let r = [
        GroupAction::Rename,
        GroupAction::SetColor,
        GroupAction::ToggleCollapse,
        GroupAction::NewTab,
        GroupAction::CloseAll,
        GroupAction::Dissolve,
    ];
    assert(r@ =~= group_action_order_spec());
    r
}

/// The three actions of the group editor, in its own order: collapse or
/// expand, ungroup, close the group.
pub open spec fn editor_action_order_spec() -> Seq<GroupAction> {
    seq![GroupAction::ToggleCollapse, GroupAction::Dissolve, GroupAction::CloseAll]
}

pub fn editor_action_order() -> (r: [GroupAction; 3])
    ensures
        r@ == editor_action_order_spec(),
{
    let r = [GroupAction::ToggleCollapse, GroupAction::Dissolve, GroupAction::CloseAll];
    assert(r@ =~= editor_action_order_spec());
    r
}

pub fn editor_action_at(i: usize) -> (a: GroupAction)
    requires
        i < 3,
    ensures
        a == editor_action_order_spec()[i as int],
{
    let order = editor_action_order();
    order[i]
}

#[derive(Debug, Clone, PartialEq, Eq)]
pub struct GroupActionItem {
    pub action: GroupAction,
    pub label: String,
    /// Only "close the group" is destructive.
    pub destructive: bool,
}

/// Label of the close action: `"Fechar grupo (N aba)"`, plural for any
/// count but one.
pub open spec fn close_all_label(tab_count: usize) -> Seq<char> {
    "Fechar grupo ("@ + text::decimal(tab_count as nat) + (if tab_count == 1 {
        " aba)"@
    } else {
        " abas)"@
    })
}

/// Label of each action, in [`group_action_order_spec`] order.
pub open spec fn group_action_label(i: int, is_collapsed: bool, tab_count: usize) -> Seq<char> {
    if i == 0 {
        "Renomear"@
    } else if i == 1 {
        "Mudar cor"@
    } else if i == 2 {
        if is_collapsed {
            "Expandir grupo"@
        } else {
            "Colapsar grupo"@
        }
    } else if i == 3 {
        "Nova aba no grupo"@
    } else if i == 4 {
        close_all_label(tab_count)
    } else {
        "Desagrupar"@
    }
}

/// The single definition of the group actions; the two dynamic labels come
/// from the group's current state.
pub fn group_action_items(is_collapsed: bool, tab_count: usize) -> (r: [GroupActionItem; 6])
    ensures
        forall|i: int|
            0 <= i < 6 ==> {
                &&& (#[trigger] r@[i]).action == group_action_order_spec()[i]
                &&& r@[i].label@ == group_action_label(i, is_collapsed, tab_count)
                &&& r@[i].destructive == (i == 4)
            },
{
    let collapse_label = if is_collapsed {
        "Expandir grupo".to_owned()
    } else {
        "Colapsar grupo".to_owned()
    };
    let mut close_label = "Fechar grupo (".to_owned();
    let count = usize_to_string(tab_count);
    close_label.append(count.as_str());
    if tab_count == 1 {
        close_label.append(" aba)");
    } else {
        close_label.append(" abas)");
    }
    let r = [
        GroupActionItem {
            action: GroupAction::Rename,
            label: "Renomear".to_owned(),
            destructive: false,
        },
        GroupActionItem {
            action: GroupAction::SetColor,
            label: "Mudar cor".to_owned(),
            destructive: false,
        },
        GroupActionItem {
            action: GroupAction::ToggleCollapse,
            label: collapse_label,
            destructive: false,
        },
        GroupActionItem {
            action: GroupAction::NewTab,
            label: "Nova aba no grupo".to_owned(),
            destructive: false,
        },
        GroupActionItem { action: GroupAction::CloseAll, label: close_label, destructive: true },
        GroupActionItem {
            action: GroupAction::Dissolve,
            label: "Desagrupar".to_owned(),
            destructive: false,
        },
    ];
    assert forall|i: int|
        0 <= i < 6 implies {
        &&& (#[trigger] r@[i]).action == group_action_order_spec()[i]
        &&& r@[i].label@ == group_action_label(i, is_collapsed, tab_count)
        &&& r@[i].destructive == (i == 4)
    } by {
        if i == 4 {
            assert(close_label@ == close_all_label(tab_count));
        }
    }
    r
}

/// The group context menu: no disabled item, cyclic navigation.
#[derive(Debug, Clone, Copy)]
pub struct GroupContextMenu<A> {
    pub group: GroupId,
    /// Logical window coordinates of the click that opened the menu.
    pub anchor: A,
    highlighted: usize,
}

impl<A> GroupContextMenu<A> {
    pub closed spec fn highlighted_spec(&self) -> usize {
        self.highlighted
    }

    pub closed spec fn group_spec(&self) -> GroupId {
        self.group
    }

    pub closed spec fn anchor_spec(&self) -> A {
        self.anchor
    }

    /// The highlight designates one of the six actions.
    pub closed spec fn wf(&self) -> bool {
        self.highlighted < 6
    }

    /// What well-formedness says of the highlight.
    pub proof fn lemma_wf(&self)
        requires
            self.wf(),
        ensures
            self.highlighted_spec() < 6,
    {
    }

    /// Opens on the first action.
    pub fn new(group: GroupId, anchor: A) -> (m: Self)
        ensures
            m.wf(),
            m.highlighted_spec() == 0,
            m.group_spec() == group,
            m.anchor_spec() == anchor,
    {
        GroupContextMenu { group, anchor, highlighted: 0 }
    }

    pub fn highlighted(&self) -> (h: usize)
        ensures
            h == self.highlighted_spec(),
    {
        self.highlighted
    }

    /// Moves the highlight by `delta`, wrapping around both ends.
    pub fn move_highlight(&mut self, delta: isize)
        requires
            old(self).wf(),
            old(self).highlighted_spec() + delta <= isize::MAX,
        ensures
            final(self).wf(),
            final(self).highlighted_spec() as int == (old(self).highlighted_spec() + delta) % 6,
            final(self).group_spec() == old(self).group_spec(),
            final(self).anchor_spec() == old(self).anchor_spec(),
    {
        self.highlighted = wrap_index(self.highlighted, delta, 6);
    }

    /// Highlights `index` when it designates an action; ignored otherwise.
    pub fn set_highlight(&mut self, index: usize)
        requires
            old(self).wf(),
        ensures
            final(self).wf(),
            index < 6 ==> final(self).highlighted_spec() == index,
            index >= 6 ==> final(self).highlighted_spec() == old(self).highlighted_spec(),
            final(self).group_spec() == old(self).group_spec(),
            final(self).anchor_spec() == old(self).anchor_spec(),
    {
        if index < 6 {
            self.highlighted = index;
        }
    }

    /// The highlighted action.
    pub fn selected(&self) -> (a: GroupAction)
        requires
            self.wf(),
        ensures
            a == group_action_order_spec()[self.highlighted_spec() as int],
    {
        let order = group_action_order();
        order[self.highlighted]
    }
}

} // verus!
