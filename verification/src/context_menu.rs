//! Context menu of a tab: anchored at the cursor, navigable by arrows,
//! always highlighting an item that `Enter` can trigger.
use vstd::prelude::*;

use crate::cycle::wrap_index;
use crate::ids::TabId;

verus! {

broadcast use vstd::string::group_string_axioms;

#[derive(Debug, Clone, Copy, PartialEq, Eq, Structural)]
pub enum MenuAction {
    NewTab,
    CloseTab,
    /// Shown dimmed, never absent, while no destination exists.
    MoveToGroup,
}

#[derive(Debug, Clone, Copy)]
pub struct MenuItem {
    pub action: MenuAction,
    pub label: &'static str,
    pub enabled: bool,
}

/// Number of items of the tab menu.
pub const TAB_MENU_LEN: usize = 3;

pub open spec fn menu_action_spec(i: int) -> MenuAction {
    if i == 0 {
        MenuAction::NewTab
    } else if i == 1 {
        MenuAction::CloseTab
    } else {
        MenuAction::MoveToGroup
    }
}

/// "Nova aba" and "Fechar aba" are enabled; "Mover para grupo" is not.
pub open spec fn item_enabled(i: int) -> bool {
    i == 0 || i == 1
}

pub open spec fn menu_label_spec(i: int) -> Seq<char> {
    if i == 0 {
        "Nova aba"@
    } else if i == 1 {
        "Fechar aba"@
    } else {
        "Mover para grupo"@
    }
}

/// The items of the tab menu.
pub fn tab_menu_items() -> (r: [MenuItem; 3])
    ensures
        forall|i: int|
            0 <= i < 3 ==> {
                &&& (#[trigger] r@[i]).action == menu_action_spec(i)
                &&& r@[i].label@ == menu_label_spec(i)
                &&& r@[i].enabled == item_enabled(i)
            },
{
    [
        MenuItem { action: MenuAction::NewTab, label: "Nova aba", enabled: true },
        MenuItem { action: MenuAction::CloseTab, label: "Fechar aba", enabled: true },
        MenuItem { action: MenuAction::MoveToGroup, label: "Mover para grupo", enabled: false },
    ]
}

fn item_enabled_exec(i: usize) -> (b: bool)
    ensures
        b == item_enabled(i as int),
{
    i == 0 || i == 1
}

/// Index of the first enabled item.
pub fn first_enabled_index() -> (i: usize)
    ensures
        i == 0,
        item_enabled(i as int),
        forall|j: int| 0 <= j < i ==> !item_enabled(j),
{
    0
}

/// Where arrow navigation lands from `h` by `delta`: the first of
/// `h + delta`, `h + 2 delta`, `h + 3 delta` (cyclically) that is enabled,
/// or `h` when none is.
pub open spec fn next_enabled(h: int, delta: int) -> int {
    let c1 = (h + delta) % 3;
    let c2 = (c1 + delta) % 3;
    let c3 = (c2 + delta) % 3;
    if item_enabled(c1) {
        c1
    } else if item_enabled(c2) {
        c2
    } else if item_enabled(c3) {
        c3
    } else {
        h
    }
}

/// Moving from `h` by `delta` computes no index outside `isize`.
pub open spec fn move_fits(h: int, delta: int) -> bool {
    &&& h + delta <= isize::MAX
    &&& (item_enabled((h + delta) % 3) || 2 + delta <= isize::MAX)
}

#[derive(Debug, Clone, Copy)]
pub struct ContextMenu<A> {
    pub tab: TabId,
    /// Logical window coordinates of the click that opened the menu.
    pub anchor: A,
    highlighted: usize,
}

impl<A> ContextMenu<A> {
    pub closed spec fn highlighted_spec(&self) -> usize {
        self.highlighted
    }

    pub closed spec fn tab_spec(&self) -> TabId {
        self.tab
    }

    pub closed spec fn anchor_spec(&self) -> A {
        self.anchor
    }

    /// The highlight designates an enabled item.
    pub closed spec fn wf(&self) -> bool {
        self.highlighted < 3 && item_enabled(self.highlighted as int)
    }

    /// What well-formedness says of the highlight.
    pub proof fn lemma_wf(&self)
        requires
            self.wf(),
        ensures
            self.highlighted_spec() < 3,
            item_enabled(self.highlighted_spec() as int),
    {
    }

    /// Opens highlighting the first enabled item.
    pub fn new(tab: TabId, anchor: A) -> (m: Self)
        ensures
            m.wf(),
            m.highlighted_spec() == 0,
            m.tab_spec() == tab,
            m.anchor_spec() == anchor,
    {
        ContextMenu { tab, anchor, highlighted: first_enabled_index() }
    }

    pub fn highlighted(&self) -> (h: usize)
        ensures
            h == self.highlighted_spec(),
    {
        self.highlighted
    }

    /// Arrow navigation, skipping disabled items (see [`next_enabled`]).
    pub fn move_highlight(&mut self, delta: isize)
        requires
            old(self).wf(),
            move_fits(old(self).highlighted_spec() as int, delta as int),
        ensures
            final(self).wf(),
            final(self).highlighted_spec() as int == next_enabled(
                old(self).highlighted_spec() as int,
                delta as int,
            ),
            final(self).tab_spec() == old(self).tab_spec(),
            final(self).anchor_spec() == old(self).anchor_spec(),
    {
        let c1 = wrap_index(self.highlighted, delta, TAB_MENU_LEN);
        if item_enabled_exec(c1) {
            self.highlighted = c1;
            return;
        }
        let c2 = wrap_index(c1, delta, TAB_MENU_LEN);
        if item_enabled_exec(c2) {
            self.highlighted = c2;
            return;
        }
        let c3 = wrap_index(c2, delta, TAB_MENU_LEN);
        if item_enabled_exec(c3) {
            self.highlighted = c3;
        }
    }

    /// Highlights `index` when it designates an enabled item.
    pub fn set_highlight(&mut self, index: usize)
        requires
            old(self).wf(),
        ensures
            final(self).wf(),
            (index < 3 && item_enabled(index as int)) ==> final(self).highlighted_spec() == index,
            !(index < 3 && item_enabled(index as int)) ==> final(self).highlighted_spec()
                == old(self).highlighted_spec(),
            final(self).tab_spec() == old(self).tab_spec(),
            final(self).anchor_spec() == old(self).anchor_spec(),
    {
        if index < TAB_MENU_LEN && item_enabled_exec(index) {
            self.highlighted = index;
        }
    }

    /// The action of the highlighted item.
    pub fn selected(&self) -> (a: MenuAction)
        requires
            self.wf(),
        ensures
            a == menu_action_spec(self.highlighted_spec() as int),
    {
        let items = tab_menu_items();
        items[self.highlighted].action
    }
}

/// Arrow navigation never lands on a disabled item: from an enabled item,
/// every move ends on an enabled one.
pub proof fn lemma_navigation_stays_on_enabled_items(h: int, delta: int)
    requires
        0 <= h < 3,
        item_enabled(h),
    ensures
        0 <= next_enabled(h, delta) < 3,
        item_enabled(next_enabled(h, delta)),
{
}

/// Whatever sequence of `new`, `move_highlight` and `set_highlight` built a
/// menu (each establishes or keeps `wf`), its highlight is an enabled
/// item: `selected` never yields the dimmed "move to group".
pub proof fn lemma_selection_is_never_disabled<A>(m: ContextMenu<A>)
    requires
        m.wf(),
    ensures
        item_enabled(m.highlighted_spec() as int),
        menu_action_spec(m.highlighted_spec() as int) != MenuAction::MoveToGroup,
{
    m.lemma_wf();
}

} // verus!
