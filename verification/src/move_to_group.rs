//! Destination popover of "move tab to group": one row per candidate group
//! plus "Novo grupo", always the last row.
use vstd::prelude::*;

use crate::cycle::wrap_index;
use crate::ids::{GroupId, TabId};

verus! {

#[derive(Debug, Clone, Copy, PartialEq, Eq, Structural)]
pub enum MoveTarget {
    Group(GroupId),
    /// Always the last row.
    NewGroup,
}

#[derive(Debug, Clone)]
pub struct MoveToGroupPopover<A> {
    pub tab: TabId,
    /// Logical window coordinates where the popover is anchored.
    pub anchor: A,
    targets: Vec<GroupId>,
    highlighted: usize,
}

impl<A> MoveToGroupPopover<A> {
    pub closed spec fn targets_spec(&self) -> Seq<GroupId> {
        self.targets@
    }

    pub closed spec fn highlighted_spec(&self) -> usize {
        self.highlighted
    }

    pub closed spec fn tab_spec(&self) -> TabId {
        self.tab
    }

    pub closed spec fn anchor_spec(&self) -> A {
        self.anchor
    }

    /// The highlight designates a row: a target, or "Novo grupo".
    pub closed spec fn wf(&self) -> bool {
        &&& self.targets@.len() < isize::MAX
        &&& self.highlighted <= self.targets@.len()
    }

    /// What well-formedness says of the highlight.
    pub proof fn lemma_wf(&self)
        requires
            self.wf(),
        ensures
            self.targets_spec().len() < isize::MAX,
            self.highlighted_spec() <= self.targets_spec().len(),
    {
    }

    /// `targets`: the candidate explicit groups in visual order (the tab's
    /// own group excluded). Opens on the first row.
    pub fn new(tab: TabId, anchor: A, targets: Vec<GroupId>) -> (p: Self)
        requires
            targets@.len() < isize::MAX,
        ensures
            p.wf(),
            p.targets_spec() == targets@,
            p.highlighted_spec() == 0,
            p.tab_spec() == tab,
            p.anchor_spec() == anchor,
    {
        MoveToGroupPopover { tab, anchor, targets, highlighted: 0 }
    }

    pub fn tab(&self) -> (t: TabId)
        ensures
            t == self.tab_spec(),
    {
        self.tab
    }

    pub fn targets(&self) -> (t: &[GroupId])
        ensures
            t@ == self.targets_spec(),
    {
        self.targets.as_slice()
    }

    pub fn highlighted(&self) -> (h: usize)
        ensures
            h == self.highlighted_spec(),
    {
        self.highlighted
    }

    /// One row per target, plus "Novo grupo".
    pub fn row_count(&self) -> (n: usize)
        requires
            self.wf(),
        ensures
            n == self.targets_spec().len() + 1,
    {
        self.targets.len() + 1
    }

    /// Moves the highlight by `delta`, wrapping across all rows.
    pub fn move_highlight(&mut self, delta: isize)
        requires
            old(self).wf(),
            old(self).highlighted_spec() + delta <= isize::MAX,
        ensures
            final(self).wf(),
            final(self).highlighted_spec() as int == (old(self).highlighted_spec() + delta) % (
            old(self).targets_spec().len() + 1) as int,
            final(self).targets_spec() == old(self).targets_spec(),
            final(self).tab_spec() == old(self).tab_spec(),
            final(self).anchor_spec() == old(self).anchor_spec(),
    {
        let len = self.row_count();
        self.highlighted = wrap_index(self.highlighted, delta, len);
    }

    /// Highlights `index` when it designates a row; ignored otherwise.
    pub fn set_highlight(&mut self, index: usize)
        requires
            old(self).wf(),
        ensures
            final(self).wf(),
            index <= old(self).targets_spec().len() ==> final(self).highlighted_spec() == index,
            index > old(self).targets_spec().len() ==> final(self).highlighted_spec() == old(
                self,
            ).highlighted_spec(),
            final(self).targets_spec() == old(self).targets_spec(),
            final(self).tab_spec() == old(self).tab_spec(),
            final(self).anchor_spec() == old(self).anchor_spec(),
    {
        if index < self.row_count() {
            self.highlighted = index;
        }
    }

    /// The highlighted target; the last row is "Novo grupo".
    pub fn selected(&self) -> (t: MoveTarget)
        requires
            self.wf(),
        ensures
            self.highlighted_spec() < self.targets_spec().len() ==> t == MoveTarget::Group(
                self.targets_spec()[self.highlighted_spec() as int],
            ),
            self.highlighted_spec() == self.targets_spec().len() ==> t == MoveTarget::NewGroup,
    {
        if self.highlighted < self.targets.len() {
            MoveTarget::Group(self.targets[self.highlighted])
        } else {
            MoveTarget::NewGroup
        }
    }
}

/// Rows shown at once and the first of them: at most `max_visible_rows`
/// rows, scrolled as little as possible for the highlighted row to stay in
/// view.
pub open spec fn visible_window_spec(total_rows: int, max_visible_rows: int, highlighted: int) -> (int, int) {
    let visible = if total_rows < max_visible_rows {
        total_rows
    } else {
        max_visible_rows
    };
    let max_first = total_rows - visible;
    let lowest = if visible == 0 {
        highlighted
    } else if highlighted >= visible - 1 {
        highlighted - (visible - 1)
    } else {
        0
    };
    (visible, if lowest < max_first {
        lowest
    } else {
        max_first
    })
}

/// The scroll window of the popover's rows: `(visible rows, first visible
/// row)` (see [`visible_window_spec`]).
pub fn visible_window(total_rows: usize, max_visible_rows: usize, highlighted: usize) -> (r: (
    usize,
    usize,
))
    ensures
        (r.0 as int, r.1 as int) == visible_window_spec(
            total_rows as int,
            max_visible_rows as int,
            highlighted as int,
        ),
{
    let visible = if total_rows < max_visible_rows {
        total_rows
    } else {
        max_visible_rows
    };
    let max_first = total_rows - visible;
    let lowest = if visible == 0 {
        highlighted
    } else if highlighted >= visible - 1 {
        highlighted - (visible - 1)
    } else {
        0
    };
    (visible, if lowest < max_first {
        lowest
    } else {
        max_first
    })
}

/// With a highlighted row, the window holds it.
pub proof fn lemma_window_shows_highlight(total_rows: int, max_visible_rows: int, highlighted: int)
    requires
        0 <= highlighted < total_rows,
        max_visible_rows > 0,
    ensures
        ({
            let (visible, first) = visible_window_spec(total_rows, max_visible_rows, highlighted);
            &&& 0 <= first
            &&& first + visible <= total_rows
            &&& first <= highlighted < first + visible
        }),
{
}

} // verus!
