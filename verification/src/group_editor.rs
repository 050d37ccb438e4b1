//! Group editor: a popover with three regions navigated by `Tab` -- name
//! field, strip of six swatches, list of actions. The name is edited live
//! in a buffer; colour and actions apply only on `Enter`.
use vstd::prelude::*;

use crate::cycle::wrap_index;
use crate::group_menu::{editor_action_at, editor_action_order_spec, GroupAction};
use crate::ids::GroupId;
use crate::text::{string_pop, string_push};

verus! {

broadcast use vstd::string::group_string_axioms;

#[derive(Debug, Clone, Copy, PartialEq, Eq, Structural)]
pub enum EditorRegion {
    Name,
    Swatches,
    Actions,
}

/// Position of a region in the `Tab` order name -> swatches -> actions.
pub open spec fn region_index(r: EditorRegion) -> int {
    match r {
        EditorRegion::Name => 0,
        EditorRegion::Swatches => 1,
        EditorRegion::Actions => 2,
    }
}

pub open spec fn region_at(i: int) -> EditorRegion {
    if i == 0 {
        EditorRegion::Name
    } else if i == 1 {
        EditorRegion::Swatches
    } else {
        EditorRegion::Actions
    }
}

/// Number of colour swatches.
pub const SWATCH_COUNT: usize = 6;

/// Number of actions of the editor.
pub const EDITOR_ACTION_COUNT: usize = 3;

#[derive(Debug, Clone)]
pub struct GroupEditor {
    pub group: GroupId,
    focus: EditorRegion,
    name_buffer: String,
    swatch_highlight: usize,
    action_highlight: usize,
}

impl GroupEditor {
    pub closed spec fn group_spec(&self) -> GroupId {
        self.group
    }

    pub closed spec fn focus_spec(&self) -> EditorRegion {
        self.focus
    }

    pub closed spec fn name_spec(&self) -> Seq<char> {
        self.name_buffer@
    }

    pub closed spec fn swatch_spec(&self) -> usize {
        self.swatch_highlight
    }

    pub closed spec fn action_spec(&self) -> usize {
        self.action_highlight
    }

    /// The highlights designate a swatch and an action.
    pub closed spec fn wf(&self) -> bool {
        self.swatch_highlight < SWATCH_COUNT && self.action_highlight < EDITOR_ACTION_COUNT
    }

    /// What well-formedness says of the highlights.
    pub proof fn lemma_wf(&self)
        requires
            self.wf(),
        ensures
            self.swatch_spec() < SWATCH_COUNT,
            self.action_spec() < EDITOR_ACTION_COUNT,
    {
    }

    /// Opens with `initial_focus`, the buffer holding the current name, the
    /// swatch highlight on the current colour (clamped to the last swatch)
    /// and the first action highlighted.
    pub fn new(
        group: GroupId,
        current_name: &str,
        current_color_index: usize,
        initial_focus: EditorRegion,
    ) -> (e: Self)
        ensures
            e.wf(),
            e.group_spec() == group,
            e.focus_spec() == initial_focus,
            e.name_spec() == current_name@,
            e.swatch_spec() == (if current_color_index < SWATCH_COUNT {
                current_color_index
            } else {
                (SWATCH_COUNT - 1) as usize
            }),
            e.action_spec() == 0,
    {
        GroupEditor {
            group,
            focus: initial_focus,
            name_buffer: current_name.to_owned(),
            swatch_highlight: if current_color_index < SWATCH_COUNT {
                current_color_index
            } else {
                SWATCH_COUNT - 1
            },
            action_highlight: 0,
        }
    }

    pub fn group(&self) -> (g: GroupId)
        ensures
            g == self.group_spec(),
    {
        self.group
    }

    pub fn focus(&self) -> (r: EditorRegion)
        ensures
            r == self.focus_spec(),
    {
        self.focus
    }

    pub fn name_buffer(&self) -> (r: &str)
        ensures
            r@ == self.name_spec(),
    {
        self.name_buffer.as_str()
    }

    pub fn swatch_highlight(&self) -> (r: usize)
        ensures
            r == self.swatch_spec(),
    {
        self.swatch_highlight
    }

    pub fn action_highlight(&self) -> (r: usize)
        ensures
            r == self.action_spec(),
    {
        self.action_highlight
    }

    /// Types into the name buffer; only while the name field has focus.
    pub fn push_char(&mut self, c: char)
        requires
            old(self).wf(),
        ensures
            final(self).wf(),
            old(self).focus_spec() == EditorRegion::Name ==> final(self).name_spec() == old(
                self,
            ).name_spec().push(c),
            old(self).focus_spec() != EditorRegion::Name ==> final(self).name_spec() == old(
                self,
            ).name_spec(),
            final(self).focus_spec() == old(self).focus_spec(),
            final(self).swatch_spec() == old(self).swatch_spec(),
            final(self).action_spec() == old(self).action_spec(),
            final(self).group_spec() == old(self).group_spec(),
    {
        if self.focus == EditorRegion::Name {
            string_push(&mut self.name_buffer, c);
        }
    }

    /// Deletes the last character of the buffer; only in the name field.
    pub fn backspace(&mut self)
        requires
            old(self).wf(),
        ensures
            final(self).wf(),
            (old(self).focus_spec() == EditorRegion::Name && old(self).name_spec().len() > 0)
                ==> final(self).name_spec() == old(self).name_spec().drop_last(),
            !(old(self).focus_spec() == EditorRegion::Name && old(self).name_spec().len() > 0)
                ==> final(self).name_spec() == old(self).name_spec(),
            final(self).focus_spec() == old(self).focus_spec(),
            final(self).swatch_spec() == old(self).swatch_spec(),
            final(self).action_spec() == old(self).action_spec(),
            final(self).group_spec() == old(self).group_spec(),
    {
        if self.focus == EditorRegion::Name {
            let _ = string_pop(&mut self.name_buffer);
        }
    }

    /// `Tab` / `Shift+Tab`: the next (or previous) region, cyclically.
    pub fn cycle_focus(&mut self, forward: bool)
        requires
            old(self).wf(),
        ensures
            final(self).wf(),
            final(self).focus_spec() == region_at(
                (region_index(old(self).focus_spec()) + (if forward {
                    1int
                } else {
                    -1int
                })) % 3,
            ),
            final(self).name_spec() == old(self).name_spec(),
            final(self).swatch_spec() == old(self).swatch_spec(),
            final(self).action_spec() == old(self).action_spec(),
            final(self).group_spec() == old(self).group_spec(),
    {
        let idx: usize = match self.focus {
            EditorRegion::Name => 0,
            EditorRegion::Swatches => 1,
            EditorRegion::Actions => 2,
        };
        let delta: isize = if forward {
            1
        } else {
            -1
        };
        let next = wrap_index(idx, delta, 3);
        self.focus = if next == 0 {
            EditorRegion::Name
        } else if next == 1 {
            EditorRegion::Swatches
        } else {
            EditorRegion::Actions
        };
    }

    pub fn set_focus(&mut self, focus: EditorRegion)
        requires
            old(self).wf(),
        ensures
            final(self).wf(),
            final(self).focus_spec() == focus,
            final(self).name_spec() == old(self).name_spec(),
            final(self).swatch_spec() == old(self).swatch_spec(),
            final(self).action_spec() == old(self).action_spec(),
            final(self).group_spec() == old(self).group_spec(),
    {
        self.focus = focus;
    }

    /// Arrows: move the swatch highlight in the strip, the action highlight
    /// in the list, nothing in the name field; cyclically.
    pub fn move_highlight(&mut self, delta: isize)
        requires
            old(self).wf(),
            old(self).focus_spec() == EditorRegion::Swatches ==> old(self).swatch_spec() + delta
                <= isize::MAX,
            old(self).focus_spec() == EditorRegion::Actions ==> old(self).action_spec() + delta
                <= isize::MAX,
        ensures
            final(self).wf(),
            old(self).focus_spec() == EditorRegion::Swatches ==> final(self).swatch_spec() as int
                == (old(self).swatch_spec() + delta) % 6,
            old(self).focus_spec() != EditorRegion::Swatches ==> final(self).swatch_spec() == old(
                self,
            ).swatch_spec(),
            old(self).focus_spec() == EditorRegion::Actions ==> final(self).action_spec() as int
                == (old(self).action_spec() + delta) % 3,
            old(self).focus_spec() != EditorRegion::Actions ==> final(self).action_spec() == old(
                self,
            ).action_spec(),
            final(self).focus_spec() == old(self).focus_spec(),
            final(self).name_spec() == old(self).name_spec(),
            final(self).group_spec() == old(self).group_spec(),
    {
        match self.focus {
            EditorRegion::Swatches => {
                self.swatch_highlight = wrap_index(self.swatch_highlight, delta, SWATCH_COUNT);
            },
            EditorRegion::Actions => {
                self.action_highlight = wrap_index(
                    self.action_highlight,
                    delta,
                    EDITOR_ACTION_COUNT,
                );
            },
            EditorRegion::Name => {},
        }
    }

    pub fn set_swatch_highlight(&mut self, index: usize)
        requires
            old(self).wf(),
        ensures
            final(self).wf(),
            index < SWATCH_COUNT ==> final(self).swatch_spec() == index,
            index >= SWATCH_COUNT ==> final(self).swatch_spec() == old(self).swatch_spec(),
            final(self).focus_spec() == old(self).focus_spec(),
            final(self).name_spec() == old(self).name_spec(),
            final(self).action_spec() == old(self).action_spec(),
            final(self).group_spec() == old(self).group_spec(),
    {
        if index < SWATCH_COUNT {
            self.swatch_highlight = index;
        }
    }

    pub fn set_action_highlight(&mut self, index: usize)
        requires
            old(self).wf(),
        ensures
            final(self).wf(),
            index < EDITOR_ACTION_COUNT ==> final(self).action_spec() == index,
            index >= EDITOR_ACTION_COUNT ==> final(self).action_spec() == old(self).action_spec(),
            final(self).focus_spec() == old(self).focus_spec(),
            final(self).name_spec() == old(self).name_spec(),
            final(self).swatch_spec() == old(self).swatch_spec(),
            final(self).group_spec() == old(self).group_spec(),
    {
        if index < EDITOR_ACTION_COUNT {
            self.action_highlight = index;
        }
    }

    /// The highlighted action of the list.
    pub fn selected_action(&self) -> (a: GroupAction)
        requires
            self.wf(),
        ensures
            a == editor_action_order_spec()[self.action_spec() as int],
    {
        editor_action_at(self.action_highlight)
    }
}

/// `Shift+Tab` undoes `Tab`, and three `Tab`s come back to the start.
pub proof fn lemma_focus_cycle(r: EditorRegion)
    ensures
        region_at((region_index(region_at((region_index(r) + 1) % 3)) - 1) % 3) == r,
        region_at(
            (region_index(region_at((region_index(region_at((region_index(r) + 1) % 3)) + 1) % 3))
                + 1) % 3,
        ) == r,
{
}

} // verus!
