//! Multiple selection of tabs with an explicit anchor: ephemeral window
//! state deciding which tab ids a group action applies to.
use vstd::prelude::*;

use crate::ids::TabId;

verus! {

broadcast use vstd::seq_lib::group_seq_properties;

/// First index of `x` in `order` at or after `i`, if any.
pub open spec fn index_from(order: Seq<TabId>, x: TabId, i: int) -> Option<int>
    decreases order.len() - i,
{
    if i < 0 || i >= order.len() {
        None
    } else if order[i] == x {
        Some(i)
    } else {
        index_from(order, x, i + 1)
    }
}

/// `order.iter().position(|t| t == x)`.
pub open spec fn position(order: Seq<TabId>, x: TabId) -> Option<int> {
    index_from(order, x, 0)
}

pub proof fn lemma_index_from(order: Seq<TabId>, x: TabId, i: int)
    requires
        0 <= i,
    ensures
        index_from(order, x, i) matches Some(k) ==> i <= k < order.len() && order[k] == x && forall|
            j: int,
        | i <= j < k ==> order[j] != x,
        index_from(order, x, i) is None ==> forall|j: int| i <= j < order.len() ==> order[j] != x,
    decreases order.len() - i,
{
    if i < order.len() && order[i] != x {
        lemma_index_from(order, x, i + 1);
    }
}

fn position_exec(order: &[TabId], x: TabId) -> (r: Option<usize>)
    ensures
        match r {
            Some(k) => position(order@, x) == Some(k as int),
            None => position(order@, x) is None,
        },
{
    let mut i: usize = 0;
    while i < order.len()
        invariant
            i <= order@.len(),
            position(order@, x) == index_from(order@, x, i as int),
        decreases order.len() - i,
    {
        if order[i] == x {
            return Some(i);
        }
        i = i + 1;
    }
    None
}

/// Keyboard reordering moves the active tab one step within its group's
/// order: the target position `index + delta`, when the tab is in the
/// order and the target is inside it; `None` otherwise (nothing moves).
pub fn keyboard_move_target(order: &[TabId], active: TabId, delta: isize) -> (r: Option<usize>)
    ensures
        match position(order@, active) {
            None => r is None,
            Some(i) => if 0 <= i + delta < order@.len() {
                r == Some((i + delta) as usize)
            } else {
                r is None
            },
        },
{
    let index = match position_exec(order, active) {
        None => {
            return None;
        },
        Some(i) => i,
    };
    proof {
        lemma_index_from(order@, active, 0);
    }
    if delta < 0 {
        let back: usize = if delta == isize::MIN {
            (isize::MAX as usize) + 1
        } else {
            (-delta) as usize
        };
        if back > index {
            None
        } else {
            Some(index - back)
        }
    } else {
        let fwd = delta as usize;
        if fwd >= order.len() - index {
            None
        } else {
            Some(index + fwd)
        }
    }
}

/// The selected tab nearest to position `pos` at distance `d` or more:
/// at each distance the lower index is tried first.
pub open spec fn nearest_from(order: Seq<TabId>, pos: int, sel: Seq<TabId>, d: int) -> Option<TabId>
    decreases order.len() - d,
{
    if d < 1 || d >= order.len() {
        None
    } else if pos >= d && sel.contains(order[pos - d]) {
        Some(order[pos - d])
    } else if pos + d < order.len() && sel.contains(order[pos + d]) {
        Some(order[pos + d])
    } else {
        nearest_from(order, pos, sel, d + 1)
    }
}

/// Selected tab nearest to `from` in `order`, by increasing distance, ties
/// resolved to the lower index; `None` when `from` is not in `order` or no
/// selected tab remains.
pub open spec fn nearest_selected_spec(order: Seq<TabId>, from: TabId, sel: Seq<TabId>) -> Option<
    TabId,
> {
    match position(order, from) {
        None => None,
        Some(pos) => nearest_from(order, pos, sel, 1),
    }
}

fn contains_tab(v: &Vec<TabId>, x: TabId) -> (b: bool)
    ensures
        b == v@.contains(x),
{
    let mut i: usize = 0;
    while i < v.len()
        invariant
            i <= v@.len(),
            forall|j: int| 0 <= j < i ==> v@[j] != x,
        decreases v.len() - i,
    {
        if v[i] == x {
            assert(v@[i as int] == x);
            return true;
        }
        i = i + 1;
    }
    false
}

fn nearest_selected(order: &[TabId], from: TabId, selected: &Vec<TabId>) -> (r: Option<TabId>)
    ensures
        r == nearest_selected_spec(order@, from, selected@),
{
    let pos = match position_exec(order, from) {
        None => {
            return None;
        },
        Some(p) => p,
    };
    proof {
        lemma_index_from(order@, from, 0);
    }
    let n = order.len();
    let mut distance: usize = 1;
    while distance < n
        invariant
            n == order@.len(),
            pos < n,
            1 <= distance,
            nearest_selected_spec(order@, from, selected@) == nearest_from(
                order@,
                pos as int,
                selected@,
                distance as int,
            ),
        decreases n - distance,
    {
        if pos >= distance && contains_tab(selected, order[pos - distance]) {
            return Some(order[pos - distance]);
        }
        if distance < n - pos && contains_tab(selected, order[pos + distance]) {
            return Some(order[pos + distance]);
        }
        distance = distance + 1;
    }
    None
}

/// `v` without any occurrence of `id`.
fn without(v: &Vec<TabId>, id: TabId) -> (r: Vec<TabId>)
    ensures
        forall|t: TabId| r@.contains(t) <==> (t != id && v@.contains(t)),
{
    let mut kept: Vec<TabId> = Vec::new();
    let mut i: usize = 0;
    while i < v.len()
        invariant
            i <= v@.len(),
            forall|t: TabId| kept@.contains(t) <==> (t != id && v@.take(i as int).contains(t)),
        decreases v.len() - i,
    {
        let t = v[i];
        let ghost before = kept@;
        if t != id {
            kept.push(t);
        }
        assert(v@.take(i + 1) =~= v@.take(i as int).push(t));
        i = i + 1;
        assert forall|u: TabId| kept@.contains(u) <==> (u != id && v@.take(i as int).contains(u)) by {
            if t != id {
                assert(kept@ =~= before.push(t));
            }
        }
    }
    assert(v@.take(v@.len() as int) =~= v@);
    kept
}

/// `after` is `before` with `id` toggled: its membership flips, every
/// other tab and the anchor stay.
pub open spec fn toggles(before: Selection, after: Selection, id: TabId) -> bool {
    &&& after.selected_spec(id) == !before.selected_spec(id)
    &&& forall|t: TabId| t != id ==> after.selected_spec(t) == before.selected_spec(t)
    &&& after.anchor_spec() == before.anchor_spec()
}

/// Toggling the same tab twice gives back the selection and the anchor.
pub proof fn lemma_toggle_twice_restores(s0: Selection, s1: Selection, s2: Selection, id: TabId)
    requires
        toggles(s0, s1, id),
        toggles(s1, s2, id),
    ensures
        forall|t: TabId| s2.selected_spec(t) == s0.selected_spec(t),
        s2.anchor_spec() == s0.anchor_spec(),
{
}

/// Multiple selection with an explicit anchor.
#[derive(Debug, Clone)]
pub struct Selection {
    tabs: Vec<TabId>,
    /// Origin of the `Shift`+click range; `None` until the first one after
    /// the last clear.
    anchor: Option<TabId>,
}

impl Selection {
    /// The selected tabs (in no particular order; each id once).
    pub closed spec fn tabs_spec(&self) -> Seq<TabId> {
        self.tabs@
    }

    pub closed spec fn anchor_spec(&self) -> Option<TabId> {
        self.anchor
    }

    pub open spec fn selected_spec(&self, id: TabId) -> bool {
        self.tabs_spec().contains(id)
    }

    /// Nothing selected, no anchor.
    pub fn default() -> (s: Selection)
        ensures
            forall|t: TabId| !s.selected_spec(t),
            s.anchor_spec() is None,
    {
        Selection { tabs: Vec::new(), anchor: None }
    }

    pub fn is_empty(&self) -> (b: bool)
        ensures
            b == (forall|t: TabId| !self.selected_spec(t)),
    {
        if self.tabs.len() == 0 {
            true
        } else {
            assert(self.selected_spec(self.tabs@[0]));
            false
        }
    }

    pub fn is_selected(&self, id: TabId) -> (b: bool)
        ensures
            b == self.selected_spec(id),
    {
        contains_tab(&self.tabs, id)
    }

    /// Plain click (and `Esc`): clears the selection and the anchor.
    pub fn clear(&mut self)
        ensures
            forall|t: TabId| !final(self).selected_spec(t),
            final(self).anchor_spec() is None,
    {
        self.tabs = Vec::new();
        self.anchor = None;
    }

    /// `Ctrl`/`Cmd`+click: toggles `id` without touching the anchor.
    pub fn toggle(&mut self, id: TabId)
        ensures
            toggles(*old(self), *final(self), id),
    {
        if contains_tab(&self.tabs, id) {
            let kept = without(&self.tabs, id);
            self.tabs = kept;
        } else {
            self.tabs.push(id);
            assert(self.tabs@.last() == id);
            assert forall|t: TabId| t != id implies self.tabs@.contains(t) == old(
                self,
            ).tabs@.contains(t) by {
                if old(self).tabs@.contains(t) {
                    let j = choose|j: int| 0 <= j < old(self).tabs@.len() && old(self).tabs@[j] == t;
                    assert(self.tabs@[j] == t);
                }
                if self.tabs@.contains(t) {
                    let j = choose|j: int| 0 <= j < self.tabs@.len() && self.tabs@[j] == t;
                    assert(old(self).tabs@[j] == t);
                }
            }
        }
    }

    /// `Shift`+click. Without an anchor present in `order`: selects only
    /// `clicked` and makes it the anchor. With one: selects exactly the
    /// tabs of `order` between the anchor and `clicked` inclusive (nothing
    /// changes when `clicked` is not in `order`); the anchor does not move.
    pub fn select_range(&mut self, order: &[TabId], clicked: TabId)
        ensures
            range_selects(*old(self), *final(self), order@, clicked),
    {
        let anchor_pos = match self.anchor {
            Some(a) => position_exec(order, a),
            None => None,
        };
        let apos = match anchor_pos {
            None => {
                let mut v: Vec<TabId> = Vec::new();
                v.push(clicked);
                assert forall|t: TabId| v@.contains(t) <==> t == clicked by {
                    if t == clicked {
                        assert(v@[0] == t);
                    }
                }
                self.tabs = v;
                self.anchor = Some(clicked);
                return;
            },
            Some(p) => p,
        };
        let cpos = match position_exec(order, clicked) {
            None => {
                return;
            },
            Some(p) => p,
        };
        proof {
            lemma_index_from(order@, clicked, 0);
            if let Some(a) = self.anchor {
                lemma_index_from(order@, a, 0);
            }
        }
        let (lo, hi) = if apos <= cpos {
            (apos, cpos)
        } else {
            (cpos, apos)
        };
        let mut v: Vec<TabId> = Vec::new();
        let mut k = lo;
        while k <= hi
            invariant
                lo <= k <= hi + 1,
                hi < order@.len(),
                forall|t: TabId| v@.contains(t) <==> exists|j: int| lo <= j < k && order@[j] == t,
            decreases hi + 1 - k,
        {
            let t = order[k];
            let ghost before = v@;
            if !contains_tab(&v, t) {
                v.push(t);
            }
            k = k + 1;
            assert forall|u: TabId|
                v@.contains(u) <==> exists|j: int| lo <= j < k && order@[j] == u by {
                if exists|j: int| lo <= j < k && order@[j] == u {
                    let j = choose|j: int| lo <= j < k && order@[j] == u;
                    if j == k - 1 {
                        if !before.contains(t) {
                            assert(v@ =~= before.push(t));
                            assert(v@[v@.len() - 1] == u);
                        }
                    } else {
                        assert(before.contains(u));
                        if !before.contains(t) {
                            assert(v@ =~= before.push(t));
                            let i = choose|i: int| 0 <= i < before.len() && before[i] == u;
                            assert(v@[i] == u);
                        }
                    }
                }
                if v@.contains(u) {
                    if before.contains(u) {
                    } else {
                        assert(v@ =~= before.push(t));
                        let i = choose|i: int| 0 <= i < v@.len() && v@[i] == u;
                        assert(i == before.len());
                        assert(order@[k - 1] == u);
                    }
                }
            }
        }
        self.tabs = v;
    }

    /// Closing a selected tab: it leaves the selection; if it was the
    /// anchor, the new anchor is the remaining selected tab nearest to it in
    /// `order` (the order before the removal), or none.
    pub fn remove_tab(&mut self, id: TabId, order: &[TabId])
        ensures
            !final(self).selected_spec(id),
            forall|t: TabId| t != id ==> final(self).selected_spec(t) == old(self).selected_spec(t),
            old(self).anchor_spec() == Some(id) ==> final(self).anchor_spec()
                == nearest_selected_spec(order@, id, final(self).tabs_spec()),
            old(self).anchor_spec() != Some(id) ==> final(self).anchor_spec() == old(
                self,
            ).anchor_spec(),
    {
        let kept = without(&self.tabs, id);
        self.tabs = kept;
        let is_anchor = match self.anchor {
            Some(a) => a == id,
            None => false,
        };
        if is_anchor {
            self.anchor = nearest_selected(order, id, &self.tabs);
        }
    }
}

/// Distance between two positions of the order.
pub open spec fn gap(a: int, b: int) -> int {
    if a >= b {
        a - b
    } else {
        b - a
    }
}

proof fn lemma_nearest_from(order: Seq<TabId>, pos: int, sel: Seq<TabId>, d: int)
    requires
        0 <= pos < order.len(),
        1 <= d,
        forall|k: int|
            0 <= k < order.len() && k != pos && gap(k, pos) < d ==> !sel.contains(
                #[trigger] order[k],
            ),
    ensures
        nearest_from(order, pos, sel, d) matches Some(t) ==> exists|j: int|
            0 <= j < order.len() && j != pos && order[j] == t && sel.contains(t) && forall|k: int|
                0 <= k < order.len() && k != pos && sel.contains(#[trigger] order[k]) ==> (gap(j, pos)
                    < gap(k, pos) || (gap(j, pos) == gap(k, pos) && j <= k)),
        nearest_from(order, pos, sel, d) is None ==> forall|k: int|
            0 <= k < order.len() && k != pos ==> !sel.contains(#[trigger] order[k]),
    decreases order.len() - d,
{
    if d >= order.len() {
    } else if pos >= d && sel.contains(order[pos - d]) {
        let j = pos - d;
        assert forall|k: int|
            0 <= k < order.len() && k != pos && sel.contains(#[trigger] order[k]) implies (gap(j, pos)
                < gap(k, pos) || (gap(j, pos) == gap(k, pos) && j <= k)) by {}
    } else if pos + d < order.len() && sel.contains(order[pos + d]) {
        let j = pos + d;
        assert forall|k: int|
            0 <= k < order.len() && k != pos && sel.contains(#[trigger] order[k]) implies (gap(j, pos)
                < gap(k, pos) || (gap(j, pos) == gap(k, pos) && j <= k)) by {
            if gap(k, pos) == d && k < pos {
                assert(k == pos - d);
            }
        }
    } else {
        assert forall|k: int|
            0 <= k < order.len() && k != pos && gap(k, pos) < d + 1 implies !sel.contains(
                #[trigger] order[k],
            ) by {
            if gap(k, pos) == d {
                if k < pos {
                    assert(k == pos - d);
                } else {
                    assert(k == pos + d);
                }
            }
        }
        lemma_nearest_from(order, pos, sel, d + 1);
    }
}

/// When the anchor tab goes away, the new anchor is a selected tab of the
/// order at the smallest distance from the removed tab's position, the
/// left one on a tie; it is `None` only when no other tab of the order is
/// selected (or the removed tab is not in the order).
pub proof fn lemma_new_anchor_is_the_nearest_selected(order: Seq<TabId>, from: TabId, sel: Seq<TabId>)
    ensures
        nearest_selected_spec(order, from, sel) matches Some(t) ==> {
            let pos = position(order, from)->0;
            exists|j: int|
                0 <= j < order.len() && j != pos && order[j] == t && sel.contains(t) && forall|
                    k: int,
                |
                    0 <= k < order.len() && k != pos && sel.contains(#[trigger] order[k]) ==> (gap(
                        j,
                        pos,
                    ) < gap(k, pos) || (gap(j, pos) == gap(k, pos) && j <= k))
        },
        nearest_selected_spec(order, from, sel) is None ==> (position(order, from) is None
            || forall|k: int|
            0 <= k < order.len() && k != position(order, from)->0 ==> !sel.contains(
                #[trigger] order[k],
            )),
{
    lemma_index_from(order, from, 0);
    if let Some(pos) = position(order, from) {
        lemma_nearest_from(order, pos, sel, 1);
    }
}

/// What a `Shift`+click on `clicked` makes of `before` (see
/// [`Selection::select_range`]).
pub open spec fn range_selects(before: Selection, after: Selection, order: Seq<TabId>, clicked: TabId) -> bool {
    let ap = match before.anchor_spec() {
        Some(a) => position(order, a),
        None => None,
    };
    match ap {
        None => {
            &&& forall|t: TabId| after.selected_spec(t) <==> t == clicked
            &&& after.anchor_spec() == Some(clicked)
        },
        Some(apos) => match position(order, clicked) {
            None => {
                &&& forall|t: TabId|
                    after.selected_spec(t) == before.selected_spec(t)
                &&& after.anchor_spec() == before.anchor_spec()
            },
            Some(cpos) => {
                let lo = if apos <= cpos {
                    apos
                } else {
                    cpos
                };
                let hi = if apos <= cpos {
                    cpos
                } else {
                    apos
                };
                &&& forall|t: TabId|
                    after.selected_spec(t) <==> exists|j: int|
                        lo <= j <= hi && order[j] == t
                &&& after.anchor_spec() == before.anchor_spec()
            },
        },
    }
}

/// A `Shift`+click from an anchor in the order to a tab in the order keeps
/// the anchor, selects both ends, and selects a tab exactly when it stands
/// between them: at some position whose distances to the two ends add up
/// to the distance between the ends.
pub proof fn lemma_range_is_what_lies_between(before: Selection, after: Selection, order: Seq<TabId>, clicked: TabId)
    requires
        range_selects(before, after, order, clicked),
        before.anchor_spec() matches Some(a) && position(order, a) is Some,
        position(order, clicked) is Some,
    ensures
        ({
            let a = before.anchor_spec()->0;
            let apos = position(order, a)->0;
            let cpos = position(order, clicked)->0;
            &&& after.anchor_spec() == Some(a)
            &&& after.selected_spec(a)
            &&& after.selected_spec(clicked)
            &&& forall|t: TabId|
                after.selected_spec(t) <==> exists|j: int|
                    0 <= j < order.len() && order[j] == t && #[trigger] gap(j, apos) + gap(j, cpos)
                        == gap(apos, cpos)
        }),
{
    let a = before.anchor_spec()->0;
    lemma_index_from(order, a, 0);
    lemma_index_from(order, clicked, 0);
    let apos = position(order, a)->0;
    let cpos = position(order, clicked)->0;
    assert(order[apos] == a);
    assert(order[cpos] == clicked);
    assert forall|t: TabId|
        after.selected_spec(t) <==> exists|j: int|
            0 <= j < order.len() && order[j] == t && #[trigger] gap(j, apos) + gap(j, cpos) == gap(
                apos,
                cpos,
            ) by {
        if after.selected_spec(t) {
            let lo = if apos <= cpos { apos } else { cpos };
            let hi = if apos <= cpos { cpos } else { apos };
            let j = choose|j: int| lo <= j <= hi && order[j] == t;
            assert(gap(j, apos) + gap(j, cpos) == gap(apos, cpos));
        }
    }
}

} // verus!
