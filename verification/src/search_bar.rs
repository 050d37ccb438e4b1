//! Search bar of a tab: the state of an open search (query, regex toggle,
//! last valid result, active occurrence), the counter text, and the pure
//! geometry that clips occurrences to the viewport and scrolls an
//! occurrence into view below the bar.
use vstd::prelude::*;

use crate::ids::TabId;
use crate::text;
use crate::text::usize_to_string;
use vstd::string::StringExecFns;

verus! {

broadcast use vstd::string::group_string_axioms;

/// A position in the grid: `line` may be negative (scrollback).
#[derive(Debug, Clone, Copy, PartialEq, Eq, Structural)]
pub struct GridPos {
    pub line: i32,
    pub column: usize,
}

/// One match of the search, from `start` to `end` inclusive.
#[derive(Debug, Clone, Copy, PartialEq, Eq, Structural)]
pub struct Occurrence {
    pub start: GridPos,
    pub end: GridPos,
}

/// An occurrence clipped to viewport rows, for the grid painter.
#[derive(Debug, Clone, Copy, PartialEq, Eq, Structural)]
pub struct OccurrenceSpan {
    pub start_row: usize,
    pub start_col: usize,
    pub end_row: usize,
    pub end_col: usize,
    pub active: bool,
}

/// The viewport row of grid line `line` (`line + scroll_offset`), when it
/// is inside the `rows` visible rows.
pub open spec fn to_viewport_row_spec(line: i32, scroll_offset: usize, rows: usize) -> Option<usize> {
    let row = line + (scroll_offset as i32);
    if 0 <= row && row < rows {
        Some(row as usize)
    } else {
        None
    }
}

/// `line + scroll_offset as i32` does not overflow `i32`.
pub open spec fn viewport_fits(line: i32, scroll_offset: usize) -> bool {
    i32::MIN <= line + (scroll_offset as i32) <= i32::MAX
}

pub fn to_viewport_row(line: i32, scroll_offset: usize, rows: usize) -> (r: Option<usize>)
    requires
        viewport_fits(line, scroll_offset),
    ensures
        r == to_viewport_row_spec(line, scroll_offset, rows),
{
    let row = line + scroll_offset as i32;
    if row >= 0 && (row as usize) < rows {
        Some(row as usize)
    } else {
        None
    }
}

/// The spans of `occs[i..]` appended to `acc`: occurrences with either end
/// outside the view are dropped; the one at `active` is marked.
pub open spec fn spans_from(
    occs: Seq<Occurrence>,
    active: usize,
    scroll_offset: usize,
    rows: usize,
    i: int,
    acc: Seq<OccurrenceSpan>,
) -> Seq<OccurrenceSpan>
    decreases occs.len() - i,
{
    if i < 0 || i >= occs.len() {
        acc
    } else {
        let o = occs[i];
        match (
            to_viewport_row_spec(o.start.line, scroll_offset, rows),
            to_viewport_row_spec(o.end.line, scroll_offset, rows),
        ) {
            (Some(sr), Some(er)) => spans_from(
                occs,
                active,
                scroll_offset,
                rows,
                i + 1,
                acc.push(
                    OccurrenceSpan {
                        start_row: sr,
                        start_col: o.start.column,
                        end_row: er,
                        end_col: o.end.column,
                        active: i == active,
                    },
                ),
            ),
            _ => spans_from(occs, active, scroll_offset, rows, i + 1, acc),
        }
    }
}

/// Clips the occurrences to the viewport, appending the visible ones to
/// `out` in order (see [`spans_from`]).
pub fn occurrences_in_view(
    occurrences: &[Occurrence],
    active_index: usize,
    scroll_offset: usize,
    rows: usize,
    out: &mut Vec<OccurrenceSpan>,
)
    requires
        forall|i: int|
            0 <= i < occurrences@.len() ==> viewport_fits(
                (#[trigger] occurrences@[i]).start.line,
                scroll_offset,
            ) && viewport_fits(occurrences@[i].end.line, scroll_offset),
    ensures
        final(out)@ == spans_from(occurrences@, active_index, scroll_offset, rows, 0, old(out)@),
{
    let mut index: usize = 0;
    while index < occurrences.len()
        invariant
            index <= occurrences@.len(),
            forall|i: int|
                0 <= i < occurrences@.len() ==> viewport_fits(
                    (#[trigger] occurrences@[i]).start.line,
                    scroll_offset,
                ) && viewport_fits(occurrences@[i].end.line, scroll_offset),
            spans_from(occurrences@, active_index, scroll_offset, rows, 0, old(out)@) == spans_from(
                occurrences@,
                active_index,
                scroll_offset,
                rows,
                index as int,
                out@,
            ),
        decreases occurrences.len() - index,
    {
        let occ = occurrences[index];
        assert(viewport_fits(occurrences@[index as int].start.line, scroll_offset));
        let s = to_viewport_row(occ.start.line, scroll_offset, rows);
        let e = to_viewport_row(occ.end.line, scroll_offset, rows);
        match (s, e) {
            (Some(start_row), Some(end_row)) => {
                out.push(
                    OccurrenceSpan {
                        start_row,
                        start_col: occ.start.column,
                        end_row,
                        end_col: occ.end.column,
                        active: index == active_index,
                    },
                );
            },
            _ => {},
        }
        index = index + 1;
    }
}

/// Lines to scroll (positive: up into the history) so that `target_line`
/// is visible below the `reserved` rows covered by the bar: zero when it
/// already is; otherwise the offset that puts it at row `reserved`.
pub open spec fn scroll_delta_spec(
    target_line: i32,
    current_scroll_offset: usize,
    rows: usize,
    reserved: usize,
) -> int {
    let visible_row = target_line + (current_scroll_offset as i32);
    if visible_row >= (reserved as i32) && visible_row < (rows as i32) {
        0
    } else {
        (reserved as i32) - target_line - (current_scroll_offset as i32)
    }
}

/// The `i32` computations of the scroll delta do not overflow.
pub open spec fn scroll_fits(target_line: i32, current_scroll_offset: usize, reserved: usize) -> bool {
    &&& i32::MIN <= target_line + (current_scroll_offset as i32) <= i32::MAX
    &&& i32::MIN <= (reserved as i32) - target_line <= i32::MAX
    &&& i32::MIN <= (reserved as i32) - target_line - (current_scroll_offset as i32) <= i32::MAX
}

pub fn scroll_delta_to_reveal(
    target_line: i32,
    current_scroll_offset: usize,
    rows: usize,
    reserved: usize,
) -> (d: i32)
    requires
        scroll_fits(target_line, current_scroll_offset, reserved),
    ensures
        d == scroll_delta_spec(target_line, current_scroll_offset, rows, reserved),
{
    let visible_row = target_line + current_scroll_offset as i32;
    let reserved = reserved as i32;
    let rows = rows as i32;
    if visible_row >= reserved && visible_row < rows {
        return 0;
    }
    let desired_offset = reserved - target_line;
    desired_offset - current_scroll_offset as i32
}

/// Text shown for an invalid pattern.
pub const PATTERN_INVALID_LABEL: &'static str = "padrão inválido";

/// Text shown when the pattern matches nothing.
pub const NO_RESULTS_LABEL: &'static str = "nenhum resultado";

/// Suffix of the counter when the search is reduced to the visible screen.
pub const ALT_SCREEN_SUFFIX: &'static str = " (tela alternativa)";

/// State of a search open in one tab. The search itself runs elsewhere;
/// this state records its outcomes.
#[derive(Debug)]
pub struct SearchBarState {
    tab: TabId,
    query: String,
    regex: bool,
    /// Error of the current pattern; the last valid result is kept.
    error: Option<String>,
    /// Whether a search was started successfully at least once.
    has_job: bool,
    occurrences: Vec<Occurrence>,
    scope_reduced: bool,
    active: usize,
}

impl SearchBarState {
    pub closed spec fn tab_spec(&self) -> TabId {
        self.tab
    }

    pub closed spec fn query_spec(&self) -> Seq<char> {
        self.query@
    }

    pub closed spec fn regex_spec(&self) -> bool {
        self.regex
    }

    pub closed spec fn error_spec(&self) -> Option<Seq<char>> {
        match self.error {
            Some(e) => Some(e@),
            None => None,
        }
    }

    pub closed spec fn occurrences_spec(&self) -> Seq<Occurrence> {
        self.occurrences@
    }

    pub closed spec fn active_spec(&self) -> usize {
        self.active
    }

    pub closed spec fn scope_reduced_spec(&self) -> bool {
        self.has_job && self.scope_reduced
    }

    /// The active index designates an occurrence (or is 0 without any).
    pub closed spec fn wf(&self) -> bool {
        self.active == 0 || self.active < self.occurrences@.len()
    }

    /// Empty query, no search yet.
    pub fn new(tab: TabId) -> (s: Self)
        ensures
            s.wf(),
            s.tab_spec() == tab,
            s.query_spec() == Seq::<char>::empty(),
            !s.regex_spec(),
            s.error_spec() is None,
            s.occurrences_spec() == Seq::<Occurrence>::empty(),
            s.active_spec() == 0,
            !s.scope_reduced_spec(),
    {
        SearchBarState {
            tab,
            query: String::new(),
            regex: false,
            error: None,
            has_job: false,
            occurrences: Vec::new(),
            scope_reduced: false,
            active: 0,
        }
    }

    pub fn tab(&self) -> (t: TabId)
        ensures
            t == self.tab_spec(),
    {
        self.tab
    }

    pub fn query(&self) -> (q: &str)
        ensures
            q@ == self.query_spec(),
    {
        self.query.as_str()
    }

    /// Replaces the query text (the caller then restarts the search).
    pub fn set_query(&mut self, query: String)
        requires
            old(self).wf(),
        ensures
            final(self).wf(),
            final(self).query_spec() == query@,
            final(self).tab_spec() == old(self).tab_spec(),
            final(self).regex_spec() == old(self).regex_spec(),
            final(self).error_spec() == old(self).error_spec(),
            final(self).occurrences_spec() == old(self).occurrences_spec(),
            final(self).active_spec() == old(self).active_spec(),
            final(self).scope_reduced_spec() == old(self).scope_reduced_spec(),
    {
        self.query = query;
    }

    pub fn is_regex(&self) -> (b: bool)
        ensures
            b == self.regex_spec(),
    {
        self.regex
    }

    pub fn occurrences(&self) -> (o: &[Occurrence])
        ensures
            o@ == self.occurrences_spec(),
    {
        self.occurrences.as_slice()
    }

    pub fn active_index(&self) -> (a: usize)
        ensures
            a == self.active_spec(),
    {
        self.active
    }

    /// The alternate screen reduces the scope to the visible screen;
    /// `false` before any search ran.
    pub fn scope_reduced(&self) -> (b: bool)
        ensures
            b == self.scope_reduced_spec(),
    {
        self.has_job && self.scope_reduced
    }

    /// Flips the regex toggle (the caller then restarts the search).
    pub fn toggle_regex(&mut self)
        requires
            old(self).wf(),
        ensures
            final(self).wf(),
            final(self).regex_spec() == !old(self).regex_spec(),
            final(self).query_spec() == old(self).query_spec(),
            final(self).tab_spec() == old(self).tab_spec(),
            final(self).error_spec() == old(self).error_spec(),
            final(self).occurrences_spec() == old(self).occurrences_spec(),
            final(self).active_spec() == old(self).active_spec(),
            final(self).scope_reduced_spec() == old(self).scope_reduced_spec(),
    {
        self.regex = !self.regex;
    }

    /// Records the start of a search: a valid pattern replaces the result
    /// (occurrences found so far, whether the scope is reduced) and resets
    /// the active occurrence; an invalid one only records its error and
    /// keeps the last valid result.
    pub fn record_restart(&mut self, outcome: Result<(Vec<Occurrence>, bool), String>)
        requires
            old(self).wf(),
        ensures
            final(self).wf(),
            final(self).query_spec() == old(self).query_spec(),
            final(self).tab_spec() == old(self).tab_spec(),
            final(self).regex_spec() == old(self).regex_spec(),
            match outcome {
                Ok((occs, reduced)) => {
                    &&& final(self).error_spec() is None
                    &&& final(self).occurrences_spec() == occs@
                    &&& final(self).active_spec() == 0
                    &&& final(self).scope_reduced_spec() == reduced
                },
                Err(e) => {
                    &&& final(self).error_spec() == Some(e@)
                    &&& final(self).occurrences_spec() == old(self).occurrences_spec()
                    &&& final(self).active_spec() == old(self).active_spec()
                    &&& final(self).scope_reduced_spec() == old(self).scope_reduced_spec()
                },
            },
    {
        match outcome {
            Ok((occs, reduced)) => {
                self.error = None;
                self.has_job = true;
                self.occurrences = occs;
                self.scope_reduced = reduced;
                self.active = 0;
            },
            Err(e) => {
                self.error = Some(e);
            },
        }
    }

    /// Records a further batch of occurrences found by the running search.
    pub fn record_progress(&mut self, found: Vec<Occurrence>)
        requires
            old(self).wf(),
        ensures
            final(self).wf(),
            final(self).occurrences_spec() == old(self).occurrences_spec() + found@,
            final(self).active_spec() == old(self).active_spec(),
            final(self).query_spec() == old(self).query_spec(),
            final(self).tab_spec() == old(self).tab_spec(),
            final(self).regex_spec() == old(self).regex_spec(),
            final(self).error_spec() == old(self).error_spec(),
            final(self).scope_reduced_spec() == old(self).scope_reduced_spec(),
    {
        let mut i: usize = 0;
        let ghost start = self.occurrences@;
        while i < found.len()
            invariant
                i <= found@.len(),
                self.occurrences@ == start + found@.take(i as int),
                self.active == old(self).active,
                self.query == old(self).query,
                self.tab == old(self).tab,
                self.regex == old(self).regex,
                self.error == old(self).error,
                self.has_job == old(self).has_job,
                self.scope_reduced == old(self).scope_reduced,
                start == old(self).occurrences@,
                old(self).wf(),
            decreases found.len() - i,
        {
            self.occurrences.push(found[i]);
            i = i + 1;
            assert(self.occurrences@ =~= start + found@.take(i as int));
        }
        assert(found@.take(found@.len() as int) =~= found@);
    }

    /// `search.next` / `search.prev`: the next (or previous) occurrence,
    /// wrapping at both ends; `None` without any occurrence.
    pub fn advance(&mut self, forward: bool) -> (r: Option<Occurrence>)
        requires
            old(self).wf(),
        ensures
            final(self).wf(),
            old(self).occurrences_spec().len() == 0 ==> r is None && final(self).active_spec()
                == old(self).active_spec(),
            old(self).occurrences_spec().len() > 0 ==> {
                let total = old(self).occurrences_spec().len() as int;
                &&& final(self).active_spec() as int == (if forward {
                    (old(self).active_spec() + 1) % total
                } else {
                    (old(self).active_spec() + total - 1) % total
                })
                &&& r == Some(old(self).occurrences_spec()[final(self).active_spec() as int])
            },
            final(self).occurrences_spec() == old(self).occurrences_spec(),
            final(self).query_spec() == old(self).query_spec(),
            final(self).tab_spec() == old(self).tab_spec(),
            final(self).regex_spec() == old(self).regex_spec(),
            final(self).error_spec() == old(self).error_spec(),
            final(self).scope_reduced_spec() == old(self).scope_reduced_spec(),
    {
        let total = self.occurrences.len();
        if total == 0 {
            return None;
        }
        proof {
            let t = total as int;
            let a = self.active as int;
            if forward {
                if a + 1 < t {
                    vstd::arithmetic::div_mod::lemma_small_mod((a + 1) as nat, t as nat);
                } else {
                    vstd::arithmetic::div_mod::lemma_mod_self_0(t);
                }
            } else {
                if a == 0 {
                    vstd::arithmetic::div_mod::lemma_small_mod((t - 1) as nat, t as nat);
                } else {
                    vstd::arithmetic::div_mod::lemma_mod_add_multiples_vanish(a - 1, t);
                    vstd::arithmetic::div_mod::lemma_small_mod((a - 1) as nat, t as nat);
                }
            }
        }
        self.active = if forward {
            if self.active + 1 < total {
                self.active + 1
            } else {
                0
            }
        } else {
            if self.active == 0 {
                total - 1
            } else {
                self.active - 1
            }
        };
        Some(self.occurrences[self.active])
    }

    /// Text of the counter (see [`Self::counter_display`]).
    pub open spec fn counter_text_spec(&self) -> Seq<char> {
        if self.error_spec() is Some {
            PATTERN_INVALID_LABEL@
        } else if self.query_spec().len() == 0 {
            Seq::<char>::empty()
        } else if self.occurrences_spec().len() == 0 {
            NO_RESULTS_LABEL@
        } else {
            text::decimal((self.active_spec() + 1) as nat) + "/"@ + text::decimal(
                self.occurrences_spec().len(),
            )
        }
    }

    /// The counter as the bar shows it: [`Self::counter_display`], with
    /// [`ALT_SCREEN_SUFFIX`] appended when the search is reduced to the
    /// visible screen (never to an error or to a blank counter).
    pub fn counter_label(&self) -> (r: (String, bool))
        requires
            self.wf(),
        ensures
            r.1 == (self.error_spec() is Some),
            r.0@ == (if self.error_spec() is None && self.scope_reduced_spec()
                && self.counter_text_spec().len() > 0 {
                self.counter_text_spec() + ALT_SCREEN_SUFFIX@
            } else {
                self.counter_text_spec()
            }),
    {
        let (mut text, is_error) = self.counter_display();
        if !is_error && self.scope_reduced() && !text.as_str().is_empty() {
            text.append(ALT_SCREEN_SUFFIX);
        }
        (text, is_error)
    }

    /// The counter: the fixed label in the error colour for an invalid
    /// pattern; blank for an empty query; "nenhum resultado" without
    /// occurrences; otherwise `"<active + 1>/<total>"`.
    pub fn counter_display(&self) -> (r: (String, bool))
        requires
            self.wf(),
        ensures
            r.1 == (self.error_spec() is Some),
            r.0@ == self.counter_text_spec(),
    {
        if self.error.is_some() {
            return (PATTERN_INVALID_LABEL.to_owned(), true);
        }
        if self.query.as_str().is_empty() {
            return (String::new(), false);
        }
        let total = self.occurrences.len();
        if total == 0 {
            (NO_RESULTS_LABEL.to_owned(), false)
        } else {
            let mut s = usize_to_string(self.active + 1);
            s.append("/");
            let t = usize_to_string(total);
            s.append(t.as_str());
            (s, false)
        }
    }
}

/// Scrolling by the computed delta brings the target line below the bar
/// and inside the viewport (whenever the bar leaves a row free).
pub proof fn lemma_scroll_reveals_the_target(
    target_line: i32,
    current_scroll_offset: usize,
    rows: usize,
    reserved: usize,
)
    requires
        reserved < rows <= i32::MAX,
        scroll_fits(target_line, current_scroll_offset, reserved),
    ensures
        ({
            let row = target_line + (current_scroll_offset as i32) + scroll_delta_spec(
                target_line,
                current_scroll_offset,
                rows,
                reserved,
            );
            reserved <= row < rows
        }),
{
}

/// `search.prev` undoes `search.next`, and the other way round.
pub proof fn lemma_advance_round_trip(active: int, total: int)
    requires
        0 <= active < total,
    ensures
        (((active + 1) % total) + total - 1) % total == active,
        (((active + total - 1) % total) + 1) % total == active,
{
    crate::cycle::lemma_wrap_is_undone(active, 1, total);
    crate::cycle::lemma_wrap_is_undone(active, -1, total);
    vstd::arithmetic::div_mod::lemma_mod_add_multiples_vanish((active + 1) % total - 1, total);
    vstd::arithmetic::div_mod::lemma_mod_add_multiples_vanish(active - 1, total);
}

} // verus!
