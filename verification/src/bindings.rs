//! Resolution of `[keybindings]`: embedded defaults of the platform, then
//! the user's common table, then the user's table of the platform. Each
//! table is applied on top of the map accumulated so far: a chord bound in
//! two tables is an override; only a table that binds one chord twice is
//! an error.
//!
//! The action type `A` is the application's: each line of a table arrives
//! with its action text and what that text parses to.
use vstd::prelude::*;

use crate::keymap::{parse_chord_spec, Chord, Platform};
use crate::text::{chars_of, eq_chars};
use vstd::string::StringExecFns;

verus! {

/// A chord -> action map, one entry per chord.
#[derive(Debug, Clone)]
pub struct Keymap<A> {
    entries: Vec<(Chord, A)>,
}

/// No chord occurs twice.
pub open spec fn distinct_chords<A>(s: Seq<(Chord, A)>) -> bool {
    forall|i: int, j: int| 0 <= i < j < s.len() ==> s[i].0 != s[j].0
}

/// Whether `c` has an entry in `s`.
pub open spec fn has_chord<A>(s: Seq<(Chord, A)>, c: Chord) -> bool {
    exists|i: int| 0 <= i < s.len() && s[i].0 == c
}

/// The map that the entries stand for.
pub open spec fn entries_map<A>(s: Seq<(Chord, A)>) -> Map<Chord, A> {
    Map::new(
        |c: Chord| has_chord(s, c),
        |c: Chord| s[choose|i: int| 0 <= i < s.len() && s[i].0 == c].1,
    )
}

proof fn lemma_entry_value<A>(s: Seq<(Chord, A)>, i: int)
    requires
        distinct_chords(s),
        0 <= i < s.len(),
    ensures
        entries_map(s).dom().contains(s[i].0),
        entries_map(s)[s[i].0] == s[i].1,
{
    let c = s[i].0;
    assert(has_chord(s, c));
    let k = choose|k: int| 0 <= k < s.len() && s[k].0 == c;
    assert(k == i);
}

impl<A> View for Keymap<A> {
    type V = Map<Chord, A>;

    closed spec fn view(&self) -> Map<Chord, A> {
        entries_map(self.entries@)
    }
}

impl<A: Copy> Keymap<A> {
    /// One entry per chord.
    pub closed spec fn wf(&self) -> bool {
        distinct_chords(self.entries@)
    }

    pub fn new() -> (k: Self)
        ensures
            k.wf(),
            k@ == Map::<Chord, A>::empty(),
    {
        let k = Keymap { entries: Vec::new() };
        assert(k@ =~= Map::<Chord, A>::empty());
        k
    }

    /// Number of bound chords.
    pub fn len(&self) -> (n: usize)
        requires
            self.wf(),
        ensures
            n == self@.dom().len(),
    {
        proof {
            self.lemma_len();
        }
        self.entries.len()
    }

    proof fn lemma_len(&self)
        requires
            self.wf(),
        ensures
            self@.dom().finite(),
            self@.dom().len() == self.entries@.len(),
        decreases self.entries@.len(),
    {
        let s = self.entries@;
        let keys = s.map_values(|e: (Chord, A)| e.0);
        assert(self@.dom() =~= keys.to_set()) by {
            assert forall|c: Chord| self@.dom().contains(c) <==> keys.to_set().contains(c) by {
                if self@.dom().contains(c) {
                    let i = choose|i: int| 0 <= i < s.len() && s[i].0 == c;
                    assert(keys[i] == c);
                }
                if keys.to_set().contains(c) {
                    let i = choose|i: int| 0 <= i < keys.len() && keys[i] == c;
                    assert(s[i].0 == c);
                }
            }
        }
        assert(keys.no_duplicates()) by {
            assert forall|i: int, j: int| 0 <= i < keys.len() && 0 <= j < keys.len() && i != j
                implies keys[i] != keys[j] by {
                if i < j {
                    assert(s[i].0 != s[j].0);
                } else {
                    assert(s[j].0 != s[i].0);
                }
            }
        }
        keys.unique_seq_to_set();
    }

    fn find(&self, c: &Chord) -> (r: Option<usize>)
        requires
            self.wf(),
        ensures
            match r {
                Some(i) => i < self.entries@.len() && self.entries@[i as int].0 == *c,
                None => !has_chord(self.entries@, *c),
            },
    {
        let mut i: usize = 0;
        while i < self.entries.len()
            invariant
                i <= self.entries@.len(),
                forall|j: int| 0 <= j < i ==> self.entries@[j].0 != *c,
            decreases self.entries@.len() - i,
        {
            if self.entries[i].0 == *c {
                return Some(i);
            }
            i = i + 1;
        }
        None
    }

    /// The entries, one per bound chord.
    pub fn as_slice(&self) -> (r: &[(Chord, A)])
        requires
            self.wf(),
        ensures
            distinct_chords(r@),
            entries_map(r@) == self@,
    {
        self.entries.as_slice()
    }

    /// The action bound to `c`.
    pub fn get(&self, c: &Chord) -> (r: Option<A>)
        requires
            self.wf(),
        ensures
            r == (if self@.dom().contains(*c) {
                Some(self@[*c])
            } else {
                None::<A>
            }),
    {
        match self.find(c) {
            Some(i) => {
                proof {
                    lemma_entry_value(self.entries@, i as int);
                }
                Some(self.entries[i].1)
            },
            None => None,
        }
    }

    /// Binds `c` to `a`, replacing what it was bound to.
    pub fn insert(&mut self, c: Chord, a: A)
        requires
            old(self).wf(),
        ensures
            final(self).wf(),
            final(self)@ == old(self)@.insert(c, a),
    {
        match self.find(&c) {
            Some(i) => {
                let ghost s = self.entries@;
                self.entries.set(i, (c, a));
                let ghost t = self.entries@;
                assert(t == s.update(i as int, (c, a)));
                assert forall|x: Chord| #[trigger] has_chord(t, x) <==> has_chord(s, x) || x == c by {
                    if has_chord(t, x) {
                        let k = choose|k: int| 0 <= k < t.len() && t[k].0 == x;
                        if k != i {
                            assert(s[k].0 == x);
                        }
                    }
                    if has_chord(s, x) {
                        let k = choose|k: int| 0 <= k < s.len() && s[k].0 == x;
                        assert(t[k].0 == x);
                    }
                    if x == c {
                        assert(t[i as int].0 == x);
                    }
                }
                assert forall|x: Chord| has_chord(t, x) implies entries_map(t)[x] == old(
                    self,
                )@.insert(c, a)[x] by {
                    let k = choose|k: int| 0 <= k < t.len() && t[k].0 == x;
                    lemma_entry_value(t, k);
                    if x != c {
                        lemma_entry_value(s, k);
                    }
                }
                assert(self@ =~= old(self)@.insert(c, a));
            },
            None => {
                let ghost s = self.entries@;
                self.entries.push((c, a));
                let ghost t = self.entries@;
                assert forall|x: Chord| #[trigger] has_chord(t, x) <==> has_chord(s, x) || x == c by {
                    if has_chord(t, x) {
                        let k = choose|k: int| 0 <= k < t.len() && t[k].0 == x;
                        if k < s.len() {
                            assert(s[k].0 == x);
                        }
                    }
                    if has_chord(s, x) {
                        let k = choose|k: int| 0 <= k < s.len() && s[k].0 == x;
                        assert(t[k].0 == x);
                    }
                    if x == c {
                        assert(t[s.len() as int].0 == x);
                    }
                }
                assert(distinct_chords(t)) by {
                    assert forall|i: int, j: int| 0 <= i < j < t.len() implies t[i].0 != t[j].0 by {
                        if j == s.len() {
                            assert(s[i].0 == t[i].0);
                        }
                    }
                }
                assert forall|x: Chord| has_chord(t, x) implies entries_map(t)[x] == old(
                    self,
                )@.insert(c, a)[x] by {
                    let k = choose|k: int| 0 <= k < t.len() && t[k].0 == x;
                    lemma_entry_value(t, k);
                    if x != c {
                        lemma_entry_value(s, k);
                    }
                }
                assert(self@ =~= old(self)@.insert(c, a));
            },
        }
    }

    /// Unbinds `c`.
    pub fn remove(&mut self, c: &Chord)
        requires
            old(self).wf(),
        ensures
            final(self).wf(),
            final(self)@ == old(self)@.remove(*c),
    {
        match self.find(c) {
            Some(i) => {
                let ghost s = self.entries@;
                let _ = self.entries.remove(i);
                let ghost t = self.entries@;
                assert(t == s.remove(i as int));
                assert(distinct_chords(t)) by {
                    assert forall|p: int, q: int| 0 <= p < q < t.len() implies t[p].0 != t[q].0 by {
                        let p2 = if p < i {
                            p
                        } else {
                            p + 1
                        };
                        let q2 = if q < i {
                            q
                        } else {
                            q + 1
                        };
                        assert(t[p] == s[p2] && t[q] == s[q2]);
                    }
                }
                assert forall|x: Chord| #[trigger] has_chord(t, x) <==> has_chord(s, x) && x != *c by {
                    if has_chord(t, x) {
                        let k = choose|k: int| 0 <= k < t.len() && t[k].0 == x;
                        let k2 = if k < i {
                            k
                        } else {
                            k + 1
                        };
                        assert(s[k2].0 == x);
                        assert(k2 != i);
                    }
                    if has_chord(s, x) && x != *c {
                        let k = choose|k: int| 0 <= k < s.len() && s[k].0 == x;
                        assert(k != i);
                        let k2 = if k < i {
                            k
                        } else {
                            k - 1
                        };
                        assert(t[k2].0 == x);
                    }
                }
                assert forall|x: Chord| has_chord(t, x) implies entries_map(t)[x]
                    == entries_map(s)[x] by {
                    let k = choose|k: int| 0 <= k < t.len() && t[k].0 == x;
                    let k2 = if k < i {
                        k
                    } else {
                        k + 1
                    };
                    assert(t[k] == s[k2]);
                    lemma_entry_value(t, k);
                    lemma_entry_value(s, k2);
                }
                assert(self@ =~= old(self)@.remove(*c));
            },
            None => {
                assert(self@ =~= old(self)@.remove(*c));
            },
        }
    }
}

/// One line of a keybinding table: the key text, the action text, and what
/// the action text parses to (the error message when it names no action).
#[derive(Debug)]
pub struct BindingLine<A> {
    pub key: String,
    pub action_text: String,
    pub action: Result<A, String>,
}

/// The chord a line's key text resolves to.
pub open spec fn line_chord<A>(l: BindingLine<A>) -> Result<Chord, Seq<char>> {
    parse_chord_spec(l.key@)
}

/// Line `j` resolves to `c`.
pub open spec fn is_hit<A>(lines: Seq<BindingLine<A>>, c: Chord, j: int) -> bool {
    0 <= j < lines.len() && line_chord(lines[j]) == Ok::<Chord, Seq<char>>(c)
}

/// Line `i` is the only line of the table that resolves to `c`.
pub open spec fn unique_hit<A>(lines: Seq<BindingLine<A>>, c: Chord, i: int) -> bool {
    is_hit(lines, c, i) && forall|j: int| j != i ==> !#[trigger] is_hit(lines, c, j)
}

/// Line `i` is the first line of the table that resolves to `c`.
pub open spec fn first_hit<A>(lines: Seq<BindingLine<A>>, c: Chord, i: int) -> bool {
    is_hit(lines, c, i) && forall|j: int| j < i ==> !#[trigger] is_hit(lines, c, j)
}

/// What is bound to `c` in `m`.
pub open spec fn lookup<A>(m: Map<Chord, A>, c: Chord) -> Option<A> {
    if m.dom().contains(c) {
        Some(m[c])
    } else {
        None
    }
}

/// What the only line of chord `c` leaves bound to it: nothing for
/// `"none"`, its action, or, when the action text names no action, what
/// was bound before.
pub open spec fn line_outcome<A>(m: Map<Chord, A>, c: Chord, l: BindingLine<A>) -> Option<A> {
    if l.action_text@ == "none"@ {
        None
    } else {
        match l.action {
            Ok(a) => Some(a),
            Err(_) => lookup(m, c),
        }
    }
}

/// What is bound to `c` once the chords first met in lines `0..k` are
/// applied: chords of a single line take its outcome; chords of two or
/// more lines keep what they had.
pub open spec fn bound_after<A>(m: Map<Chord, A>, lines: Seq<BindingLine<A>>, c: Chord, k: int) -> Option<A> {
    if exists|i: int| i < k && #[trigger] unique_hit(lines, c, i) {
        let i = choose|i: int| i < k && #[trigger] unique_hit(lines, c, i);
        line_outcome(m, c, lines[i])
    } else {
        lookup(m, c)
    }
}

pub open spec fn apply_prefix<A>(m: Map<Chord, A>, lines: Seq<BindingLine<A>>, k: int) -> Map<Chord, A> {
    Map::new(
        |c: Chord| bound_after(m, lines, c, k) is Some,
        |c: Chord| bound_after(m, lines, c, k)->0,
    )
}

/// The map after applying a whole table on top of `m`.
pub open spec fn apply_table_spec<A>(m: Map<Chord, A>, lines: Seq<BindingLine<A>>) -> Map<Chord, A> {
    apply_prefix(m, lines, lines.len() as int)
}

/// The errors of the key texts of lines `0..k`, in order.
pub open spec fn malformed<A>(lines: Seq<BindingLine<A>>, k: int) -> Seq<Seq<char>>
    decreases k,
{
    if k <= 0 {
        Seq::empty()
    } else {
        malformed(lines, k - 1) + match line_chord(lines[k - 1]) {
            Err(e) => seq![e],
            Ok(_) => Seq::empty(),
        }
    }
}

/// The key texts of lines `0..n` that resolve to `c`, in order.
pub open spec fn group_keys<A>(lines: Seq<BindingLine<A>>, c: Chord, n: int) -> Seq<Seq<char>>
    decreases n,
{
    if n <= 0 {
        Seq::empty()
    } else {
        group_keys(lines, c, n - 1) + if is_hit(lines, c, n - 1) {
            seq![lines[n - 1].key@]
        } else {
            Seq::empty()
        }
    }
}

/// `"a" e "b" e "c"`.
pub open spec fn quoted_list(keys: Seq<Seq<char>>) -> Seq<char>
    decreases keys.len(),
{
    if keys.len() == 0 {
        Seq::empty()
    } else if keys.len() == 1 {
        "\""@ + keys[0] + "\""@
    } else {
        quoted_list(keys.drop_last()) + " e \""@ + keys.last() + "\""@
    }
}

pub open spec fn duplicate_message(keys: Seq<Seq<char>>) -> Seq<char> {
    "binding duplicado: "@ + quoted_list(keys) + " resolvem pra mesma tecla"@
}

/// The issue that line `k` raises as the first line of its chord: the
/// duplicate, naming every key text of the chord, or an action text that
/// names no action.
pub open spec fn issue_at<A>(lines: Seq<BindingLine<A>>, k: int) -> Seq<Seq<char>> {
    match line_chord(lines[k]) {
        Ok(c) => if first_hit(lines, c, k) {
            if !unique_hit(lines, c, k) {
                seq![duplicate_message(group_keys(lines, c, lines.len() as int))]
            } else if lines[k].action_text@ != "none"@ && lines[k].action is Err {
                seq!["\""@ + lines[k].key@ + "\": "@ + lines[k].action->Err_0@]
            } else {
                Seq::empty()
            }
        } else {
            Seq::empty()
        },
        Err(_) => Seq::empty(),
    }
}

pub open spec fn group_issues<A>(lines: Seq<BindingLine<A>>, k: int) -> Seq<Seq<char>>
    decreases k,
{
    if k <= 0 {
        Seq::empty()
    } else {
        group_issues(lines, k - 1) + issue_at(lines, k - 1)
    }
}

/// Issues of a table: malformed keys first, in order, then duplicates and
/// unknown actions in the order of each chord's first line.
pub open spec fn table_issues<A>(lines: Seq<BindingLine<A>>) -> Seq<Seq<char>> {
    malformed(lines, lines.len() as int) + group_issues(lines, lines.len() as int)
}

/// The views of a list of messages.
pub open spec fn views(v: Seq<String>) -> Seq<Seq<char>> {
    v.map_values(|s: String| s@)
}

/// The chord of `parsed` agrees with the chord of the key text.
pub open spec fn parse_agrees(r: Result<Chord, String>, s: Result<Chord, Seq<char>>) -> bool {
    match r {
        Ok(c) => s == Ok::<Chord, Seq<char>>(c),
        Err(e) => s == Err::<Chord, Seq<char>>(e@),
    }
}

proof fn lemma_prefix_step<A>(m: Map<Chord, A>, lines: Seq<BindingLine<A>>, k: int, c: Chord)
    requires
        0 <= k < lines.len(),
        !unique_hit(lines, c, k),
    ensures
        bound_after(m, lines, c, k + 1) == bound_after(m, lines, c, k),
{
    if exists|i: int| i < k + 1 && #[trigger] unique_hit(lines, c, i) {
        let i = choose|i: int| i < k + 1 && #[trigger] unique_hit(lines, c, i);
        assert(i < k);
    }
}

proof fn lemma_unique_step<A>(m: Map<Chord, A>, lines: Seq<BindingLine<A>>, k: int, c: Chord)
    requires
        0 <= k < lines.len(),
        unique_hit(lines, c, k),
    ensures
        bound_after(m, lines, c, k + 1) == line_outcome(m, c, lines[k]),
        bound_after(m, lines, c, k) == lookup(m, c),
{
    let i = choose|i: int| i < k + 1 && #[trigger] unique_hit(lines, c, i);
    assert(i == k);
    if exists|i: int| i < k && #[trigger] unique_hit(lines, c, i) {
        let i = choose|i: int| i < k && #[trigger] unique_hit(lines, c, i);
        assert(is_hit(lines, c, i));
    }
}

proof fn lemma_group_keys_before_first<A>(lines: Seq<BindingLine<A>>, c: Chord, n: int)
    requires
        forall|j: int| j < n ==> !#[trigger] is_hit(lines, c, j),
    ensures
        group_keys(lines, c, n) == Seq::<Seq<char>>::empty(),
    decreases n,
{
    if n > 0 {
        lemma_group_keys_before_first(lines, c, n - 1);
    }
}

proof fn lemma_group_keys_len<A>(lines: Seq<BindingLine<A>>, c: Chord, n: int, i: int)
    requires
        first_hit(lines, c, i),
        i < n,
    ensures
        group_keys(lines, c, n).len() >= 1,
        group_keys(lines, c, n).len() == 1 <==> forall|j: int| i < j < n ==> !#[trigger] is_hit(
            lines,
            c,
            j,
        ),
    decreases n,
{
    if n == i + 1 {
        lemma_group_keys_before_first(lines, c, i);
    } else {
        lemma_group_keys_len(lines, c, n - 1, i);
        if is_hit(lines, c, n - 1) {
            assert(!(forall|j: int| i < j < n ==> !#[trigger] is_hit(lines, c, j)));
        } else {
            assert((forall|j: int| i < j < n ==> !#[trigger] is_hit(lines, c, j)) <==> (forall|
                j: int,
            | i < j < n - 1 ==> !#[trigger] is_hit(lines, c, j))) by {
                if forall|j: int| i < j < n - 1 ==> !#[trigger] is_hit(lines, c, j) {
                    assert forall|j: int| i < j < n implies !#[trigger] is_hit(lines, c, j) by {
                        if j < n - 1 {
                        }
                    }
                }
            }
        }
    }
}

fn text_is_none(s: &String) -> (r: bool)
    ensures
        r == (s@ == "none"@),
{
    let a = chars_of(s.as_str());
    let b = chars_of("none");
    eq_chars(&a, &b)
}

/// Whether the two parse results are the same chord.
fn same_chord(r: &Result<Chord, String>, c: Chord) -> (b: bool)
    ensures
        b == (r matches Ok(d) && d == c),
{
    match r {
        Ok(d) => *d == c,
        Err(_) => false,
    }
}

/// Applies one table on top of `bindings`: a key text that does not parse
/// is an issue and its line is dropped; two or more lines of one chord are
/// a duplicate, an issue naming them all, and none of them applies (what
/// earlier tables bound stays); `"none"` unbinds the chord; an action text
/// that names no action is an issue and its line is dropped; otherwise the
/// chord is bound to the action.
pub fn apply_table<A: Copy>(
    bindings: &mut Keymap<A>,
    table: &Vec<BindingLine<A>>,
    issues: &mut Vec<String>,
)
    requires
        old(bindings).wf(),
    ensures
        final(bindings).wf(),
        final(bindings)@ == apply_table_spec(old(bindings)@, table@),
        views(final(issues)@) == views(old(issues)@) + table_issues(table@),
{
    let ghost m = bindings@;
    let ghost lines = table@;
    let ghost issues0 = views(issues@);
    let n = table.len();
    let mut parsed: Vec<Result<Chord, String>> = Vec::new();
    let mut i: usize = 0;
    while i < n
        invariant
            n == lines.len(),
            lines == table@,
            i <= n,
            parsed@.len() == i,
            forall|j: int| 0 <= j < i ==> parse_agrees(#[trigger] parsed@[j], line_chord(lines[j])),
            views(issues@) == issues0 + malformed(lines, i as int),
        decreases n - i,
    {
        let r = Chord::parse(table[i].key.as_str());
        let ghost before = issues@;
        match &r {
            Err(e) => {
                issues.push(e.clone());
                assert(views(issues@) =~= views(before).push(e@));
            },
            Ok(_) => {},
        }
        assert(views(issues@) =~= issues0 + malformed(lines, i + 1));
        parsed.push(r);
        i = i + 1;
    }
    let ghost issues1 = views(issues@);
    let mut k: usize = 0;
    while k < n
        invariant
            n == lines.len(),
            lines == table@,
            k <= n,
            parsed@.len() == n,
            forall|j: int| 0 <= j < n ==> parse_agrees(#[trigger] parsed@[j], line_chord(lines[j])),
            issues1 == issues0 + malformed(lines, n as int),
            views(issues@) == issues1 + group_issues(lines, k as int),
            bindings.wf(),
            bindings@ == apply_prefix(m, lines, k as int),
        decreases n - k,
    {
        let ghost before_issues = issues@;
        let ghost before_map = bindings@;
        match &parsed[k] {
            Err(_) => {
                assert(issue_at(lines, k as int) =~= Seq::<Seq<char>>::empty());
                proof {
                    assert forall|c: Chord| #[trigger] bound_after(m, lines, c, k + 1)
                        == bound_after(m, lines, c, k as int) by {
                        lemma_prefix_step(m, lines, k as int, c);
                    }
                }
            },
            Ok(c) => {
                let c = *c;
                assert(is_hit(lines, c, k as int));
                let mut first = true;
                let mut j: usize = 0;
                while j < k && first
                    invariant
                        k < n,
                        parsed@.len() == n,
                        j <= k,
                        first ==> forall|q: int| 0 <= q < j ==> !#[trigger] is_hit(lines, c, q),
                        !first ==> exists|q: int| 0 <= q < k && #[trigger] is_hit(lines, c, q),
                        forall|q: int| 0 <= q < n ==> parse_agrees(#[trigger] parsed@[q], line_chord(lines[q])),
                        n == lines.len(),
                    decreases k - j,
                {
                    if same_chord(&parsed[j], c) {
                        assert(is_hit(lines, c, j as int));
                        first = false;
                    }
                    j = j + 1;
                }
                if !first {
                    assert(issue_at(lines, k as int) =~= Seq::<Seq<char>>::empty());
                    proof {
                        assert forall|d: Chord| #[trigger] bound_after(m, lines, d, k + 1)
                            == bound_after(m, lines, d, k as int) by {
                            if d == c {
                                let q = choose|q: int| 0 <= q < k && #[trigger] is_hit(lines, c, q);
                                assert(is_hit(lines, c, q));
                            } else {
                                assert(!is_hit(lines, d, k as int));
                            }
                            lemma_prefix_step(m, lines, k as int, d);
                        }
                    }
                } else {
                    assert(first_hit(lines, c, k as int));
                    let mut msg = "\"".to_owned();
                    msg.append(table[k].key.as_str());
                    msg.append("\"");
                    let mut count: usize = 1;
                    proof {
                        lemma_group_keys_before_first(lines, c, k as int);
                        assert(group_keys(lines, c, k + 1) =~= seq![lines[k as int].key@]);
                        assert(quoted_list(seq![lines[k as int].key@]) == "\""@ + lines[k as int].key@ + "\""@);
                    }
                    let mut q: usize = k + 1;
                    while q < n
                        invariant
                            k < q <= n,
                            n == lines.len(),
                            lines == table@,
                            parsed@.len() == n,
                            forall|x: int| 0 <= x < n ==> parse_agrees(#[trigger] parsed@[x], line_chord(lines[x])),
                            first_hit(lines, c, k as int),
                            count == group_keys(lines, c, q as int).len(),
                            count <= q,
                            msg@ == quoted_list(group_keys(lines, c, q as int)),
                        decreases n - q,
                    {
                        proof {
                            lemma_group_keys_len(lines, c, q as int, k as int);
                        }
                        if same_chord(&parsed[q], c) {
                            assert(is_hit(lines, c, q as int));
                            let ghost g = group_keys(lines, c, q as int);
                            assert(group_keys(lines, c, q + 1) == g.push(lines[q as int].key@));
                            assert(g.push(lines[q as int].key@).drop_last() =~= g);
                            msg.append(" e \"");
                            msg.append(table[q].key.as_str());
                            msg.append("\"");
                            count = count + 1;
                        } else {
                            assert(group_keys(lines, c, q + 1) =~= group_keys(lines, c, q as int));
                        }
                        q = q + 1;
                    }
                    proof {
                        lemma_group_keys_len(lines, c, n as int, k as int);
                        if count == 1 {
                            assert forall|x: int| x != k implies !#[trigger] is_hit(lines, c, x) by {
                                if x < k {
                                } else if x > k && x < n {
                                }
                            }
                            assert(unique_hit(lines, c, k as int));
                        } else {
                            let x = choose|x: int| k < x < n && #[trigger] is_hit(lines, c, x);
                            assert(!unique_hit(lines, c, k as int));
                        }
                    }
                    if count > 1 {
                        assert(issue_at(lines, k as int) == seq![duplicate_message(group_keys(lines, c, n as int))]);
                        let mut line = "binding duplicado: ".to_owned();
                        line.append(msg.as_str());
                        line.append(" resolvem pra mesma tecla");
                        issues.push(line);
                        assert(views(issues@) =~= views(before_issues).push(line@));
                        proof {
                            assert forall|d: Chord| #[trigger] bound_after(m, lines, d, k + 1)
                                == bound_after(m, lines, d, k as int) by {
                                if d != c {
                                    assert(!is_hit(lines, d, k as int));
                                }
                                lemma_prefix_step(m, lines, k as int, d);
                            }
                        }
                    } else {
                        proof {
                            assert forall|d: Chord| d != c implies #[trigger] bound_after(m, lines, d, k + 1)
                                == bound_after(m, lines, d, k as int) by {
                                assert(!is_hit(lines, d, k as int));
                                lemma_prefix_step(m, lines, k as int, d);
                            }
                            lemma_unique_step(m, lines, k as int, c);
                        }
                        let line = &table[k];
                        if text_is_none(&line.action_text) {
                            bindings.remove(&c);
                            assert(issue_at(lines, k as int) =~= Seq::<Seq<char>>::empty());
                        } else {
                            match &line.action {
                                Ok(a) => {
                                    bindings.insert(c, *a);
                                    assert(issue_at(lines, k as int) =~= Seq::<Seq<char>>::empty());
                                },
                                Err(e) => {
                                    let mut text = "\"".to_owned();
                                    text.append(line.key.as_str());
                                    text.append("\": ");
                                    text.append(e.as_str());
                                    issues.push(text);
                                    assert(views(issues@) =~= views(before_issues).push(text@));
                                },
                            }
                        }
                    }
                }
            },
        }
        assert(bindings@ =~= apply_prefix(m, lines, k + 1));
        assert(views(issues@) =~= issues1 + group_issues(lines, k + 1));
        k = k + 1;
    }
}

/// The four tables of `[keybindings]`: common, then one per platform. Each
/// is in the order of its key texts.
#[derive(Debug)]
pub struct KeybindingTables<A> {
    pub common: Vec<BindingLine<A>>,
    pub windows: Vec<BindingLine<A>>,
    pub linux: Vec<BindingLine<A>>,
    pub macos: Vec<BindingLine<A>>,
}

/// The user's table of `platform`.
pub open spec fn platform_table<A>(t: KeybindingTables<A>, platform: Platform) -> Seq<BindingLine<A>> {
    match platform {
        Platform::Windows => t.windows@,
        Platform::Linux => t.linux@,
        Platform::Macos => t.macos@,
    }
}

/// The tables applied in order: the embedded common table, the embedded
/// macOS table on macOS, the user's common table, the user's table of the
/// platform.
pub open spec fn layers<A>(embedded: KeybindingTables<A>, user: KeybindingTables<A>, platform: Platform) -> Seq<Seq<BindingLine<A>>> {
    if platform == Platform::Macos {
        seq![embedded.common@, embedded.macos@, user.common@, platform_table(user, platform)]
    } else {
        seq![embedded.common@, user.common@, platform_table(user, platform)]
    }
}

/// The map after applying the first `k` layers, from no binding at all.
pub open spec fn apply_layers<A>(layers: Seq<Seq<BindingLine<A>>>, k: int) -> Map<Chord, A>
    decreases k,
{
    if k <= 0 {
        Map::empty()
    } else {
        apply_table_spec(apply_layers(layers, k - 1), layers[k - 1])
    }
}

/// The issues of the first `k` layers, in order.
pub open spec fn layers_issues<A>(layers: Seq<Seq<BindingLine<A>>>, k: int) -> Seq<Seq<char>>
    decreases k,
{
    if k <= 0 {
        Seq::empty()
    } else {
        layers_issues(layers, k - 1) + table_issues(layers[k - 1])
    }
}

/// The outcome of resolving `[keybindings]`: the bindings, and one issue
/// per malformed key, unknown action or duplicate.
#[derive(Debug)]
pub struct ResolvedKeymap<A> {
    pub bindings: Keymap<A>,
    pub issues: Vec<String>,
}

/// Resolves the three levels of `[keybindings]`: the embedded defaults of
/// the platform, the user's common table, the user's table of the
/// platform; each applied with [`apply_table`].
pub fn resolve<A: Copy>(embedded: &KeybindingTables<A>, user: &KeybindingTables<A>, platform: Platform) -> (r: ResolvedKeymap<A>)
    ensures
        r.bindings.wf(),
        ({
            let l = layers(*embedded, *user, platform);
            &&& r.bindings@ == apply_layers(l, l.len() as int)
            &&& views(r.issues@) == layers_issues(l, l.len() as int)
        }),
{
    let ghost l = layers(*embedded, *user, platform);
    let mut bindings: Keymap<A> = Keymap::new();
    let mut issues: Vec<String> = Vec::new();
    assert(views(issues@) =~= Seq::<Seq<char>>::empty());
    assert(bindings@ == apply_layers(l, 0));
    assert(views(issues@) == layers_issues(l, 0));
    apply_table(&mut bindings, &embedded.common, &mut issues);
    assert(l[0] == embedded.common@);
    assert(bindings@ == apply_layers(l, 1));
    assert(views(issues@) =~= layers_issues(l, 1));
    let mut done: usize = 1;
    if platform == Platform::Macos {
        apply_table(&mut bindings, &embedded.macos, &mut issues);
        done = 2;
        assert(l[1] == embedded.macos@);
        assert(bindings@ == apply_layers(l, 2));
        assert(views(issues@) =~= layers_issues(l, 2));
    }
    apply_table(&mut bindings, &user.common, &mut issues);
    assert(l[done as int] == user.common@);
    assert(bindings@ == apply_layers(l, done + 1));
    assert(views(issues@) =~= layers_issues(l, done + 1));
    let user_platform = match platform {
        Platform::Windows => &user.windows,
        Platform::Linux => &user.linux,
        Platform::Macos => &user.macos,
    };
    apply_table(&mut bindings, user_platform, &mut issues);
    assert(l[done + 1] == user_platform@);
    assert(l.len() == done + 2);
    assert(bindings@ == apply_layers(l, done + 2));
    assert(views(issues@) =~= layers_issues(l, done + 2));
    ResolvedKeymap { bindings, issues }
}

/// A table binds each chord of a single line to that line's action, over
/// whatever earlier tables bound to it: a later table overrides.
pub proof fn lemma_single_line_overrides<A>(m: Map<Chord, A>, lines: Seq<BindingLine<A>>, c: Chord, i: int, a: A)
    requires
        unique_hit(lines, c, i),
        lines[i].action_text@ != "none"@,
        lines[i].action == Ok::<A, String>(a),
    ensures
        lookup(apply_table_spec(m, lines), c) == Some(a),
{
    let k = choose|k: int| k < lines.len() && #[trigger] unique_hit(lines, c, k);
    assert(k == i);
}

/// `"none"` unbinds the chord, whatever earlier tables bound to it.
pub proof fn lemma_none_unbinds<A>(m: Map<Chord, A>, lines: Seq<BindingLine<A>>, c: Chord, i: int)
    requires
        unique_hit(lines, c, i),
        lines[i].action_text@ == "none"@,
    ensures
        lookup(apply_table_spec(m, lines), c) is None,
{
    let k = choose|k: int| k < lines.len() && #[trigger] unique_hit(lines, c, k);
    assert(k == i);
}

/// A chord that two lines of one table resolve to keeps what earlier
/// tables bound to it.
pub proof fn lemma_duplicate_keeps_previous<A>(m: Map<Chord, A>, lines: Seq<BindingLine<A>>, c: Chord, i: int, j: int)
    requires
        is_hit(lines, c, i),
        is_hit(lines, c, j),
        i != j,
    ensures
        lookup(apply_table_spec(m, lines), c) == lookup(m, c),
{
    if exists|k: int| k < lines.len() && #[trigger] unique_hit(lines, c, k) {
        let k = choose|k: int| k < lines.len() && #[trigger] unique_hit(lines, c, k);
        assert(is_hit(lines, c, i) && is_hit(lines, c, j));
    }
}

/// A chord that no line of the table resolves to keeps what it had.
pub proof fn lemma_unmentioned_chord_unchanged<A>(m: Map<Chord, A>, lines: Seq<BindingLine<A>>, c: Chord)
    requires
        forall|j: int| !#[trigger] is_hit(lines, c, j),
    ensures
        lookup(apply_table_spec(m, lines), c) == lookup(m, c),
{
    if exists|k: int| k < lines.len() && #[trigger] unique_hit(lines, c, k) {
        let k = choose|k: int| k < lines.len() && #[trigger] unique_hit(lines, c, k);
        assert(is_hit(lines, c, k));
    }
}

/// Every key text parses, no chord occurs twice, and every action text is
/// `"none"` or names an action.
pub open spec fn clean_table<A>(lines: Seq<BindingLine<A>>) -> bool {
    &&& forall|j: int| 0 <= j < lines.len() ==> #[trigger] line_chord(lines[j]) is Ok
    &&& forall|i: int, j: int| 0 <= i < j < lines.len() ==> line_chord(lines[i]) != line_chord(lines[j])
    &&& forall|j: int| 0 <= j < lines.len() ==> (#[trigger] lines[j]).action_text@ == "none"@ || lines[j].action is Ok
}

/// A clean table raises no issue.
pub proof fn lemma_clean_table_has_no_issue<A>(lines: Seq<BindingLine<A>>)
    requires
        clean_table(lines),
    ensures
        table_issues(lines) == Seq::<Seq<char>>::empty(),
{
    lemma_no_malformed(lines, lines.len() as int);
    lemma_no_group_issue(lines, lines.len() as int);
}

proof fn lemma_no_malformed<A>(lines: Seq<BindingLine<A>>, k: int)
    requires
        k <= lines.len(),
        forall|j: int| 0 <= j < lines.len() ==> #[trigger] line_chord(lines[j]) is Ok,
    ensures
        malformed(lines, k) == Seq::<Seq<char>>::empty(),
    decreases k,
{
    if k > 0 {
        lemma_no_malformed(lines, k - 1);
        assert(line_chord(lines[k - 1]) is Ok);
        assert(malformed(lines, k) =~= Seq::<Seq<char>>::empty());
    }
}

proof fn lemma_no_group_issue<A>(lines: Seq<BindingLine<A>>, k: int)
    requires
        k <= lines.len(),
        forall|j: int| 0 <= j < lines.len() ==> #[trigger] line_chord(lines[j]) is Ok,
        forall|i: int, j: int| 0 <= i < j < lines.len() ==> line_chord(lines[i]) != line_chord(lines[j]),
        forall|j: int| 0 <= j < lines.len() ==> (#[trigger] lines[j]).action_text@ == "none"@ || lines[j].action is Ok,
    ensures
        group_issues(lines, k) == Seq::<Seq<char>>::empty(),
    decreases k,
{
    if k > 0 {
        lemma_no_group_issue(lines, k - 1);
        let x = k - 1;
        let c = line_chord(lines[x])->Ok_0;
        assert forall|j: int| j != x implies !#[trigger] is_hit(lines, c, j) by {
            if 0 <= j < lines.len() {
                if j < x {
                    assert(line_chord(lines[j]) != line_chord(lines[x]));
                } else {
                    assert(line_chord(lines[x]) != line_chord(lines[j]));
                }
            }
        }
        assert(unique_hit(lines, c, x));
        assert(issue_at(lines, x) =~= Seq::<Seq<char>>::empty());
        assert(group_issues(lines, k) =~= Seq::<Seq<char>>::empty());
    }
}

/// A chord bound in two different tables is an override, not a
/// duplicate: clean tables raise no issue, however they overlap.
pub proof fn lemma_clean_layers_have_no_issue<A>(layers: Seq<Seq<BindingLine<A>>>, k: int)
    requires
        0 <= k <= layers.len(),
        forall|i: int| 0 <= i < layers.len() ==> clean_table(#[trigger] layers[i]),
    ensures
        layers_issues(layers, k) == Seq::<Seq<char>>::empty(),
    decreases k,
{
    if k > 0 {
        lemma_clean_layers_have_no_issue(layers, k - 1);
        lemma_clean_table_has_no_issue(layers[k - 1]);
        assert(layers_issues(layers, k) =~= Seq::<Seq<char>>::empty());
    }
}

/// The user's table of the platform has the last word: a chord it binds
/// on a single line is bound to that line's action after resolution,
/// whatever the defaults and the common table said.
pub proof fn lemma_platform_table_has_the_last_word<A>(
    embedded: KeybindingTables<A>,
    user: KeybindingTables<A>,
    platform: Platform,
    c: Chord,
    i: int,
    a: A,
)
    requires
        unique_hit(platform_table(user, platform), c, i),
        platform_table(user, platform)[i].action_text@ != "none"@,
        platform_table(user, platform)[i].action == Ok::<A, String>(a),
    ensures
        ({
            let l = layers(embedded, user, platform);
            lookup(apply_layers(l, l.len() as int), c) == Some(a)
        }),
{
    let l = layers(embedded, user, platform);
    let n = l.len() as int;
    assert(l[n - 1] == platform_table(user, platform));
    assert(apply_layers(l, n) == apply_table_spec(apply_layers(l, n - 1), l[n - 1]));
    lemma_single_line_overrides(apply_layers(l, n - 1), l[n - 1], c, i, a);
}

/// The user's table that a platform reads: `[keybindings.windows]` on
/// Windows, `[keybindings.linux]` on Linux, `[keybindings.macos]` on macOS.
pub open spec fn own_table<A>(user: KeybindingTables<A>, platform: Platform) -> Seq<BindingLine<A>> {
    if platform == Platform::Windows {
        user.windows@
    } else if platform == Platform::Linux {
        user.linux@
    } else {
        user.macos@
    }
}

/// Each platform applies its own user table, last: a chord bound on a single
/// line of `[keybindings.linux]` is bound to that line's action when
/// resolving on Linux (and likewise for Windows and macOS), and the tables
/// of the other platforms never change what a platform resolves to.
pub proof fn lemma_each_platform_reads_its_own_table<A>(
    embedded: KeybindingTables<A>,
    user: KeybindingTables<A>,
    other: KeybindingTables<A>,
    platform: Platform,
    c: Chord,
    i: int,
    a: A,
)
    ensures
        ({
            let l = layers(embedded, user, platform);
            (unique_hit(own_table(user, platform), c, i) && own_table(user, platform)[i].action_text@
                != "none"@ && own_table(user, platform)[i].action == Ok::<A, String>(a)) ==> lookup(
                apply_layers(l, l.len() as int),
                c,
            ) == Some(a)
        }),
        platform != Platform::Macos ==> ({
            let l = layers(embedded, user, platform);
            l =~= seq![embedded.common@, user.common@, own_table(user, platform)]
        }),
        platform == Platform::Macos ==> ({
            let l = layers(embedded, user, platform);
            l =~= seq![embedded.common@, embedded.macos@, user.common@, user.macos@]
        }),
        (other.common@ == user.common@ && own_table(other, platform) == own_table(user, platform))
            ==> ({
            let l = layers(embedded, user, platform);
            let lo = layers(embedded, other, platform);
            &&& apply_layers(lo, lo.len() as int) == apply_layers(l, l.len() as int)
            &&& layers_issues(lo, lo.len() as int) == layers_issues(l, l.len() as int)
        }),
{
    let l = layers(embedded, user, platform);
    let n = l.len() as int;
    assert(l[n - 1] == own_table(user, platform));
    if unique_hit(own_table(user, platform), c, i) && own_table(user, platform)[i].action_text@
        != "none"@ && own_table(user, platform)[i].action == Ok::<A, String>(a) {
        lemma_platform_table_has_the_last_word(embedded, user, platform, c, i, a);
    }
    if other.common@ == user.common@ && own_table(other, platform) == own_table(user, platform) {
        let lo = layers(embedded, other, platform);
        assert(lo =~= l);
    }
}

} // verus!
