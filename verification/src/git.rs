//! Git branch segment of the status bar and the pure decisions of the
//! remote synchronisation: parsing `HEAD` and `rev-list` output, the
//! effective poll interval, when to query, what to do with a result that
//! arrives, the label, the non-interactive environment of the `git`
//! process and the classification of failures.
//!
//! Time is modelled with plain integers: a duration is a count of
//! nanoseconds (never above [`DURATION_MAX_NANOS`], the largest
//! `std::time::Duration`), an instant is a count of nanoseconds on the
//! caller's monotonic clock.
use vstd::prelude::*;

use crate::text;
use vstd::string::StringExecFns;
use crate::text::{
    ascii_lower_chars, contains_str, to_lowercase, chars_of, eq_chars, u32_to_string, first_line_chars, parse_u32_chars, skip_non_ws_exec, skip_ws_exec, slice_chars,
    string_from_chars, strip_prefix_chars, trim_chars,
};

verus! {

broadcast use vstd::string::group_string_axioms;

pub const NANOS_PER_SEC: u128 = 1_000_000_000;

/// `Duration::MAX` in nanoseconds: `u64::MAX` seconds plus 999_999_999 ns.
pub const DURATION_MAX_NANOS: u128 = 18_446_744_073_709_551_615_999_999_999;

/// What `.git/HEAD` says, as plain values.
pub ghost enum HeadModel {
    Branch(Seq<char>),
    Detached(Seq<char>),
}

/// What `.git/HEAD` says: the two forms seen in normal use.
#[derive(Debug, Clone, PartialEq, Eq)]
pub enum Head {
    /// `ref: refs/heads/<name>`.
    Branch(String),
    /// A bare SHA (detached `HEAD`), already shortened.
    Detached(String),
}

impl View for Head {
    type V = HeadModel;

    open spec fn view(&self) -> HeadModel {
        match self {
            Head::Branch(n) => HeadModel::Branch(n@),
            Head::Detached(n) => HeadModel::Detached(n@),
        }
    }
}

impl Head {
    pub open spec fn label_spec(&self) -> Seq<char> {
        match self {
            Head::Branch(n) => n@,
            Head::Detached(n) => n@,
        }
    }

    /// What the bar shows: the branch name, or the short SHA.
    pub fn label(&self) -> (r: &str)
        ensures
            r@ == self.label_spec(),
    {
        match self {
            Head::Branch(name) => name.as_str(),
            Head::Detached(name) => name.as_str(),
        }
    }
}

/// How many hex digits of a detached SHA the bar shows (git's default).
pub const SHORT_SHA_LEN: usize = 7;

/// `char::is_ascii_hexdigit`.
pub open spec fn is_hex(c: char) -> bool {
    ('0' <= c && c <= '9') || ('a' <= c && c <= 'f') || ('A' <= c && c <= 'F')
}

pub open spec fn all_hex(s: Seq<char>) -> bool {
    forall|i: int| 0 <= i < s.len() ==> #[trigger] is_hex(s[i])
}

/// Interpretation of the contents of `.git/HEAD`: on the first line, once
/// trimmed, either `ref:` followed by `refs/heads/<name>` (the branch, never
/// empty), or a SHA-1/SHA-256 of 40 or 64 hex digits (shortened to its first
/// seven). Anything else, a reference outside `refs/heads/` included, is
/// `None`: no guess.
pub open spec fn parse_head_spec(content: Seq<char>) -> Option<HeadModel> {
    match text::first_line(content) {
        None => None,
        Some(l) => {
            let line = text::trim(l);
            match text::strip_prefix(line, "ref:"@) {
                Some(r) => {
                    match text::strip_prefix(text::trim(r), "refs/heads/"@) {
                        Some(name) => if name.len() == 0 {
                            None
                        } else {
                            Some(HeadModel::Branch(name))
                        },
                        None => None,
                    }
                },
                None => {
                    if (line.len() == 40 || line.len() == 64) && all_hex(line) {
                        Some(HeadModel::Detached(line.subrange(0, 7)))
                    } else {
                        None
                    }
                },
            }
        },
    }
}

fn all_hex_exec(v: &Vec<char>) -> (b: bool)
    ensures
        b == all_hex(v@),
{
    let mut i: usize = 0;
    while i < v.len()
        invariant
            i <= v@.len(),
            forall|j: int| 0 <= j < i ==> #[trigger] is_hex(v@[j]),
        decreases v.len() - i,
    {
        let c = v[i];
        if !(('0' <= c && c <= '9') || ('a' <= c && c <= 'f') || ('A' <= c && c <= 'F')) {
            assert(!is_hex(v@[i as int]));
            return false;
        }
        i = i + 1;
    }
    true
}

/// Parses the contents of `.git/HEAD` (see [`parse_head_spec`]).
pub fn parse_head(content: &str) -> (r: Option<Head>)
    ensures
        match r {
            None => parse_head_spec(content@) is None,
            Some(h) => parse_head_spec(content@) == Some(h@),
        },
{
    let v = chars_of(content);
    let first = first_line_chars(&v);
    let l = match first {
        None => {
            return None;
        },
        Some(l) => l,
    };
    let line = trim_chars(&l);
    let ref_prefix = chars_of("ref:");
    match strip_prefix_chars(&line, &ref_prefix) {
        Some(r) => {
            let reference = trim_chars(&r);
            let heads_prefix = chars_of("refs/heads/");
            let name = match strip_prefix_chars(&reference, &heads_prefix) {
                Some(n) => n,
                None => {
                    return None;
                },
            };
            if name.len() == 0 {
                return None;
            }
            Some(Head::Branch(string_from_chars(&name)))
        },
        None => {
            if (line.len() == 40 || line.len() == 64) && all_hex_exec(&line) {
                let short = slice_chars(&line, 0, SHORT_SHA_LEN);
                Some(Head::Detached(string_from_chars(&short)))
            } else {
                None
            }
        },
    }
}

/// Contents of a `.git` that is a file (worktree, submodule): the path
/// after `gitdir:` on the first line, trimmed, when not empty.
pub open spec fn parse_gitdir_file_spec(content: Seq<char>) -> Option<Seq<char>> {
    match text::first_line(content) {
        None => None,
        Some(l) => match text::strip_prefix(text::trim(l), "gitdir:"@) {
            None => None,
            Some(p) => if text::trim(p).len() == 0 {
                None
            } else {
                Some(text::trim(p))
            },
        },
    }
}

/// Resolves the contents of a `.git` file: `gitdir: <path>`.
pub fn parse_gitdir_file(content: &str) -> (r: Option<String>)
    ensures
        match r {
            None => parse_gitdir_file_spec(content@) is None,
            Some(p) => parse_gitdir_file_spec(content@) == Some(p@),
        },
{
    let v = chars_of(content);
    let l = match first_line_chars(&v) {
        None => {
            return None;
        },
        Some(l) => l,
    };
    let line = trim_chars(&l);
    let prefix = chars_of("gitdir:");
    match strip_prefix_chars(&line, &prefix) {
        None => None,
        Some(p) => {
            let path = trim_chars(&p);
            if path.len() == 0 {
                None
            } else {
                Some(string_from_chars(&path))
            }
        },
    }
}

/// What stands at `<dir>/.git` at one level of the upward search for the
/// repository.
#[derive(Debug, Clone, PartialEq, Eq)]
pub enum DotGit {
    /// Nothing there (or neither a directory nor a file).
    Missing,
    Directory,
    /// A file (worktree, submodule): its contents, `None` when unreadable.
    File(Option<String>),
}

/// What one level of the upward search decides.
#[derive(Debug, Clone, PartialEq, Eq)]
pub enum DiscoveryStep {
    /// No `.git` here: try the parent directory.
    Continue,
    /// Repository found here; `HEAD` is `.git/HEAD`.
    HeadInDotGit,
    /// Repository found here; `HEAD` lives in this git directory (relative
    /// to the level's directory unless absolute).
    HeadInGitdir(String),
    /// A `.git` file that is unreadable or names no git directory: the
    /// search stops with no repository.
    Absent,
}

/// The first `.git` found going up wins: a directory holds `HEAD` itself;
/// a file points to the git directory that holds it, and a file that does
/// not (or cannot be read) ends the search with nothing.
pub fn discovery_step(entry: &DotGit) -> (r: DiscoveryStep)
    ensures
        match entry {
            DotGit::Missing => r == DiscoveryStep::Continue,
            DotGit::Directory => r == DiscoveryStep::HeadInDotGit,
            DotGit::File(None) => r == DiscoveryStep::Absent,
            DotGit::File(Some(c)) => match parse_gitdir_file_spec(c@) {
                Some(p) => r matches DiscoveryStep::HeadInGitdir(g) && g@ == p,
                None => r == DiscoveryStep::Absent,
            },
        },
{
    match entry {
        DotGit::Missing => DiscoveryStep::Continue,
        DotGit::Directory => DiscoveryStep::HeadInDotGit,
        DotGit::File(None) => DiscoveryStep::Absent,
        DotGit::File(Some(c)) => match parse_gitdir_file(c.as_str()) {
            Some(p) => DiscoveryStep::HeadInGitdir(p),
            None => DiscoveryStep::Absent,
        },
    }
}

/// Contents of a worktree's `commondir`: the path on its first line,
/// trimmed, when not empty (the main repository, which holds the branch
/// configuration).
pub open spec fn commondir_spec(content: Seq<char>) -> Option<Seq<char>> {
    match text::first_line(content) {
        None => None,
        Some(l) => if text::trim(l).len() == 0 {
            None
        } else {
            Some(text::trim(l))
        },
    }
}

/// Resolves the contents of a `commondir` file.
pub fn parse_commondir(content: &str) -> (r: Option<String>)
    ensures
        match r {
            None => commondir_spec(content@) is None,
            Some(p) => commondir_spec(content@) == Some(p@),
        },
{
    let v = chars_of(content);
    let l = match first_line_chars(&v) {
        None => {
            return None;
        },
        Some(l) => l,
    };
    let t = trim_chars(&l);
    if t.len() == 0 {
        None
    } else {
        Some(string_from_chars(&t))
    }
}

/// Floor of the query interval, in seconds.
pub const MIN_POLL_INTERVAL_SECS: u64 = 30;

/// What `remote_poll_interval_secs` actually produces: `0` turns the
/// feature off, a value below the floor is raised (and flagged).
#[derive(Debug, Clone, Copy, PartialEq, Eq, Structural)]
pub struct EffectivePollInterval {
    /// Interval in nanoseconds; `None` when the feature is off.
    pub interval: Option<u128>,
    /// `true` when the configured value was raised to the floor.
    pub raised_to_floor: bool,
}

/// The effective poll interval for a configured number of seconds: off at
/// `0`, the floor (flagged) below it, the configured value otherwise.
pub fn effective_poll_interval(configured_secs: u64) -> (e: EffectivePollInterval)
    ensures
        configured_secs == 0 ==> e.interval is None && !e.raised_to_floor,
        0 < configured_secs < MIN_POLL_INTERVAL_SECS ==> e.interval == Some(
            (MIN_POLL_INTERVAL_SECS as u128 * NANOS_PER_SEC) as u128,
        ) && e.raised_to_floor,
        configured_secs >= MIN_POLL_INTERVAL_SECS ==> e.interval == Some(
            (configured_secs as u128 * NANOS_PER_SEC) as u128,
        ) && !e.raised_to_floor,
        e.interval matches Some(d) ==> d <= DURATION_MAX_NANOS,
{
    if configured_secs == 0 {
        return EffectivePollInterval { interval: None, raised_to_floor: false };
    }
    if configured_secs < MIN_POLL_INTERVAL_SECS {
        return EffectivePollInterval {
            interval: Some(MIN_POLL_INTERVAL_SECS as u128 * NANOS_PER_SEC),
            raised_to_floor: true,
        };
    }
    EffectivePollInterval {
        interval: Some(configured_secs as u128 * NANOS_PER_SEC),
        raised_to_floor: false,
    }
}

/// Output of `rev-list --count --left-right @{u}...HEAD`: on the first line,
/// trimmed, exactly two whitespace-separated unsigned integers -- behind
/// (left, upstream only) then ahead (right, local only).
pub open spec fn parse_rev_list_count_spec(output: Seq<char>) -> Option<(u32, u32)> {
    match text::first_line(output) {
        None => None,
        Some(l) => {
            let t = text::trim(l);
            let s1 = text::skip_ws_fwd(t, 0);
            let e1 = text::skip_non_ws(t, s1);
            let s2 = text::skip_ws_fwd(t, e1);
            let e2 = text::skip_non_ws(t, s2);
            let s3 = text::skip_ws_fwd(t, e2);
            if s1 < t.len() && s2 < t.len() && s3 == t.len() {
                match (text::parse_u32(t.subrange(s1, e1)), text::parse_u32(t.subrange(s2, e2))) {
                    (Some(behind), Some(ahead)) => Some((behind, ahead)),
                    _ => None,
                }
            } else {
                None
            }
        },
    }
}

/// Parses the `rev-list` count output into `(behind, ahead)`.
pub fn parse_rev_list_count(output: &str) -> (r: Option<(u32, u32)>)
    ensures
        r == parse_rev_list_count_spec(output@),
{
    let v = chars_of(output);
    let l = match first_line_chars(&v) {
        None => {
            return None;
        },
        Some(l) => l,
    };
    let t = trim_chars(&l);
    let s1 = skip_ws_exec(&t, 0);
    let e1 = skip_non_ws_exec(&t, s1);
    let s2 = skip_ws_exec(&t, e1);
    let e2 = skip_non_ws_exec(&t, s2);
    let s3 = skip_ws_exec(&t, e2);
    if s1 < t.len() && s2 < t.len() && s3 == t.len() {
        let f1 = slice_chars(&t, s1, e1);
        let f2 = slice_chars(&t, s2, e2);
        let behind = parse_u32_chars(&f1);
        let ahead = parse_u32_chars(&f2);
        match (behind, ahead) {
            (Some(b), Some(a)) => Some((b, a)),
            _ => None,
        }
    } else {
        None
    }
}

/// State of one repository in the process-wide map.
#[derive(Debug, Clone, Copy, PartialEq, Eq, Structural)]
pub enum QueryState {
    /// No query in flight; ready for the next one when the interval elapses.
    Idle,
    /// A `git` process is running (query or integration): never redispatch.
    InFlight,
    /// The branch tracks no upstream: never queried.
    NoUpstream,
    /// Shallow repository: never queried.
    Shallow,
    /// The last attempt failed; `attempt` feeds the progressive backoff.
    Failed { attempt: u32 },
}

impl QueryState {
    pub fn default() -> (s: QueryState)
        ensures
            s == QueryState::Idle,
    {
        QueryState::Idle
    }
}

/// Cap of the backoff multiplier.
pub const MAX_BACKOFF_MULTIPLIER: u32 = 8;

/// `min(2^attempt, 8)`: the interval doubles per failed attempt, up to 8x.
pub open spec fn backoff_multiplier(attempt: u32) -> u128 {
    if attempt == 0 {
        1
    } else if attempt == 1 {
        2
    } else if attempt == 2 {
        4
    } else {
        8
    }
}

/// `interval * min(2^attempt, 8)`, saturating at `Duration::MAX`.
pub open spec fn backoff_spec(interval: u128, attempt: u32) -> u128 {
    let p = interval * backoff_multiplier(attempt);
    if p <= DURATION_MAX_NANOS {
        p as u128
    } else {
        DURATION_MAX_NANOS
    }
}

/// Progressive backoff after a failure.
pub fn backoff_interval(interval: u128, attempt: u32) -> (r: u128)
    requires
        interval <= DURATION_MAX_NANOS,
    ensures
        r == backoff_spec(interval, attempt),
        r <= DURATION_MAX_NANOS,
{
    let multiplier: u128 = if attempt == 0 {
        1
    } else if attempt == 1 {
        2
    } else if attempt == 2 {
        4
    } else {
        MAX_BACKOFF_MULTIPLIER as u128
    };
    assert(interval * multiplier <= DURATION_MAX_NANOS * 8) by (nonlinear_arith)
        requires
            interval <= DURATION_MAX_NANOS,
            multiplier <= 8,
    ;
    let product = interval * multiplier;
    if product <= DURATION_MAX_NANOS {
        product
    } else {
        DURATION_MAX_NANOS
    }
}

/// `Instant::duration_since`: zero when `earlier` is after `now`.
pub open spec fn elapsed(now: u128, earlier: u128) -> int {
    if now >= earlier {
        now - earlier
    } else {
        0
    }
}

/// Whether enough time passed since the last attempt (immediately if none).
pub open spec fn interval_elapsed(last: Option<u128>, now: u128, interval: u128) -> bool {
    match last {
        None => true,
        Some(l) => elapsed(now, l) >= interval,
    }
}

/// Never while in flight, without upstream or shallow; for an idle entry
/// once the interval elapsed, for a failed one once the backed-off interval
/// elapsed.
pub open spec fn is_time_to_query_spec(
    state: QueryState,
    last_queried_at: Option<u128>,
    now: u128,
    interval: u128,
) -> bool {
    match state {
        QueryState::InFlight | QueryState::NoUpstream | QueryState::Shallow => false,
        QueryState::Idle => interval_elapsed(last_queried_at, now, interval),
        QueryState::Failed { attempt } => interval_elapsed(
            last_queried_at,
            now,
            backoff_spec(interval, attempt),
        ),
    }
}

/// Decides whether it is time to dispatch a new query.
pub fn is_time_to_query(
    state: QueryState,
    last_queried_at: Option<u128>,
    now: u128,
    interval: u128,
) -> (b: bool)
    requires
        interval <= DURATION_MAX_NANOS,
    ensures
        b == is_time_to_query_spec(state, last_queried_at, now, interval),
{
    let effective = match state {
        QueryState::InFlight | QueryState::NoUpstream | QueryState::Shallow => {
            return false;
        },
        QueryState::Idle => interval,
        QueryState::Failed { attempt } => backoff_interval(interval, attempt),
    };
    match last_queried_at {
        None => true,
        Some(last) => {
            let since = if now >= last {
                now - last
            } else {
                0
            };
            since >= effective
        },
    }
}

/// State of one repository in the process-wide map: the current query, the
/// instant of the last attempt, and the counts with the branch they belong to.
#[derive(Debug, Clone, PartialEq, Eq)]
pub struct RemoteEntry {
    pub state: QueryState,
    pub last_queried_at: Option<u128>,
    /// Branch that `state`/`counts` belong to.
    pub branch: Option<String>,
    /// `(behind, ahead)` after a successful query only.
    pub counts: Option<(u32, u32)>,
}

impl RemoteEntry {
    /// An idle entry never queried.
    pub fn default() -> (e: RemoteEntry)
        ensures
            e.state == QueryState::Idle,
            e.last_queried_at is None,
            e.branch is None,
            e.counts is None,
    {
        RemoteEntry { state: QueryState::Idle, last_queried_at: None, branch: None, counts: None }
    }
}

/// The instant at which `e` must be reevaluated, if it contributes one.
pub open spec fn entry_deadline(e: RemoteEntry, interval: u128, now: u128) -> Option<int> {
    match e.state {
        QueryState::InFlight | QueryState::NoUpstream | QueryState::Shallow => None,
        QueryState::Idle => Some(
            match e.last_queried_at {
                None => now as int,
                Some(l) => l + interval,
            },
        ),
        QueryState::Failed { attempt } => Some(
            match e.last_queried_at {
                None => now as int,
                Some(l) => l + backoff_spec(interval, attempt),
            },
        ),
    }
}

/// No entry's deadline overflows the instant range (adding a duration to an
/// instant beyond its range panics).
pub open spec fn deadlines_fit(entries: Seq<RemoteEntry>, interval: u128, now: u128) -> bool {
    forall|i: int|
        0 <= i < entries.len() ==> (#[trigger] entry_deadline(entries[i], interval, now) matches Some(
            d,
        ) ==> d <= u128::MAX)
}

/// Next instant at which some entry of the map must be reevaluated: `None`
/// with the feature off, or with no entry contributing a deadline;
/// otherwise the earliest contributed deadline.
pub fn next_query_deadline(
    effective_interval: Option<u128>,
    entries: &[RemoteEntry],
    now: u128,
) -> (r: Option<u128>)
    requires
        effective_interval matches Some(iv) ==> iv <= DURATION_MAX_NANOS && deadlines_fit(
            entries@,
            iv,
            now,
        ),
    ensures
        effective_interval is None ==> r is None,
        effective_interval matches Some(iv) ==> {
            &&& (r is None <==> forall|i: int|
                0 <= i < entries@.len() ==> #[trigger] entry_deadline(entries@[i], iv, now) is None)
            &&& (r matches Some(d) ==> {
                &&& exists|i: int|
                    0 <= i < entries@.len() && #[trigger] entry_deadline(entries@[i], iv, now)
                        == Some(d as int)
                &&& forall|i: int|
                    0 <= i < entries@.len() ==> (#[trigger] entry_deadline(entries@[i], iv, now) matches Some(
                        e,
                    ) ==> d <= e)
            })
        },
{
    let interval = match effective_interval {
        None => {
            return None;
        },
        Some(iv) => iv,
    };
    let mut best: Option<u128> = None;
    let mut i: usize = 0;
    while i < entries.len()
        invariant
            interval <= DURATION_MAX_NANOS,
            deadlines_fit(entries@, interval, now),
            i <= entries@.len(),
            best is None <==> forall|j: int|
                0 <= j < i ==> #[trigger] entry_deadline(entries@[j], interval, now) is None,
            best matches Some(d) ==> {
                &&& exists|j: int|
                    0 <= j < i && #[trigger] entry_deadline(entries@[j], interval, now) == Some(
                        d as int,
                    )
                &&& forall|j: int|
                    0 <= j < i ==> (#[trigger] entry_deadline(entries@[j], interval, now) matches Some(
                        e,
                    ) ==> d <= e)
            },
        decreases entries.len() - i,
    {
        let e = &entries[i];
        assert(entry_deadline(entries@[i as int], interval, now) matches Some(d) ==> d
            <= u128::MAX);
        let candidate: Option<u128> = match e.state {
            QueryState::InFlight | QueryState::NoUpstream | QueryState::Shallow => None,
            QueryState::Idle => Some(
                match e.last_queried_at {
                    None => now,
                    Some(l) => l + interval,
                },
            ),
            QueryState::Failed { attempt } => {
                let b = backoff_interval(interval, attempt);
                Some(
                    match e.last_queried_at {
                        None => now,
                        Some(l) => l + b,
                    },
                )
            },
        };
        match candidate {
            None => {},
            Some(c) => {
                best = match best {
                    None => Some(c),
                    Some(b) => if c < b {
                        Some(c)
                    } else {
                        Some(b)
                    },
                };
            },
        }
        i = i + 1;
    }
    best
}

/// What to do with a query result that arrives from the worker thread.
#[derive(Debug, Clone, Copy, PartialEq, Eq, Structural)]
pub enum IncomingResultDecision {
    Store,
    Discard,
}

/// Stores the result only when the repository's current branch is still
/// the branch that was queried.
pub fn incoming_result_decision(queried_branch: &str, current_branch: Option<&str>) -> (d:
    IncomingResultDecision)
    ensures
        d == (if current_branch matches Some(c) && c@ == queried_branch@ {
            IncomingResultDecision::Store
        } else {
            IncomingResultDecision::Discard
        }),
{
    match current_branch {
        None => IncomingResultDecision::Discard,
        Some(c) => {
            let a = chars_of(c);
            let b = chars_of(queried_branch);
            if eq_chars(&a, &b) {
                IncomingResultDecision::Store
            } else {
                IncomingResultDecision::Discard
            }
        },
    }
}

/// The label: nothing when not behind; `"N commit(s) atrás"` when only
/// behind (singular for one); `"B atrás, A à frente"` when diverged.
pub open spec fn ahead_behind_label_spec(behind: u32, ahead: u32) -> Option<Seq<char>> {
    if behind == 0 {
        None
    } else if ahead == 0 {
        Some(
            text::decimal(behind as nat) + (if behind == 1 {
                " commit atrás"@
            } else {
                " commits atrás"@
            }),
        )
    } else {
        Some(text::decimal(behind as nat) + " atrás, "@ + text::decimal(ahead as nat) + " à frente"@)
    }
}

pub fn ahead_behind_label(behind: u32, ahead: u32) -> (r: Option<String>)
    ensures
        match r {
            None => ahead_behind_label_spec(behind, ahead) is None,
            Some(s) => ahead_behind_label_spec(behind, ahead) == Some(s@),
        },
{
    if behind == 0 {
        return None;
    }
    let mut s = u32_to_string(behind);
    if ahead == 0 {
        if behind == 1 {
            s.append(" commit atrás");
        } else {
            s.append(" commits atrás");
        }
    } else {
        s.append(" atrás, ");
        let a = u32_to_string(ahead);
        s.append(a.as_str());
        s.append(" à frente");
    }
    Some(s)
}

/// `pull --ff-only` only works with nothing ahead.
pub fn can_integrate(ahead: u32) -> (b: bool)
    ensures
        b == (ahead == 0),
{
    ahead == 0
}

pub open spec fn views(v: Seq<String>) -> Seq<Seq<char>> {
    v.map_values(|s: String| s@)
}

/// Arguments of the query: the repository travels as its own argument.
pub fn rev_list_args(repo: &str) -> (r: Vec<String>)
    ensures
        views(r@) == seq![
            "-C"@,
            repo@,
            "rev-list"@,
            "--count"@,
            "--left-right"@,
            "@{u}...HEAD"@,
        ],
{
    let mut r: Vec<String> = Vec::new();
    r.push("-C".to_owned());
    r.push(repo.to_owned());
    r.push("rev-list".to_owned());
    r.push("--count".to_owned());
    r.push("--left-right".to_owned());
    r.push("@{u}...HEAD".to_owned());
    assert(views(r@) =~= seq![
        "-C"@,
        repo@,
        "rev-list"@,
        "--count"@,
        "--left-right"@,
        "@{u}...HEAD"@,
    ]);
    r
}

/// Arguments of `git fetch`: remote-tracking refs only, quietly.
pub fn fetch_args(repo: &str) -> (r: Vec<String>)
    ensures
        views(r@) == seq!["-C"@, repo@, "fetch"@, "--quiet"@],
{
    let mut r: Vec<String> = Vec::new();
    r.push("-C".to_owned());
    r.push(repo.to_owned());
    r.push("fetch".to_owned());
    r.push("--quiet".to_owned());
    assert(views(r@) =~= seq!["-C"@, repo@, "fetch"@, "--quiet"@]);
    r
}

/// Arguments of `git pull --ff-only`, the only integration performed.
pub fn pull_args(repo: &str) -> (r: Vec<String>)
    ensures
        views(r@) == seq!["-C"@, repo@, "pull"@, "--ff-only"@],
{
    let mut r: Vec<String> = Vec::new();
    r.push("-C".to_owned());
    r.push(repo.to_owned());
    r.push("pull".to_owned());
    r.push("--ff-only".to_owned());
    assert(views(r@) =~= seq!["-C"@, repo@, "pull"@, "--ff-only"@]);
    r
}

/// The non-interactive environment: the four channels through which `git`
/// could wait for a human, all turned off.
pub fn non_interactive_env() -> (r: Vec<(&'static str, &'static str)>)
    ensures
        r@.len() == 4,
        r@[0].0@ == "GIT_TERMINAL_PROMPT"@ && r@[0].1@ == "0"@,
        r@[1].0@ == "GIT_ASKPASS"@ && r@[1].1@ == ""@,
        r@[2].0@ == "GIT_SSH_COMMAND"@ && r@[2].1@ == "ssh -o BatchMode=yes"@,
        r@[3].0@ == "GCM_INTERACTIVE"@ && r@[3].1@ == "Never"@,
{
    let mut r: Vec<(&'static str, &'static str)> = Vec::new();
    r.push(("GIT_TERMINAL_PROMPT", "0"));
    r.push(("GIT_ASKPASS", ""));
    r.push(("GIT_SSH_COMMAND", "ssh -o BatchMode=yes"));
    r.push(("GCM_INTERACTIVE", "Never"));
    r
}

/// Classification of a failed query.
#[derive(Debug, Clone, Copy, PartialEq, Eq, Structural)]
pub enum QueryFailure {
    /// `git` is not installed: the feature turns off, no retry.
    GitMissing,
    /// The remote was not reached: progressive backoff.
    Network,
    /// Credentials refused (or asked for and refused by the non-interactive
    /// environment): progressive backoff.
    Auth,
    /// Any other failure: progressive backoff.
    Other,
}

/// The lowercased `stderr` names a network failure.
pub open spec fn has_network_marker(l: Seq<char>) -> bool {
    ||| text::contains_sub(l, "could not resolve host"@)
    ||| text::contains_sub(l, "could not resolve hostname"@)
    ||| text::contains_sub(l, "unable to access"@)
    ||| text::contains_sub(l, "network is unreachable"@)
    ||| text::contains_sub(l, "connection timed out"@)
    ||| text::contains_sub(l, "timed out"@)
    ||| text::contains_sub(l, "failed to connect"@)
}

/// The lowercased `stderr` names an authentication failure.
pub open spec fn has_auth_marker(l: Seq<char>) -> bool {
    ||| text::contains_sub(l, "authentication failed"@)
    ||| text::contains_sub(l, "permission denied"@)
    ||| text::contains_sub(l, "could not read username"@)
    ||| text::contains_sub(l, "could not read password"@)
    ||| text::contains_sub(l, "terminal prompts disabled"@)
    ||| text::contains_sub(l, "invalid credentials"@)
}

/// Classification of an already lowercased `stderr`: network markers win
/// over authentication markers; anything else is `Other`.
pub open spec fn classify_lowercased_spec(l: Seq<char>) -> QueryFailure {
    if has_network_marker(l) {
        QueryFailure::Network
    } else if has_auth_marker(l) {
        QueryFailure::Auth
    } else {
        QueryFailure::Other
    }
}

/// `GitMissing` exactly when the process failed to start; otherwise the
/// classification of the lowercased `stderr`.
pub open spec fn classify_failure_spec(spawn_failed_to_start: bool, stderr: Seq<char>) -> QueryFailure {
    if spawn_failed_to_start {
        QueryFailure::GitMissing
    } else {
        classify_lowercased_spec(text::unicode_lowercase(stderr))
    }
}

/// Classifies a failure from the lowercased text `git` wrote to `stderr`.
pub fn classify_lowercased(lower_stderr: &str) -> (f: QueryFailure)
    ensures
        f == classify_lowercased_spec(lower_stderr@),
{
    let l = chars_of(lower_stderr);
    if contains_str(&l, "could not resolve host") || contains_str(&l, "could not resolve hostname")
        || contains_str(&l, "unable to access") || contains_str(&l, "network is unreachable")
        || contains_str(&l, "connection timed out") || contains_str(&l, "timed out")
        || contains_str(&l, "failed to connect") {
        return QueryFailure::Network;
    }
    if contains_str(&l, "authentication failed") || contains_str(&l, "permission denied")
        || contains_str(&l, "could not read username") || contains_str(&l, "could not read password")
        || contains_str(&l, "terminal prompts disabled") || contains_str(&l, "invalid credentials") {
        return QueryFailure::Auth;
    }
    QueryFailure::Other
}

/// Classifies a failed query (see [`classify_failure_spec`]).
pub fn classify_failure(spawn_failed_to_start: bool, stderr: &str) -> (f: QueryFailure)
    ensures
        f == classify_failure_spec(spawn_failed_to_start, stderr@),
{
    if spawn_failed_to_start {
        return QueryFailure::GitMissing;
    }
    let lower = to_lowercase(stderr);
    classify_lowercased(lower.as_str())
}

/// The line that starts at `i` and whose `'\n'` (or the end) is at `k`, as
/// `str::lines` yields it: a `'\r'` right before the `'\n'` is dropped.
pub open spec fn line_at(s: Seq<char>, i: int, k: int) -> Seq<char> {
    if k < s.len() && k > i && s[k - 1] == '\r' {
        s.subrange(i, k - 1)
    } else {
        s.subrange(i, k)
    }
}

/// `str::eq_ignore_ascii_case`.
pub open spec fn eq_ignore_ascii_case(a: Seq<char>, b: Seq<char>) -> bool {
    text::ascii_lower_seq(a) == text::ascii_lower_seq(b)
}

/// Whether a section header (the trimmed line without its `[`) opens the
/// section `[branch "<branch>"]`: its name (up to the first whitespace,
/// without a closing `]`) is `branch` in any ASCII case, and the rest after
/// that whitespace, trimmed, is the quoted branch name exactly.
pub open spec fn header_opens_branch(rest: Seq<char>, branch: Seq<char>) -> bool {
    let r = if rest.len() > 0 && rest.last() == ']' {
        rest.drop_last()
    } else {
        rest
    };
    let w = text::skip_non_ws(r, 0);
    &&& eq_ignore_ascii_case(r.subrange(0, w), "branch"@)
    &&& w < r.len()
    &&& text::trim(r.subrange(w + 1, r.len() as int)) == "\""@ + branch + "\""@
}

/// After a key, the value starts (past whitespace) with `=`.
pub open spec fn assigns(value: Seq<char>) -> bool {
    let a = text::skip_ws_fwd(value, 0);
    a < value.len() && value[a] == '='
}

/// One line of the scan: `(in_section, has_remote, has_merge)`.
pub open spec fn upstream_step(st: (bool, bool, bool), line: Seq<char>, branch: Seq<char>) -> (
    bool,
    bool,
    bool,
) {
    let t = text::trim(line);
    if t.len() > 0 && t[0] == '[' {
        (header_opens_branch(t.drop_first(), branch), st.1, st.2)
    } else if !st.0 {
        st
    } else {
        match text::strip_prefix(t, "remote"@) {
            Some(v) => (st.0, st.1 || assigns(v), st.2),
            None => match text::strip_prefix(t, "merge"@) {
                Some(v) => (st.0, st.1, st.2 || assigns(v)),
                None => st,
            },
        }
    }
}

/// The scan of the lines of `s` from position `i`.
pub open spec fn upstream_scan(s: Seq<char>, i: int, st: (bool, bool, bool), branch: Seq<char>) -> (
    bool,
    bool,
    bool,
)
    decreases s.len() + 1 - i,
{
    if i < 0 || i >= s.len() {
        st
    } else {
        let k = text::newline_from(s, i);
        if k < i || k > s.len() {
            st
        } else {
            upstream_scan(s, k + 1, upstream_step(st, line_at(s, i, k), branch), branch)
        }
    }
}

/// The branch has an upstream when, in the `.git/config` text, the section
/// `[branch "<branch>"]` holds both a `remote` and a `merge` assignment.
pub open spec fn branch_has_upstream_spec(config_text: Seq<char>, branch: Seq<char>) -> bool {
    let st = upstream_scan(config_text, 0, (false, false, false), branch);
    st.1 && st.2
}

fn header_opens_branch_exec(rest: &Vec<char>, quoted: &Vec<char>, Ghost(branch): Ghost<Seq<char>>) -> (b: bool)
    requires
        quoted@ == "\""@ + branch + "\""@,
    ensures
        b == header_opens_branch(rest@, branch),
{
    let r = if rest.len() > 0 && rest[rest.len() - 1] == ']' {
        slice_chars(rest, 0, rest.len() - 1)
    } else {
        slice_chars(rest, 0, rest.len())
    };
    assert(rest@.subrange(0, rest@.len() as int) =~= rest@);
    assert(rest@.len() > 0 ==> rest@.subrange(0, rest@.len() - 1) =~= rest@.drop_last());
    let w = skip_non_ws_exec(&r, 0);
    let name = slice_chars(&r, 0, w);
    let name_lower = ascii_lower_chars(&name);
    let branch_word = chars_of("branch");
    let branch_lower = ascii_lower_chars(&branch_word);
    if !eq_chars(&name_lower, &branch_lower) {
        return false;
    }
    if w >= r.len() {
        return false;
    }
    let sub = slice_chars(&r, w + 1, r.len());
    let sub_t = trim_chars(&sub);
    eq_chars(&sub_t, quoted)
}

fn assigns_exec(v: &Vec<char>) -> (b: bool)
    ensures
        b == assigns(v@),
{
    let a = skip_ws_exec(v, 0);
    a < v.len() && v[a] == '='
}

/// Reads whether the branch has an upstream configured, from the text of
/// `.git/config`, without touching the network.
pub fn branch_has_upstream(config_text: &str, branch: &str) -> (b: bool)
    ensures
        b == branch_has_upstream_spec(config_text@, branch@),
{
    let s = chars_of(config_text);
    let bq = chars_of(branch);
    let quote = chars_of("\"");
    let mut quoted: Vec<char> = Vec::new();
    quoted.push('"');
    let mut j: usize = 0;
    while j < bq.len()
        invariant
            j <= bq@.len(),
            quoted@ == seq!['"'] + bq@.take(j as int),
        decreases bq.len() - j,
    {
        quoted.push(bq[j]);
        j = j + 1;
        assert(quoted@ =~= seq!['"'] + bq@.take(j as int));
    }
    quoted.push('"');
    proof {
        reveal_strlit("\"");
        assert(bq@.take(bq@.len() as int) =~= bq@);
        assert(quoted@ =~= "\""@ + branch@ + "\""@);
    }
    let remote_kw = chars_of("remote");
    let merge_kw = chars_of("merge");
    let n = s.len();
    let mut i: usize = 0;
    let mut in_section = false;
    let mut has_remote = false;
    let mut has_merge = false;
    while i < n
        invariant
            n == s@.len(),
            s@ == config_text@,
            quoted@ == "\""@ + branch@ + "\""@,
            remote_kw@ == "remote"@,
            merge_kw@ == "merge"@,
            i <= n,
            upstream_scan(s@, 0, (false, false, false), branch@) == upstream_scan(
                s@,
                i as int,
                (in_section, has_remote, has_merge),
                branch@,
            ),
        decreases n - i,
    {
        let mut k = i;
        while k < n && s[k] != '\n'
            invariant
                n == s@.len(),
                i <= k <= n,
                text::newline_from(s@, i as int) == text::newline_from(s@, k as int),
            decreases n - k,
        {
            k = k + 1;
        }
        let line = if k < n && k > i && s[k - 1] == '\r' {
            slice_chars(&s, i, k - 1)
        } else {
            slice_chars(&s, i, k)
        };
        assert(line@ == line_at(s@, i as int, k as int));
        proof {
            text::lemma_newline_bounds(s@, i as int);
        }
        let ghost st0 = (in_section, has_remote, has_merge);
        let t = trim_chars(&line);
        if t.len() > 0 && t[0] == '[' {
            let rest = slice_chars(&t, 1, t.len());
            assert(rest@ =~= t@.drop_first());
            in_section = header_opens_branch_exec(&rest, &quoted, Ghost(branch@));
        } else if !in_section {
        } else {
            match strip_prefix_chars(&t, &remote_kw) {
                Some(v) => {
                    has_remote = has_remote || assigns_exec(&v);
                },
                None => match strip_prefix_chars(&t, &merge_kw) {
                    Some(v) => {
                        has_merge = has_merge || assigns_exec(&v);
                    },
                    None => {},
                },
            }
        }
        assert((in_section, has_remote, has_merge) == upstream_step(st0, line@, branch@));
        assert(text::newline_from(s@, i as int) == k);
        assert(upstream_scan(s@, i as int, st0, branch@) == upstream_scan(
            s@,
            k + 1,
            (in_section, has_remote, has_merge),
            branch@,
        ));
        if k >= n {
            i = n;
        } else {
            i = k + 1;
        }
    }
    has_remote && has_merge
}

/// What a query produced: keyed data for the map, never a command to show.
#[derive(Debug, Clone, Copy, PartialEq, Eq, Structural)]
pub enum RemoteQueryOutcome {
    Counted { behind: u32, ahead: u32 },
    /// Detected without any network query, from `.git/config`.
    NoUpstream,
    /// Detected from `.git/shallow`, without any network query.
    Shallow,
    Failed(QueryFailure),
}

#[derive(Debug, Clone, PartialEq, Eq)]
pub struct RemoteQueryResult {
    /// Working directory of the repository (the key of the map).
    pub repo: String,
    /// Branch that was queried (active when the query was dispatched).
    pub branch: String,
    pub outcome: RemoteQueryOutcome,
}

/// What an integration produced; a failure carries git's own message.
#[derive(Debug, Clone, PartialEq, Eq)]
pub enum IntegrationOutcome {
    Success,
    Failed { message: String },
}

#[derive(Debug, Clone, PartialEq, Eq)]
pub struct RemoteIntegrationResult {
    pub repo: String,
    pub outcome: IntegrationOutcome,
}

/// How a `git` process ended.
#[derive(Debug, Clone, PartialEq, Eq)]
pub enum GitProcessResult {
    Exited { success: bool, stdout: String, stderr: String },
    /// The process could not be started (no `git` to run).
    FailedToStart,
    /// The time limit elapsed; the child was killed.
    TimedOut,
}

/// A failed query result for `repo`/`branch`.
pub fn failed(repo: String, branch: String, failure: QueryFailure) -> (r: RemoteQueryResult)
    ensures
        r.repo@ == repo@,
        r.branch@ == branch@,
        r.outcome == RemoteQueryOutcome::Failed(failure),
{
    RemoteQueryResult { repo, branch, outcome: RemoteQueryOutcome::Failed(failure) }
}

/// Before any process runs: a shallow repository is `Shallow`; a readable
/// config in which the branch has no upstream is `NoUpstream`; otherwise
/// the query proceeds (`None`).
pub open spec fn precheck_spec(shallow: bool, config_text: Option<Seq<char>>, branch: Seq<char>) -> Option<
    RemoteQueryOutcome,
> {
    if shallow {
        Some(RemoteQueryOutcome::Shallow)
    } else if config_text matches Some(c) && !branch_has_upstream_spec(c, branch) {
        Some(RemoteQueryOutcome::NoUpstream)
    } else {
        None
    }
}

pub fn query_precheck(shallow: bool, config_text: Option<&str>, branch: &str) -> (r: Option<
    RemoteQueryOutcome,
>)
    ensures
        r == precheck_spec(
            shallow,
            match config_text {
                Some(c) => Some(c@),
                None => None,
            },
            branch@,
        ),
{
    if shallow {
        return Some(RemoteQueryOutcome::Shallow);
    }
    match config_text {
        Some(c) => {
            if !branch_has_upstream(c, branch) {
                Some(RemoteQueryOutcome::NoUpstream)
            } else {
                None
            }
        },
        None => None,
    }
}

/// The failure of a process, or `None` when it exited successfully: not
/// started is `GitMissing`, timed out is `Network`, a failed exit is
/// classified from its `stderr`.
pub open spec fn process_failure_spec(r: GitProcessResult) -> Option<QueryFailure> {
    match r {
        GitProcessResult::FailedToStart => Some(QueryFailure::GitMissing),
        GitProcessResult::TimedOut => Some(QueryFailure::Network),
        GitProcessResult::Exited { success, stdout, stderr } => if success {
            None
        } else {
            Some(classify_failure_spec(false, stderr@))
        },
    }
}

/// Outcome of the `fetch` step: `Some(Failed(..))` stops the query.
pub fn fetch_outcome(result: &GitProcessResult) -> (r: Option<RemoteQueryOutcome>)
    ensures
        match process_failure_spec(*result) {
            Some(f) => r == Some(RemoteQueryOutcome::Failed(f)),
            None => r is None,
        },
{
    match result {
        GitProcessResult::FailedToStart => Some(RemoteQueryOutcome::Failed(QueryFailure::GitMissing)),
        GitProcessResult::TimedOut => Some(RemoteQueryOutcome::Failed(QueryFailure::Network)),
        GitProcessResult::Exited { success, stdout: _, stderr } => {
            if *success {
                None
            } else {
                Some(RemoteQueryOutcome::Failed(classify_failure(false, stderr.as_str())))
            }
        },
    }
}

/// Outcome of the `rev-list` step: its failure, or the parsed counts, or
/// `Failed(Other)` when a successful output does not parse.
pub open spec fn rev_list_outcome_spec(r: GitProcessResult) -> RemoteQueryOutcome {
    match process_failure_spec(r) {
        Some(f) => RemoteQueryOutcome::Failed(f),
        None => match r {
            GitProcessResult::Exited { success, stdout, stderr } => match parse_rev_list_count_spec(
                stdout@,
            ) {
                Some((behind, ahead)) => RemoteQueryOutcome::Counted { behind, ahead },
                None => RemoteQueryOutcome::Failed(QueryFailure::Other),
            },
            _ => RemoteQueryOutcome::Failed(QueryFailure::Other),
        },
    }
}

pub fn rev_list_outcome(result: &GitProcessResult) -> (r: RemoteQueryOutcome)
    ensures
        r == rev_list_outcome_spec(*result),
{
    match result {
        GitProcessResult::FailedToStart => RemoteQueryOutcome::Failed(QueryFailure::GitMissing),
        GitProcessResult::TimedOut => RemoteQueryOutcome::Failed(QueryFailure::Network),
        GitProcessResult::Exited { success, stdout, stderr } => {
            if !*success {
                RemoteQueryOutcome::Failed(classify_failure(false, stderr.as_str()))
            } else {
                match parse_rev_list_count(stdout.as_str()) {
                    Some((behind, ahead)) => RemoteQueryOutcome::Counted { behind, ahead },
                    None => RemoteQueryOutcome::Failed(QueryFailure::Other),
                }
            }
        },
    }
}

/// The message shown when `git` refuses an integration: its trimmed
/// `stderr`, else its trimmed `stdout`, else a fixed explanation.
pub open spec fn refusal_message(stdout: Seq<char>, stderr: Seq<char>) -> Seq<char> {
    if text::trim(stderr).len() > 0 {
        text::trim(stderr)
    } else if text::trim(stdout).len() > 0 {
        text::trim(stdout)
    } else {
        "o git recusou a integração sem detalhar o motivo."@
    }
}

/// Outcome of `pull --ff-only`.
pub open spec fn integration_ok(r: GitProcessResult) -> bool {
    r matches GitProcessResult::Exited { success, .. } && success
}

pub open spec fn integration_message(r: GitProcessResult) -> Seq<char> {
    match r {
        GitProcessResult::FailedToStart => "o git não foi encontrado no sistema."@,
        GitProcessResult::TimedOut => "o git não respondeu a tempo."@,
        GitProcessResult::Exited { success, stdout, stderr } => refusal_message(stdout@, stderr@),
    }
}

pub fn integration_result(repo: String, result: &GitProcessResult) -> (r: RemoteIntegrationResult)
    ensures
        r.repo@ == repo@,
        integration_ok(*result) ==> r.outcome == IntegrationOutcome::Success,
        !integration_ok(*result) ==> (r.outcome matches IntegrationOutcome::Failed { message }
            && message@ == integration_message(*result)),
{
    let outcome = match result {
        GitProcessResult::FailedToStart => IntegrationOutcome::Failed {
            message: "o git não foi encontrado no sistema.".to_owned(),
        },
        GitProcessResult::TimedOut => IntegrationOutcome::Failed {
            message: "o git não respondeu a tempo.".to_owned(),
        },
        GitProcessResult::Exited { success, stdout, stderr } => {
            if *success {
                IntegrationOutcome::Success
            } else {
                let e = chars_of(stderr.as_str());
                let et = trim_chars(&e);
                if et.len() > 0 {
                    IntegrationOutcome::Failed { message: string_from_chars(&et) }
                } else {
                    let o = chars_of(stdout.as_str());
                    let ot = trim_chars(&o);
                    if ot.len() > 0 {
                        IntegrationOutcome::Failed { message: string_from_chars(&ot) }
                    } else {
                        IntegrationOutcome::Failed {
                            message: "o git recusou a integração sem detalhar o motivo.".to_owned(),
                        }
                    }
                }
            }
        },
    };
    RemoteIntegrationResult { repo, outcome }
}

/// The branch of a `HEAD`, or `None` when detached or absent.
pub fn head_branch(head: Option<Head>) -> (r: Option<String>)
    ensures
        match head {
            Some(Head::Branch(n)) => r matches Some(s) && s@ == n@,
            _ => r is None,
        },
{
    match head {
        Some(Head::Branch(name)) => Some(name),
        _ => None,
    }
}

/// The cache of [`GitInfo`], as plain values.
pub ghost struct GitInfoModel {
    pub resolved_for: Option<Seq<char>>,
    pub repo_root: Option<Seq<char>>,
    pub head_path: Option<Seq<char>>,
    pub read_at: Option<i128>,
    pub head: Option<HeadModel>,
}

pub open spec fn opt_view(o: Option<String>) -> Option<Seq<char>> {
    match o {
        Some(s) => Some(s@),
        None => None,
    }
}

/// Branch of the active tab, with the cache that makes it cheap per frame:
/// discovery is redone only when the `cwd` changes, `HEAD` is reread only
/// when its modification time changes (or nothing was parsed yet). The
/// file-system work is done by the caller, which reports what it found.
#[derive(Debug)]
pub struct GitInfo {
    resolved_for: Option<String>,
    repo_root: Option<String>,
    head_path: Option<String>,
    /// Modification time (nanoseconds since the epoch) of the last read.
    read_at: Option<i128>,
    head: Option<Head>,
}

impl View for GitInfo {
    type V = GitInfoModel;

    closed spec fn view(&self) -> GitInfoModel {
        GitInfoModel {
            resolved_for: opt_view(self.resolved_for),
            repo_root: opt_view(self.repo_root),
            head_path: opt_view(self.head_path),
            read_at: self.read_at,
            head: match self.head {
                Some(h) => Some(h@),
                None => None,
            },
        }
    }
}

impl GitInfo {
    /// Nothing discovered yet.
    pub fn new() -> (g: GitInfo)
        ensures
            g@.resolved_for is None,
            g@.repo_root is None,
            g@.head_path is None,
            g@.read_at is None,
            g@.head is None,
    {
        GitInfo { resolved_for: None, repo_root: None, head_path: None, read_at: None, head: None }
    }

    /// Whether the `.git` discovery must be redone for `cwd`.
    pub fn needs_discovery(&self, cwd: &str) -> (b: bool)
        ensures
            b == (self@.resolved_for != Some(cwd@)),
    {
        match &self.resolved_for {
            None => true,
            Some(r) => {
                let a = chars_of(r.as_str());
                let c = chars_of(cwd);
                !eq_chars(&a, &c)
            },
        }
    }

    /// Records what the discovery found for `cwd`: the repository root and
    /// the path of its `HEAD` (or nothing, which is cached too); forgets the
    /// last read.
    pub fn record_discovery(&mut self, cwd: &str, found: Option<(String, String)>)
        ensures
            final(self)@.resolved_for == Some(cwd@),
            final(self)@.repo_root == (match found {
                Some(f) => Some(f.0@),
                None => None::<Seq<char>>,
            }),
            final(self)@.head_path == (match found {
                Some(f) => Some(f.1@),
                None => None::<Seq<char>>,
            }),
            final(self)@.read_at is None,
            final(self)@.head is None,
    {
        self.resolved_for = Some(cwd.to_owned());
        match found {
            Some((root, head)) => {
                self.repo_root = Some(root);
                self.head_path = Some(head);
            },
            None => {
                self.repo_root = None;
                self.head_path = None;
            },
        }
        self.read_at = None;
        self.head = None;
    }

    /// Path of the `HEAD` file, if a repository was found.
    pub fn head_path(&self) -> (r: Option<&str>)
        ensures
            match r {
                Some(p) => self@.head_path == Some(p@),
                None => self@.head_path is None,
            },
    {
        match &self.head_path {
            Some(p) => Some(p.as_str()),
            None => None,
        }
    }

    /// Whether `HEAD` must be reread, given its current modification time.
    pub fn needs_read(&self, mtime: Option<i128>) -> (b: bool)
        ensures
            b == (mtime != self@.read_at || self@.head is None),
    {
        let same = match (mtime, self.read_at) {
            (None, None) => true,
            (Some(a), Some(b)) => a == b,
            _ => false,
        };
        !same || self.head.is_none()
    }

    /// Records a read of `HEAD`: its modification time and contents (`None`
    /// when unreadable), parsed.
    pub fn record_read(&mut self, mtime: Option<i128>, content: Option<&str>)
        ensures
            final(self)@.read_at == mtime,
            final(self)@.resolved_for == old(self)@.resolved_for,
            final(self)@.repo_root == old(self)@.repo_root,
            final(self)@.head_path == old(self)@.head_path,
            final(self)@.head == (match content {
                Some(c) => parse_head_spec(c@),
                None => None,
            }),
    {
        self.read_at = mtime;
        self.head = match content {
            Some(c) => parse_head(c),
            None => None,
        };
    }

    /// The cached `HEAD`.
    pub fn cached_head(&self) -> (r: Option<&Head>)
        ensures
            match r {
                Some(h) => self@.head == Some(h@),
                None => self@.head is None,
            },
    {
        self.head.as_ref()
    }

    /// Working directory of the repository of the last discovered `cwd`.
    pub fn repo_root(&self) -> (r: Option<&str>)
        ensures
            match r {
                Some(p) => self@.repo_root == Some(p@),
                None => self@.repo_root is None,
            },
    {
        match &self.repo_root {
            Some(p) => Some(p.as_str()),
            None => None,
        }
    }
}

/// The backed-off interval never shrinks as failures accumulate, never
/// drops below the plain interval, and never exceeds eight times it.
pub proof fn lemma_backoff_grows_up_to_the_cap(interval: u128, attempt: u32)
    requires
        interval <= DURATION_MAX_NANOS,
        attempt < u32::MAX,
    ensures
        interval <= backoff_spec(interval, attempt),
        backoff_spec(interval, attempt) <= backoff_spec(interval, (attempt + 1) as u32),
        backoff_spec(interval, attempt) <= 8 * interval,
        attempt >= 3 ==> backoff_spec(interval, attempt) == backoff_spec(interval, 3),
{
    let m0 = backoff_multiplier(attempt);
    let m1 = backoff_multiplier((attempt + 1) as u32);
    assert(1 <= m0 <= m1 <= 8);
    assert(interval * 1 <= interval * m0 <= interval * m1 <= interval * 8) by (nonlinear_arith)
        requires
            1 <= m0 <= m1 <= 8,
            interval >= 0,
    ;
}

/// A failed repository is never queried sooner than an idle one would be.
pub proof fn lemma_failure_never_hastens_a_query(
    attempt: u32,
    last_queried_at: Option<u128>,
    now: u128,
    interval: u128,
)
    requires
        interval <= DURATION_MAX_NANOS,
    ensures
        is_time_to_query_spec(QueryState::Failed { attempt }, last_queried_at, now, interval)
            ==> is_time_to_query_spec(QueryState::Idle, last_queried_at, now, interval),
{
    if attempt < u32::MAX {
        lemma_backoff_grows_up_to_the_cap(interval, attempt);
    } else {
        lemma_backoff_grows_up_to_the_cap(interval, 3);
    }
}

/// The label is absent exactly when nothing is behind: being only ahead
/// shows nothing, and no label ever reads "0".
pub proof fn lemma_label_only_when_behind(behind: u32, ahead: u32)
    ensures
        ahead_behind_label_spec(behind, ahead) is None <==> behind == 0,
{
}

/// The counts read back in order: a line `<behind><sep><ahead>` with a tab
/// or a space between, as `git rev-list --count --left-right` writes it,
/// parses to `(behind, ahead)`, whether the line ends the text or is ended
/// by `"\n"` or `"\r\n"` (whatever follows the line).
pub proof fn lemma_rev_list_counts_round_trip(
    behind: u32,
    ahead: u32,
    sep: char,
    eol: Seq<char>,
    rest: Seq<char>,
)
    requires
        sep == '\t' || sep == ' ',
        eol == Seq::<char>::empty() || eol == seq!['\n'] || eol == seq!['\r', '\n'],
        eol.len() == 0 ==> rest.len() == 0,
    ensures
        parse_rev_list_count_spec(
            text::decimal(behind as nat) + seq![sep] + text::decimal(ahead as nat) + eol + rest,
        ) == Some((behind, ahead)),
{
    let d1 = text::decimal(behind as nat);
    let d2 = text::decimal(ahead as nat);
    text::lemma_decimal_digits(behind as nat);
    text::lemma_decimal_digits(ahead as nat);
    let t = d1 + seq![sep] + d2;
    let n1 = d1.len() as int;
    assert forall|k: int| 0 <= k < t.len() implies (#[trigger] t[k] == sep) == (k == n1)
        && (k != n1 ==> text::is_digit(t[k])) by {
        if k < n1 {
            assert(t[k] == d1[k]);
            assert(text::is_digit(d1[k]));
        } else if k > n1 {
            assert(t[k] == d2[k - n1 - 1]);
            assert(text::is_digit(d2[k - n1 - 1]));
        }
    }
    assert(t.last() == t[t.len() - 1]);
    let whole = d1 + seq![sep] + d2 + eol + rest;
    if eol.len() == 0 {
        assert(whole =~= t);
        text::lemma_first_line_unterminated(t);
    } else if eol.len() == 1 {
        assert(whole =~= t + seq!['\n'] + rest);
        text::lemma_first_line_of_terminated(t, rest);
    } else {
        assert(whole =~= t + seq!['\r', '\n'] + rest);
        text::lemma_first_line_crlf(t, rest);
    }
    text::lemma_trim_unpadded(t);
    assert(text::skip_ws_fwd(t, 0) == 0);
    text::lemma_skip_non_ws_run(t, 0, n1);
    assert(text::skip_ws_fwd(t, n1 + 1) == n1 + 1);
    assert(text::skip_ws_fwd(t, n1) == n1 + 1);
    text::lemma_skip_non_ws_run(t, n1 + 1, t.len() as int);
    assert(text::skip_ws_fwd(t, t.len() as int) == t.len());
    assert(t.subrange(0, n1) =~= d1);
    assert(t.subrange(n1 + 1, t.len() as int) =~= d2);
    text::lemma_parse_u32_decimal(behind);
    text::lemma_parse_u32_decimal(ahead);
}

/// What `.git/HEAD` holds on a branch reads back as that branch, slashes
/// and all: `ref: refs/heads/<name>` followed by a newline.
pub proof fn lemma_branch_head_round_trip(name: Seq<char>, rest: Seq<char>)
    requires
        name.len() > 0,
        !text::is_ws(name.last()),
        forall|k: int| 0 <= k < name.len() ==> name[k] != '\n',
    ensures
        parse_head_spec("ref: refs/heads/"@ + name + seq!['\n'] + rest) == Some(
            HeadModel::Branch(name),
        ),
{
    reveal_strlit("ref: refs/heads/");
    reveal_strlit("ref:");
    reveal_strlit("refs/heads/");
    let p = "ref: refs/heads/"@;
    let line = p + name;
    assert forall|k: int| 0 <= k < line.len() implies line[k] != '\n' by {
        if k >= p.len() {
            assert(line[k] == name[k - p.len()]);
        }
    }
    assert(line.last() == name.last());
    text::lemma_first_line_of_terminated(line, rest);
    text::lemma_trim_unpadded(line);
    let after = line.subrange(4, line.len() as int);
    assert(after =~= seq![' '] + ("refs/heads/"@ + name));
    assert(line.subrange(0, 4) =~= "ref:"@);
    let reference = "refs/heads/"@ + name;
    assert(reference.last() == name.last());
    text::lemma_trim_leading_space(reference);
    assert(reference.subrange(0, 11) =~= "refs/heads/"@);
    assert(reference.subrange(11, reference.len() as int) =~= name);
}

/// The deadline that [`next_query_deadline`] returns is exactly the first
/// instant at which some repository becomes due: at that instant one is
/// due, and at any earlier instant (not before the last queries) none is.
pub proof fn lemma_deadline_is_the_first_due_instant(
    entries: Seq<RemoteEntry>,
    interval: u128,
    now: u128,
    d: u128,
    t: u128,
)
    requires
        interval <= DURATION_MAX_NANOS,
        forall|i: int|
            0 <= i < entries.len() ==> ((#[trigger] entries[i]).state is Idle
                || entries[i].state is Failed) ==> entries[i].last_queried_at is Some,
        exists|i: int|
            0 <= i < entries.len() && #[trigger] entry_deadline(entries[i], interval, now) == Some(
                d as int,
            ),
        forall|i: int|
            0 <= i < entries.len() ==> (#[trigger] entry_deadline(entries[i], interval, now) matches Some(
                e,
            ) ==> d <= e),
        forall|i: int|
            0 <= i < entries.len() ==> ((#[trigger] entries[i]).last_queried_at matches Some(l) ==> l
                <= t),
    ensures
        exists|i: int|
            0 <= i < entries.len() && is_time_to_query_spec(
                #[trigger] entries[i].state,
                entries[i].last_queried_at,
                d,
                interval,
            ),
        t < d ==> forall|i: int|
            0 <= i < entries.len() ==> !is_time_to_query_spec(
                #[trigger] entries[i].state,
                entries[i].last_queried_at,
                t,
                interval,
            ),
{
    let k = choose|i: int|
        0 <= i < entries.len() && #[trigger] entry_deadline(entries[i], interval, now) == Some(
            d as int,
        );
    assert(entries[k].state is Idle || entries[k].state is Failed);
    assert(entries[k].last_queried_at is Some);
    assert(is_time_to_query_spec(entries[k].state, entries[k].last_queried_at, d, interval));
    if t < d {
        assert forall|i: int| 0 <= i < entries.len() implies !is_time_to_query_spec(
            #[trigger] entries[i].state,
            entries[i].last_queried_at,
            t,
            interval,
        ) by {
            let e = entries[i];
            if e.state is Idle || e.state is Failed {
                assert(e.last_queried_at is Some);
                assert(entry_deadline(e, interval, now) is Some);
            }
        }
    }
}

/// Where the upward search finds `HEAD`, as plain values: `level` counts
/// the directories walked up from the starting one.
pub ghost enum RepositoryModel {
    NotFound,
    /// `.git/HEAD` of the directory at `level`.
    InDotGit { level: int },
    /// `HEAD` of the git directory `gitdir` named by the `.git` file of the
    /// directory at `level`.
    InGitdir { level: int, gitdir: Seq<char> },
}

/// The search over the `.git` entries of the starting directory and its
/// ancestors, from `levels[i]` up, step by step as [`discovery_step`]
/// decides: the first `.git` decides.
pub open spec fn search_from(levels: Seq<DotGit>, i: int) -> RepositoryModel
    decreases levels.len() - i,
{
    if i < 0 || i >= levels.len() {
        RepositoryModel::NotFound
    } else {
        match levels[i] {
            DotGit::Missing => search_from(levels, i + 1),
            DotGit::Directory => RepositoryModel::InDotGit { level: i },
            DotGit::File(None) => RepositoryModel::NotFound,
            DotGit::File(Some(c)) => match parse_gitdir_file_spec(c@) {
                Some(p) => RepositoryModel::InGitdir { level: i, gitdir: p },
                None => RepositoryModel::NotFound,
            },
        }
    }
}

/// The same search, its levels counted `k` further up.
pub open spec fn shifted(m: RepositoryModel, k: int) -> RepositoryModel {
    match m {
        RepositoryModel::NotFound => RepositoryModel::NotFound,
        RepositoryModel::InDotGit { level } => RepositoryModel::InDotGit { level: level + k },
        RepositoryModel::InGitdir { level, gitdir } => RepositoryModel::InGitdir {
            level: level + k,
            gitdir,
        },
    }
}

/// The repository is stable across a `cd` inside it: starting from a
/// subdirectory with no `.git` between it and the repository's working
/// directory finds the same directory (the same `HEAD`), only more levels
/// up; and outside any repository the absence is found again.
pub proof fn lemma_repository_stable_under_cd(pre: Seq<DotGit>, levels: Seq<DotGit>)
    requires
        forall|i: int| 0 <= i < pre.len() ==> pre[i] == DotGit::Missing,
    ensures
        search_from(pre + levels, 0) == shifted(search_from(levels, 0), pre.len() as int),
    decreases pre.len(),
{
    if pre.len() > 0 {
        let rest = pre.drop_first();
        lemma_repository_stable_under_cd(rest, levels);
        lemma_search_skips(pre + levels, 0);
        assert((pre + levels).drop_first() =~= rest + levels);
        lemma_search_from_suffix(pre + levels, 1);
    }
}

proof fn lemma_search_skips(levels: Seq<DotGit>, i: int)
    requires
        0 <= i < levels.len(),
        levels[i] == DotGit::Missing,
    ensures
        search_from(levels, i) == search_from(levels, i + 1),
{
}

/// Searching from `i` is searching the suffix from its start, levels
/// counted `i` further up.
proof fn lemma_search_from_suffix(levels: Seq<DotGit>, i: int)
    requires
        0 <= i <= levels.len(),
    ensures
        search_from(levels, i) == shifted(search_from(levels.subrange(i, levels.len() as int), 0), i),
    decreases levels.len() - i,
{
    let suf = levels.subrange(i, levels.len() as int);
    if i < levels.len() {
        lemma_search_from_suffix(levels, i + 1);
        let suf1 = levels.subrange(i + 1, levels.len() as int);
        assert(suf.subrange(1, suf.len() as int) =~= suf1);
        lemma_search_from_suffix(suf, 1);
        assert(suf[0] == levels[i]);
        assert(shifted(shifted(search_from(suf1, 0), 1), i) == shifted(search_from(suf1, 0), i + 1));
    }
}

} // verus!
