//! Per-window animation clock. It never reads the time: every operation
//! receives the current instant, in nanoseconds on the caller's monotonic
//! clock. A reflow captures the position of each group wrapper before the
//! operation that moves them, and runs for a duration; while any reflow is
//! active the window wakes one frame later.
//!
//! Positions are of the caller's type `P`; the progress of a reflow is
//! given as the elapsed time clamped to its duration, over that duration.
use vstd::prelude::*;

use crate::git::elapsed;
use crate::ids::GroupId;

verus! {

/// Redraw cadence while an animation is active (about 60 frames a second):
/// 16 ms, in nanoseconds.
pub const FRAME_INTERVAL_NANOS: u128 = 16_000_000;

/// One reflow: when it started, how long it runs (nanoseconds), and the
/// old position of each wrapper that existed before the operation.
#[derive(Debug, Clone)]
pub struct Reflow<P> {
    pub started_at: u128,
    pub duration: u128,
    pub wrapper_x: Vec<(GroupId, P)>,
}

/// A reflow is over once its duration has elapsed.
pub open spec fn is_finished<P>(r: Reflow<P>, now: u128) -> bool {
    elapsed(now, r.started_at) >= r.duration
}

/// The reflows of `s` that are not over at `now`, in order.
pub open spec fn unfinished<P>(s: Seq<Reflow<P>>, now: u128) -> Seq<Reflow<P>>
    decreases s.len(),
{
    if s.len() == 0 {
        Seq::empty()
    } else {
        let rest = unfinished(s.drop_last(), now);
        if is_finished(s.last(), now) {
            rest
        } else {
            rest.push(s.last())
        }
    }
}

/// The position recorded for `id`: the last entry for it wins.
pub open spec fn entry_for<P>(w: Seq<(GroupId, P)>, id: GroupId) -> Option<P>
    decreases w.len(),
{
    if w.len() == 0 {
        None
    } else if w.last().0 == id {
        Some(w.last().1)
    } else {
        entry_for(w.drop_last(), id)
    }
}

/// How far a reflow has got: the elapsed time, clamped to the duration,
/// and the duration (a zero duration counts as complete).
#[derive(Debug, Clone, Copy, PartialEq, Eq, Structural)]
pub struct Progress {
    pub elapsed: u128,
    pub duration: u128,
}

pub open spec fn progress_spec<P>(r: Reflow<P>, now: u128) -> Progress {
    let e = elapsed(now, r.started_at);
    Progress { elapsed: (if e < r.duration { e } else { r.duration as int }) as u128, duration: r.duration }
}

/// The old position of `id` and the progress, from the most recent reflow
/// that holds `id`.
pub open spec fn latest_progress<P>(s: Seq<Reflow<P>>, id: GroupId, now: u128) -> Option<(P, Progress)>
    decreases s.len(),
{
    if s.len() == 0 {
        None
    } else {
        match entry_for(s.last().wrapper_x@, id) {
            Some(p) => Some((p, progress_spec(s.last(), now))),
            None => latest_progress(s.drop_last(), id, now),
        }
    }
}

#[derive(Debug, Clone)]
pub struct AnimationClock<P> {
    active: Vec<Reflow<P>>,
}

impl<P> AnimationClock<P> {
    /// The active reflows, oldest first.
    pub closed spec fn active_spec(&self) -> Seq<Reflow<P>> {
        self.active@
    }
}

impl<P: Copy> AnimationClock<P> {
    /// Starts animating from the wrapper positions captured before the
    /// operation that changes the model, for `duration` nanoseconds.
    pub fn start_reflow(&mut self, wrapper_x: Vec<(GroupId, P)>, duration: u128, now: u128)
        ensures
            final(self).active_spec() == old(self).active_spec().push(
                Reflow { started_at: now, duration, wrapper_x },
            ),
    {
        self.active.push(Reflow { started_at: now, duration, wrapper_x });
    }

    /// Drops the reflows that are over.
    pub fn tick(&mut self, now: u128)
        ensures
            final(self).active_spec() == unfinished(old(self).active_spec(), now),
    {
        let ghost s = self.active@;
        let n = self.active.len();
        let mut i: usize = 0;
        let mut j: usize = 0;
        assert(s.take(0) =~= Seq::<Reflow<P>>::empty());
        assert(self.active@ =~= unfinished(s.take(0), now) + s.skip(0));
        while j < n
            invariant
                n == s.len(),
                j <= s.len(),
                i <= j,
                i == unfinished(s.take(j as int), now).len(),
                self.active@ == unfinished(s.take(j as int), now) + s.skip(j as int),
            decreases s.len() - j,
        {
            let ghost kept = unfinished(s.take(j as int), now);
            assert(s.take(j + 1).drop_last() =~= s.take(j as int));
            assert(self.active@[i as int] == s[j as int]);
            let r = &self.active[i];
            let since: u128 = if now >= r.started_at {
                now - r.started_at
            } else {
                0
            };
            if since >= r.duration {
                let _ = self.active.remove(i);
                assert(self.active@ =~= kept + s.skip(j + 1));
            } else {
                assert(kept.push(s[j as int]) + s.skip(j + 1) =~= kept + s.skip(j as int));
                assert(i < self.active@.len());
                i = i + 1;
            }
            j = j + 1;
        }
        assert(s.take(s.len() as int) =~= s);
        assert(self.active@ =~= unfinished(s, now));
    }

    /// Any input discards the running animations: the final state shows at
    /// once.
    pub fn clear(&mut self)
        ensures
            final(self).active_spec() == Seq::<Reflow<P>>::empty(),
    {
        self.active.clear();
    }

    pub fn is_empty(&self) -> (b: bool)
        ensures
            b == (self.active_spec().len() == 0),
    {
        self.active.len() == 0
    }

    /// `(old x, progress)` of the wrapper of `id`, from the most recent
    /// reflow that holds it; `None` outside animation.
    pub fn wrapper_progress(&self, id: GroupId, now: u128) -> (r: Option<(P, Progress)>)
        ensures
            r == latest_progress(self.active_spec(), id, now),
    {
        let mut k: usize = self.active.len();
        assert(self.active@.take(k as int) =~= self.active@);
        while k > 0
            invariant
                k <= self.active@.len(),
                latest_progress(self.active@, id, now) == latest_progress(
                    self.active@.take(k as int),
                    id,
                    now,
                ),
            decreases k,
        {
            let ghost t = self.active@.take(k as int);
            assert(t.drop_last() =~= self.active@.take(k - 1));
            let r = &self.active[k - 1];
            match entry_for_exec(&r.wrapper_x, id) {
                Some(p) => {
                    let since: u128 = if now >= r.started_at {
                        now - r.started_at
                    } else {
                        0
                    };
                    let e = if since < r.duration {
                        since
                    } else {
                        r.duration
                    };
                    return Some((p, Progress { elapsed: e, duration: r.duration }));
                },
                None => {},
            }
            k = k - 1;
        }
        assert(self.active@.take(0) =~= Seq::<Reflow<P>>::empty());
        None
    }

    /// When the window must wake to go on animating: one frame after `now`
    /// while a reflow is active; `None` when none is.
    pub fn next_deadline(&self, now: u128) -> (r: Option<u128>)
        requires
            now + FRAME_INTERVAL_NANOS <= u128::MAX,
        ensures
            r == (if self.active_spec().len() == 0 {
                None
            } else {
                Some((now + FRAME_INTERVAL_NANOS) as u128)
            }),
    {
        if self.active.len() == 0 {
            None
        } else {
            Some(now + FRAME_INTERVAL_NANOS)
        }
    }
}

impl<P> Default for AnimationClock<P> {
    /// No animation.
    fn default() -> (c: Self)
        ensures
            c.active_spec() == Seq::<Reflow<P>>::empty(),
    {
        AnimationClock { active: Vec::new() }
    }
}

fn entry_for_exec<P: Copy>(w: &Vec<(GroupId, P)>, id: GroupId) -> (r: Option<P>)
    ensures
        r == entry_for(w@, id),
{
    let mut k: usize = w.len();
    assert(w@.take(k as int) =~= w@);
    while k > 0
        invariant
            k <= w@.len(),
            entry_for(w@, id) == entry_for(w@.take(k as int), id),
        decreases k,
    {
        let ghost t = w@.take(k as int);
        assert(t.drop_last() =~= w@.take(k - 1));
        if w[k - 1].0 == id {
            return Some(w[k - 1].1);
        }
        k = k - 1;
    }
    assert(w@.take(0) =~= Seq::<(GroupId, P)>::empty());
    None
}

/// After a tick, no reflow that is over remains, and none that is still
/// running was dropped.
pub proof fn lemma_tick_keeps_exactly_the_running<P>(s: Seq<Reflow<P>>, now: u128)
    ensures
        forall|i: int|
            0 <= i < unfinished(s, now).len() ==> !is_finished(#[trigger] unfinished(s, now)[i], now),
        forall|i: int|
            0 <= i < s.len() && !is_finished(#[trigger] s[i], now) ==> unfinished(s, now).contains(s[i]),
    decreases s.len(),
{
    if s.len() > 0 {
        lemma_tick_keeps_exactly_the_running(s.drop_last(), now);
        let rest = unfinished(s.drop_last(), now);
        assert forall|i: int|
            0 <= i < s.len() && !is_finished(#[trigger] s[i], now) implies unfinished(s, now).contains(s[i]) by {
            if i < s.len() - 1 {
                assert(s.drop_last()[i] == s[i]);
                let k = choose|k: int| 0 <= k < rest.len() && rest[k] == s[i];
                if !is_finished(s.last(), now) {
                    assert(rest.push(s.last())[k] == s[i]);
                }
            } else {
                assert(unfinished(s, now) == rest.push(s.last()));
                assert(rest.push(s.last())[rest.len() as int] == s[i]);
            }
        }
    }
}

/// A reflow that is over stays over: time only moves forward.
pub proof fn lemma_finished_stays_finished<P>(r: Reflow<P>, now: u128, later: u128)
    requires
        is_finished(r, now),
        now <= later,
    ensures
        is_finished(r, later),
{
}

/// When the event loop must wake next: the earliest of the deadlines that
/// are set (the animation clock's, the warnings', the tooltip's, of every
/// window); `None`, waiting for events only, when none is.
pub fn earliest_wake(deadlines: &[Option<u128>]) -> (r: Option<u128>)
    ensures
        r is None <==> forall|i: int| 0 <= i < deadlines@.len() ==> (#[trigger] deadlines@[i]) is None,
        r matches Some(d) ==> {
            &&& exists|i: int| 0 <= i < deadlines@.len() && #[trigger] deadlines@[i] == Some(d)
            &&& forall|i: int|
                0 <= i < deadlines@.len() ==> (#[trigger] deadlines@[i] matches Some(e) ==> d <= e)
        },
{
    let mut best: Option<u128> = None;
    let mut i: usize = 0;
    while i < deadlines.len()
        invariant
            i <= deadlines@.len(),
            best is None <==> forall|j: int| 0 <= j < i ==> (#[trigger] deadlines@[j]) is None,
            best matches Some(d) ==> {
                &&& exists|j: int| 0 <= j < i && #[trigger] deadlines@[j] == Some(d)
                &&& forall|j: int| 0 <= j < i ==> (#[trigger] deadlines@[j] matches Some(e) ==> d <= e)
            },
        decreases deadlines.len() - i,
    {
        match deadlines[i] {
            None => {},
            Some(c) => {
                best = match best {
                    None => Some(c),
                    Some(b) => if c < b {
                        Some(c)
                    } else {
                        Some(b)
                    },
                };
            },
        }
        i = i + 1;
    }
    best
}

} // verus!
