//! Hot reload of the configuration file: the debounce that collapses a burst
//! of file-system events into one reload, and the classification of what a
//! reload must do (class B: the grid changes; class C: deferred keys).
use vstd::prelude::*;

verus! {

broadcast use vstd::string::group_string_axioms;

/// Quiet period after the last event before reloading: 200 ms.
pub const DEBOUNCE_NANOS: u128 = 200_000_000;

/// Debounce state over injected instants (nanoseconds).
#[derive(Debug)]
pub struct Debounce {
    deadline: Option<u128>,
}

impl Debounce {
    pub closed spec fn deadline_spec(&self) -> Option<u128> {
        self.deadline
    }

    pub fn new() -> (d: Debounce)
        ensures
            d.deadline_spec() is None,
    {
        Debounce { deadline: None }
    }

    /// An event arrived: the firing is postponed to `now + DEBOUNCE`.
    pub fn notice(&mut self, now: u128)
        requires
            now + DEBOUNCE_NANOS <= u128::MAX,
        ensures
            final(self).deadline_spec() == Some((now + DEBOUNCE_NANOS) as u128),
    {
        self.deadline = Some(now + DEBOUNCE_NANOS);
    }

    /// `true` once, when the quiet period is over; the state is cleared, so
    /// the same burst never fires twice.
    pub fn ready(&mut self, now: u128) -> (b: bool)
        ensures
            b == fires(old(self).deadline_spec(), now),
            b ==> final(self).deadline_spec() is None,
            !b ==> final(self).deadline_spec() == old(self).deadline_spec(),
    {
        match self.deadline {
            Some(deadline) => {
                if now >= deadline {
                    self.deadline = None;
                    true
                } else {
                    false
                }
            },
            None => false,
        }
    }
}

/// The deadline after events at the instants `ts` (in order), from
/// `deadline`: each event postpones the firing to its instant plus the
/// quiet period, so the last event decides.
pub open spec fn after_notices(deadline: Option<u128>, ts: Seq<u128>) -> Option<u128> {
    if ts.len() == 0 {
        deadline
    } else {
        Some((ts.last() + DEBOUNCE_NANOS) as u128)
    }
}

/// Whether `ready` fires at `now` with that deadline.
pub open spec fn fires(deadline: Option<u128>, now: u128) -> bool {
    deadline matches Some(d) && now >= d
}

/// A burst fires once: after events at `ts`, `ready` fires exactly once
/// the quiet period after the last event has passed, and once it fired it
/// never fires again (its deadline is cleared) until the next event.
pub proof fn lemma_burst_fires_once(deadline: Option<u128>, ts: Seq<u128>, now: u128, later: u128)
    requires
        ts.len() > 0,
        ts.last() + DEBOUNCE_NANOS <= u128::MAX,
    ensures
        fires(after_notices(deadline, ts), now) == (now >= ts.last() + DEBOUNCE_NANOS),
        !fires(None, later),
{
}

/// Which keys of the configuration differ between the old and the new one
/// (computed by the caller, which owns the configuration type).
#[derive(Debug, Clone, Copy, PartialEq, Eq, Structural, Default)]
pub struct ConfigChanges {
    pub font: bool,
    pub window_padding_x: bool,
    pub window_padding_y: bool,
    pub tabs_height: bool,
    pub tab_height: bool,
    pub trilha_padding: bool,
    pub frame_margin: bool,
    pub frame_padding: bool,
    pub frame_corner_radius: bool,
    pub window_opacity: bool,
    pub window_decorations: bool,
    pub tab_bar_position: bool,
    pub shell: bool,
    pub scrollback: bool,
    pub session: bool,
}

/// What a reload must do beyond swapping the configuration.
#[derive(Debug, Clone, PartialEq, Eq)]
pub struct ReloadEffects {
    /// Class B: cell metrics, grid size and every PTY size are recomputed.
    pub grid_changed: bool,
    /// Class C: one message per changed key that does not apply now.
    pub deferred: Vec<String>,
}

impl Default for ReloadEffects {
    /// No effect.
    fn default() -> (e: Self)
        ensures
            !e.grid_changed,
            e.deferred@.len() == 0,
    {
        ReloadEffects { grid_changed: false, deferred: Vec::new() }
    }
}

/// Class B: the font, the window padding, the tab bar heights and padding,
/// or the terminal frame changed.
pub open spec fn grid_changed_spec(c: ConfigChanges) -> bool {
    c.font || c.window_padding_x || c.window_padding_y || c.tabs_height || c.tab_height
        || c.trilha_padding || c.frame_margin || c.frame_padding || c.frame_corner_radius
}

pub open spec fn msg_if(b: bool, m: Seq<char>) -> Seq<Seq<char>> {
    if b {
        seq![m]
    } else {
        Seq::empty()
    }
}

/// Class C messages, in this order, one per changed key.
pub open spec fn deferred_spec(c: ConfigChanges) -> Seq<Seq<char>> {
    msg_if(c.window_opacity, "appearance.window.opacity: vale na próxima janela"@) + msg_if(
        c.window_decorations,
        "appearance.window.decorations: reinicie o app"@,
    ) + msg_if(c.tab_bar_position, "appearance.window.tab_bar_position: reinicie o app"@)
        + msg_if(c.shell, "[shell]: vale em aba nova"@) + msg_if(
        c.scrollback,
        "[terminal.scrollback]: vale em aba nova"@,
    ) + msg_if(c.session, "[session]: reinicie o app"@)
}

/// Appends `m` when `b`.
fn push_if(v: &mut Vec<String>, b: bool, m: &str)
    ensures
        final(v)@.map_values(|s: String| s@) == old(v)@.map_values(|s: String| s@) + msg_if(b, m@),
{
    if b {
        v.push(m.to_owned());
    }
    assert(v@.map_values(|s: String| s@) =~= old(v)@.map_values(|s: String| s@) + msg_if(b, m@));
}

/// Compares the old and the new configuration (through `changes`) and
/// returns the class B/C effects.
pub fn diff(changes: &ConfigChanges) -> (e: ReloadEffects)
    ensures
        e.grid_changed == grid_changed_spec(*changes),
        e.deferred@.map_values(|s: String| s@) == deferred_spec(*changes),
{
    let c = changes;
    let grid_changed = c.font || c.window_padding_x || c.window_padding_y || c.tabs_height
        || c.tab_height || c.trilha_padding || c.frame_margin || c.frame_padding
        || c.frame_corner_radius;
    let mut deferred: Vec<String> = Vec::new();
    assert(deferred@.map_values(|s: String| s@) =~= Seq::<Seq<char>>::empty());
    push_if(&mut deferred, c.window_opacity, "appearance.window.opacity: vale na próxima janela");
    push_if(&mut deferred, c.window_decorations, "appearance.window.decorations: reinicie o app");
    push_if(
        &mut deferred,
        c.tab_bar_position,
        "appearance.window.tab_bar_position: reinicie o app",
    );
    push_if(&mut deferred, c.shell, "[shell]: vale em aba nova");
    push_if(&mut deferred, c.scrollback, "[terminal.scrollback]: vale em aba nova");
    push_if(&mut deferred, c.session, "[session]: reinicie o app");
    assert(deferred@.map_values(|s: String| s@) =~= deferred_spec(*changes));
    ReloadEffects { grid_changed, deferred }
}

/// Identical configurations have no effect.
pub proof fn lemma_no_change_no_effect(c: ConfigChanges)
    requires
        !c.font && !c.window_padding_x && !c.window_padding_y && !c.tabs_height && !c.tab_height
            && !c.trilha_padding && !c.frame_margin && !c.frame_padding && !c.frame_corner_radius
            && !c.window_opacity && !c.window_decorations && !c.tab_bar_position && !c.shell
            && !c.scrollback && !c.session,
    ensures
        !grid_changed_spec(c),
        deferred_spec(c) =~= Seq::<Seq<char>>::empty(),
{
}

} // verus!
