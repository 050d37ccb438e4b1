//! Routing of keyboard and mouse events over the terminal area. The
//! resolution chain for keys: application bindings first (copy/paste,
//! scrollback navigation), then the terminal. For the mouse, `Shift` always
//! forces the local behaviour; without it the program wins when it asked
//! for mouse reports; otherwise local.
//!
//! Each function decides what to do; the caller encodes and writes.
use vstd::prelude::*;

use crate::git::elapsed;
use crate::keymap::{Key, Modifiers, NamedKey};
use crate::text::chars_of;

verus! {

/// Time window, in nanoseconds, between clicks on the same cell for them to
/// count as a double or triple click (500 ms).
pub const MULTI_CLICK_THRESHOLD_NANOS: u128 = 500_000_000;

/// Keys with an encoding of their own on the terminal side.
#[derive(Debug, Clone, Copy, PartialEq, Eq, Structural)]
pub enum TermKey {
    Enter,
    Backspace,
    Tab,
    Escape,
    ArrowUp,
    ArrowDown,
    ArrowLeft,
    ArrowRight,
    Home,
    End,
    PageUp,
    PageDown,
    Insert,
    Delete,
    /// `F1` to `F12`.
    Function(u8),
}

/// The terminal key of a named key: the editing and navigation keys and
/// `F1`..`F12`; `None` for the rest (space, media keys and the like fall
/// back to the event's text or are ignored).
pub open spec fn named_term_key_spec(named: NamedKey) -> Option<TermKey> {
    match named {
        NamedKey::Enter => Some(TermKey::Enter),
        NamedKey::Backspace => Some(TermKey::Backspace),
        NamedKey::Tab => Some(TermKey::Tab),
        NamedKey::Escape => Some(TermKey::Escape),
        NamedKey::ArrowUp => Some(TermKey::ArrowUp),
        NamedKey::ArrowDown => Some(TermKey::ArrowDown),
        NamedKey::ArrowLeft => Some(TermKey::ArrowLeft),
        NamedKey::ArrowRight => Some(TermKey::ArrowRight),
        NamedKey::Home => Some(TermKey::Home),
        NamedKey::End => Some(TermKey::End),
        NamedKey::PageUp => Some(TermKey::PageUp),
        NamedKey::PageDown => Some(TermKey::PageDown),
        NamedKey::Insert => Some(TermKey::Insert),
        NamedKey::Delete => Some(TermKey::Delete),
        NamedKey::F(n) => if 1 <= n && n <= 12 {
            Some(TermKey::Function(n))
        } else {
            None
        },
        _ => None,
    }
}

pub fn named_term_key(named: NamedKey) -> (r: Option<TermKey>)
    ensures
        r == named_term_key_spec(named),
{
    match named {
        NamedKey::Enter => Some(TermKey::Enter),
        NamedKey::Backspace => Some(TermKey::Backspace),
        NamedKey::Tab => Some(TermKey::Tab),
        NamedKey::Escape => Some(TermKey::Escape),
        NamedKey::ArrowUp => Some(TermKey::ArrowUp),
        NamedKey::ArrowDown => Some(TermKey::ArrowDown),
        NamedKey::ArrowLeft => Some(TermKey::ArrowLeft),
        NamedKey::ArrowRight => Some(TermKey::ArrowRight),
        NamedKey::Home => Some(TermKey::Home),
        NamedKey::End => Some(TermKey::End),
        NamedKey::PageUp => Some(TermKey::PageUp),
        NamedKey::PageDown => Some(TermKey::PageDown),
        NamedKey::Insert => Some(TermKey::Insert),
        NamedKey::Delete => Some(TermKey::Delete),
        NamedKey::F(n) => if 1 <= n && n <= 12 {
            Some(TermKey::Function(n))
        } else {
            None
        },
        _ => None,
    }
}

/// Scrollback movements.
#[derive(Debug, Clone, Copy, PartialEq, Eq, Structural)]
pub enum ScrollCommand {
    PageUp,
    PageDown,
    Top,
    Bottom,
    Lines(i32),
}

/// What a key press over the terminal does.
#[derive(Debug, Clone, Copy, PartialEq, Eq, Structural)]
pub enum KeyRoute {
    /// Nothing: a release, a binding that matched with nothing to do
    /// (scrollback keys on the alternate screen), or a key without text.
    Nothing,
    /// Copy the terminal selection to the clipboard, if there is one.
    CopySelection,
    /// Paste the clipboard, bracketed as the terminal modes ask.
    Paste,
    /// Move the scrollback.
    Scroll(ScrollCommand),
    /// Write the terminal encoding of the key.
    Key(TermKey),
    /// Write the control byte of the character; where the terminal has
    /// none for it, write the event's text instead.
    CtrlChar(char),
    /// Write the event's text.
    Text,
}

/// The one-character text `c`, in either ASCII case.
pub open spec fn is_letter_key(s: Seq<char>, lower: char, upper: char) -> bool {
    s == seq![lower] || s == seq![upper]
}

/// The routing of a key event over the terminal: released keys do nothing;
/// `Ctrl+Shift+C`/`V` (no `Alt`) copy and paste; `Shift+PageUp/PageDown/
/// Home/End` (no `Ctrl`, no `Alt`) scroll the scrollback, and do nothing on
/// the alternate screen; then named keys with a terminal encoding; then
/// `Ctrl` (no `Alt`) with a character; then the event's text.
pub open spec fn key_route_spec(
    pressed: bool,
    key: Key,
    modifiers: Modifiers,
    alt_screen: bool,
    has_text: bool,
) -> KeyRoute {
    let clipboard_mods = modifiers.ctrl && modifiers.shift && !modifiers.alt;
    let scroll_mods = modifiers.shift && !modifiers.ctrl && !modifiers.alt;
    if !pressed {
        KeyRoute::Nothing
    } else if clipboard_mods && (key matches Key::Character(s) && is_letter_key(s@, 'c', 'C')) {
        KeyRoute::CopySelection
    } else if clipboard_mods && (key matches Key::Character(s) && is_letter_key(s@, 'v', 'V')) {
        KeyRoute::Paste
    } else if scroll_mods && (key matches Key::Named(n) && scroll_command(n) is Some) {
        if alt_screen {
            KeyRoute::Nothing
        } else {
            KeyRoute::Scroll(scroll_command(key->Named_0)->0)
        }
    } else if key matches Key::Named(n) && named_term_key_spec(n) is Some {
        KeyRoute::Key(named_term_key_spec(key->Named_0)->0)
    } else if modifiers.ctrl && !modifiers.alt && (key matches Key::Character(s) && s@.len()
        > 0) {
        KeyRoute::CtrlChar(key->Character_0@[0])
    } else if has_text {
        KeyRoute::Text
    } else {
        KeyRoute::Nothing
    }
}

/// The scrollback movement that `Shift` plus a named key asks for.
pub open spec fn scroll_command(n: NamedKey) -> Option<ScrollCommand> {
    match n {
        NamedKey::PageUp => Some(ScrollCommand::PageUp),
        NamedKey::PageDown => Some(ScrollCommand::PageDown),
        NamedKey::Home => Some(ScrollCommand::Top),
        NamedKey::End => Some(ScrollCommand::Bottom),
        _ => None,
    }
}

fn letter_key(s: &String, lower: char, upper: char) -> (r: bool)
    ensures
        r == is_letter_key(s@, lower, upper),
{
    let v = chars_of(s.as_str());
    if v.len() != 1 {
        assert(s@.len() != 1);
        return false;
    }
    let c = v[0];
    if c == lower || c == upper {
        assert(c == lower ==> s@ =~= seq![lower]);
        assert(c == upper ==> s@ =~= seq![upper]);
        true
    } else {
        assert(s@[0] != lower && s@[0] != upper);
        false
    }
}

/// Decides what a key event over the terminal does (see
/// [`key_route_spec`]). `has_text`: the event carries text.
pub fn key_route(
    pressed: bool,
    key: &Key,
    modifiers: Modifiers,
    alt_screen: bool,
    has_text: bool,
) -> (r: KeyRoute)
    ensures
        r == key_route_spec(pressed, *key, modifiers, alt_screen, has_text),
{
    if !pressed {
        return KeyRoute::Nothing;
    }
    if modifiers.ctrl && modifiers.shift && !modifiers.alt {
        if let Key::Character(s) = key {
            if letter_key(s, 'c', 'C') {
                return KeyRoute::CopySelection;
            }
            if letter_key(s, 'v', 'V') {
                return KeyRoute::Paste;
            }
        }
    }
    if modifiers.shift && !modifiers.ctrl && !modifiers.alt {
        if let Key::Named(n) = key {
            let command = match n {
                NamedKey::PageUp => Some(ScrollCommand::PageUp),
                NamedKey::PageDown => Some(ScrollCommand::PageDown),
                NamedKey::Home => Some(ScrollCommand::Top),
                NamedKey::End => Some(ScrollCommand::Bottom),
                _ => None,
            };
            if let Some(c) = command {
                if alt_screen {
                    return KeyRoute::Nothing;
                }
                return KeyRoute::Scroll(c);
            }
        }
    }
    if let Key::Named(n) = key {
        if let Some(k) = named_term_key(*n) {
            return KeyRoute::Key(k);
        }
    }
    if modifiers.ctrl && !modifiers.alt {
        if let Key::Character(s) = key {
            let v = chars_of(s.as_str());
            if v.len() > 0 {
                return KeyRoute::CtrlChar(v[0]);
            }
        }
    }
    if has_text {
        KeyRoute::Text
    } else {
        KeyRoute::Nothing
    }
}

/// Mouse buttons of a pointer event.
#[derive(Debug, Clone, Copy, PartialEq, Eq, Structural)]
pub enum PointerButton {
    Left,
    Middle,
    Right,
    /// Back, forward and other extra buttons.
    Other,
}

/// Mouse buttons as the terminal reports them.
#[derive(Debug, Clone, Copy, PartialEq, Eq, Structural)]
pub enum TermMouseButton {
    Left,
    Middle,
    Right,
    WheelUp,
    WheelDown,
    /// Motion with no button held.
    NoButton,
}

/// What a mouse report says happened.
#[derive(Debug, Clone, Copy, PartialEq, Eq, Structural)]
pub enum MouseAction {
    Press,
    Release,
    Motion,
}

/// The terminal button of a pointer button; extra buttons have none.
pub open spec fn term_button_spec(b: PointerButton) -> Option<TermMouseButton> {
    match b {
        PointerButton::Left => Some(TermMouseButton::Left),
        PointerButton::Middle => Some(TermMouseButton::Middle),
        PointerButton::Right => Some(TermMouseButton::Right),
        PointerButton::Other => None,
    }
}

pub fn term_button(b: PointerButton) -> (r: Option<TermMouseButton>)
    ensures
        r == term_button_spec(b),
{
    match b {
        PointerButton::Left => Some(TermMouseButton::Left),
        PointerButton::Middle => Some(TermMouseButton::Middle),
        PointerButton::Right => Some(TermMouseButton::Right),
        PointerButton::Other => None,
    }
}

/// Selection gestures.
#[derive(Debug, Clone, Copy, PartialEq, Eq, Structural)]
pub enum SelectionKind {
    Simple,
    /// Word (double click).
    Semantic,
    /// Whole lines (triple click).
    Lines,
    /// Rectangle (`Alt` + drag).
    Block,
}

pub open spec fn selection_kind_spec(click_count: u8, alt: bool) -> SelectionKind {
    if alt {
        SelectionKind::Block
    } else if click_count == 1 {
        SelectionKind::Simple
    } else if click_count == 2 {
        SelectionKind::Semantic
    } else {
        SelectionKind::Lines
    }
}

/// `Alt` + drag is rectangular whatever the click count; otherwise one
/// click selects simply, two by word, more by line.
pub fn selection_kind(click_count: u8, alt: bool) -> (k: SelectionKind)
    ensures
        k == selection_kind_spec(click_count, alt),
{
    if alt {
        return SelectionKind::Block;
    }
    match click_count {
        1 => SelectionKind::Simple,
        2 => SelectionKind::Semantic,
        _ => SelectionKind::Lines,
    }
}

/// Counts clicks on the same cell within [`MULTI_CLICK_THRESHOLD_NANOS`]
/// to tell single, double and triple clicks apart.
#[derive(Debug, Clone, Copy)]
pub struct ClickTracker {
    last: Option<(u128, usize, usize)>,
    count: u8,
}

/// Whether a click at `(row, col)` at `now` continues the previous series.
pub open spec fn continues_series(
    last: Option<(u128, usize, usize)>,
    row: usize,
    col: usize,
    now: u128,
) -> bool {
    match last {
        Some((t, r, c)) => r == row && c == col && elapsed(now, t)
            < MULTI_CLICK_THRESHOLD_NANOS,
        None => false,
    }
}

impl ClickTracker {
    /// The instant and cell of the previous click.
    pub closed spec fn last_spec(&self) -> Option<(u128, usize, usize)> {
        self.last
    }

    /// The count of the current series.
    pub closed spec fn count_spec(&self) -> u8 {
        self.count
    }

    /// The count never leaves `0..=3`.
    pub closed spec fn wf(&self) -> bool {
        self.count <= 3
    }

    /// Registers a click at `(row, col)` at instant `now` and returns the
    /// current count: 1 single, 2 double, 3 triple, then back to 1.
    pub fn register(&mut self, row: usize, col: usize, now: u128) -> (n: u8)
        requires
            old(self).wf(),
        ensures
            final(self).wf(),
            n == final(self).count_spec(),
            1 <= n <= 3,
            continues_series(old(self).last_spec(), row, col, now) ==> n == old(self).count_spec()
                % 3 + 1,
            !continues_series(old(self).last_spec(), row, col, now) ==> n == 1,
            final(self).last_spec() == Some((now, row, col)),
    {
        let continues = match self.last {
            Some((t, r, c)) => {
                let since: u128 = if now >= t {
                    now - t
                } else {
                    0
                };
                r == row && c == col && since < MULTI_CLICK_THRESHOLD_NANOS
            },
            None => false,
        };
        self.count = if continues {
            (self.count % 3) + 1
        } else {
            1
        };
        self.last = Some((now, row, col));
        self.count
    }
}

impl Default for ClickTracker {
    /// No click yet.
    fn default() -> (t: Self)
        ensures
            t.wf(),
            t.last_spec() is None,
            t.count_spec() == 0,
    {
        ClickTracker { last: None, count: 0 }
    }
}

/// What a mouse wheel notch over the terminal does.
#[derive(Debug, Clone, Copy, PartialEq, Eq, Structural)]
pub enum WheelRoute {
    Nothing,
    /// Report `count` presses of the wheel button (up, or else down).
    Report { up: bool, count: u32 },
    /// On the alternate screen: write `count` arrow keys (up, or else down).
    Arrows { up: bool, count: u32 },
    /// Scroll the scrollback by that many lines (positive: up).
    Scroll(i32),
}

/// The wheel: `lines` is the configured multiplier, signed by the notch
/// direction. Reported to the program when it asked for the mouse and
/// `Shift` is not held; otherwise on the alternate screen it becomes arrow
/// keys when `alternate_scroll` is on (and nothing when off); otherwise it
/// scrolls the scrollback.
pub open spec fn wheel_route_spec(
    up: bool,
    multiplier: i32,
    shift: bool,
    mouse_reporting: bool,
    alt_screen: bool,
    alternate_scroll: bool,
) -> WheelRoute {
    let lines: int = if up {
        multiplier as int
    } else {
        -multiplier
    };
    let count: int = if lines < 0 {
        -lines
    } else {
        lines
    };
    if !shift && mouse_reporting {
        WheelRoute::Report { up: lines > 0, count: count as u32 }
    } else if alt_screen {
        if alternate_scroll {
            WheelRoute::Arrows { up: lines > 0, count: count as u32 }
        } else {
            WheelRoute::Nothing
        }
    } else {
        WheelRoute::Scroll(lines as i32)
    }
}

/// Decides what a wheel notch does (see [`wheel_route_spec`]). `up`: the
/// notch goes up (a positive delta).
pub fn wheel_route(
    up: bool,
    multiplier: i32,
    shift: bool,
    mouse_reporting: bool,
    alt_screen: bool,
    alternate_scroll: bool,
) -> (r: WheelRoute)
    requires
        multiplier > i32::MIN,
    ensures
        r == wheel_route_spec(up, multiplier, shift, mouse_reporting, alt_screen, alternate_scroll),
{
    let lines: i32 = if up {
        multiplier
    } else {
        -multiplier
    };
    let count: u32 = if lines < 0 {
        (-lines) as u32
    } else {
        lines as u32
    };
    if !shift && mouse_reporting {
        return WheelRoute::Report { up: lines > 0, count };
    }
    if alt_screen {
        if !alternate_scroll {
            return WheelRoute::Nothing;
        }
        WheelRoute::Arrows { up: lines > 0, count }
    } else {
        WheelRoute::Scroll(lines)
    }
}

/// What a mouse button over the terminal does.
#[derive(Debug, Clone, Copy, PartialEq, Eq, Structural)]
pub enum ButtonRoute {
    Nothing,
    /// Report the button to the program.
    Report { button: TermMouseButton, action: MouseAction },
    /// Start a local selection of that kind at the cell.
    StartSelection(SelectionKind),
    /// Copy the selection, if there is one (copy on select, on release).
    CopySelection,
}

/// The routing of a button press or release: extra buttons do nothing; the
/// program gets it when it asked for the mouse and `Shift` is not held;
/// locally only the left button selects: a press starts a selection whose
/// kind the click count decides, a release copies when `copy_on_select`.
pub open spec fn button_route_spec(
    button: PointerButton,
    pressed: bool,
    click_count: u8,
    modifiers: Modifiers,
    mouse_reporting: bool,
    copy_on_select: bool,
) -> ButtonRoute {
    match term_button_spec(button) {
        None => ButtonRoute::Nothing,
        Some(b) => if !modifiers.shift && mouse_reporting {
            ButtonRoute::Report {
                button: b,
                action: if pressed {
                    MouseAction::Press
                } else {
                    MouseAction::Release
                },
            }
        } else if b != TermMouseButton::Left {
            ButtonRoute::Nothing
        } else if pressed {
            ButtonRoute::StartSelection(selection_kind_spec(click_count, modifiers.alt))
        } else if copy_on_select {
            ButtonRoute::CopySelection
        } else {
            ButtonRoute::Nothing
        },
    }
}

/// Whether the event is a local press of the left button, the one event
/// that counts as a click.
pub open spec fn is_local_left_press(
    button: PointerButton,
    pressed: bool,
    shift: bool,
    mouse_reporting: bool,
) -> bool {
    button == PointerButton::Left && pressed && !(!shift && mouse_reporting)
}

/// Decides what a button event at `(row, col)` at instant `now` does (see
/// [`button_route_spec`]); a local left press is registered as a click.
pub fn button_route(
    tracker: &mut ClickTracker,
    button: PointerButton,
    pressed: bool,
    row: usize,
    col: usize,
    now: u128,
    modifiers: Modifiers,
    mouse_reporting: bool,
    copy_on_select: bool,
) -> (r: ButtonRoute)
    requires
        old(tracker).wf(),
    ensures
        final(tracker).wf(),
        is_local_left_press(button, pressed, modifiers.shift, mouse_reporting) ==> {
            &&& final(tracker).last_spec() == Some((now, row, col))
            &&& r == button_route_spec(
                button,
                pressed,
                final(tracker).count_spec(),
                modifiers,
                mouse_reporting,
                copy_on_select,
            )
            &&& continues_series(old(tracker).last_spec(), row, col, now)
                ==> final(tracker).count_spec() == old(tracker).count_spec() % 3 + 1
            &&& !continues_series(old(tracker).last_spec(), row, col, now)
                ==> final(tracker).count_spec() == 1
        },
        !is_local_left_press(button, pressed, modifiers.shift, mouse_reporting) ==> {
            &&& *final(tracker) == *old(tracker)
            &&& r == button_route_spec(
                button,
                pressed,
                old(tracker).count_spec(),
                modifiers,
                mouse_reporting,
                copy_on_select,
            )
        },
{
    let b = match term_button(button) {
        Some(b) => b,
        None => {
            return ButtonRoute::Nothing;
        },
    };
    if !modifiers.shift && mouse_reporting {
        let action = if pressed {
            MouseAction::Press
        } else {
            MouseAction::Release
        };
        return ButtonRoute::Report { button: b, action };
    }
    if b != TermMouseButton::Left {
        return ButtonRoute::Nothing;
    }
    if pressed {
        let count = tracker.register(row, col, now);
        ButtonRoute::StartSelection(selection_kind(count, modifiers.alt))
    } else if copy_on_select {
        ButtonRoute::CopySelection
    } else {
        ButtonRoute::Nothing
    }
}

/// What pointer motion over the terminal does.
#[derive(Debug, Clone, Copy, PartialEq, Eq, Structural)]
pub enum MotionRoute {
    Nothing,
    /// Report motion, with the held button (or none).
    Report(TermMouseButton),
    /// Extend the selection in progress to the cell.
    ExtendSelection,
}

/// Motion is reported to the program when it asked for the mouse and
/// `Shift` is not held; locally it extends the selection while the left
/// button is held.
pub open spec fn motion_route_spec(
    button_down: Option<PointerButton>,
    shift: bool,
    mouse_reporting: bool,
) -> MotionRoute {
    if !shift && mouse_reporting {
        MotionRoute::Report(
            match button_down {
                Some(b) => match term_button_spec(b) {
                    Some(t) => t,
                    None => TermMouseButton::NoButton,
                },
                None => TermMouseButton::NoButton,
            },
        )
    } else if button_down == Some(PointerButton::Left) {
        MotionRoute::ExtendSelection
    } else {
        MotionRoute::Nothing
    }
}

pub fn motion_route(button_down: Option<PointerButton>, shift: bool, mouse_reporting: bool) -> (r:
    MotionRoute)
    ensures
        r == motion_route_spec(button_down, shift, mouse_reporting),
{
    if !shift && mouse_reporting {
        let b = match button_down {
            Some(b) => match term_button(b) {
                Some(t) => t,
                None => TermMouseButton::NoButton,
            },
            None => TermMouseButton::NoButton,
        };
        return MotionRoute::Report(b);
    }
    match button_down {
        Some(PointerButton::Left) => MotionRoute::ExtendSelection,
        _ => MotionRoute::Nothing,
    }
}

/// `Shift` always forces the local behaviour: with it held, a program that
/// asked for mouse reports gets none of them, for buttons, wheel and
/// motion alike.
pub proof fn lemma_shift_forces_local(
    button: PointerButton,
    pressed: bool,
    click_count: u8,
    modifiers: Modifiers,
    copy_on_select: bool,
    up: bool,
    multiplier: i32,
    alt_screen: bool,
    alternate_scroll: bool,
    button_down: Option<PointerButton>,
)
    requires
        modifiers.shift,
    ensures
        button_route_spec(button, pressed, click_count, modifiers, true, copy_on_select)
            == button_route_spec(button, pressed, click_count, modifiers, false, copy_on_select),
        wheel_route_spec(up, multiplier, true, true, alt_screen, alternate_scroll)
            == wheel_route_spec(up, multiplier, true, false, alt_screen, alternate_scroll),
        motion_route_spec(button_down, true, true) == motion_route_spec(button_down, true, false),
{
}

/// The click count is always that of a single, double or triple click.
pub proof fn lemma_click_count_cycles(count: u8, continues: bool)
    requires
        count <= 3,
    ensures
        ({
            let next: int = if continues {
                count % 3 + 1
            } else {
                1
            };
            1 <= next <= 3
        }),
{
}

/// Whether a scrollback movement goes towards older output.
pub open spec fn moves_back(c: ScrollCommand) -> bool {
    match c {
        ScrollCommand::PageUp | ScrollCommand::Top => true,
        ScrollCommand::PageDown | ScrollCommand::Bottom => false,
        ScrollCommand::Lines(n) => n > 0,
    }
}

/// The scrollback movement and the terminal key of one physical key.
pub open spec fn same_key(c: ScrollCommand, k: TermKey) -> bool {
    ||| c == ScrollCommand::PageUp && k == TermKey::PageUp
    ||| c == ScrollCommand::PageDown && k == TermKey::PageDown
    ||| c == ScrollCommand::Top && k == TermKey::Home
    ||| c == ScrollCommand::Bottom && k == TermKey::End
}

/// `Shift` turns PageUp, PageDown, Home and End from keys sent to the
/// program into scrollback movements in the same direction: on the primary
/// screen, with `Shift` alone, each key scrolls the way the key it sends
/// without modifiers points (up for PageUp and Home, down for PageDown and
/// End; a page for the page keys, the ends for Home and End), the four keys
/// scroll four different ways, and on the alternate screen they do nothing.
pub proof fn lemma_shift_scrolls_the_way_the_key_points(
    n: NamedKey,
    m: NamedKey,
    super_: bool,
    has_text: bool,
)
    requires
        n == NamedKey::PageUp || n == NamedKey::PageDown || n == NamedKey::Home || n
            == NamedKey::End,
        m == NamedKey::PageUp || m == NamedKey::PageDown || m == NamedKey::Home || m
            == NamedKey::End,
    ensures
        ({
            let shift = Modifiers { ctrl: false, alt: false, shift: true, super_ };
            let plain = Modifiers { ctrl: false, alt: false, shift: false, super_ };
            &&& key_route_spec(true, Key::Named(n), shift, false, has_text) matches KeyRoute::Scroll(c)
                && key_route_spec(true, Key::Named(n), plain, false, has_text) matches KeyRoute::Key(
                k,
            ) && same_key(c, k)
            &&& moves_back(key_route_spec(true, Key::Named(n), shift, false, has_text)->Scroll_0)
                == (n == NamedKey::PageUp || n == NamedKey::Home)
            &&& (n != m ==> key_route_spec(true, Key::Named(n), shift, false, has_text)
                != key_route_spec(true, Key::Named(m), shift, false, has_text))
            &&& key_route_spec(true, Key::Named(n), shift, true, has_text) == KeyRoute::Nothing
        }),
{
}

/// `Ctrl+Shift+C` copies and `Ctrl+Shift+V` pastes, in either case of the
/// letter, whatever else holds; no other text does either.
pub proof fn lemma_clipboard_keys(text: String, super_: bool, alt_screen: bool, has_text: bool)
    ensures
        ({
            let m = Modifiers { ctrl: true, alt: false, shift: true, super_ };
            let r = key_route_spec(true, Key::Character(text), m, alt_screen, has_text);
            &&& (r == KeyRoute::CopySelection <==> (text@ == seq!['c'] || text@ == seq!['C']))
            &&& (r == KeyRoute::Paste <==> (text@ == seq!['v'] || text@ == seq!['V']))
        }),
{
    assert(seq!['v'] != seq!['c']) by {
        assert(seq!['v'][0] != seq!['c'][0]);
    }
    assert(seq!['v'] != seq!['C']) by {
        assert(seq!['v'][0] != seq!['C'][0]);
    }
    assert(seq!['V'] != seq!['c']) by {
        assert(seq!['V'][0] != seq!['c'][0]);
    }
    assert(seq!['V'] != seq!['C']) by {
        assert(seq!['V'][0] != seq!['C'][0]);
    }
}

/// `F1` to `F12` reach the terminal as the function key of the same
/// number; higher F keys have no encoding there.
pub proof fn lemma_function_keys_keep_their_number(n: u8)
    ensures
        named_term_key_spec(NamedKey::F(n)) == (if 1 <= n && n <= 12 {
            Some(TermKey::Function(n))
        } else {
            None
        }),
{
}

/// The wheel keeps its direction: a notch up reports the wheel-up button,
/// becomes arrow-up keys, or scrolls back (positive lines), for any
/// positive multiplier; a notch down does the opposite; and `multiplier`
/// notches' worth is what is reported or sent.
pub proof fn lemma_wheel_keeps_its_direction(
    up: bool,
    multiplier: i32,
    shift: bool,
    mouse_reporting: bool,
    alt_screen: bool,
    alternate_scroll: bool,
)
    requires
        multiplier > 0,
    ensures
        ({
            let r = wheel_route_spec(up, multiplier, shift, mouse_reporting, alt_screen, alternate_scroll);
            &&& r matches WheelRoute::Report { up: u, count } ==> u == up && count == multiplier
            &&& r matches WheelRoute::Arrows { up: u, count } ==> u == up && count == multiplier
            &&& r matches WheelRoute::Scroll(lines) ==> (lines > 0) == up && (lines == multiplier
                || lines == -multiplier)
        }),
{
}

} // verus!
