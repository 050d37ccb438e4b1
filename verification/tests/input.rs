use porecatu_ui::input::{
    button_route, key_route, motion_route, named_term_key, selection_kind, term_button,
    wheel_route, ButtonRoute, ClickTracker, KeyRoute, MotionRoute, MouseAction, PointerButton,
    ScrollCommand, SelectionKind, TermKey, TermMouseButton, WheelRoute, MULTI_CLICK_THRESHOLD_NANOS,
};
use porecatu_ui::keymap::{Key, Modifiers, NamedKey};

const MS: u128 = 1_000_000;

fn mods(ctrl: bool, alt: bool, shift: bool) -> Modifiers {
    Modifiers { ctrl, alt, shift, super_: false }
}

fn ch(s: &str) -> Key {
    Key::Character(s.to_owned())
}

#[test]
fn clicks_on_the_same_cell_count_up_and_cycle() {
    let mut t = ClickTracker::default();
    let t0 = 1_000 * MS;
    assert_eq!(t.register(3, 4, t0), 1);
    assert_eq!(t.register(3, 4, t0 + 100 * MS), 2);
    assert_eq!(t.register(3, 4, t0 + 200 * MS), 3);
    assert_eq!(t.register(3, 4, t0 + 300 * MS), 1);
}

#[test]
fn a_click_elsewhere_or_too_late_starts_over() {
    let mut t = ClickTracker::default();
    let t0 = 1_000 * MS;
    assert_eq!(t.register(0, 0, t0), 1);
    assert_eq!(t.register(0, 1, t0 + 10 * MS), 1);
    assert_eq!(t.register(0, 1, t0 + 10 * MS + MULTI_CLICK_THRESHOLD_NANOS), 1);
    assert_eq!(t.register(0, 1, t0 + 11 * MS + MULTI_CLICK_THRESHOLD_NANOS), 2);
}

#[test]
fn selection_kind_by_count_and_alt() {
    assert_eq!(selection_kind(1, false), SelectionKind::Simple);
    assert_eq!(selection_kind(2, false), SelectionKind::Semantic);
    assert_eq!(selection_kind(3, false), SelectionKind::Lines);
    assert_eq!(selection_kind(2, true), SelectionKind::Block);
}

#[test]
fn ctrl_shift_c_and_v_copy_and_paste_in_either_case() {
    assert_eq!(key_route(true, &ch("c"), mods(true, false, true), false, true), KeyRoute::CopySelection);
    assert_eq!(key_route(true, &ch("V"), mods(true, false, true), false, true), KeyRoute::Paste);
    assert_eq!(key_route(true, &ch("C"), mods(true, true, true), false, true), KeyRoute::Text);
    assert_eq!(key_route(true, &ch("C"), mods(true, false, false), false, true), KeyRoute::CtrlChar('C'));
}

#[test]
fn shift_page_keys_scroll_except_on_the_alternate_screen() {
    let k = Key::Named(NamedKey::PageUp);
    assert_eq!(key_route(true, &k, mods(false, false, true), false, false), KeyRoute::Scroll(ScrollCommand::PageUp));
    assert_eq!(key_route(true, &k, mods(false, false, true), true, false), KeyRoute::Nothing);
    let home = Key::Named(NamedKey::Home);
    assert_eq!(key_route(true, &home, mods(false, false, true), false, false), KeyRoute::Scroll(ScrollCommand::Top));
    assert_eq!(key_route(true, &home, mods(false, false, false), false, false), KeyRoute::Key(TermKey::Home));
}

#[test]
fn released_keys_do_nothing_and_text_goes_to_the_terminal() {
    assert_eq!(key_route(false, &ch("a"), mods(false, false, false), false, true), KeyRoute::Nothing);
    assert_eq!(key_route(true, &ch("a"), mods(false, false, false), false, true), KeyRoute::Text);
    assert_eq!(key_route(true, &Key::Named(NamedKey::Space), mods(false, false, false), false, true), KeyRoute::Text);
    assert_eq!(key_route(true, &Key::Other, mods(false, false, false), false, false), KeyRoute::Nothing);
    assert_eq!(key_route(true, &ch("x"), mods(true, false, false), false, true), KeyRoute::CtrlChar('x'));
}

#[test]
fn named_keys_map_to_terminal_keys_up_to_f12() {
    assert_eq!(named_term_key(NamedKey::Enter), Some(TermKey::Enter));
    assert_eq!(named_term_key(NamedKey::F(12)), Some(TermKey::Function(12)));
    assert_eq!(named_term_key(NamedKey::F(13)), None);
    assert_eq!(named_term_key(NamedKey::Space), None);
}

#[test]
fn wheel_reports_scrolls_or_becomes_arrows() {
    assert_eq!(wheel_route(true, 3, false, true, false, true), WheelRoute::Report { up: true, count: 3 });
    assert_eq!(wheel_route(false, 3, true, true, false, true), WheelRoute::Scroll(-3));
    assert_eq!(wheel_route(false, 3, false, false, true, true), WheelRoute::Arrows { up: false, count: 3 });
    assert_eq!(wheel_route(true, 3, false, false, true, false), WheelRoute::Nothing);
    assert_eq!(wheel_route(true, -2, false, true, false, false), WheelRoute::Report { up: false, count: 2 });
}

#[test]
fn buttons_report_or_select_locally() {
    let mut t = ClickTracker::default();
    let now = 1_000 * MS;
    assert_eq!(
        button_route(&mut t, PointerButton::Left, true, 1, 1, now, mods(false, false, false), true, false),
        ButtonRoute::Report { button: TermMouseButton::Left, action: MouseAction::Press }
    );
    assert_eq!(
        button_route(&mut t, PointerButton::Left, true, 1, 1, now, mods(false, false, true), true, false),
        ButtonRoute::StartSelection(SelectionKind::Simple)
    );
    assert_eq!(
        button_route(&mut t, PointerButton::Left, true, 1, 1, now + MS, mods(false, false, false), false, false),
        ButtonRoute::StartSelection(SelectionKind::Semantic)
    );
    assert_eq!(
        button_route(&mut t, PointerButton::Left, false, 1, 1, now + 2 * MS, mods(false, false, false), false, true),
        ButtonRoute::CopySelection
    );
    assert_eq!(
        button_route(&mut t, PointerButton::Right, true, 1, 1, now, mods(false, false, false), false, true),
        ButtonRoute::Nothing
    );
    assert_eq!(
        button_route(&mut t, PointerButton::Other, true, 1, 1, now, mods(false, false, false), true, true),
        ButtonRoute::Nothing
    );
    assert_eq!(term_button(PointerButton::Middle), Some(TermMouseButton::Middle));
}

#[test]
fn motion_reports_or_extends_the_selection() {
    assert_eq!(motion_route(Some(PointerButton::Left), false, true), MotionRoute::Report(TermMouseButton::Left));
    assert_eq!(motion_route(None, false, true), MotionRoute::Report(TermMouseButton::NoButton));
    assert_eq!(motion_route(Some(PointerButton::Left), true, true), MotionRoute::ExtendSelection);
    assert_eq!(motion_route(Some(PointerButton::Right), false, false), MotionRoute::Nothing);
}
