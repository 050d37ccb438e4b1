use porecatu_ui::reload::{diff, ConfigChanges, Debounce, ReloadEffects, DEBOUNCE_NANOS};

const MS: u128 = 1_000_000;
const SEC: u128 = 1_000_000_000;

fn t0() -> u128 {
    1_000 * SEC
}

#[test]
fn debounce_collapses_a_burst_into_one_fire() {
    let mut d = Debounce::new();
    let t0 = t0();
    d.notice(t0);
    assert!(!d.ready(t0 + 50 * MS));
    d.notice(t0 + 50 * MS);
    d.notice(t0 + 90 * MS);
    assert!(!d.ready(t0 + 150 * MS));
    assert!(d.ready(t0 + 291 * MS));
    assert!(!d.ready(t0 + 1000 * MS));
}

#[test]
fn debounce_without_events_never_fires() {
    let mut d = Debounce::new();
    assert!(!d.ready(t0() + 10 * SEC));
}

#[test]
fn debounce_fires_again_for_a_second_burst() {
    let mut d = Debounce::new();
    let t0 = t0();
    d.notice(t0);
    assert!(d.ready(t0 + DEBOUNCE_NANOS + MS));
    d.notice(t0 + 5 * SEC);
    assert!(!d.ready(t0 + 5 * SEC + 100 * MS));
    assert!(d.ready(t0 + 5 * SEC + DEBOUNCE_NANOS + MS));
}

#[test]
fn identical_configs_have_no_effects() {
    let effects = diff(&ConfigChanges::default());
    assert_eq!(effects, ReloadEffects::default());
}

#[test]
fn font_change_is_class_b() {
    let changes = ConfigChanges { font: true, ..Default::default() };
    assert!(diff(&changes).grid_changed);
}

#[test]
fn tab_height_change_is_class_b() {
    let changes = ConfigChanges { tab_height: true, ..Default::default() };
    assert!(diff(&changes).grid_changed);
}

#[test]
fn color_change_is_class_a_not_b() {
    // A colour is no key of class B or C: nothing changes beyond a redraw.
    let effects = diff(&ConfigChanges::default());
    assert!(!effects.grid_changed);
    assert!(effects.deferred.is_empty());
}

#[test]
fn shell_change_is_deferred_not_grid() {
    let changes = ConfigChanges { shell: true, ..Default::default() };
    let effects = diff(&changes);
    assert!(!effects.grid_changed);
    assert_eq!(effects.deferred, vec!["[shell]: vale em aba nova".to_owned()]);
}

#[test]
fn scrollback_change_is_deferred() {
    let changes = ConfigChanges { scrollback: true, ..Default::default() };
    let effects = diff(&changes);
    assert!(!effects.grid_changed);
    assert_eq!(
        effects.deferred,
        vec!["[terminal.scrollback]: vale em aba nova".to_owned()]
    );
}

#[test]
fn decorations_change_is_deferred() {
    let changes = ConfigChanges { window_decorations: true, ..Default::default() };
    let effects = diff(&changes);
    assert!(!effects.grid_changed);
    assert_eq!(
        effects.deferred,
        vec!["appearance.window.decorations: reinicie o app".to_owned()]
    );
}

#[test]
fn session_change_is_deferred() {
    let changes = ConfigChanges { session: true, ..Default::default() };
    let effects = diff(&changes);
    assert_eq!(effects.deferred, vec!["[session]: reinicie o app".to_owned()]);
}

#[test]
fn multiple_deferred_changes_collect_all() {
    let changes = ConfigChanges { shell: true, session: true, ..Default::default() };
    assert_eq!(diff(&changes).deferred.len(), 2);
}

// --- further cases ---

#[test]
fn every_grid_key_is_class_b() {
    for changes in [
        ConfigChanges { window_padding_x: true, ..Default::default() },
        ConfigChanges { window_padding_y: true, ..Default::default() },
        ConfigChanges { tabs_height: true, ..Default::default() },
        ConfigChanges { trilha_padding: true, ..Default::default() },
        ConfigChanges { frame_margin: true, ..Default::default() },
        ConfigChanges { frame_padding: true, ..Default::default() },
        ConfigChanges { frame_corner_radius: true, ..Default::default() },
    ] {
        let effects = diff(&changes);
        assert!(effects.grid_changed);
        assert!(effects.deferred.is_empty());
    }
}

#[test]
fn deferred_messages_come_in_a_fixed_order() {
    let changes = ConfigChanges {
        session: true,
        window_opacity: true,
        tab_bar_position: true,
        ..Default::default()
    };
    assert_eq!(
        diff(&changes).deferred,
        vec![
            "appearance.window.opacity: vale na próxima janela".to_owned(),
            "appearance.window.tab_bar_position: reinicie o app".to_owned(),
            "[session]: reinicie o app".to_owned(),
        ]
    );
}

#[test]
fn ready_exactly_at_the_deadline_fires() {
    let mut d = Debounce::new();
    d.notice(t0());
    assert!(d.ready(t0() + DEBOUNCE_NANOS));
}
