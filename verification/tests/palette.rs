use porecatu_ui::palette::{cube_channel, resolve, ColorSource, TermColor};

#[test]
fn resolve_default_picks_foreground_or_background() {
    assert_eq!(resolve(TermColor::Default, true, false, false), ColorSource::Foreground);
    assert_eq!(resolve(TermColor::Default, false, false, false), ColorSource::Background);
}

#[test]
fn resolve_rgb_passes_through_untouched() {
    assert_eq!(
        resolve(TermColor::Rgb { r: 10, g: 20, b: 30 }, true, false, false),
        ColorSource::Rgb(10, 20, 30)
    );
}

#[test]
fn resolve_256_cube_and_gray_ramp_are_not_bold_promoted() {
    assert_eq!(resolve(TermColor::Indexed(16), true, true, true), ColorSource::Rgb(0, 0, 0));
    assert_eq!(resolve(TermColor::Indexed(232), true, true, true), ColorSource::Rgb(8, 8, 8));
}

#[test]
fn bold_is_bright_promotes_only_when_enabled_and_only_for_foreground() {
    assert_eq!(
        resolve(TermColor::Indexed(1), true, true, false),
        resolve(TermColor::Indexed(1), true, false, false)
    );
    assert_eq!(resolve(TermColor::Indexed(1), true, true, true), ColorSource::Bright(1));
    assert_eq!(resolve(TermColor::Indexed(1), false, true, true), ColorSource::Normal(1));
}

// --- further cases ---

#[test]
fn bright_indices_map_to_the_bright_octet() {
    assert_eq!(resolve(TermColor::Indexed(9), true, false, false), ColorSource::Bright(1));
    assert_eq!(resolve(TermColor::Indexed(15), false, false, false), ColorSource::Bright(7));
}

#[test]
fn cube_corners_and_ramp_end() {
    assert_eq!(resolve(TermColor::Indexed(231), true, false, false), ColorSource::Rgb(255, 255, 255));
    assert_eq!(resolve(TermColor::Indexed(196), true, false, false), ColorSource::Rgb(255, 0, 0));
    assert_eq!(resolve(TermColor::Indexed(255), true, false, false), ColorSource::Rgb(238, 238, 238));
    assert_eq!(cube_channel(0), 0);
    assert_eq!(cube_channel(1), 95);
    assert_eq!(cube_channel(5), 255);
}
