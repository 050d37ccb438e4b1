use porecatu_ui::box_glyphs::{block_rects, box_drawing_segments, is_covered, shade_quarters, Weight};

#[test]
fn dashed_and_mixed_weight_characters_are_not_covered() {
    assert!(!is_covered('\u{2504}'));
    assert!(!is_covered('\u{250D}'));
    assert!(!is_covered('\u{256D}'));
}

#[test]
fn full_block_covers_the_whole_cell() {
    assert_eq!(block_rects('\u{2588}'), Some(vec![(0, 0, 8, 8)]));
}

#[test]
fn upper_half_block_covers_only_the_top_half() {
    assert_eq!(block_rects('\u{2580}'), Some(vec![(0, 0, 8, 4)]));
}

#[test]
fn quadrant_combo_emits_two_rects_covering_three_quarters() {
    let rects = block_rects('\u{2599}').unwrap();
    assert_eq!(rects.len(), 2);
    let area: u32 = rects
        .iter()
        .map(|&(x0, y0, x1, y1)| (x1 - x0) as u32 * (y1 - y0) as u32)
        .sum();
    assert_eq!(area, 48, "three quarters of 64 eighths squared");
}

#[test]
fn shades_scale_foreground_alpha_and_cover_the_whole_cell() {
    assert_eq!(shade_quarters('\u{2591}'), Some(1));
    assert_eq!(shade_quarters('\u{2592}'), Some(2));
    assert_eq!(shade_quarters('\u{2593}'), Some(3));
    assert_eq!(shade_quarters('\u{2588}'), None);
    assert_eq!(block_rects('\u{2592}'), Some(vec![(0, 0, 8, 8)]));
}

#[test]
fn light_horizontal_line_spans_the_full_width_centered_vertically() {
    let s = box_drawing_segments('\u{2500}').unwrap();
    assert_eq!(s.left, Some(Weight::Light));
    assert_eq!(s.right, Some(Weight::Light));
    assert_eq!(s.up, None);
    assert_eq!(s.down, None);
}

#[test]
fn heavy_horizontal_line_renders_at_double_thickness() {
    let s = box_drawing_segments('\u{2501}').unwrap();
    assert_eq!(s.left, Some(Weight::Heavy));
    assert_eq!(s.right, Some(Weight::Heavy));
}

#[test]
fn double_vertical_line_emits_two_parallel_bars() {
    let s = box_drawing_segments('\u{2551}').unwrap();
    assert_eq!(s.up, Some(Weight::Double));
    assert_eq!(s.down, Some(Weight::Double));
    assert_eq!(s.left, None);
    assert_eq!(s.right, None);
}

#[test]
fn corner_light_touches_only_down_and_right() {
    let s = box_drawing_segments('\u{250C}').unwrap();
    assert_eq!(s.down, Some(Weight::Light));
    assert_eq!(s.right, Some(Weight::Light));
    assert_eq!(s.up, None);
    assert_eq!(s.left, None);
}

#[test]
fn is_covered_agrees_with_push_producing_geometry() {
    for ch in ['\u{2588}', '\u{2591}', '\u{2500}', '\u{254B}', '\u{256C}'] {
        assert!(is_covered(ch));
        let geometry = block_rects(ch).map(|r| !r.is_empty()).unwrap_or(false)
            || box_drawing_segments(ch).is_some();
        assert!(geometry, "`{ch}` deveria gerar geometria");
    }
}

// --- further cases ---

#[test]
fn letters_are_not_covered() {
    assert!(!is_covered('a'));
    assert_eq!(block_rects('a'), None);
    assert_eq!(box_drawing_segments('a'), None);
}

#[test]
fn lower_eighth_and_right_eighth_blocks() {
    assert_eq!(block_rects('\u{2581}'), Some(vec![(0, 7, 8, 8)]));
    assert_eq!(block_rects('\u{2595}'), Some(vec![(7, 0, 8, 8)]));
}
