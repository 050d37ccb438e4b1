use porecatu_ui::ids::TabId;
use porecatu_ui::selection::{keyboard_move_target, Selection};

fn t(n: u32) -> TabId {
    TabId::new(n)
}

#[test]
fn starts_empty_with_no_anchor() {
    let sel = Selection::default();
    assert!(sel.is_empty());
    assert!(!sel.is_selected(t(1)));
}

#[test]
fn toggle_adds_and_removes() {
    let mut sel = Selection::default();
    sel.toggle(t(1));
    sel.toggle(t(2));
    assert!(sel.is_selected(t(1)));
    assert!(sel.is_selected(t(2)));
    sel.toggle(t(1));
    assert!(!sel.is_selected(t(1)));
    assert!(sel.is_selected(t(2)));
}

#[test]
fn toggle_does_not_touch_anchor() {
    let mut sel = Selection::default();
    let order = [t(1), t(2), t(3)];
    sel.select_range(&order, t(1)); // âncora = t(1)
    sel.toggle(t(3)); // não deveria mexer na âncora
    // âncora continua t(1): Shift+clique em t(2) reabre [1,2], provando
    // que a âncora não pulou para t(3).
    sel.select_range(&order, t(2));
    assert!(sel.is_selected(t(1)));
    assert!(sel.is_selected(t(2)));
    assert!(!sel.is_selected(t(3)));
}

#[test]
fn clear_resets_tabs_and_anchor() {
    let mut sel = Selection::default();
    sel.toggle(t(1));
    sel.clear();
    assert!(sel.is_empty());
    // Depois de clear, Shift+clique trata como se nunca tivesse âncora.
    sel.select_range(&[t(5), t(6)], t(6));
    assert!(sel.is_selected(t(6)));
    assert!(!sel.is_selected(t(5)));
}

#[test]
fn select_range_without_anchor_selects_only_clicked_and_sets_anchor() {
    let mut sel = Selection::default();
    let order = [t(1), t(2), t(3)];
    sel.select_range(&order, t(2));
    assert!(sel.is_selected(t(2)));
    assert!(!sel.is_selected(t(1)));
    assert!(!sel.is_selected(t(3)));
}

#[test]
fn select_range_with_anchor_selects_inclusive_span() {
    let mut sel = Selection::default();
    let order = [t(1), t(2), t(3), t(4), t(5)];
    sel.select_range(&order, t(2)); // âncora = t(2)
    sel.select_range(&order, t(4));
    assert!(!sel.is_selected(t(1)));
    assert!(sel.is_selected(t(2)));
    assert!(sel.is_selected(t(3)));
    assert!(sel.is_selected(t(4)));
    assert!(!sel.is_selected(t(5)));
}

#[test]
fn select_range_anchor_stays_fixed_across_repeated_shift_clicks() {
    let mut sel = Selection::default();
    let order = [t(1), t(2), t(3), t(4), t(5)];
    sel.select_range(&order, t(3)); // âncora = t(3)
    sel.select_range(&order, t(5)); // [3,5]
    sel.select_range(&order, t(1)); // âncora continua t(3) -> [1,3]
    assert!(sel.is_selected(t(1)));
    assert!(sel.is_selected(t(2)));
    assert!(sel.is_selected(t(3)));
    assert!(!sel.is_selected(t(4)));
    assert!(!sel.is_selected(t(5)));
}

#[test]
fn select_range_clicked_missing_from_order_is_noop() {
    let mut sel = Selection::default();
    let order = [t(1), t(2)];
    sel.select_range(&order, t(1));
    sel.select_range(&order, t(99));
    assert!(sel.is_selected(t(1)));
    assert!(!sel.is_selected(t(99)));
}

#[test]
fn remove_tab_drops_from_selection() {
    let mut sel = Selection::default();
    let order = [t(1), t(2)];
    sel.toggle(t(1));
    sel.toggle(t(2));
    sel.remove_tab(t(1), &order);
    assert!(!sel.is_selected(t(1)));
    assert!(sel.is_selected(t(2)));
}

#[test]
fn remove_tab_reassigns_anchor_to_nearest_selected() {
    let mut sel = Selection::default();
    let order = [t(1), t(2), t(3), t(4), t(5)];
    sel.select_range(&order, t(3)); // âncora = t(3), seleção {3}
    sel.toggle(t(1));
    sel.toggle(t(5));
    // fecha a âncora (t(3)): mais próxima é empate entre t(1) e t(5)
    // (distância 2 dos dois lados) -- desempate para o lado esquerdo.
    sel.remove_tab(t(3), &order);
    assert!(sel.is_selected(t(1)));
    assert!(sel.is_selected(t(5)));
    // âncora virou t(1): Shift+clique em t(4) seleciona [1,4].
    sel.select_range(&order, t(4));
    assert!(sel.is_selected(t(1)));
    assert!(sel.is_selected(t(2)));
    assert!(sel.is_selected(t(3)));
    assert!(sel.is_selected(t(4)));
    assert!(!sel.is_selected(t(5)));
}

#[test]
fn remove_tab_clears_anchor_when_no_selection_remains() {
    let mut sel = Selection::default();
    let order = [t(1), t(2)];
    sel.select_range(&order, t(1));
    sel.remove_tab(t(1), &order);
    assert!(sel.is_empty());
    // âncora sumiu -- próximo Shift+clique se comporta como "sem
    // âncora".
    sel.select_range(&order, t(2));
    assert!(sel.is_selected(t(2)));
    assert!(!sel.is_selected(t(1)));
}

#[test]
fn remove_tab_of_non_anchor_keeps_anchor() {
    let mut sel = Selection::default();
    let order = [t(1), t(2), t(3)];
    sel.select_range(&order, t(1)); // âncora = t(1)
    sel.toggle(t(3));
    sel.remove_tab(t(3), &order);
    // âncora continua t(1): Shift+clique em t(3) de novo reabre [1,3].
    sel.select_range(&order, t(3));
    assert!(sel.is_selected(t(1)));
    assert!(sel.is_selected(t(2)));
    assert!(sel.is_selected(t(3)));
}

#[test]
fn keyboard_moves_stay_inside_the_order() {
    let order = [t(1), t(2), t(3)];
    assert_eq!(keyboard_move_target(&order, t(2), -1), Some(0));
    assert_eq!(keyboard_move_target(&order, t(2), 1), Some(2));
    assert_eq!(keyboard_move_target(&order, t(1), -1), None);
    assert_eq!(keyboard_move_target(&order, t(3), 1), None);
    assert_eq!(keyboard_move_target(&order, t(9), 1), None);
    assert_eq!(keyboard_move_target(&order, t(1), isize::MIN), None);
    assert_eq!(keyboard_move_target(&order, t(1), isize::MAX), None);
}
