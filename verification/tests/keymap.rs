use std::collections::BTreeMap;

use porecatu_ui::bindings::{resolve, BindingLine, KeybindingTables, Keymap};
use porecatu_ui::keymap::{Chord, ChordKey, Key, Modifiers, NamedKey, Platform};

fn mods(ctrl: bool, alt: bool, shift: bool, cmd: bool) -> Modifiers {
    Modifiers { ctrl, alt, shift, super_: cmd }
}

#[test]
fn shift_ctrl_and_ctrl_shift_canonicalize_to_the_same_chord() {
    assert_eq!(
        Chord::parse("shift+ctrl+t").unwrap(),
        Chord::parse("ctrl+shift+t").unwrap()
    );
}

#[test]
fn uppercase_is_tolerated() {
    assert_eq!(
        Chord::parse("Ctrl+Shift+T").unwrap(),
        Chord::parse("ctrl+shift+t").unwrap()
    );
}

#[test]
fn named_word_and_literal_symbol_are_the_same_key() {
    assert_eq!(
        Chord::parse("ctrl+comma").unwrap(),
        Chord::parse("ctrl+,").unwrap()
    );
}

#[test]
fn unknown_modifier_is_an_error() {
    assert!(Chord::parse("super+t").is_err());
}

#[test]
fn unknown_key_name_is_an_error() {
    assert!(Chord::parse("ctrl+bogus").is_err());
}

#[test]
fn f_keys_parse_up_to_24() {
    assert!(Chord::parse("f24").is_ok());
    assert!(Chord::parse("f25").is_err());
    assert!(Chord::parse("f0").is_err());
}

#[test]
fn from_key_matches_text_parse_for_named_key() {
    let from_text = Chord::parse("ctrl+shift+pagedown").unwrap();
    let from_event = Chord::from_key(
        &Key::Named(NamedKey::PageDown),
        mods(true, false, true, false),
    )
    .unwrap();
    assert_eq!(from_text, from_event);
}

#[test]
fn from_key_matches_text_parse_for_character() {
    let from_text = Chord::parse("alt+1").unwrap();
    let from_event =
        Chord::from_key(&Key::Character("1".into()), mods(false, true, false, false)).unwrap();
    assert_eq!(from_text, from_event);
}

#[test]
fn from_key_ignores_multi_char_ime_composition() {
    assert!(Chord::from_key(&Key::Character("ab".into()), mods(false, false, false, false)).is_none());
}

// --- further cases ---

#[test]
fn parse_sets_each_flag_and_the_key() {
    let c = Chord::parse("cmd+alt+f12").unwrap();
    assert_eq!(
        c,
        Chord { ctrl: false, alt: true, shift: false, cmd: true, key: ChordKey::Named(NamedKey::F(12)) }
    );
    assert_eq!(
        Chord::parse("equals").unwrap(),
        Chord { ctrl: false, alt: false, shift: false, cmd: false, key: ChordKey::Char('=') }
    );
}

#[test]
fn parse_errors_name_the_part_and_the_text() {
    assert_eq!(
        Chord::parse("super+t"),
        Err("modificador desconhecido: \"super\" em \"super+t\"".to_owned())
    );
    assert_eq!(
        Chord::parse("Ctrl+Bogus"),
        Err("tecla desconhecida: \"bogus\" em \"Ctrl+Bogus\"".to_owned())
    );
}

#[test]
fn a_repeated_modifier_is_the_same_chord() {
    assert_eq!(Chord::parse("ctrl+ctrl+t"), Chord::parse("ctrl+t"));
}

#[test]
fn from_key_lowercases_ascii_and_keeps_other_named_keys() {
    assert_eq!(
        Chord::from_key(&Key::Character("T".into()), mods(true, false, true, false)),
        Chord::parse("ctrl+shift+t").ok()
    );
    assert_eq!(
        Chord::from_key(&Key::Named(NamedKey::Other(7)), mods(false, false, false, false))
            .map(|c| c.key),
        Some(ChordKey::Named(NamedKey::Other(7)))
    );
    assert_eq!(Chord::from_key(&Key::Other, mods(false, false, false, false)), None);
}

#[derive(Debug, Clone, Copy, PartialEq, Eq)]
enum Action {
    TabNew,
    TabClose,
    TabNext,
    TabPrev,
    WindowNew,
    GroupCreate,
    AppQuit,
}

const CATALOGUE: [(&str, Action); 7] = [
    ("tab.new", Action::TabNew),
    ("tab.close", Action::TabClose),
    ("tab.next", Action::TabNext),
    ("tab.prev", Action::TabPrev),
    ("window.new", Action::WindowNew),
    ("group.create", Action::GroupCreate),
    ("app.quit", Action::AppQuit),
];

/// The action catalogue of these tests: an unknown name suggests the
/// closest known one (same length, most characters in place).
fn parse_action(text: &str) -> Result<Action, String> {
    if let Some((_, a)) = CATALOGUE.iter().find(|(n, _)| *n == text) {
        return Ok(*a);
    }
    let score = |n: &str| {
        if n.len() != text.len() {
            return 0;
        }
        n.chars().zip(text.chars()).filter(|(a, b)| a == b).count()
    };
    let best = CATALOGUE.iter().max_by_key(|(n, _)| score(n)).map(|(n, _)| *n).unwrap_or("");
    Err(format!("ação desconhecida \"{text}\"; você quis dizer \"{best}\"?"))
}

fn table(pairs: &BTreeMap<String, String>) -> Vec<BindingLine<Action>> {
    pairs
        .iter()
        .map(|(k, v)| BindingLine { key: k.clone(), action_text: v.clone(), action: parse_action(v) })
        .collect()
}

struct Keybindings {
    common: BTreeMap<String, String>,
    windows: BTreeMap<String, String>,
    linux: BTreeMap<String, String>,
    macos: BTreeMap<String, String>,
}

fn tables(k: &Keybindings) -> KeybindingTables<Action> {
    KeybindingTables {
        common: table(&k.common),
        windows: table(&k.windows),
        linux: table(&k.linux),
        macos: table(&k.macos),
    }
}

fn keybindings_with(common: &[(&str, &str)]) -> Keybindings {
    Keybindings {
        common: common.iter().map(|(k, v)| (k.to_string(), v.to_string())).collect(),
        windows: BTreeMap::new(),
        linux: BTreeMap::new(),
        macos: BTreeMap::new(),
    }
}

/// Embedded defaults of these tests.
fn embedded() -> KeybindingTables<Action> {
    let mut k = keybindings_with(&[
        ("ctrl+shift+t", "tab.new"),
        ("ctrl+shift+w", "tab.close"),
        ("ctrl+tab", "tab.next"),
        ("ctrl+shift+tab", "tab.prev"),
    ]);
    k.macos.insert("cmd+q".to_owned(), "app.quit".to_owned());
    tables(&k)
}

struct Resolved {
    bindings: Keymap<Action>,
    issues: Vec<String>,
}

fn resolve_user(user: &Keybindings, platform: Platform) -> Resolved {
    let r = resolve(&embedded(), &tables(user), platform);
    Resolved { bindings: r.bindings, issues: r.issues }
}

#[test]
fn embedded_defaults_resolve_without_issues_on_every_platform() {
    let empty = keybindings_with(&[]);
    for platform in [Platform::Windows, Platform::Linux, Platform::Macos] {
        let resolved = resolve_user(&empty, platform);
        assert!(resolved.issues.is_empty(), "{platform:?}: {:?}", resolved.issues);
    }
}

#[test]
fn user_common_overrides_embedded_default() {
    let user = keybindings_with(&[("ctrl+shift+t", "window.new")]);
    let resolved = resolve_user(&user, Platform::Windows);
    let chord = Chord::parse("ctrl+shift+t").unwrap();
    assert_eq!(resolved.bindings.get(&chord), Some(Action::WindowNew));
}

#[test]
fn none_releases_an_embedded_default() {
    let user = keybindings_with(&[("ctrl+shift+t", "none")]);
    let resolved = resolve_user(&user, Platform::Windows);
    let chord = Chord::parse("ctrl+shift+t").unwrap();
    assert_eq!(resolved.bindings.get(&chord), None);
}

#[test]
fn platform_table_overrides_common_table() {
    let mut user = keybindings_with(&[("ctrl+shift+t", "tab.new")]);
    user.macos.insert("ctrl+shift+t".to_owned(), "window.new".to_owned());
    let resolved_mac = resolve_user(&user, Platform::Macos);
    let resolved_win = resolve_user(&user, Platform::Windows);
    let chord = Chord::parse("ctrl+shift+t").unwrap();
    assert_eq!(resolved_mac.bindings.get(&chord), Some(Action::WindowNew));
    assert_eq!(resolved_win.bindings.get(&chord), Some(Action::TabNew));
}

#[test]
fn same_binding_in_common_and_platform_is_override_not_duplicate() {
    let mut user = keybindings_with(&[("ctrl+shift+g", "tab.new")]);
    user.windows.insert("ctrl+shift+g".to_owned(), "group.create".to_owned());
    let resolved = resolve_user(&user, Platform::Windows);
    assert!(resolved.issues.is_empty());
}

#[test]
fn duplicate_in_the_same_table_is_an_issue_and_keeps_the_previous_layer() {
    let user = keybindings_with(&[("ctrl+shift+t", "tab.close"), ("shift+ctrl+t", "window.new")]);
    let resolved = resolve_user(&user, Platform::Windows);
    assert_eq!(resolved.issues.len(), 1);
    assert!(resolved.issues[0].contains("duplicado"));
    let chord = Chord::parse("ctrl+shift+t").unwrap();
    assert_eq!(resolved.bindings.get(&chord), Some(Action::TabNew));
}

#[test]
fn unknown_action_is_an_issue_with_suggestion() {
    let user = keybindings_with(&[("ctrl+shift+z", "tab.clsoe")]);
    let resolved = resolve_user(&user, Platform::Windows);
    assert_eq!(resolved.issues.len(), 1);
    assert!(resolved.issues[0].contains("tab.close"));
}

#[test]
fn ctrl_tab_default_is_the_same_on_every_platform() {
    let empty = keybindings_with(&[]);
    for platform in [Platform::Windows, Platform::Linux, Platform::Macos] {
        let resolved = resolve_user(&empty, platform);
        let next = Chord::parse("ctrl+tab").unwrap();
        let prev = Chord::parse("ctrl+shift+tab").unwrap();
        assert_eq!(resolved.bindings.get(&next), Some(Action::TabNext));
        assert_eq!(resolved.bindings.get(&prev), Some(Action::TabPrev));
    }
}

#[test]
fn app_quit_only_has_a_default_on_macos() {
    let empty = keybindings_with(&[]);
    let mac = resolve_user(&empty, Platform::Macos);
    let win = resolve_user(&empty, Platform::Windows);
    assert!(mac.bindings.as_slice().iter().any(|(_, a)| *a == Action::AppQuit));
    assert!(!win.bindings.as_slice().iter().any(|(_, a)| *a == Action::AppQuit));
}

#[test]
fn the_duplicate_issue_quotes_every_spelling_in_table_order() {
    let user = keybindings_with(&[("ctrl+shift+t", "tab.close"), ("shift+ctrl+t", "window.new")]);
    let resolved = resolve_user(&user, Platform::Linux);
    assert_eq!(
        resolved.issues,
        vec!["binding duplicado: \"ctrl+shift+t\" e \"shift+ctrl+t\" resolvem pra mesma tecla"
            .to_owned()]
    );
}

#[test]
fn malformed_keys_come_first_and_drop_only_their_line() {
    let user = keybindings_with(&[("hyper+x", "tab.new"), ("ctrl+n", "tab.new"), ("ctrl+shift+z", "tab.clsoe")]);
    let resolved = resolve_user(&user, Platform::Windows);
    assert_eq!(resolved.issues.len(), 2);
    assert_eq!(resolved.issues[0], "modificador desconhecido: \"hyper\" em \"hyper+x\"");
    assert!(resolved.issues[1].starts_with("\"ctrl+shift+z\": "));
    assert_eq!(resolved.bindings.get(&Chord::parse("ctrl+n").unwrap()), Some(Action::TabNew));
    assert_eq!(resolved.bindings.get(&Chord::parse("ctrl+shift+z").unwrap()), None);
}

#[test]
fn the_macos_table_counts_only_on_macos() {
    let empty = keybindings_with(&[]);
    assert_eq!(resolve_user(&empty, Platform::Macos).bindings.len(), 5);
    assert_eq!(resolve_user(&empty, Platform::Linux).bindings.len(), 4);
}

#[test]
fn a_keymap_insert_replaces_and_remove_unbinds() {
    let mut k: Keymap<u32> = Keymap::new();
    let c = Chord::parse("ctrl+a").unwrap();
    k.insert(c, 1);
    k.insert(c, 2);
    assert_eq!(k.get(&c), Some(2));
    assert_eq!(k.len(), 1);
    k.remove(&c);
    assert_eq!(k.get(&c), None);
    assert_eq!(k.len(), 0);
}
