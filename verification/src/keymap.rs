//! Key grammar of `[keybindings]`: a chord is a set of modifier flags plus
//! a key, so every spelling that means the same key produces the same chord
//! (`"shift+ctrl+t"` and `"ctrl+shift+t"`).
use vstd::prelude::*;

use crate::text;
use crate::text::{
    ascii_lower_exec, chars_of, eq_chars, parse_u8_chars, split_chars, string_from_chars,
    strip_prefix_chars, to_lowercase,
};
use vstd::string::StringExecFns;

verus! {

broadcast use vstd::string::group_string_axioms;

/// Named keys of the grammar (and any other named key of a key event,
/// carried by an opaque code).
#[derive(Debug, Clone, Copy, PartialEq, Eq, Hash, Structural)]
pub enum NamedKey {
    Space,
    Tab,
    Enter,
    Escape,
    Backspace,
    Delete,
    Insert,
    Home,
    End,
    PageUp,
    PageDown,
    ArrowUp,
    ArrowDown,
    ArrowLeft,
    ArrowRight,
    /// `F1` to `F24`.
    F(u8),
    /// A named key outside the grammar (media keys and the like).
    Other(u32),
}

/// A named key, or the logical character itself.
#[derive(Debug, Clone, Copy, PartialEq, Eq, Hash, Structural)]
pub enum ChordKey {
    Char(char),
    Named(NamedKey),
}

/// A resolved combination: the real key of the keybinding map.
#[derive(Debug, Clone, Copy, PartialEq, Eq, Hash, Structural)]
pub struct Chord {
    pub ctrl: bool,
    pub alt: bool,
    pub shift: bool,
    pub cmd: bool,
    pub key: ChordKey,
}

/// Modifier state of a key event.
#[derive(Debug, Clone, Copy, PartialEq, Eq, Structural)]
pub struct Modifiers {
    pub ctrl: bool,
    pub alt: bool,
    pub shift: bool,
    pub super_: bool,
}

/// Logical key of a key event.
#[derive(Debug, Clone, PartialEq, Eq)]
pub enum Key {
    /// The text the layout produced.
    Character(String),
    Named(NamedKey),
    /// Dead keys, unidentified keys and the like.
    Other,
}

/// Key names that are not the character itself.
pub open spec fn named_key_spec(t: Seq<char>) -> Option<ChordKey> {
    if t == "equals"@ {
        Some(ChordKey::Char('='))
    } else if t == "minus"@ {
        Some(ChordKey::Char('-'))
    } else if t == "comma"@ {
        Some(ChordKey::Char(','))
    } else if t == "period"@ {
        Some(ChordKey::Char('.'))
    } else if t == "slash"@ {
        Some(ChordKey::Char('/'))
    } else if t == "backslash"@ {
        Some(ChordKey::Char('\\'))
    } else if t == "semicolon"@ {
        Some(ChordKey::Char(';'))
    } else if t == "quote"@ {
        Some(ChordKey::Char('\''))
    } else if t == "bracketleft"@ {
        Some(ChordKey::Char('['))
    } else if t == "bracketright"@ {
        Some(ChordKey::Char(']'))
    } else if t == "backtick"@ {
        Some(ChordKey::Char('`'))
    } else if t == "space"@ {
        Some(ChordKey::Named(NamedKey::Space))
    } else if t == "tab"@ {
        Some(ChordKey::Named(NamedKey::Tab))
    } else if t == "enter"@ {
        Some(ChordKey::Named(NamedKey::Enter))
    } else if t == "escape"@ {
        Some(ChordKey::Named(NamedKey::Escape))
    } else if t == "backspace"@ {
        Some(ChordKey::Named(NamedKey::Backspace))
    } else if t == "delete"@ {
        Some(ChordKey::Named(NamedKey::Delete))
    } else if t == "insert"@ {
        Some(ChordKey::Named(NamedKey::Insert))
    } else if t == "home"@ {
        Some(ChordKey::Named(NamedKey::Home))
    } else if t == "end"@ {
        Some(ChordKey::Named(NamedKey::End))
    } else if t == "pageup"@ {
        Some(ChordKey::Named(NamedKey::PageUp))
    } else if t == "pagedown"@ {
        Some(ChordKey::Named(NamedKey::PageDown))
    } else if t == "up"@ {
        Some(ChordKey::Named(NamedKey::ArrowUp))
    } else if t == "down"@ {
        Some(ChordKey::Named(NamedKey::ArrowDown))
    } else if t == "left"@ {
        Some(ChordKey::Named(NamedKey::ArrowLeft))
    } else if t == "right"@ {
        Some(ChordKey::Named(NamedKey::ArrowRight))
    } else {
        None
    }
}

/// `f1` .. `f24`: `f` followed by a `u8` between 1 and 24.
pub open spec fn named_f_key_spec(t: Seq<char>) -> Option<ChordKey> {
    match text::strip_prefix(t, seq!['f']) {
        Some(rest) => match text::parse_u8(rest) {
            Some(n) => if 1 <= n && n <= 24 {
                Some(ChordKey::Named(NamedKey::F(n)))
            } else {
                None
            },
            None => None,
        },
        None => None,
    }
}

/// The key of a key text: a name of the grammar, an F key, or a single
/// character.
pub open spec fn parse_key_spec(t: Seq<char>) -> Option<ChordKey> {
    match named_key_spec(t) {
        Some(k) => Some(k),
        None => match named_f_key_spec(t) {
            Some(k) => Some(k),
            None => if t.len() == 1 {
                Some(ChordKey::Char(t[0]))
            } else {
                None
            },
        },
    }
}

/// The word the grammar spells a key with, for the keys that have one:
/// the symbols with a name and the named keys other than the F keys.
pub open spec fn grammar_name(k: ChordKey) -> Option<Seq<char>> {
    match k {
        ChordKey::Char('=') => Some("equals"@),
        ChordKey::Char('-') => Some("minus"@),
        ChordKey::Char(',') => Some("comma"@),
        ChordKey::Char('.') => Some("period"@),
        ChordKey::Char('/') => Some("slash"@),
        ChordKey::Char('\\') => Some("backslash"@),
        ChordKey::Char(';') => Some("semicolon"@),
        ChordKey::Char('\'') => Some("quote"@),
        ChordKey::Char('[') => Some("bracketleft"@),
        ChordKey::Char(']') => Some("bracketright"@),
        ChordKey::Char('`') => Some("backtick"@),
        ChordKey::Char(_) => None,
        ChordKey::Named(n) => match n {
            NamedKey::Space => Some("space"@),
            NamedKey::Tab => Some("tab"@),
            NamedKey::Enter => Some("enter"@),
            NamedKey::Escape => Some("escape"@),
            NamedKey::Backspace => Some("backspace"@),
            NamedKey::Delete => Some("delete"@),
            NamedKey::Insert => Some("insert"@),
            NamedKey::Home => Some("home"@),
            NamedKey::End => Some("end"@),
            NamedKey::PageUp => Some("pageup"@),
            NamedKey::PageDown => Some("pagedown"@),
            NamedKey::ArrowUp => Some("up"@),
            NamedKey::ArrowDown => Some("down"@),
            NamedKey::ArrowLeft => Some("left"@),
            NamedKey::ArrowRight => Some("right"@),
            _ => None,
        },
    }
}

/// Every word of the grammar parses to the key it names (so no two words
/// name the same key, and each word names one key); for a named key, that
/// is the key a key event of it carries.
pub proof fn lemma_key_words_name_their_keys(k: ChordKey)
    ensures
        grammar_name(k) matches Some(w) ==> parse_key_spec(w) == Some(k),
        grammar_name(k) matches Some(w) ==> parse_lowercased_spec(w, w) == Ok::<Chord, Seq<char>>(
            Chord { ctrl: false, alt: false, shift: false, cmd: false, key: k },
        ),
        k matches ChordKey::Named(n) ==> (grammar_name(k) is Some ==> Ok::<Chord, Seq<char>>(
            from_key_spec(
                Key::Named(n),
                Modifiers { ctrl: false, alt: false, shift: false, super_: false },
            )->0,
        ) == parse_lowercased_spec(grammar_name(k)->0, grammar_name(k)->0)),
        forall|k2: ChordKey|
            grammar_name(k) is Some && #[trigger] grammar_name(k2) == grammar_name(k) ==> k2 == k,
{
    assert forall|k2: ChordKey|
        grammar_name(k) is Some && #[trigger] grammar_name(k2) == grammar_name(k) implies k2 == k by {
        lemma_key_words_parse(k);
        lemma_key_words_parse(k2);
    }
    lemma_key_words_parse(k);
    if let Some(w) = grammar_name(k) {
        lemma_words_have_no_plus(k);
        text::lemma_split_without_separator(w, '+');
        let parts = text::split(w, '+');
        assert(parts.drop_last() =~= Seq::<Seq<char>>::empty());
        assert(parts.last() == w);
    }
}

/// `f<n>` is the F key of that number, from 1 to 24; any other number
/// after `f` names no key.
pub proof fn lemma_f_keys(n: u8)
    ensures
        parse_key_spec(seq!['f'] + text::decimal(n as nat)) == (if 1 <= n && n <= 24 {
            Some(ChordKey::Named(NamedKey::F(n)))
        } else {
            None
        }),
{
    let w = seq!['f'] + text::decimal(n as nat);
    text::lemma_decimal_digits(n as nat);
    text::lemma_parse_u32_decimal(n as u32);
    assert(w[0] == 'f');
    reveal_strlit("equals");
    assert(w[0] != "equals"@[0]);
    reveal_strlit("minus");
    assert(w[0] != "minus"@[0]);
    reveal_strlit("comma");
    assert(w[0] != "comma"@[0]);
    reveal_strlit("period");
    assert(w[0] != "period"@[0]);
    reveal_strlit("slash");
    assert(w[0] != "slash"@[0]);
    reveal_strlit("backslash");
    assert(w[0] != "backslash"@[0]);
    reveal_strlit("semicolon");
    assert(w[0] != "semicolon"@[0]);
    reveal_strlit("quote");
    assert(w[0] != "quote"@[0]);
    reveal_strlit("bracketleft");
    assert(w[0] != "bracketleft"@[0]);
    reveal_strlit("bracketright");
    assert(w[0] != "bracketright"@[0]);
    reveal_strlit("backtick");
    assert(w[0] != "backtick"@[0]);
    reveal_strlit("space");
    assert(w[0] != "space"@[0]);
    reveal_strlit("tab");
    assert(w[0] != "tab"@[0]);
    reveal_strlit("enter");
    assert(w[0] != "enter"@[0]);
    reveal_strlit("escape");
    assert(w[0] != "escape"@[0]);
    reveal_strlit("backspace");
    assert(w[0] != "backspace"@[0]);
    reveal_strlit("delete");
    assert(w[0] != "delete"@[0]);
    reveal_strlit("insert");
    assert(w[0] != "insert"@[0]);
    reveal_strlit("home");
    assert(w[0] != "home"@[0]);
    reveal_strlit("end");
    assert(w[0] != "end"@[0]);
    reveal_strlit("pageup");
    assert(w[0] != "pageup"@[0]);
    reveal_strlit("pagedown");
    assert(w[0] != "pagedown"@[0]);
    reveal_strlit("up");
    assert(w[0] != "up"@[0]);
    reveal_strlit("down");
    assert(w[0] != "down"@[0]);
    reveal_strlit("left");
    assert(w[0] != "left"@[0]);
    reveal_strlit("right");
    assert(w[0] != "right"@[0]);
    assert(named_key_spec(w) is None);
    assert(w.subrange(0, 1) =~= seq!['f']);
    assert(w.subrange(1, w.len() as int) =~= text::decimal(n as nat));
}

proof fn lemma_words_have_no_plus(k: ChordKey)
    ensures
        grammar_name(k) matches Some(w) ==> forall|i: int| 0 <= i < w.len() ==> w[i] != '+',
{
    if let Some(w) = grammar_name(k) {
        lemma_key_words_parse(k);
        assert forall|i: int| 0 <= i < w.len() implies w[i] != '+' by {
            lemma_word_char(k, i);
        }
    }
}

proof fn lemma_word_char(k: ChordKey, i: int)
    requires
        grammar_name(k) is Some,
        0 <= i < grammar_name(k)->0.len(),
    ensures
        grammar_name(k)->0[i] != '+',
{
    match k {
        ChordKey::Char('=') => {
            reveal_strlit("equals");
            if i == 0 { assert("equals"@[0] != '+'); }
            if i == 1 { assert("equals"@[1] != '+'); }
            if i == 2 { assert("equals"@[2] != '+'); }
            if i == 3 { assert("equals"@[3] != '+'); }
            if i == 4 { assert("equals"@[4] != '+'); }
            if i == 5 { assert("equals"@[5] != '+'); }
        },
        ChordKey::Char('-') => {
            reveal_strlit("minus");
            if i == 0 { assert("minus"@[0] != '+'); }
            if i == 1 { assert("minus"@[1] != '+'); }
            if i == 2 { assert("minus"@[2] != '+'); }
            if i == 3 { assert("minus"@[3] != '+'); }
            if i == 4 { assert("minus"@[4] != '+'); }
        },
        ChordKey::Char(',') => {
            reveal_strlit("comma");
            if i == 0 { assert("comma"@[0] != '+'); }
            if i == 1 { assert("comma"@[1] != '+'); }
            if i == 2 { assert("comma"@[2] != '+'); }
            if i == 3 { assert("comma"@[3] != '+'); }
            if i == 4 { assert("comma"@[4] != '+'); }
        },
        ChordKey::Char('.') => {
            reveal_strlit("period");
            if i == 0 { assert("period"@[0] != '+'); }
            if i == 1 { assert("period"@[1] != '+'); }
            if i == 2 { assert("period"@[2] != '+'); }
            if i == 3 { assert("period"@[3] != '+'); }
            if i == 4 { assert("period"@[4] != '+'); }
            if i == 5 { assert("period"@[5] != '+'); }
        },
        ChordKey::Char('/') => {
            reveal_strlit("slash");
            if i == 0 { assert("slash"@[0] != '+'); }
            if i == 1 { assert("slash"@[1] != '+'); }
            if i == 2 { assert("slash"@[2] != '+'); }
            if i == 3 { assert("slash"@[3] != '+'); }
            if i == 4 { assert("slash"@[4] != '+'); }
        },
        ChordKey::Char('\\') => {
            reveal_strlit("backslash");
            if i == 0 { assert("backslash"@[0] != '+'); }
            if i == 1 { assert("backslash"@[1] != '+'); }
            if i == 2 { assert("backslash"@[2] != '+'); }
            if i == 3 { assert("backslash"@[3] != '+'); }
            if i == 4 { assert("backslash"@[4] != '+'); }
            if i == 5 { assert("backslash"@[5] != '+'); }
            if i == 6 { assert("backslash"@[6] != '+'); }
            if i == 7 { assert("backslash"@[7] != '+'); }
            if i == 8 { assert("backslash"@[8] != '+'); }
        },
        ChordKey::Char(';') => {
            reveal_strlit("semicolon");
            if i == 0 { assert("semicolon"@[0] != '+'); }
            if i == 1 { assert("semicolon"@[1] != '+'); }
            if i == 2 { assert("semicolon"@[2] != '+'); }
            if i == 3 { assert("semicolon"@[3] != '+'); }
            if i == 4 { assert("semicolon"@[4] != '+'); }
            if i == 5 { assert("semicolon"@[5] != '+'); }
            if i == 6 { assert("semicolon"@[6] != '+'); }
            if i == 7 { assert("semicolon"@[7] != '+'); }
            if i == 8 { assert("semicolon"@[8] != '+'); }
        },
        ChordKey::Char('\'') => {
            reveal_strlit("quote");
            if i == 0 { assert("quote"@[0] != '+'); }
            if i == 1 { assert("quote"@[1] != '+'); }
            if i == 2 { assert("quote"@[2] != '+'); }
            if i == 3 { assert("quote"@[3] != '+'); }
            if i == 4 { assert("quote"@[4] != '+'); }
        },
        ChordKey::Char('[') => {
            reveal_strlit("bracketleft");
            if i == 0 { assert("bracketleft"@[0] != '+'); }
            if i == 1 { assert("bracketleft"@[1] != '+'); }
            if i == 2 { assert("bracketleft"@[2] != '+'); }
            if i == 3 { assert("bracketleft"@[3] != '+'); }
            if i == 4 { assert("bracketleft"@[4] != '+'); }
            if i == 5 { assert("bracketleft"@[5] != '+'); }
            if i == 6 { assert("bracketleft"@[6] != '+'); }
            if i == 7 { assert("bracketleft"@[7] != '+'); }
            if i == 8 { assert("bracketleft"@[8] != '+'); }
            if i == 9 { assert("bracketleft"@[9] != '+'); }
            if i == 10 { assert("bracketleft"@[10] != '+'); }
        },
        ChordKey::Char(']') => {
            reveal_strlit("bracketright");
            if i == 0 { assert("bracketright"@[0] != '+'); }
            if i == 1 { assert("bracketright"@[1] != '+'); }
            if i == 2 { assert("bracketright"@[2] != '+'); }
            if i == 3 { assert("bracketright"@[3] != '+'); }
            if i == 4 { assert("bracketright"@[4] != '+'); }
            if i == 5 { assert("bracketright"@[5] != '+'); }
            if i == 6 { assert("bracketright"@[6] != '+'); }
            if i == 7 { assert("bracketright"@[7] != '+'); }
            if i == 8 { assert("bracketright"@[8] != '+'); }
            if i == 9 { assert("bracketright"@[9] != '+'); }
            if i == 10 { assert("bracketright"@[10] != '+'); }
            if i == 11 { assert("bracketright"@[11] != '+'); }
        },
        ChordKey::Char('`') => {
            reveal_strlit("backtick");
            if i == 0 { assert("backtick"@[0] != '+'); }
            if i == 1 { assert("backtick"@[1] != '+'); }
            if i == 2 { assert("backtick"@[2] != '+'); }
            if i == 3 { assert("backtick"@[3] != '+'); }
            if i == 4 { assert("backtick"@[4] != '+'); }
            if i == 5 { assert("backtick"@[5] != '+'); }
            if i == 6 { assert("backtick"@[6] != '+'); }
            if i == 7 { assert("backtick"@[7] != '+'); }
        },
        ChordKey::Named(NamedKey::Space) => {
            reveal_strlit("space");
            if i == 0 { assert("space"@[0] != '+'); }
            if i == 1 { assert("space"@[1] != '+'); }
            if i == 2 { assert("space"@[2] != '+'); }
            if i == 3 { assert("space"@[3] != '+'); }
            if i == 4 { assert("space"@[4] != '+'); }
        },
        ChordKey::Named(NamedKey::Tab) => {
            reveal_strlit("tab");
            if i == 0 { assert("tab"@[0] != '+'); }
            if i == 1 { assert("tab"@[1] != '+'); }
            if i == 2 { assert("tab"@[2] != '+'); }
        },
        ChordKey::Named(NamedKey::Enter) => {
            reveal_strlit("enter");
            if i == 0 { assert("enter"@[0] != '+'); }
            if i == 1 { assert("enter"@[1] != '+'); }
            if i == 2 { assert("enter"@[2] != '+'); }
            if i == 3 { assert("enter"@[3] != '+'); }
            if i == 4 { assert("enter"@[4] != '+'); }
        },
        ChordKey::Named(NamedKey::Escape) => {
            reveal_strlit("escape");
            if i == 0 { assert("escape"@[0] != '+'); }
            if i == 1 { assert("escape"@[1] != '+'); }
            if i == 2 { assert("escape"@[2] != '+'); }
            if i == 3 { assert("escape"@[3] != '+'); }
            if i == 4 { assert("escape"@[4] != '+'); }
            if i == 5 { assert("escape"@[5] != '+'); }
        },
        ChordKey::Named(NamedKey::Backspace) => {
            reveal_strlit("backspace");
            if i == 0 { assert("backspace"@[0] != '+'); }
            if i == 1 { assert("backspace"@[1] != '+'); }
            if i == 2 { assert("backspace"@[2] != '+'); }
            if i == 3 { assert("backspace"@[3] != '+'); }
            if i == 4 { assert("backspace"@[4] != '+'); }
            if i == 5 { assert("backspace"@[5] != '+'); }
            if i == 6 { assert("backspace"@[6] != '+'); }
            if i == 7 { assert("backspace"@[7] != '+'); }
            if i == 8 { assert("backspace"@[8] != '+'); }
        },
        ChordKey::Named(NamedKey::Delete) => {
            reveal_strlit("delete");
            if i == 0 { assert("delete"@[0] != '+'); }
            if i == 1 { assert("delete"@[1] != '+'); }
            if i == 2 { assert("delete"@[2] != '+'); }
            if i == 3 { assert("delete"@[3] != '+'); }
            if i == 4 { assert("delete"@[4] != '+'); }
            if i == 5 { assert("delete"@[5] != '+'); }
        },
        ChordKey::Named(NamedKey::Insert) => {
            reveal_strlit("insert");
            if i == 0 { assert("insert"@[0] != '+'); }
            if i == 1 { assert("insert"@[1] != '+'); }
            if i == 2 { assert("insert"@[2] != '+'); }
            if i == 3 { assert("insert"@[3] != '+'); }
            if i == 4 { assert("insert"@[4] != '+'); }
            if i == 5 { assert("insert"@[5] != '+'); }
        },
        ChordKey::Named(NamedKey::Home) => {
            reveal_strlit("home");
            if i == 0 { assert("home"@[0] != '+'); }
            if i == 1 { assert("home"@[1] != '+'); }
            if i == 2 { assert("home"@[2] != '+'); }
            if i == 3 { assert("home"@[3] != '+'); }
        },
        ChordKey::Named(NamedKey::End) => {
            reveal_strlit("end");
            if i == 0 { assert("end"@[0] != '+'); }
            if i == 1 { assert("end"@[1] != '+'); }
            if i == 2 { assert("end"@[2] != '+'); }
        },
        ChordKey::Named(NamedKey::PageUp) => {
            reveal_strlit("pageup");
            if i == 0 { assert("pageup"@[0] != '+'); }
            if i == 1 { assert("pageup"@[1] != '+'); }
            if i == 2 { assert("pageup"@[2] != '+'); }
            if i == 3 { assert("pageup"@[3] != '+'); }
            if i == 4 { assert("pageup"@[4] != '+'); }
            if i == 5 { assert("pageup"@[5] != '+'); }
        },
        ChordKey::Named(NamedKey::PageDown) => {
            reveal_strlit("pagedown");
            if i == 0 { assert("pagedown"@[0] != '+'); }
            if i == 1 { assert("pagedown"@[1] != '+'); }
            if i == 2 { assert("pagedown"@[2] != '+'); }
            if i == 3 { assert("pagedown"@[3] != '+'); }
            if i == 4 { assert("pagedown"@[4] != '+'); }
            if i == 5 { assert("pagedown"@[5] != '+'); }
            if i == 6 { assert("pagedown"@[6] != '+'); }
            if i == 7 { assert("pagedown"@[7] != '+'); }
        },
        ChordKey::Named(NamedKey::ArrowUp) => {
            reveal_strlit("up");
            if i == 0 { assert("up"@[0] != '+'); }
            if i == 1 { assert("up"@[1] != '+'); }
        },
        ChordKey::Named(NamedKey::ArrowDown) => {
            reveal_strlit("down");
            if i == 0 { assert("down"@[0] != '+'); }
            if i == 1 { assert("down"@[1] != '+'); }
            if i == 2 { assert("down"@[2] != '+'); }
            if i == 3 { assert("down"@[3] != '+'); }
        },
        ChordKey::Named(NamedKey::ArrowLeft) => {
            reveal_strlit("left");
            if i == 0 { assert("left"@[0] != '+'); }
            if i == 1 { assert("left"@[1] != '+'); }
            if i == 2 { assert("left"@[2] != '+'); }
            if i == 3 { assert("left"@[3] != '+'); }
        },
        ChordKey::Named(NamedKey::ArrowRight) => {
            reveal_strlit("right");
            if i == 0 { assert("right"@[0] != '+'); }
            if i == 1 { assert("right"@[1] != '+'); }
            if i == 2 { assert("right"@[2] != '+'); }
            if i == 3 { assert("right"@[3] != '+'); }
            if i == 4 { assert("right"@[4] != '+'); }
        },
        _ => {},
    }
}

proof fn lemma_key_words_parse(k: ChordKey)
    ensures
        grammar_name(k) matches Some(w) ==> parse_key_spec(w) == Some(k),
{
    match k {
        ChordKey::Char('=') => {
            reveal_strlit("equals");
        },
        ChordKey::Char('-') => {
            reveal_strlit("minus");
            reveal_strlit("equals");
            assert("minus"@.len() != "equals"@.len());
            assert("minus"@ != "equals"@);
        },
        ChordKey::Char(',') => {
            reveal_strlit("comma");
            reveal_strlit("equals");
            assert("comma"@.len() != "equals"@.len());
            assert("comma"@ != "equals"@);
            reveal_strlit("minus");
            assert("comma"@[0] != "minus"@[0]);
            assert("comma"@ != "minus"@);
        },
        ChordKey::Char('.') => {
            reveal_strlit("period");
            reveal_strlit("equals");
            assert("period"@[0] != "equals"@[0]);
            assert("period"@ != "equals"@);
            reveal_strlit("minus");
            assert("period"@.len() != "minus"@.len());
            assert("period"@ != "minus"@);
            reveal_strlit("comma");
            assert("period"@.len() != "comma"@.len());
            assert("period"@ != "comma"@);
        },
        ChordKey::Char('/') => {
            reveal_strlit("slash");
            reveal_strlit("equals");
            assert("slash"@.len() != "equals"@.len());
            assert("slash"@ != "equals"@);
            reveal_strlit("minus");
            assert("slash"@[0] != "minus"@[0]);
            assert("slash"@ != "minus"@);
            reveal_strlit("comma");
            assert("slash"@[0] != "comma"@[0]);
            assert("slash"@ != "comma"@);
            reveal_strlit("period");
            assert("slash"@.len() != "period"@.len());
            assert("slash"@ != "period"@);
        },
        ChordKey::Char('\\') => {
            reveal_strlit("backslash");
            reveal_strlit("equals");
            assert("backslash"@.len() != "equals"@.len());
            assert("backslash"@ != "equals"@);
            reveal_strlit("minus");
            assert("backslash"@.len() != "minus"@.len());
            assert("backslash"@ != "minus"@);
            reveal_strlit("comma");
            assert("backslash"@.len() != "comma"@.len());
            assert("backslash"@ != "comma"@);
            reveal_strlit("period");
            assert("backslash"@.len() != "period"@.len());
            assert("backslash"@ != "period"@);
            reveal_strlit("slash");
            assert("backslash"@.len() != "slash"@.len());
            assert("backslash"@ != "slash"@);
        },
        ChordKey::Char(';') => {
            reveal_strlit("semicolon");
            reveal_strlit("equals");
            assert("semicolon"@.len() != "equals"@.len());
            assert("semicolon"@ != "equals"@);
            reveal_strlit("minus");
            assert("semicolon"@.len() != "minus"@.len());
            assert("semicolon"@ != "minus"@);
            reveal_strlit("comma");
            assert("semicolon"@.len() != "comma"@.len());
            assert("semicolon"@ != "comma"@);
            reveal_strlit("period");
            assert("semicolon"@.len() != "period"@.len());
            assert("semicolon"@ != "period"@);
            reveal_strlit("slash");
            assert("semicolon"@.len() != "slash"@.len());
            assert("semicolon"@ != "slash"@);
            reveal_strlit("backslash");
            assert("semicolon"@[0] != "backslash"@[0]);
            assert("semicolon"@ != "backslash"@);
        },
        ChordKey::Char('\'') => {
            reveal_strlit("quote");
            reveal_strlit("equals");
            assert("quote"@.len() != "equals"@.len());
            assert("quote"@ != "equals"@);
            reveal_strlit("minus");
            assert("quote"@[0] != "minus"@[0]);
            assert("quote"@ != "minus"@);
            reveal_strlit("comma");
            assert("quote"@[0] != "comma"@[0]);
            assert("quote"@ != "comma"@);
            reveal_strlit("period");
            assert("quote"@.len() != "period"@.len());
            assert("quote"@ != "period"@);
            reveal_strlit("slash");
            assert("quote"@[0] != "slash"@[0]);
            assert("quote"@ != "slash"@);
            reveal_strlit("backslash");
            assert("quote"@.len() != "backslash"@.len());
            assert("quote"@ != "backslash"@);
            reveal_strlit("semicolon");
            assert("quote"@.len() != "semicolon"@.len());
            assert("quote"@ != "semicolon"@);
        },
        ChordKey::Char('[') => {
            reveal_strlit("bracketleft");
            reveal_strlit("equals");
            assert("bracketleft"@.len() != "equals"@.len());
            assert("bracketleft"@ != "equals"@);
            reveal_strlit("minus");
            assert("bracketleft"@.len() != "minus"@.len());
            assert("bracketleft"@ != "minus"@);
            reveal_strlit("comma");
            assert("bracketleft"@.len() != "comma"@.len());
            assert("bracketleft"@ != "comma"@);
            reveal_strlit("period");
            assert("bracketleft"@.len() != "period"@.len());
            assert("bracketleft"@ != "period"@);
            reveal_strlit("slash");
            assert("bracketleft"@.len() != "slash"@.len());
            assert("bracketleft"@ != "slash"@);
            reveal_strlit("backslash");
            assert("bracketleft"@.len() != "backslash"@.len());
            assert("bracketleft"@ != "backslash"@);
            reveal_strlit("semicolon");
            assert("bracketleft"@.len() != "semicolon"@.len());
            assert("bracketleft"@ != "semicolon"@);
            reveal_strlit("quote");
            assert("bracketleft"@.len() != "quote"@.len());
            assert("bracketleft"@ != "quote"@);
        },
        ChordKey::Char(']') => {
            reveal_strlit("bracketright");
            reveal_strlit("equals");
            assert("bracketright"@.len() != "equals"@.len());
            assert("bracketright"@ != "equals"@);
            reveal_strlit("minus");
            assert("bracketright"@.len() != "minus"@.len());
            assert("bracketright"@ != "minus"@);
            reveal_strlit("comma");
            assert("bracketright"@.len() != "comma"@.len());
            assert("bracketright"@ != "comma"@);
            reveal_strlit("period");
            assert("bracketright"@.len() != "period"@.len());
            assert("bracketright"@ != "period"@);
            reveal_strlit("slash");
            assert("bracketright"@.len() != "slash"@.len());
            assert("bracketright"@ != "slash"@);
            reveal_strlit("backslash");
            assert("bracketright"@.len() != "backslash"@.len());
            assert("bracketright"@ != "backslash"@);
            reveal_strlit("semicolon");
            assert("bracketright"@.len() != "semicolon"@.len());
            assert("bracketright"@ != "semicolon"@);
            reveal_strlit("quote");
            assert("bracketright"@.len() != "quote"@.len());
            assert("bracketright"@ != "quote"@);
            reveal_strlit("bracketleft");
            assert("bracketright"@.len() != "bracketleft"@.len());
            assert("bracketright"@ != "bracketleft"@);
        },
        ChordKey::Char('`') => {
            reveal_strlit("backtick");
            reveal_strlit("equals");
            assert("backtick"@.len() != "equals"@.len());
            assert("backtick"@ != "equals"@);
            reveal_strlit("minus");
            assert("backtick"@.len() != "minus"@.len());
            assert("backtick"@ != "minus"@);
            reveal_strlit("comma");
            assert("backtick"@.len() != "comma"@.len());
            assert("backtick"@ != "comma"@);
            reveal_strlit("period");
            assert("backtick"@.len() != "period"@.len());
            assert("backtick"@ != "period"@);
            reveal_strlit("slash");
            assert("backtick"@.len() != "slash"@.len());
            assert("backtick"@ != "slash"@);
            reveal_strlit("backslash");
            assert("backtick"@.len() != "backslash"@.len());
            assert("backtick"@ != "backslash"@);
            reveal_strlit("semicolon");
            assert("backtick"@.len() != "semicolon"@.len());
            assert("backtick"@ != "semicolon"@);
            reveal_strlit("quote");
            assert("backtick"@.len() != "quote"@.len());
            assert("backtick"@ != "quote"@);
            reveal_strlit("bracketleft");
            assert("backtick"@.len() != "bracketleft"@.len());
            assert("backtick"@ != "bracketleft"@);
            reveal_strlit("bracketright");
            assert("backtick"@.len() != "bracketright"@.len());
            assert("backtick"@ != "bracketright"@);
        },
        ChordKey::Named(NamedKey::Space) => {
            reveal_strlit("space");
            reveal_strlit("equals");
            assert("space"@.len() != "equals"@.len());
            assert("space"@ != "equals"@);
            reveal_strlit("minus");
            assert("space"@[0] != "minus"@[0]);
            assert("space"@ != "minus"@);
            reveal_strlit("comma");
            assert("space"@[0] != "comma"@[0]);
            assert("space"@ != "comma"@);
            reveal_strlit("period");
            assert("space"@.len() != "period"@.len());
            assert("space"@ != "period"@);
            reveal_strlit("slash");
            assert("space"@[1] != "slash"@[1]);
            assert("space"@ != "slash"@);
            reveal_strlit("backslash");
            assert("space"@.len() != "backslash"@.len());
            assert("space"@ != "backslash"@);
            reveal_strlit("semicolon");
            assert("space"@.len() != "semicolon"@.len());
            assert("space"@ != "semicolon"@);
            reveal_strlit("quote");
            assert("space"@[0] != "quote"@[0]);
            assert("space"@ != "quote"@);
            reveal_strlit("bracketleft");
            assert("space"@.len() != "bracketleft"@.len());
            assert("space"@ != "bracketleft"@);
            reveal_strlit("bracketright");
            assert("space"@.len() != "bracketright"@.len());
            assert("space"@ != "bracketright"@);
            reveal_strlit("backtick");
            assert("space"@.len() != "backtick"@.len());
            assert("space"@ != "backtick"@);
        },
        ChordKey::Named(NamedKey::Tab) => {
            reveal_strlit("tab");
            reveal_strlit("equals");
            assert("tab"@.len() != "equals"@.len());
            assert("tab"@ != "equals"@);
            reveal_strlit("minus");
            assert("tab"@.len() != "minus"@.len());
            assert("tab"@ != "minus"@);
            reveal_strlit("comma");
            assert("tab"@.len() != "comma"@.len());
            assert("tab"@ != "comma"@);
            reveal_strlit("period");
            assert("tab"@.len() != "period"@.len());
            assert("tab"@ != "period"@);
            reveal_strlit("slash");
            assert("tab"@.len() != "slash"@.len());
            assert("tab"@ != "slash"@);
            reveal_strlit("backslash");
            assert("tab"@.len() != "backslash"@.len());
            assert("tab"@ != "backslash"@);
            reveal_strlit("semicolon");
            assert("tab"@.len() != "semicolon"@.len());
            assert("tab"@ != "semicolon"@);
            reveal_strlit("quote");
            assert("tab"@.len() != "quote"@.len());
            assert("tab"@ != "quote"@);
            reveal_strlit("bracketleft");
            assert("tab"@.len() != "bracketleft"@.len());
            assert("tab"@ != "bracketleft"@);
            reveal_strlit("bracketright");
            assert("tab"@.len() != "bracketright"@.len());
            assert("tab"@ != "bracketright"@);
            reveal_strlit("backtick");
            assert("tab"@.len() != "backtick"@.len());
            assert("tab"@ != "backtick"@);
            reveal_strlit("space");
            assert("tab"@.len() != "space"@.len());
            assert("tab"@ != "space"@);
        },
        ChordKey::Named(NamedKey::Enter) => {
            reveal_strlit("enter");
            reveal_strlit("equals");
            assert("enter"@.len() != "equals"@.len());
            assert("enter"@ != "equals"@);
            reveal_strlit("minus");
            assert("enter"@[0] != "minus"@[0]);
            assert("enter"@ != "minus"@);
            reveal_strlit("comma");
            assert("enter"@[0] != "comma"@[0]);
            assert("enter"@ != "comma"@);
            reveal_strlit("period");
            assert("enter"@.len() != "period"@.len());
            assert("enter"@ != "period"@);
            reveal_strlit("slash");
            assert("enter"@[0] != "slash"@[0]);
            assert("enter"@ != "slash"@);
            reveal_strlit("backslash");
            assert("enter"@.len() != "backslash"@.len());
            assert("enter"@ != "backslash"@);
            reveal_strlit("semicolon");
            assert("enter"@.len() != "semicolon"@.len());
            assert("enter"@ != "semicolon"@);
            reveal_strlit("quote");
            assert("enter"@[0] != "quote"@[0]);
            assert("enter"@ != "quote"@);
            reveal_strlit("bracketleft");
            assert("enter"@.len() != "bracketleft"@.len());
            assert("enter"@ != "bracketleft"@);
            reveal_strlit("bracketright");
            assert("enter"@.len() != "bracketright"@.len());
            assert("enter"@ != "bracketright"@);
            reveal_strlit("backtick");
            assert("enter"@.len() != "backtick"@.len());
            assert("enter"@ != "backtick"@);
            reveal_strlit("space");
            assert("enter"@[0] != "space"@[0]);
            assert("enter"@ != "space"@);
            reveal_strlit("tab");
            assert("enter"@.len() != "tab"@.len());
            assert("enter"@ != "tab"@);
        },
        ChordKey::Named(NamedKey::Escape) => {
            reveal_strlit("escape");
            reveal_strlit("equals");
            assert("escape"@[1] != "equals"@[1]);
            assert("escape"@ != "equals"@);
            reveal_strlit("minus");
            assert("escape"@.len() != "minus"@.len());
            assert("escape"@ != "minus"@);
            reveal_strlit("comma");
            assert("escape"@.len() != "comma"@.len());
            assert("escape"@ != "comma"@);
            reveal_strlit("period");
            assert("escape"@[0] != "period"@[0]);
            assert("escape"@ != "period"@);
            reveal_strlit("slash");
            assert("escape"@.len() != "slash"@.len());
            assert("escape"@ != "slash"@);
            reveal_strlit("backslash");
            assert("escape"@.len() != "backslash"@.len());
            assert("escape"@ != "backslash"@);
            reveal_strlit("semicolon");
            assert("escape"@.len() != "semicolon"@.len());
            assert("escape"@ != "semicolon"@);
            reveal_strlit("quote");
            assert("escape"@.len() != "quote"@.len());
            assert("escape"@ != "quote"@);
            reveal_strlit("bracketleft");
            assert("escape"@.len() != "bracketleft"@.len());
            assert("escape"@ != "bracketleft"@);
            reveal_strlit("bracketright");
            assert("escape"@.len() != "bracketright"@.len());
            assert("escape"@ != "bracketright"@);
            reveal_strlit("backtick");
            assert("escape"@.len() != "backtick"@.len());
            assert("escape"@ != "backtick"@);
            reveal_strlit("space");
            assert("escape"@.len() != "space"@.len());
            assert("escape"@ != "space"@);
            reveal_strlit("tab");
            assert("escape"@.len() != "tab"@.len());
            assert("escape"@ != "tab"@);
            reveal_strlit("enter");
            assert("escape"@.len() != "enter"@.len());
            assert("escape"@ != "enter"@);
        },
        ChordKey::Named(NamedKey::Backspace) => {
            reveal_strlit("backspace");
            reveal_strlit("equals");
            assert("backspace"@.len() != "equals"@.len());
            assert("backspace"@ != "equals"@);
            reveal_strlit("minus");
            assert("backspace"@.len() != "minus"@.len());
            assert("backspace"@ != "minus"@);
            reveal_strlit("comma");
            assert("backspace"@.len() != "comma"@.len());
            assert("backspace"@ != "comma"@);
            reveal_strlit("period");
            assert("backspace"@.len() != "period"@.len());
            assert("backspace"@ != "period"@);
            reveal_strlit("slash");
            assert("backspace"@.len() != "slash"@.len());
            assert("backspace"@ != "slash"@);
            reveal_strlit("backslash");
            assert("backspace"@[5] != "backslash"@[5]);
            assert("backspace"@ != "backslash"@);
            reveal_strlit("semicolon");
            assert("backspace"@[0] != "semicolon"@[0]);
            assert("backspace"@ != "semicolon"@);
            reveal_strlit("quote");
            assert("backspace"@.len() != "quote"@.len());
            assert("backspace"@ != "quote"@);
            reveal_strlit("bracketleft");
            assert("backspace"@.len() != "bracketleft"@.len());
            assert("backspace"@ != "bracketleft"@);
            reveal_strlit("bracketright");
            assert("backspace"@.len() != "bracketright"@.len());
            assert("backspace"@ != "bracketright"@);
            reveal_strlit("backtick");
            assert("backspace"@.len() != "backtick"@.len());
            assert("backspace"@ != "backtick"@);
            reveal_strlit("space");
            assert("backspace"@.len() != "space"@.len());
            assert("backspace"@ != "space"@);
            reveal_strlit("tab");
            assert("backspace"@.len() != "tab"@.len());
            assert("backspace"@ != "tab"@);
            reveal_strlit("enter");
            assert("backspace"@.len() != "enter"@.len());
            assert("backspace"@ != "enter"@);
            reveal_strlit("escape");
            assert("backspace"@.len() != "escape"@.len());
            assert("backspace"@ != "escape"@);
        },
        ChordKey::Named(NamedKey::Delete) => {
            reveal_strlit("delete");
            reveal_strlit("equals");
            assert("delete"@[0] != "equals"@[0]);
            assert("delete"@ != "equals"@);
            reveal_strlit("minus");
            assert("delete"@.len() != "minus"@.len());
            assert("delete"@ != "minus"@);
            reveal_strlit("comma");
            assert("delete"@.len() != "comma"@.len());
            assert("delete"@ != "comma"@);
            reveal_strlit("period");
            assert("delete"@[0] != "period"@[0]);
            assert("delete"@ != "period"@);
            reveal_strlit("slash");
            assert("delete"@.len() != "slash"@.len());
            assert("delete"@ != "slash"@);
            reveal_strlit("backslash");
            assert("delete"@.len() != "backslash"@.len());
            assert("delete"@ != "backslash"@);
            reveal_strlit("semicolon");
            assert("delete"@.len() != "semicolon"@.len());
            assert("delete"@ != "semicolon"@);
            reveal_strlit("quote");
            assert("delete"@.len() != "quote"@.len());
            assert("delete"@ != "quote"@);
            reveal_strlit("bracketleft");
            assert("delete"@.len() != "bracketleft"@.len());
            assert("delete"@ != "bracketleft"@);
            reveal_strlit("bracketright");
            assert("delete"@.len() != "bracketright"@.len());
            assert("delete"@ != "bracketright"@);
            reveal_strlit("backtick");
            assert("delete"@.len() != "backtick"@.len());
            assert("delete"@ != "backtick"@);
            reveal_strlit("space");
            assert("delete"@.len() != "space"@.len());
            assert("delete"@ != "space"@);
            reveal_strlit("tab");
            assert("delete"@.len() != "tab"@.len());
            assert("delete"@ != "tab"@);
            reveal_strlit("enter");
            assert("delete"@.len() != "enter"@.len());
            assert("delete"@ != "enter"@);
            reveal_strlit("escape");
            assert("delete"@[0] != "escape"@[0]);
            assert("delete"@ != "escape"@);
            reveal_strlit("backspace");
            assert("delete"@.len() != "backspace"@.len());
            assert("delete"@ != "backspace"@);
        },
        ChordKey::Named(NamedKey::Insert) => {
            reveal_strlit("insert");
            reveal_strlit("equals");
            assert("insert"@[0] != "equals"@[0]);
            assert("insert"@ != "equals"@);
            reveal_strlit("minus");
            assert("insert"@.len() != "minus"@.len());
            assert("insert"@ != "minus"@);
            reveal_strlit("comma");
            assert("insert"@.len() != "comma"@.len());
            assert("insert"@ != "comma"@);
            reveal_strlit("period");
            assert("insert"@[0] != "period"@[0]);
            assert("insert"@ != "period"@);
            reveal_strlit("slash");
            assert("insert"@.len() != "slash"@.len());
            assert("insert"@ != "slash"@);
            reveal_strlit("backslash");
            assert("insert"@.len() != "backslash"@.len());
            assert("insert"@ != "backslash"@);
            reveal_strlit("semicolon");
            assert("insert"@.len() != "semicolon"@.len());
            assert("insert"@ != "semicolon"@);
            reveal_strlit("quote");
            assert("insert"@.len() != "quote"@.len());
            assert("insert"@ != "quote"@);
            reveal_strlit("bracketleft");
            assert("insert"@.len() != "bracketleft"@.len());
            assert("insert"@ != "bracketleft"@);
            reveal_strlit("bracketright");
            assert("insert"@.len() != "bracketright"@.len());
            assert("insert"@ != "bracketright"@);
            reveal_strlit("backtick");
            assert("insert"@.len() != "backtick"@.len());
            assert("insert"@ != "backtick"@);
            reveal_strlit("space");
            assert("insert"@.len() != "space"@.len());
            assert("insert"@ != "space"@);
            reveal_strlit("tab");
            assert("insert"@.len() != "tab"@.len());
            assert("insert"@ != "tab"@);
            reveal_strlit("enter");
            assert("insert"@.len() != "enter"@.len());
            assert("insert"@ != "enter"@);
            reveal_strlit("escape");
            assert("insert"@[0] != "escape"@[0]);
            assert("insert"@ != "escape"@);
            reveal_strlit("backspace");
            assert("insert"@.len() != "backspace"@.len());
            assert("insert"@ != "backspace"@);
            reveal_strlit("delete");
            assert("insert"@[0] != "delete"@[0]);
            assert("insert"@ != "delete"@);
        },
        ChordKey::Named(NamedKey::Home) => {
            reveal_strlit("home");
            reveal_strlit("equals");
            assert("home"@.len() != "equals"@.len());
            assert("home"@ != "equals"@);
            reveal_strlit("minus");
            assert("home"@.len() != "minus"@.len());
            assert("home"@ != "minus"@);
            reveal_strlit("comma");
            assert("home"@.len() != "comma"@.len());
            assert("home"@ != "comma"@);
            reveal_strlit("period");
            assert("home"@.len() != "period"@.len());
            assert("home"@ != "period"@);
            reveal_strlit("slash");
            assert("home"@.len() != "slash"@.len());
            assert("home"@ != "slash"@);
            reveal_strlit("backslash");
            assert("home"@.len() != "backslash"@.len());
            assert("home"@ != "backslash"@);
            reveal_strlit("semicolon");
            assert("home"@.len() != "semicolon"@.len());
            assert("home"@ != "semicolon"@);
            reveal_strlit("quote");
            assert("home"@.len() != "quote"@.len());
            assert("home"@ != "quote"@);
            reveal_strlit("bracketleft");
            assert("home"@.len() != "bracketleft"@.len());
            assert("home"@ != "bracketleft"@);
            reveal_strlit("bracketright");
            assert("home"@.len() != "bracketright"@.len());
            assert("home"@ != "bracketright"@);
            reveal_strlit("backtick");
            assert("home"@.len() != "backtick"@.len());
            assert("home"@ != "backtick"@);
            reveal_strlit("space");
            assert("home"@.len() != "space"@.len());
            assert("home"@ != "space"@);
            reveal_strlit("tab");
            assert("home"@.len() != "tab"@.len());
            assert("home"@ != "tab"@);
            reveal_strlit("enter");
            assert("home"@.len() != "enter"@.len());
            assert("home"@ != "enter"@);
            reveal_strlit("escape");
            assert("home"@.len() != "escape"@.len());
            assert("home"@ != "escape"@);
            reveal_strlit("backspace");
            assert("home"@.len() != "backspace"@.len());
            assert("home"@ != "backspace"@);
            reveal_strlit("delete");
            assert("home"@.len() != "delete"@.len());
            assert("home"@ != "delete"@);
            reveal_strlit("insert");
            assert("home"@.len() != "insert"@.len());
            assert("home"@ != "insert"@);
        },
        ChordKey::Named(NamedKey::End) => {
            reveal_strlit("end");
            reveal_strlit("equals");
            assert("end"@.len() != "equals"@.len());
            assert("end"@ != "equals"@);
            reveal_strlit("minus");
            assert("end"@.len() != "minus"@.len());
            assert("end"@ != "minus"@);
            reveal_strlit("comma");
            assert("end"@.len() != "comma"@.len());
            assert("end"@ != "comma"@);
            reveal_strlit("period");
            assert("end"@.len() != "period"@.len());
            assert("end"@ != "period"@);
            reveal_strlit("slash");
            assert("end"@.len() != "slash"@.len());
            assert("end"@ != "slash"@);
            reveal_strlit("backslash");
            assert("end"@.len() != "backslash"@.len());
            assert("end"@ != "backslash"@);
            reveal_strlit("semicolon");
            assert("end"@.len() != "semicolon"@.len());
            assert("end"@ != "semicolon"@);
            reveal_strlit("quote");
            assert("end"@.len() != "quote"@.len());
            assert("end"@ != "quote"@);
            reveal_strlit("bracketleft");
            assert("end"@.len() != "bracketleft"@.len());
            assert("end"@ != "bracketleft"@);
            reveal_strlit("bracketright");
            assert("end"@.len() != "bracketright"@.len());
            assert("end"@ != "bracketright"@);
            reveal_strlit("backtick");
            assert("end"@.len() != "backtick"@.len());
            assert("end"@ != "backtick"@);
            reveal_strlit("space");
            assert("end"@.len() != "space"@.len());
            assert("end"@ != "space"@);
            reveal_strlit("tab");
            assert("end"@[0] != "tab"@[0]);
            assert("end"@ != "tab"@);
            reveal_strlit("enter");
            assert("end"@.len() != "enter"@.len());
            assert("end"@ != "enter"@);
            reveal_strlit("escape");
            assert("end"@.len() != "escape"@.len());
            assert("end"@ != "escape"@);
            reveal_strlit("backspace");
            assert("end"@.len() != "backspace"@.len());
            assert("end"@ != "backspace"@);
            reveal_strlit("delete");
            assert("end"@.len() != "delete"@.len());
            assert("end"@ != "delete"@);
            reveal_strlit("insert");
            assert("end"@.len() != "insert"@.len());
            assert("end"@ != "insert"@);
            reveal_strlit("home");
            assert("end"@.len() != "home"@.len());
            assert("end"@ != "home"@);
        },
        ChordKey::Named(NamedKey::PageUp) => {
            reveal_strlit("pageup");
            reveal_strlit("equals");
            assert("pageup"@[0] != "equals"@[0]);
            assert("pageup"@ != "equals"@);
            reveal_strlit("minus");
            assert("pageup"@.len() != "minus"@.len());
            assert("pageup"@ != "minus"@);
            reveal_strlit("comma");
            assert("pageup"@.len() != "comma"@.len());
            assert("pageup"@ != "comma"@);
            reveal_strlit("period");
            assert("pageup"@[1] != "period"@[1]);
            assert("pageup"@ != "period"@);
            reveal_strlit("slash");
            assert("pageup"@.len() != "slash"@.len());
            assert("pageup"@ != "slash"@);
            reveal_strlit("backslash");
            assert("pageup"@.len() != "backslash"@.len());
            assert("pageup"@ != "backslash"@);
            reveal_strlit("semicolon");
            assert("pageup"@.len() != "semicolon"@.len());
            assert("pageup"@ != "semicolon"@);
            reveal_strlit("quote");
            assert("pageup"@.len() != "quote"@.len());
            assert("pageup"@ != "quote"@);
            reveal_strlit("bracketleft");
            assert("pageup"@.len() != "bracketleft"@.len());
            assert("pageup"@ != "bracketleft"@);
            reveal_strlit("bracketright");
            assert("pageup"@.len() != "bracketright"@.len());
            assert("pageup"@ != "bracketright"@);
            reveal_strlit("backtick");
            assert("pageup"@.len() != "backtick"@.len());
            assert("pageup"@ != "backtick"@);
            reveal_strlit("space");
            assert("pageup"@.len() != "space"@.len());
            assert("pageup"@ != "space"@);
            reveal_strlit("tab");
            assert("pageup"@.len() != "tab"@.len());
            assert("pageup"@ != "tab"@);
            reveal_strlit("enter");
            assert("pageup"@.len() != "enter"@.len());
            assert("pageup"@ != "enter"@);
            reveal_strlit("escape");
            assert("pageup"@[0] != "escape"@[0]);
            assert("pageup"@ != "escape"@);
            reveal_strlit("backspace");
            assert("pageup"@.len() != "backspace"@.len());
            assert("pageup"@ != "backspace"@);
            reveal_strlit("delete");
            assert("pageup"@[0] != "delete"@[0]);
            assert("pageup"@ != "delete"@);
            reveal_strlit("insert");
            assert("pageup"@[0] != "insert"@[0]);
            assert("pageup"@ != "insert"@);
            reveal_strlit("home");
            assert("pageup"@.len() != "home"@.len());
            assert("pageup"@ != "home"@);
            reveal_strlit("end");
            assert("pageup"@.len() != "end"@.len());
            assert("pageup"@ != "end"@);
        },
        ChordKey::Named(NamedKey::PageDown) => {
            reveal_strlit("pagedown");
            reveal_strlit("equals");
            assert("pagedown"@.len() != "equals"@.len());
            assert("pagedown"@ != "equals"@);
            reveal_strlit("minus");
            assert("pagedown"@.len() != "minus"@.len());
            assert("pagedown"@ != "minus"@);
            reveal_strlit("comma");
            assert("pagedown"@.len() != "comma"@.len());
            assert("pagedown"@ != "comma"@);
            reveal_strlit("period");
            assert("pagedown"@.len() != "period"@.len());
            assert("pagedown"@ != "period"@);
            reveal_strlit("slash");
            assert("pagedown"@.len() != "slash"@.len());
            assert("pagedown"@ != "slash"@);
            reveal_strlit("backslash");
            assert("pagedown"@.len() != "backslash"@.len());
            assert("pagedown"@ != "backslash"@);
            reveal_strlit("semicolon");
            assert("pagedown"@.len() != "semicolon"@.len());
            assert("pagedown"@ != "semicolon"@);
            reveal_strlit("quote");
            assert("pagedown"@.len() != "quote"@.len());
            assert("pagedown"@ != "quote"@);
            reveal_strlit("bracketleft");
            assert("pagedown"@.len() != "bracketleft"@.len());
            assert("pagedown"@ != "bracketleft"@);
            reveal_strlit("bracketright");
            assert("pagedown"@.len() != "bracketright"@.len());
            assert("pagedown"@ != "bracketright"@);
            reveal_strlit("backtick");
            assert("pagedown"@[0] != "backtick"@[0]);
            assert("pagedown"@ != "backtick"@);
            reveal_strlit("space");
            assert("pagedown"@.len() != "space"@.len());
            assert("pagedown"@ != "space"@);
            reveal_strlit("tab");
            assert("pagedown"@.len() != "tab"@.len());
            assert("pagedown"@ != "tab"@);
            reveal_strlit("enter");
            assert("pagedown"@.len() != "enter"@.len());
            assert("pagedown"@ != "enter"@);
            reveal_strlit("escape");
            assert("pagedown"@.len() != "escape"@.len());
            assert("pagedown"@ != "escape"@);
            reveal_strlit("backspace");
            assert("pagedown"@.len() != "backspace"@.len());
            assert("pagedown"@ != "backspace"@);
            reveal_strlit("delete");
            assert("pagedown"@.len() != "delete"@.len());
            assert("pagedown"@ != "delete"@);
            reveal_strlit("insert");
            assert("pagedown"@.len() != "insert"@.len());
            assert("pagedown"@ != "insert"@);
            reveal_strlit("home");
            assert("pagedown"@.len() != "home"@.len());
            assert("pagedown"@ != "home"@);
            reveal_strlit("end");
            assert("pagedown"@.len() != "end"@.len());
            assert("pagedown"@ != "end"@);
            reveal_strlit("pageup");
            assert("pagedown"@.len() != "pageup"@.len());
            assert("pagedown"@ != "pageup"@);
        },
        ChordKey::Named(NamedKey::ArrowUp) => {
            reveal_strlit("up");
            reveal_strlit("equals");
            assert("up"@.len() != "equals"@.len());
            assert("up"@ != "equals"@);
            reveal_strlit("minus");
            assert("up"@.len() != "minus"@.len());
            assert("up"@ != "minus"@);
            reveal_strlit("comma");
            assert("up"@.len() != "comma"@.len());
            assert("up"@ != "comma"@);
            reveal_strlit("period");
            assert("up"@.len() != "period"@.len());
            assert("up"@ != "period"@);
            reveal_strlit("slash");
            assert("up"@.len() != "slash"@.len());
            assert("up"@ != "slash"@);
            reveal_strlit("backslash");
            assert("up"@.len() != "backslash"@.len());
            assert("up"@ != "backslash"@);
            reveal_strlit("semicolon");
            assert("up"@.len() != "semicolon"@.len());
            assert("up"@ != "semicolon"@);
            reveal_strlit("quote");
            assert("up"@.len() != "quote"@.len());
            assert("up"@ != "quote"@);
            reveal_strlit("bracketleft");
            assert("up"@.len() != "bracketleft"@.len());
            assert("up"@ != "bracketleft"@);
            reveal_strlit("bracketright");
            assert("up"@.len() != "bracketright"@.len());
            assert("up"@ != "bracketright"@);
            reveal_strlit("backtick");
            assert("up"@.len() != "backtick"@.len());
            assert("up"@ != "backtick"@);
            reveal_strlit("space");
            assert("up"@.len() != "space"@.len());
            assert("up"@ != "space"@);
            reveal_strlit("tab");
            assert("up"@.len() != "tab"@.len());
            assert("up"@ != "tab"@);
            reveal_strlit("enter");
            assert("up"@.len() != "enter"@.len());
            assert("up"@ != "enter"@);
            reveal_strlit("escape");
            assert("up"@.len() != "escape"@.len());
            assert("up"@ != "escape"@);
            reveal_strlit("backspace");
            assert("up"@.len() != "backspace"@.len());
            assert("up"@ != "backspace"@);
            reveal_strlit("delete");
            assert("up"@.len() != "delete"@.len());
            assert("up"@ != "delete"@);
            reveal_strlit("insert");
            assert("up"@.len() != "insert"@.len());
            assert("up"@ != "insert"@);
            reveal_strlit("home");
            assert("up"@.len() != "home"@.len());
            assert("up"@ != "home"@);
            reveal_strlit("end");
            assert("up"@.len() != "end"@.len());
            assert("up"@ != "end"@);
            reveal_strlit("pageup");
            assert("up"@.len() != "pageup"@.len());
            assert("up"@ != "pageup"@);
            reveal_strlit("pagedown");
            assert("up"@.len() != "pagedown"@.len());
            assert("up"@ != "pagedown"@);
        },
        ChordKey::Named(NamedKey::ArrowDown) => {
            reveal_strlit("down");
            reveal_strlit("equals");
            assert("down"@.len() != "equals"@.len());
            assert("down"@ != "equals"@);
            reveal_strlit("minus");
            assert("down"@.len() != "minus"@.len());
            assert("down"@ != "minus"@);
            reveal_strlit("comma");
            assert("down"@.len() != "comma"@.len());
            assert("down"@ != "comma"@);
            reveal_strlit("period");
            assert("down"@.len() != "period"@.len());
            assert("down"@ != "period"@);
            reveal_strlit("slash");
            assert("down"@.len() != "slash"@.len());
            assert("down"@ != "slash"@);
            reveal_strlit("backslash");
            assert("down"@.len() != "backslash"@.len());
            assert("down"@ != "backslash"@);
            reveal_strlit("semicolon");
            assert("down"@.len() != "semicolon"@.len());
            assert("down"@ != "semicolon"@);
            reveal_strlit("quote");
            assert("down"@.len() != "quote"@.len());
            assert("down"@ != "quote"@);
            reveal_strlit("bracketleft");
            assert("down"@.len() != "bracketleft"@.len());
            assert("down"@ != "bracketleft"@);
            reveal_strlit("bracketright");
            assert("down"@.len() != "bracketright"@.len());
            assert("down"@ != "bracketright"@);
            reveal_strlit("backtick");
            assert("down"@.len() != "backtick"@.len());
            assert("down"@ != "backtick"@);
            reveal_strlit("space");
            assert("down"@.len() != "space"@.len());
            assert("down"@ != "space"@);
            reveal_strlit("tab");
            assert("down"@.len() != "tab"@.len());
            assert("down"@ != "tab"@);
            reveal_strlit("enter");
            assert("down"@.len() != "enter"@.len());
            assert("down"@ != "enter"@);
            reveal_strlit("escape");
            assert("down"@.len() != "escape"@.len());
            assert("down"@ != "escape"@);
            reveal_strlit("backspace");
            assert("down"@.len() != "backspace"@.len());
            assert("down"@ != "backspace"@);
            reveal_strlit("delete");
            assert("down"@.len() != "delete"@.len());
            assert("down"@ != "delete"@);
            reveal_strlit("insert");
            assert("down"@.len() != "insert"@.len());
            assert("down"@ != "insert"@);
            reveal_strlit("home");
            assert("down"@[0] != "home"@[0]);
            assert("down"@ != "home"@);
            reveal_strlit("end");
            assert("down"@.len() != "end"@.len());
            assert("down"@ != "end"@);
            reveal_strlit("pageup");
            assert("down"@.len() != "pageup"@.len());
            assert("down"@ != "pageup"@);
            reveal_strlit("pagedown");
            assert("down"@.len() != "pagedown"@.len());
            assert("down"@ != "pagedown"@);
            reveal_strlit("up");
            assert("down"@.len() != "up"@.len());
            assert("down"@ != "up"@);
        },
        ChordKey::Named(NamedKey::ArrowLeft) => {
            reveal_strlit("left");
            reveal_strlit("equals");
            assert("left"@.len() != "equals"@.len());
            assert("left"@ != "equals"@);
            reveal_strlit("minus");
            assert("left"@.len() != "minus"@.len());
            assert("left"@ != "minus"@);
            reveal_strlit("comma");
            assert("left"@.len() != "comma"@.len());
            assert("left"@ != "comma"@);
            reveal_strlit("period");
            assert("left"@.len() != "period"@.len());
            assert("left"@ != "period"@);
            reveal_strlit("slash");
            assert("left"@.len() != "slash"@.len());
            assert("left"@ != "slash"@);
            reveal_strlit("backslash");
            assert("left"@.len() != "backslash"@.len());
            assert("left"@ != "backslash"@);
            reveal_strlit("semicolon");
            assert("left"@.len() != "semicolon"@.len());
            assert("left"@ != "semicolon"@);
            reveal_strlit("quote");
            assert("left"@.len() != "quote"@.len());
            assert("left"@ != "quote"@);
            reveal_strlit("bracketleft");
            assert("left"@.len() != "bracketleft"@.len());
            assert("left"@ != "bracketleft"@);
            reveal_strlit("bracketright");
            assert("left"@.len() != "bracketright"@.len());
            assert("left"@ != "bracketright"@);
            reveal_strlit("backtick");
            assert("left"@.len() != "backtick"@.len());
            assert("left"@ != "backtick"@);
            reveal_strlit("space");
            assert("left"@.len() != "space"@.len());
            assert("left"@ != "space"@);
            reveal_strlit("tab");
            assert("left"@.len() != "tab"@.len());
            assert("left"@ != "tab"@);
            reveal_strlit("enter");
            assert("left"@.len() != "enter"@.len());
            assert("left"@ != "enter"@);
            reveal_strlit("escape");
            assert("left"@.len() != "escape"@.len());
            assert("left"@ != "escape"@);
            reveal_strlit("backspace");
            assert("left"@.len() != "backspace"@.len());
            assert("left"@ != "backspace"@);
            reveal_strlit("delete");
            assert("left"@.len() != "delete"@.len());
            assert("left"@ != "delete"@);
            reveal_strlit("insert");
            assert("left"@.len() != "insert"@.len());
            assert("left"@ != "insert"@);
            reveal_strlit("home");
            assert("left"@[0] != "home"@[0]);
            assert("left"@ != "home"@);
            reveal_strlit("end");
            assert("left"@.len() != "end"@.len());
            assert("left"@ != "end"@);
            reveal_strlit("pageup");
            assert("left"@.len() != "pageup"@.len());
            assert("left"@ != "pageup"@);
            reveal_strlit("pagedown");
            assert("left"@.len() != "pagedown"@.len());
            assert("left"@ != "pagedown"@);
            reveal_strlit("up");
            assert("left"@.len() != "up"@.len());
            assert("left"@ != "up"@);
            reveal_strlit("down");
            assert("left"@[0] != "down"@[0]);
            assert("left"@ != "down"@);
        },
        ChordKey::Named(NamedKey::ArrowRight) => {
            reveal_strlit("right");
            reveal_strlit("equals");
            assert("right"@.len() != "equals"@.len());
            assert("right"@ != "equals"@);
            reveal_strlit("minus");
            assert("right"@[0] != "minus"@[0]);
            assert("right"@ != "minus"@);
            reveal_strlit("comma");
            assert("right"@[0] != "comma"@[0]);
            assert("right"@ != "comma"@);
            reveal_strlit("period");
            assert("right"@.len() != "period"@.len());
            assert("right"@ != "period"@);
            reveal_strlit("slash");
            assert("right"@[0] != "slash"@[0]);
            assert("right"@ != "slash"@);
            reveal_strlit("backslash");
            assert("right"@.len() != "backslash"@.len());
            assert("right"@ != "backslash"@);
            reveal_strlit("semicolon");
            assert("right"@.len() != "semicolon"@.len());
            assert("right"@ != "semicolon"@);
            reveal_strlit("quote");
            assert("right"@[0] != "quote"@[0]);
            assert("right"@ != "quote"@);
            reveal_strlit("bracketleft");
            assert("right"@.len() != "bracketleft"@.len());
            assert("right"@ != "bracketleft"@);
            reveal_strlit("bracketright");
            assert("right"@.len() != "bracketright"@.len());
            assert("right"@ != "bracketright"@);
            reveal_strlit("backtick");
            assert("right"@.len() != "backtick"@.len());
            assert("right"@ != "backtick"@);
            reveal_strlit("space");
            assert("right"@[0] != "space"@[0]);
            assert("right"@ != "space"@);
            reveal_strlit("tab");
            assert("right"@.len() != "tab"@.len());
            assert("right"@ != "tab"@);
            reveal_strlit("enter");
            assert("right"@[0] != "enter"@[0]);
            assert("right"@ != "enter"@);
            reveal_strlit("escape");
            assert("right"@.len() != "escape"@.len());
            assert("right"@ != "escape"@);
            reveal_strlit("backspace");
            assert("right"@.len() != "backspace"@.len());
            assert("right"@ != "backspace"@);
            reveal_strlit("delete");
            assert("right"@.len() != "delete"@.len());
            assert("right"@ != "delete"@);
            reveal_strlit("insert");
            assert("right"@.len() != "insert"@.len());
            assert("right"@ != "insert"@);
            reveal_strlit("home");
            assert("right"@.len() != "home"@.len());
            assert("right"@ != "home"@);
            reveal_strlit("end");
            assert("right"@.len() != "end"@.len());
            assert("right"@ != "end"@);
            reveal_strlit("pageup");
            assert("right"@.len() != "pageup"@.len());
            assert("right"@ != "pageup"@);
            reveal_strlit("pagedown");
            assert("right"@.len() != "pagedown"@.len());
            assert("right"@ != "pagedown"@);
            reveal_strlit("up");
            assert("right"@.len() != "up"@.len());
            assert("right"@ != "up"@);
            reveal_strlit("down");
            assert("right"@.len() != "down"@.len());
            assert("right"@ != "down"@);
            reveal_strlit("left");
            assert("right"@.len() != "left"@.len());
            assert("right"@ != "left"@);
        },
        _ => {},
    }
}

fn named_key(t: &Vec<char>) -> (r: Option<ChordKey>)
    ensures
        r == named_key_spec(t@),
{
    if eq_chars(t, &chars_of("equals")) {
        return Some(ChordKey::Char('='));
    }
    if eq_chars(t, &chars_of("minus")) {
        return Some(ChordKey::Char('-'));
    }
    if eq_chars(t, &chars_of("comma")) {
        return Some(ChordKey::Char(','));
    }
    if eq_chars(t, &chars_of("period")) {
        return Some(ChordKey::Char('.'));
    }
    if eq_chars(t, &chars_of("slash")) {
        return Some(ChordKey::Char('/'));
    }
    if eq_chars(t, &chars_of("backslash")) {
        return Some(ChordKey::Char('\\'));
    }
    if eq_chars(t, &chars_of("semicolon")) {
        return Some(ChordKey::Char(';'));
    }
    if eq_chars(t, &chars_of("quote")) {
        return Some(ChordKey::Char('\''));
    }
    if eq_chars(t, &chars_of("bracketleft")) {
        return Some(ChordKey::Char('['));
    }
    if eq_chars(t, &chars_of("bracketright")) {
        return Some(ChordKey::Char(']'));
    }
    if eq_chars(t, &chars_of("backtick")) {
        return Some(ChordKey::Char('`'));
    }
    if eq_chars(t, &chars_of("space")) {
        return Some(ChordKey::Named(NamedKey::Space));
    }
    if eq_chars(t, &chars_of("tab")) {
        return Some(ChordKey::Named(NamedKey::Tab));
    }
    if eq_chars(t, &chars_of("enter")) {
        return Some(ChordKey::Named(NamedKey::Enter));
    }
    if eq_chars(t, &chars_of("escape")) {
        return Some(ChordKey::Named(NamedKey::Escape));
    }
    if eq_chars(t, &chars_of("backspace")) {
        return Some(ChordKey::Named(NamedKey::Backspace));
    }
    if eq_chars(t, &chars_of("delete")) {
        return Some(ChordKey::Named(NamedKey::Delete));
    }
    if eq_chars(t, &chars_of("insert")) {
        return Some(ChordKey::Named(NamedKey::Insert));
    }
    if eq_chars(t, &chars_of("home")) {
        return Some(ChordKey::Named(NamedKey::Home));
    }
    if eq_chars(t, &chars_of("end")) {
        return Some(ChordKey::Named(NamedKey::End));
    }
    if eq_chars(t, &chars_of("pageup")) {
        return Some(ChordKey::Named(NamedKey::PageUp));
    }
    if eq_chars(t, &chars_of("pagedown")) {
        return Some(ChordKey::Named(NamedKey::PageDown));
    }
    if eq_chars(t, &chars_of("up")) {
        return Some(ChordKey::Named(NamedKey::ArrowUp));
    }
    if eq_chars(t, &chars_of("down")) {
        return Some(ChordKey::Named(NamedKey::ArrowDown));
    }
    if eq_chars(t, &chars_of("left")) {
        return Some(ChordKey::Named(NamedKey::ArrowLeft));
    }
    if eq_chars(t, &chars_of("right")) {
        return Some(ChordKey::Named(NamedKey::ArrowRight));
    }
    None
}

fn named_f_key(t: &Vec<char>) -> (r: Option<ChordKey>)
    ensures
        r == named_f_key_spec(t@),
{
    let mut f: Vec<char> = Vec::new();
    f.push('f');
    assert(f@ =~= seq!['f']);
    let rest = match strip_prefix_chars(t, &f) {
        Some(r) => r,
        None => {
            return None;
        },
    };
    match parse_u8_chars(&rest) {
        Some(n) => if 1 <= n && n <= 24 {
            Some(ChordKey::Named(NamedKey::F(n)))
        } else {
            None
        },
        None => None,
    }
}

fn parse_key(t: &Vec<char>) -> (r: Option<ChordKey>)
    ensures
        r == parse_key_spec(t@),
{
    if let Some(k) = named_key(t) {
        return Some(k);
    }
    if let Some(k) = named_f_key(t) {
        return Some(k);
    }
    if t.len() == 1 {
        Some(ChordKey::Char(t[0]))
    } else {
        None
    }
}

proof fn lemma_push_contains(s: Seq<Seq<char>>, p: Seq<char>, x: Seq<char>)
    ensures
        s.push(p).contains(x) <==> (s.contains(x) || p == x),
{
    if s.push(p).contains(x) {
        let k = choose|k: int| 0 <= k < s.push(p).len() && s.push(p)[k] == x;
        if k < s.len() {
            assert(s[k] == x);
        }
    }
    if s.contains(x) {
        let k = choose|k: int| 0 <= k < s.len() && s[k] == x;
        assert(s.push(p)[k] == x);
    }
    if p == x {
        assert(s.push(p)[s.len() as int] == x);
    }
}

/// The modifier a part of a key text names, if any.
pub open spec fn is_modifier(p: Seq<char>) -> bool {
    p == "ctrl"@ || p == "alt"@ || p == "shift"@ || p == "cmd"@
}

/// What parsing a key text yields: `modifier* key` separated by `+`, in
/// any case (the text is lowercased first). The first part that is not a
/// modifier is an error naming it; an unknown key is an error naming it;
/// otherwise the chord whose flags are the modifiers present.
pub open spec fn parse_chord_spec(text: Seq<char>) -> Result<Chord, Seq<char>> {
    parse_lowercased_spec(text::unicode_lowercase(text), text)
}

/// Parsing once the key text `text` was lowercased into `lower`: errors
/// quote the text as written.
pub open spec fn parse_lowercased_spec(lower: Seq<char>, text: Seq<char>) -> Result<Chord, Seq<char>> {
    let parts = text::split(lower, '+');
    let mods = parts.drop_last();
    let key_text = parts.last();
    if exists|i: int| 0 <= i < mods.len() && !is_modifier(#[trigger] mods[i]) {
        let i = choose|i: int|
            0 <= i < mods.len() && !is_modifier(#[trigger] mods[i]) && forall|j: int|
                0 <= j < i ==> is_modifier(mods[j]);
        Err("modificador desconhecido: \""@ + mods[i] + "\" em \""@ + text + "\""@)
    } else {
        match parse_key_spec(key_text) {
            None => Err("tecla desconhecida: \""@ + key_text + "\" em \""@ + text + "\""@),
            Some(key) => Ok(
                Chord {
                    ctrl: mods.contains("ctrl"@),
                    alt: mods.contains("alt"@),
                    shift: mods.contains("shift"@),
                    cmd: mods.contains("cmd"@),
                    key,
                },
            ),
        }
    }
}

/// The modifier parts and the key part of a key text.
pub open spec fn chord_parts(text: Seq<char>) -> (Seq<Seq<char>>, Seq<char>) {
    let parts = text::split(text::unicode_lowercase(text), '+');
    (parts.drop_last(), parts.last())
}

/// Canonical chords: two key texts with the same key part and the same
/// modifiers, in any order and any number of repetitions, parse to the same
/// chord (`"shift+ctrl+t"` and `"ctrl+shift+t"`).
pub proof fn lemma_modifier_order_is_irrelevant(t1: Seq<char>, t2: Seq<char>)
    requires
        parse_chord_spec(t1) is Ok,
        chord_parts(t1).1 == chord_parts(t2).1,
        chord_parts(t1).0.to_set() == chord_parts(t2).0.to_set(),
    ensures
        parse_chord_spec(t2) == parse_chord_spec(t1),
{
    let m1 = chord_parts(t1).0;
    let m2 = chord_parts(t2).0;
    assert forall|x: Seq<char>| m1.contains(x) <==> m2.contains(x) by {
        assert(m1.contains(x) <==> m1.to_set().contains(x));
        assert(m2.contains(x) <==> m2.to_set().contains(x));
    }
    if exists|i: int| 0 <= i < m2.len() && !is_modifier(#[trigger] m2[i]) {
        let i = choose|i: int| 0 <= i < m2.len() && !is_modifier(#[trigger] m2[i]);
        assert(m2.contains(m2[i]));
        let k = choose|k: int| 0 <= k < m1.len() && m1[k] == m2[i];
        assert(!is_modifier(m1[k]));
    }
}

/// The chord of a key event: a single character (ASCII-lowercased) or a
/// named key, with the event's modifiers (`super` is `cmd`); `None` for
/// text of another length and for other keys.
pub open spec fn from_key_spec(key: Key, modifiers: Modifiers) -> Option<Chord> {
    let chord_key = match key {
        Key::Character(s) => if s@.len() == 1 {
            Some(ChordKey::Char(text::ascii_lower(s@[0])))
        } else {
            None
        },
        Key::Named(n) => Some(ChordKey::Named(n)),
        Key::Other => None,
    };
    match chord_key {
        Some(k) => Some(
            Chord {
                ctrl: modifiers.ctrl,
                alt: modifiers.alt,
                shift: modifiers.shift,
                cmd: modifiers.super_,
                key: k,
            },
        ),
        None => None,
    }
}

/// A key event matches the binding written for it: a named key pressed
/// with the modifiers of a parsed chord yields that very chord.
pub proof fn lemma_event_matches_parsed_binding(t: Seq<char>, n: NamedKey)
    requires
        parse_chord_spec(t) matches Ok(c) && c.key == ChordKey::Named(n),
    ensures
        ({
            let c = parse_chord_spec(t)->Ok_0;
            from_key_spec(
                Key::Named(n),
                Modifiers { ctrl: c.ctrl, alt: c.alt, shift: c.shift, super_: c.cmd },
            ) == Some(c)
        }),
{
}

/// The same for a character key: the event's one-character text, when it
/// is the parsed character itself (not an ASCII capital), yields the
/// parsed chord.
pub proof fn lemma_event_matches_parsed_character(t: Seq<char>, x: char, s: String)
    requires
        parse_chord_spec(t) matches Ok(c) && c.key == ChordKey::Char(x),
        s@ == seq![x],
        text::ascii_lower(x) == x,
    ensures
        ({
            let c = parse_chord_spec(t)->Ok_0;
            from_key_spec(
                Key::Character(s),
                Modifiers { ctrl: c.ctrl, alt: c.alt, shift: c.shift, super_: c.cmd },
            ) == Some(c)
        }),
{
}

/// Key texts are case-insensitive: two all-ASCII texts with the same ASCII
/// lowercase parse to the same chord (`"Ctrl+Shift+T"` and
/// `"ctrl+shift+t"`). [`Chord::parse`] states that an all-ASCII text
/// parses as its ASCII lowercase.
pub proof fn lemma_ascii_case_is_irrelevant(t1: Seq<char>, t2: Seq<char>)
    requires
        text::ascii_lower_seq(t1) == text::ascii_lower_seq(t2),
        parse_lowercased_spec(text::ascii_lower_seq(t1), t1) is Ok,
    ensures
        parse_lowercased_spec(text::ascii_lower_seq(t2), t2) == parse_lowercased_spec(
            text::ascii_lower_seq(t1),
            t1,
        ),
{
}

impl Chord {
    /// Parses a key of `[keybindings]` (see [`parse_chord_spec`]).
    pub fn parse(text: &str) -> (r: Result<Chord, String>)
        ensures
            match r {
                Ok(c) => parse_chord_spec(text@) == Ok::<Chord, Seq<char>>(c),
                Err(e) => parse_chord_spec(text@) == Err::<Chord, Seq<char>>(e@),
            },
            text::is_ascii_text(text@) ==> parse_chord_spec(text@) == parse_lowercased_spec(
                text::ascii_lower_seq(text@),
                text@,
            ),
    {
        let lower = to_lowercase(text);
        Chord::parse_lowercased(lower.as_str(), text)
    }

    /// Parses the key text `text` once lowercased into `lower` (see
    /// [`parse_lowercased_spec`]).
    pub fn parse_lowercased(lower: &str, text: &str) -> (r: Result<Chord, String>)
        ensures
            match r {
                Ok(c) => parse_lowercased_spec(lower@, text@) == Ok::<Chord, Seq<char>>(c),
                Err(e) => parse_lowercased_spec(lower@, text@) == Err::<Chord, Seq<char>>(e@),
            },
    {
        let lv = chars_of(lower);
        let parts = split_chars(&lv, '+');
        let ghost ps = text::vec_views(parts@);
        let ghost mods = ps.drop_last();
        let nmods = parts.len() - 1;
        let ctrl_w = chars_of("ctrl");
        let alt_w = chars_of("alt");
        let shift_w = chars_of("shift");
        let cmd_w = chars_of("cmd");
        let mut ctrl = false;
        let mut alt = false;
        let mut shift = false;
        let mut cmd = false;
        let mut i: usize = 0;
        while i < nmods
            invariant
                nmods + 1 == parts@.len(),
                ps == text::vec_views(parts@),
                mods == ps.drop_last(),
                ps == text::split(lower@, '+'),
                ctrl_w@ == "ctrl"@,
                alt_w@ == "alt"@,
                shift_w@ == "shift"@,
                cmd_w@ == "cmd"@,
                i <= nmods,
                forall|j: int| 0 <= j < i ==> is_modifier(#[trigger] mods[j]),
                ctrl == mods.take(i as int).contains("ctrl"@),
                alt == mods.take(i as int).contains("alt"@),
                shift == mods.take(i as int).contains("shift"@),
                cmd == mods.take(i as int).contains("cmd"@),
            decreases nmods - i,
        {
            let p = &parts[i];
            assert(mods[i as int] == p@);
            assert(mods.take(i + 1) =~= mods.take(i as int).push(p@));
            proof {
                reveal_strlit("ctrl");
                reveal_strlit("alt");
                reveal_strlit("shift");
                reveal_strlit("cmd");
                lemma_push_contains(mods.take(i as int), p@, "ctrl"@);
                lemma_push_contains(mods.take(i as int), p@, "alt"@);
                lemma_push_contains(mods.take(i as int), p@, "shift"@);
                lemma_push_contains(mods.take(i as int), p@, "cmd"@);
                assert("alt"@ != "cmd"@) by {
                    assert("alt"@[0] != "cmd"@[0]);
                }
                assert("ctrl"@ != "cmd"@) by {
                    assert("ctrl"@.len() != "cmd"@.len());
                }
                assert("shift"@ != "cmd"@) by {
                    assert("shift"@.len() != "cmd"@.len());
                }
            }
            if eq_chars(p, &ctrl_w) {
                ctrl = true;
            } else if eq_chars(p, &alt_w) {
                alt = true;
            } else if eq_chars(p, &shift_w) {
                shift = true;
            } else if eq_chars(p, &cmd_w) {
                cmd = true;
            } else {
                proof {
                    assert(!is_modifier(mods[i as int]));
                    let k = choose|k: int|
                        0 <= k < mods.len() && !is_modifier(#[trigger] mods[k]) && forall|j: int|
                            0 <= j < k ==> is_modifier(mods[j]);
                    assert(k == i) by {
                        if k < i {
                            assert(is_modifier(mods[k]));
                        }
                        if k > i {
                            assert(is_modifier(mods[i as int]));
                        }
                    }
                }
                let mut msg = "modificador desconhecido: \"".to_owned();
                let pv = string_from_chars(p);
                msg.append(pv.as_str());
                msg.append("\" em \"");
                msg.append(text);
                msg.append("\"");
                return Err(msg);
            }
            i = i + 1;
        }
        assert(mods.take(nmods as int) =~= mods);
        let key_text = &parts[nmods];
        assert(key_text@ == ps.last());
        match parse_key(key_text) {
            None => {
                let mut msg = "tecla desconhecida: \"".to_owned();
                let kv = string_from_chars(key_text);
                msg.append(kv.as_str());
                msg.append("\" em \"");
                msg.append(text);
                msg.append("\"");
                Err(msg)
            },
            Some(key) => Ok(Chord { ctrl, alt, shift, cmd, key }),
        }
    }

    /// The chord of a real key event, when its logical key belongs to the
    /// grammar's vocabulary: a single character (ASCII-lowercased) or a
    /// named key; `None` for multi-character text (IME) and other keys.
    pub fn from_key(key: &Key, modifiers: Modifiers) -> (r: Option<Chord>)
        ensures
            r == from_key_spec(*key, modifiers),
    {
        let chord_key = match key {
            Key::Character(s) => {
                let v = chars_of(s.as_str());
                if v.len() != 1 {
                    return None;
                }
                ChordKey::Char(ascii_lower_exec(v[0]))
            },
            Key::Named(named) => ChordKey::Named(*named),
            Key::Other => {
                return None;
            },
        };
        Some(
            Chord {
                ctrl: modifiers.ctrl,
                alt: modifiers.alt,
                shift: modifiers.shift,
                cmd: modifiers.super_,
                key: chord_key,
            },
        )
    }
}

/// Target platform, injected rather than read from the build, so that the
/// three levels of resolution are testable for every platform.
#[derive(Debug, Clone, Copy, PartialEq, Eq, Structural)]
pub enum Platform {
    Windows,
    Linux,
    Macos,
}

} // verus!
