//! Scheme policy of terminal hyperlinks: the scheme is normalised
//! (trimmed, `%`-decoded, ASCII-lowercased) and compared against a closed
//! allowlist before anything is opened.
use vstd::prelude::*;

use crate::text;
use crate::text::{ascii_lower_chars, chars_of, eq_chars, slice_chars, string_from_chars, trim_chars};

verus! {

broadcast use vstd::string::group_string_axioms;

/// What a scheme allows.
#[derive(Debug, Clone, Copy, PartialEq, Eq, Structural)]
pub enum LinkPolicy {
    /// `http`, `https`, `mailto`: the system's default handler.
    Open,
    /// `file`: revealed in the file manager, never opened by extension.
    Reveal,
    /// Anything else: never opened.
    Refuse,
}

/// Result of acting on a hyperlink.
#[derive(Debug, PartialEq, Eq)]
pub enum LinkOutcome {
    Opened,
    Revealed,
    RevealFailed,
    OpenFailed,
    /// Scheme outside the allowlist; the normalised scheme is reported.
    Refused { normalized_scheme: String },
}

/// Index of the first `':'` at or after `i`, or `s.len()`.
pub open spec fn colon_from(s: Seq<char>, i: int) -> int
    decreases s.len() - i,
{
    if i >= s.len() {
        s.len() as int
    } else if s[i] == ':' {
        i
    } else {
        colon_from(s, i + 1)
    }
}

pub open spec fn is_hex_byte(b: u8) -> bool {
    (48 <= b && b <= 57) || (97 <= b && b <= 102) || (65 <= b && b <= 70)
}

pub open spec fn hex_byte_val(b: u8) -> int {
    if 48 <= b && b <= 57 {
        b - 48
    } else if 97 <= b && b <= 102 {
        b - 87
    } else {
        b - 55
    }
}

/// The byte written `XX` after a `%`: exactly two ASCII hex digits, most
/// significant first.
pub open spec fn hex_pair(h1: u8, h2: u8) -> Option<u8> {
    if is_hex_byte(h1) && is_hex_byte(h2) {
        Some((16 * hex_byte_val(h1) + hex_byte_val(h2)) as u8)
    } else {
        None
    }
}

/// `%XX` decoding of `b[i..]` appended to `acc`; `None` on a `%` not
/// followed by two bytes that decode.
pub open spec fn percent_decode_from(b: Seq<u8>, i: int, acc: Seq<u8>) -> Option<Seq<u8>>
    decreases b.len() - i,
{
    if i < 0 || i >= b.len() {
        Some(acc)
    } else if b[i] == 37 {
        if i + 3 <= b.len() && hex_pair(b[i + 1], b[i + 2]) is Some {
            percent_decode_from(b, i + 3, acc.push(hex_pair(b[i + 1], b[i + 2])->0))
        } else {
            None
        }
    } else {
        percent_decode_from(b, i + 1, acc.push(b[i]))
    }
}

pub open spec fn percent_decode_bytes(b: Seq<u8>) -> Option<Seq<u8>> {
    percent_decode_from(b, 0, Seq::empty())
}

/// The percent-decoded text, when the decoded bytes are valid UTF-8.
pub open spec fn percent_decode_spec(s: Seq<char>) -> Option<Seq<char>> {
    match percent_decode_bytes(vstd::utf8::encode_utf8(s)) {
        Some(bytes) => if vstd::utf8::valid_utf8(bytes) {
            Some(vstd::utf8::decode_utf8(bytes))
        } else {
            None
        },
        None => None,
    }
}

/// The scheme of `uri`: the text before its first `:`, trimmed,
/// percent-decoded and ASCII-lowercased; `None` without a `:` or when the
/// decoding fails.
pub open spec fn normalized_scheme_spec(uri: Seq<char>) -> Option<Seq<char>> {
    let c = colon_from(uri, 0);
    if c >= uri.len() {
        None
    } else {
        match percent_decode_spec(text::trim(uri.subrange(0, c))) {
            Some(d) => Some(text::ascii_lower_seq(d)),
            None => None,
        }
    }
}

/// `http`/`https`/`mailto` open, `file` reveals, everything else (and
/// anything without a scheme) is refused.
pub open spec fn classify_scheme_spec(uri: Seq<char>) -> LinkPolicy {
    match normalized_scheme_spec(uri) {
        Some(s) => if s == "http"@ || s == "https"@ || s == "mailto"@ {
            LinkPolicy::Open
        } else if s == "file"@ {
            LinkPolicy::Reveal
        } else {
            LinkPolicy::Refuse
        },
        None => LinkPolicy::Refuse,
    }
}

/// Calls `String::from_utf8(..).ok()`; the contract claims a text exactly
/// when the bytes are valid UTF-8, and that the text is what they decode to.
#[verifier::external_body]
fn string_from_utf8(bytes: Vec<u8>) -> (r: Option<String>)
    ensures
        r is Some <==> vstd::utf8::valid_utf8(bytes@),
        r matches Some(s) ==> s@ == vstd::utf8::decode_utf8(bytes@),
{
    String::from_utf8(bytes).ok()
}

fn is_hex_byte_exec(b: u8) -> (r: bool)
    ensures
        r == is_hex_byte(b),
{
    (48 <= b && b <= 57) || (97 <= b && b <= 102) || (65 <= b && b <= 70)
}

fn hex_byte_val_exec(b: u8) -> (r: u8)
    requires
        is_hex_byte(b),
    ensures
        r == hex_byte_val(b),
        r < 16,
{
    if 48 <= b && b <= 57 {
        b - 48
    } else if 97 <= b && b <= 102 {
        b - 87
    } else {
        b - 55
    }
}

fn hex_pair_exec(h1: u8, h2: u8) -> (r: Option<u8>)
    ensures
        r == hex_pair(h1, h2),
{
    if is_hex_byte_exec(h1) && is_hex_byte_exec(h2) {
        Some(16 * hex_byte_val_exec(h1) + hex_byte_val_exec(h2))
    } else {
        None
    }
}

/// Minimal `%XX` decoder over the UTF-8 bytes of `s`.
pub fn percent_decode(s: &str) -> (r: Option<String>)
    ensures
        match r {
            Some(d) => percent_decode_spec(s@) == Some(d@),
            None => percent_decode_spec(s@) is None,
        },
{
    let bytes = s.as_bytes();
    let n = bytes.len();
    let mut out: Vec<u8> = Vec::new();
    let mut i: usize = 0;
    while i < n
        invariant
            n == bytes@.len(),
            bytes@ == vstd::utf8::encode_utf8(s@),
            i <= n,
            percent_decode_bytes(bytes@) == percent_decode_from(bytes@, i as int, out@),
        decreases n - i,
    {
        if bytes[i] == 37 {
            if n - i >= 3 {
                match hex_pair_exec(bytes[i + 1], bytes[i + 2]) {
                    Some(v) => {
                        out.push(v);
                        i = i + 3;
                    },
                    None => {
                        return None;
                    },
                }
            } else {
                return None;
            }
        } else {
            out.push(bytes[i]);
            i = i + 1;
        }
    }
    string_from_utf8(out)
}

/// The normalised scheme of `uri` (see [`normalized_scheme_spec`]).
pub fn normalized_scheme(uri: &str) -> (r: Option<String>)
    ensures
        match r {
            Some(d) => normalized_scheme_spec(uri@) == Some(d@),
            None => normalized_scheme_spec(uri@) is None,
        },
{
    let v = chars_of(uri);
    let mut c: usize = 0;
    while c < v.len() && v[c] != ':'
        invariant
            c <= v@.len(),
            colon_from(v@, 0) == colon_from(v@, c as int),
        decreases v.len() - c,
    {
        c = c + 1;
    }
    if c >= v.len() {
        return None;
    }
    let prefix = slice_chars(&v, 0, c);
    let trimmed = trim_chars(&prefix);
    let t = string_from_chars(&trimmed);
    match percent_decode(t.as_str()) {
        Some(d) => {
            let dv = chars_of(d.as_str());
            let lower = ascii_lower_chars(&dv);
            Some(string_from_chars(&lower))
        },
        None => None,
    }
}

/// Classifies `uri` against the allowlist (see [`classify_scheme_spec`]).
pub fn classify_scheme(uri: &str) -> (p: LinkPolicy)
    ensures
        p == classify_scheme_spec(uri@),
{
    match normalized_scheme(uri) {
        Some(s) => {
            let v = chars_of(s.as_str());
            if eq_chars(&v, &chars_of("http")) || eq_chars(&v, &chars_of("https")) || eq_chars(
                &v,
                &chars_of("mailto"),
            ) {
                LinkPolicy::Open
            } else if eq_chars(&v, &chars_of("file")) {
                LinkPolicy::Reveal
            } else {
                LinkPolicy::Refuse
            }
        },
        None => LinkPolicy::Refuse,
    }
}

/// The outcome reported for a refused link: the normalised scheme, or an
/// empty text when there is none.
pub fn refused_outcome(uri: &str) -> (o: LinkOutcome)
    ensures
        o matches LinkOutcome::Refused { normalized_scheme } && normalized_scheme@ == (
        match normalized_scheme_spec(uri@) {
            Some(s) => s,
            None => Seq::<char>::empty(),
        }),
{
    match normalized_scheme(uri) {
        Some(s) => LinkOutcome::Refused { normalized_scheme: s },
        None => LinkOutcome::Refused { normalized_scheme: String::new() },
    }
}

} // verus!
