//! Resolution of terminal colours: which entry of the resolved palette (or
//! which literal RGB value) a cell colour stands for. Indices 16..=231 are
//! the xterm 6x6x6 cube, 232..=255 the grey ramp.
use vstd::prelude::*;

verus! {

/// An unresolved terminal colour, as the terminal emits it.
#[derive(Debug, Clone, Copy, PartialEq, Eq, Structural)]
pub enum TermColor {
    Default,
    Indexed(u8),
    Rgb { r: u8, g: u8, b: u8 },
}

/// Where a resolved colour comes from.
#[derive(Debug, Clone, Copy, PartialEq, Eq, Structural)]
pub enum ColorSource {
    Foreground,
    Background,
    /// Entry `0..8` of the normal ANSI octet.
    Normal(u8),
    /// Entry `0..8` of the bright ANSI octet.
    Bright(u8),
    /// A literal colour.
    Rgb(u8, u8, u8),
}

/// The level of one cube channel (`0..6`): 0, then 95, 135, 175, 215, 255.
pub open spec fn cube_channel_spec(n: u8) -> int {
    if n == 0 {
        0
    } else {
        55 + 40 * n
    }
}

pub fn cube_channel(n: u8) -> (r: u8)
    requires
        n < 6,
    ensures
        r == cube_channel_spec(n),
{
    if n == 0 {
        0
    } else {
        55 + 40 * n
    }
}

/// The colour of a 256-colour index: the normal octet (bright when
/// promoted and `bold_is_bright`), the bright octet, the cube, the grey ramp
/// (level `8 + 10 * (index - 232)`).
pub open spec fn indexed_source(index: u8, promote_to_bright: bool, bold_is_bright: bool) -> ColorSource {
    if index < 8 {
        if promote_to_bright && bold_is_bright {
            ColorSource::Bright(index)
        } else {
            ColorSource::Normal(index)
        }
    } else if index < 16 {
        ColorSource::Bright((index - 8) as u8)
    } else if index < 232 {
        let i = index - 16;
        ColorSource::Rgb(
            cube_channel_spec((i / 36) as u8) as u8,
            cube_channel_spec(((i % 36) / 6) as u8) as u8,
            cube_channel_spec((i % 6) as u8) as u8,
        )
    } else {
        let level = 8 + 10 * (index - 232);
        ColorSource::Rgb(level as u8, level as u8, level as u8)
    }
}

/// `Default` is the foreground or the background; RGB passes through;
/// `bold` promotes only the first eight indices, and only for text.
pub open spec fn resolve_spec(color: TermColor, is_foreground: bool, bold: bool, bold_is_bright: bool) -> ColorSource {
    match color {
        TermColor::Default => if is_foreground {
            ColorSource::Foreground
        } else {
            ColorSource::Background
        },
        TermColor::Indexed(i) => indexed_source(i, is_foreground && bold, bold_is_bright),
        TermColor::Rgb { r, g, b } => ColorSource::Rgb(r, g, b),
    }
}

fn resolve_indexed(index: u8, promote_to_bright: bool, bold_is_bright: bool) -> (s: ColorSource)
    ensures
        s == indexed_source(index, promote_to_bright, bold_is_bright),
{
    if index < 8 {
        if promote_to_bright && bold_is_bright {
            ColorSource::Bright(index)
        } else {
            ColorSource::Normal(index)
        }
    } else if index < 16 {
        ColorSource::Bright(index - 8)
    } else if index < 232 {
        let i = index - 16;
        assert(i / 36 < 6) by (nonlinear_arith)
            requires
                i < 216,
        ;
        ColorSource::Rgb(cube_channel(i / 36), cube_channel((i % 36) / 6), cube_channel(i % 6))
    } else {
        let level: u16 = 8 + 10 * ((index - 232) as u16);
        ColorSource::Rgb(level as u8, level as u8, level as u8)
    }
}

/// Resolves a cell colour for the foreground (`is_foreground`) or the
/// background; see [`resolve_spec`].
pub fn resolve(color: TermColor, is_foreground: bool, bold: bool, bold_is_bright: bool) -> (s: ColorSource)
    ensures
        s == resolve_spec(color, is_foreground, bold, bold_is_bright),
{
    match color {
        TermColor::Default => if is_foreground {
            ColorSource::Foreground
        } else {
            ColorSource::Background
        },
        TermColor::Indexed(i) => resolve_indexed(i, is_foreground && bold, bold_is_bright),
        TermColor::Rgb { r, g, b } => ColorSource::Rgb(r, g, b),
    }
}

/// `bold` only ever promotes text colours of the first eight indices: the
/// background, the 256-colour cube, the grey ramp and RGB colours are the
/// same with or without it.
pub proof fn lemma_bold_only_promotes_the_first_octet_of_text(color: TermColor, is_foreground: bool, bold_is_bright: bool)
    ensures
        !is_foreground ==> resolve_spec(color, is_foreground, true, bold_is_bright) == resolve_spec(
            color,
            is_foreground,
            false,
            bold_is_bright,
        ),
        !(color matches TermColor::Indexed(i) && i < 8) ==> resolve_spec(
            color,
            is_foreground,
            true,
            bold_is_bright,
        ) == resolve_spec(color, is_foreground, false, bold_is_bright),
        !bold_is_bright ==> resolve_spec(color, is_foreground, true, bold_is_bright)
            == resolve_spec(color, is_foreground, false, bold_is_bright),
{
}

/// Which of the six cube levels a channel value is (0, 95, 135, 175, 215,
/// 255 are levels 0 to 5).
pub open spec fn cube_level(v: int) -> int {
    if v == 0 {
        0
    } else {
        (v - 55) / 40
    }
}

/// A channel value is one of the six cube levels.
pub open spec fn is_cube_value(v: int) -> bool {
    v == 0 || v == 95 || v == 135 || v == 175 || v == 215 || v == 255
}

/// The 6x6x6 cube: an index from 16 to 231 resolves, whatever the other
/// inputs, to a colour whose three channels are cube levels and whose
/// levels, read as the base-6 digits red, green, blue (most significant
/// first), give the index back. So red is the slowest channel to change and
/// blue the fastest: index 21 is pure blue, 46 pure green, 196 pure red.
pub proof fn lemma_cube_channels_are_the_base_six_digits(
    index: u8,
    is_foreground: bool,
    bold: bool,
    bold_is_bright: bool,
)
    requires
        16 <= index < 232,
    ensures
        resolve_spec(TermColor::Indexed(index), is_foreground, bold, bold_is_bright) matches ColorSource::Rgb(
            r,
            g,
            b,
        ) && is_cube_value(r as int) && is_cube_value(g as int) && is_cube_value(b as int)
            && index == 16 + 36 * cube_level(r as int) + 6 * cube_level(g as int) + cube_level(
            b as int,
        ),
{
    let i = index - 16;
    let dr = i / 36;
    let dg = (i % 36) / 6;
    let db = i % 6;
    assert(i == 36 * dr + 6 * dg + db) by (nonlinear_arith)
        requires
            0 <= i < 216,
            dr == i / 36,
            dg == (i % 36) / 6,
            db == i % 6,
    ;
    assert(0 <= dr < 6 && 0 <= dg < 6 && 0 <= db < 6) by (nonlinear_arith)
        requires
            0 <= i < 216,
            dr == i / 36,
            dg == (i % 36) / 6,
            db == i % 6,
    ;
    assert forall|d: int| 0 <= d < 6 implies is_cube_value(#[trigger] cube_channel_spec(d as u8))
        && cube_level(cube_channel_spec(d as u8)) == d && cube_channel_spec(d as u8) < 256 by {
        if d == 0 {
        } else if d == 1 {
        } else if d == 2 {
        } else if d == 3 {
        } else if d == 4 {
        } else {
        }
    }
}

/// The grey ramp: an index from 232 to 255 resolves to a grey, the three
/// channels equal, starting at 8 and growing by 10 per index.
pub proof fn lemma_grey_ramp(index: u8, is_foreground: bool, bold: bool, bold_is_bright: bool)
    requires
        232 <= index,
    ensures
        resolve_spec(TermColor::Indexed(index), is_foreground, bold, bold_is_bright) matches ColorSource::Rgb(
            r,
            g,
            b,
        ) && r == g && g == b && r == 8 + 10 * (index - 232),
{
}

/// The sixteen ANSI indices keep their colour's position in the octets:
/// index `i < 8` is entry `i`, bright exactly when bold text is shown
/// bright; index `8 + i` is bright entry `i`. `Default` follows the side
/// asked for and RGB passes through untouched.
pub proof fn lemma_ansi_indices_keep_their_entry(
    index: u8,
    is_foreground: bool,
    bold: bool,
    bold_is_bright: bool,
    r: u8,
    g: u8,
    b: u8,
)
    ensures
        index < 8 ==> resolve_spec(TermColor::Indexed(index), is_foreground, bold, bold_is_bright)
            == (if is_foreground && bold && bold_is_bright {
            ColorSource::Bright(index)
        } else {
            ColorSource::Normal(index)
        }),
        8 <= index < 16 ==> resolve_spec(
            TermColor::Indexed(index),
            is_foreground,
            bold,
            bold_is_bright,
        ) == ColorSource::Bright((index - 8) as u8),
        resolve_spec(TermColor::Default, is_foreground, bold, bold_is_bright) == (if is_foreground {
            ColorSource::Foreground
        } else {
            ColorSource::Background
        }),
        resolve_spec(TermColor::Rgb { r, g, b }, is_foreground, bold, bold_is_bright)
            == ColorSource::Rgb(r, g, b),
{
}

} // verus!
