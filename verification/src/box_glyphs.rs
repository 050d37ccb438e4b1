//! Block elements (U+2580-259F) and the straight core of box drawing
//! (U+2500-254B, U+2550-256C) drawn as rectangles of the cell instead of
//! font glyphs. Geometry is given in eighths of the cell, which is exact for
//! every block element; shades are given in quarters of the foreground
//! alpha. Mixed-weight, dashed, arc and diagonal characters are not covered.
use vstd::prelude::*;

verus! {

/// Weight of a box-drawing segment.
#[derive(Debug, Clone, Copy, PartialEq, Eq, Structural)]
pub enum Weight {
    Light,
    Heavy,
    Double,
}

/// Which of the four sides a box-drawing character reaches from the centre
/// of the cell, and with which weight.
#[derive(Debug, Clone, Copy, PartialEq, Eq, Structural)]
pub struct Segments {
    pub up: Option<Weight>,
    pub down: Option<Weight>,
    pub left: Option<Weight>,
    pub right: Option<Weight>,
}

/// Rectangles `(x0, y0, x1, y1)` of a block element, in eighths of the cell.
pub open spec fn block_rects_spec(ch: char) -> Option<Seq<(u8, u8, u8, u8)>> {
    match ch {
        '\u{2580}' => Some(seq![(0u8, 0u8, 8u8, 4u8)]),
        '\u{2581}' => Some(seq![(0u8, 7u8, 8u8, 8u8)]),
        '\u{2582}' => Some(seq![(0u8, 6u8, 8u8, 8u8)]),
        '\u{2583}' => Some(seq![(0u8, 5u8, 8u8, 8u8)]),
        '\u{2584}' => Some(seq![(0u8, 4u8, 8u8, 8u8)]),
        '\u{2585}' => Some(seq![(0u8, 3u8, 8u8, 8u8)]),
        '\u{2586}' => Some(seq![(0u8, 2u8, 8u8, 8u8)]),
        '\u{2587}' => Some(seq![(0u8, 1u8, 8u8, 8u8)]),
        '\u{2588}' => Some(seq![(0u8, 0u8, 8u8, 8u8)]),
        '\u{2589}' => Some(seq![(0u8, 0u8, 7u8, 8u8)]),
        '\u{258A}' => Some(seq![(0u8, 0u8, 6u8, 8u8)]),
        '\u{258B}' => Some(seq![(0u8, 0u8, 5u8, 8u8)]),
        '\u{258C}' => Some(seq![(0u8, 0u8, 4u8, 8u8)]),
        '\u{258D}' => Some(seq![(0u8, 0u8, 3u8, 8u8)]),
        '\u{258E}' => Some(seq![(0u8, 0u8, 2u8, 8u8)]),
        '\u{258F}' => Some(seq![(0u8, 0u8, 1u8, 8u8)]),
        '\u{2590}' => Some(seq![(4u8, 0u8, 8u8, 8u8)]),
        '\u{2591}' => Some(seq![(0u8, 0u8, 8u8, 8u8)]),
        '\u{2592}' => Some(seq![(0u8, 0u8, 8u8, 8u8)]),
        '\u{2593}' => Some(seq![(0u8, 0u8, 8u8, 8u8)]),
        '\u{2594}' => Some(seq![(0u8, 0u8, 8u8, 1u8)]),
        '\u{2595}' => Some(seq![(7u8, 0u8, 8u8, 8u8)]),
        '\u{2596}' => Some(seq![(0u8, 4u8, 4u8, 8u8)]),
        '\u{2597}' => Some(seq![(4u8, 4u8, 8u8, 8u8)]),
        '\u{2598}' => Some(seq![(0u8, 0u8, 4u8, 4u8)]),
        '\u{2599}' => Some(seq![(0u8, 0u8, 4u8, 8u8), (4u8, 4u8, 8u8, 8u8)]),
        '\u{259A}' => Some(seq![(0u8, 0u8, 4u8, 4u8), (4u8, 4u8, 8u8, 8u8)]),
        '\u{259B}' => Some(seq![(0u8, 0u8, 8u8, 4u8), (0u8, 4u8, 4u8, 8u8)]),
        '\u{259C}' => Some(seq![(0u8, 0u8, 8u8, 4u8), (4u8, 4u8, 8u8, 8u8)]),
        '\u{259D}' => Some(seq![(4u8, 0u8, 8u8, 4u8)]),
        '\u{259E}' => Some(seq![(4u8, 0u8, 8u8, 4u8), (0u8, 4u8, 4u8, 8u8)]),
        '\u{259F}' => Some(seq![(0u8, 4u8, 8u8, 8u8), (4u8, 0u8, 8u8, 4u8)]),
        _ => None,
    }
}

/// Rectangles of a block element in eighths of the cell, one per filled
/// block (up to two for the combined quadrants); `None` for anything else.
pub fn block_rects(ch: char) -> (r: Option<Vec<(u8, u8, u8, u8)>>)
    ensures
        match r {
            Some(v) => block_rects_spec(ch) == Some(v@),
            None => block_rects_spec(ch) is None,
        },
{
    let v = match ch {
        '\u{2580}' => {
            let mut v: Vec<(u8, u8, u8, u8)> = Vec::new();
            v.push((0, 0, 8, 4));
            v
        },
        '\u{2581}' => {
            let mut v: Vec<(u8, u8, u8, u8)> = Vec::new();
            v.push((0, 7, 8, 8));
            v
        },
        '\u{2582}' => {
            let mut v: Vec<(u8, u8, u8, u8)> = Vec::new();
            v.push((0, 6, 8, 8));
            v
        },
        '\u{2583}' => {
            let mut v: Vec<(u8, u8, u8, u8)> = Vec::new();
            v.push((0, 5, 8, 8));
            v
        },
        '\u{2584}' => {
            let mut v: Vec<(u8, u8, u8, u8)> = Vec::new();
            v.push((0, 4, 8, 8));
            v
        },
        '\u{2585}' => {
            let mut v: Vec<(u8, u8, u8, u8)> = Vec::new();
            v.push((0, 3, 8, 8));
            v
        },
        '\u{2586}' => {
            let mut v: Vec<(u8, u8, u8, u8)> = Vec::new();
            v.push((0, 2, 8, 8));
            v
        },
        '\u{2587}' => {
            let mut v: Vec<(u8, u8, u8, u8)> = Vec::new();
            v.push((0, 1, 8, 8));
            v
        },
        '\u{2588}' => {
            let mut v: Vec<(u8, u8, u8, u8)> = Vec::new();
            v.push((0, 0, 8, 8));
            v
        },
        '\u{2589}' => {
            let mut v: Vec<(u8, u8, u8, u8)> = Vec::new();
            v.push((0, 0, 7, 8));
            v
        },
        '\u{258A}' => {
            let mut v: Vec<(u8, u8, u8, u8)> = Vec::new();
            v.push((0, 0, 6, 8));
            v
        },
        '\u{258B}' => {
            let mut v: Vec<(u8, u8, u8, u8)> = Vec::new();
            v.push((0, 0, 5, 8));
            v
        },
        '\u{258C}' => {
            let mut v: Vec<(u8, u8, u8, u8)> = Vec::new();
            v.push((0, 0, 4, 8));
            v
        },
        '\u{258D}' => {
            let mut v: Vec<(u8, u8, u8, u8)> = Vec::new();
            v.push((0, 0, 3, 8));
            v
        },
        '\u{258E}' => {
            let mut v: Vec<(u8, u8, u8, u8)> = Vec::new();
            v.push((0, 0, 2, 8));
            v
        },
        '\u{258F}' => {
            let mut v: Vec<(u8, u8, u8, u8)> = Vec::new();
            v.push((0, 0, 1, 8));
            v
        },
        '\u{2590}' => {
            let mut v: Vec<(u8, u8, u8, u8)> = Vec::new();
            v.push((4, 0, 8, 8));
            v
        },
        '\u{2591}' => {
            let mut v: Vec<(u8, u8, u8, u8)> = Vec::new();
            v.push((0, 0, 8, 8));
            v
        },
        '\u{2592}' => {
            let mut v: Vec<(u8, u8, u8, u8)> = Vec::new();
            v.push((0, 0, 8, 8));
            v
        },
        '\u{2593}' => {
            let mut v: Vec<(u8, u8, u8, u8)> = Vec::new();
            v.push((0, 0, 8, 8));
            v
        },
        '\u{2594}' => {
            let mut v: Vec<(u8, u8, u8, u8)> = Vec::new();
            v.push((0, 0, 8, 1));
            v
        },
        '\u{2595}' => {
            let mut v: Vec<(u8, u8, u8, u8)> = Vec::new();
            v.push((7, 0, 8, 8));
            v
        },
        '\u{2596}' => {
            let mut v: Vec<(u8, u8, u8, u8)> = Vec::new();
            v.push((0, 4, 4, 8));
            v
        },
        '\u{2597}' => {
            let mut v: Vec<(u8, u8, u8, u8)> = Vec::new();
            v.push((4, 4, 8, 8));
            v
        },
        '\u{2598}' => {
            let mut v: Vec<(u8, u8, u8, u8)> = Vec::new();
            v.push((0, 0, 4, 4));
            v
        },
        '\u{2599}' => {
            let mut v: Vec<(u8, u8, u8, u8)> = Vec::new();
            v.push((0, 0, 4, 8));
            v.push((4, 4, 8, 8));
            v
        },
        '\u{259A}' => {
            let mut v: Vec<(u8, u8, u8, u8)> = Vec::new();
            v.push((0, 0, 4, 4));
            v.push((4, 4, 8, 8));
            v
        },
        '\u{259B}' => {
            let mut v: Vec<(u8, u8, u8, u8)> = Vec::new();
            v.push((0, 0, 8, 4));
            v.push((0, 4, 4, 8));
            v
        },
        '\u{259C}' => {
            let mut v: Vec<(u8, u8, u8, u8)> = Vec::new();
            v.push((0, 0, 8, 4));
            v.push((4, 4, 8, 8));
            v
        },
        '\u{259D}' => {
            let mut v: Vec<(u8, u8, u8, u8)> = Vec::new();
            v.push((4, 0, 8, 4));
            v
        },
        '\u{259E}' => {
            let mut v: Vec<(u8, u8, u8, u8)> = Vec::new();
            v.push((4, 0, 8, 4));
            v.push((0, 4, 4, 8));
            v
        },
        '\u{259F}' => {
            let mut v: Vec<(u8, u8, u8, u8)> = Vec::new();
            v.push((0, 4, 8, 8));
            v.push((4, 0, 8, 4));
            v
        },
        _ => {
            return None;
        },
    };
    proof {
        let s = block_rects_spec(ch)->0;
        assert(v@ =~= s);
    }
    Some(v)
}

/// Alpha of the three shades (U+2591-2593), in quarters of the foreground's.
pub open spec fn shade_quarters_spec(ch: char) -> Option<u8> {
    if ch == '\u{2591}' {
        Some(1)
    } else if ch == '\u{2592}' {
        Some(2)
    } else if ch == '\u{2593}' {
        Some(3)
    } else {
        None
    }
}

pub fn shade_quarters(ch: char) -> (r: Option<u8>)
    ensures
        r == shade_quarters_spec(ch),
{
    if ch == '\u{2591}' {
        Some(1)
    } else if ch == '\u{2592}' {
        Some(2)
    } else if ch == '\u{2593}' {
        Some(3)
    } else {
        None
    }
}

/// Segments of the pure-weight straight lines, corners, tees and crosses.
pub open spec fn box_drawing_segments_spec(ch: char) -> Option<Segments> {
    match ch {
        '\u{2500}' => Some(Segments { up: None, down: None, left: Some(Weight::Light), right: Some(Weight::Light) }),
        '\u{2501}' => Some(Segments { up: None, down: None, left: Some(Weight::Heavy), right: Some(Weight::Heavy) }),
        '\u{2502}' => Some(Segments { up: Some(Weight::Light), down: Some(Weight::Light), left: None, right: None }),
        '\u{2503}' => Some(Segments { up: Some(Weight::Heavy), down: Some(Weight::Heavy), left: None, right: None }),
        '\u{250C}' => Some(Segments { up: None, down: Some(Weight::Light), left: None, right: Some(Weight::Light) }),
        '\u{2510}' => Some(Segments { up: None, down: Some(Weight::Light), left: Some(Weight::Light), right: None }),
        '\u{2514}' => Some(Segments { up: Some(Weight::Light), down: None, left: None, right: Some(Weight::Light) }),
        '\u{2518}' => Some(Segments { up: Some(Weight::Light), down: None, left: Some(Weight::Light), right: None }),
        '\u{250F}' => Some(Segments { up: None, down: Some(Weight::Heavy), left: None, right: Some(Weight::Heavy) }),
        '\u{2513}' => Some(Segments { up: None, down: Some(Weight::Heavy), left: Some(Weight::Heavy), right: None }),
        '\u{2517}' => Some(Segments { up: Some(Weight::Heavy), down: None, left: None, right: Some(Weight::Heavy) }),
        '\u{251B}' => Some(Segments { up: Some(Weight::Heavy), down: None, left: Some(Weight::Heavy), right: None }),
        '\u{251C}' => Some(Segments { up: Some(Weight::Light), down: Some(Weight::Light), left: None, right: Some(Weight::Light) }),
        '\u{2524}' => Some(Segments { up: Some(Weight::Light), down: Some(Weight::Light), left: Some(Weight::Light), right: None }),
        '\u{252C}' => Some(Segments { up: None, down: Some(Weight::Light), left: Some(Weight::Light), right: Some(Weight::Light) }),
        '\u{2534}' => Some(Segments { up: Some(Weight::Light), down: None, left: Some(Weight::Light), right: Some(Weight::Light) }),
        '\u{253C}' => Some(Segments { up: Some(Weight::Light), down: Some(Weight::Light), left: Some(Weight::Light), right: Some(Weight::Light) }),
        '\u{2523}' => Some(Segments { up: Some(Weight::Heavy), down: Some(Weight::Heavy), left: None, right: Some(Weight::Heavy) }),
        '\u{252B}' => Some(Segments { up: Some(Weight::Heavy), down: Some(Weight::Heavy), left: Some(Weight::Heavy), right: None }),
        '\u{2533}' => Some(Segments { up: None, down: Some(Weight::Heavy), left: Some(Weight::Heavy), right: Some(Weight::Heavy) }),
        '\u{253B}' => Some(Segments { up: Some(Weight::Heavy), down: None, left: Some(Weight::Heavy), right: Some(Weight::Heavy) }),
        '\u{254B}' => Some(Segments { up: Some(Weight::Heavy), down: Some(Weight::Heavy), left: Some(Weight::Heavy), right: Some(Weight::Heavy) }),
        '\u{2550}' => Some(Segments { up: None, down: None, left: Some(Weight::Double), right: Some(Weight::Double) }),
        '\u{2551}' => Some(Segments { up: Some(Weight::Double), down: Some(Weight::Double), left: None, right: None }),
        '\u{2554}' => Some(Segments { up: None, down: Some(Weight::Double), left: None, right: Some(Weight::Double) }),
        '\u{2557}' => Some(Segments { up: None, down: Some(Weight::Double), left: Some(Weight::Double), right: None }),
        '\u{255A}' => Some(Segments { up: Some(Weight::Double), down: None, left: None, right: Some(Weight::Double) }),
        '\u{255D}' => Some(Segments { up: Some(Weight::Double), down: None, left: Some(Weight::Double), right: None }),
        '\u{2560}' => Some(Segments { up: Some(Weight::Double), down: Some(Weight::Double), left: None, right: Some(Weight::Double) }),
        '\u{2563}' => Some(Segments { up: Some(Weight::Double), down: Some(Weight::Double), left: Some(Weight::Double), right: None }),
        '\u{2566}' => Some(Segments { up: None, down: Some(Weight::Double), left: Some(Weight::Double), right: Some(Weight::Double) }),
        '\u{2569}' => Some(Segments { up: Some(Weight::Double), down: None, left: Some(Weight::Double), right: Some(Weight::Double) }),
        '\u{256C}' => Some(Segments { up: Some(Weight::Double), down: Some(Weight::Double), left: Some(Weight::Double), right: Some(Weight::Double) }),
        _ => None,
    }
}

pub fn box_drawing_segments(ch: char) -> (r: Option<Segments>)
    ensures
        r == box_drawing_segments_spec(ch),
{
    match ch {
        '\u{2500}' => Some(Segments { up: None, down: None, left: Some(Weight::Light), right: Some(Weight::Light) }),
        '\u{2501}' => Some(Segments { up: None, down: None, left: Some(Weight::Heavy), right: Some(Weight::Heavy) }),
        '\u{2502}' => Some(Segments { up: Some(Weight::Light), down: Some(Weight::Light), left: None, right: None }),
        '\u{2503}' => Some(Segments { up: Some(Weight::Heavy), down: Some(Weight::Heavy), left: None, right: None }),
        '\u{250C}' => Some(Segments { up: None, down: Some(Weight::Light), left: None, right: Some(Weight::Light) }),
        '\u{2510}' => Some(Segments { up: None, down: Some(Weight::Light), left: Some(Weight::Light), right: None }),
        '\u{2514}' => Some(Segments { up: Some(Weight::Light), down: None, left: None, right: Some(Weight::Light) }),
        '\u{2518}' => Some(Segments { up: Some(Weight::Light), down: None, left: Some(Weight::Light), right: None }),
        '\u{250F}' => Some(Segments { up: None, down: Some(Weight::Heavy), left: None, right: Some(Weight::Heavy) }),
        '\u{2513}' => Some(Segments { up: None, down: Some(Weight::Heavy), left: Some(Weight::Heavy), right: None }),
        '\u{2517}' => Some(Segments { up: Some(Weight::Heavy), down: None, left: None, right: Some(Weight::Heavy) }),
        '\u{251B}' => Some(Segments { up: Some(Weight::Heavy), down: None, left: Some(Weight::Heavy), right: None }),
        '\u{251C}' => Some(Segments { up: Some(Weight::Light), down: Some(Weight::Light), left: None, right: Some(Weight::Light) }),
        '\u{2524}' => Some(Segments { up: Some(Weight::Light), down: Some(Weight::Light), left: Some(Weight::Light), right: None }),
        '\u{252C}' => Some(Segments { up: None, down: Some(Weight::Light), left: Some(Weight::Light), right: Some(Weight::Light) }),
        '\u{2534}' => Some(Segments { up: Some(Weight::Light), down: None, left: Some(Weight::Light), right: Some(Weight::Light) }),
        '\u{253C}' => Some(Segments { up: Some(Weight::Light), down: Some(Weight::Light), left: Some(Weight::Light), right: Some(Weight::Light) }),
        '\u{2523}' => Some(Segments { up: Some(Weight::Heavy), down: Some(Weight::Heavy), left: None, right: Some(Weight::Heavy) }),
        '\u{252B}' => Some(Segments { up: Some(Weight::Heavy), down: Some(Weight::Heavy), left: Some(Weight::Heavy), right: None }),
        '\u{2533}' => Some(Segments { up: None, down: Some(Weight::Heavy), left: Some(Weight::Heavy), right: Some(Weight::Heavy) }),
        '\u{253B}' => Some(Segments { up: Some(Weight::Heavy), down: None, left: Some(Weight::Heavy), right: Some(Weight::Heavy) }),
        '\u{254B}' => Some(Segments { up: Some(Weight::Heavy), down: Some(Weight::Heavy), left: Some(Weight::Heavy), right: Some(Weight::Heavy) }),
        '\u{2550}' => Some(Segments { up: None, down: None, left: Some(Weight::Double), right: Some(Weight::Double) }),
        '\u{2551}' => Some(Segments { up: Some(Weight::Double), down: Some(Weight::Double), left: None, right: None }),
        '\u{2554}' => Some(Segments { up: None, down: Some(Weight::Double), left: None, right: Some(Weight::Double) }),
        '\u{2557}' => Some(Segments { up: None, down: Some(Weight::Double), left: Some(Weight::Double), right: None }),
        '\u{255A}' => Some(Segments { up: Some(Weight::Double), down: None, left: None, right: Some(Weight::Double) }),
        '\u{255D}' => Some(Segments { up: Some(Weight::Double), down: None, left: Some(Weight::Double), right: None }),
        '\u{2560}' => Some(Segments { up: Some(Weight::Double), down: Some(Weight::Double), left: None, right: Some(Weight::Double) }),
        '\u{2563}' => Some(Segments { up: Some(Weight::Double), down: Some(Weight::Double), left: Some(Weight::Double), right: None }),
        '\u{2566}' => Some(Segments { up: None, down: Some(Weight::Double), left: Some(Weight::Double), right: Some(Weight::Double) }),
        '\u{2569}' => Some(Segments { up: Some(Weight::Double), down: None, left: Some(Weight::Double), right: Some(Weight::Double) }),
        '\u{256C}' => Some(Segments { up: Some(Weight::Double), down: Some(Weight::Double), left: Some(Weight::Double), right: Some(Weight::Double) }),
        _ => None,
    }
}

/// Whether `ch` is drawn by this module rather than by the font.
pub open spec fn is_covered_spec(ch: char) -> bool {
    block_rects_spec(ch) is Some || box_drawing_segments_spec(ch) is Some
}

pub fn is_covered(ch: char) -> (b: bool)
    ensures
        b == is_covered_spec(ch),
{
    block_rects(ch).is_some() || box_drawing_segments(ch).is_some()
}

/// Every covered character produces geometry: a block element has at least
/// one rectangle, each non-empty and inside the cell; a box-drawing
/// character reaches at least one side.
pub proof fn lemma_covered_produces_geometry(ch: char)
    requires
        is_covered_spec(ch),
    ensures
        block_rects_spec(ch) matches Some(rs) ==> rs.len() >= 1 && forall|i: int|
            0 <= i < rs.len() ==> {
                let (x0, y0, x1, y1) = #[trigger] rs[i];
                x0 < x1 <= 8 && y0 < y1 <= 8
            },
        box_drawing_segments_spec(ch) matches Some(s) ==> (s.up is Some || s.down is Some
            || s.left is Some || s.right is Some),
{
}

/// The covered characters are exactly the block elements U+2580-259F and
/// the listed pure-weight box-drawing characters.
pub proof fn lemma_blocks_are_the_block_elements(ch: char)
    ensures
        block_rects_spec(ch) is Some <==> ('\u{2580}' <= ch && ch <= '\u{259f}'),
{
}

} // verus!
