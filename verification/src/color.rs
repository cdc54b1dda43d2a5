//! Color policy: the fixed base color of each recognized symbol, and the
//! level-graded gradient the conservation histogram paints with. Analysis
//! never consults this; only rendering does.

use vstd::prelude::*;

verus! {

/// One RGB triple.
#[derive(Clone, Copy, Debug, PartialEq, Eq, Structural)]
pub struct Rgb {
    pub red: u8,
    pub green: u8,
    pub blue: u8,
}

/// The base color of a symbol: one fixed triple per recognized symbol (the
/// four bases and the gap marker), none for anything else — an unrecognized
/// symbol leaves the canvas color unchanged.
pub open spec fn base_color_spec(sym: u8) -> Option<Rgb> {
    if sym == 65 {  // 'A'
        Some(Rgb { red: 216, green: 27, blue: 96 })
    } else if sym == 84 {  // 'T'
        Some(Rgb { red: 30, green: 136, blue: 229 })
    } else if sym == 71 {  // 'G'
        Some(Rgb { red: 255, green: 193, blue: 7 })
    } else if sym == 67 {  // 'C'
        Some(Rgb { red: 0, green: 77, blue: 64 })
    } else if sym == 45 {  // '-'
        Some(Rgb { red: 254, green: 97, blue: 0 })
    } else {
        None
    }
}

/// The histogram gradient: step `s` (0-based, below 4) brightens designated
/// channels of the symbol's base color by `10 * s`. Which channels take the
/// gradient is fixed per symbol; the others keep their base value.
pub open spec fn histogram_color_spec(sym: u8, step: u32) -> Option<Rgb>
    recommends
        step < 4,
{
    let d = 10 * step as int;
    if sym == 65 {
        Some(Rgb { red: (216 + d) as u8, green: (27 + d) as u8, blue: (96 + d) as u8 })
    } else if sym == 84 {
        Some(Rgb { red: (30 + d) as u8, green: (136 + d) as u8, blue: 229 })
    } else if sym == 71 {
        Some(Rgb { red: 255, green: (193 + d) as u8, blue: (7 + d) as u8 })
    } else if sym == 67 {
        Some(Rgb { red: d as u8, green: (77 + d) as u8, blue: (64 + d) as u8 })
    } else if sym == 45 {
        Some(Rgb { red: 254, green: (97 + d) as u8, blue: d as u8 })
    } else {
        None
    }
}

/// The base color of `sym`, or nothing for an unrecognized symbol.
pub fn base_color(sym: u8) -> (color: Option<Rgb>)
    ensures
        color == base_color_spec(sym),
{
    if sym == 65 {
        Some(Rgb { red: 216, green: 27, blue: 96 })
    } else if sym == 84 {
        Some(Rgb { red: 30, green: 136, blue: 229 })
    } else if sym == 71 {
        Some(Rgb { red: 255, green: 193, blue: 7 })
    } else if sym == 67 {
        Some(Rgb { red: 0, green: 77, blue: 64 })
    } else if sym == 45 {
        Some(Rgb { red: 254, green: 97, blue: 0 })
    } else {
        None
    }
}

/// The gradient color of `sym` at gradient step `step` (0-based).
pub fn histogram_color(sym: u8, step: u32) -> (color: Option<Rgb>)
    requires
        step < 4,
    ensures
        color == histogram_color_spec(sym, step),
{
    let d: u8 = (10 * step) as u8;
    if sym == 65 {
        Some(Rgb { red: 216 + d, green: 27 + d, blue: 96 + d })
    } else if sym == 84 {
        Some(Rgb { red: 30 + d, green: 136 + d, blue: 229 })
    } else if sym == 71 {
        Some(Rgb { red: 255, green: 193 + d, blue: 7 + d })
    } else if sym == 67 {
        Some(Rgb { red: d, green: 77 + d, blue: 64 + d })
    } else if sym == 45 {
        Some(Rgb { red: 254, green: 97 + d, blue: d })
    } else {
        None
    }
}

} // verus!
