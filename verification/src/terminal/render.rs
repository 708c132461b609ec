use vstd::prelude::*;

use super::screen::{char_width, unicode_width_of};
use super::types::{CharAttr, TermCell};

verus! {

/// The palette entries (foreground, background) a cell is painted with:
/// inverse video swaps the colours, bright lifts a normal foreground colour
/// to its bright variant, and both stay inside the sixteen-entry palette.
pub open spec fn palette_of(a: CharAttr) -> (usize, usize) {
    let fg: usize = if a.inverse { a.bg as usize } else { a.fg as usize };
    let bg: usize = if a.inverse { a.fg as usize } else { a.bg as usize };
    let fg2: usize = if a.bright && fg < 8 { (fg + 8) as usize } else { fg };
    (if fg2 < 15 { fg2 } else { 15 }, if bg < 15 { bg } else { 15 })
}

/// The palette entries a cell is painted with (see [`palette_of`]).
pub fn cell_palette(attr: &CharAttr) -> (p: (usize, usize))
    ensures
        p == palette_of(*attr),
        p.0 < 16 && p.1 < 16,
{
    let (fg, bg) = if attr.inverse {
        (attr.bg as usize, attr.fg as usize)
    } else {
        (attr.fg as usize, attr.bg as usize)
    };
    let fg = if attr.bright && fg < 8 { fg + 8 } else { fg };
    (if fg < 15 { fg } else { 15 }, if bg < 15 { bg } else { 15 })
}

/// Whether the character of a cell is painted: not when it is invisible,
/// a space, or blinking while the blink phase hides it.
pub open spec fn glyph_shown(cell: TermCell, blink_phase: bool) -> bool {
    !cell.attr.invisible && cell.ch != ' ' && !(cell.attr.blink && blink_phase)
}

/// Whether the character of a cell is painted (see [`glyph_shown`]).
pub fn draws_glyph(cell: &TermCell, blink_phase: bool) -> (shown: bool)
    ensures
        shown == glyph_shown(*cell, blink_phase),
{
    !cell.attr.invisible && cell.ch != ' ' && !(cell.attr.blink && blink_phase)
}

/// Whether the cursor block shows the character under it: not for a space
/// or a NUL.
pub fn cursor_shows_char(ch: char) -> (shown: bool)
    ensures
        shown == (ch != ' ' && ch != '\0'),
{
    ch != ' ' && ch != '\0'
}

/// The character painted for a cell: NUL is painted as a space.
pub fn painted_char(ch: char) -> (p: char)
    ensures
        p == (if ch == '\0' { ' ' } else { ch }),
{
    if ch == '\0' { ' ' } else { ch }
}

/// How many columns the background of a cell spans: two for a wide
/// character, one otherwise.
pub open spec fn cell_span(c: char) -> usize {
    if (c as u32) < 0xa0 {
        1
    } else {
        match unicode_width_of(c) {
            Some(w) => if w > 1 { 2 } else { 1 },
            None => 1,
        }
    }
}

/// How many columns the background of a cell spans (see [`cell_span`]).
pub fn cell_columns(c: char) -> (n: usize)
    ensures
        n == cell_span(c),
        n == 1 || n == 2,
{
    let w = match char_width(c) {
        Some(w) => w,
        None => 1,
    };
    if w > 1 { 2 } else { 1 }
}

/// How a rendition picks its palette entries: in plain video the
/// foreground and background colours are the entries themselves, bold
/// lifts a normal foreground colour (0 to 7) by eight to its bright
/// variant, reverse video paints with the two colours swapped, and every
/// entry lies in the sixteen-entry palette.
pub proof fn law_palette(a: CharAttr)
    ensures
        palette_of(a).0 < 16 && palette_of(a).1 < 16,
        !a.inverse && !a.bright && a.fg < 16 && a.bg < 16 ==> palette_of(a) == (a.fg as usize, a.bg as usize),
        !a.inverse && a.bright && a.fg < 8 && a.bg < 16 ==> palette_of(a) == ((a.fg + 8) as usize, a.bg as usize),
        !a.inverse && a.bright && 8 <= a.fg < 16 ==> palette_of(a).0 == a.fg as usize,
        palette_of(CharAttr { inverse: true, ..a }) == palette_of(CharAttr { inverse: false, fg: a.bg, bg: a.fg, ..a }),
{
}

/// A cell's character is painted unless the cell is concealed, holds a
/// space, or blinks while the blink phase hides it; its background spans
/// one column for every character below U+00A0 and for narrow ones, two for
/// wide ones.
pub proof fn law_cell_painting(cell: TermCell, blink_phase: bool, c: char)
    ensures
        cell.attr.invisible ==> !glyph_shown(cell, blink_phase),
        cell.ch == ' ' ==> !glyph_shown(cell, blink_phase),
        cell.attr.blink && blink_phase ==> !glyph_shown(cell, blink_phase),
        !cell.attr.invisible && cell.ch != ' ' && !(cell.attr.blink && blink_phase) ==> glyph_shown(cell, blink_phase),
        (c as u32) < 0xa0 ==> cell_span(c) == 1,
        (c as u32) >= 0xa0 && unicode_width_of(c) is Some && unicode_width_of(c)->0 >= 2 ==> cell_span(c) == 2,
        (c as u32) >= 0xa0 && !(unicode_width_of(c) is Some && unicode_width_of(c)->0 >= 2) ==> cell_span(c) == 1,
{
}

} // verus!
