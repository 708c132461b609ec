use vstd::prelude::*;

verus! {

/// The eight basic ANSI colours, in SGR order (black is 0, white is 7).
#[derive(Clone, Copy, Debug, PartialEq, Eq, Structural)]
pub enum Color {
    Black,
    Red,
    Green,
    Yellow,
    Blue,
    Magenta,
    Cyan,
    White,
}

/// Which half of a double-byte character a cell holds, if any.
#[derive(Clone, Copy, Debug, PartialEq, Eq, Structural)]
pub enum Charset {
    Ascii,
    Mbcs1,
    Mbcs2,
}

impl Default for Charset {
    fn default() -> (r: Self)
        ensures
            r == Charset::Ascii,
    {
        Charset::Ascii
    }
}

/// Rendition of one cell.
#[derive(Clone, Copy, Debug, PartialEq, Eq, Structural)]
pub struct CharAttr {
    pub fg: u8,
    pub bg: u8,
    pub bright: bool,
    pub blink: bool,
    pub underline: bool,
    pub inverse: bool,
    pub invisible: bool,
    pub hyperlink: bool,
    pub charset: Charset,
    pub need_update: bool,
}

/// The rendition of a freshly reset terminal: white on black, no flags.
pub open spec fn default_attr() -> CharAttr {
    CharAttr {
        fg: 7,
        bg: 0,
        bright: false,
        blink: false,
        underline: false,
        inverse: false,
        invisible: false,
        hyperlink: false,
        charset: Charset::Ascii,
        need_update: false,
    }
}

impl Default for CharAttr {
    fn default() -> (r: Self)
        ensures
            r == default_attr(),
    {
        CharAttr {
            fg: 7,
            bg: 0,
            bright: false,
            blink: false,
            underline: false,
            inverse: false,
            invisible: false,
            hyperlink: false,
            charset: Charset::Ascii,
            need_update: false,
        }
    }
}

/// One character position of the screen.
#[derive(Clone, Copy, Debug, PartialEq, Eq, Structural)]
pub struct TermCell {
    pub ch: char,
    pub attr: CharAttr,
}

/// An empty cell: a space in the default rendition.
pub open spec fn blank_cell() -> TermCell {
    TermCell { ch: ' ', attr: default_attr() }
}

impl Default for TermCell {
    fn default() -> (r: Self)
        ensures
            r == blank_cell(),
    {
        TermCell { ch: ' ', attr: CharAttr::default() }
    }
}

/// RGB values of the sixteen palette entries: the eight normal colours,
/// then their bright variants.
pub const COLOR_TABLE: [[u8; 3]; 16] = [
    [0, 0, 0],
    [128, 0, 0],
    [0, 128, 0],
    [128, 128, 0],
    [0, 0, 128],
    [128, 0, 128],
    [0, 128, 128],
    [192, 192, 192],
    [128, 128, 128],
    [255, 0, 0],
    [0, 255, 0],
    [255, 255, 0],
    [0, 0, 255],
    [255, 0, 255],
    [0, 255, 255],
    [255, 255, 255],
];

} // verus!
