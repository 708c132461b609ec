use pcmanx_rs::charset::Encoding;
use pcmanx_rs::config::{encoding_choice_index, encoding_from_choice, CrLfMode, ProxyType};
use pcmanx_rs::terminal::render::{cell_columns, cell_palette, cursor_shows_char, draws_glyph, painted_char};
use pcmanx_rs::terminal::types::{CharAttr, TermCell, COLOR_TABLE};

#[test]
fn palette_follows_inverse_and_bright() {
    let a = CharAttr { fg: 2, bg: 4, ..CharAttr::default() };
    assert_eq!(cell_palette(&a), (2, 4));
    let b = CharAttr { bright: true, ..a };
    assert_eq!(cell_palette(&b), (10, 4));
    let c = CharAttr { inverse: true, ..b };
    assert_eq!(cell_palette(&c), (12, 2));
    let d = CharAttr { fg: 200, bg: 99, ..CharAttr::default() };
    assert_eq!(cell_palette(&d), (15, 15));
    assert_eq!(COLOR_TABLE[cell_palette(&CharAttr::default()).0], [192, 192, 192]);
}

#[test]
fn glyph_visibility() {
    let cell = TermCell { ch: 'x', attr: CharAttr::default() };
    assert!(draws_glyph(&cell, true));
    let blinking = TermCell { ch: 'x', attr: CharAttr { blink: true, ..CharAttr::default() } };
    assert!(!draws_glyph(&blinking, true));
    assert!(draws_glyph(&blinking, false));
    assert!(!draws_glyph(&TermCell::default(), false));
    let hidden = TermCell { ch: 'x', attr: CharAttr { invisible: true, ..CharAttr::default() } };
    assert!(!draws_glyph(&hidden, false));
    assert!(cursor_shows_char('a'));
    assert!(!cursor_shows_char('\0'));
    assert_eq!(painted_char('\0'), ' ');
    assert_eq!(painted_char('q'), 'q');
}

#[test]
fn wide_cells_span_two_columns() {
    assert_eq!(cell_columns('a'), 1);
    assert_eq!(cell_columns('中'), 2);
    assert_eq!(cell_columns('\u{1}'), 1);
}

#[test]
fn chooser_positions_round_trip() {
    for m in [CrLfMode::Cr, CrLfMode::Lf, CrLfMode::CrLf] {
        assert_eq!(CrLfMode::from_choice(Some(m.choice_index())), m);
    }
    for p in [ProxyType::NoProxy, ProxyType::Socks4, ProxyType::Socks5, ProxyType::Http] {
        assert_eq!(ProxyType::from_choice(Some(p.choice_index())), p);
    }
    for e in [Encoding::Big5, Encoding::Uao241, Encoding::Uao250, Encoding::Utf8] {
        assert_eq!(encoding_from_choice(Some(encoding_choice_index(e))), e);
    }
    assert_eq!(CrLfMode::from_choice(None), CrLfMode::Cr);
    assert_eq!(ProxyType::from_choice(Some(9)), ProxyType::NoProxy);
    assert_eq!(encoding_from_choice(Some(7)), Encoding::Big5);
}
