use vstd::prelude::*;
use vstd::utf8::encode_utf8;

use crate::text::push_char;

verus! {

/// The keys that the terminal encodes specially; every other key is
/// `Other` and is sent as the character it types.
#[derive(Clone, Copy, Debug, PartialEq, Eq, Structural)]
pub enum TermKey {
    Return,
    KpEnter,
    BackSpace,
    Delete,
    Escape,
    Tab,
    Up,
    Down,
    Right,
    Left,
    PageUp,
    PageDown,
    Home,
    End,
    F1,
    F2,
    F3,
    F4,
    F5,
    F6,
    F7,
    F8,
    F9,
    F10,
    F11,
    F12,
    Other,
}

/// A control character in the sense of `char::is_control` (general
/// category Cc): U+0000 to U+001F and U+007F to U+009F.
pub open spec fn is_control_char(c: char) -> bool {
    (c as u32) <= 0x1f || (0x7f <= (c as u32) && (c as u32) <= 0x9f)
}

/// The bytes a special key sends, or `None` for `Other`.
pub open spec fn key_sequence(key: TermKey) -> Option<Seq<u8>> {
    match key {
        TermKey::Return | TermKey::KpEnter => Some(seq![0x0du8]),
        TermKey::BackSpace => Some(seq![0x08u8]),
        TermKey::Delete => Some(seq![0x1bu8, 0x5b, 0x33, 0x7e]),
        TermKey::Escape => Some(seq![0x1bu8]),
        TermKey::Tab => Some(seq![0x09u8]),
        TermKey::Up => Some(seq![0x1bu8, 0x5b, 0x41]),
        TermKey::Down => Some(seq![0x1bu8, 0x5b, 0x42]),
        TermKey::Right => Some(seq![0x1bu8, 0x5b, 0x43]),
        TermKey::Left => Some(seq![0x1bu8, 0x5b, 0x44]),
        TermKey::PageUp => Some(seq![0x1bu8, 0x5b, 0x35, 0x7e]),
        TermKey::PageDown => Some(seq![0x1bu8, 0x5b, 0x36, 0x7e]),
        TermKey::Home => Some(seq![0x1bu8, 0x5b, 0x48]),
        TermKey::End => Some(seq![0x1bu8, 0x5b, 0x46]),
        TermKey::F1 => Some(seq![0x1bu8, 0x4f, 0x50]),
        TermKey::F2 => Some(seq![0x1bu8, 0x4f, 0x51]),
        TermKey::F3 => Some(seq![0x1bu8, 0x4f, 0x52]),
        TermKey::F4 => Some(seq![0x1bu8, 0x4f, 0x53]),
        TermKey::F5 => Some(seq![0x1bu8, 0x5b, 0x31, 0x35, 0x7e]),
        TermKey::F6 => Some(seq![0x1bu8, 0x5b, 0x31, 0x37, 0x7e]),
        TermKey::F7 => Some(seq![0x1bu8, 0x5b, 0x31, 0x38, 0x7e]),
        TermKey::F8 => Some(seq![0x1bu8, 0x5b, 0x31, 0x39, 0x7e]),
        TermKey::F9 => Some(seq![0x1bu8, 0x5b, 0x32, 0x30, 0x7e]),
        TermKey::F10 => Some(seq![0x1bu8, 0x5b, 0x32, 0x31, 0x7e]),
        TermKey::F11 => Some(seq![0x1bu8, 0x5b, 0x32, 0x33, 0x7e]),
        TermKey::F12 => Some(seq![0x1bu8, 0x5b, 0x32, 0x34, 0x7e]),
        TermKey::Other => None,
    }
}

/// What a key press sends: with Control held, a letter sends its control
/// code (A and a both send 1, up to Z and z, which send 26); otherwise special
/// keys send their sequence, and other keys the UTF-8 bytes of the
/// character they type, unless that is a control character or there is
/// none.
pub open spec fn key_bytes(key: TermKey, ctrl: bool, typed: Option<char>) -> Option<Seq<u8>> {
    if ctrl && typed is Some && 0x61 <= (typed->0 as u32) <= 0x7a {
        Some(seq![((typed->0 as u32) - 0x60) as u8])
    } else if ctrl && typed is Some && 0x41 <= (typed->0 as u32) <= 0x5a {
        Some(seq![((typed->0 as u32) - 0x40) as u8])
    } else if key != TermKey::Other {
        key_sequence(key)
    } else {
        match typed {
            Some(c) => if is_control_char(c) { None } else { Some(encode_utf8(seq![c])) },
            None => None,
        }
    }
}

/// With Control held, a letter sends the same control code whether it is
/// typed in lower or upper case, a code from 1 to 26.
pub proof fn law_ctrl_letter_case(key: TermKey, lower: char, upper: char)
    requires
        0x61 <= (lower as u32) <= 0x7a,
        (upper as u32) == (lower as u32) - 0x20,
    ensures
        key_bytes(key, true, Some(lower)) == key_bytes(key, true, Some(upper)),
        key_bytes(key, true, Some(lower)) matches Some(b) && b.len() == 1 && 1 <= b[0] <= 26,
{
}

/// Whether `typed` is a letter and Control is held, the case in which the
/// key sends a control code whatever key it is.
pub open spec fn is_ctrl_letter(ctrl: bool, typed: Option<char>) -> bool {
    match typed {
        Some(c) => ctrl && (0x61 <= (c as u32) <= 0x7a || 0x41 <= (c as u32) <= 0x5a),
        None => false,
    }
}

/// Each special key sends its VT220 sequence, whatever character it types
/// and whether Control is held (unless Control turns a typed letter into a
/// control code): Enter CR, Backspace BS, Tab HT, Escape ESC, the arrows
/// `ESC [ A` to `ESC [ D`, Home and End `ESC [ H` and `ESC [ F`, Delete,
/// Page Up and Page Down `ESC [ 3 ~`, `ESC [ 5 ~` and `ESC [ 6 ~`, F1 to F4
/// `ESC O P` to `ESC O S`, and F5 to F12 `ESC [ 15 ~` to `ESC [ 24 ~`.
pub proof fn law_special_key_table(ctrl: bool, typed: Option<char>)
    requires
        !is_ctrl_letter(ctrl, typed),
    ensures
        key_bytes(TermKey::Return, ctrl, typed) == Some(seq![0x0du8]),
        key_bytes(TermKey::KpEnter, ctrl, typed) == Some(seq![0x0du8]),
        key_bytes(TermKey::BackSpace, ctrl, typed) == Some(seq![0x08u8]),
        key_bytes(TermKey::Delete, ctrl, typed) == Some(seq![0x1bu8, 0x5bu8, 0x33u8, 0x7eu8]),
        key_bytes(TermKey::Escape, ctrl, typed) == Some(seq![0x1bu8]),
        key_bytes(TermKey::Tab, ctrl, typed) == Some(seq![0x09u8]),
        key_bytes(TermKey::Up, ctrl, typed) == Some(seq![0x1bu8, 0x5bu8, 0x41u8]),
        key_bytes(TermKey::Down, ctrl, typed) == Some(seq![0x1bu8, 0x5bu8, 0x42u8]),
        key_bytes(TermKey::Right, ctrl, typed) == Some(seq![0x1bu8, 0x5bu8, 0x43u8]),
        key_bytes(TermKey::Left, ctrl, typed) == Some(seq![0x1bu8, 0x5bu8, 0x44u8]),
        key_bytes(TermKey::PageUp, ctrl, typed) == Some(seq![0x1bu8, 0x5bu8, 0x35u8, 0x7eu8]),
        key_bytes(TermKey::PageDown, ctrl, typed) == Some(seq![0x1bu8, 0x5bu8, 0x36u8, 0x7eu8]),
        key_bytes(TermKey::Home, ctrl, typed) == Some(seq![0x1bu8, 0x5bu8, 0x48u8]),
        key_bytes(TermKey::End, ctrl, typed) == Some(seq![0x1bu8, 0x5bu8, 0x46u8]),
        key_bytes(TermKey::F1, ctrl, typed) == Some(seq![0x1bu8, 0x4fu8, 0x50u8]),
        key_bytes(TermKey::F2, ctrl, typed) == Some(seq![0x1bu8, 0x4fu8, 0x51u8]),
        key_bytes(TermKey::F3, ctrl, typed) == Some(seq![0x1bu8, 0x4fu8, 0x52u8]),
        key_bytes(TermKey::F4, ctrl, typed) == Some(seq![0x1bu8, 0x4fu8, 0x53u8]),
        key_bytes(TermKey::F5, ctrl, typed) == Some(seq![0x1bu8, 0x5bu8, 0x31u8, 0x35u8, 0x7eu8]),
        key_bytes(TermKey::F6, ctrl, typed) == Some(seq![0x1bu8, 0x5bu8, 0x31u8, 0x37u8, 0x7eu8]),
        key_bytes(TermKey::F7, ctrl, typed) == Some(seq![0x1bu8, 0x5bu8, 0x31u8, 0x38u8, 0x7eu8]),
        key_bytes(TermKey::F8, ctrl, typed) == Some(seq![0x1bu8, 0x5bu8, 0x31u8, 0x39u8, 0x7eu8]),
        key_bytes(TermKey::F9, ctrl, typed) == Some(seq![0x1bu8, 0x5bu8, 0x32u8, 0x30u8, 0x7eu8]),
        key_bytes(TermKey::F10, ctrl, typed) == Some(seq![0x1bu8, 0x5bu8, 0x32u8, 0x31u8, 0x7eu8]),
        key_bytes(TermKey::F11, ctrl, typed) == Some(seq![0x1bu8, 0x5bu8, 0x32u8, 0x33u8, 0x7eu8]),
        key_bytes(TermKey::F12, ctrl, typed) == Some(seq![0x1bu8, 0x5bu8, 0x32u8, 0x34u8, 0x7eu8]),
{
}

/// With Control held, any key that types a letter sends one byte: the
/// letter's code less 0x60 for a lower-case letter, less 0x40 for an
/// upper-case one.
pub proof fn law_ctrl_letter_code(key: TermKey, c: char)
    ensures
        0x61 <= (c as u32) <= 0x7a ==> key_bytes(key, true, Some(c)) == Some(seq![((c as u32) - 0x60) as u8]),
        0x41 <= (c as u32) <= 0x5a ==> key_bytes(key, true, Some(c)) == Some(seq![((c as u32) - 0x40) as u8]),
{
}

/// A key with no special sequence sends the UTF-8 bytes of the character it
/// types; it sends nothing when that is a control character (U+0000 to
/// U+001F, U+007F to U+009F) or when it types none.
pub proof fn law_typed_character(ctrl: bool, c: char)
    requires
        !is_ctrl_letter(ctrl, Some(c)),
    ensures
        key_bytes(TermKey::Other, ctrl, None) is None,
        (c as u32) <= 0x1f || 0x7f <= (c as u32) <= 0x9f ==> key_bytes(TermKey::Other, ctrl, Some(c)) is None,
        !((c as u32) <= 0x1f || 0x7f <= (c as u32) <= 0x9f) ==> key_bytes(TermKey::Other, ctrl, Some(c))
            == Some(encode_utf8(seq![c])),
{
}

/// The UTF-8 bytes of `c`.
fn char_utf8(c: char) -> (bytes: Vec<u8>)
    ensures
        bytes@ == encode_utf8(seq![c]),
{
    let mut s = String::new();
    push_char(&mut s, c);
    assert(s@ =~= seq![c]);
    vstd::slice::slice_to_vec(s.as_str().as_bytes())
}

/// The bytes a special key sends (see [`key_sequence`]).
fn special_key_bytes(key: TermKey) -> (bytes: Option<Vec<u8>>)
    ensures
        match bytes {
            Some(v) => key_sequence(key) == Some(v@),
            None => key_sequence(key) is None,
        },
{
    let v: Vec<u8> = match key {
        TermKey::Return | TermKey::KpEnter => vec![0x0d],
        TermKey::BackSpace => vec![0x08],
        TermKey::Delete => vec![0x1b, 0x5b, 0x33, 0x7e],
        TermKey::Escape => vec![0x1b],
        TermKey::Tab => vec![0x09],
        TermKey::Up => vec![0x1b, 0x5b, 0x41],
        TermKey::Down => vec![0x1b, 0x5b, 0x42],
        TermKey::Right => vec![0x1b, 0x5b, 0x43],
        TermKey::Left => vec![0x1b, 0x5b, 0x44],
        TermKey::PageUp => vec![0x1b, 0x5b, 0x35, 0x7e],
        TermKey::PageDown => vec![0x1b, 0x5b, 0x36, 0x7e],
        TermKey::Home => vec![0x1b, 0x5b, 0x48],
        TermKey::End => vec![0x1b, 0x5b, 0x46],
        TermKey::F1 => vec![0x1b, 0x4f, 0x50],
        TermKey::F2 => vec![0x1b, 0x4f, 0x51],
        TermKey::F3 => vec![0x1b, 0x4f, 0x52],
        TermKey::F4 => vec![0x1b, 0x4f, 0x53],
        TermKey::F5 => vec![0x1b, 0x5b, 0x31, 0x35, 0x7e],
        TermKey::F6 => vec![0x1b, 0x5b, 0x31, 0x37, 0x7e],
        TermKey::F7 => vec![0x1b, 0x5b, 0x31, 0x38, 0x7e],
        TermKey::F8 => vec![0x1b, 0x5b, 0x31, 0x39, 0x7e],
        TermKey::F9 => vec![0x1b, 0x5b, 0x32, 0x30, 0x7e],
        TermKey::F10 => vec![0x1b, 0x5b, 0x32, 0x31, 0x7e],
        TermKey::F11 => vec![0x1b, 0x5b, 0x32, 0x33, 0x7e],
        TermKey::F12 => vec![0x1b, 0x5b, 0x32, 0x34, 0x7e],
        TermKey::Other => {
            return None;
        },
    };
    assert(key_sequence(key) == Some(v@));
    Some(v)
}

/// The bytes to send for a key press: `key` is the key, `ctrl` whether
/// Control is held, `typed` the character the key types, if any.
pub fn key_to_bytes(key: TermKey, ctrl: bool, typed: Option<char>) -> (bytes: Option<Vec<u8>>)
    ensures
        match bytes {
            Some(v) => key_bytes(key, ctrl, typed) == Some(v@),
            None => key_bytes(key, ctrl, typed) is None,
        },
{
    if ctrl {
        if let Some(c) = typed {
            let cu = c as u32;
            if 0x61 <= cu && cu <= 0x7a {
                let code = (cu - 0x60) as u8;
                let v = vec![code];
                assert(v@ =~= seq![code]);
                return Some(v);
            }
            if 0x41 <= cu && cu <= 0x5a {
                let code = (cu - 0x40) as u8;
                let v = vec![code];
                assert(v@ =~= seq![code]);
                return Some(v);
            }
        }
    }
    if key != TermKey::Other {
        return special_key_bytes(key);
    }
    match typed {
        Some(c) => {
            let cu = c as u32;
            if cu <= 0x1f || (0x7f <= cu && cu <= 0x9f) {
                None
            } else {
                Some(char_utf8(c))
            }
        },
        None => None,
    }
}

} // verus!
