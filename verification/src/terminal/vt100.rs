use vstd::prelude::*;

use super::screen::{clamp, ScreenBuffer, ScreenModel};
use super::types::{default_attr, CharAttr};

verus! {

/// Parameter `index` of a control sequence, where each parameter is the list
/// of its sub-parameters: its first sub-parameter when that is present and
/// positive, `default` otherwise.
pub open spec fn param_value(params: Seq<Seq<u16>>, index: int, default: usize) -> usize {
    if 0 <= index < params.len() && params[index].len() > 0 && params[index][0] > 0 {
        params[index][0] as usize
    } else {
        default
    }
}

/// `a - b`, or zero when `b` is larger.
pub open spec fn sat_sub(a: usize, b: usize) -> usize {
    if a >= b { (a - b) as usize } else { 0 }
}

/// `a + n`, but no further than `limit`.
pub open spec fn add_upto(a: usize, n: usize, limit: usize) -> usize {
    if a + n < limit { (a + n) as usize } else { limit }
}

/// The selector of an SGR parameter: its first sub-parameter, or zero.
pub open spec fn sgr_selector(param: Seq<u16>) -> u16 {
    if param.len() > 0 { param[0] } else { 0 }
}

/// The rendition after one SGR selector.
pub open spec fn sgr_code(a: CharAttr, code: u16) -> CharAttr {
    if code == 0 {
        default_attr()
    } else if code == 1 {
        CharAttr { bright: true, ..a }
    } else if code == 4 {
        CharAttr { underline: true, ..a }
    } else if code == 5 {
        CharAttr { blink: true, ..a }
    } else if code == 7 {
        CharAttr { inverse: true, ..a }
    } else if code == 8 {
        CharAttr { invisible: true, ..a }
    } else if code == 22 {
        CharAttr { bright: false, ..a }
    } else if code == 27 {
        CharAttr { inverse: false, ..a }
    } else if code == 28 {
        CharAttr { invisible: false, ..a }
    } else if 30 <= code <= 37 {
        CharAttr { fg: (code - 30) as u8, ..a }
    } else if 40 <= code <= 47 {
        CharAttr { bg: (code - 40) as u8, ..a }
    } else if 90 <= code <= 97 {
        CharAttr { fg: (code - 90) as u8, bright: true, ..a }
    } else if 100 <= code <= 107 {
        CharAttr { bg: (code - 100) as u8, ..a }
    } else {
        a
    }
}

/// The rendition after the SGR selectors of `params`, applied in order.
pub open spec fn sgr_fold(a: CharAttr, params: Seq<Seq<u16>>) -> CharAttr
    decreases params.len(),
{
    if params.len() == 0 {
        a
    } else {
        sgr_code(sgr_fold(a, params.drop_last()), sgr_selector(params.last()))
    }
}

/// The rendition after an SGR sequence: a sequence without parameters
/// resets it.
pub open spec fn sgr_result(a: CharAttr, params: Seq<Seq<u16>>) -> CharAttr {
    if params.len() == 0 {
        default_attr()
    } else {
        sgr_fold(a, params)
    }
}

/// The screen after a C0 control byte: backspace, tab, line feed and
/// carriage return act, the others are ignored.
pub open spec fn execute_effect(m: ScreenModel, byte: u8) -> ScreenModel {
    if byte == 0x08 {
        m.back()
    } else if byte == 0x09 {
        m.tab()
    } else if byte == 0x0a {
        m.line_feed()
    } else if byte == 0x0d {
        m.carriage_return()
    } else {
        m
    }
}

/// The screen after an escape sequence with final byte `byte`: `7` saves
/// the cursor, `8` restores it, `M` scrolls the region down a line.
pub open spec fn esc_effect(m: ScreenModel, byte: u8) -> ScreenModel {
    if byte == 0x37 {
        m.save_cursor()
    } else if byte == 0x38 {
        m.restore_cursor()
    } else if byte == 0x4d {
        m.scroll_down(1)
    } else {
        m
    }
}

/// The scroll region set by `CSI top ; bottom r` (one-based, the bottom
/// defaulting to the last line), kept inside the screen and never inverted.
pub open spec fn margins_effect(m: ScreenModel, params: Seq<Seq<u16>>) -> ScreenModel {
    let top = sat_sub(param_value(params, 0, 1), 1);
    let bottom = sat_sub(param_value(params, 1, m.rows), 1);
    let new_top = clamp(top, (m.rows - 1) as usize);
    let b = clamp(bottom, (m.rows - 1) as usize);
    ScreenModel { scroll_top: new_top, scroll_bottom: if b >= new_top { b } else { new_top }, ..m }
}

/// The screen and cursor visibility after a control sequence with final
/// character `action`.
pub open spec fn csi_effect(
    m: ScreenModel,
    visible: bool,
    params: Seq<Seq<u16>>,
    intermediates: Seq<u8>,
    ignore: bool,
    action: char,
) -> (ScreenModel, bool) {
    let n = param_value(params, 0, 1);
    let (row, col) = m.cursor;
    if ignore {
        (m, visible)
    } else if action == 'A' {
        (m.with_cursor(sat_sub(row, n), col), visible)
    } else if action == 'B' {
        (m.with_cursor(add_upto(row, n, (m.rows - 1) as usize), col), visible)
    } else if action == 'C' {
        (m.with_cursor(row, add_upto(col, n, (m.cols - 1) as usize)), visible)
    } else if action == 'D' {
        (m.with_cursor(row, sat_sub(col, n)), visible)
    } else if action == 'E' {
        (m.with_cursor(add_upto(row, n, (m.rows - 1) as usize), 0), visible)
    } else if action == 'F' {
        (m.with_cursor(sat_sub(row, n), 0), visible)
    } else if action == 'G' {
        (m.go_to_xy(sat_sub(n, 1), row), visible)
    } else if action == 'H' || action == 'f' {
        (m.go_to_xy(sat_sub(param_value(params, 1, 1), 1), sat_sub(n, 1)), visible)
    } else if action == 'J' {
        (m.clear_screen(param_value(params, 0, 0) as u8), visible)
    } else if action == 'K' {
        (m.erase_line(param_value(params, 0, 0) as u8), visible)
    } else if action == 'L' {
        (m.insert_lines(n), visible)
    } else if action == 'M' {
        (m.delete_lines(n), visible)
    } else if action == 'P' {
        (m.delete_char(n), visible)
    } else if action == '@' {
        (m.insert_char(n), visible)
    } else if action == 'm' {
        (m.with_attr(sgr_result(m.current_attr, params)), visible)
    } else if action == 'r' {
        (margins_effect(m, params), visible)
    } else if action == 's' {
        (m.save_cursor(), visible)
    } else if action == 'u' {
        (m.restore_cursor(), visible)
    } else if action == 'h' || action == 'l' {
        if intermediates.contains(0x3f) && param_value(params, 0, 0) == 25 {
            (m, action == 'h')
        } else {
            (m, visible)
        }
    } else {
        (m, visible)
    }
}

/// Carries out what a VT100 parser dispatches on a screen.
pub struct Vt100Performer<'a> {
    pub screen: &'a mut ScreenBuffer,
    pub cursor_visible: bool,
}

/// Whether `bytes` holds `b`.
fn contains_byte(bytes: &[u8], b: u8) -> (found: bool)
    ensures
        found == bytes@.contains(b),
{
    let mut i: usize = 0;
    while i < bytes.len()
        invariant
            i <= bytes@.len(),
            forall|j: int| 0 <= j < i ==> bytes@[j] != b,
        decreases bytes@.len() - i,
    {
        if bytes[i] == b {
            assert(bytes@[i as int] == b);
            return true;
        }
        i += 1;
    }
    false
}

impl<'a> Vt100Performer<'a> {
    /// Parameter `index`, or `default` where it is missing or zero.
    fn param_or(params: &Vec<Vec<u16>>, index: usize, default: usize) -> (v: usize)
        ensures
            v == param_value(params.deep_view(), index as int, default),
    {
        if index < params.len() {
            let p = &params[index];
            assert(params.deep_view()[index as int] =~= p@);
            if p.len() > 0 && p[0] > 0 {
                return p[0] as usize;
            }
        }
        default
    }

    /// Applies the SGR parameters to the current rendition.
    fn sgr(&mut self, params: &Vec<Vec<u16>>)
        ensures
            final(self).screen@ == old(self).screen@.with_attr(
                sgr_result(old(self).screen@.current_attr, params.deep_view()),
            ),
            final(self).cursor_visible == old(self).cursor_visible,
            *final(final(self).screen) == *final(old(self).screen),
    {
        if params.len() == 0 {
            self.screen.current_attr = CharAttr::default();
            return;
        }
        let ghost ps = params.deep_view();
        let ghost a0 = self.screen.current_attr;
        let mut i: usize = 0;
        assert(ps.take(0) =~= Seq::<Seq<u16>>::empty());
        while i < params.len()
            invariant
                i <= params@.len(),
                ps == params.deep_view(),
                ps.len() == params@.len(),
                self.screen@ == old(self).screen@.with_attr(sgr_fold(a0, ps.take(i as int))),
                self.cursor_visible == old(self).cursor_visible,
                *final(self.screen) == *final(old(self).screen),
            decreases params@.len() - i,
        {
            let p = &params[i];
            assert(ps[i as int] =~= p@);
            let code: u16 = if p.len() > 0 { p[0] } else { 0 };
            let a = &mut self.screen.current_attr;
            if code == 0 {
                *a = CharAttr::default();
            } else if code == 1 {
                a.bright = true;
            } else if code == 4 {
                a.underline = true;
            } else if code == 5 {
                a.blink = true;
            } else if code == 7 {
                a.inverse = true;
            } else if code == 8 {
                a.invisible = true;
            } else if code == 22 {
                a.bright = false;
            } else if code == 27 {
                a.inverse = false;
            } else if code == 28 {
                a.invisible = false;
            } else if 30 <= code && code <= 37 {
                a.fg = (code - 30) as u8;
            } else if 40 <= code && code <= 47 {
                a.bg = (code - 40) as u8;
            } else if 90 <= code && code <= 97 {
                a.fg = (code - 90) as u8;
                a.bright = true;
            } else if 100 <= code && code <= 107 {
                a.bg = (code - 100) as u8;
            }
            i += 1;
            assert(ps.take(i as int).drop_last() =~= ps.take(i - 1));
        }
        assert(ps.take(ps.len() as int) =~= ps);
    }

    /// Prints a character at the cursor.
    pub fn print(&mut self, c: char)
        requires
            old(self).screen@.wf(),
        ensures
            final(self).screen@.wf(),
            final(self).screen@ == old(self).screen@.put_char(c),
            final(self).cursor_visible == old(self).cursor_visible,
            *final(final(self).screen) == *final(old(self).screen),
    {
        self.screen.put_char(c);
    }

    /// Carries out a C0 control byte.
    pub fn execute(&mut self, byte: u8)
        requires
            old(self).screen@.wf(),
        ensures
            final(self).screen@.wf(),
            final(self).screen@ == execute_effect(old(self).screen@, byte),
            final(self).cursor_visible == old(self).cursor_visible,
            *final(final(self).screen) == *final(old(self).screen),
    {
        if byte == 0x08 {
            self.screen.back();
        } else if byte == 0x09 {
            self.screen.tab();
        } else if byte == 0x0a {
            self.screen.line_feed();
        } else if byte == 0x0d {
            self.screen.carriage_return();
        }
    }

    /// Carries out a control sequence (`ESC [` ... `action`).
    pub fn csi_dispatch(&mut self, params: &Vec<Vec<u16>>, intermediates: &[u8], ignore: bool, action: char)
        requires
            old(self).screen@.wf(),
        ensures
            final(self).screen@.wf(),
            (final(self).screen@, final(self).cursor_visible) == csi_effect(
                old(self).screen@,
                old(self).cursor_visible,
                params.deep_view(),
                intermediates@,
                ignore,
                action,
            ),
            *final(final(self).screen) == *final(old(self).screen),
    {
        if ignore {
            return;
        }
        let n = Self::param_or(params, 0, 1);
        let row = self.screen.cursor.0;
        let col = self.screen.cursor.1;
        let last_row = self.screen.rows - 1;
        let last_col = self.screen.cols - 1;
        if action == 'A' {
            self.screen.cursor.0 = if row >= n { row - n } else { 0 };
        } else if action == 'B' {
            self.screen.cursor.0 = if n < last_row - row { row + n } else { last_row };
        } else if action == 'C' {
            self.screen.cursor.1 = if n < last_col - col { col + n } else { last_col };
        } else if action == 'D' {
            self.screen.cursor.1 = if col >= n { col - n } else { 0 };
        } else if action == 'E' {
            self.screen.cursor.0 = if n < last_row - row { row + n } else { last_row };
            self.screen.cursor.1 = 0;
        } else if action == 'F' {
            self.screen.cursor.0 = if row >= n { row - n } else { 0 };
            self.screen.cursor.1 = 0;
        } else if action == 'G' {
            let target = if n >= 1 { n - 1 } else { 0 };
            self.screen.go_to_xy(target, row);
        } else if action == 'H' || action == 'f' {
            let r = if n >= 1 { n - 1 } else { 0 };
            let p1 = Self::param_or(params, 1, 1);
            let c = if p1 >= 1 { p1 - 1 } else { 0 };
            self.screen.go_to_xy(c, r);
        } else if action == 'J' {
            let mode = Self::param_or(params, 0, 0);
            self.screen.clear_screen(mode as u8);
        } else if action == 'K' {
            let mode = Self::param_or(params, 0, 0);
            self.screen.erase_line(mode as u8);
        } else if action == 'L' {
            self.screen.insert_lines(n);
        } else if action == 'M' {
            self.screen.delete_lines(n);
        } else if action == 'P' {
            self.screen.delete_char(n);
        } else if action == '@' {
            self.screen.insert_char(n);
        } else if action == 'm' {
            self.sgr(params);
        } else if action == 'r' {
            let top_param = n;
            let bottom_param = Self::param_or(params, 1, self.screen.rows);
            let top = if top_param >= 1 { top_param - 1 } else { 0 };
            let bottom = if bottom_param >= 1 { bottom_param - 1 } else { 0 };
            let new_top = if top < last_row { top } else { last_row };
            let b = if bottom < last_row { bottom } else { last_row };
            self.screen.scroll_top = new_top;
            self.screen.scroll_bottom = if b >= new_top { b } else { new_top };
        } else if action == 's' {
            self.screen.save_cursor();
        } else if action == 'u' {
            self.screen.restore_cursor();
        } else if action == 'h' || action == 'l' {
            let private_mode = contains_byte(intermediates, 0x3f);
            if private_mode {
                let mode = Self::param_or(params, 0, 0);
                if mode == 25 {
                    self.cursor_visible = action == 'h';
                }
            }
        }
    }

    /// Carries out an escape sequence with final byte `byte`.
    pub fn esc_dispatch(&mut self, intermediates: &[u8], ignore: bool, byte: u8)
        requires
            old(self).screen@.wf(),
        ensures
            final(self).screen@.wf(),
            final(self).screen@ == esc_effect(old(self).screen@, byte),
            final(self).cursor_visible == old(self).cursor_visible,
            *final(final(self).screen) == *final(old(self).screen),
    {
        if byte == 0x37 {
            self.screen.save_cursor();
        } else if byte == 0x38 {
            self.screen.restore_cursor();
        } else if byte == 0x4d {
            self.screen.scroll_down(1);
        }
    }
}

} // verus!
