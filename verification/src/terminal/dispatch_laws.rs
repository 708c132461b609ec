use vstd::prelude::*;

use super::screen::ScreenModel;
use super::vt100::{csi_effect, esc_effect, execute_effect, param_value, sgr_result};

verus! {

/// A control sequence parameter is read by its first sub-parameter; a
/// missing parameter, an empty one, or zero gives the default.
pub proof fn law_param_value(params: Seq<Seq<u16>>, index: int, default: usize)
    ensures
        !(0 <= index < params.len()) ==> param_value(params, index, default) == default,
        0 <= index < params.len() && params[index].len() == 0 ==> param_value(params, index, default) == default,
        0 <= index < params.len() && params[index].len() > 0 && params[index][0] == 0 ==> param_value(
            params,
            index,
            default,
        ) == default,
        0 <= index < params.len() && params[index].len() > 0 && params[index][0] > 0 ==> param_value(
            params,
            index,
            default,
        ) == params[index][0] as usize,
{
}

/// The control bytes that act: BS (8) moves back, HT (9) tabs, LF (10)
/// feeds a line, CR (13) returns the carriage; every other control byte is
/// ignored. Of the escape sequences, `ESC 7` saves the cursor, `ESC 8`
/// restores it and `ESC M` scrolls the region down one line; the others are
/// ignored.
pub proof fn law_control_bytes(m: ScreenModel, byte: u8)
    ensures
        execute_effect(m, 8) == m.back(),
        execute_effect(m, 9) == m.tab(),
        execute_effect(m, 10) == m.line_feed(),
        execute_effect(m, 13) == m.carriage_return(),
        !(byte == 8 || byte == 9 || byte == 10 || byte == 13) ==> execute_effect(m, byte) == m,
        esc_effect(m, 0x37) == m.save_cursor(),
        esc_effect(m, 0x38) == m.restore_cursor(),
        esc_effect(m, 0x4d) == m.scroll_down(1),
        !(byte == 0x37 || byte == 0x38 || byte == 0x4d) ==> esc_effect(m, byte) == m,
{
}

/// Cursor movement by control sequences with a count `n` (a missing count
/// is one): `A` up, `B` down, `C` right, `D` left, each stopping at the
/// edge of the screen; `E` and `F` down and up to the first column. Nothing
/// but the cursor changes.
pub proof fn law_csi_cursor_moves(m: ScreenModel, visible: bool, n: u16, inter: Seq<u8>)
    requires
        m.wf(),
        n > 0,
    ensures
        ({
            let ps = seq![seq![n]];
            let row = m.cursor.0;
            let col = m.cursor.1;
            let up: usize = if row >= n { (row - n) as usize } else { 0 };
            let down: usize = if row + n < m.rows - 1 { (row + n) as usize } else { (m.rows - 1) as usize };
            let right: usize = if col + n < m.cols - 1 { (col + n) as usize } else { (m.cols - 1) as usize };
            let left: usize = if col >= n { (col - n) as usize } else { 0 };
            &&& csi_effect(m, visible, ps, inter, false, 'A') == (ScreenModel { cursor: (up, col), ..m }, visible)
            &&& csi_effect(m, visible, ps, inter, false, 'B') == (ScreenModel { cursor: (down, col), ..m }, visible)
            &&& csi_effect(m, visible, ps, inter, false, 'C') == (ScreenModel { cursor: (row, right), ..m }, visible)
            &&& csi_effect(m, visible, ps, inter, false, 'D') == (ScreenModel { cursor: (row, left), ..m }, visible)
            &&& csi_effect(m, visible, ps, inter, false, 'E') == (ScreenModel { cursor: (down, 0usize), ..m }, visible)
            &&& csi_effect(m, visible, ps, inter, false, 'F') == (ScreenModel { cursor: (up, 0usize), ..m }, visible)
            &&& csi_effect(m, visible, Seq::empty(), inter, false, 'A') == csi_effect(
                m,
                visible,
                seq![seq![1u16]],
                inter,
                false,
                'A',
            )
        }),
{
}

/// Absolute cursor positions, one-based: `CSI r ; c H` (or `f`) moves to
/// line `r`, column `c`, and `CSI c G` to column `c` of the cursor line,
/// each clamped to the screen; without parameters `H` goes home.
pub proof fn law_csi_positions(m: ScreenModel, visible: bool, r: u16, c: u16, inter: Seq<u8>)
    requires
        m.wf(),
        r > 0,
        c > 0,
    ensures
        ({
            let to_row: usize = if r - 1 < m.rows { (r - 1) as usize } else { (m.rows - 1) as usize };
            let to_col: usize = if c - 1 < m.cols { (c - 1) as usize } else { (m.cols - 1) as usize };
            &&& csi_effect(m, visible, seq![seq![r], seq![c]], inter, false, 'H') == (ScreenModel {
                cursor: (to_row, to_col),
                ..m
            }, visible)
            &&& csi_effect(m, visible, seq![seq![r], seq![c]], inter, false, 'f') == (ScreenModel {
                cursor: (to_row, to_col),
                ..m
            }, visible)
            &&& csi_effect(m, visible, Seq::empty(), inter, false, 'H') == (ScreenModel {
                cursor: (0usize, 0usize),
                ..m
            }, visible)
            &&& csi_effect(m, visible, seq![seq![c]], inter, false, 'G') == (ScreenModel {
                cursor: (m.cursor.0, to_col),
                ..m
            }, visible)
        }),
{
}

/// Editing sequences carry out the editing operation with their count (one
/// when it is missing or zero): `L` inserts lines, `M` deletes lines, `P`
/// deletes characters, `@` inserts characters. `J` and `K` erase in the
/// screen and in the line with their mode (zero when missing).
pub proof fn law_csi_edits(m: ScreenModel, visible: bool, n: u16, inter: Seq<u8>)
    requires
        m.wf(),
        n > 0,
    ensures
        ({
            let ps = seq![seq![n]];
            let k = n as usize;
            &&& csi_effect(m, visible, ps, inter, false, 'L') == (m.insert_lines(k), visible)
            &&& csi_effect(m, visible, ps, inter, false, 'M') == (m.delete_lines(k), visible)
            &&& csi_effect(m, visible, ps, inter, false, 'P') == (m.delete_char(k), visible)
            &&& csi_effect(m, visible, ps, inter, false, '@') == (m.insert_char(k), visible)
            &&& csi_effect(m, visible, Seq::empty(), inter, false, 'L') == (m.insert_lines(1), visible)
            &&& csi_effect(m, visible, Seq::empty(), inter, false, 'M') == (m.delete_lines(1), visible)
            &&& csi_effect(m, visible, Seq::empty(), inter, false, 'P') == (m.delete_char(1), visible)
            &&& csi_effect(m, visible, Seq::empty(), inter, false, '@') == (m.insert_char(1), visible)
            &&& csi_effect(m, visible, seq![seq![0u16]], inter, false, 'L') == (m.insert_lines(1), visible)
            &&& n <= 255 ==> csi_effect(m, visible, ps, inter, false, 'J') == (m.clear_screen(n as u8), visible)
            &&& n <= 255 ==> csi_effect(m, visible, ps, inter, false, 'K') == (m.erase_line(n as u8), visible)
            &&& csi_effect(m, visible, Seq::empty(), inter, false, 'J') == (m.clear_screen(0), visible)
            &&& csi_effect(m, visible, Seq::empty(), inter, false, 'K') == (m.erase_line(0), visible)
        }),
{
}

/// The remaining sequences: `m` sets the current rendition by its
/// parameters; `CSI t ; b r` sets the scroll region to lines `t` to `b`
/// (one-based, kept on the screen, the bottom never above the top; without
/// parameters the whole screen); `s` and `u` save and restore the cursor;
/// `CSI ? 25 h` shows the cursor and `CSI ? 25 l` hides it, while other
/// modes, or `h` and `l` without `?`, change nothing. An ignored sequence,
/// or one with another final character, changes nothing.
pub proof fn law_csi_registers(
    m: ScreenModel,
    visible: bool,
    params: Seq<Seq<u16>>,
    inter: Seq<u8>,
    t: u16,
    b: u16,
    action: char,
)
    requires
        m.wf(),
        t > 0,
        b > 0,
    ensures
        csi_effect(m, visible, params, inter, false, 'm') == (ScreenModel {
            current_attr: sgr_result(m.current_attr, params),
            ..m
        }, visible),
        ({
            let top: usize = if t - 1 < m.rows - 1 { (t - 1) as usize } else { (m.rows - 1) as usize };
            let b0: usize = if b - 1 < m.rows - 1 { (b - 1) as usize } else { (m.rows - 1) as usize };
            let bottom: usize = if b0 >= top { b0 } else { top };
            csi_effect(m, visible, seq![seq![t], seq![b]], inter, false, 'r') == (ScreenModel {
                scroll_top: top,
                scroll_bottom: bottom,
                ..m
            }, visible)
        }),
        csi_effect(m, visible, Seq::empty(), inter, false, 'r') == (ScreenModel {
            scroll_top: 0,
            scroll_bottom: (m.rows - 1) as usize,
            ..m
        }, visible),
        csi_effect(m, visible, params, inter, false, 's') == (m.save_cursor(), visible),
        csi_effect(m, visible, params, inter, false, 'u') == (m.restore_cursor(), visible),
        inter.contains(0x3f) ==> csi_effect(m, visible, seq![seq![25u16]], inter, false, 'h') == (m, true),
        inter.contains(0x3f) ==> csi_effect(m, visible, seq![seq![25u16]], inter, false, 'l') == (m, false),
        !inter.contains(0x3f) ==> csi_effect(m, visible, params, inter, false, 'h') == (m, visible),
        !inter.contains(0x3f) ==> csi_effect(m, visible, params, inter, false, 'l') == (m, visible),
        t != 25 ==> csi_effect(m, visible, seq![seq![t]], inter, false, 'h') == (m, visible),
        csi_effect(m, visible, params, inter, true, action) == (m, visible),
        !(action == 'A' || action == 'B' || action == 'C' || action == 'D' || action == 'E' || action == 'F'
            || action == 'G' || action == 'H' || action == 'f' || action == 'J' || action == 'K' || action == 'L'
            || action == 'M' || action == 'P' || action == '@' || action == 'm' || action == 'r' || action == 's'
            || action == 'u' || action == 'h' || action == 'l') ==> csi_effect(m, visible, params, inter, false, action)
            == (m, visible),
{
}

} // verus!
