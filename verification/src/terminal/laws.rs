use vstd::prelude::*;

use super::grid::{blank_row, resized_row};
use super::screen::ScreenModel;
use super::types::{blank_cell, default_attr, CharAttr, Charset};
use super::vt100::{param_value, sat_sub, csi_effect, esc_effect, execute_effect, sgr_fold, sgr_result, sgr_selector};

verus! {

/// Clearing the whole screen leaves every cell blank, and the cursor and
/// registers where they were.
pub proof fn law_clear_screen_all_blank(m: ScreenModel)
    requires
        m.wf(),
    ensures
        m.clear_screen(2).wf(),
        forall|r: int, c: int|
            0 <= r < m.rows && 0 <= c < m.cols ==> #[trigger] m.clear_screen(2).grid[r][c] == blank_cell(),
        m.clear_screen(2).cursor == m.cursor,
{
}

/// Scrolling up one line moves each line of the scroll region up by one,
/// blanks its bottom line, and leaves the lines outside the region alone.
pub proof fn law_scroll_up_one_line(m: ScreenModel)
    requires
        m.wf(),
    ensures
        m.scroll_up(1).wf(),
        forall|r: int| m.scroll_top <= r < m.scroll_bottom ==> #[trigger] m.scroll_up(1).grid[r] == m.grid[r + 1],
        m.scroll_up(1).grid[m.scroll_bottom as int] == blank_row(m.cols as nat),
        forall|r: int|
            0 <= r < m.rows && !(m.scroll_top <= r <= m.scroll_bottom) ==> #[trigger] m.scroll_up(1).grid[r]
                == m.grid[r],
{
}

/// Scrolling down one line moves each line of the scroll region down by
/// one and blanks its top line.
pub proof fn law_scroll_down_one_line(m: ScreenModel)
    requires
        m.wf(),
    ensures
        m.scroll_down(1).wf(),
        forall|r: int| m.scroll_top < r <= m.scroll_bottom ==> #[trigger] m.scroll_down(1).grid[r] == m.grid[r - 1],
        m.scroll_down(1).grid[m.scroll_top as int] == blank_row(m.cols as nat),
{
}

/// Restoring the cursor after saving it brings it back to where it was
/// saved, wherever it moved in between.
pub proof fn law_save_restore_cursor(m: ScreenModel, col: usize, row: usize)
    requires
        m.wf(),
    ensures
        m.save_cursor().go_to_xy(col, row).restore_cursor().cursor == m.cursor,
{
}

/// Deleting what an insertion of `n` cells made room for gives the line
/// back, except that its last cells (as many as were inserted, and none
/// left of the cursor) are now blank.
pub proof fn law_insert_then_delete_chars(m: ScreenModel, n: usize)
    requires
        m.wf(),
    ensures
        ({
            let after = m.insert_char(n).delete_char(n);
            let row = m.cursor.0 as int;
            let k = m.char_count(n) as int;
            &&& after.wf()
            &&& after.cursor == m.cursor
            &&& forall|c: int|
                0 <= c < m.cols ==> #[trigger] after.grid[row][c] == (if c >= m.cursor.1 && c >= m.cols - k {
                    blank_cell()
                } else {
                    m.grid[row][c]
                })
            &&& forall|r: int| 0 <= r < m.rows && r != row ==> #[trigger] after.grid[r] == m.grid[r]
        }),
{
}

/// Resizing a screen to its own size keeps every cell and the cursor.
pub proof fn law_resize_same_size(m: ScreenModel)
    requires
        m.wf(),
    ensures
        m.resize(m.rows, m.cols).grid == m.grid,
        m.resize(m.rows, m.cols).cursor == m.cursor,
        m.resize(m.rows, m.cols).wf(),
{
    assert forall|r: int| 0 <= r < m.rows implies #[trigger] resized_row(
        m.grid,
        m.rows as int,
        m.cols as int,
        r,
        m.cols as nat,
    ) =~= m.grid[r] by {}
    assert(m.resize(m.rows, m.cols).grid =~= m.grid);
}

/// A tab moves the cursor right to the next multiple of eight, or to the
/// last column when that is nearer, and never left.
pub proof fn law_tab_stop(m: ScreenModel)
    requires
        m.wf(),
    ensures
        m.tab().wf(),
        m.tab().cursor.0 == m.cursor.0,
        m.tab().cursor.1 >= m.cursor.1,
        m.tab().cursor.1 % 8 == 0 || m.tab().cursor.1 == m.cols - 1,
        m.tab().cursor.1 <= m.cursor.1 + 8,
{
    let col = m.cursor.1 as int;
    assert((col / 8 + 1) * 8 > col && (col / 8 + 1) * 8 <= col + 8 && ((col / 8 + 1) * 8) % 8 == 0)
        by (nonlinear_arith)
        requires
            col >= 0,
    ;
}

/// SGR without parameters, or with parameter 0, restores the default
/// rendition.
pub proof fn law_sgr_reset(a: CharAttr)
    ensures
        sgr_result(a, Seq::empty()) == default_attr(),
        sgr_result(a, seq![seq![0u16]]) == default_attr(),
{
    assert(seq![seq![0u16]].drop_last() =~= Seq::<Seq<u16>>::empty());
}

/// SGR 30 to 37 selects foreground colour 0 to 7, and SGR 40 to 47 the
/// background colour; nothing else changes.
pub proof fn law_sgr_colors(a: CharAttr, code: u16)
    ensures
        30 <= code <= 37 ==> sgr_result(a, seq![seq![code]]) == (CharAttr { fg: (code - 30) as u8, ..a }),
        40 <= code <= 47 ==> sgr_result(a, seq![seq![code]]) == (CharAttr { bg: (code - 40) as u8, ..a }),
{
    let ps = seq![seq![code]];
    assert(ps.drop_last() =~= Seq::<Seq<u16>>::empty());
    assert(ps.last() == seq![code]);
    assert(sgr_selector(seq![code]) == code);
    reveal_with_fuel(sgr_fold, 2);
}

/// What each SGR selector does to a rendition `a`, alone in its sequence:
/// 0 restores white on black with no flags; 1, 4, 5, 7 and 8 turn on bold,
/// underline, blink, reverse video and concealment; 22, 27 and 28 turn off
/// bold, reverse video and concealment; 30 to 37 and 40 to 47 select the
/// foreground and background colour; 90 to 97 select a bright foreground
/// and 100 to 107 a background by the same offsets; every other selector
/// leaves the rendition as it is. Each changes only what it names.
pub proof fn law_sgr_selectors(a: CharAttr, code: u16)
    ensures
        ({
            let r = sgr_result(a, seq![seq![code]]);
            &&& code == 0 ==> r == (CharAttr {
                fg: 7,
                bg: 0,
                bright: false,
                blink: false,
                underline: false,
                inverse: false,
                invisible: false,
                hyperlink: false,
                charset: Charset::Ascii,
                need_update: false,
            })
            &&& code == 1 ==> r == (CharAttr { bright: true, ..a })
            &&& code == 4 ==> r == (CharAttr { underline: true, ..a })
            &&& code == 5 ==> r == (CharAttr { blink: true, ..a })
            &&& code == 7 ==> r == (CharAttr { inverse: true, ..a })
            &&& code == 8 ==> r == (CharAttr { invisible: true, ..a })
            &&& code == 22 ==> r == (CharAttr { bright: false, ..a })
            &&& code == 27 ==> r == (CharAttr { inverse: false, ..a })
            &&& code == 28 ==> r == (CharAttr { invisible: false, ..a })
            &&& 30 <= code <= 37 ==> r == (CharAttr { fg: (code - 30) as u8, ..a })
            &&& 40 <= code <= 47 ==> r == (CharAttr { bg: (code - 40) as u8, ..a })
            &&& 90 <= code <= 97 ==> r == (CharAttr { fg: (code - 90) as u8, bright: true, ..a })
            &&& 100 <= code <= 107 ==> r == (CharAttr { bg: (code - 100) as u8, ..a })
            &&& !(code == 0 || code == 1 || code == 4 || code == 5 || code == 7 || code == 8 || code == 22
                || code == 27 || code == 28 || 30 <= code <= 37 || 40 <= code <= 47 || 90 <= code <= 97
                || 100 <= code <= 107) ==> r == a
        }),
{
    let ps = seq![seq![code]];
    assert(ps.drop_last() =~= Seq::<Seq<u16>>::empty());
    assert(ps.last() == seq![code]);
    assert(sgr_selector(seq![code]) == code);
    reveal_with_fuel(sgr_fold, 2);
}

/// An SGR sequence applies its parameters from left to right: the
/// rendition after parameters `ps` and then `p` is the rendition after `ps`
/// with `p` applied to it alone. A parameter is read by its first
/// sub-parameter, and an empty parameter (as in `CSI ; m`) counts as 0, the
/// reset; a sequence with no parameters at all resets the rendition too.
pub proof fn law_sgr_in_order(a: CharAttr, ps: Seq<Seq<u16>>, p: Seq<u16>)
    ensures
        ps.len() > 0 ==> sgr_result(a, ps.push(p)) == sgr_result(sgr_result(a, ps), seq![p]),
        p.len() > 0 ==> sgr_result(a, seq![p]) == sgr_result(a, seq![seq![p[0]]]),
        sgr_result(a, seq![Seq::<u16>::empty()]) == sgr_result(a, seq![seq![0u16]]),
        sgr_result(a, Seq::<Seq<u16>>::empty()) == sgr_result(a, seq![seq![0u16]]),
{
    let one = seq![p];
    assert(one.drop_last() =~= Seq::<Seq<u16>>::empty());
    assert(ps.push(p).drop_last() =~= ps);
    let e = seq![Seq::<u16>::empty()];
    assert(e.drop_last() =~= Seq::<Seq<u16>>::empty());
    if p.len() > 0 {
        let q = seq![seq![p[0]]];
        assert(q.drop_last() =~= Seq::<Seq<u16>>::empty());
        assert(sgr_selector(seq![p[0]]) == p[0]);
    }
    law_sgr_reset(a);
    reveal_with_fuel(sgr_fold, 2);
}

/// Each attribute that SGR turns on has a selector that turns it off
/// again: 22 undoes 1 (bold), 27 undoes 7 (reverse video) and 28 undoes 8
/// (concealment), leaving every other part of the rendition as it was.
pub proof fn law_sgr_off_undoes_on(a: CharAttr)
    ensures
        sgr_result(sgr_result(a, seq![seq![1u16]]), seq![seq![22u16]]) == (CharAttr { bright: false, ..a }),
        sgr_result(sgr_result(a, seq![seq![7u16]]), seq![seq![27u16]]) == (CharAttr { inverse: false, ..a }),
        sgr_result(sgr_result(a, seq![seq![8u16]]), seq![seq![28u16]]) == (CharAttr { invisible: false, ..a }),
{
    law_sgr_selectors(a, 1);
    law_sgr_selectors(a, 7);
    law_sgr_selectors(a, 8);
    law_sgr_selectors(CharAttr { bright: true, ..a }, 22);
    law_sgr_selectors(CharAttr { inverse: true, ..a }, 27);
    law_sgr_selectors(CharAttr { invisible: true, ..a }, 28);
}

} // verus!

verus! {

/// Every operation keeps a screen well formed: the grid keeps its shape,
/// the cursor stays on it and the scroll region inside it.
pub proof fn law_operations_keep_screen_valid(
    m: ScreenModel,
    c: char,
    n: usize,
    mode: u8,
    col: usize,
    row: usize,
    rows: usize,
    cols: usize,
)
    requires
        m.wf(),
    ensures
        m.put_char(c).wf(),
        m.carriage_return().wf(),
        m.line_feed().wf(),
        m.back().wf(),
        m.tab().wf(),
        m.go_to_xy(col, row).wf(),
        m.scroll_up(n).wf(),
        m.scroll_down(n).wf(),
        m.erase_line(mode).wf(),
        m.clear_screen(mode).wf(),
        m.insert_char(n).wf(),
        m.delete_char(n).wf(),
        m.insert_lines(n).wf(),
        m.delete_lines(n).wf(),
        m.save_cursor().wf(),
        m.restore_cursor().wf(),
        m.resize(rows, cols).wf(),
{
}

} // verus!

verus! {

/// Whatever a VT100 parser dispatches (a control byte, an escape sequence
/// or a control sequence with any parameters), the screen stays well formed.
#[verifier::rlimit(40)]
pub proof fn law_dispatch_keeps_screen_valid(
    m: ScreenModel,
    visible: bool,
    params: Seq<Seq<u16>>,
    intermediates: Seq<u8>,
    ignore: bool,
    action: char,
    byte: u8,
)
    requires
        m.wf(),
    ensures
        execute_effect(m, byte).wf(),
        esc_effect(m, byte).wf(),
        csi_effect(m, visible, params, intermediates, ignore, action).0.wf(),
{
    let n = param_value(params, 0, 1);
    let mode = param_value(params, 0, 0) as u8;
    law_operations_keep_screen_valid(m, ' ', 1, 0, 0, 0, 1, 1);
    law_operations_keep_screen_valid(m, ' ', n, mode, sat_sub(n, 1), m.cursor.0, 1, 1);
    law_operations_keep_screen_valid(m, ' ', n, mode, sat_sub(param_value(params, 1, 1), 1), sat_sub(n, 1), 1, 1);
}

} // verus!
