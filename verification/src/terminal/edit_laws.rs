use vstd::prelude::*;

use super::grid::{blank_row, joined_text, lemma_shifted_down_step, lemma_shifted_up_step, lemma_shifted_zero, line_text};
use super::screen::ScreenModel;
use super::types::{blank_cell, default_attr, CharAttr, Charset, TermCell};

verus! {

/// A blank cell is a space, white on black with no flags, and a blank row
/// of `n` cells is `n` of them.
pub proof fn law_blank_cells(n: nat)
    ensures
        default_attr() == (CharAttr {
            fg: 7,
            bg: 0,
            bright: false,
            blink: false,
            underline: false,
            inverse: false,
            invisible: false,
            hyperlink: false,
            charset: Charset::Ascii,
            need_update: false,
        }),
        blank_cell() == (TermCell { ch: ' ', attr: default_attr() }),
        blank_row(n).len() == n,
        forall|i: int| 0 <= i < n ==> #[trigger] blank_row(n)[i] == blank_cell(),
{
}

/// Inserting `k` lines at the cursor line: at or above the bottom margin,
/// the lines from the cursor down to the one above the margin move down by
/// `k`, the first `k` of them (as far as they reach) become blank, and the
/// lines pushed past the one above the margin are lost; the margin line and
/// the lines outside that range stay. Below the margin, the lines from the
/// margin up to the one above the cursor move up by `k` and blanks come in
/// above the cursor. The cursor and every register stay.
pub proof fn law_insert_lines(m: ScreenModel, k: usize)
    requires
        m.wf(),
    ensures
        ({
            let a = m.insert_lines(k);
            let row = m.cursor.0 as int;
            let bottom = m.scroll_bottom as int;
            &&& a == (ScreenModel { grid: a.grid, ..m })
            &&& a.wf()
            &&& row <= bottom ==> forall|r: int|
                0 <= r < m.rows ==> #[trigger] a.grid[r] == (if row <= r < bottom {
                    if r < row + k {
                        blank_row(m.cols as nat)
                    } else {
                        m.grid[r - k]
                    }
                } else {
                    m.grid[r]
                })
            &&& row > bottom ==> forall|r: int|
                0 <= r < m.rows ==> #[trigger] a.grid[r] == (if bottom <= r < row {
                    if r + k < row {
                        m.grid[r + k]
                    } else {
                        blank_row(m.cols as nat)
                    }
                } else {
                    m.grid[r]
                })
        }),
{
}

/// Inserting `k + 1` lines is inserting `k` lines and then one more;
/// inserting none changes nothing.
pub proof fn law_insert_lines_one_at_a_time(m: ScreenModel, k: usize)
    requires
        m.wf(),
        k < usize::MAX,
    ensures
        m.insert_lines(k).insert_lines(1) == m.insert_lines((k + 1) as usize),
        m.insert_lines(0) == m,
{
    let row = m.cursor.0 as int;
    let bottom = m.scroll_bottom as int;
    if row <= bottom {
        lemma_shifted_down_step(m.grid, row, bottom - 1, k as int, m.cols as nat);
        lemma_shifted_zero(m.grid, row, bottom - 1, m.cols as nat);
    } else {
        lemma_shifted_up_step(m.grid, bottom, row - 1, k as int, m.cols as nat);
        lemma_shifted_zero(m.grid, bottom, row - 1, m.cols as nat);
    }
}

/// Deleting `k` lines at the cursor line: at or above the bottom margin,
/// the lines from the cursor to the margin move up by `k` and blank lines
/// fill the margin end; below the margin, the lines from the margin down to
/// the cursor move down by `k` and blank lines come in at the margin. The
/// cursor and every register stay.
pub proof fn law_delete_lines(m: ScreenModel, k: usize)
    requires
        m.wf(),
    ensures
        ({
            let a = m.delete_lines(k);
            let row = m.cursor.0 as int;
            let bottom = m.scroll_bottom as int;
            &&& a == (ScreenModel { grid: a.grid, ..m })
            &&& a.wf()
            &&& row <= bottom ==> forall|r: int|
                0 <= r < m.rows ==> #[trigger] a.grid[r] == (if row <= r <= bottom {
                    if r + k <= bottom {
                        m.grid[r + k]
                    } else {
                        blank_row(m.cols as nat)
                    }
                } else {
                    m.grid[r]
                })
            &&& row > bottom ==> forall|r: int|
                0 <= r < m.rows ==> #[trigger] a.grid[r] == (if bottom <= r <= row {
                    if r - k >= bottom {
                        m.grid[r - k]
                    } else {
                        blank_row(m.cols as nat)
                    }
                } else {
                    m.grid[r]
                })
        }),
{
}

/// Deleting `k + 1` lines is deleting `k` lines and then one more;
/// deleting none changes nothing.
pub proof fn law_delete_lines_one_at_a_time(m: ScreenModel, k: usize)
    requires
        m.wf(),
        k < usize::MAX,
    ensures
        m.delete_lines(k).delete_lines(1) == m.delete_lines((k + 1) as usize),
        m.delete_lines(0) == m,
{
    let row = m.cursor.0 as int;
    let bottom = m.scroll_bottom as int;
    if row <= bottom {
        lemma_shifted_up_step(m.grid, row, bottom, k as int, m.cols as nat);
        lemma_shifted_zero(m.grid, row, bottom, m.cols as nat);
    } else {
        lemma_shifted_down_step(m.grid, bottom, row, k as int, m.cols as nat);
        lemma_shifted_zero(m.grid, bottom, row, m.cols as nat);
    }
}

/// Scrolling the region up by `n` lines (one when `n` is zero): each line
/// of the region takes the line `n` below it, blank lines fill the bottom
/// of the region, and the lines outside it stay. Scrolling down is the
/// mirror image. The cursor and every register stay.
pub proof fn law_scroll_region(m: ScreenModel, n: usize)
    requires
        m.wf(),
    ensures
        ({
            let k: int = if n == 0 { 1 } else { n as int };
            let top = m.scroll_top as int;
            let bottom = m.scroll_bottom as int;
            let up = m.scroll_up(n);
            let down = m.scroll_down(n);
            &&& up == (ScreenModel { grid: up.grid, ..m })
            &&& down == (ScreenModel { grid: down.grid, ..m })
            &&& forall|r: int|
                0 <= r < m.rows ==> #[trigger] up.grid[r] == (if top <= r <= bottom {
                    if r + k <= bottom {
                        m.grid[r + k]
                    } else {
                        blank_row(m.cols as nat)
                    }
                } else {
                    m.grid[r]
                })
            &&& forall|r: int|
                0 <= r < m.rows ==> #[trigger] down.grid[r] == (if top <= r <= bottom {
                    if r - k >= top {
                        m.grid[r - k]
                    } else {
                        blank_row(m.cols as nat)
                    }
                } else {
                    m.grid[r]
                })
        }),
{
}

/// Inserting `n` cells at the cursor (at least one, at most a line): the
/// cells left of the cursor stay, `n` blank cells follow, then the cells
/// that were at the cursor, those pushed past the end of the line being
/// lost. Deleting `n` cells: the cells left of the cursor stay, the cells
/// `n` further right move up to the cursor, and blanks fill the end of the
/// line. Other lines, the cursor and every register stay.
pub proof fn law_insert_delete_chars(m: ScreenModel, n: usize)
    requires
        m.wf(),
    ensures
        ({
            let k: int = if n == 0 { 1 } else if n > m.cols { m.cols as int } else { n as int };
            let row = m.cursor.0 as int;
            let col = m.cursor.1 as int;
            let ins = m.insert_char(n);
            let del = m.delete_char(n);
            &&& ins == (ScreenModel { grid: ins.grid, ..m })
            &&& del == (ScreenModel { grid: del.grid, ..m })
            &&& ins.grid.len() == m.rows && del.grid.len() == m.rows
            &&& forall|r: int| 0 <= r < m.rows && r != row ==> #[trigger] ins.grid[r] == m.grid[r]
            &&& forall|r: int| 0 <= r < m.rows && r != row ==> #[trigger] del.grid[r] == m.grid[r]
            &&& ins.grid[row].len() == m.cols && del.grid[row].len() == m.cols
            &&& forall|c: int|
                0 <= c < m.cols ==> #[trigger] ins.grid[row][c] == (if c < col {
                    m.grid[row][c]
                } else if c < col + k {
                    blank_cell()
                } else {
                    m.grid[row][c - k]
                })
            &&& forall|c: int|
                0 <= c < m.cols ==> #[trigger] del.grid[row][c] == (if c < col {
                    m.grid[row][c]
                } else if c + k < m.cols {
                    m.grid[row][c + k]
                } else {
                    blank_cell()
                })
        }),
{
}

/// Erasing in the cursor line: mode 0 blanks the cells from the cursor to
/// the end of the line, mode 1 those from the start through the cursor,
/// mode 2 the whole line, and any other mode nothing. Other lines, the
/// cursor and every register stay.
pub proof fn law_erase_line(m: ScreenModel, mode: u8)
    requires
        m.wf(),
    ensures
        ({
            let row = m.cursor.0 as int;
            let col = m.cursor.1 as int;
            let e = m.erase_line(mode);
            &&& e == (ScreenModel { grid: e.grid, ..m })
            &&& e.grid.len() == m.rows
            &&& forall|r: int| 0 <= r < m.rows && r != row ==> #[trigger] e.grid[r] == m.grid[r]
            &&& e.grid[row].len() == m.cols
            &&& forall|c: int|
                0 <= c < m.cols ==> #[trigger] e.grid[row][c] == (if (mode == 0 && c >= col) || (mode == 1 && c
                    <= col) || mode == 2 {
                    blank_cell()
                } else {
                    m.grid[row][c]
                })
        }),
{
}

/// Erasing in the screen: mode 0 blanks from the cursor to the end of the
/// screen, mode 1 from the start of the screen through the cursor, mode 2
/// everything, and any other mode nothing. The cursor and every register
/// stay.
pub proof fn law_clear_screen(m: ScreenModel, mode: u8)
    requires
        m.wf(),
    ensures
        ({
            let row = m.cursor.0 as int;
            let col = m.cursor.1 as int;
            let e = m.clear_screen(mode);
            &&& e == (ScreenModel { grid: e.grid, ..m })
            &&& e.wf()
            &&& forall|r: int, c: int|
                0 <= r < m.rows && 0 <= c < m.cols ==> #[trigger] e.grid[r][c] == (if (mode == 0 && (r > row || (r
                    == row && c >= col))) || (mode == 1 && (r < row || (r == row && c <= col))) || mode == 2 {
                    blank_cell()
                } else {
                    m.grid[r][c]
                })
        }),
{
    law_erase_line(m, mode);
}

} // verus!

verus! {

/// Cursor motions change the cursor alone: a carriage return goes to the
/// first column; a backspace goes one column left, not past the first; a
/// line feed goes one line down above the bottom margin and, on or below
/// it, scrolls the region up by one line instead; moving to a position
/// clamps each coordinate to the last line and column; restoring goes to
/// the saved position (clamped the same way) if one was saved, and saving
/// records the cursor.
pub proof fn law_cursor_motions(m: ScreenModel, col: usize, row: usize)
    requires
        m.wf(),
    ensures
        m.carriage_return() == (ScreenModel { cursor: (m.cursor.0, 0usize), ..m }),
        m.cursor.1 > 0 ==> m.back() == (ScreenModel { cursor: (m.cursor.0, (m.cursor.1 - 1) as usize), ..m }),
        m.cursor.1 == 0 ==> m.back() == m,
        m.cursor.0 < m.scroll_bottom ==> m.line_feed() == (ScreenModel {
            cursor: ((m.cursor.0 + 1) as usize, m.cursor.1),
            ..m
        }),
        m.cursor.0 >= m.scroll_bottom ==> m.line_feed() == m.scroll_up(1),
        m.go_to_xy(col, row) == (ScreenModel {
            cursor: (
                if row < m.rows { row } else { (m.rows - 1) as usize },
                if col < m.cols { col } else { (m.cols - 1) as usize },
            ),
            ..m
        }),
        m.save_cursor() == (ScreenModel { saved_cursor: Some(m.cursor), ..m }),
        m.saved_cursor is None ==> m.restore_cursor() == m,
        m.saved_cursor matches Some((r, c)) ==> m.restore_cursor() == m.go_to_xy(c, r),
{
}

/// Printing `c` writes it under the cursor in the current rendition, marked
/// for redraw, and moves the cursor right by its width: one column for
/// every character below U+00A0, and otherwise its display width, or one
/// column where that is zero or unknown. When that reaches the right margin the
/// cursor goes to the start of the next line instead, and on or below the
/// bottom margin the region scrolls up a line, taking the written cell
/// with it. Nothing else changes.
pub proof fn law_put_char(m: ScreenModel, ch: char)
    requires
        m.wf(),
    ensures
        ({
            let row = m.cursor.0 as int;
            let col = m.cursor.1 as int;
            let cell = TermCell { ch: ch, attr: CharAttr { need_update: true, ..m.current_attr } };
            let written = m.grid.update(row, m.grid[row].update(col, cell));
            let w = super::screen::advance_of(ch);
            let p = m.put_char(ch);
            &&& (ch as u32) < 0xa0 ==> w == 1
            &&& (ch as u32) >= 0xa0 && super::screen::unicode_width_of(ch) is Some
                && super::screen::unicode_width_of(ch)->0 >= 1 ==> w == super::screen::unicode_width_of(ch)->0
            &&& (ch as u32) >= 0xa0 && !(super::screen::unicode_width_of(ch) is Some
                && super::screen::unicode_width_of(ch)->0 >= 1) ==> w == 1
            &&& w >= 1
            &&& col + w < m.cols ==> p == (ScreenModel { grid: written, cursor: (m.cursor.0, (col + w) as usize), ..m })
            &&& col + w >= m.cols && row < m.scroll_bottom ==> p == (ScreenModel {
                grid: written,
                cursor: ((row + 1) as usize, 0usize),
                ..m
            })
            &&& col + w >= m.cols && row >= m.scroll_bottom ==> p == (ScreenModel {
                grid: written,
                cursor: (m.cursor.0, 0usize),
                ..m
            }).scroll_up(1)
        }),
{
}

/// A tab fills the cells from the cursor up to the next multiple of eight
/// (or the last column, if that is nearer) with spaces in the current
/// rendition, marked for redraw, and moves the cursor there; where the
/// cursor is already there, nothing changes.
pub proof fn law_tab_fill(m: ScreenModel)
    requires
        m.wf(),
    ensures
        ({
            let row = m.cursor.0 as int;
            let col = m.cursor.1 as int;
            let next = (col / 8 + 1) * 8;
            let target: int = if next < m.cols - 1 { next } else { m.cols - 1 };
            let space = TermCell { ch: ' ', attr: CharAttr { need_update: true, ..m.current_attr } };
            let t = m.tab();
            &&& col >= target ==> t == m
            &&& col < target ==> t == (ScreenModel {
                grid: t.grid,
                cursor: (m.cursor.0, target as usize),
                ..m
            })
            &&& t.grid.len() == m.rows
            &&& forall|r: int| 0 <= r < m.rows && r != row ==> #[trigger] t.grid[r] == m.grid[r]
            &&& t.grid[row].len() == m.cols
            &&& forall|c: int|
                0 <= c < m.cols ==> #[trigger] t.grid[row][c] == (if col <= c < target {
                    space
                } else {
                    m.grid[row][c]
                })
        }),
{
}

/// Resizing to `rows` by `cols` (each at least one) keeps every cell that
/// both sizes have and blanks the others, clamps the cursor to the new
/// screen, makes the whole screen the scroll region, and keeps the saved
/// cursor and the current rendition.
pub proof fn law_resize(m: ScreenModel, rows: usize, cols: usize)
    requires
        m.wf(),
    ensures
        ({
            let nr: usize = if rows == 0 { 1 } else { rows };
            let nc: usize = if cols == 0 { 1 } else { cols };
            let z = m.resize(rows, cols);
            &&& z.wf()
            &&& z.rows == nr && z.cols == nc
            &&& z.cursor == (
                if m.cursor.0 < nr { m.cursor.0 } else { (nr - 1) as usize },
                if m.cursor.1 < nc { m.cursor.1 } else { (nc - 1) as usize },
            )
            &&& z.scroll_top == 0 && z.scroll_bottom == nr - 1
            &&& z.saved_cursor == m.saved_cursor && z.current_attr == m.current_attr
            &&& forall|r: int, c: int|
                0 <= r < nr && 0 <= c < nc ==> #[trigger] z.grid[r][c] == (if r < m.rows && c < m.cols {
                    m.grid[r][c]
                } else {
                    blank_cell()
                })
        }),
{
}

} // verus!

verus! {

/// The text of a line is its characters in order; the text of the screen
/// is the text of its lines one after another, a newline between each two
/// and none after the last.
pub proof fn law_screen_text(line: Seq<TermCell>, lines: Seq<Seq<TermCell>>)
    ensures
        line_text(line).len() == line.len(),
        forall|i: int| 0 <= i < line.len() ==> #[trigger] line_text(line)[i] == line[i].ch,
        joined_text(Seq::empty()) == Seq::<char>::empty(),
        joined_text(seq![line]) == line_text(line),
        lines.len() > 0 ==> joined_text(lines.push(line)) == joined_text(lines) + seq!['\n'] + line_text(line),
{
    assert(lines.push(line).drop_last() =~= lines);
}

} // verus!
