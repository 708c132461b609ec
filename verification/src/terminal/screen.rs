use vstd::prelude::*;
use unicode_width::UnicodeWidthChar;

use super::grid::{resized_grid, resized_row, blank_row, blanked_rows, closed_at, erased, filled, joined_text, line_text, opened_at, grid_of, lemma_shifted_down_step, lemma_shifted_up_step, lemma_shifted_zero, shifted_down, shifted_up};
use crate::text::push_char;
use super::types::{default_attr, CharAttr, TermCell};

verus! {

broadcast use {super::grid::lemma_grid_of_update, super::grid::lemma_grid_of_index};

/// What `UnicodeWidthChar::width` returns for a character.
pub uninterp spec fn unicode_width_of(c: char) -> Option<usize>;

/// Calls `UnicodeWidthChar::width` of the `unicode-width` crate. Its source
/// answers `None` below U+0020 and from U+007F to U+009F (control codes),
/// `Some(1)` from U+0020 to U+007E, and a table lookup from U+00A0 on; the
/// contract states these ranges and leaves the table value unnamed.
#[verifier::external_body]
pub(crate) fn char_width(c: char) -> (w: Option<usize>)
    ensures
        w == unicode_width_of(c),
        (c as u32) < 0x20 ==> w is None,
        0x20 <= (c as u32) < 0x7f ==> w == Some(1usize),
        0x7f <= (c as u32) < 0xa0 ==> w is None,
        0xa0 <= (c as u32) ==> w is Some,
{
    UnicodeWidthChar::width(c)
}

/// Number of columns the cursor advances after printing `c`: the display
/// width, with control characters and zero-width characters counted as one.
pub open spec fn advance_of(c: char) -> usize {
    if (c as u32) < 0xa0 {
        1
    } else {
        match unicode_width_of(c) {
            Some(w) => if w >= 1 { w } else { 1 },
            None => 1,
        }
    }
}

/// The smaller of `v` and `limit`.
pub open spec fn clamp(v: usize, limit: usize) -> usize {
    if v < limit { v } else { limit }
}

/// The last index below `n`, or zero when `n` is zero.
pub open spec fn last_index(n: usize) -> usize {
    if n >= 1 { (n - 1) as usize } else { 0 }
}

/// The abstract state of a screen: the grid of cells row by row, and the
/// registers that the terminal keeps beside it.
pub struct ScreenModel {
    pub rows: usize,
    pub cols: usize,
    pub grid: Seq<Seq<TermCell>>,
    pub cursor: (usize, usize),
    pub scroll_top: usize,
    pub scroll_bottom: usize,
    pub saved_cursor: Option<(usize, usize)>,
    pub current_attr: CharAttr,
}

impl ScreenModel {
    /// At least one row and one column, a grid of exactly that shape, the
    /// cursor on the grid, and a scroll region inside it.
    pub open spec fn wf(self) -> bool {
        &&& self.rows >= 1
        &&& self.cols >= 1
        &&& self.grid.len() == self.rows
        &&& forall|r: int| 0 <= r < self.rows ==> (#[trigger] self.grid[r]).len() == self.cols
        &&& self.cursor.0 < self.rows
        &&& self.cursor.1 < self.cols
        &&& self.scroll_top <= self.scroll_bottom < self.rows
    }

    /// The same state with another grid.
    pub open spec fn with_grid(self, g: Seq<Seq<TermCell>>) -> ScreenModel {
        ScreenModel { grid: g, ..self }
    }

    /// The same state with the cursor elsewhere.
    pub open spec fn with_cursor(self, row: usize, col: usize) -> ScreenModel {
        ScreenModel { cursor: (row, col), ..self }
    }

    /// The same state with another current rendition.
    pub open spec fn with_attr(self, a: CharAttr) -> ScreenModel {
        ScreenModel { current_attr: a, ..self }
    }

    pub open spec fn carriage_return(self) -> ScreenModel {
        self.with_cursor(self.cursor.0, 0)
    }

    /// Scrolling the region up by `n` lines (at least one).
    pub open spec fn scroll_up(self, n: usize) -> ScreenModel {
        let k = if n < 1 { 1 } else { n };
        self.with_grid(
            shifted_up(self.grid, self.scroll_top as int, self.scroll_bottom as int, k as int, self.cols as nat),
        )
    }

    /// Scrolling the region down by `n` lines (at least one).
    pub open spec fn scroll_down(self, n: usize) -> ScreenModel {
        let k = if n < 1 { 1 } else { n };
        self.with_grid(
            shifted_down(self.grid, self.scroll_top as int, self.scroll_bottom as int, k as int, self.cols as nat),
        )
    }

    /// A line feed at or below the bottom margin scrolls the region by one
    /// line; elsewhere it moves the cursor one row down.
    pub open spec fn line_feed(self) -> ScreenModel {
        if self.cursor.0 >= self.scroll_bottom {
            self.scroll_up(1)
        } else {
            self.with_cursor((self.cursor.0 + 1) as usize, self.cursor.1)
        }
    }

    /// Printing `c`: the cell under the cursor takes `c` in the current
    /// rendition marked for redraw; the cursor advances by the width of `c`,
    /// and wraps to the start of the next line when that reaches the margin.
    pub open spec fn put_char(self, c: char) -> ScreenModel {
        let (row, col) = self.cursor;
        if row >= self.rows || col >= self.cols {
            self
        } else {
            let cell = TermCell { ch: c, attr: CharAttr { need_update: true, ..self.current_attr } };
            let written = self.with_grid(self.grid.update(row as int, self.grid[row as int].update(col as int, cell)));
            if advance_of(c) >= self.cols - col {
                written.carriage_return().line_feed()
            } else {
                written.with_cursor(row, (col + advance_of(c)) as usize)
            }
        }
    }

    /// Moves the cursor one column left, stopping at the first column.
    pub open spec fn back(self) -> ScreenModel {
        if self.cursor.1 > 0 {
            self.with_cursor(self.cursor.0, (self.cursor.1 - 1) as usize)
        } else {
            self
        }
    }

    /// Moves the cursor to `row`, `col`, each clamped to the last line and
    /// column.
    pub open spec fn go_to_xy(self, col: usize, row: usize) -> ScreenModel {
        self.with_cursor(clamp(row, last_index(self.rows)), clamp(col, last_index(self.cols)))
    }

    /// The next multiple of eight right of the cursor, or the last column.
    pub open spec fn tab_stop(self) -> usize {
        let next = (self.cursor.1 / 8 + 1) * 8;
        if next < last_index(self.cols) {
            next as usize
        } else {
            last_index(self.cols)
        }
    }

    /// Fills the line from the cursor up to the next tab stop with spaces
    /// in the current rendition, and moves the cursor there.
    pub open spec fn tab(self) -> ScreenModel {
        let (row, col) = self.cursor;
        let target = self.tab_stop();
        if col >= target {
            self
        } else {
            let space = TermCell { ch: ' ', attr: CharAttr { need_update: true, ..self.current_attr } };
            let line = self.grid[row as int];
            self.with_grid(self.grid.update(row as int, filled(line, col as int, target as int, space))).with_cursor(
                row,
                target,
            )
        }
    }

    /// Erases part of the cursor line: mode 0 from the cursor to the end,
    /// mode 1 from the start through the cursor, mode 2 all of it; other
    /// modes do nothing.
    pub open spec fn erase_line(self, mode: u8) -> ScreenModel {
        let (row, col) = self.cursor;
        let line = self.grid[row as int];
        if mode == 0 {
            self.with_grid(self.grid.update(row as int, erased(line, col as int, self.cols as int)))
        } else if mode == 1 {
            self.with_grid(self.grid.update(row as int, erased(line, 0, clamp(col, last_index(self.cols)) + 1)))
        } else if mode == 2 {
            self.with_grid(self.grid.update(row as int, erased(line, 0, self.cols as int)))
        } else {
            self
        }
    }

    /// Erases part of the screen: mode 0 from the cursor to the end, mode 1
    /// from the start through the cursor, mode 2 all of it; other modes do
    /// nothing.
    pub open spec fn clear_screen(self, mode: u8) -> ScreenModel {
        let row = self.cursor.0 as int;
        if mode == 0 {
            let e = self.erase_line(0);
            e.with_grid(blanked_rows(e.grid, row + 1, self.rows as int, self.cols as nat))
        } else if mode == 1 {
            let e = self.erase_line(1);
            e.with_grid(blanked_rows(e.grid, 0, row, self.cols as nat))
        } else if mode == 2 {
            self.with_grid(blanked_rows(self.grid, 0, self.rows as int, self.cols as nat))
        } else {
            self
        }
    }

    /// How many cells an insertion or deletion of `n` affects: at least
    /// one, at most a line.
    pub open spec fn char_count(self, n: usize) -> usize {
        clamp(if n < 1 { 1 } else { n }, self.cols)
    }

    /// Inserts blank cells at the cursor, shifting the rest of the line right.
    pub open spec fn insert_char(self, n: usize) -> ScreenModel {
        let (row, col) = self.cursor;
        self.with_grid(
            self.grid.update(row as int, opened_at(self.grid[row as int], col as int, self.char_count(n) as int)),
        )
    }

    /// Deletes cells at the cursor, shifting the rest of the line left.
    pub open spec fn delete_char(self, n: usize) -> ScreenModel {
        let (row, col) = self.cursor;
        if col < self.cols {
            self.with_grid(
                self.grid.update(row as int, closed_at(self.grid[row as int], col as int, self.char_count(n) as int)),
            )
        } else {
            self
        }
    }

    /// Inserting `k` blank lines at the cursor line, as the terminal does
    /// it: each step puts a blank line at the cursor and drops the line at
    /// the bottom margin. At or above the margin this moves the lines from
    /// the cursor down to the line above the margin; below it, the lines from
    /// the margin up to the line above the cursor move up.
    pub open spec fn insert_lines(self, k: usize) -> ScreenModel {
        let row = self.cursor.0 as int;
        let bottom = self.scroll_bottom as int;
        if row <= bottom {
            self.with_grid(shifted_down(self.grid, row, bottom - 1, k as int, self.cols as nat))
        } else {
            self.with_grid(shifted_up(self.grid, bottom, row - 1, k as int, self.cols as nat))
        }
    }

    /// Deleting `k` lines at the cursor line: each step drops the cursor
    /// line and puts a blank line at the bottom margin.
    pub open spec fn delete_lines(self, k: usize) -> ScreenModel {
        let row = self.cursor.0 as int;
        let bottom = self.scroll_bottom as int;
        if row <= bottom {
            self.with_grid(shifted_up(self.grid, row, bottom, k as int, self.cols as nat))
        } else {
            self.with_grid(shifted_down(self.grid, bottom, row, k as int, self.cols as nat))
        }
    }

    pub open spec fn save_cursor(self) -> ScreenModel {
        ScreenModel { saved_cursor: Some(self.cursor), ..self }
    }

    /// Moves the cursor back to the saved position, if one was saved.
    pub open spec fn restore_cursor(self) -> ScreenModel {
        match self.saved_cursor {
            Some((r, c)) => self.go_to_xy(c, r),
            None => self,
        }
    }

    /// A screen of the new size (each at least one) that keeps the cells
    /// the old and new sizes share, with blanks elsewhere; the cursor is
    /// clamped and the scroll region reset to the whole screen.
    pub open spec fn resize(self, rows: usize, cols: usize) -> ScreenModel {
        let rows = if rows < 1 { 1 } else { rows };
        let cols = if cols < 1 { 1 } else { cols };
        ScreenModel {
            rows: rows,
            cols: cols,
            grid: resized_grid(self.grid, self.rows as int, self.cols as int, rows as nat, cols as nat),
            cursor: (clamp(self.cursor.0, (rows - 1) as usize), clamp(self.cursor.1, (cols - 1) as usize)),
            scroll_top: 0,
            scroll_bottom: (rows - 1) as usize,
            ..self
        }
    }
}

/// The character grid of a terminal with its cursor, scroll region and
/// current rendition.
#[derive(Debug)]
pub struct ScreenBuffer {
    pub rows: usize,
    pub cols: usize,
    pub cells: Vec<Vec<TermCell>>,
    pub cursor: (usize, usize),
    pub scroll_top: usize,
    pub scroll_bottom: usize,
    pub saved_cursor: Option<(usize, usize)>,
    pub current_attr: CharAttr,
}

impl View for ScreenBuffer {
    type V = ScreenModel;

    open spec fn view(&self) -> ScreenModel {
        ScreenModel {
            rows: self.rows,
            cols: self.cols,
            grid: grid_of(self.cells@),
            cursor: self.cursor,
            scroll_top: self.scroll_top,
            scroll_bottom: self.scroll_bottom,
            saved_cursor: self.saved_cursor,
            current_attr: self.current_attr,
        }
    }
}

/// A fresh row of `cols` blank cells.
fn new_blank_row(cols: usize) -> (line: Vec<TermCell>)
    ensures
        line@ == blank_row(cols as nat),
{
    let mut line: Vec<TermCell> = Vec::with_capacity(cols);
    let mut i: usize = 0;
    while i < cols
        invariant
            i <= cols,
            line@ == blank_row(i as nat),
        decreases cols - i,
    {
        line.push(TermCell::default());
        i += 1;
        assert(line@ =~= blank_row(i as nat));
    }
    line
}

impl ScreenBuffer {
    /// A blank screen of `rows` by `cols` cells (each at least one), the
    /// cursor home, the whole screen as scroll region, the default rendition.
    pub fn new(rows: usize, cols: usize) -> (s: Self)
        ensures
            s@.wf(),
            s.rows == (if rows < 1 { 1 } else { rows }),
            s.cols == (if cols < 1 { 1 } else { cols }),
            s@.grid == Seq::new(s.rows as nat, |r: int| blank_row(s.cols as nat)),
            s.cursor == (0usize, 0usize),
            s.scroll_top == 0,
            s.scroll_bottom == s.rows - 1,
            s.saved_cursor is None,
            s.current_attr == default_attr(),
    {
        let rows = if rows < 1 { 1 } else { rows };
        let cols = if cols < 1 { 1 } else { cols };
        let mut cells: Vec<Vec<TermCell>> = Vec::with_capacity(rows);
        let mut i: usize = 0;
        while i < rows
            invariant
                i <= rows,
                cells@.len() == i,
                forall|r: int| 0 <= r < i ==> (#[trigger] cells@[r])@ == blank_row(cols as nat),
            decreases rows - i,
        {
            cells.push(new_blank_row(cols));
            i += 1;
        }
        let s = ScreenBuffer {
            rows,
            cols,
            cells,
            cursor: (0, 0),
            scroll_top: 0,
            scroll_bottom: rows - 1,
            saved_cursor: None,
            current_attr: CharAttr::default(),
        };
        assert(s@.grid =~= Seq::new(rows as nat, |r: int| blank_row(cols as nat)));
        s
    }

    /// The cell at `row`, `col`.
    pub fn cell(&self, row: usize, col: usize) -> (c: &TermCell)
        requires
            self@.wf(),
            row < self.rows,
            col < self.cols,
        ensures
            *c == self@.grid[row as int][col as int],
    {
        &self.cells[row][col]
    }

    /// The cell at `row`, `col`, for writing.
    pub fn cell_mut(&mut self, row: usize, col: usize) -> (c: &mut TermCell)
        requires
            old(self)@.wf(),
            row < old(self).rows,
            col < old(self).cols,
        ensures
            *c == old(self)@.grid[row as int][col as int],
            final(self)@ == old(self)@.with_grid(
                old(self)@.grid.update(row as int, old(self)@.grid[row as int].update(col as int, *final(c))),
            ),
    {
        &mut self.cells[row][col]
    }

    /// Moves the cursor to the first column.
    pub fn carriage_return(&mut self)
        ensures
            final(self)@ == old(self)@.carriage_return(),
    {
        self.cursor.1 = 0;
    }

    /// Scrolls the region up by `n` lines, at least one: the top lines of
    /// the region leave and blank lines enter at its bottom.
    pub fn scroll_up(&mut self, n: usize)
        requires
            old(self)@.wf(),
        ensures
            final(self)@.wf(),
            final(self)@ == old(self)@.scroll_up(n),
    {
        let ghost g0 = self@.grid;
        let ghost top = self.scroll_top as int;
        let ghost bottom = self.scroll_bottom as int;
        let ghost cols = self.cols as nat;
        let n = if n < 1 { 1 } else { n };
        proof {
            lemma_shifted_zero(g0, top, bottom, cols);
        }
        let mut i: usize = 0;
        while i < n
            invariant
                i <= n,
                self@.wf(),
                self@ == old(self)@.with_grid(shifted_up(g0, top, bottom, i as int, cols)),
                g0 == old(self)@.grid,
                top == old(self).scroll_top,
                bottom == old(self).scroll_bottom,
                cols == old(self).cols,
            decreases n - i,
        {
            let ghost before = self@.grid;
            if self.scroll_top <= self.scroll_bottom && self.scroll_bottom < self.rows {
                self.cells.remove(self.scroll_top);
                let line = new_blank_row(self.cols);
                self.cells.insert(self.scroll_bottom, line);
                assert(self@.grid =~= shifted_up(before, top, bottom, 1, cols));
            }
            proof {
                lemma_shifted_up_step(g0, top, bottom, i as int, cols);
            }
            i += 1;
        }
    }

    /// Scrolls the region down by `n` lines, at least one: the bottom lines
    /// of the region leave and blank lines enter at its top.
    pub fn scroll_down(&mut self, n: usize)
        requires
            old(self)@.wf(),
        ensures
            final(self)@.wf(),
            final(self)@ == old(self)@.scroll_down(n),
    {
        let ghost g0 = self@.grid;
        let ghost top = self.scroll_top as int;
        let ghost bottom = self.scroll_bottom as int;
        let ghost cols = self.cols as nat;
        let n = if n < 1 { 1 } else { n };
        proof {
            lemma_shifted_zero(g0, top, bottom, cols);
        }
        let mut i: usize = 0;
        while i < n
            invariant
                i <= n,
                self@.wf(),
                self@ == old(self)@.with_grid(shifted_down(g0, top, bottom, i as int, cols)),
                g0 == old(self)@.grid,
                top == old(self).scroll_top,
                bottom == old(self).scroll_bottom,
                cols == old(self).cols,
            decreases n - i,
        {
            let ghost before = self@.grid;
            if self.scroll_top <= self.scroll_bottom && self.scroll_bottom < self.rows {
                self.cells.remove(self.scroll_bottom);
                let line = new_blank_row(self.cols);
                self.cells.insert(self.scroll_top, line);
                assert(self@.grid =~= shifted_down(before, top, bottom, 1, cols));
            }
            proof {
                lemma_shifted_down_step(g0, top, bottom, i as int, cols);
            }
            i += 1;
        }
    }

    /// Moves the cursor one line down, scrolling the region when the cursor
    /// is at or below its bottom margin.
    pub fn line_feed(&mut self)
        requires
            old(self)@.wf(),
        ensures
            final(self)@.wf(),
            final(self)@ == old(self)@.line_feed(),
    {
        if self.cursor.0 >= self.scroll_bottom {
            self.scroll_up(1);
        } else {
            let next = self.cursor.0 + 1;
            self.cursor.0 = if next < self.rows - 1 { next } else { self.rows - 1 };
        }
    }

    /// Writes `ch` at the cursor in the current rendition and advances the
    /// cursor, wrapping to the next line at the right margin.
    pub fn put_char(&mut self, ch: char)
        requires
            old(self)@.wf(),
        ensures
            final(self)@.wf(),
            final(self)@ == old(self)@.put_char(ch),
    {
        let (row, col) = self.cursor;
        if row >= self.rows || col >= self.cols {
            return;
        }
        let mut attr = self.current_attr;
        attr.need_update = true;
        self.cells[row][col] = TermCell { ch, attr };
        let width = match char_width(ch) {
            Some(w) => if w >= 1 { w } else { 1 },
            None => 1,
        };
        if width >= self.cols - col {
            self.carriage_return();
            self.line_feed();
        } else {
            self.cursor.1 = col + width;
        }
    }

    /// Moves the cursor one column left, unless it is in the first column.
    pub fn back(&mut self)
        ensures
            final(self)@ == old(self)@.back(),
    {
        if self.cursor.1 > 0 {
            self.cursor.1 -= 1;
        }
    }

    /// Moves the cursor to `row`, `col`, clamped to the screen.
    pub fn go_to_xy(&mut self, col: usize, row: usize)
        ensures
            final(self)@ == old(self)@.go_to_xy(col, row),
    {
        let last_row = if self.rows >= 1 { self.rows - 1 } else { 0 };
        let last_col = if self.cols >= 1 { self.cols - 1 } else { 0 };
        self.cursor = (
            if row < last_row { row } else { last_row },
            if col < last_col { col } else { last_col },
        );
    }

    /// Writes spaces up to the next tab stop (a multiple of eight, or the
    /// last column).
    pub fn tab(&mut self)
        requires
            old(self)@.wf(),
        ensures
            final(self)@.wf(),
            final(self)@ == old(self)@.tab(),
    {
        let ghost m0 = self@;
        let row = self.cursor.0;
        let col = self.cursor.1;
        let last_col = self.cols - 1;
        let base = col - col % 8;
        proof {
            assert(base + 8 == (col / 8 + 1) * 8) by (nonlinear_arith)
                requires
                    base == col - col % 8,
            ;
        }
        let target = if base >= last_col || last_col - base <= 8 { last_col } else { base + 8 };
        assert(target == m0.tab_stop());
        let ghost space = TermCell { ch: ' ', attr: CharAttr { need_update: true, ..m0.current_attr } };
        let ghost line0 = m0.grid[row as int];
        assert(filled(line0, col as int, col as int, space) =~= line0);
        assert(m0.grid.update(row as int, line0) =~= m0.grid);
        while self.cursor.1 < target
            invariant
                self@.wf(),
                col <= self.cursor.1,
                col < target ==> self.cursor.1 <= target,
                col >= target ==> self.cursor.1 == col,
                target < self.cols,
                self.cursor.0 == row,
                row == m0.cursor.0,
                col == m0.cursor.1,
                self.rows == m0.rows,
                self.cols == m0.cols,
                self.scroll_top == m0.scroll_top,
                self.scroll_bottom == m0.scroll_bottom,
                self.saved_cursor == m0.saved_cursor,
                self.current_attr == m0.current_attr,
                space == (TermCell { ch: ' ', attr: CharAttr { need_update: true, ..m0.current_attr } }),
                m0.wf(),
                line0 == m0.grid[row as int],
                self@.grid == m0.grid.update(row as int, filled(line0, col as int, self.cursor.1 as int, space)),
            decreases target - self.cursor.1,
        {
            let cur = self.cursor.1;
            assert(self@.grid[row as int].len() == self.cols);
            let ghost pre = self@;
            let ghost prev_line = filled(line0, col as int, cur as int, space);
            assert(pre.grid[row as int] == prev_line);
            self.put_char(' ');
            assert((' ' as u32) == 32);
            assert(advance_of(' ') == 1);
            assert(self@.grid[row as int] == prev_line.update(cur as int, space));
            assert(self@.grid[row as int] =~= filled(line0, col as int, cur + 1, space));
            assert(self@.grid =~= m0.grid.update(row as int, filled(line0, col as int, cur + 1, space)));
        }
    }

    /// Erases part of the cursor line (see [`ScreenModel::erase_line`]).
    pub fn erase_line(&mut self, mode: u8)
        requires
            old(self)@.wf(),
        ensures
            final(self)@.wf(),
            final(self)@ == old(self)@.erase_line(mode),
    {
        let row = self.cursor.0;
        let col = self.cursor.1;
        if mode == 0 {
            self.blank_cells(row, col, self.cols);
        } else if mode == 1 {
            let last = if col < self.cols - 1 { col } else { self.cols - 1 };
            self.blank_cells(row, 0, last + 1);
        } else if mode == 2 {
            self.blank_cells(row, 0, self.cols);
        }
    }

    /// Blanks the cells `lo..hi` of line `row`.
    fn blank_cells(&mut self, row: usize, lo: usize, hi: usize)
        requires
            old(self)@.wf(),
            row < old(self).rows,
            lo <= hi <= old(self).cols,
        ensures
            final(self)@.wf(),
            final(self)@ == old(self)@.with_grid(
                old(self)@.grid.update(row as int, erased(old(self)@.grid[row as int], lo as int, hi as int)),
            ),
    {
        let ghost m0 = self@;
        let mut c = lo;
        assert(erased(m0.grid[row as int], lo as int, lo as int) =~= m0.grid[row as int]);
        assert(m0.grid.update(row as int, m0.grid[row as int]) =~= m0.grid);
        while c < hi
            invariant
                lo <= c <= hi,
                hi <= self.cols,
                row < self.rows,
                self@.wf(),
                self@ == m0.with_grid(m0.grid.update(row as int, erased(m0.grid[row as int], lo as int, c as int))),
                m0 == old(self)@,
                m0.wf(),
            decreases hi - c,
        {
            assert(self@.grid[row as int].len() == self.cols);
            self.cells[row][c] = TermCell::default();
            c += 1;
            assert(self@.grid[row as int] =~= erased(m0.grid[row as int], lo as int, c as int));
            assert(self@.grid =~= m0.grid.update(row as int, erased(m0.grid[row as int], lo as int, c as int)));
        }
    }

    /// Replaces the lines `lo..hi` with blank lines.
    fn blank_lines(&mut self, lo: usize, hi: usize)
        requires
            old(self)@.wf(),
            lo <= hi <= old(self).rows,
        ensures
            final(self)@.wf(),
            final(self)@ == old(self)@.with_grid(blanked_rows(old(self)@.grid, lo as int, hi as int, old(self).cols as nat)),
    {
        let ghost m0 = self@;
        let mut r = lo;
        assert(blanked_rows(m0.grid, lo as int, lo as int, m0.cols as nat) =~= m0.grid);
        while r < hi
            invariant
                lo <= r <= hi,
                hi <= self.rows,
                self@.wf(),
                self@ == m0.with_grid(blanked_rows(m0.grid, lo as int, r as int, m0.cols as nat)),
                m0 == old(self)@,
            decreases hi - r,
        {
            let line = new_blank_row(self.cols);
            self.cells.set(r, line);
            r += 1;
            assert(self@.grid =~= blanked_rows(m0.grid, lo as int, r as int, m0.cols as nat));
        }
    }

    /// Erases part of the screen (see [`ScreenModel::clear_screen`]).
    pub fn clear_screen(&mut self, mode: u8)
        requires
            old(self)@.wf(),
        ensures
            final(self)@.wf(),
            final(self)@ == old(self)@.clear_screen(mode),
    {
        if mode == 0 {
            self.erase_line(0);
            let from = self.cursor.0 + 1;
            self.blank_lines(from, self.rows);
        } else if mode == 1 {
            self.erase_line(1);
            let to = self.cursor.0;
            self.blank_lines(0, to);
        } else if mode == 2 {
            self.blank_lines(0, self.rows);
        }
    }

    /// Inserts `n` blank cells (at least one, at most a line) at the cursor.
    pub fn insert_char(&mut self, n: usize)
        requires
            old(self)@.wf(),
        ensures
            final(self)@.wf(),
            final(self)@ == old(self)@.insert_char(n),
    {
        let ghost m0 = self@;
        let n = if n < 1 { 1 } else { n };
        let n = if n < self.cols { n } else { self.cols };
        let row = self.cursor.0;
        let col = self.cursor.1;
        let ghost line0 = m0.grid[row as int];
        let mut i: usize = 0;
        assert(opened_at(line0, col as int, 0) =~= line0);
        assert(m0.grid.update(row as int, line0) =~= m0.grid);
        while i < n
            invariant
                i <= n,
                self@.wf(),
                row == m0.cursor.0,
                col == m0.cursor.1,
                m0.wf(),
                line0 == m0.grid[row as int],
                self@ == m0.with_grid(m0.grid.update(row as int, opened_at(line0, col as int, i as int))),
            decreases n - i,
        {
            assert(self@.grid[row as int].len() == self.cols);
            let line = &mut self.cells[row];
            line.insert(col, TermCell::default());
            line.pop();
            i += 1;
            assert(self@.grid[row as int] =~= opened_at(line0, col as int, i as int));
            assert(self@.grid =~= m0.grid.update(row as int, opened_at(line0, col as int, i as int)));
        }
    }

    /// Deletes `n` cells (at least one, at most a line) at the cursor.
    pub fn delete_char(&mut self, n: usize)
        requires
            old(self)@.wf(),
        ensures
            final(self)@.wf(),
            final(self)@ == old(self)@.delete_char(n),
    {
        let ghost m0 = self@;
        let n = if n < 1 { 1 } else { n };
        let n = if n < self.cols { n } else { self.cols };
        let row = self.cursor.0;
        let col = self.cursor.1;
        let ghost line0 = m0.grid[row as int];
        let mut i: usize = 0;
        assert(closed_at(line0, col as int, 0) =~= line0);
        assert(m0.grid.update(row as int, line0) =~= m0.grid);
        while i < n
            invariant
                i <= n,
                self@.wf(),
                row == m0.cursor.0,
                col == m0.cursor.1,
                m0.wf(),
                line0 == m0.grid[row as int],
                self@ == m0.with_grid(m0.grid.update(row as int, closed_at(line0, col as int, i as int))),
            decreases n - i,
        {
            assert(self@.grid[row as int].len() == self.cols);
            if col < self.cols {
                let line = &mut self.cells[row];
                line.remove(col);
                line.push(TermCell::default());
            }
            i += 1;
            assert(self@.grid[row as int] =~= closed_at(line0, col as int, i as int));
            assert(self@.grid =~= m0.grid.update(row as int, closed_at(line0, col as int, i as int)));
        }
    }

    /// Changes the size of the screen (each dimension at least one),
    /// keeping the cells that both sizes share.
    pub fn resize(&mut self, rows: usize, cols: usize)
        requires
            old(self)@.wf(),
        ensures
            final(self)@.wf(),
            final(self)@ == old(self)@.resize(rows, cols),
    {
        let ghost m0 = self@;
        let rows = if rows < 1 { 1 } else { rows };
        let cols = if cols < 1 { 1 } else { cols };
        let mut new_cells: Vec<Vec<TermCell>> = Vec::with_capacity(rows);
        let mut r: usize = 0;
        while r < rows
            invariant
                r <= rows,
                m0 == self@,
                m0.wf(),
                new_cells@.len() == r,
                forall|i: int|
                    0 <= i < r ==> (#[trigger] new_cells@[i])@ == resized_row(
                        m0.grid,
                        m0.rows as int,
                        m0.cols as int,
                        i,
                        cols as nat,
                    ),
            decreases rows - r,
        {
            let mut line: Vec<TermCell> = Vec::with_capacity(cols);
            let mut c: usize = 0;
            while c < cols
                invariant
                    c <= cols,
                    r < rows,
                    m0 == self@,
                    m0.wf(),
                    line@ == resized_row(m0.grid, m0.rows as int, m0.cols as int, r as int, c as nat),
                decreases cols - c,
            {
                if r < self.rows && c < self.cols {
                    assert(self@.grid[r as int].len() == self.cols);
                    line.push(self.cells[r][c]);
                } else {
                    line.push(TermCell::default());
                }
                c += 1;
                assert(line@ =~= resized_row(m0.grid, m0.rows as int, m0.cols as int, r as int, c as nat));
            }
            new_cells.push(line);
            r += 1;
        }
        let last_row = rows - 1;
        let last_col = cols - 1;
        self.rows = rows;
        self.cols = cols;
        self.cells = new_cells;
        self.cursor.0 = if self.cursor.0 < last_row { self.cursor.0 } else { last_row };
        self.cursor.1 = if self.cursor.1 < last_col { self.cursor.1 } else { last_col };
        self.scroll_top = 0;
        self.scroll_bottom = last_row;
        assert(self@.grid =~= resized_grid(m0.grid, m0.rows as int, m0.cols as int, rows as nat, cols as nat));
    }

    /// The characters of line `row`.
    pub fn get_line_text(&self, row: usize) -> (text: String)
        requires
            row < self.cells@.len(),
        ensures
            text@ == line_text(self@.grid[row as int]),
    {
        let line = &self.cells[row];
        let mut text = String::new();
        let mut c: usize = 0;
        while c < line.len()
            invariant
                c <= line@.len(),
                line@ == self@.grid[row as int],
                text@ == line_text(line@.take(c as int)),
            decreases line@.len() - c,
        {
            push_char(&mut text, line[c].ch);
            c += 1;
            assert(line_text(line@.take(c as int)) =~= line_text(line@.take(c - 1)).push(line@[c - 1].ch));
        }
        assert(line@.take(line@.len() as int) =~= line@);
        text
    }

    /// The characters of all lines, separated by newlines.
    pub fn get_all_text(&self) -> (text: String)
        requires
            self.rows <= self.cells@.len(),
        ensures
            text@ == joined_text(self@.grid.take(self.rows as int)),
    {
        let mut text = String::new();
        let mut r: usize = 0;
        while r < self.rows
            invariant
                r <= self.rows <= self.cells@.len(),
                text@ == joined_text(self@.grid.take(r as int)),
            decreases self.rows - r,
        {
            let ghost before = text@;
            if r > 0 {
                push_char(&mut text, '\n');
            }
            let line = &self.cells[r];
            let ghost mid = text@;
            let mut c: usize = 0;
            while c < line.len()
                invariant
                    c <= line@.len(),
                    line@ == self@.grid[r as int],
                    text@ == mid + line_text(line@.take(c as int)),
                decreases line@.len() - c,
            {
                push_char(&mut text, line[c].ch);
                c += 1;
                assert(line_text(line@.take(c as int)) =~= line_text(line@.take(c - 1)).push(line@[c - 1].ch));
            }
            assert(line@.take(line@.len() as int) =~= line@);
            r += 1;
            let ghost g = self@.grid.take(r as int);
            assert(g.drop_last() =~= self@.grid.take(r - 1));
            assert(g.last() == self@.grid[r - 1]);
        }
        text
    }

    /// Inserts `k` blank lines at the cursor line (see
    /// [`ScreenModel::insert_lines`]).
    pub fn insert_lines(&mut self, k: usize)
        requires
            old(self)@.wf(),
        ensures
            final(self)@.wf(),
            final(self)@ == old(self)@.insert_lines(k),
    {
        let ghost m0 = self@;
        let ghost row = self.cursor.0 as int;
        let ghost bottom = self.scroll_bottom as int;
        let ghost cols = self.cols as nat;
        proof {
            lemma_shifted_zero(m0.grid, row, bottom - 1, cols);
            lemma_shifted_zero(m0.grid, bottom, row - 1, cols);
        }
        let mut i: usize = 0;
        while i < k
            invariant
                i <= k,
                m0 == old(self)@,
                m0.wf(),
                self@.wf(),
                row == m0.cursor.0,
                bottom == m0.scroll_bottom,
                cols == m0.cols,
                self@ == m0.insert_lines(i),
            decreases k - i,
        {
            let ghost before = self@.grid;
            let line = new_blank_row(self.cols);
            self.cells.insert(self.cursor.0, line);
            self.cells.remove(self.scroll_bottom);
            proof {
                if row <= bottom {
                    assert(self@.grid =~= shifted_down(before, row, bottom - 1, 1, cols));
                    lemma_shifted_down_step(m0.grid, row, bottom - 1, i as int, cols);
                } else {
                    assert(self@.grid =~= shifted_up(before, bottom, row - 1, 1, cols));
                    lemma_shifted_up_step(m0.grid, bottom, row - 1, i as int, cols);
                }
            }
            i += 1;
        }
    }

    /// Deletes `k` lines at the cursor line (see
    /// [`ScreenModel::delete_lines`]).
    pub fn delete_lines(&mut self, k: usize)
        requires
            old(self)@.wf(),
        ensures
            final(self)@.wf(),
            final(self)@ == old(self)@.delete_lines(k),
    {
        let ghost m0 = self@;
        let ghost row = self.cursor.0 as int;
        let ghost bottom = self.scroll_bottom as int;
        let ghost cols = self.cols as nat;
        proof {
            lemma_shifted_zero(m0.grid, row, bottom, cols);
            lemma_shifted_zero(m0.grid, bottom, row, cols);
        }
        let mut i: usize = 0;
        while i < k
            invariant
                i <= k,
                m0 == old(self)@,
                m0.wf(),
                self@.wf(),
                row == m0.cursor.0,
                bottom == m0.scroll_bottom,
                cols == m0.cols,
                self@ == m0.delete_lines(i),
            decreases k - i,
        {
            let ghost before = self@.grid;
            self.cells.remove(self.cursor.0);
            let line = new_blank_row(self.cols);
            self.cells.insert(self.scroll_bottom, line);
            proof {
                if row <= bottom {
                    assert(self@.grid =~= shifted_up(before, row, bottom, 1, cols));
                    lemma_shifted_up_step(m0.grid, row, bottom, i as int, cols);
                } else {
                    assert(self@.grid =~= shifted_down(before, bottom, row, 1, cols));
                    lemma_shifted_down_step(m0.grid, bottom, row, i as int, cols);
                }
            }
            i += 1;
        }
    }

    /// Remembers the cursor position.
    pub fn save_cursor(&mut self)
        ensures
            final(self)@ == old(self)@.save_cursor(),
    {
        self.saved_cursor = Some(self.cursor);
    }

    /// Moves the cursor back to the remembered position, if any.
    pub fn restore_cursor(&mut self)
        ensures
            final(self)@ == old(self)@.restore_cursor(),
    {
        if let Some((r, c)) = self.saved_cursor {
            self.go_to_xy(c, r);
        }
    }
}

impl Clone for ScreenBuffer {
    /// A copy with the same cells and registers.
    fn clone(&self) -> (copy: Self)
        ensures
            copy@ == self@,
    {
        let mut cells: Vec<Vec<TermCell>> = Vec::with_capacity(self.cells.len());
        let mut r: usize = 0;
        while r < self.cells.len()
            invariant
                r <= self.cells@.len(),
                cells@.len() == r,
                forall|i: int| 0 <= i < r ==> (#[trigger] cells@[i])@ == self.cells@[i]@,
            decreases self.cells@.len() - r,
        {
            let source = &self.cells[r];
            let mut line: Vec<TermCell> = Vec::with_capacity(source.len());
            let mut c: usize = 0;
            while c < source.len()
                invariant
                    c <= source@.len(),
                    line@ == source@.take(c as int),
                decreases source@.len() - c,
            {
                line.push(source[c]);
                c += 1;
                assert(line@ =~= source@.take(c as int));
            }
            assert(source@.take(source@.len() as int) =~= source@);
            cells.push(line);
            r += 1;
        }
        let copy = ScreenBuffer {
            rows: self.rows,
            cols: self.cols,
            cells,
            cursor: self.cursor,
            scroll_top: self.scroll_top,
            scroll_bottom: self.scroll_bottom,
            saved_cursor: self.saved_cursor,
            current_attr: self.current_attr,
        };
        assert(copy@.grid =~= self@.grid);
        copy
    }
}

} // verus!
