use vstd::prelude::*;

use super::types::{blank_cell, TermCell};

verus! {

/// A row of `cols` blank cells.
pub open spec fn blank_row(cols: nat) -> Seq<TermCell> {
    Seq::new(cols, |i: int| blank_cell())
}

/// The rows `top..=bottom` moved up by `k`: row `r` of the region takes row
/// `r + k`, and the rows that come free at the bottom are blank.
pub open spec fn shifted_up(
    g: Seq<Seq<TermCell>>,
    top: int,
    bottom: int,
    k: int,
    cols: nat,
) -> Seq<Seq<TermCell>> {
    Seq::new(
        g.len(),
        |r: int|
            if top <= r <= bottom {
                if r + k <= bottom {
                    g[r + k]
                } else {
                    blank_row(cols)
                }
            } else {
                g[r]
            },
    )
}

/// The rows `top..=bottom` moved down by `k`: row `r` of the region takes
/// row `r - k`, and the rows that come free at the top are blank.
pub open spec fn shifted_down(
    g: Seq<Seq<TermCell>>,
    top: int,
    bottom: int,
    k: int,
    cols: nat,
) -> Seq<Seq<TermCell>> {
    Seq::new(
        g.len(),
        |r: int|
            if top <= r <= bottom {
                if r - k >= top {
                    g[r - k]
                } else {
                    blank_row(cols)
                }
            } else {
                g[r]
            },
    )
}

/// The rows of a grid stored as vectors, as sequences.
pub open spec fn grid_of(cells: Seq<Vec<TermCell>>) -> Seq<Seq<TermCell>> {
    cells.map_values(|line: Vec<TermCell>| line@)
}

/// Replacing one stored row replaces that row of the grid.
pub broadcast proof fn lemma_grid_of_update(cells: Seq<Vec<TermCell>>, i: int, line: Vec<TermCell>)
    requires
        0 <= i < cells.len(),
    ensures
        #[trigger] grid_of(cells.update(i, line)) == grid_of(cells).update(i, line@),
{
    assert(grid_of(cells.update(i, line)) =~= grid_of(cells).update(i, line@));
}

/// Moving a region up by `k` and then by one more line is moving it by `k + 1`.
pub proof fn lemma_shifted_up_step(g: Seq<Seq<TermCell>>, top: int, bottom: int, k: int, cols: nat)
    requires
        k >= 0,
        0 <= top,
        bottom < g.len(),
    ensures
        shifted_up(shifted_up(g, top, bottom, k, cols), top, bottom, 1, cols)
            == shifted_up(g, top, bottom, k + 1, cols),
{
    assert(shifted_up(shifted_up(g, top, bottom, k, cols), top, bottom, 1, cols)
        =~= shifted_up(g, top, bottom, k + 1, cols));
}

/// Moving a region down by `k` and then by one more line is moving it by `k + 1`.
pub proof fn lemma_shifted_down_step(g: Seq<Seq<TermCell>>, top: int, bottom: int, k: int, cols: nat)
    requires
        k >= 0,
        0 <= top,
        bottom < g.len(),
    ensures
        shifted_down(shifted_down(g, top, bottom, k, cols), top, bottom, 1, cols)
            == shifted_down(g, top, bottom, k + 1, cols),
{
    assert(shifted_down(shifted_down(g, top, bottom, k, cols), top, bottom, 1, cols)
        =~= shifted_down(g, top, bottom, k + 1, cols));
}

/// Moving a region by nothing leaves the grid as it is.
pub proof fn lemma_shifted_zero(g: Seq<Seq<TermCell>>, top: int, bottom: int, cols: nat)
    ensures
        shifted_up(g, top, bottom, 0, cols) == g,
        shifted_down(g, top, bottom, 0, cols) == g,
{
    assert(shifted_up(g, top, bottom, 0, cols) =~= g);
    assert(shifted_down(g, top, bottom, 0, cols) =~= g);
}

} // verus!

verus! {

/// `line` with the cells in `lo..hi` replaced by `cell`.
pub open spec fn filled(line: Seq<TermCell>, lo: int, hi: int, cell: TermCell) -> Seq<TermCell> {
    Seq::new(line.len(), |c: int| if lo <= c < hi { cell } else { line[c] })
}

/// `line` with the cells in `lo..hi` blanked.
pub open spec fn erased(line: Seq<TermCell>, lo: int, hi: int) -> Seq<TermCell> {
    Seq::new(line.len(), |c: int| if lo <= c < hi { blank_cell() } else { line[c] })
}

/// `g` with the rows in `lo..hi` replaced by blank rows of `cols` cells.
pub open spec fn blanked_rows(g: Seq<Seq<TermCell>>, lo: int, hi: int, cols: nat) -> Seq<Seq<TermCell>> {
    Seq::new(g.len(), |r: int| if lo <= r < hi { blank_row(cols) } else { g[r] })
}

/// `line` with `k` blank cells inserted at `col`; the cells pushed past the
/// end of the line are lost.
pub open spec fn opened_at(line: Seq<TermCell>, col: int, k: int) -> Seq<TermCell> {
    Seq::new(
        line.len(),
        |c: int|
            if c < col {
                line[c]
            } else if c < col + k {
                blank_cell()
            } else {
                line[c - k]
            },
    )
}

/// `line` with the `k` cells from `col` on removed; blank cells fill the
/// end of the line.
pub open spec fn closed_at(line: Seq<TermCell>, col: int, k: int) -> Seq<TermCell> {
    Seq::new(
        line.len(),
        |c: int|
            if c < col {
                line[c]
            } else if c + k < line.len() {
                line[c + k]
            } else {
                blank_cell()
            },
    )
}

/// The characters of a line, in order.
pub open spec fn line_text(line: Seq<TermCell>) -> Seq<char> {
    line.map_values(|cell: TermCell| cell.ch)
}

/// The characters of the lines, one line after another, separated by
/// newlines.
pub open spec fn joined_text(lines: Seq<Seq<TermCell>>) -> Seq<char>
    decreases lines.len(),
{
    if lines.len() == 0 {
        Seq::empty()
    } else if lines.len() == 1 {
        line_text(lines[0])
    } else {
        joined_text(lines.drop_last()) + seq!['\n'] + line_text(lines.last())
    }
}

} // verus!

verus! {

/// Row `i` of the grid is the view of the `i`-th stored vector.
pub broadcast proof fn lemma_grid_of_index(cells: Seq<Vec<TermCell>>, i: int)
    requires
        0 <= i < cells.len(),
    ensures
        #[trigger] grid_of(cells)[i] == cells[i]@,
        grid_of(cells).len() == cells.len(),
{
}

} // verus!

verus! {

/// Cell `r`, `c` of a grid of `old_rows` by `old_cols` after resizing:
/// kept where both sizes have it, blank elsewhere.
pub open spec fn resized_cell(g: Seq<Seq<TermCell>>, old_rows: int, old_cols: int, r: int, c: int) -> TermCell {
    if r < old_rows && c < old_cols {
        g[r][c]
    } else {
        blank_cell()
    }
}

/// Row `r`, `cols` cells long, of a grid after resizing.
pub open spec fn resized_row(g: Seq<Seq<TermCell>>, old_rows: int, old_cols: int, r: int, cols: nat) -> Seq<TermCell> {
    Seq::new(cols, |c: int| resized_cell(g, old_rows, old_cols, r, c))
}

/// A grid of `old_rows` by `old_cols` resized to `rows` by `cols`.
pub open spec fn resized_grid(g: Seq<Seq<TermCell>>, old_rows: int, old_cols: int, rows: nat, cols: nat) -> Seq<Seq<TermCell>> {
    Seq::new(rows, |r: int| resized_row(g, old_rows, old_cols, r, cols))
}

} // verus!
