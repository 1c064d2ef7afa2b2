use vstd::prelude::*;

use crate::grid::{count_true, grid_dark_count, is_square, row_dark_count, ModuleGrid};

verus! {

/// Unit squares for the dark modules among the first `upto` cells of row `y`,
/// each anchored at its column and row shifted by `border`.
pub open spec fn row_squares(row: Seq<bool>, y: int, border: int, upto: int) -> Seq<(int, int)>
    decreases upto,
{
    if upto <= 0 {
        Seq::empty()
    } else {
        let before = row_squares(row, y, border, upto - 1);
        if row[upto - 1] {
            before.push((upto - 1 + border, y + border))
        } else {
            before
        }
    }
}

/// Unit squares of the first `rows` rows of `g`, in row-major order.
pub open spec fn grid_squares(g: Seq<Seq<bool>>, border: int, rows: int) -> Seq<(int, int)>
    decreases rows,
{
    if rows <= 0 {
        Seq::empty()
    } else {
        grid_squares(g, border, rows - 1) + row_squares(g[rows - 1], rows - 1, border, g[rows - 1].len() as int)
    }
}

/// The draw commands of a grid: one unit square per dark module, row by row
/// from the top, left to right within a row.
pub open spec fn render_squares(g: Seq<Seq<bool>>, border: int) -> Seq<(int, int)> {
    grid_squares(g, border, g.len() as int)
}

pub open spec fn squares_view(v: Seq<(usize, usize)>) -> Seq<(int, int)> {
    v.map_values(|p: (usize, usize)| (p.0 as int, p.1 as int))
}

/// The geometry of a rendered grid: its unit squares and the side of the
/// square viewport that holds the grid and its border on every side.
pub struct VectorPath {
    squares: Vec<(usize, usize)>,
    extent: usize,
}

/// Ghost picture of a `VectorPath`.
pub struct PathView {
    pub squares: Seq<(int, int)>,
    pub extent: nat,
}

impl View for VectorPath {
    type V = PathView;

    closed spec fn view(&self) -> PathView {
        PathView { squares: squares_view(self.squares@), extent: self.extent as nat }
    }
}

/// What `render(g, border)` is, for a grid whose view is `g`.
pub open spec fn render_view(g: Seq<Seq<bool>>, border: int) -> PathView {
    PathView { squares: render_squares(g, border), extent: (g.len() + 2 * border) as nat }
}

proof fn lemma_row_len(row: Seq<bool>, y: int, border: int, upto: int)
    ensures
        row_squares(row, y, border, upto).len() == row_dark_count(row, upto),
    decreases upto,
{
    if upto > 0 {
        lemma_row_len(row, y, border, upto - 1);
    }
}

proof fn lemma_grid_len(g: Seq<Seq<bool>>, border: int, rows: int)
    ensures
        grid_squares(g, border, rows).len() == grid_dark_count(g, rows),
    decreases rows,
{
    if rows > 0 {
        lemma_grid_len(g, border, rows - 1);
        lemma_row_len(g[rows - 1], rows - 1, border, g[rows - 1].len() as int);
    }
}

/// Each square lies on its row, in a dark column, and columns increase.
proof fn lemma_row_shape(row: Seq<bool>, y: int, border: int, upto: int)
    requires
        0 <= upto <= row.len(),
    ensures
        forall|i: int|
            0 <= i < row_squares(row, y, border, upto).len() ==> {
                let p = #[trigger] row_squares(row, y, border, upto)[i];
                &&& p.1 == y + border
                &&& border <= p.0 < upto + border
                &&& row[p.0 - border]
            },
        forall|i: int, j: int|
            0 <= i < j < row_squares(row, y, border, upto).len() ==> #[trigger] row_squares(
                row,
                y,
                border,
                upto,
            )[i].0 < #[trigger] row_squares(row, y, border, upto)[j].0,
    decreases upto,
{
    if upto > 0 {
        lemma_row_shape(row, y, border, upto - 1);
        let prev = row_squares(row, y, border, upto - 1);
        let s = row_squares(row, y, border, upto);
        if row[upto - 1] {
            assert(s == prev.push((upto - 1 + border, y + border)));
            assert forall|i: int| 0 <= i < s.len() implies {
                let p = #[trigger] s[i];
                &&& p.1 == y + border
                &&& border <= p.0 < upto + border
                &&& row[p.0 - border]
            } by {
                if i < prev.len() {
                    assert(s[i] == prev[i]);
                }
            }
            assert forall|i: int, j: int| 0 <= i < j < s.len() implies #[trigger] s[i].0
                < #[trigger] s[j].0 by {
                assert(s[i] == prev[i]);
                if j < prev.len() {
                    assert(s[j] == prev[j]);
                }
            }
        }
    }
}

/// Squares are listed in row-major order: by row, then by column.
pub open spec fn row_major(s: Seq<(int, int)>) -> bool {
    forall|i: int, j: int|
        0 <= i < j < s.len() ==> (#[trigger] s[i]).1 < (#[trigger] s[j]).1 || (s[i].1 == s[j].1
            && s[i].0 < s[j].0)
}

/// Every square stands on a dark module of `g`, shifted by `border`.
pub open spec fn on_dark_modules(s: Seq<(int, int)>, g: Seq<Seq<bool>>, border: int) -> bool {
    forall|i: int|
        0 <= i < s.len() ==> {
            let p = #[trigger] s[i];
            &&& 0 <= p.1 - border < g.len()
            &&& 0 <= p.0 - border < g[p.1 - border].len()
            &&& g[p.1 - border][p.0 - border]
        }
}

proof fn lemma_grid_shape(g: Seq<Seq<bool>>, border: int, rows: int)
    requires
        0 <= rows <= g.len(),
    ensures
        on_dark_modules(grid_squares(g, border, rows), g, border),
        row_major(grid_squares(g, border, rows)),
        forall|i: int|
            0 <= i < grid_squares(g, border, rows).len() ==> #[trigger] grid_squares(
                g,
                border,
                rows,
            )[i].1 < rows + border,
    decreases rows,
{
    if rows > 0 {
        let prev = grid_squares(g, border, rows - 1);
        let row = row_squares(g[rows - 1], rows - 1, border, g[rows - 1].len() as int);
        lemma_grid_shape(g, border, rows - 1);
        lemma_row_shape(g[rows - 1], rows - 1, border, g[rows - 1].len() as int);
        let s = grid_squares(g, border, rows);
        assert(s == prev + row);
        assert forall|i: int| 0 <= i < s.len() implies {
            let p = #[trigger] s[i];
            &&& 0 <= p.1 - border < g.len()
            &&& 0 <= p.0 - border < g[p.1 - border].len()
            &&& g[p.1 - border][p.0 - border]
        } by {
            if i >= prev.len() {
                assert(s[i] == row[i - prev.len()]);
            }
        }
        assert forall|i: int, j: int| 0 <= i < j < s.len() implies (#[trigger] s[i]).1 < (
        #[trigger] s[j]).1 || (s[i].1 == s[j].1 && s[i].0 < s[j].0) by {
            if j >= prev.len() {
                assert(s[j] == row[j - prev.len()]);
                if i >= prev.len() {
                    assert(s[i] == row[i - prev.len()]);
                }
            }
        }
        assert forall|i: int| 0 <= i < s.len() implies #[trigger] s[i].1 < rows + border by {
            if i >= prev.len() {
                assert(s[i] == row[i - prev.len()]);
            }
        }
    }
}

/// Rendering gives exactly one square per dark module: as many squares as
/// the grid has dark modules, each at a dark module's column and row shifted
/// by the border; a grid without dark modules gives an empty path.
pub proof fn render_marks_dark_modules(g: Seq<Seq<bool>>, border: int)
    ensures
        render_squares(g, border).len() == count_true(g),
        on_dark_modules(render_squares(g, border), g, border),
        (forall|y: int, x: int| 0 <= y < g.len() && 0 <= x < g[y].len() ==> !#[trigger] g[y][x])
            ==> render_squares(g, border).len() == 0,
{
    lemma_grid_len(g, border, g.len() as int);
    lemma_grid_shape(g, border, g.len() as int);
    let s = render_squares(g, border);
    if s.len() > 0 {
        let p = s[0];
        assert(g[p.1 - border][p.0 - border]);
    }
}

/// Rendering is a function of the grid and the border, and lists the
/// squares in row-major order: top row first, left to right within a row.
pub proof fn render_is_deterministic(g1: Seq<Seq<bool>>, g2: Seq<Seq<bool>>, border: int)
    requires
        g1 == g2,
    ensures
        render_view(g1, border) == render_view(g2, border),
        row_major(render_squares(g1, border)),
{
    lemma_grid_shape(g1, border, g1.len() as int);
}

/// Turns a grid into its vector path: one unit square per dark module at
/// `(column + border, row + border)`, in row-major order; the viewport side is
/// the grid's side plus twice the border.
pub fn render(grid: &ModuleGrid, border: usize) -> (r: VectorPath)
    requires
        grid.wf(),
        grid@.len() + 2 * border <= usize::MAX,
    ensures
        r@ == render_view(grid@, border as int),
        r@.squares.len() == count_true(grid@),
{
    let n = grid.size();
    let ghost g = grid@;
    let mut squares: Vec<(usize, usize)> = Vec::new();
    let mut y: usize = 0;
    while y < n
        invariant
            g == grid@,
            grid.wf(),
            n == g.len(),
            n + 2 * border <= usize::MAX,
            y <= n,
            squares_view(squares@) == grid_squares(g, border as int, y as int),
        decreases n - y,
    {
        let mut x: usize = 0;
        assert(g[y as int].len() == n);
        while x < n
            invariant
                g == grid@,
                grid.wf(),
                n == g.len(),
                n + 2 * border <= usize::MAX,
                y < n,
                x <= n,
                g[y as int].len() == n,
                squares_view(squares@) == grid_squares(g, border as int, y as int) + row_squares(
                    g[y as int],
                    y as int,
                    border as int,
                    x as int,
                ),
            decreases n - x,
        {
            if grid.get(x, y) {
                let ghost before = squares@;
                squares.push((x + border, y + border));
                assert(squares_view(squares@) == squares_view(before).push(
                    ((x + border) as int, (y + border) as int),
                ));
            }
            x = x + 1;
        }
        y = y + 1;
    }
    proof {
        lemma_grid_len(g, border as int, n as int);
    }
    VectorPath { squares, extent: n + 2 * border }
}

impl VectorPath {
    /// Number of unit squares in the path.
    pub fn len(&self) -> (r: usize)
        ensures
            r == self@.squares.len(),
    {
        self.squares.len()
    }

    /// Side of the square viewport, in module units.
    pub fn extent(&self) -> (r: usize)
        ensures
            r == self@.extent,
    {
        self.extent
    }

    /// The `i`-th unit square's corner.
    pub fn square(&self, i: usize) -> (r: (usize, usize))
        requires
            i < self@.squares.len(),
        ensures
            (r.0 as int, r.1 as int) == self@.squares[i as int],
    {
        self.squares[i]
    }
}

} // verus!
