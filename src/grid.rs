use vstd::prelude::*;

verus! {

/// Number of dark modules among the first `upto` cells of `row`.
pub open spec fn row_dark_count(row: Seq<bool>, upto: int) -> nat
    decreases upto,
{
    if upto <= 0 {
        0
    } else {
        row_dark_count(row, upto - 1) + if row[upto - 1] { 1nat } else { 0nat }
    }
}

/// Number of dark modules in the first `rows` rows of `g`.
pub open spec fn grid_dark_count(g: Seq<Seq<bool>>, rows: int) -> nat
    decreases rows,
{
    if rows <= 0 {
        0
    } else {
        grid_dark_count(g, rows - 1) + row_dark_count(g[rows - 1], g[rows - 1].len() as int)
    }
}

/// Number of dark modules in the whole grid.
pub open spec fn count_true(g: Seq<Seq<bool>>) -> nat {
    grid_dark_count(g, g.len() as int)
}

/// A grid is square: every row is as long as there are rows.
pub open spec fn is_square(g: Seq<Seq<bool>>) -> bool {
    forall|i: int| 0 <= i < g.len() ==> #[trigger] g[i].len() == g.len()
}

/// A square matrix of modules, `true` for dark, stored row by row.
pub struct ModuleGrid {
    rows: Vec<Vec<bool>>,
}

impl View for ModuleGrid {
    type V = Seq<Seq<bool>>;

    closed spec fn view(&self) -> Seq<Seq<bool>> {
        self.rows.deep_view()
    }
}

impl ModuleGrid {
    /// Every grid that can be constructed is square.
    pub open spec fn wf(&self) -> bool {
        is_square(self@)
    }

    /// Takes the rows of a square grid; `None` when some row's length differs
    /// from the number of rows.
    pub fn from_rows(rows: Vec<Vec<bool>>) -> (r: Option<ModuleGrid>)
        ensures
            r is Some <==> is_square(rows.deep_view()),
            r matches Some(g) ==> g.wf() && g@ == rows.deep_view(),
    {
        let n = rows.len();
        let mut i: usize = 0;
        while i < n
            invariant
                n == rows.len(),
                i <= n,
                forall|k: int| 0 <= k < i ==> #[trigger] rows.deep_view()[k].len() == n,
            decreases n - i,
        {
            if rows[i].len() != n {
                assert(rows.deep_view()[i as int].len() != n);
                return None;
            }
            assert(rows.deep_view()[i as int] == rows[i as int]@);
            i = i + 1;
        }
        Some(ModuleGrid { rows })
    }

    /// Side length of the grid, in modules.
    pub fn size(&self) -> (r: usize)
        requires
            self.wf(),
        ensures
            r == self@.len(),
    {
        self.rows.len()
    }

    /// Whether the module in column `x` of row `y` is dark.
    pub fn get(&self, x: usize, y: usize) -> (r: bool)
        requires
            self.wf(),
            x < self@.len(),
            y < self@.len(),
        ensures
            r == self@[y as int][x as int],
    {
        assert(self.rows.deep_view()[y as int] == self.rows[y as int]@);
        self.rows[y][x]
    }
}

} // verus!
