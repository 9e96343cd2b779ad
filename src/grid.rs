//! The grid of terrain codes that the map panel shows.
use vstd::prelude::*;

verus! {

/// Code of a wall cell.
pub const WALL: i32 = 1;

/// Code of the start marker.
pub const START: i32 = 2;

/// Code of the goal marker.
pub const GOAL: i32 = 3;

/// The rows of `rows` all have the same length.
pub open spec fn rectangular(rows: Seq<Seq<i32>>) -> bool {
    forall|i: int| 0 <= i < rows.len() ==> #[trigger] rows[i].len() == rows[0].len()
}

/// The values of a vector of rows.
pub open spec fn rows_view(rows: Seq<Vec<i32>>) -> Seq<Seq<i32>> {
    rows.map_values(|r: Vec<i32>| r@)
}

/// A rectangular grid of cell codes, stored row by row.
pub struct Grid {
    rows: Vec<Vec<i32>>,
}

impl View for Grid {
    type V = Seq<Seq<i32>>;

    closed spec fn view(&self) -> Seq<Seq<i32>> {
        rows_view(self.rows@)
    }
}

/// Copies the rows of a grid.
fn copy_rows(rows: &Vec<Vec<i32>>) -> (r: Vec<Vec<i32>>)
    ensures
        rows_view(r@) == rows_view(rows@),
{
    let mut out: Vec<Vec<i32>> = Vec::new();
    let mut i: usize = 0;
    while i < rows.len()
        invariant
            i <= rows.len(),
            out@.len() == i,
            forall|k: int| 0 <= k < i ==> #[trigger] out@[k]@ == rows@[k]@,
        decreases rows.len() - i,
    {
        let row = &rows[i];
        let mut copy: Vec<i32> = Vec::new();
        let mut j: usize = 0;
        while j < row.len()
            invariant
                j <= row.len(),
                copy@ == row@.subrange(0, j as int),
            decreases row.len() - j,
        {
            copy.push(row[j]);
            j += 1;
        }
        assert(copy@ == row@);
        out.push(copy);
        i += 1;
    }
    assert(rows_view(out@) == rows_view(rows@));
    out
}

/// Whether the rows of `rows` all have the same length.
pub fn is_rectangular(rows: &Vec<Vec<i32>>) -> (r: bool)
    ensures
        r == rectangular(rows_view(rows@)),
{
    if rows.len() == 0 {
        return true;
    }
    let width = rows[0].len();
    let mut i: usize = 0;
    while i < rows.len()
        invariant
            i <= rows.len(),
            rows.len() > 0,
            width == rows@[0]@.len(),
            forall|k: int| 0 <= k < i ==> #[trigger] rows@[k]@.len() == width,
        decreases rows.len() - i,
    {
        if rows[i].len() != width {
            assert(rows_view(rows@)[i as int].len() != rows_view(rows@)[0].len());
            return false;
        }
        i += 1;
    }
    true
}

impl Grid {
    pub closed spec fn wf(&self) -> bool {
        rectangular(self@)
    }

    /// A grid holding a copy of `rows`, or `None` where the rows differ in
    /// length.
    pub fn from_rows(rows: &Vec<Vec<i32>>) -> (r: Option<Grid>)
        ensures
            r is Some <==> rectangular(rows_view(rows@)),
            r matches Some(g) ==> g@ == rows_view(rows@) && g.wf(),
    {
        if is_rectangular(rows) {
            Some(Grid { rows: copy_rows(rows) })
        } else {
            None
        }
    }

    /// The number of rows, and the length of each.
    pub fn dimensions(&self) -> (r: (usize, usize))
        ensures
            r.0 == self@.len(),
            r.1 == if self@.len() == 0 {
                0
            } else {
                self@[0].len()
            },
    {
        if self.rows.len() == 0 {
            (0, 0)
        } else {
            (self.rows.len(), self.rows[0].len())
        }
    }

    /// The code at `row` and `col`, or `None` outside the grid.
    pub fn cell_at(&self, row: usize, col: usize) -> (r: Option<i32>)
        ensures
            r == if row < self@.len() && col < self@[row as int].len() {
                Some(self@[row as int][col as int])
            } else {
                None::<i32>
            },
    {
        if row < self.rows.len() && col < self.rows[row].len() {
            Some(self.rows[row][col])
        } else {
            None
        }
    }

    /// The row at `row`; `row` must lie in the grid.
    pub fn row(&self, row: usize) -> (r: &Vec<i32>)
        requires
            row < self@.len(),
        ensures
            r@ == self@[row as int],
    {
        &self.rows[row]
    }
}

} // verus!
