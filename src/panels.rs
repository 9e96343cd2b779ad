//! What the panels show, computed from the grid and the loop's data.
use crate::grid::{Grid, WALL, START, GOAL};
use vstd::prelude::*;

verus! {

/// The two characters that show a cell with code `code`; a code outside
/// the known ones shows as open floor.
pub open spec fn glyph_spec(code: i32) -> Seq<char> {
    if code == WALL {
        seq!['\u{2588}', '\u{2588}']
    } else if code == START {
        seq!['A', ' ']
    } else if code == GOAL {
        seq!['B', ' ']
    } else {
        seq![' ', ' ']
    }
}

/// The glyph of a cell with code `code`.
pub fn cell_glyph(code: i32) -> (r: &'static str)
    ensures
        r@ == glyph_spec(code),
{
    if code == WALL {
        proof {
            reveal_strlit("\u{2588}\u{2588}");
        }
        "\u{2588}\u{2588}"
    } else if code == START {
        proof {
            reveal_strlit("A ");
        }
        "A "
    } else if code == GOAL {
        proof {
            reveal_strlit("B ");
        }
        "B "
    } else {
        proof {
            reveal_strlit("  ");
        }
        "  "
    }
}

/// The glyphs of one row of cells, cell by cell.
pub open spec fn row_glyphs(row: Seq<i32>) -> Seq<Seq<char>> {
    row.map_values(|code: i32| glyph_spec(code))
}

/// The glyphs of a grid, row by row and, within a row, cell by cell.
pub open spec fn glyph_rows_spec(grid: Seq<Seq<i32>>) -> Seq<Seq<Seq<char>>> {
    grid.map_values(|row: Seq<i32>| row_glyphs(row))
}

/// The characters of one line of glyphs.
pub open spec fn line_view(line: Seq<&'static str>) -> Seq<Seq<char>> {
    line.map_values(|g: &'static str| g@)
}

/// The characters of lines of glyphs.
pub open spec fn lines_view(lines: Seq<Vec<&'static str>>) -> Seq<Seq<Seq<char>>> {
    lines.map_values(|line: Vec<&'static str>| line_view(line@))
}

/// The glyphs of one row of cells.
fn glyph_line(row: &Vec<i32>) -> (r: Vec<&'static str>)
    ensures
        line_view(r@) == row_glyphs(row@),
{
    let mut line: Vec<&'static str> = Vec::new();
    let mut j: usize = 0;
    while j < row.len()
        invariant
            j <= row.len(),
            line@.len() == j,
            forall|k: int| 0 <= k < j ==> #[trigger] line@[k]@ == glyph_spec(row@[k]),
        decreases row.len() - j,
    {
        line.push(cell_glyph(row[j]));
        j += 1;
    }
    assert(line_view(line@) =~= row_glyphs(row@));
    line
}

/// The content of the map panel: one glyph per cell, rows top to bottom and
/// cells left to right, in the grid's own order.
pub fn map_lines(grid: &Grid) -> (r: Vec<Vec<&'static str>>)
    ensures
        lines_view(r@) == glyph_rows_spec(grid@),
{
    let (n, _) = grid.dimensions();
    let mut lines: Vec<Vec<&'static str>> = Vec::new();
    let mut i: usize = 0;
    while i < n
        invariant
            n == grid@.len(),
            i <= n,
            lines@.len() == i,
            forall|k: int|
                0 <= k < i ==> line_view(#[trigger] lines@[k]@) == row_glyphs(grid@[k]),
        decreases n - i,
    {
        lines.push(glyph_line(grid.row(i)));
        i += 1;
    }
    assert(lines_view(lines@) =~= glyph_rows_spec(grid@));
    lines
}

/// The map panel shows every cell of the grid, and only those, at the
/// cell's own row and column, by the glyph of its code.
pub proof fn lemma_map_glyph_per_cell(grid: Seq<Seq<i32>>)
    ensures
        glyph_rows_spec(grid).len() == grid.len(),
        forall|i: int|
            0 <= i < grid.len() ==> (#[trigger] glyph_rows_spec(grid)[i]).len() == grid[i].len(),
        forall|i: int, j: int|
            0 <= i < grid.len() && 0 <= j < grid[i].len() ==> #[trigger] glyph_rows_spec(grid)[i][j]
                == glyph_spec(grid[i][j]),
{
}

/// The digit character of `d`, below ten.
pub open spec fn digit_spec(d: nat) -> char {
    ((d + '0' as nat) as u8) as char
}

/// The decimal numeral of `n`, without leading zeros.
pub open spec fn decimal_spec(n: nat) -> Seq<char>
    decreases n,
{
    if n < 10 {
        seq![digit_spec(n)]
    } else {
        decimal_spec(n / 10).push(digit_spec(n % 10))
    }
}

/// What the description panel shows for a statistic: its decimal numeral,
/// or `NULL` where it has not been computed.
pub open spec fn stat_spec(value: Option<u64>) -> Seq<char> {
    match value {
        Some(n) => decimal_spec(n as nat),
        None => seq!['N', 'U', 'L', 'L'],
    }
}

/// The decimal numeral of `n`.
pub fn decimal(n: u64) -> (r: Vec<char>)
    ensures
        r@ == decimal_spec(n as nat),
{
    let mut out: Vec<char> = Vec::new();
    let mut m: u64 = n;
    loop
        invariant_except_break
            decimal_spec(n as nat) == decimal_spec(m as nat) + out@,
        ensures
            decimal_spec(n as nat) == out@,
        decreases m,
    {
        let d: u64 = m % 10;
        let c = ((d as u8) + 48u8) as char;
        let ghost old_out = out@;
        out.insert(0, c);
        assert(out@ == seq![digit_spec(d as nat)] + old_out);
        if m < 10 {
            assert(decimal_spec(m as nat) == seq![digit_spec(m as nat)]);
            break;
        }
        let ghost mm = m;
        m = m / 10;
        assert(decimal_spec(mm as nat) == decimal_spec(m as nat).push(digit_spec(d as nat)));
        assert(decimal_spec(m as nat) + out@ == decimal_spec(m as nat).push(digit_spec(d as nat))
            + old_out);
    }
    out
}

/// What the description panel shows for a statistic that may not have been
/// computed.
pub fn stat_text(value: Option<u64>) -> (r: Vec<char>)
    ensures
        r@ == stat_spec(value),
{
    match value {
        Some(n) => decimal(n),
        None => {
            let r: Vec<char> = vec!['N', 'U', 'L', 'L'];
            r
        },
    }
}

} // verus!
