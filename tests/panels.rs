use dungeons::grid::Grid;
use dungeons::panels::{cell_glyph, decimal, map_lines, stat_text};

fn sample() -> Vec<Vec<i32>> {
    vec![
        vec![1, 1, 1, 1, 1, 1, 1, 1, 1, 1],
        vec![1, 2, 0, 0, 0, 0, 0, 1, 0, 1],
        vec![1, 1, 0, 1, 0, 1, 0, 1, 0, 1],
        vec![1, 0, 1, 0, 0, 1, 0, 0, 0, 1],
        vec![1, 0, 0, 0, 1, 0, 0, 1, 1, 1],
        vec![1, 0, 1, 0, 0, 1, 0, 0, 0, 1],
        vec![1, 0, 0, 1, 0, 0, 1, 0, 1, 1],
        vec![1, 1, 0, 0, 0, 1, 1, 0, 0, 1],
        vec![1, 0, 0, 1, 0, 0, 0, 0, 3, 1],
        vec![1, 1, 1, 1, 1, 1, 1, 1, 1, 1],
    ]
}

#[test]
fn glyph_table() {
    assert_eq!(cell_glyph(0), "  ");
    assert_eq!(cell_glyph(1), "\u{2588}\u{2588}");
    assert_eq!(cell_glyph(2), "A ");
    assert_eq!(cell_glyph(3), "B ");
    assert_eq!(cell_glyph(4), "  ");
    assert_eq!(cell_glyph(-1), "  ");
    assert_eq!(cell_glyph(i32::MAX), "  ");
}

#[test]
fn map_lines_keep_row_and_column_order() {
    let g = Grid::from_rows(&vec![vec![0, 1, 2], vec![3, 7, 1]]).unwrap();
    let lines = map_lines(&g);
    assert_eq!(
        lines,
        vec![
            vec!["  ", "\u{2588}\u{2588}", "A "],
            vec!["B ", "  ", "\u{2588}\u{2588}"],
        ]
    );
}

#[test]
fn sample_grid_markers_and_walls() {
    let g = Grid::from_rows(&sample()).unwrap();
    let lines = map_lines(&g);
    assert_eq!(lines.len(), 10);
    assert_eq!(lines[8][8], "B ");
    assert_eq!(lines[1][1], "A ");
    let wall = "\u{2588}\u{2588}";
    for k in 0..10 {
        assert_eq!(lines[0][k], wall);
        assert_eq!(lines[9][k], wall);
        assert_eq!(lines[k][0], wall);
        assert_eq!(lines[k][9], wall);
    }
}

#[test]
fn empty_grids_show_nothing() {
    let g = Grid::from_rows(&vec![]).unwrap();
    assert!(map_lines(&g).is_empty());
    let g = Grid::from_rows(&vec![vec![], vec![]]).unwrap();
    assert_eq!(map_lines(&g), vec![Vec::<&str>::new(), Vec::new()]);
}

#[test]
fn grid_lookup_and_dimensions() {
    let g = Grid::from_rows(&sample()).unwrap();
    assert_eq!(g.dimensions(), (10, 10));
    assert_eq!(g.cell_at(1, 1), Some(2));
    assert_eq!(g.cell_at(8, 8), Some(3));
    assert_eq!(g.cell_at(10, 0), None);
    assert_eq!(g.cell_at(0, 10), None);
    assert_eq!(g.row(3), &vec![1, 0, 1, 0, 0, 1, 0, 0, 0, 1]);
    let e = Grid::from_rows(&vec![]).unwrap();
    assert_eq!(e.dimensions(), (0, 0));
    assert_eq!(e.cell_at(0, 0), None);
}

#[test]
fn ragged_rows_are_refused() {
    assert!(Grid::from_rows(&vec![vec![1, 2], vec![3]]).is_none());
    assert!(dungeons::grid::is_rectangular(&vec![vec![1], vec![2]]));
    assert!(!dungeons::grid::is_rectangular(&vec![vec![1], vec![]]));
}

#[test]
fn decimal_numerals() {
    let s = |v: Vec<char>| v.into_iter().collect::<String>();
    assert_eq!(s(decimal(0)), "0");
    assert_eq!(s(decimal(7)), "7");
    assert_eq!(s(decimal(10)), "10");
    assert_eq!(s(decimal(12345)), "12345");
    assert_eq!(s(decimal(u64::MAX)), "18446744073709551615");
}

#[test]
fn statistics_text() {
    let s = |v: Vec<char>| v.into_iter().collect::<String>();
    assert_eq!(s(stat_text(None)), "NULL");
    assert_eq!(s(stat_text(Some(42))), "42");
    assert_eq!(s(stat_text(Some(0))), "0");
}
