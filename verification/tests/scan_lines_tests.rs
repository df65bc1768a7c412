use icy_draw::geometry::{Position, Rectangle, Size};
use icy_draw::scan_lines::{ScanLines, isqrt};

fn rect(x: i32, y: i32, w: i32, h: i32) -> Rectangle {
    Rectangle {
        start: Position::new(x, y),
        size: Size {
            width: w,
            height: h,
        },
    }
}

/// The set of cells the outline rectangles cover, as sorted coordinates.
fn outline_cells(lines: &ScanLines) -> Vec<(i32, i32)> {
    let mut cells = Vec::new();
    for r in lines.outline() {
        for dy in 0..r.size.height {
            for dx in 0..r.size.width {
                let c = (r.start.x + dx, r.start.y + dy);
                if !cells.contains(&c) {
                    cells.push(c);
                }
            }
        }
    }
    cells.sort();
    cells
}

#[test]
fn isqrt_exact_values() {
    assert_eq!(isqrt(0), 0);
    assert_eq!(isqrt(1), 1);
    assert_eq!(isqrt(3), 1);
    assert_eq!(isqrt(4), 2);
    assert_eq!(isqrt(99), 9);
    assert_eq!(isqrt(100), 10);
    assert_eq!(isqrt(u64::MAX as u128), 0xffff_ffff);
}

#[test]
fn rectangle_spans_every_row() {
    let mut lines = ScanLines::new(1);
    lines.add_rectangle(rect(2, 1, 4, 3));
    assert_eq!(lines.get_span(0), None);
    assert_eq!(lines.get_span(1), Some((2, 5)));
    assert_eq!(lines.get_span(2), Some((2, 5)));
    assert_eq!(lines.get_span(3), Some((2, 5)));
    assert_eq!(lines.get_span(4), None);
}

#[test]
fn spans_merge_to_their_hull() {
    let mut lines = ScanLines::new(1);
    lines.add_rectangle(rect(0, 0, 2, 1));
    lines.add_rectangle(rect(5, 0, 2, 1));
    // Two shapes on one row merge into the hull of both spans.
    assert_eq!(lines.get_span(0), Some((0, 6)));
}

#[test]
fn rectangle_outline_is_its_perimeter() {
    let mut lines = ScanLines::new(1);
    lines.add_rectangle(rect(0, 0, 4, 3));
    let cells = outline_cells(&lines);
    let mut expected = Vec::new();
    for x in 0..4 {
        expected.push((x, 0));
        expected.push((x, 2));
    }
    expected.push((0, 1));
    expected.push((3, 1));
    expected.sort();
    assert_eq!(cells, expected);
}

#[test]
fn one_row_shape_is_all_boundary() {
    let mut lines = ScanLines::new(1);
    lines.add_rectangle(rect(3, 7, 5, 1));
    let cells = outline_cells(&lines);
    assert_eq!(cells, vec![(3, 7), (4, 7), (5, 7), (6, 7), (7, 7)]);
}

#[test]
fn ellipse_fills_its_bounding_row_and_column() {
    let mut lines = ScanLines::new(1);
    // A 5 x 5 ellipse: the middle row spans the full width, the top and
    // bottom rows only the centre.
    lines.add_ellipse(rect(0, 0, 5, 5));
    assert_eq!(lines.get_span(2), Some((0, 4)));
    assert_eq!(lines.get_span(0), Some((2, 2)));
    assert_eq!(lines.get_span(4), Some((2, 2)));
    assert_eq!(lines.get_span(5), None);
}

#[test]
fn flat_ellipse_is_a_line() {
    let mut lines = ScanLines::new(1);
    lines.add_ellipse(rect(1, 3, 6, 1));
    assert_eq!(lines.get_span(3), Some((1, 6)));
    let cells = outline_cells(&lines);
    assert_eq!(cells.len(), 6);
}

#[test]
fn tall_ellipse_is_a_column() {
    let mut lines = ScanLines::new(1);
    lines.add_ellipse(rect(4, 0, 1, 4));
    for y in 0..4 {
        assert_eq!(lines.get_span(y), Some((4, 4)));
    }
}

#[test]
fn ellipse_outline_leaves_the_interior_open() {
    let mut lines = ScanLines::new(1);
    lines.add_ellipse(rect(0, 0, 7, 7));
    let cells = outline_cells(&lines);
    // The centre cell is inside the ellipse but not on its outline.
    assert!(!cells.contains(&(3, 3)));
    // The extreme cells of the axes are on the outline.
    assert!(cells.contains(&(0, 3)));
    assert!(cells.contains(&(6, 3)));
    assert!(cells.contains(&(3, 0)));
    assert!(cells.contains(&(3, 6)));
}

#[test]
fn ellipse_rows_are_symmetric() {
    let mut lines = ScanLines::new(1);
    lines.add_ellipse(rect(0, 0, 9, 6));
    for y in 0..3 {
        let top = lines.get_span(y).unwrap();
        let bottom = lines.get_span(5 - y).unwrap();
        assert_eq!(top, bottom);
        // Left and right are mirrored around the centre column span.
        assert_eq!(top.0 - 0, 8 - top.1);
    }
}
