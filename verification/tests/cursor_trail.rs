//! Keys of the cursor trail.
use slipstream::cursor_trail::{CursorTrailKey, CursorTrailSurface, Point};

fn key(surface: CursorTrailSurface, row: usize, col: usize) -> CursorTrailKey {
    CursorTrailKey {
        surface,
        point: Point { row, col },
    }
}

#[test]
fn terminal_cursor_trail_key_resets_between_surfaces() {
    let first = key(CursorTrailSurface::BlockList, 0, 0);
    let second = key(CursorTrailSurface::AltScreen, 0, 5);

    assert!(!first.same_surface(second));
    assert!(first.same_surface(key(CursorTrailSurface::BlockList, 3, 4)));
}

#[test]
fn distance_adds_rows_and_columns() {
    let first = key(CursorTrailSurface::BlockList, 2, 9);
    let second = key(CursorTrailSurface::BlockList, 7, 3);

    assert_eq!(first.cell_distance_to(second), 11);
    assert_eq!(second.cell_distance_to(first), 11);
    assert_eq!(first.cell_distance_to(first), 0);
}
