use snake::grid::{align_down, cells_equal, is_at_boundary, Cell, GRID_SIZE, WINDOW_SIZE};

#[test]
fn cells_compare_by_position() {
    let a = Cell { x: 40, y: 60 };
    let b = Cell { x: 40, y: 60 };
    let c = Cell { x: 40, y: 80 };
    assert!(cells_equal(&a, &b));
    assert!(!cells_equal(&a, &c));
    assert!(!cells_equal(&c, &b));
}

#[test]
fn boundary_is_far_column_or_bottom_row() {
    assert_eq!(WINDOW_SIZE, 800);
    assert_eq!(GRID_SIZE, 20);
    // Far right column stops the game; one column short does not.
    assert!(is_at_boundary(&Cell { x: 780, y: 100 }));
    assert!(!is_at_boundary(&Cell { x: 760, y: 100 }));
    // Bottom row stops it too.
    assert!(is_at_boundary(&Cell { x: 100, y: 780 }));
    // The near edges are open.
    assert!(!is_at_boundary(&Cell { x: 0, y: 0 }));
}

#[test]
fn align_down_snaps_to_grid_line() {
    assert_eq!(align_down(0), 0);
    assert_eq!(align_down(1), 0);
    assert_eq!(align_down(19), 0);
    assert_eq!(align_down(20), 20);
    assert_eq!(align_down(21), 20);
    assert_eq!(align_down(799), 780);
    assert_eq!(align_down(780), 780);
}
