use tcod::path_index_in_range;
use tcod::walk_step;
use tcod::PathGrid;

#[test]
fn grid_contains_cells() {
    let g = PathGrid::new(80, 50);
    assert_eq!(g.width, 80);
    assert_eq!(g.height, 50);
    assert!(g.contains((0, 0)));
    assert!(g.contains((79, 49)));
    assert!(!g.contains((80, 0)));
    assert!(!g.contains((0, 50)));
    assert!(!g.contains((-1, 3)));
    assert!(!g.contains((3, -1)));
}

#[test]
fn empty_grid_contains_nothing() {
    let g = PathGrid::new(0, 10);
    assert!(!g.contains((0, 0)));
}

#[test]
fn path_index_range() {
    assert!(path_index_in_range(0, 3));
    assert!(path_index_in_range(2, 3));
    assert!(!path_index_in_range(3, 3));
    assert!(!path_index_in_range(-1, 3));
    assert!(!path_index_in_range(0, 0));
}

#[test]
fn walk_steps() {
    assert_eq!(walk_step(1, 4, 5), Some((4, 5)));
    assert_eq!(walk_step(7, -2, 9), Some((-2, 9)));
    assert_eq!(walk_step(0, 4, 5), None);
}
