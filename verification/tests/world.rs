use game_cs::world::{cell_type, is_solid};

#[test]
fn explorer_map_cells() {
    // The border is wall, and everything outside the map counts as wall.
    assert_eq!(cell_type(0, 0), 1);
    assert_eq!(cell_type(-1, 5), 1);
    assert_eq!(cell_type(24, 5), 1);
    assert!(is_solid(100, 100));
    // T spawn marker in the north-west corner, CT spawn marker in the south.
    assert_eq!(cell_type(1, 1), 5);
    assert_eq!(cell_type(2, 1), 5);
    assert_eq!(cell_type(18, 21), 4);
    // Bomb site walls.
    assert_eq!(cell_type(7, 8), 2);
    assert_eq!(cell_type(6, 15), 3);
    // Open floor where the player starts.
    assert_eq!(cell_type(2, 2), 0);
    assert!(!is_solid(2, 2));
    assert!(is_solid(8, 1));
    assert!(!is_solid(9, 1));
}
