//! The grid of the first-person map explorer: a 24 by 24 map of open floor
//! and wall cells.
use vstd::prelude::*;

verus! {

/// Width of the explorer map, in cells.
pub const MAP_W: usize = 24;

/// Height of the explorer map, in cells.
pub const MAP_H: usize = 24;

/// Row `y` of the explorer map, one hexadecimal digit per cell from west
/// (x = 0) to east (x = 23): 0 is open floor, 1 a regular wall, 2 a wall of
/// bomb site A, 3 of bomb site B, 4 of the CT spawn and 5 of the T spawn.
pub open spec fn map_row(y: int) -> u128 {
    if y == 0 { 0x111111111111111111111111 }
    else if y == 1 { 0x155000001010000000000001 }
    else if y == 2 { 0x150000000000000000000001 }
    else if y == 3 { 0x100000000000000000000001 }
    else if y == 4 { 0x100110000000000011000001 }
    else if y == 5 { 0x100010000000000010000001 }
    else if y == 6 { 0x100000000000000000000001 }
    else if y == 7 { 0x100000000000000000000001 }
    else if y == 8 { 0x100000022222000000000001 }
    else if y == 9 { 0x100000020002000000000001 }
    else if y == 10 { 0x111100020002000001111111 }
    else if y == 11 { 0x100000022222000000000001 }
    else if y == 12 { 0x100000000000000000000001 }
    else if y == 13 { 0x100000000000000000000001 }
    else if y == 14 { 0x100110000000000011000001 }
    else if y == 15 { 0x100010333330000010000001 }
    else if y == 16 { 0x100000300030000000000001 }
    else if y == 17 { 0x100000300030000000000001 }
    else if y == 18 { 0x100000333330000000000001 }
    else if y == 19 { 0x100000000000000000000001 }
    else if y == 20 { 0x100000000000000011100001 }
    else if y == 21 { 0x100000000000000000400001 }
    else if y == 22 { 0x100000000000000000400001 }
    else { 0x111111111111111111111111 }
}

/// The cell at column `x` of a map row.
pub open spec fn row_cell(row: u128, x: int) -> u8 {
    ((row >> ((4 * (23 - x)) as u128)) & 0xf) as u8
}

/// The cell at (`x`, `y`); everything outside the map is regular wall.
pub open spec fn map_cell(x: int, y: int) -> u8 {
    if x < 0 || y < 0 || x >= 24 || y >= 24 {
        1
    } else {
        row_cell(map_row(y), x)
    }
}

fn row_of(y: usize) -> (r: u128)
    requires
        y < 24,
    ensures
        r == map_row(y as int),
{
    if y == 0 { 0x111111111111111111111111 }
    else if y == 1 { 0x155000001010000000000001 }
    else if y == 2 { 0x150000000000000000000001 }
    else if y == 3 { 0x100000000000000000000001 }
    else if y == 4 { 0x100110000000000011000001 }
    else if y == 5 { 0x100010000000000010000001 }
    else if y == 6 { 0x100000000000000000000001 }
    else if y == 7 { 0x100000000000000000000001 }
    else if y == 8 { 0x100000022222000000000001 }
    else if y == 9 { 0x100000020002000000000001 }
    else if y == 10 { 0x111100020002000001111111 }
    else if y == 11 { 0x100000022222000000000001 }
    else if y == 12 { 0x100000000000000000000001 }
    else if y == 13 { 0x100000000000000000000001 }
    else if y == 14 { 0x100110000000000011000001 }
    else if y == 15 { 0x100010333330000010000001 }
    else if y == 16 { 0x100000300030000000000001 }
    else if y == 17 { 0x100000300030000000000001 }
    else if y == 18 { 0x100000333330000000000001 }
    else if y == 19 { 0x100000000000000000000001 }
    else if y == 20 { 0x100000000000000011100001 }
    else if y == 21 { 0x100000000000000000400001 }
    else if y == 22 { 0x100000000000000000400001 }
    else { 0x111111111111111111111111 }
}

/// The cell type at (`x`, `y`): 0 for open floor, 1 to 5 for the kinds of
/// wall; outside the map, a regular wall.
pub fn cell_type(x: i64, y: i64) -> (c: u8)
    ensures
        c == map_cell(x as int, y as int),
{
    if x < 0 || y < 0 || x >= MAP_W as i64 || y >= MAP_H as i64 {
        return 1;
    }
    let row = row_of(y as usize);
    let shift: u128 = 4 * (23 - x as u128);
    ((row >> shift) & 0xf) as u8
}

/// Whether (`x`, `y`) blocks movement: every cell but open floor does, and
/// so does everything outside the map.
pub fn is_solid(x: i64, y: i64) -> (b: bool)
    ensures
        b == (map_cell(x as int, y as int) != 0),
{
    if x < 0 || y < 0 || x >= MAP_W as i64 || y >= MAP_H as i64 {
        return true;
    }
    cell_type(x, y) != 0
}

} // verus!
