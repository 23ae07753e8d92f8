//! Index arithmetic of the 9x9 grid.
//!
//! Cells are numbered row by row, 0 to 80. A cell lies in one of nine
//! sub-boards (its outer coordinate) at one of nine places within that
//! sub-board (its inner coordinate). Sub-boards and places are both numbered
//! row by row, 0 to 8.

use vstd::prelude::*;

verus! {

/// Number of cells on the board.
pub const CELLS: usize = 81;

/// Number of sub-boards, and of places within one sub-board.
pub const SUB_BOARDS: usize = 9;

/// Column of the sub-board that holds cell `c`.
pub open spec fn outer_x(c: int) -> int {
    (c % 9) / 3
}

/// Row of the sub-board that holds cell `c`.
pub open spec fn outer_y(c: int) -> int {
    c / 27
}

/// Column of cell `c` within its sub-board.
pub open spec fn inner_x(c: int) -> int {
    c % 3
}

/// Row of cell `c` within its sub-board.
pub open spec fn inner_y(c: int) -> int {
    (c / 9) % 3
}

/// Index of the sub-board that holds cell `c`.
pub open spec fn sub_board_of(c: int) -> int {
    outer_y(c) * 3 + outer_x(c)
}

/// Index of the place that cell `c` takes within its sub-board. This is also
/// the index of the sub-board that a move at `c` opens for the next move.
pub open spec fn place_of(c: int) -> int {
    inner_y(c) * 3 + inner_x(c)
}

/// The cell at place `k` of sub-board `sb`.
pub open spec fn cell_at(sb: int, k: int) -> int {
    (sb / 3) * 27 + (sb % 3) * 3 + (k / 3) * 9 + k % 3
}

/// Index of the sub-board that holds `cell`.
pub fn sub_board_index(cell: usize) -> (sb: usize)
    requires
        cell < CELLS,
    ensures
        sb == sub_board_of(cell as int),
        sb < SUB_BOARDS,
{
    (cell / 27) * 3 + (cell % 9) / 3
}

/// Index of the place of `cell` within its sub-board, which is the sub-board
/// that a move at `cell` sends the opponent to.
pub fn place_index(cell: usize) -> (k: usize)
    requires
        cell < CELLS,
    ensures
        k == place_of(cell as int),
        k < SUB_BOARDS,
{
    ((cell / 9) % 3) * 3 + cell % 3
}

/// The cell at place `k` of sub-board `sb`.
pub fn cell_index(sb: usize, k: usize) -> (cell: usize)
    requires
        sb < SUB_BOARDS,
        k < SUB_BOARDS,
    ensures
        cell == cell_at(sb as int, k as int),
        cell < CELLS,
        sub_board_of(cell as int) == sb,
        place_of(cell as int) == k,
{
    proof {
        cell_at_is_inverse(sb as int, k as int);
    }
    (sb / 3) * 27 + (sb % 3) * 3 + (k / 3) * 9 + k % 3
}

/// A cell is the cell at its own place of its own sub-board.
pub proof fn cell_at_own_place(c: int)
    requires
        0 <= c < 81,
    ensures
        0 <= sub_board_of(c) < 9,
        0 <= place_of(c) < 9,
        cell_at(sub_board_of(c), place_of(c)) == c,
{
}

/// The cell at place `k` of sub-board `sb` is on the board, lies in `sb`
/// and takes place `k` there.
pub proof fn cell_at_is_inverse(sb: int, k: int)
    requires
        0 <= sb < 9,
        0 <= k < 9,
    ensures
        0 <= cell_at(sb, k) < 81,
        sub_board_of(cell_at(sb, k)) == sb,
        place_of(cell_at(sb, k)) == k,
{
    let s: u8 = sb as u8;
    let p: u8 = k as u8;
    let c: u8 = ((s / 3) * 27 + (s % 3) * 3 + (p / 3) * 9 + p % 3) as u8;
    assert(s < 9 && p < 9 && c == (s / 3) * 27 + (s % 3) * 3 + (p / 3) * 9 + p % 3 ==> c < 81 && (c / 27)
        * 3 + (c % 9) / 3 == s && ((c / 9) % 3) * 3 + c % 3 == p) by (bit_vector);
}

} // verus!
