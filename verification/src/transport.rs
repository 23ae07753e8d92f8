//! The wire format of a move: one unsigned byte whose value is the cell
//! index. There is no framing; the order of bytes is the order of moves.

use crate::coords::CELLS;
use vstd::prelude::*;

verus! {

/// The port on which the hosting peer listens for the one connection of a
/// session.
pub const PORT: u16 = 25567;

/// Number of moves that may wait to be sent. One is enough: the local side
/// cannot move again before the peer has answered.
pub const SEND_QUEUE: usize = 1;

/// The byte that stands for cell `c` on the wire.
pub open spec fn wire_byte(c: int) -> u8
    recommends
        0 <= c < 81,
{
    c as u8
}

/// The cell that byte `b` stands for, if it stands for one. Bytes from 81 on
/// are never sent and stand for nothing.
pub open spec fn wire_cell(b: u8) -> Option<int> {
    if b < 81 {
        Some(b as int)
    } else {
        None
    }
}

/// Encodes a cell index for sending.
pub fn encode_move(cell: usize) -> (byte: u8)
    requires
        cell < CELLS,
    ensures
        byte == wire_byte(cell as int),
        byte as int == cell as int,
{
    cell as u8
}

/// Decodes a received byte. A byte that names no cell is a protocol error
/// and gives `None`.
pub fn decode_move(byte: u8) -> (cell: Option<usize>)
    ensures
        match cell {
            Some(c) => wire_cell(byte) == Some(c as int),
            None => wire_cell(byte) is None,
        },
{
    if byte < 81 {
        Some(byte as usize)
    } else {
        None
    }
}

/// Every cell index survives the wire: decoding the byte that encodes it
/// gives the index back.
pub proof fn wire_round_trip(c: int)
    requires
        0 <= c < 81,
    ensures
        wire_cell(wire_byte(c)) == Some(c),
{
}

/// No two cells share a byte, and every byte that decodes is the encoding of
/// the cell it decodes to.
pub proof fn wire_is_faithful(b: u8)
    ensures
        wire_cell(b) is Some ==> 0 <= wire_cell(b)->0 < 81 && wire_byte(wire_cell(b)->0) == b,
{
}

} // verus!
