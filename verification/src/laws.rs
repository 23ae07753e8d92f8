//! Laws of the game, proved from the model in [`crate::rules`].
//!
//! Each law is a proof function: its `requires` is what the law assumes and
//! its `ensures` is what it states.

use crate::coords::{cell_at_own_place, sub_board_of};
use crate::game::{outcome_of, rejection, MoveError};
use crate::player::Player;
use crate::rules::{
    after_move, after_move_is_wf, initial_is_wf, legal, occupied_cells, open_sub_board, playable,
    wins_game, GameState,
};
use crate::transport::{wire_byte, wire_cell};
use vstd::prelude::*;

verus! {

/// The cells `cells` can be played one after another from state `s`, each by
/// the player whose turn it then is.
pub open spec fn legal_run(s: GameState, cells: Seq<int>) -> bool
    decreases cells.len(),
{
    cells.len() == 0 || {
        &&& s.turn is Some
        &&& playable(s, cells[0])
        &&& legal_run(after_move(s, s.turn->0, cells[0]), cells.drop_first())
    }
}

/// The state that playing `cells` one after another from `s` leads to, each
/// cell played by the player whose turn it then is.
pub open spec fn after_run(s: GameState, cells: Seq<int>) -> GameState
    decreases cells.len(),
{
    if cells.len() == 0 {
        s
    } else {
        after_run(after_move(s, s.turn->0, cells[0]), cells.drop_first())
    }
}

/// Two states show the same game: the same cells, sub-board results,
/// history and turn. They may differ in which side is the local one.
pub open spec fn same_game(a: GameState, b: GameState) -> bool {
    &&& a.board == b.board
    &&& a.meta == b.meta
    &&& a.history == b.history
    &&& a.turn == b.turn
}

/// A move is carried out exactly if nothing speaks against it.
pub proof fn legal_iff_not_rejected(s: GameState, p: Player, c: int)
    ensures
        legal(s, p, c) <==> rejection(s, p, c) is None,
{
}

/// Funnel rule: once a move has been made, a cell is playable only if it
/// lies in the sub-board that the last move opened, or that sub-board is
/// already decided.
pub proof fn playable_obeys_funnel(s: GameState, c: int)
    requires
        s.history.len() > 0,
        playable(s, c),
    ensures
        sub_board_of(c) == open_sub_board(s.history.last()) || s.meta[open_sub_board(
            s.history.last(),
        )] is Some,
{
}

/// A playable cell is empty and lies in an undecided sub-board, so no move
/// takes a cell twice or plays into a decided sub-board.
pub proof fn playable_is_free(s: GameState, c: int)
    requires
        playable(s, c),
    ensures
        0 <= c < 81,
        s.board[c] is None,
        s.meta[sub_board_of(c)] is None,
{
}

/// A legal move changes no cell but the one it takes, which was empty: every
/// occupied cell keeps its owner.
pub proof fn move_keeps_occupied_cells(s: GameState, p: Player, c: int, x: int)
    requires
        s.wf(),
        legal(s, p, c),
        0 <= x < 81,
        s.board[x] is Some,
    ensures
        after_move(s, p, c).board[x] == s.board[x],
{
}

/// A legal move changes no sub-board result but that of the sub-board it
/// lands in, which was undecided: every decided sub-board keeps its winner.
pub proof fn move_keeps_decided_sub_boards(s: GameState, p: Player, c: int, sb: int)
    requires
        s.wf(),
        legal(s, p, c),
        0 <= sb < 9,
        s.meta[sb] is Some,
    ensures
        after_move(s, p, c).meta[sb] == s.meta[sb],
{
    cell_at_own_place(c);
}

/// A legal move lengthens the history by the cell played and leaves the
/// earlier moves as they were.
pub proof fn move_extends_history(s: GameState, p: Player, c: int)
    requires
        legal(s, p, c),
    ensures
        after_move(s, p, c).history.len() == s.history.len() + 1,
        after_move(s, p, c).history.last() == c,
        after_move(s, p, c).history.drop_last() == s.history,
{
    assert(after_move(s, p, c).history.drop_last() =~= s.history);
}

/// Turn alternation: a legal move that does not win the game passes the turn
/// to the opponent, and one that wins it leaves nobody to move.
pub proof fn turn_alternates(s: GameState, p: Player, c: int)
    requires
        legal(s, p, c),
    ensures
        !wins_game(s, p, c) ==> after_move(s, p, c).turn == Some(p.other()),
        wins_game(s, p, c) ==> after_move(s, p, c).turn is None,
{
}

/// Once the game is over no move is legal, for either player at any cell.
pub proof fn no_move_after_the_end(s: GameState, p: Player, c: int)
    requires
        s.turn is None,
    ensures
        !legal(s, p, c),
        rejection(s, p, c) is Some,
        0 <= c < 81 ==> rejection(s, p, c) == Some(MoveError::GameOver),
{
}

/// In a state that play can reach, nobody is to move exactly if a player
/// holds a line of the meta-board.
pub proof fn over_iff_meta_board_won(s: GameState)
    requires
        s.wf(),
    ensures
        s.turn is None <==> s.decided(),
{
}

/// Play leads from well-formed states to well-formed states only.
pub proof fn run_is_wf(s: GameState, cells: Seq<int>)
    requires
        s.wf(),
        legal_run(s, cells),
    ensures
        after_run(s, cells).wf(),
    decreases cells.len(),
{
    if cells.len() > 0 {
        after_move_is_wf(s, s.turn->0, cells[0]);
        run_is_wf(after_move(s, s.turn->0, cells[0]), cells.drop_first());
    }
}

/// Monotonic occupancy: a cell that a player holds is held by that player
/// after any further play.
pub proof fn occupancy_is_permanent(s: GameState, cells: Seq<int>, x: int)
    requires
        s.wf(),
        legal_run(s, cells),
        0 <= x < 81,
        s.board[x] is Some,
    ensures
        after_run(s, cells).board[x] == s.board[x],
    decreases cells.len(),
{
    if cells.len() > 0 {
        let p = s.turn->0;
        let t = after_move(s, p, cells[0]);
        after_move_is_wf(s, p, cells[0]);
        move_keeps_occupied_cells(s, p, cells[0], x);
        occupancy_is_permanent(t, cells.drop_first(), x);
    }
}

/// Monotonic meta-board: a sub-board that a player has won is held by that
/// player after any further play.
pub proof fn decision_is_permanent(s: GameState, cells: Seq<int>, sb: int)
    requires
        s.wf(),
        legal_run(s, cells),
        0 <= sb < 9,
        s.meta[sb] is Some,
    ensures
        after_run(s, cells).meta[sb] == s.meta[sb],
    decreases cells.len(),
{
    if cells.len() > 0 {
        let p = s.turn->0;
        let t = after_move(s, p, cells[0]);
        after_move_is_wf(s, p, cells[0]);
        move_keeps_decided_sub_boards(s, p, cells[0], sb);
        decision_is_permanent(t, cells.drop_first(), sb);
    }
}

/// A finished game stays finished: no play is possible from a state in
/// which nobody is to move.
pub proof fn the_end_is_permanent(s: GameState, cells: Seq<int>)
    requires
        s.turn is None,
        legal_run(s, cells),
    ensures
        cells.len() == 0,
        after_run(s, cells) == s,
{
}

/// In a state that play can reach, the number of moves made is the number
/// of occupied cells.
pub proof fn history_counts_occupied_cells(s: GameState)
    requires
        s.wf(),
    ensures
        occupied_cells(s.board).finite(),
        occupied_cells(s.board).len() == s.history.len(),
        s.history.len() <= 81,
{
    broadcast use vstd::seq_lib::seq_to_set_is_finite;

    assert(occupied_cells(s.board) =~= s.history.to_set()) by {
        assert forall|c: int| occupied_cells(s.board).contains(c) implies s.history.to_set().contains(
            c,
        ) by {
            assert(s.board[c] is Some);
        }
        assert forall|c: int| s.history.to_set().contains(c) implies occupied_cells(
            s.board,
        ).contains(c) by {
            let i = choose|i: int| 0 <= i < s.history.len() && s.history[i] == c;
            assert(0 <= s.history[i] < 81);
            assert(s.board[c] is Some);
        }
    }
    s.history.unique_seq_to_set();
    let all = Set::new(|c: int| 0 <= c < 81);
    assert(all =~= vstd::set_lib::set_int_range(0, 81));
    vstd::set_lib::lemma_int_range(0, 81);
    vstd::set_lib::lemma_len_subset(occupied_cells(s.board), all);
}

/// History and occupancy: after any sequence of legal moves from the start
/// of a game, the number of moves made is the number of occupied cells.
pub proof fn history_matches_occupancy(local: Player, networked: bool, cells: Seq<int>)
    requires
        networked || local == Player::Cross,
        legal_run(GameState::initial(local, networked), cells),
    ensures
        ({
            let s = after_run(GameState::initial(local, networked), cells);
            &&& s.wf()
            &&& occupied_cells(s.board).len() == s.history.len()
        }),
{
    let start = GameState::initial(local, networked);
    initial_is_wf(local, networked);
    run_is_wf(start, cells);
    history_counts_occupied_cells(after_run(start, cells));
}

/// Transport round trip: where two peers see the same game and one of them
/// moves, the byte that it sends, applied by the other as a move of its
/// remote side, is legal there and leaves both seeing the same game again.
pub proof fn peers_stay_in_step(here: GameState, there: GameState, c: int)
    requires
        here.networked,
        there.networked,
        same_game(here, there),
        there.local == here.local.other(),
        legal(here, here.local, c),
    ensures
        outcome_of(here, here.local, c).outbound == Some(wire_byte(c)),
        wire_cell(wire_byte(c)) == Some(c),
        legal(there, there.local.other(), c),
        same_game(after_move(here, here.local, c), after_move(there, there.local.other(), c)),
        after_move(here, here.local, c).local == here.local,
        after_move(there, there.local.other(), c).local == there.local,
{
}

} // verus!
