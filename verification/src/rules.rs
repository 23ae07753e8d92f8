//! The mathematical model of a game and the rules that act on it.
//!
//! A game is described by a [`GameState`]: the 81 cells, the 9 sub-board
//! results, the moves in play order, whose turn it is and which side the
//! local participant plays. [`playable`] says which cells may be played and
//! [`after_move`] says what a move does. Everything else in the crate is
//! stated in terms of these.

use crate::coords::{cell_at, cell_at_is_inverse, cell_at_own_place, place_of, sub_board_of};
use crate::player::Player;
use vstd::prelude::*;

verus! {

/// A 3x3 arrangement of optional owners, numbered row by row. Both a
/// sub-board's nine cells and the meta-board's nine sub-boards are grids.
pub type Grid = Seq<Option<Player>>;

/// `p` holds the three places `a`, `b` and `c` of `g`.
pub open spec fn holds_line(g: Grid, a: int, b: int, c: int, p: Player) -> bool {
    g[a] == Some(p) && g[b] == Some(p) && g[c] == Some(p)
}

/// `p` holds one of the eight lines of the 3x3 grid `g`: a row, a column or
/// one of the two diagonals.
pub open spec fn grid_won(g: Grid, p: Player) -> bool {
    ||| holds_line(g, 0, 1, 2, p)
    ||| holds_line(g, 3, 4, 5, p)
    ||| holds_line(g, 6, 7, 8, p)
    ||| holds_line(g, 0, 3, 6, p)
    ||| holds_line(g, 1, 4, 7, p)
    ||| holds_line(g, 2, 5, 8, p)
    ||| holds_line(g, 0, 4, 8, p)
    ||| holds_line(g, 2, 4, 6, p)
}

/// The nine cells of sub-board `sb`, as a grid.
pub open spec fn sub_grid(board: Seq<Option<Player>>, sb: int) -> Grid {
    Seq::new(9, |k: int| board[cell_at(sb, k)])
}

/// `p` holds a line of sub-board `sb`.
pub open spec fn sub_board_won(board: Seq<Option<Player>>, sb: int, p: Player) -> bool {
    grid_won(sub_grid(board, sb), p)
}

/// The cells of `board` that a player occupies.
pub open spec fn occupied_cells(board: Seq<Option<Player>>) -> Set<int> {
    Set::new(|c: int| 0 <= c < board.len() && board[c] is Some)
}

/// The player who makes the move with index `i` in play order: Cross moves
/// first, and the two alternate.
pub open spec fn mover(i: int) -> Player {
    if i % 2 == 0 {
        Player::Cross
    } else {
        Player::Nought
    }
}

/// Everything there is to know about a game.
pub struct GameState {
    /// Owner of each of the 81 cells, if it has one.
    pub board: Seq<Option<Player>>,
    /// Winner of each of the 9 sub-boards, if it has one.
    pub meta: Grid,
    /// The player to move, or `None` once the game has been won.
    pub turn: Option<Player>,
    /// The side that the next local input is attributed to.
    pub local: Player,
    /// The cells played, in play order.
    pub history: Seq<int>,
    /// Whether the opponent is a remote peer. If not, both sides are played
    /// locally and `local` follows the turn.
    pub networked: bool,
}

impl GameState {
    /// The state before the first move: nothing played, nothing decided,
    /// Cross to move.
    pub open spec fn initial(local: Player, networked: bool) -> GameState {
        GameState {
            board: Seq::new(81, |c: int| None),
            meta: Seq::new(9, |sb: int| None),
            turn: Some(Player::Cross),
            local,
            history: Seq::empty(),
            networked,
        }
    }

    /// The game has been won on the meta-board by one of the players.
    pub open spec fn decided(self) -> bool {
        grid_won(self.meta, Player::Nought) || grid_won(self.meta, Player::Cross)
    }

    /// What holds of every state that play can reach.
    pub open spec fn wf(self) -> bool {
        &&& self.board.len() == 81
        &&& self.meta.len() == 9
        &&& forall|i: int| 0 <= i < self.history.len() ==> 0 <= #[trigger] self.history[i] < 81
        &&& self.history.no_duplicates()
        &&& forall|c: int|
            0 <= c < 81 ==> (#[trigger] self.board[c] is Some <==> self.history.contains(c))
        &&& forall|i: int|
            0 <= i < self.history.len() ==> self.board[#[trigger] self.history[i]] == Some(mover(i))
        &&& forall|sb: int, p: Player|
            0 <= sb < 9 ==> (self.meta[sb] == Some(p) <==> #[trigger] sub_board_won(
                self.board,
                sb,
                p,
            ))
        &&& self.turn is None <==> self.decided()
        &&& self.turn is Some ==> self.turn == Some(mover(self.history.len() as int))
        &&& !self.networked && self.turn is Some ==> self.turn == Some(self.local)
    }
}

/// The sub-board that the next move must land in, where the last move was at
/// cell `last`: the one whose index is the place of `last` in its own
/// sub-board.
pub open spec fn open_sub_board(last: int) -> int {
    place_of(last)
}

/// Cell `c` may be played in state `s`: it is on the board and empty, its
/// sub-board is undecided, and, after the first move, its sub-board is the
/// open one unless the open one is already decided.
pub open spec fn playable(s: GameState, c: int) -> bool {
    &&& 0 <= c < 81
    &&& s.board[c] is None
    &&& s.meta[sub_board_of(c)] is None
    &&& s.history.len() > 0 ==> {
        ||| sub_board_of(c) == open_sub_board(s.history.last())
        ||| s.meta[open_sub_board(s.history.last())] is Some
    }
}

/// Player `p` may move at cell `c` in state `s`: it is `p`'s turn and the
/// cell is playable.
pub open spec fn legal(s: GameState, p: Player, c: int) -> bool {
    s.turn == Some(p) && playable(s, c)
}

/// The board after `p` has taken cell `c`.
pub open spec fn board_after(s: GameState, p: Player, c: int) -> Seq<Option<Player>> {
    s.board.update(c, Some(p))
}

/// The move of `p` at `c` completes a line of `c`'s sub-board.
pub open spec fn wins_sub_board(s: GameState, p: Player, c: int) -> bool {
    sub_board_won(board_after(s, p, c), sub_board_of(c), p)
}

/// The meta-board after `p` has taken cell `c`.
pub open spec fn meta_after(s: GameState, p: Player, c: int) -> Grid {
    if wins_sub_board(s, p, c) {
        s.meta.update(sub_board_of(c), Some(p))
    } else {
        s.meta
    }
}

/// The move of `p` at `c` completes a line of the meta-board and so wins the
/// game.
pub open spec fn wins_game(s: GameState, p: Player, c: int) -> bool {
    grid_won(meta_after(s, p, c), p)
}

/// The state after `p` has moved at `c`. The cell becomes `p`'s; the
/// sub-board becomes `p`'s if the move completes a line in it; the cell joins
/// the history; the game ends if the move completes a line of the meta-board,
/// and otherwise the turn passes to the opponent. Without a remote peer the
/// local side follows the turn.
pub open spec fn after_move(s: GameState, p: Player, c: int) -> GameState {
    GameState {
        board: board_after(s, p, c),
        meta: meta_after(s, p, c),
        turn: if wins_game(s, p, c) {
            None
        } else {
            Some(p.other())
        },
        local: if wins_game(s, p, c) || s.networked {
            s.local
        } else {
            p.other()
        },
        history: s.history.push(c),
        networked: s.networked,
    }
}

/// The initial state is well-formed when the local side of a game without a
/// remote peer is Cross, and whenever there is a remote peer.
pub proof fn initial_is_wf(local: Player, networked: bool)
    requires
        networked || local == Player::Cross,
    ensures
        GameState::initial(local, networked).wf(),
{
    let s = GameState::initial(local, networked);
    assert forall|sb: int, p: Player| 0 <= sb < 9 implies (s.meta[sb] == Some(p)
        <==> #[trigger] sub_board_won(s.board, sb, p)) by {
        cell_at_is_inverse(sb, 0);
        cell_at_is_inverse(sb, 2);
        cell_at_is_inverse(sb, 4);
        cell_at_is_inverse(sb, 6);
        assert(sub_grid(s.board, sb)[0] is None);
        assert(sub_grid(s.board, sb)[2] is None);
        assert(sub_grid(s.board, sb)[4] is None);
        assert(sub_grid(s.board, sb)[6] is None);
    }
}

/// Whether `p` holds one of the eight lines of the grid `g`.
pub fn holds_a_line(g: &[Option<Player>; 9], p: Player) -> (won: bool)
    ensures
        won == grid_won(g@, p),
{
    let a: bool = g[0] == Some(p);
    let b: bool = g[1] == Some(p);
    let c: bool = g[2] == Some(p);
    let d: bool = g[3] == Some(p);
    let e: bool = g[4] == Some(p);
    let f: bool = g[5] == Some(p);
    let h: bool = g[6] == Some(p);
    let i: bool = g[7] == Some(p);
    let j: bool = g[8] == Some(p);
    let rows: bool = (a && b && c) || (d && e && f) || (h && i && j);
    let columns: bool = (a && d && h) || (b && e && i) || (c && f && j);
    let diagonals: bool = e && ((a && j) || (c && h));
    rows || columns || diagonals
}

/// Taking a cell leaves the grids of all other sub-boards as they were.
pub proof fn sub_grid_elsewhere(board: Seq<Option<Player>>, c: int, v: Option<Player>, sb: int)
    requires
        board.len() == 81,
        0 <= c < 81,
        0 <= sb < 9,
        sb != sub_board_of(c),
    ensures
        sub_grid(board.update(c, v), sb) == sub_grid(board, sb),
{
    assert forall|k: int| 0 <= k < 9 implies sub_grid(board.update(c, v), sb)[k] == sub_grid(
        board,
        sb,
    )[k] by {
        cell_at_is_inverse(sb, k);
    }
    assert(sub_grid(board.update(c, v), sb) =~= sub_grid(board, sb));
}

/// Taking a cell changes the grid of its own sub-board at the cell's place,
/// and nowhere else.
pub proof fn sub_grid_at_home(board: Seq<Option<Player>>, c: int, v: Option<Player>)
    requires
        board.len() == 81,
        0 <= c < 81,
    ensures
        0 <= sub_board_of(c) < 9,
        0 <= place_of(c) < 9,
        sub_grid(board.update(c, v), sub_board_of(c)) == sub_grid(board, sub_board_of(c)).update(
            place_of(c),
            v,
        ),
{
    let sb = sub_board_of(c);
    cell_at_own_place(c);
    assert forall|k: int| 0 <= k < 9 implies sub_grid(board.update(c, v), sb)[k] == sub_grid(
        board,
        sb,
    ).update(place_of(c), v)[k] by {
        cell_at_is_inverse(sb, k);
    }
    assert(sub_grid(board.update(c, v), sb) =~= sub_grid(board, sb).update(place_of(c), v));
}

/// A player who holds no line of a grid holds none after the opponent has
/// taken a place of it.
pub proof fn no_line_from_opponent(g: Grid, k: int, p: Player, r: Player)
    requires
        g.len() == 9,
        0 <= k < 9,
        r != p,
        !grid_won(g, r),
    ensures
        !grid_won(g.update(k, Some(p)), r),
{
}

/// A legal move leaves the history without repetition, and the occupied
/// cells are still exactly the cells of the history, each held by the player
/// whose move it was.
proof fn history_after_move(s: GameState, p: Player, c: int)
    requires
        s.wf(),
        legal(s, p, c),
    ensures
        ({
            let t = after_move(s, p, c);
            &&& t.history.no_duplicates()
            &&& forall|i: int| 0 <= i < t.history.len() ==> 0 <= #[trigger] t.history[i] < 81
            &&& forall|x: int|
                0 <= x < 81 ==> (#[trigger] t.board[x] is Some <==> t.history.contains(x))
            &&& forall|i: int|
                0 <= i < t.history.len() ==> t.board[#[trigger] t.history[i]] == Some(mover(i))
        }),
{
    let t = after_move(s, p, c);
    let n = s.history.len() as int;
    assert(!s.history.contains(c));
    assert forall|x: int| 0 <= x < 81 implies (#[trigger] t.board[x] is Some
        <==> t.history.contains(x)) by {
        if x == c {
            assert(t.history[n] == c);
        } else if s.history.contains(x) {
            let i = choose|i: int| 0 <= i < s.history.len() && s.history[i] == x;
            assert(t.history[i] == x);
        } else if t.history.contains(x) {
            let i = choose|i: int| 0 <= i < t.history.len() && t.history[i] == x;
            assert(s.history[i] == x);
        }
    }
    assert forall|i: int| 0 <= i < t.history.len() implies t.board[#[trigger] t.history[i]]
        == Some(mover(i)) by {
        if i < n {
            assert(s.history.contains(s.history[i]));
            assert(s.board[s.history[i]] == Some(mover(i)));
        }
    }
}

/// After a legal move every sub-board is marked for a player exactly if that
/// player holds a line of it.
proof fn meta_after_move(s: GameState, p: Player, c: int)
    requires
        s.wf(),
        legal(s, p, c),
    ensures
        ({
            let t = after_move(s, p, c);
            forall|sb: int, r: Player|
                0 <= sb < 9 ==> (t.meta[sb] == Some(r) <==> #[trigger] sub_board_won(
                    t.board,
                    sb,
                    r,
                ))
        }),
{
    let t = after_move(s, p, c);
    let home = sub_board_of(c);
    sub_grid_at_home(s.board, c, Some(p));
    assert forall|sb: int, r: Player| 0 <= sb < 9 implies (t.meta[sb] == Some(r)
        <==> #[trigger] sub_board_won(t.board, sb, r)) by {
        assert(s.meta[sb] == Some(r) <==> sub_board_won(s.board, sb, r));
        if sb != home {
            sub_grid_elsewhere(s.board, c, Some(p), sb);
        } else if r != p {
            assert(!sub_board_won(s.board, sb, r));
            no_line_from_opponent(sub_grid(s.board, sb), place_of(c), p, r);
        }
    }
}

/// A legal move leads from a well-formed state to a well-formed state.
pub proof fn after_move_is_wf(s: GameState, p: Player, c: int)
    requires
        s.wf(),
        legal(s, p, c),
    ensures
        after_move(s, p, c).wf(),
{
    let t = after_move(s, p, c);
    let q = p.other();
    history_after_move(s, p, c);
    meta_after_move(s, p, c);
    assert(0 <= sub_board_of(c) < 9) by {
        cell_at_own_place(c);
    }
    assert(!grid_won(t.meta, q)) by {
        assert(!grid_won(s.meta, q));
        if wins_sub_board(s, p, c) {
            no_line_from_opponent(s.meta, sub_board_of(c), p, q);
        }
    }
    assert(t.turn is Some ==> t.turn == Some(mover(t.history.len() as int)));
}

} // verus!
