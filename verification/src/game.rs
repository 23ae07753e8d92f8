//! The game itself: the board, the meta-board, the history and the turn,
//! with the operations that query and advance them.

use crate::coords::{cell_index, place_index, sub_board_index, sub_board_of, CELLS, SUB_BOARDS};
use crate::player::Player;
use crate::rules::{
    after_move, after_move_is_wf, holds_a_line, initial_is_wf, legal, playable, sub_grid,
    wins_game, wins_sub_board, GameState,
};
use crate::transport::{decode_move, encode_move, wire_byte, wire_cell};
use vstd::prelude::*;

verus! {

/// Why a move was turned down. A move that is turned down changes nothing.
#[derive(Clone, Copy, Debug, PartialEq, Eq, Structural)]
pub enum MoveError {
    /// The cell index, or the byte received for it, is not below 81.
    OutOfRange,
    /// The game has already been won.
    GameOver,
    /// It is the other player's turn.
    WrongTurn,
    /// The cell is occupied, lies in a decided sub-board, or lies outside
    /// the open sub-board while that one is undecided.
    NotPlayable,
}

/// What a move brought about, beyond taking its cell.
#[derive(Clone, Copy, Debug, PartialEq, Eq)]
pub struct MoveOutcome {
    /// The sub-board that the move won, if it won one.
    pub won_sub_board: Option<usize>,
    /// Whether the move won the game.
    pub won_game: bool,
    /// The byte to send to the remote peer: present exactly if there is a
    /// peer and the move was made by the local side.
    pub outbound: Option<u8>,
}

/// The reason for which the move of `p` at `c` is turned down in state `s`,
/// if it is. The reasons are tried in the order in which [`MoveError`] lists
/// them.
pub open spec fn rejection(s: GameState, p: Player, c: int) -> Option<MoveError> {
    if !(0 <= c < 81) {
        Some(MoveError::OutOfRange)
    } else if s.turn is None {
        Some(MoveError::GameOver)
    } else if s.turn != Some(p) {
        Some(MoveError::WrongTurn)
    } else if !playable(s, c) {
        Some(MoveError::NotPlayable)
    } else {
        None
    }
}

/// What the legal move of `p` at `c` in state `s` reports.
pub open spec fn outcome_of(s: GameState, p: Player, c: int) -> MoveOutcome {
    MoveOutcome {
        won_sub_board: if wins_sub_board(s, p, c) {
            Some(sub_board_of(c) as usize)
        } else {
            None
        },
        won_game: wins_game(s, p, c),
        outbound: if s.networked && p == s.local {
            Some(wire_byte(c))
        } else {
            None
        },
    }
}

/// The cells of a stored history, as mathematical integers.
pub open spec fn cells_of(moves: Seq<usize>) -> Seq<int> {
    moves.map_values(|c: usize| c as int)
}

/// A game of ultimate tic-tac-toe in progress or finished.
pub struct Ultimate {
    tiles: [Option<Player>; 81],
    minisquares: [Option<Player>; 9],
    whose_turn: Option<Player>,
    local_player: Player,
    history: Vec<usize>,
    networked: bool,
}

impl View for Ultimate {
    type V = GameState;

    closed spec fn view(&self) -> GameState {
        GameState {
            board: self.tiles@,
            meta: self.minisquares@,
            turn: self.whose_turn,
            local: self.local_player,
            history: cells_of(self.history@),
            networked: self.networked,
        }
    }
}

impl Ultimate {
    /// The game satisfies everything that play maintains: see
    /// [`GameState::wf`].
    pub open spec fn wf(&self) -> bool {
        self@.wf()
    }

    /// A new game in which both sides are played locally. Cross moves first.
    pub fn local_multiplayer() -> (game: Ultimate)
        ensures
            game.wf(),
            game@ == GameState::initial(Player::Cross, false),
    {
        let game = Ultimate {
            tiles: [None; 81],
            minisquares: [None; 9],
            whose_turn: Some(Player::Cross),
            local_player: Player::Cross,
            history: Vec::new(),
            networked: false,
        };
        proof {
            let s = GameState::initial(Player::Cross, false);
            assert(game@.board =~= s.board);
            assert(game@.meta =~= s.meta);
            assert(game@.history =~= s.history);
            initial_is_wf(Player::Cross, false);
        }
        game
    }

    /// A new game against a remote peer, in which the local participant
    /// plays `local_player` throughout. Cross moves first.
    pub fn network_multiplayer(local_player: Player) -> (game: Ultimate)
        ensures
            game.wf(),
            game@ == GameState::initial(local_player, true),
    {
        let game = Ultimate {
            tiles: [None; 81],
            minisquares: [None; 9],
            whose_turn: Some(Player::Cross),
            local_player,
            history: Vec::new(),
            networked: true,
        };
        proof {
            let s = GameState::initial(local_player, true);
            assert(game@.board =~= s.board);
            assert(game@.meta =~= s.meta);
            assert(game@.history =~= s.history);
            initial_is_wf(local_player, true);
        }
        game
    }

    /// Whether the cell `coord` may be played now. Indices off the board are
    /// never playable.
    pub fn is_playable(&self, coord: usize) -> (ok: bool)
        requires
            self.wf(),
        ensures
            ok == playable(self@, coord as int),
    {
        if coord >= CELLS {
            return false;
        }
        let home: usize = sub_board_index(coord);
        let mut ok: bool = self.tiles[coord].is_none() && self.minisquares[home].is_none();
        let played: usize = self.history.len();
        if played > 0 {
            let last: usize = self.history[played - 1];
            assert(self@.history[played - 1] == last as int);
            let open: usize = place_index(last);
            ok = ok && (home == open || self.minisquares[open].is_some());
        }
        ok
    }

    /// The nine cells of sub-board `sb`, in the order of their places.
    fn sub_board(&self, sb: usize) -> (g: [Option<Player>; 9])
        requires
            sb < SUB_BOARDS,
        ensures
            g@ == sub_grid(self@.board, sb as int),
    {
        let mut g: [Option<Player>; 9] = [None; 9];
        let mut k: usize = 0;
        while k < 9
            invariant
                sb < SUB_BOARDS,
                k <= 9,
                forall|j: int| 0 <= j < k ==> g@[j] == sub_grid(self@.board, sb as int)[j],
            decreases 9 - k,
        {
            let cell: usize = cell_index(sb, k);
            g[k] = self.tiles[cell];
            k = k + 1;
        }
        assert(g@ =~= sub_grid(self@.board, sb as int));
        g
    }

    /// Carries out a legal move: takes the cell, settles the sub-board and
    /// the game, records the move and passes the turn.
    fn play(&mut self, player: Player, cell: usize) -> (outcome: MoveOutcome)
        requires
            old(self).wf(),
            legal(old(self)@, player, cell as int),
        ensures
            final(self).wf(),
            final(self)@ == after_move(old(self)@, player, cell as int),
            outcome == outcome_of(old(self)@, player, cell as int),
    {
        let ghost before = self@;
        let outbound: Option<u8> = if self.networked && self.local_player == player {
            Some(encode_move(cell))
        } else {
            None
        };
        self.tiles[cell] = Some(player);

        let home: usize = sub_board_index(cell);
        let cells: [Option<Player>; 9] = self.sub_board(home);
        let won_sub_board: bool = holds_a_line(&cells, player);
        if won_sub_board {
            self.minisquares[home] = Some(player);
        }
        let won_game: bool = holds_a_line(&self.minisquares, player);

        self.history.push(cell);

        if won_game {
            self.whose_turn = None;
        } else {
            let next: Player = player.opponent();
            self.whose_turn = Some(next);
            if !self.networked {
                self.local_player = next;
            }
        }
        proof {
            let after = after_move(before, player, cell as int);
            assert(self@.history =~= after.history);
            assert(self@.board == after.board);
            assert(self@.meta == after.meta);
            assert(self@ == after);
            after_move_is_wf(before, player, cell as int);
        }
        MoveOutcome {
            won_sub_board: if won_sub_board {
                Some(home)
            } else {
                None
            },
            won_game,
            outbound,
        }
    }

    /// Moves for `player` at `cell` if that is legal, and reports what the
    /// move brought about. An illegal move is turned down with the reason
    /// and changes nothing.
    pub fn apply_move(&mut self, player: Player, cell: usize) -> (res: Result<
        MoveOutcome,
        MoveError,
    >)
        requires
            old(self).wf(),
        ensures
            final(self).wf(),
            res is Ok <==> legal(old(self)@, player, cell as int),
            match res {
                Ok(outcome) => {
                    &&& final(self)@ == after_move(old(self)@, player, cell as int)
                    &&& outcome == outcome_of(old(self)@, player, cell as int)
                },
                Err(reason) => {
                    &&& *final(self) == *old(self)
                    &&& rejection(old(self)@, player, cell as int) == Some(reason)
                },
            },
    {
        if cell >= CELLS {
            return Err(MoveError::OutOfRange);
        }
        match self.whose_turn {
            None => {
                return Err(MoveError::GameOver);
            },
            Some(mover) => {
                if mover != player {
                    return Err(MoveError::WrongTurn);
                }
            },
        }
        if !self.is_playable(cell) {
            return Err(MoveError::NotPlayable);
        }
        Ok(self.play(player, cell))
    }

    /// Moves for the local side at `coord`. The caller has made sure that
    /// the move is legal.
    pub fn make_move(&mut self, coord: usize) -> (outcome: MoveOutcome)
        requires
            old(self).wf(),
            legal(old(self)@, old(self)@.local, coord as int),
        ensures
            final(self).wf(),
            final(self)@ == after_move(old(self)@, old(self)@.local, coord as int),
            outcome == outcome_of(old(self)@, old(self)@.local, coord as int),
    {
        let player: Player = self.local_player;
        self.play(player, coord)
    }

    /// Moves for the local side at `cell` after checking that the move is
    /// legal. With a remote peer the outcome carries the byte to send.
    pub fn submit_move(&mut self, cell: usize) -> (res: Result<MoveOutcome, MoveError>)
        requires
            old(self).wf(),
        ensures
            final(self).wf(),
            res is Ok <==> legal(old(self)@, old(self)@.local, cell as int),
            match res {
                Ok(outcome) => {
                    &&& final(self)@ == after_move(old(self)@, old(self)@.local, cell as int)
                    &&& outcome == outcome_of(old(self)@, old(self)@.local, cell as int)
                },
                Err(reason) => {
                    &&& *final(self) == *old(self)
                    &&& rejection(old(self)@, old(self)@.local, cell as int) == Some(reason)
                },
            },
    {
        let player: Player = self.local_player;
        self.apply_move(player, cell)
    }

    /// Applies a byte received from the remote peer as a move of the side
    /// that is not the local one. A byte that names no cell, and a move that
    /// is not legal, is turned down and changes nothing.
    pub fn receive_move(&mut self, byte: u8) -> (res: Result<MoveOutcome, MoveError>)
        requires
            old(self).wf(),
        ensures
            final(self).wf(),
            res is Ok <==> wire_cell(byte) is Some && legal(
                old(self)@,
                old(self)@.local.other(),
                wire_cell(byte)->0,
            ),
            match res {
                Ok(outcome) => {
                    &&& final(self)@ == after_move(
                        old(self)@,
                        old(self)@.local.other(),
                        wire_cell(byte)->0,
                    )
                    &&& outcome == outcome_of(
                        old(self)@,
                        old(self)@.local.other(),
                        wire_cell(byte)->0,
                    )
                },
                Err(reason) => {
                    &&& *final(self) == *old(self)
                    &&& Some(reason) == rejection(
                        old(self)@,
                        old(self)@.local.other(),
                        byte as int,
                    )
                },
            },
    {
        let remote: Player = self.local_player.opponent();
        match decode_move(byte) {
            None => Err(MoveError::OutOfRange),
            Some(cell) => self.apply_move(remote, cell),
        }
    }

    /// Whether any cell at all may be played now. Where none may and the
    /// game has not been won, the game is a draw: the turn stays with the
    /// player who cannot move.
    pub fn has_playable_cell(&self) -> (any: bool)
        requires
            self.wf(),
        ensures
            any == exists|c: int| playable(self@, c),
    {
        let mut cell: usize = 0;
        while cell < CELLS
            invariant
                self.wf(),
                cell <= CELLS,
                forall|c: int| 0 <= c < cell ==> !playable(self@, c),
            decreases CELLS - cell,
        {
            if self.is_playable(cell) {
                return true;
            }
            cell = cell + 1;
        }
        false
    }

    /// The player who holds `cell`, if the cell is on the board and held.
    pub fn cell_content(&self, cell: usize) -> (content: Option<Player>)
        ensures
            content == if cell < 81 {
                self@.board[cell as int]
            } else {
                None
            },
    {
        if cell < CELLS {
            self.tiles[cell]
        } else {
            None
        }
    }

    /// The player who has won sub-board `sb`, if there is such a sub-board
    /// and it has been won.
    pub fn sub_board_winner(&self, sb: usize) -> (winner: Option<Player>)
        ensures
            winner == if sb < 9 {
                self@.meta[sb as int]
            } else {
                None
            },
    {
        if sb < SUB_BOARDS {
            self.minisquares[sb]
        } else {
            None
        }
    }

    /// The player to move, or `None` once the game has been won.
    pub fn current_turn(&self) -> (turn: Option<Player>)
        ensures
            turn == self@.turn,
    {
        self.whose_turn
    }

    /// The side that the next local input is attributed to.
    pub fn local_player(&self) -> (local: Player)
        ensures
            local == self@.local,
    {
        self.local_player
    }

    /// Whether the next move is the local side's to make.
    pub fn is_local_turn(&self) -> (mine: bool)
        ensures
            mine == (self@.turn == Some(self@.local)),
    {
        match self.whose_turn {
            Some(player) => player == self.local_player,
            None => false,
        }
    }

    /// Whether the opponent is a remote peer.
    pub fn is_networked(&self) -> (networked: bool)
        ensures
            networked == self@.networked,
    {
        self.networked
    }

    /// The cells played so far, in play order.
    pub fn history(&self) -> (moves: &Vec<usize>)
        ensures
            cells_of(moves@) == self@.history,
    {
        &self.history
    }
}

} // verus!
