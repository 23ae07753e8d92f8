use ultimate3::coords::{cell_index, place_index, sub_board_index};
use ultimate3::game::{MoveError, MoveOutcome, Ultimate};
use ultimate3::player::Player;

fn play_all(game: &mut Ultimate, cells: &[usize]) -> Vec<MoveOutcome> {
    let mut outcomes = Vec::new();
    for &cell in cells {
        let player = game.current_turn().expect("the game is still on");
        outcomes.push(game.apply_move(player, cell).expect("the move is legal"));
    }
    outcomes
}

fn playable_cells(game: &Ultimate) -> Vec<usize> {
    (0..81).filter(|&c| game.is_playable(c)).collect()
}

fn decided(game: &Ultimate) -> Vec<Option<Player>> {
    (0..9).map(|sb| game.sub_board_winner(sb)).collect()
}

#[test]
fn row_win_marks_sub_board_on_third_cell() {
    let mut game = Ultimate::local_multiplayer();
    let outcomes = play_all(&mut game, &[0, 18, 74, 60, 1, 3]);
    assert!(outcomes.iter().all(|o| o.won_sub_board.is_none() && !o.won_game));
    assert_eq!(game.sub_board_winner(0), None);
    assert_eq!(game.cell_content(0), Some(Player::Cross));
    assert_eq!(game.cell_content(1), Some(Player::Cross));
    assert_eq!(game.current_turn(), Some(Player::Cross));

    let last = game.apply_move(Player::Cross, 2).unwrap();
    assert_eq!(last, MoveOutcome { won_sub_board: Some(0), won_game: false, outbound: None });
    assert_eq!(game.sub_board_winner(0), Some(Player::Cross));
    for sb in 1..9 {
        assert_eq!(game.sub_board_winner(sb), None);
    }
    assert_eq!(game.current_turn(), Some(Player::Nought));
}

#[test]
fn main_diagonal_wins_sub_board() {
    let corner = cell_index(0, 0);
    let centre = cell_index(0, 4);
    let opposite = cell_index(0, 8);
    assert_eq!((corner, centre, opposite), (0, 10, 20));

    let mut game = Ultimate::local_multiplayer();
    play_all(&mut game, &[0, 19, 59, 6, 10, 30]);
    assert_eq!(game.sub_board_winner(0), None);
    let last = game.apply_move(Player::Cross, 20).unwrap();
    assert_eq!(last.won_sub_board, Some(0));
    assert!(!last.won_game);
    assert_eq!(game.sub_board_winner(0), Some(Player::Cross));
}

#[test]
fn anti_diagonal_wins_sub_board() {
    assert_eq!((cell_index(0, 2), cell_index(0, 4), cell_index(0, 6)), (2, 10, 18));

    let mut game = Ultimate::local_multiplayer();
    play_all(&mut game, &[2, 6, 10, 30]);
    assert_eq!(game.sub_board_winner(0), None);
    let last = game.apply_move(Player::Cross, 18).unwrap();
    assert_eq!(last.won_sub_board, Some(0));
    assert_eq!(game.sub_board_winner(0), Some(Player::Cross));
}

#[test]
fn diagonal_completed_at_the_centre_wins_sub_board() {
    let mut game = Ultimate::local_multiplayer();
    play_all(&mut game, &[0, 11, 51, 54, 20, 60]);
    assert_eq!(game.sub_board_winner(0), None);
    let last = game.apply_move(Player::Cross, 10).unwrap();
    assert_eq!(last.won_sub_board, Some(0));
    assert_eq!(game.sub_board_winner(0), Some(Player::Cross));

    let mut game = Ultimate::local_multiplayer();
    play_all(&mut game, &[2, 6, 18, 54]);
    let last = game.apply_move(Player::Cross, 10).unwrap();
    assert_eq!(last.won_sub_board, Some(0));
    assert_eq!(game.sub_board_winner(0), Some(Player::Cross));
}

#[test]
fn column_and_bottom_row_win_sub_board() {
    let mut game = Ultimate::local_multiplayer();
    play_all(&mut game, &[0, 2, 17, 33, 9, 27]);
    let last = game.apply_move(Player::Cross, 18).unwrap();
    assert_eq!(last.won_sub_board, Some(0));

    let mut game = Ultimate::local_multiplayer();
    play_all(&mut game, &[18, 54, 20, 60]);
    let last = game.apply_move(Player::Cross, 19).unwrap();
    assert_eq!(last.won_sub_board, Some(0));
    assert_eq!(game.sub_board_winner(0), Some(Player::Cross));
}

#[test]
fn cells_0_4_8_of_the_board_are_no_line() {
    // Cells 0, 4 and 8 lie in three different sub-boards.
    assert_eq!(sub_board_index(0), 0);
    assert_eq!(sub_board_index(4), 1);
    assert_eq!(sub_board_index(8), 2);
}

#[test]
fn move_at_cell_2_opens_sub_board_2_only() {
    assert_eq!(place_index(2), 2);
    let mut game = Ultimate::local_multiplayer();
    game.apply_move(Player::Cross, 2).unwrap();
    assert_eq!(playable_cells(&game), vec![6, 7, 8, 15, 16, 17, 24, 25, 26]);
    for cell in playable_cells(&game) {
        assert_eq!(sub_board_index(cell), 2);
    }
    assert_eq!(game.apply_move(Player::Nought, 3), Err(MoveError::NotPlayable));
    assert_eq!(game.apply_move(Player::Nought, 80), Err(MoveError::NotPlayable));
}

#[test]
fn decided_open_sub_board_frees_every_undecided_one() {
    let mut game = Ultimate::local_multiplayer();
    let outcomes = play_all(&mut game, &[16, 32, 24, 56, 8]);
    assert_eq!(outcomes[4].won_sub_board, Some(2));
    assert_eq!(game.sub_board_winner(2), Some(Player::Cross));
    // The last move sits at place 2 of sub-board 2, which is decided.
    assert_eq!(place_index(8), 2);

    let expected: Vec<usize> = (0..81)
        .filter(|&c| sub_board_index(c) != 2 && ![32, 56].contains(&c))
        .collect();
    assert_eq!(expected.len(), 70);
    assert_eq!(playable_cells(&game), expected);
    // Empty cells of the decided sub-board stay closed.
    assert_eq!(game.cell_content(6), None);
    assert!(!game.is_playable(6));
}

#[test]
fn meta_main_diagonal_ends_the_game() {
    let moves = [1, 23, 78, 54, 10, 30, 19, 57, 60, 74, 69, 27, 40, 50, 41, 33, 39];
    let mut game = Ultimate::local_multiplayer();
    let outcomes = play_all(&mut game, &moves[..16]);
    assert!(outcomes.iter().all(|o| !o.won_game));
    assert_eq!(game.current_turn(), Some(Player::Cross));

    let last = game.apply_move(Player::Cross, 39).unwrap();
    assert_eq!(last, MoveOutcome { won_sub_board: Some(4), won_game: true, outbound: None });
    assert_eq!(
        decided(&game),
        vec![
            Some(Player::Cross), None, None,
            None, Some(Player::Cross), None,
            None, None, Some(Player::Cross),
        ]
    );
    assert_eq!(game.current_turn(), None);
    assert_eq!(game.history().len(), 17);
}

#[test]
fn meta_top_row_ends_the_game() {
    let moves = [15, 29, 6, 0, 11, 35, 24, 55, 22, 59, 10, 50, 71, 34, 21, 56, 9, 28, 23];
    let mut game = Ultimate::local_multiplayer();
    let outcomes = play_all(&mut game, &moves);
    assert!(outcomes[18].won_game);
    assert!(outcomes[..18].iter().all(|o| !o.won_game));
    assert_eq!(game.sub_board_winner(0), Some(Player::Cross));
    assert_eq!(game.sub_board_winner(1), Some(Player::Cross));
    assert_eq!(game.sub_board_winner(2), Some(Player::Cross));
    assert_eq!(game.current_turn(), None);
}

#[test]
fn meta_anti_diagonal_and_column_end_the_game() {
    let mut game = Ultimate::local_multiplayer();
    let outcomes = play_all(
        &mut game,
        &[55, 5, 26, 62, 24, 72, 54, 2, 25, 59, 56, 18, 31, 21, 40, 48, 49],
    );
    assert!(outcomes[16].won_game);
    assert_eq!(game.sub_board_winner(2), Some(Player::Cross));
    assert_eq!(game.sub_board_winner(4), Some(Player::Cross));
    assert_eq!(game.sub_board_winner(6), Some(Player::Cross));
    assert_eq!(game.current_turn(), None);

    let mut game = Ultimate::local_multiplayer();
    let outcomes = play_all(
        &mut game,
        &[55, 3, 1, 21, 56, 24, 54, 18, 19, 57, 10, 48, 38, 51, 29, 15, 47],
    );
    assert!(outcomes[16].won_game);
    assert_eq!(game.sub_board_winner(0), Some(Player::Cross));
    assert_eq!(game.sub_board_winner(3), Some(Player::Cross));
    assert_eq!(game.sub_board_winner(6), Some(Player::Cross));
    assert_eq!(game.current_turn(), None);
}

#[test]
fn nought_can_win_the_game() {
    let moves = [
        31, 23, 60, 19, 59, 15, 27, 10, 30, 11, 35, 16, 49, 76, 58, 13, 39, 45, 55, 3, 9, 46, 57,
        1, 40, 17,
    ];
    let mut game = Ultimate::local_multiplayer();
    let outcomes = play_all(&mut game, &moves);
    assert!(outcomes[25].won_game);
    assert_eq!(game.cell_content(17), Some(Player::Nought));
    assert_eq!(game.current_turn(), None);
    // The local side stays with the winner once the game is over.
    assert_eq!(game.local_player(), Player::Nought);
}

#[test]
fn no_move_is_accepted_after_the_end() {
    let moves = [1, 23, 78, 54, 10, 30, 19, 57, 60, 74, 69, 27, 40, 50, 41, 33, 39];
    let mut game = Ultimate::local_multiplayer();
    play_all(&mut game, &moves);
    assert_eq!(game.current_turn(), None);
    let board: Vec<Option<Player>> = (0..81).map(|c| game.cell_content(c)).collect();

    for cell in 0..81 {
        assert_eq!(game.apply_move(Player::Cross, cell), Err(MoveError::GameOver));
        assert_eq!(game.apply_move(Player::Nought, cell), Err(MoveError::GameOver));
        assert_eq!(game.submit_move(cell), Err(MoveError::GameOver));
    }
    assert_eq!(game.apply_move(Player::Cross, 81), Err(MoveError::OutOfRange));
    assert_eq!(game.current_turn(), None);
    assert_eq!(game.history().len(), 17);
    let after: Vec<Option<Player>> = (0..81).map(|c| game.cell_content(c)).collect();
    assert_eq!(board, after);
}

#[test]
fn drawn_sub_board_still_funnels_play() {
    let moves = [
        39, 37, 49, 75, 64, 48, 63, 46, 67, 41, 52, 77, 70, 40, 32, 15, 29, 16, 50, 60, 10, 30,
        18, 65, 43, 31, 13,
    ];
    let mut game = Ultimate::local_multiplayer();
    let outcomes = play_all(&mut game, &moves);
    assert!(outcomes.iter().all(|o| o.won_sub_board.is_none() && !o.won_game));
    // The last move points at sub-board 4, which is full and won by nobody.
    assert_eq!(place_index(13), 4);
    for place in 0..9 {
        assert!(game.cell_content(cell_index(4, place)).is_some());
    }
    assert_eq!(game.sub_board_winner(4), None);
    // Nothing is playable, and the turn stays with the player who is stuck.
    assert_eq!(playable_cells(&game), Vec::<usize>::new());
    assert!(!game.has_playable_cell());
    assert_eq!(game.current_turn(), Some(Player::Nought));
    assert_eq!(game.apply_move(Player::Nought, 0), Err(MoveError::NotPlayable));
}
