use ultimate3::game::Ultimate;
use ultimate3::player::Player;
use ultimate3::session::{AppState, MainMenu, SessionEvent};

fn menu_with(address: &str) -> AppState {
    let mut state = AppState::new();
    state.handle(SessionEvent::AddressEdited(address.to_owned()));
    state
}

fn address_of(state: &AppState) -> Option<&str> {
    match state {
        AppState::MainMenu(menu) => Some(menu.remote_address.as_str()),
        AppState::Connecting(address) | AppState::ConnectionFailed(address) => Some(address),
        _ => None,
    }
}

fn all_events() -> Vec<SessionEvent> {
    vec![
        SessionEvent::AddressEdited("elsewhere:1".to_owned()),
        SessionEvent::ConnectRequested,
        SessionEvent::HostRequested,
        SessionEvent::LocalGameRequested,
        SessionEvent::Connected,
        SessionEvent::ConnectionFailed,
        SessionEvent::FailureDismissed,
    ]
}

#[test]
fn session_starts_at_the_menu() {
    let state = AppState::new();
    assert!(matches!(&state, AppState::MainMenu(MainMenu { remote_address }) if remote_address.is_empty()));
}

#[test]
fn editing_the_address_replaces_it() {
    let mut state = menu_with("10.0.0.1:25567");
    assert!(matches!(state, AppState::MainMenu(_)));
    assert_eq!(address_of(&state), Some("10.0.0.1:25567"));
    state.handle(SessionEvent::AddressEdited("host".to_owned()));
    assert_eq!(address_of(&state), Some("host"));
}

#[test]
fn connecting_dials_the_address_of_the_menu() {
    let mut state = menu_with("10.0.0.1:25567");
    state.handle(SessionEvent::ConnectRequested);
    assert!(matches!(state, AppState::Connecting(_)));
    assert_eq!(address_of(&state), Some("10.0.0.1:25567"));
}

#[test]
fn guest_plays_nought() {
    let mut state = menu_with("10.0.0.1:25567");
    state.handle(SessionEvent::ConnectRequested);
    state.handle(SessionEvent::Connected);
    let AppState::InGame(game) = &state else { panic!("not in a game") };
    assert!(game.is_networked());
    assert_eq!(game.local_player(), Player::Nought);
    assert_eq!(game.current_turn(), Some(Player::Cross));
    assert!(game.history().is_empty());
}

#[test]
fn host_plays_cross() {
    let mut state = AppState::new();
    state.handle(SessionEvent::HostRequested);
    assert!(matches!(state, AppState::WaitingForOpponent));
    state.handle(SessionEvent::Connected);
    let AppState::InGame(game) = &state else { panic!("not in a game") };
    assert!(game.is_networked());
    assert_eq!(game.local_player(), Player::Cross);
    assert_eq!(game.current_turn(), Some(Player::Cross));
}

#[test]
fn local_game_starts_from_the_menu() {
    let mut state = AppState::new();
    state.handle(SessionEvent::LocalGameRequested);
    let AppState::InGame(game) = &state else { panic!("not in a game") };
    assert!(!game.is_networked());
    assert_eq!(game.local_player(), Player::Cross);
    assert!(game.history().is_empty());
}

#[test]
fn failure_while_dialling_keeps_the_address() {
    let mut state = menu_with("nowhere:1");
    state.handle(SessionEvent::ConnectRequested);
    state.handle(SessionEvent::ConnectionFailed);
    assert!(matches!(state, AppState::ConnectionFailed(_)));
    assert_eq!(address_of(&state), Some("nowhere:1"));
    state.handle(SessionEvent::FailureDismissed);
    assert!(matches!(state, AppState::MainMenu(_)));
    assert_eq!(address_of(&state), Some("nowhere:1"));
}

#[test]
fn failure_while_listening_returns_to_an_empty_menu() {
    let mut state = menu_with("typed");
    state.handle(SessionEvent::HostRequested);
    state.handle(SessionEvent::ConnectionFailed);
    assert!(matches!(state, AppState::ConnectionFailed(_)));
    assert_eq!(address_of(&state), Some(""));
    state.handle(SessionEvent::FailureDismissed);
    assert!(matches!(state, AppState::MainMenu(_)));
    assert_eq!(address_of(&state), Some(""));
}

#[test]
fn events_without_meaning_are_ignored() {
    // at the menu
    for event in [
        SessionEvent::Connected,
        SessionEvent::ConnectionFailed,
        SessionEvent::FailureDismissed,
    ] {
        let mut state = menu_with("a");
        state.handle(event);
        assert!(matches!(state, AppState::MainMenu(_)));
        assert_eq!(address_of(&state), Some("a"));
    }
    // while waiting
    for event in all_events() {
        if matches!(event, SessionEvent::Connected | SessionEvent::ConnectionFailed) {
            continue;
        }
        let mut state = AppState::new();
        state.handle(SessionEvent::HostRequested);
        state.handle(event);
        assert!(matches!(state, AppState::WaitingForOpponent));
    }
    // while dialling
    for event in all_events() {
        if matches!(event, SessionEvent::Connected | SessionEvent::ConnectionFailed) {
            continue;
        }
        let mut state = menu_with("a");
        state.handle(SessionEvent::ConnectRequested);
        state.handle(event);
        assert!(matches!(state, AppState::Connecting(_)));
        assert_eq!(address_of(&state), Some("a"));
    }
    // after a failure
    for event in all_events() {
        if matches!(event, SessionEvent::FailureDismissed) {
            continue;
        }
        let mut state = menu_with("a");
        state.handle(SessionEvent::ConnectRequested);
        state.handle(SessionEvent::ConnectionFailed);
        state.handle(event);
        assert!(matches!(state, AppState::ConnectionFailed(_)));
        assert_eq!(address_of(&state), Some("a"));
    }
}

#[test]
fn nothing_replaces_a_game_in_progress() {
    for event in all_events() {
        let mut state = AppState::new();
        state.handle(SessionEvent::LocalGameRequested);
        state.expect_game_mut().make_move(40);
        state.handle(event);
        let AppState::InGame(game) = &state else { panic!("the game is gone") };
        assert_eq!(game.history(), &vec![40]);
        assert_eq!(game.cell_content(40), Some(Player::Cross));
        assert_eq!(game.current_turn(), Some(Player::Nought));
    }
}

#[test]
fn expect_game_mut_gives_the_game_itself() {
    let mut state = AppState::InGame(Ultimate::network_multiplayer(Player::Nought));
    assert_eq!(state.expect_game_mut().local_player(), Player::Nought);
    state.expect_game_mut().receive_move(4).unwrap();
    let AppState::InGame(game) = &state else { panic!("not in a game") };
    assert_eq!(game.cell_content(4), Some(Player::Cross));
}

#[test]
fn expect_main_menu_mut_gives_the_menu_itself() {
    let mut state = menu_with("before");
    assert_eq!(state.expect_main_menu_mut().remote_address, "before");
    state.expect_main_menu_mut().remote_address = "after".to_owned();
    assert_eq!(address_of(&state), Some("after"));
}
