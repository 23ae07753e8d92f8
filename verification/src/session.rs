//! The stages a session goes through, from the main menu to a game.
//!
//! The caller owns the sockets and reports what happened to them as
//! [`SessionEvent`]s; [`AppState::handle`] decides which stage follows.

use crate::game::Ultimate;
use crate::player::Player;
use crate::rules::GameState;
use vstd::pervasive::unreached;
use vstd::prelude::*;

verus! {

/// What the main menu holds: the address typed so far.
pub struct MainMenu {
    pub remote_address: String,
}

/// The stage a session is in.
pub enum AppState {
    /// The menu is shown.
    MainMenu(MainMenu),
    /// This side listens for a peer, whom it will play as Cross.
    WaitingForOpponent,
    /// This side dials the peer at the given address, whom it will play as
    /// Nought.
    Connecting(String),
    /// Listening or dialling failed. The address is the one that was
    /// dialled, or empty after listening.
    ConnectionFailed(String),
    /// A game is being played.
    InGame(Ultimate),
}

/// What can happen to a session.
pub enum SessionEvent {
    /// The address field of the menu now reads as given.
    AddressEdited(String),
    /// The user asked to dial the address in the menu.
    ConnectRequested,
    /// The user asked to listen for a peer.
    HostRequested,
    /// The user asked for a game with both sides played locally.
    LocalGameRequested,
    /// A connection to the peer stands.
    Connected,
    /// Listening or dialling failed.
    ConnectionFailed,
    /// The user has taken note of a failure.
    FailureDismissed,
}

/// The stage of a session as a mathematical value.
pub enum Stage {
    MainMenu(Seq<char>),
    WaitingForOpponent,
    Connecting(Seq<char>),
    ConnectionFailed(Seq<char>),
    InGame(GameState),
}

/// An event as a mathematical value.
pub enum Happening {
    AddressEdited(Seq<char>),
    ConnectRequested,
    HostRequested,
    LocalGameRequested,
    Connected,
    ConnectionFailed,
    FailureDismissed,
}

impl View for AppState {
    type V = Stage;

    open spec fn view(&self) -> Stage {
        match *self {
            AppState::MainMenu(menu) => Stage::MainMenu(menu.remote_address@),
            AppState::WaitingForOpponent => Stage::WaitingForOpponent,
            AppState::Connecting(address) => Stage::Connecting(address@),
            AppState::ConnectionFailed(address) => Stage::ConnectionFailed(address@),
            AppState::InGame(game) => Stage::InGame(game@),
        }
    }
}

impl View for SessionEvent {
    type V = Happening;

    open spec fn view(&self) -> Happening {
        match *self {
            SessionEvent::AddressEdited(text) => Happening::AddressEdited(text@),
            SessionEvent::ConnectRequested => Happening::ConnectRequested,
            SessionEvent::HostRequested => Happening::HostRequested,
            SessionEvent::LocalGameRequested => Happening::LocalGameRequested,
            SessionEvent::Connected => Happening::Connected,
            SessionEvent::ConnectionFailed => Happening::ConnectionFailed,
            SessionEvent::FailureDismissed => Happening::FailureDismissed,
        }
    }
}

/// The stage that follows `stage` when `event` happens. An event that has
/// no meaning at a stage leaves the stage as it is; in particular nothing
/// ends or replaces a game.
pub open spec fn after_event(stage: Stage, event: Happening) -> Stage {
    match (stage, event) {
        (Stage::MainMenu(_), Happening::AddressEdited(text)) => Stage::MainMenu(text),
        (Stage::MainMenu(address), Happening::ConnectRequested) => Stage::Connecting(address),
        (Stage::MainMenu(_), Happening::HostRequested) => Stage::WaitingForOpponent,
        (Stage::MainMenu(_), Happening::LocalGameRequested) => Stage::InGame(
            GameState::initial(Player::Cross, false),
        ),
        (Stage::WaitingForOpponent, Happening::Connected) => Stage::InGame(
            GameState::initial(Player::Cross, true),
        ),
        (Stage::WaitingForOpponent, Happening::ConnectionFailed) => Stage::ConnectionFailed(
            Seq::empty(),
        ),
        (Stage::Connecting(_), Happening::Connected) => Stage::InGame(
            GameState::initial(Player::Nought, true),
        ),
        (Stage::Connecting(address), Happening::ConnectionFailed) => Stage::ConnectionFailed(
            address,
        ),
        (Stage::ConnectionFailed(address), Happening::FailureDismissed) => Stage::MainMenu(
            address,
        ),
        (stage, _) => stage,
    }
}

impl AppState {
    /// The session holds no game, or a game that satisfies
    /// [`Ultimate::wf`].
    pub open spec fn wf(&self) -> bool {
        match *self {
            AppState::InGame(game) => game.wf(),
            _ => true,
        }
    }

    /// A session at the main menu, with an empty address.
    pub fn new() -> (state: AppState)
        ensures
            state.wf(),
            state@ == Stage::MainMenu(Seq::<char>::empty()),
    {
        AppState::MainMenu(MainMenu { remote_address: String::new() })
    }

    /// The menu of a session that is at the main menu.
    pub fn expect_main_menu_mut(&mut self) -> (menu: &mut MainMenu)
        requires
            *old(self) is MainMenu,
        ensures
            *menu == old(self)->MainMenu_0,
            *final(self) == AppState::MainMenu(*final(menu)),
    {
        match self {
            AppState::MainMenu(menu) => menu,
            _ => unreached(),
        }
    }

    /// The game of a session that is in a game.
    pub fn expect_game_mut(&mut self) -> (game: &mut Ultimate)
        requires
            *old(self) is InGame,
        ensures
            *game == old(self)->InGame_0,
            *final(self) == AppState::InGame(*final(game)),
    {
        match self {
            AppState::InGame(game) => game,
            _ => unreached(),
        }
    }

    /// Moves the session on by one event, as [`after_event`] says. Events
    /// that have no meaning at the present stage are ignored.
    pub fn handle(&mut self, event: SessionEvent)
        requires
            old(self).wf(),
        ensures
            final(self).wf(),
            final(self)@ == after_event(old(self)@, event@),
    {
        match event {
            SessionEvent::AddressEdited(text) => {
                if let AppState::MainMenu(_) = self {
                    *self = AppState::MainMenu(MainMenu { remote_address: text });
                }
            },
            SessionEvent::ConnectRequested => {
                let dialled: Option<String> = match self {
                    AppState::MainMenu(menu) => Some(menu.remote_address.clone()),
                    _ => None,
                };
                if let Some(address) = dialled {
                    *self = AppState::Connecting(address);
                }
            },
            SessionEvent::HostRequested => {
                if let AppState::MainMenu(_) = self {
                    *self = AppState::WaitingForOpponent;
                }
            },
            SessionEvent::LocalGameRequested => {
                if let AppState::MainMenu(_) = self {
                    *self = AppState::InGame(Ultimate::local_multiplayer());
                }
            },
            SessionEvent::Connected => {
                let side: Option<Player> = match self {
                    AppState::WaitingForOpponent => Some(Player::Cross),
                    AppState::Connecting(_) => Some(Player::Nought),
                    _ => None,
                };
                if let Some(local_player) = side {
                    *self = AppState::InGame(Ultimate::network_multiplayer(local_player));
                }
            },
            SessionEvent::ConnectionFailed => {
                let tried: Option<String> = match self {
                    AppState::WaitingForOpponent => Some(String::new()),
                    AppState::Connecting(address) => Some(address.clone()),
                    _ => None,
                };
                if let Some(address) = tried {
                    *self = AppState::ConnectionFailed(address);
                }
            },
            SessionEvent::FailureDismissed => {
                let kept: Option<String> = match self {
                    AppState::ConnectionFailed(address) => Some(address.clone()),
                    _ => None,
                };
                if let Some(address) = kept {
                    *self = AppState::MainMenu(MainMenu { remote_address: address });
                }
            },
        }
    }
}

} // verus!
