//! Carbo: state and event alphabet.

use crate::traits::{to_nobody, GameLogic, Networking};
use crate::types::{Room, ServerEvent};
use vstd::prelude::*;

verus! {

/// Phase of a Carbo table.
#[derive(Clone, Copy, Debug, PartialEq, Eq, Structural)]
pub enum CarboRoomState {
    Lobby,
}

/// Carbo's share of a room.
#[derive(Clone, Copy, Debug, PartialEq, Eq)]
pub struct CarboRoom {
    pub turn: u8,
    pub state: CarboRoomState,
}

/// Carbo's share of a player.
#[derive(Clone, Copy, Debug, PartialEq, Eq)]
pub struct CarboPlayer {
    pub visible_cards: u64,
    pub num_cards: u8,
}

#[derive(Clone, Copy, Debug, PartialEq, Eq)]
pub enum CarboServerEvent {
    GameStarted { turn: u8, cards: u64 },
}

#[derive(Clone, Copy, Debug, PartialEq, Eq)]
pub enum CarboClientEvent {
    StartGame,
    PlayCard { card: u64 },
}

impl CarboRoom {
    /// A table nobody has played at.
    pub open spec fn initial() -> CarboRoom {
        CarboRoom { turn: 0, state: CarboRoomState::Lobby }
    }
}

impl CarboPlayer {
    /// A player who holds no card.
    pub open spec fn initial() -> CarboPlayer {
        CarboPlayer { visible_cards: 0, num_cards: 0 }
    }
}

impl Default for CarboRoomState {
    fn default() -> (state: Self)
        ensures
            state == CarboRoomState::Lobby,
    {
        CarboRoomState::Lobby
    }
}

impl Default for CarboRoom {
    fn default() -> (room: Self)
        ensures
            room == CarboRoom::initial(),
    {
        CarboRoom { turn: 0, state: CarboRoomState::Lobby }
    }
}

impl Default for CarboPlayer {
    fn default() -> (player: Self)
        ensures
            player == CarboPlayer::initial(),
    {
        CarboPlayer { visible_cards: 0, num_cards: 0 }
    }
}

/// Carbo's rules: a game may be started from the lobby. Playing a card is
/// never legal, nothing is announced, and no server event changes a room.
impl GameLogic for CarboRoom {
    type GameServerEvent = CarboServerEvent;

    type GameClientEvent = CarboClientEvent;

    type Room = CarboRoom;

    type Player = CarboPlayer;

    open spec fn accepts(room: Room, event: CarboClientEvent, player_index: usize) -> bool {
        match event {
            CarboClientEvent::StartGame => room.carbo.state == CarboRoomState::Lobby,
            CarboClientEvent::PlayCard { .. } => false,
        }
    }

    open spec fn announcement(event: CarboClientEvent, player_index: usize) -> Option<
        CarboServerEvent,
    > {
        None
    }

    open spec fn replayed(
        room: Room,
        event: CarboServerEvent,
        as_player: Option<usize>,
        is_server_side: bool,
    ) -> Room {
        room
    }

    open spec fn wrapped(event: CarboServerEvent) -> ServerEvent {
        ServerEvent::CarboEvent(event)
    }

    fn validate_client_game_event(
        room: &Room,
        event: &CarboClientEvent,
        player_index: usize,
    ) -> (valid: bool) {
        match event {
            CarboClientEvent::StartGame => room.carbo.state == CarboRoomState::Lobby,
            CarboClientEvent::PlayCard { .. } => false,
        }
    }

    fn handle_client_game_event<N: Networking>(
        room: &mut Room,
        event: &CarboClientEvent,
        connections: &mut N,
        player_index: usize,
    )
        ensures
            *final(room) == *old(room),
            N::served(old(connections), final(connections), to_nobody()),
    {
        proof {
            N::lemma_served(connections, connections, connections, to_nobody(), to_nobody());
        }
    }

    fn handle_server_game_event(
        room: &mut Room,
        event: &CarboServerEvent,
        player_index: Option<usize>,
        is_server_side: bool,
    ) {
    }

    fn wrap_game_event(event: CarboServerEvent) -> (wrapped: ServerEvent) {
        ServerEvent::CarboEvent(event)
    }
}

} // verus!
