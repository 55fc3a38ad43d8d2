//! Tycoon: state and event alphabet.

use crate::helpers::each_player;
use crate::traits::{to_nobody, GameLogic, Networking};
use crate::types::{Player, Room, ServerEvent, MAX_PLAYERS};
use vstd::prelude::*;

verus! {

/// Phase of a Tycoon table.
#[derive(Clone, Copy, Debug, PartialEq, Eq, Structural)]
pub enum RoomState {
    Lobby,
    CardExchange,
    Game,
}

/// Tycoon's share of a room.
#[derive(Clone, Copy, Debug, PartialEq, Eq)]
pub struct TycoonRoom {
    pub turn: u8,
    pub last_played: u8,
    pub last_played_player: u8,
    pub revolution: bool,
    pub state: RoomState,
}

/// Tycoon's share of a player: the hand as a bit set of cards, and its size
/// as the other players see it.
#[derive(Clone, Copy, Debug, PartialEq, Eq)]
pub struct TycoonPlayer {
    pub hand: u64,
    pub num_cards: u8,
}

#[derive(Clone, Copy, Debug, PartialEq, Eq)]
pub enum TycoonServerEvent {
    GameStarted { turn: u8, cards: u64, other_hands: [u8; 8] },
    CardsPlayed { cards: u64 },
    Pass,
    ReceiveCards { cards: u64 },
}

#[derive(Clone, Copy, Debug, PartialEq, Eq)]
pub enum TycoonClientEvent {
    PlayCards { cards: u64 },
    Pass,
    ExchangeCards { cards: u64 },
}

impl TycoonRoom {
    /// A table nobody has played at.
    pub open spec fn initial() -> TycoonRoom {
        TycoonRoom {
            turn: 0,
            last_played: 0,
            last_played_player: 0,
            revolution: false,
            state: RoomState::Lobby,
        }
    }
}

impl TycoonPlayer {
    /// A player who holds no card.
    pub open spec fn initial() -> TycoonPlayer {
        TycoonPlayer { hand: 0, num_cards: 0 }
    }
}

impl Default for RoomState {
    fn default() -> (state: Self)
        ensures
            state == RoomState::Lobby,
    {
        RoomState::Lobby
    }
}

impl Default for TycoonRoom {
    fn default() -> (room: Self)
        ensures
            room == TycoonRoom::initial(),
    {
        TycoonRoom {
            turn: 0,
            last_played: 0,
            last_played_player: 0,
            revolution: false,
            state: RoomState::Lobby,
        }
    }
}

impl Default for TycoonPlayer {
    fn default() -> (player: Self)
        ensures
            player == TycoonPlayer::initial(),
    {
        TycoonPlayer { hand: 0, num_cards: 0 }
    }
}

/// A player after the deal: `other_hands` gives the size of every hand, and
/// the one the deal is addressed to is handed `cards`.
pub open spec fn dealt(cards: u64, other_hands: [u8; 8], as_player: Option<usize>) -> spec_fn(
    int,
    Player,
) -> Player {
    |seat: int, player: Player|
        Player {
            tycoon: TycoonPlayer {
                num_cards: other_hands[seat],
                hand: if as_player == Some(seat as usize) {
                    cards
                } else {
                    player.tycoon.hand
                },
            },
            ..player
        }
}

/// Tycoon's rules: the start of a game deals the cards, and no other server
/// event changes a room. No move of a player is legal, so nothing is ever
/// announced; what a move would make the server announce is laid down all
/// the same.
impl GameLogic for TycoonRoom {
    type GameServerEvent = TycoonServerEvent;

    type GameClientEvent = TycoonClientEvent;

    type Room = TycoonRoom;

    type Player = TycoonPlayer;

    open spec fn accepts(room: Room, event: TycoonClientEvent, player_index: usize) -> bool {
        false
    }

    open spec fn announcement(event: TycoonClientEvent, player_index: usize) -> Option<
        TycoonServerEvent,
    > {
        match event {
            TycoonClientEvent::PlayCards { cards } => Some(
                TycoonServerEvent::CardsPlayed { cards },
            ),
            TycoonClientEvent::Pass => Some(TycoonServerEvent::Pass),
            TycoonClientEvent::ExchangeCards { .. } => None,
        }
    }

    open spec fn replayed(
        room: Room,
        event: TycoonServerEvent,
        as_player: Option<usize>,
        is_server_side: bool,
    ) -> Room {
        match event {
            TycoonServerEvent::GameStarted { turn, cards, other_hands } => Room {
                tycoon: TycoonRoom { turn, state: RoomState::Game, ..room.tycoon },
                players: each_player(
                    room.players,
                    dealt(cards, other_hands, as_player),
                    MAX_PLAYERS as int,
                ),
                ..room
            },
            _ => room,
        }
    }

    open spec fn wrapped(event: TycoonServerEvent) -> ServerEvent {
        ServerEvent::TycoonEvent(event)
    }

    fn validate_client_game_event(
        room: &Room,
        event: &TycoonClientEvent,
        player_index: usize,
    ) -> (valid: bool) {
        false
    }

    fn handle_client_game_event<N: Networking>(
        room: &mut Room,
        event: &TycoonClientEvent,
        connections: &mut N,
        player_index: usize,
    )
        ensures
            !Self::accepts(*old(room), *event, player_index) ==> {
                &&& *final(room) == *old(room)
                &&& N::served(old(connections), final(connections), to_nobody())
            },
    {
        proof {
            N::lemma_served(connections, connections, connections, to_nobody(), to_nobody());
        }
        if Self::validate_client_game_event(room, event, player_index) {
            match event {
                TycoonClientEvent::PlayCards { cards } => {
                    connections.send_to_all_except_origin(
                        room,
                        Self::wrap_game_event(TycoonServerEvent::CardsPlayed { cards: *cards }),
                        player_index,
                    );
                },
                TycoonClientEvent::Pass => {
                    connections.send_to_all_except_origin(
                        room,
                        Self::wrap_game_event(TycoonServerEvent::Pass),
                        player_index,
                    );
                },
                TycoonClientEvent::ExchangeCards { .. } => {},
            }
        }
    }

    fn handle_server_game_event(
        room: &mut Room,
        event: &TycoonServerEvent,
        as_player: Option<usize>,
        is_server_side: bool,
    ) {
        match event {
            TycoonServerEvent::GameStarted { turn, cards, other_hands } => {
                room.tycoon.turn = *turn;
                room.tycoon.state = RoomState::Game;
                let ghost start = *room;
                let mut index: usize = 0;
                while index < MAX_PLAYERS
                    invariant
                        index <= MAX_PLAYERS,
                        *room == (Room {
                            players: each_player(
                                start.players,
                                dealt(*cards, *other_hands, as_player),
                                index as int,
                            ),
                            ..start
                        }),
                    decreases MAX_PLAYERS - index,
                {
                    if let Some(player) = &mut room.players[index] {
                        player.tycoon.num_cards = other_hands[index];
                        if let Some(player_index) = as_player {
                            if index == player_index {
                                player.tycoon.hand = *cards;
                            }
                        }
                    }
                    assert(room.players =~= each_player(
                        start.players,
                        dealt(*cards, *other_hands, as_player),
                        index + 1,
                    ));
                    index = index + 1;
                }
            },
            TycoonServerEvent::CardsPlayed { .. } => {},
            TycoonServerEvent::Pass => {},
            TycoonServerEvent::ReceiveCards { .. } => {},
        }
    }

    fn wrap_game_event(event: TycoonServerEvent) -> (wrapped: ServerEvent) {
        ServerEvent::TycoonEvent(event)
    }
}

impl TycoonRoom {
    /// A game of Tycoon can start from the lobby.
    pub fn validate_start_game(room: &Room, player_index: usize) -> (valid: bool)
        ensures
            valid == (room.tycoon.state == RoomState::Lobby),
    {
        room.tycoon.state == RoomState::Lobby
    }
}

} // verus!
