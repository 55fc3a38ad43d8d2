//! Coup: state and event alphabet.

use crate::helpers::{num_players, player_at, player_count};
use crate::traits::{to_all_except, to_nobody, GameLogic, Networking};
use crate::types::{Room, ServerEvent, MAX_PLAYERS};
use vstd::array::spec_array_fill_for_copy_type;
use vstd::prelude::*;

verus! {

/// Size of the court deck.
pub const DECK_SIZE: usize = 15;

/// Influence cards each player holds.
pub const HAND_SIZE: usize = 2;

#[derive(Clone, Copy, Debug, PartialEq, Eq, Structural)]
pub enum Role {
    Duke,
    Assassin,
    Captain,
    Ambassador,
    Contessa,
    Unknown,
}

/// One influence card; a revealed card is lost.
#[derive(Clone, Copy, Debug, PartialEq, Eq)]
pub struct Card {
    pub role: Role,
    pub revealed: bool,
}

/// Coup's share of a room. `challenge` holds (challenged player, challenger)
/// while a challenge waits to be resolved.
#[derive(Clone, Copy, Debug, PartialEq, Eq)]
pub struct CoupRoom {
    pub turn: u8,
    pub deck: [Card; DECK_SIZE],
    pub last_action: Option<PlayerAction>,
    pub last_counteraction: Option<Role>,
    pub challenge: Option<(u8, u8)>,
}

/// Coup's share of a player.
#[derive(Clone, Copy, Debug, PartialEq, Eq)]
pub struct CoupPlayer {
    pub coins: u8,
    pub cards: [Card; HAND_SIZE],
}

#[derive(Clone, Copy, Debug, PartialEq, Eq)]
pub enum CoupServerEvent {
    GameStarted { turn: u8, cards: [Card; HAND_SIZE] },
    Action { player: u8, action: PlayerAction },
    Counteraction { player: u8, claim: Role },
    Challenge { player: u8 },
    CardRevealed { player: u8, card: u8 },
    ChallengeRevealed { player: u8, card: u8 },
}

/// What a player did, and who did it.
#[derive(Clone, Copy, Debug, PartialEq, Eq)]
pub struct PlayerAction {
    pub action: ActionType,
    pub player: u8,
}

#[derive(Clone, Copy, Debug, PartialEq, Eq)]
pub enum ActionType {
    Action(PlayerActionType),
    Counteraction { claim: Role, against: u8 },
}

#[derive(Clone, Copy, Debug, PartialEq, Eq)]
pub enum PlayerActionType {
    /// Gain one coin.
    Income,
    /// Gain two coins.
    ForeignAid,
    /// Pay seven coins to eliminate a player.
    Coup,
    /// Duke.
    Tax,
    /// Assassin.
    Assassinate { target: u8 },
    /// Ambassador.
    Exchange,
    /// Captain.
    Steal { target: u8 },
}

#[derive(Clone, Copy, Debug, PartialEq, Eq)]
pub enum CoupClientEvent {
    Action { action: PlayerAction },
    Counteraction { claim: Role },
    Challenge,
    ResolveChallenge { card: u8 },
    RevealCard { card: u8 },
}

impl Card {
    /// A face-down card of no known role.
    pub open spec fn initial() -> Card {
        Card { role: Role::Unknown, revealed: false }
    }
}

impl CoupRoom {
    /// A table nobody has played at.
    pub open spec fn initial() -> CoupRoom {
        CoupRoom {
            turn: 0,
            deck: spec_array_fill_for_copy_type::<Card, DECK_SIZE>(Card::initial()),
            last_action: None,
            last_counteraction: None,
            challenge: None,
        }
    }
}

impl CoupPlayer {
    /// A player with no coins and two face-down cards.
    pub open spec fn initial() -> CoupPlayer {
        CoupPlayer {
            coins: 0,
            cards: spec_array_fill_for_copy_type::<Card, HAND_SIZE>(Card::initial()),
        }
    }
}

impl Default for Role {
    fn default() -> (role: Self)
        ensures
            role == Role::Unknown,
    {
        Role::Unknown
    }
}

impl Default for Card {
    fn default() -> (card: Self)
        ensures
            card == Card::initial(),
    {
        Card { role: Role::Unknown, revealed: false }
    }
}

impl Default for CoupRoom {
    fn default() -> (room: Self)
        ensures
            room == CoupRoom::initial(),
    {
        CoupRoom {
            turn: 0,
            deck: [Card { role: Role::Unknown, revealed: false }; DECK_SIZE],
            last_action: None,
            last_counteraction: None,
            challenge: None,
        }
    }
}

impl Default for CoupPlayer {
    fn default() -> (player: Self)
        ensures
            player == CoupPlayer::initial(),
    {
        CoupPlayer { coins: 0, cards: [Card { role: Role::Unknown, revealed: false }; HAND_SIZE] }
    }
}

/// The player still holds a card that is face down.
pub open spec fn holds_influence(player: CoupPlayer) -> bool {
    exists|card: int| 0 <= card < HAND_SIZE && !(#[trigger] player.cards[card]).revealed
}

/// Seat `player_index` holds a player who is still in the game.
pub open spec fn player_alive(room: Room, player_index: usize) -> bool {
    match player_at(room, player_index) {
        Some(player) => holds_influence(player.coup),
        None => false,
    }
}

/// A challenge waits to be resolved.
pub open spec fn challenge_pending(room: Room) -> bool {
    room.coup.challenge is Some
}

/// `claim` blocks `action` when the player in seat `player_index` makes it:
/// a Duke blocks foreign aid for anyone; a Captain or an Ambassador blocks
/// a theft, and a Contessa an assassination, for their target.
pub open spec fn blocks(claim: Role, action: PlayerActionType, player_index: usize) -> bool {
    match action {
        PlayerActionType::ForeignAid => claim == Role::Duke,
        PlayerActionType::Steal { target } => (claim == Role::Captain || claim == Role::Ambassador)
            && target as int == player_index as int,
        PlayerActionType::Assassinate { target } => claim == Role::Contessa && target as int
            == player_index as int,
        _ => false,
    }
}

/// The player in seat `player_index` may doubt `action`: anyone may doubt an
/// exchange or a tax, their target an assassination or a theft, and the one
/// it was made against a counteraction.
pub open spec fn challengeable(action: ActionType, player_index: usize) -> bool {
    match action {
        ActionType::Action(action) => match action {
            PlayerActionType::Exchange | PlayerActionType::Tax => true,
            PlayerActionType::Assassinate { target } | PlayerActionType::Steal { target } => {
                target as int == player_index as int
            },
            _ => false,
        },
        ActionType::Counteraction { against, .. } => against as int == player_index as int,
    }
}

/// Coup's rules. Only a player who is still in the game may move. An
/// action is legal on the player's own turn; a counteraction or a challenge
/// answers the last action, which another player took. None of them is
/// legal while a challenge is pending. Revealing a card is never legal, and
/// no server event changes a room.
impl GameLogic for CoupRoom {
    type GameServerEvent = CoupServerEvent;

    type GameClientEvent = CoupClientEvent;

    type Room = CoupRoom;

    type Player = CoupPlayer;

    open spec fn accepts(room: Room, event: CoupClientEvent, player_index: usize) -> bool {
        &&& player_alive(room, player_index)
        &&& !challenge_pending(room)
        &&& match event {
            CoupClientEvent::Action { .. } => room.coup.turn as int == player_index as int,
            CoupClientEvent::Counteraction { claim } => match room.coup.last_action {
                Some(last) => last.player as int != player_index as int && match last.action {
                    ActionType::Action(action) => blocks(claim, action, player_index),
                    ActionType::Counteraction { .. } => false,
                },
                None => false,
            },
            CoupClientEvent::Challenge => match room.coup.last_action {
                Some(last) => last.player as int != player_index as int && challengeable(
                    last.action,
                    player_index,
                ),
                None => false,
            },
            CoupClientEvent::RevealCard { .. } => false,
            CoupClientEvent::ResolveChallenge { .. } => false,
        }
    }

    open spec fn announcement(event: CoupClientEvent, player_index: usize) -> Option<
        CoupServerEvent,
    > {
        match event {
            CoupClientEvent::Action { action } => Some(
                CoupServerEvent::Action { player: player_index as u8, action },
            ),
            CoupClientEvent::Counteraction { claim } => Some(
                CoupServerEvent::Counteraction { player: player_index as u8, claim },
            ),
            CoupClientEvent::Challenge => Some(
                CoupServerEvent::Challenge { player: player_index as u8 },
            ),
            CoupClientEvent::RevealCard { .. } => None,
            CoupClientEvent::ResolveChallenge { .. } => None,
        }
    }

    open spec fn replayed(
        room: Room,
        event: CoupServerEvent,
        as_player: Option<usize>,
        is_server_side: bool,
    ) -> Room {
        room
    }

    open spec fn wrapped(event: CoupServerEvent) -> ServerEvent {
        ServerEvent::CoupEvent(event)
    }

    fn validate_client_game_event(
        room: &Room,
        event: &CoupClientEvent,
        player_index: usize,
    ) -> (valid: bool) {
        if !is_player_alive(room, player_index) {
            return false;
        }
        match event {
            CoupClientEvent::Action { .. } => {
                room.coup.turn as usize == player_index && !has_unresolved_challenge(room)
            },
            CoupClientEvent::Counteraction { claim } => {
                if has_unresolved_challenge(room) {
                    return false;
                }
                let last_action = match room.coup.last_action {
                    Some(action) => action,
                    None => return false,
                };
                if last_action.player as usize == player_index {
                    return false;
                }
                let last_action = match last_action.action {
                    ActionType::Action(action) => action,
                    _ => return false,
                };
                match last_action {
                    PlayerActionType::ForeignAid => *claim == Role::Duke,
                    PlayerActionType::Steal { target } => {
                        (*claim == Role::Captain || *claim == Role::Ambassador) && target as usize
                            == player_index
                    },
                    PlayerActionType::Assassinate { target } => {
                        *claim == Role::Contessa && target as usize == player_index
                    },
                    _ => false,
                }
            },
            CoupClientEvent::Challenge => {
                if has_unresolved_challenge(room) {
                    return false;
                }
                let last_action = match room.coup.last_action {
                    Some(action) => action,
                    None => return false,
                };
                if last_action.player as usize == player_index {
                    return false;
                }
                match last_action.action {
                    ActionType::Action(action) => match action {
                        PlayerActionType::Exchange | PlayerActionType::Tax => true,
                        PlayerActionType::Assassinate { target }
                        | PlayerActionType::Steal { target } => target as usize == player_index,
                        _ => false,
                    },
                    ActionType::Counteraction { against, .. } => against as usize == player_index,
                }
            },
            CoupClientEvent::RevealCard { .. } => false,
            CoupClientEvent::ResolveChallenge { .. } => false,
        }
    }

    fn handle_client_game_event<N: Networking>(
        room: &mut Room,
        event: &CoupClientEvent,
        connections: &mut N,
        player_index: usize,
    )
        ensures
            *final(room) == (match Self::announcement(*event, player_index) {
                Some(announced) => old(connections).after_send_to_all_except_origin(
                    *old(room),
                    Self::wrapped(announced),
                    player_index,
                ),
                None => *old(room),
            }),
            N::served(
                old(connections),
                final(connections),
                match Self::announcement(*event, player_index) {
                    Some(announced) => to_all_except(Self::wrapped(announced), player_index),
                    None => to_nobody(),
                },
            ),
    {
        proof {
            N::lemma_served(connections, connections, connections, to_nobody(), to_nobody());
        }
        match event {
            CoupClientEvent::Action { action } => {
                connections.send_to_all_except_origin(
                    room,
                    Self::wrap_game_event(
                        CoupServerEvent::Action { player: player_index as u8, action: *action },
                    ),
                    player_index,
                );
            },
            CoupClientEvent::Counteraction { claim } => {
                connections.send_to_all_except_origin(
                    room,
                    Self::wrap_game_event(
                        CoupServerEvent::Counteraction {
                            player: player_index as u8,
                            claim: *claim,
                        },
                    ),
                    player_index,
                );
            },
            CoupClientEvent::Challenge => {
                connections.send_to_all_except_origin(
                    room,
                    Self::wrap_game_event(
                        CoupServerEvent::Challenge { player: player_index as u8 },
                    ),
                    player_index,
                );
            },
            CoupClientEvent::RevealCard { .. } => {},
            CoupClientEvent::ResolveChallenge { .. } => {},
        }
    }

    fn handle_server_game_event(
        room: &mut Room,
        event: &CoupServerEvent,
        player_index: Option<usize>,
        is_server_side: bool,
    ) {
    }

    fn wrap_game_event(event: CoupServerEvent) -> (wrapped: ServerEvent) {
        ServerEvent::CoupEvent(event)
    }
}

impl CoupRoom {
    /// A game of Coup can start once three players are seated.
    pub fn validate_start_game(room: &Room, player_index: usize) -> (valid: bool)
        ensures
            valid == (player_count(*room) >= 3),
    {
        num_players(room) >= 3
    }
}

pub fn is_player_alive(room: &Room, player_index: usize) -> (alive: bool)
    ensures
        alive == player_alive(*room, player_index),
{
    if player_index < MAX_PLAYERS {
        match &room.players[player_index] {
            Some(player) => has_unrevealed_cards(&player.coup),
            None => false,
        }
    } else {
        false
    }
}

pub fn has_unrevealed_cards(player: &CoupPlayer) -> (unrevealed: bool)
    ensures
        unrevealed == holds_influence(*player),
{
    let mut card: usize = 0;
    while card < HAND_SIZE
        invariant
            card <= HAND_SIZE,
            forall|seen: int| 0 <= seen < card ==> (#[trigger] player.cards[seen]).revealed,
        decreases HAND_SIZE - card,
    {
        if !player.cards[card].revealed {
            return true;
        }
        card = card + 1;
    }
    false
}

pub fn has_unresolved_challenge(room: &Room) -> (pending: bool)
    ensures
        pending == challenge_pending(*room),
{
    room.coup.challenge.is_some()
}

} // verus!
