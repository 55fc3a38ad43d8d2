//! Table limits of each rule set.

use crate::types::{GameType, Room};
use vstd::prelude::*;

verus! {

/// How many players a rule set admits.
#[derive(Clone, Copy, Debug, PartialEq, Eq)]
pub struct GameConfig {
    pub max_players: u16,
    pub min_players: u16,
}

/// The limits of `game_type` as a specification value.
pub open spec fn config_of(game_type: GameType) -> GameConfig {
    match game_type {
        GameType::Tycoon => GameConfig { max_players: 8, min_players: 3 },
        GameType::Carbo => GameConfig { max_players: 8, min_players: 3 },
        GameType::Coup => GameConfig { max_players: 6, min_players: 3 },
    }
}

/// The player limits of `game_type`.
pub fn game_config(game_type: GameType) -> (config: GameConfig)
    ensures
        config == config_of(game_type),
{
    match game_type {
        GameType::Tycoon => GameConfig { max_players: 8, min_players: 3 },
        GameType::Carbo => GameConfig { max_players: 8, min_players: 3 },
        GameType::Coup => GameConfig { max_players: 6, min_players: 3 },
    }
}

/// A room for `game` with nothing played and nobody seated; what came
/// before is not looked at.
pub fn create_logic_from(game: GameType, previous: Room) -> (room: Room)
    ensures
        room == (Room { game, ..Room::initial() }),
{
    let mut room = Room::default();
    room.game = game;
    room
}

} // verus!
