//! Rooms, players and the two event alphabets.

use crate::games::carbo::{CarboClientEvent, CarboPlayer, CarboRoom, CarboServerEvent};
use crate::games::coup::{CoupClientEvent, CoupPlayer, CoupRoom, CoupServerEvent};
use crate::games::tycoon::{TycoonClientEvent, TycoonPlayer, TycoonRoom, TycoonServerEvent};
use vstd::array::spec_array_fill_for_copy_type;
use vstd::prelude::*;

verus! {

/// Seats in a room.
pub const MAX_PLAYERS: usize = 8;

/// Bytes in a display name; shorter names are padded with zero bytes.
pub const MAX_NAME_LENGTH: usize = 20;

/// A client's stand-in for the server's connections: it lets the client run
/// the server's handling of its own events on its own copy of the room.
#[derive(Clone, Copy, Debug, Default)]
pub struct ClientConnection;

/// The rule set a room runs.
#[derive(Clone, Copy, Debug, PartialEq, Eq, Hash, Structural)]
pub enum GameType {
    Tycoon,
    Carbo,
    Coup,
}

/// Whether a room is gathering players or playing.
#[derive(Clone, Copy, Debug, PartialEq, Eq, Structural)]
pub enum RoomState {
    Lobby,
    InGame,
}

/// One seated player: what every rule set knows of them, and each rule set's
/// own share.
#[derive(Clone, Copy, Debug, PartialEq, Eq)]
pub struct Player {
    pub name: [u8; MAX_NAME_LENGTH],
    pub disconnected: bool,
    pub carbo: CarboPlayer,
    pub tycoon: TycoonPlayer,
    pub coup: CoupPlayer,
}

/// The state of one room. The server's copy is the authority; every client
/// holds a copy that the same events keep equal to it, but for
/// `player_index`, which is the seat of the copy's owner.
#[derive(Clone, Copy, Debug, PartialEq, Eq)]
pub struct Room {
    pub state: RoomState,
    pub game: GameType,
    pub host: u8,
    pub player_index: u8,
    pub carbo: CarboRoom,
    pub tycoon: TycoonRoom,
    pub coup: CoupRoom,
    pub players: [Option<Player>; MAX_PLAYERS],
}

/// What the server tells clients. Every copy of a room replays these.
#[derive(Clone, Copy, Debug, PartialEq, Eq)]
pub enum ServerEvent {
    CommonEvent(CommonServerEvent),
    CarboEvent(CarboServerEvent),
    TycoonEvent(TycoonServerEvent),
    CoupEvent(CoupServerEvent),
    /// What bytes that decode to nothing else stand for.
    Unknown,
}

#[derive(Clone, Copy, Debug, PartialEq, Eq)]
pub enum CommonServerEvent {
    RoomJoined { new_room: Room, current_player: u8 },
    PlayerJoined { name: [u8; MAX_NAME_LENGTH], player_index: u8 },
    PlayerLeft { player_index: u8 },
    PlayerDisconnected { player_index: u8 },
    PlayerReconnected { player_index: u8 },
    HostChanged { player_index: u8 },
    GameChanged { game: GameType },
    ResetGame,
}

/// What a client asks for. Nothing here is trusted before it is validated.
#[derive(Clone, Copy, Debug, PartialEq, Eq)]
pub enum ClientEvent {
    CommonEvent(CommonClientEvent),
    CarboEvent(CarboClientEvent),
    TycoonEvent(TycoonClientEvent),
    CoupEvent(CoupClientEvent),
    /// What bytes that decode to nothing else stand for.
    Unknown,
}

#[derive(Clone, Copy, Debug, PartialEq, Eq)]
pub enum CommonClientEvent {
    JoinRoom { name: [u8; MAX_NAME_LENGTH] },
    LeaveRoom,
    ChangeGame { game: GameType },
    ResetGame,
    Disconnect,
}

/// The name that `text` gives: its first bytes, as many as a name holds,
/// and zero bytes after them.
pub open spec fn padded_name(text: Seq<u8>) -> Seq<u8> {
    Seq::new(
        MAX_NAME_LENGTH as nat,
        |index: int|
            if index < text.len() {
                text[index]
            } else {
                0u8
            },
    )
}

/// Makes a display name of `text`: what is longer than a name is cut off,
/// what is shorter is filled up with zero bytes.
pub fn pad_name(text: &[u8]) -> (name: [u8; MAX_NAME_LENGTH])
    ensures
        name@ == padded_name(text@),
{
    let mut name = [0u8; MAX_NAME_LENGTH];
    let mut index: usize = 0;
    while index < MAX_NAME_LENGTH && index < text.len()
        invariant
            index <= MAX_NAME_LENGTH,
            index <= text@.len(),
            forall|filled: int| 0 <= filled < index ==> name[filled] == text@[filled],
            forall|blank: int| index <= blank < MAX_NAME_LENGTH ==> name[blank] == 0u8,
        decreases MAX_NAME_LENGTH - index,
    {
        name[index] = text[index];
        index = index + 1;
    }
    name
}

impl Player {
    /// A connected player called `name` who has played nothing.
    pub open spec fn named(name: [u8; MAX_NAME_LENGTH]) -> Player {
        Player {
            name,
            disconnected: false,
            carbo: CarboPlayer::initial(),
            tycoon: TycoonPlayer::initial(),
            coup: CoupPlayer::initial(),
        }
    }

    /// The player a new seat starts from: connected, with an all-zero name.
    pub open spec fn initial() -> Player {
        Player::named(spec_array_fill_for_copy_type::<u8, MAX_NAME_LENGTH>(0u8))
    }

    /// A connected player with the given display name.
    pub fn with_name(name: [u8; MAX_NAME_LENGTH]) -> (player: Player)
        ensures
            player == Player::named(name),
    {
        Player {
            name,
            disconnected: false,
            carbo: CarboPlayer::default(),
            tycoon: TycoonPlayer::default(),
            coup: CoupPlayer::default(),
        }
    }
}

impl Room {
    /// The room a code starts with: in the lobby, no player seated, seat 0
    /// as host.
    pub open spec fn initial() -> Room {
        Room {
            state: RoomState::Lobby,
            game: GameType::Coup,
            host: 0,
            player_index: 0,
            carbo: CarboRoom::initial(),
            tycoon: TycoonRoom::initial(),
            coup: CoupRoom::initial(),
            players: spec_array_fill_for_copy_type::<Option<Player>, MAX_PLAYERS>(None),
        }
    }
}

impl Default for GameType {
    fn default() -> (game: Self)
        ensures
            game == GameType::Coup,
    {
        GameType::Coup
    }
}

impl Default for RoomState {
    fn default() -> (state: Self)
        ensures
            state == RoomState::Lobby,
    {
        RoomState::Lobby
    }
}

impl Default for Player {
    fn default() -> (player: Self)
        ensures
            player == Player::initial(),
    {
        Player::with_name([0u8; MAX_NAME_LENGTH])
    }
}

impl Default for Room {
    fn default() -> (room: Self)
        ensures
            room == Room::initial(),
    {
        Room {
            state: RoomState::Lobby,
            game: GameType::Coup,
            host: 0,
            player_index: 0,
            carbo: CarboRoom::default(),
            tycoon: TycoonRoom::default(),
            coup: CoupRoom::default(),
            players: [None; MAX_PLAYERS],
        }
    }
}

impl Default for ServerEvent {
    fn default() -> (event: Self)
        ensures
            event == ServerEvent::Unknown,
    {
        ServerEvent::Unknown
    }
}

impl Default for ClientEvent {
    fn default() -> (event: Self)
        ensures
            event == ClientEvent::Unknown,
    {
        ClientEvent::Unknown
    }
}

} // verus!
