//! Small questions about a room.

use crate::types::{Player, Room, RoomState, MAX_PLAYERS};
use vstd::array::spec_array_update;
use vstd::prelude::*;

verus! {

/// Seat `player_index` is the host's seat.
pub open spec fn holds_host(room: Room, player_index: usize) -> bool {
    room.host as int == player_index as int
}

/// The room is gathering players.
pub open spec fn in_lobby(room: Room) -> bool {
    room.state == RoomState::Lobby
}

/// The player in seat `player_index`; `None` for an empty seat and for an
/// index that is no seat.
pub open spec fn player_at(room: Room, player_index: usize) -> Option<Player> {
    if player_index < MAX_PLAYERS {
        room.players[player_index as int]
    } else {
        None
    }
}

/// The seat holds a player.
pub open spec fn is_seated() -> spec_fn(Option<Player>) -> bool {
    |seat: Option<Player>| seat is Some
}

/// How many of the first `upto` seats hold a player.
pub open spec fn seated_among(players: Seq<Option<Player>>, upto: int) -> nat {
    players.take(upto).filter(is_seated()).len()
}

/// How many seats hold a player.
pub open spec fn player_count(room: Room) -> nat {
    room.players@.filter(is_seated()).len()
}

/// Looking at one seat more counts one player more if the seat holds one.
pub proof fn lemma_seated_among_next(players: Seq<Option<Player>>, upto: int)
    requires
        0 <= upto < players.len(),
    ensures
        seated_among(players, upto + 1) == seated_among(players, upto) + (if players[upto] is Some {
            1nat
        } else {
            0nat
        }),
{
    assert(players.take(upto + 1) =~= players.take(upto).push(players[upto]));
    players.take(upto).lemma_filter_len_push(is_seated(), players[upto]);
}

/// The seat holds a player whose connection is up.
pub open spec fn is_connected(seat: Option<Player>) -> bool {
    seat matches Some(player) && !player.disconnected
}

/// The lowest seat from `from` on that holds a connected player.
pub open spec fn first_connected(players: [Option<Player>; MAX_PLAYERS], from: int) -> Option<u8>
    decreases MAX_PLAYERS - from,
{
    if from < 0 || from >= MAX_PLAYERS {
        None
    } else if is_connected(players[from]) {
        Some(from as u8)
    } else {
        first_connected(players, from + 1)
    }
}

/// `first_connected` finds a connected player, passes over none, and finds
/// none only where there is none.
pub proof fn lemma_first_connected(players: [Option<Player>; MAX_PLAYERS], from: int)
    requires
        0 <= from <= MAX_PLAYERS,
    ensures
        match first_connected(players, from) {
            Some(seat) => {
                &&& from <= seat < MAX_PLAYERS
                &&& is_connected(players[seat as int])
                &&& forall|lower: int|
                    from <= lower < seat ==> !is_connected(#[trigger] players[lower])
            },
            None => forall|seat: int|
                from <= seat < MAX_PLAYERS ==> !is_connected(#[trigger] players[seat]),
        },
    decreases MAX_PLAYERS - from,
{
    if from < MAX_PLAYERS && !is_connected(players[from]) {
        lemma_first_connected(players, from + 1);
    }
}

/// `room` with seat `slot` holding `seat`.
pub open spec fn with_seat(room: Room, slot: int, seat: Option<Player>) -> Room {
    Room { players: spec_array_update(room.players, slot, seat), ..room }
}

/// `players` with `change` applied to every player in the first `upto`
/// seats; empty seats stay empty.
pub open spec fn each_player(
    players: [Option<Player>; MAX_PLAYERS],
    change: spec_fn(int, Player) -> Player,
    upto: int,
) -> [Option<Player>; MAX_PLAYERS]
    decreases upto,
{
    if upto <= 0 {
        players
    } else {
        let before = each_player(players, change, upto - 1);
        match before[upto - 1] {
            Some(player) => spec_array_update(before, upto - 1, Some(change(upto - 1, player))),
            None => before,
        }
    }
}

/// Seat by seat, what `each_player` leaves.
pub proof fn lemma_each_player(
    players: [Option<Player>; MAX_PLAYERS],
    change: spec_fn(int, Player) -> Player,
    upto: int,
)
    requires
        0 <= upto <= MAX_PLAYERS,
    ensures
        forall|seat: int|
            0 <= seat < MAX_PLAYERS ==> #[trigger] each_player(players, change, upto)[seat] == (
            if seat < upto {
                match players[seat] {
                    Some(player) => Some(change(seat, player)),
                    None => None,
                }
            } else {
                players[seat]
            }),
    decreases upto,
{
    if upto > 0 {
        lemma_each_player(players, change, upto - 1);
    }
}

pub fn is_host(room: &Room, player_index: usize) -> (host: bool)
    ensures
        host == holds_host(*room, player_index),
{
    room.host as usize == player_index
}

pub fn is_lobby(room: &Room) -> (lobby: bool)
    ensures
        lobby == in_lobby(*room),
{
    room.state == RoomState::Lobby
}

pub fn get_player(room: &Room, player_index: usize) -> (player: Option<&Player>)
    ensures
        match player {
            Some(p) => player_at(*room, player_index) == Some(*p),
            None => player_at(*room, player_index) is None,
        },
{
    if player_index < MAX_PLAYERS {
        room.players[player_index].as_ref()
    } else {
        None
    }
}

pub fn get_player_mut(room: &mut Room, player_index: usize) -> (player: Option<&mut Player>)
    ensures
        match player {
            Some(p) => {
                &&& player_at(*old(room), player_index) == Some(*p)
                &&& *final(room) == with_seat(*old(room), player_index as int, Some(*final(p)))
            },
            None => player_at(*old(room), player_index) is None && *final(room) == *old(room),
        },
{
    if player_index < MAX_PLAYERS && room.players[player_index].is_some() {
        match &mut room.players[player_index] {
            Some(player) => Some(player),
            None => None,
        }
    } else {
        None
    }
}

pub fn num_players(room: &Room) -> (count: usize)
    ensures
        count == player_count(*room),
        count <= MAX_PLAYERS,
{
    let mut count: usize = 0;
    let mut index: usize = 0;
    while index < MAX_PLAYERS
        invariant
            index <= MAX_PLAYERS,
            count == seated_among(room.players@, index as int),
            count <= index,
        decreases MAX_PLAYERS - index,
    {
        proof {
            lemma_seated_among_next(room.players@, index as int);
        }
        if room.players[index].is_some() {
            count = count + 1;
        }
        index = index + 1;
    }
    assert(room.players@.take(MAX_PLAYERS as int) =~= room.players@);
    count
}

} // verus!
