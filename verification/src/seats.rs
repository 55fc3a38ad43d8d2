//! Where the players sit round the table as one of them sees it.
//!
//! The viewer sits at the bottom; the others follow clockwise from the
//! viewer's left, spread over the places that a table of their number has.

use crate::helpers::{is_seated, lemma_seated_among_next, seated_among};
use crate::types::{Room, MAX_PLAYERS};
use vstd::prelude::*;

verus! {

/// A place at the table.
#[derive(Clone, Copy, Debug, PartialEq, Eq, Structural)]
pub enum Seats {
    CurrentPlayer,
    TopLeft,
    TopMiddle,
    TopRight,
    MiddleLeft,
    MiddleRight,
    MiddleTopRight,
    MiddleTopLeft,
    BottomLeft,
    BottomRight,
    /// No place at this table.
    Nowhere,
}

/// The place of the player who comes `relative` seats after the viewer at
/// a table of `num_players`.
pub open spec fn place(num_players: int, relative: int) -> Seats {
    if relative == 0 {
        Seats::CurrentPlayer
    } else if num_players == 2 {
        if relative == 1 {
            Seats::TopMiddle
        } else {
            Seats::Nowhere
        }
    } else if num_players == 3 {
        if relative == 1 {
            Seats::MiddleLeft
        } else if relative == 2 {
            Seats::MiddleRight
        } else {
            Seats::Nowhere
        }
    } else if num_players == 4 {
        if relative == 1 {
            Seats::MiddleLeft
        } else if relative == 2 {
            Seats::TopMiddle
        } else if relative == 3 {
            Seats::MiddleRight
        } else {
            Seats::Nowhere
        }
    } else if num_players == 5 {
        if relative == 1 {
            Seats::MiddleLeft
        } else if relative == 2 {
            Seats::TopLeft
        } else if relative == 3 {
            Seats::TopRight
        } else if relative == 4 {
            Seats::MiddleRight
        } else {
            Seats::Nowhere
        }
    } else if num_players == 6 {
        if relative == 1 {
            Seats::MiddleLeft
        } else if relative == 2 {
            Seats::TopLeft
        } else if relative == 3 {
            Seats::TopMiddle
        } else if relative == 4 {
            Seats::TopRight
        } else if relative == 5 {
            Seats::MiddleRight
        } else {
            Seats::Nowhere
        }
    } else if num_players == 7 {
        if relative == 1 {
            Seats::BottomLeft
        } else if relative == 2 {
            Seats::MiddleTopLeft
        } else if relative == 3 {
            Seats::TopLeft
        } else if relative == 4 {
            Seats::TopRight
        } else if relative == 5 {
            Seats::MiddleTopRight
        } else if relative == 6 {
            Seats::BottomRight
        } else {
            Seats::Nowhere
        }
    } else if num_players == 8 {
        if relative == 1 {
            Seats::BottomLeft
        } else if relative == 2 {
            Seats::MiddleTopLeft
        } else if relative == 3 {
            Seats::TopLeft
        } else if relative == 4 {
            Seats::TopMiddle
        } else if relative == 5 {
            Seats::TopRight
        } else if relative == 6 {
            Seats::MiddleTopRight
        } else if relative == 7 {
            Seats::BottomRight
        } else {
            Seats::Nowhere
        }
    } else {
        Seats::Nowhere
    }
}

/// The place of the player who is `player_index`-th among those present,
/// seen by the one who is `current_player`-th, at a table of `num_players`.
/// A table of no players, or of more than a room seats, has no places.
pub open spec fn seat_position(current_player: int, player_index: int, num_players: int) -> Seats {
    if num_players <= 0 || num_players > MAX_PLAYERS {
        Seats::Nowhere
    } else {
        place(num_players, (player_index - current_player) % num_players)
    }
}

/// The place of the player in seat `player_index` as the owner of `room`
/// sees it. Players are counted in the order of their seats, empty seats
/// left out.
pub open spec fn seat_in_room(room: Room, player_index: usize) -> Seats {
    let current = room.player_index as int;
    seat_position(
        if current < MAX_PLAYERS && room.players[current] is Some {
            seated_among(room.players@, current) as int
        } else {
            0
        },
        if player_index < MAX_PLAYERS && room.players[player_index as int] is Some {
            seated_among(room.players@, player_index as int) as int
        } else {
            0
        },
        seated_among(room.players@, MAX_PLAYERS as int) as int,
    )
}

impl Seats {
    /// Where on the table the place is drawn.
    pub open spec fn style(self) -> &'static str {
        match self {
            Seats::CurrentPlayer => "top: 100%; left: 50%;",
            Seats::TopLeft => "top: 15%; left: 27%;",
            Seats::TopMiddle => "top: 10%; left: 50%;",
            Seats::TopRight => "top: 15%; left: 73%;",
            Seats::MiddleTopRight => "top: 35%; left: 90%;",
            Seats::MiddleTopLeft => "top: 35%; left: 10%;",
            Seats::MiddleLeft => "top: 50%; left: 10%;",
            Seats::MiddleRight => "top: 50%; left: 90%;",
            Seats::BottomLeft => "top: 70%; left: 12%;",
            Seats::BottomRight => "top: 70%; left: 88%;",
            Seats::Nowhere => "top: 50%; left: 90%;",
        }
    }

    /// Where on the table the place is drawn, as a style of two offsets.
    pub fn as_style(&self) -> (style: &'static str)
        ensures
            style@ == self.style()@,
    {
        match self {
            Seats::CurrentPlayer => "top: 100%; left: 50%;",
            Seats::TopLeft => "top: 15%; left: 27%;",
            Seats::TopMiddle => "top: 10%; left: 50%;",
            Seats::TopRight => "top: 15%; left: 73%;",
            Seats::MiddleTopRight => "top: 35%; left: 90%;",
            Seats::MiddleTopLeft => "top: 35%; left: 10%;",
            Seats::MiddleLeft => "top: 50%; left: 10%;",
            Seats::MiddleRight => "top: 50%; left: 90%;",
            Seats::BottomLeft => "top: 70%; left: 12%;",
            Seats::BottomRight => "top: 70%; left: 88%;",
            Seats::Nowhere => "top: 50%; left: 90%;",
        }
    }
}

/// The place of the player who comes `relative` seats after the viewer at
/// a table of `num_players`.
fn place_at(num_players: u8, relative: u8) -> (seat: Seats)
    ensures
        seat == place(num_players as int, relative as int),
{
    if relative == 0 {
        return Seats::CurrentPlayer;
    }
    match num_players {
        2 => match relative {
            1 => Seats::TopMiddle,
            _ => Seats::Nowhere,
        },
        3 => match relative {
            1 => Seats::MiddleLeft,
            2 => Seats::MiddleRight,
            _ => Seats::Nowhere,
        },
        4 => match relative {
            1 => Seats::MiddleLeft,
            2 => Seats::TopMiddle,
            3 => Seats::MiddleRight,
            _ => Seats::Nowhere,
        },
        5 => match relative {
            1 => Seats::MiddleLeft,
            2 => Seats::TopLeft,
            3 => Seats::TopRight,
            4 => Seats::MiddleRight,
            _ => Seats::Nowhere,
        },
        6 => match relative {
            1 => Seats::MiddleLeft,
            2 => Seats::TopLeft,
            3 => Seats::TopMiddle,
            4 => Seats::TopRight,
            5 => Seats::MiddleRight,
            _ => Seats::Nowhere,
        },
        7 => match relative {
            1 => Seats::BottomLeft,
            2 => Seats::MiddleTopLeft,
            3 => Seats::TopLeft,
            4 => Seats::TopRight,
            5 => Seats::MiddleTopRight,
            6 => Seats::BottomRight,
            _ => Seats::Nowhere,
        },
        8 => match relative {
            1 => Seats::BottomLeft,
            2 => Seats::MiddleTopLeft,
            3 => Seats::TopLeft,
            4 => Seats::TopMiddle,
            5 => Seats::TopRight,
            6 => Seats::MiddleTopRight,
            7 => Seats::BottomRight,
            _ => Seats::Nowhere,
        },
        _ => Seats::Nowhere,
    }
}

/// The place of one player as another sees it. Both are given by their
/// rank among the players present; the viewer sits at the bottom.
pub fn get_seat_position(current_player: i8, player_index: i8, num_players: i8) -> (seat: Seats)
    ensures
        seat == seat_position(current_player as int, player_index as int, num_players as int),
{
    if num_players <= 0 || num_players > MAX_PLAYERS as i8 {
        return Seats::Nowhere;
    }
    let size: i16 = num_players as i16;
    let distance: i16 = player_index as i16 - current_player as i16;
    let lifted: i16 = distance + 255 * size;
    let relative: i16 = lifted % size;
    assert(relative as int == (player_index - current_player) % (num_players as int)) by {
        vstd::arithmetic::div_mod::lemma_mod_multiples_vanish(255, distance as int, size as int);
    }
    place_at(num_players as u8, relative as u8)
}

/// The place of the player in seat `player_index` as the owner of `room`
/// sees it.
pub fn seat_of_player(room: &Room, player_index: usize) -> (seat: Seats)
    ensures
        seat == seat_in_room(*room, player_index),
{
    let current_player = room.player_index as usize;
    let mut current_local: i8 = 0;
    let mut local: i8 = 0;
    let mut num_players: i8 = 0;
    let mut index: usize = 0;
    while index < MAX_PLAYERS
        invariant
            index <= MAX_PLAYERS,
            current_player == room.player_index,
            num_players == seated_among(room.players@, index as int),
            0 <= num_players <= index,
            current_local == (if current_player < index
                && room.players[current_player as int] is Some {
                seated_among(room.players@, current_player as int) as int
            } else {
                0
            }),
            local == (if player_index < index && room.players[player_index as int] is Some {
                seated_among(room.players@, player_index as int) as int
            } else {
                0
            }),
        decreases MAX_PLAYERS - index,
    {
        proof {
            lemma_seated_among_next(room.players@, index as int);
        }
        if room.players[index].is_some() {
            if index == current_player {
                current_local = num_players;
            }
            if index == player_index {
                local = num_players;
            }
            num_players = num_players + 1;
        }
        index = index + 1;
    }
    get_seat_position(current_local, local, num_players)
}

} // verus!
