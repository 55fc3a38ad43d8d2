//! The interfaces between the event protocol, the rule sets and the
//! connections.

use crate::logic::{event_in_range, handle_server_event, room_after_server_event};
use crate::types;
use crate::types::{ClientConnection, Player, Room, ServerEvent, MAX_NAME_LENGTH, MAX_PLAYERS};
use vstd::prelude::*;

verus! {

/// One rule set: its share of the room and of each player, its two event
/// alphabets, and how it judges and replays them.
pub trait GameLogic {
    type GameServerEvent;

    type GameClientEvent;

    type Room;

    type Player;

    /// The rules let the player in seat `player_index` do `event` now.
    spec fn accepts(room: types::Room, event: Self::GameClientEvent, player_index: usize) -> bool;

    /// What the server announces when the player in seat `player_index`
    /// does `event`; `None` where nothing is announced.
    spec fn announcement(event: Self::GameClientEvent, player_index: usize) -> Option<
        Self::GameServerEvent,
    >;

    /// `room` after `event` was replayed on it. `as_player` is the seat the
    /// event was addressed to, if it was addressed to one.
    spec fn replayed(
        room: types::Room,
        event: Self::GameServerEvent,
        as_player: Option<usize>,
        is_server_side: bool,
    ) -> types::Room;

    /// `event` as an event of the common alphabet.
    spec fn wrapped(event: Self::GameServerEvent) -> ServerEvent;

    fn validate_client_game_event(
        room: &types::Room,
        event: &Self::GameClientEvent,
        player_index: usize,
    ) -> (valid: bool)
        ensures
            valid == Self::accepts(*room, *event, player_index),
    ;

    /// Carries out an accepted event: announces what `announcement` gives to
    /// everyone but the player who caused it.
    fn handle_client_game_event<N: Networking>(
        room: &mut types::Room,
        event: &Self::GameClientEvent,
        connections: &mut N,
        player_index: usize,
    )
        requires
            player_index < MAX_PLAYERS,
        ensures
            Self::accepts(*old(room), *event, player_index) ==> {
                &&& *final(room) == (match Self::announcement(*event, player_index) {
                    Some(announced) => old(connections).after_send_to_all_except_origin(
                        *old(room),
                        Self::wrapped(announced),
                        player_index,
                    ),
                    None => *old(room),
                })
                &&& N::served(
                    old(connections),
                    final(connections),
                    match Self::announcement(*event, player_index) {
                        Some(announced) => to_all_except(Self::wrapped(announced), player_index),
                        None => to_nobody(),
                    },
                )
            },
    ;

    fn handle_server_game_event(
        room: &mut types::Room,
        event: &Self::GameServerEvent,
        player_index: Option<usize>,
        is_server_side: bool,
    )
        ensures
            *final(room) == Self::replayed(*old(room), *event, player_index, is_server_side),
    ;

    fn wrap_game_event(event: Self::GameServerEvent) -> (wrapped: ServerEvent)
        ensures
            wrapped == Self::wrapped(event),
            event_in_range(wrapped),
    ;
}

/// One recipient of server events.
pub trait NetworkingSend {
    fn send(&mut self, event: &ServerEvent);
}

/// The fields every player has, whatever is played.
pub trait PlayerFields: Sized {
    spec fn name_of(&self) -> [u8; MAX_NAME_LENGTH];

    spec fn is_disconnected(&self) -> bool;

    fn name(&self) -> (name: &[u8; MAX_NAME_LENGTH])
        ensures
            *name == self.name_of(),
    ;

    fn set_name(&mut self, name: &[u8; MAX_NAME_LENGTH])
        ensures
            final(self).name_of() == *name,
            final(self).is_disconnected() == old(self).is_disconnected(),
    ;

    fn disconnected(&self) -> (disconnected: bool)
        ensures
            disconnected == self.is_disconnected(),
    ;

    fn set_disconnected(&mut self, disconnected: bool)
        ensures
            final(self).is_disconnected() == disconnected,
            final(self).name_of() == old(self).name_of(),
    ;
}

/// The fields every room has, whatever is played.
pub trait RoomFields: Sized {
    type Player: PlayerFields;

    spec fn seats(&self) -> [Option<Self::Player>; MAX_PLAYERS];

    spec fn host_seat(&self) -> u8;

    spec fn own_seat(&self) -> u8;

    fn players(&self) -> (players: &[Option<Self::Player>; MAX_PLAYERS])
        ensures
            *players == self.seats(),
    ;

    fn players_mut(&mut self) -> (players: &mut [Option<Self::Player>; MAX_PLAYERS])
        ensures
            *players == old(self).seats(),
            final(self).seats() == *final(players),
            final(self).host_seat() == old(self).host_seat(),
            final(self).own_seat() == old(self).own_seat(),
    ;

    fn host(&self) -> (host: u8)
        ensures
            host == self.host_seat(),
    ;

    fn set_host(&mut self, host: u8)
        ensures
            final(self).host_seat() == host,
            final(self).seats() == old(self).seats(),
            final(self).own_seat() == old(self).own_seat(),
    ;

    fn player_index(&self) -> (player_index: u8)
        ensures
            player_index == self.own_seat(),
    ;

    fn set_player_index(&mut self, player_index: u8)
        ensures
            final(self).own_seat() == player_index,
            final(self).seats() == old(self).seats(),
            final(self).host_seat() == old(self).host_seat(),
    ;
}

impl PlayerFields for Player {
    open spec fn name_of(&self) -> [u8; MAX_NAME_LENGTH] {
        self.name
    }

    open spec fn is_disconnected(&self) -> bool {
        self.disconnected
    }

    fn name(&self) -> (name: &[u8; MAX_NAME_LENGTH]) {
        &self.name
    }

    fn set_name(&mut self, name: &[u8; MAX_NAME_LENGTH])
        ensures
            *final(self) == (Player { name: *name, ..*old(self) }),
    {
        self.name = *name;
    }

    fn disconnected(&self) -> (disconnected: bool) {
        self.disconnected
    }

    fn set_disconnected(&mut self, disconnected: bool)
        ensures
            *final(self) == (Player { disconnected, ..*old(self) }),
    {
        self.disconnected = disconnected;
    }
}

impl RoomFields for Room {
    type Player = Player;

    open spec fn seats(&self) -> [Option<Player>; MAX_PLAYERS] {
        self.players
    }

    open spec fn host_seat(&self) -> u8 {
        self.host
    }

    open spec fn own_seat(&self) -> u8 {
        self.player_index
    }

    fn players(&self) -> (players: &[Option<Player>; MAX_PLAYERS]) {
        &self.players
    }

    fn players_mut(&mut self) -> (players: &mut [Option<Player>; MAX_PLAYERS])
        ensures
            *final(self) == (Room { players: *final(players), ..*old(self) }),
    {
        &mut self.players
    }

    fn host(&self) -> (host: u8) {
        self.host
    }

    fn set_host(&mut self, host: u8)
        ensures
            *final(self) == (Room { host, ..*old(self) }),
    {
        self.host = host;
    }

    fn player_index(&self) -> (player_index: u8) {
        self.player_index
    }

    fn set_player_index(&mut self, player_index: u8)
        ensures
            *final(self) == (Room { player_index, ..*old(self) }),
    {
        self.player_index = player_index;
    }
}

/// Nobody is sent anything.
pub open spec fn to_nobody() -> spec_fn(int) -> Seq<ServerEvent> {
    |seat: int| Seq::<ServerEvent>::empty()
}

/// Every seat is sent `event`.
pub open spec fn to_all(event: ServerEvent) -> spec_fn(int) -> Seq<ServerEvent> {
    |seat: int| seq![event]
}

/// Every seat but `except` is sent `event`.
pub open spec fn to_all_except(event: ServerEvent, except: usize) -> spec_fn(int) -> Seq<
    ServerEvent,
> {
    |seat: int|
        if seat == except as int {
            Seq::<ServerEvent>::empty()
        } else {
            seq![event]
        }
}

/// Seat `player_index` is sent `event`, and nobody else.
pub open spec fn to_one(event: ServerEvent, player_index: usize) -> spec_fn(int) -> Seq<
    ServerEvent,
> {
    |seat: int|
        if seat == player_index as int {
            seq![event]
        } else {
            Seq::<ServerEvent>::empty()
        }
}

/// Every seat is sent what `early` gives it and then what `late` gives it.
pub open spec fn one_after_another(
    early: spec_fn(int) -> Seq<ServerEvent>,
    late: spec_fn(int) -> Seq<ServerEvent>,
) -> spec_fn(int) -> Seq<ServerEvent> {
    |seat: int| early(seat) + late(seat)
}

/// Where server events go. The server's seats send them out and replay them
/// on the server's room; a client's stand-in replays what the client can
/// foresee on the client's own copy.
///
/// Each `after_*` function says what the operation of that name leaves in
/// the room. `served` says what sending has made of the connections:
/// `after` is `before` once every seat was to be sent what `expected` gives
/// for it.
pub trait Networking: Sized {
    spec fn after_send_to_all(&self, room: Room, event: ServerEvent) -> Room;

    spec fn after_send_to_all_except(&self, room: Room, event: ServerEvent, except: usize) -> Room;

    spec fn after_send_to(&self, room: Room, event: ServerEvent, player_index: usize) -> Room;

    spec fn after_send_to_all_except_origin(
        &self,
        room: Room,
        event: ServerEvent,
        origin: usize,
    ) -> Room;

    spec fn served(before: &Self, after: &Self, expected: spec_fn(int) -> Seq<ServerEvent>) -> bool;

    /// Sending nothing changes nothing that `served` speaks of; sending
    /// twice is sending one lot after the other; only what each seat is
    /// sent matters; and what was served treats rooms as it did before.
    proof fn lemma_served(
        first: &Self,
        second: &Self,
        third: &Self,
        early: spec_fn(int) -> Seq<ServerEvent>,
        late: spec_fn(int) -> Seq<ServerEvent>,
    )
        ensures
            Self::served(first, first, to_nobody()),
            Self::served(first, second, early) && Self::served(second, third, late)
                ==> Self::served(first, third, one_after_another(early, late)),
            Self::served(first, second, early) && (forall|seat: int| #[trigger]
                early(seat) == late(seat)) ==> Self::served(first, second, late),
            Self::served(first, second, early) ==> {
                &&& forall|room: Room, event: ServerEvent| #[trigger]
                    second.after_send_to_all(room, event) == first.after_send_to_all(room, event)
                &&& forall|room: Room, event: ServerEvent, except: usize| #[trigger]
                    second.after_send_to_all_except(room, event, except)
                        == first.after_send_to_all_except(room, event, except)
                &&& forall|room: Room, event: ServerEvent, player_index: usize| #[trigger]
                    second.after_send_to(room, event, player_index) == first.after_send_to(
                        room,
                        event,
                        player_index,
                    )
                &&& forall|room: Room, event: ServerEvent, origin: usize| #[trigger]
                    second.after_send_to_all_except_origin(room, event, origin)
                        == first.after_send_to_all_except_origin(room, event, origin)
            },
    ;

    fn send_to_all(&mut self, room: &mut Room, event: ServerEvent)
        requires
            event_in_range(event),
        ensures
            Self::served(old(self), final(self), to_all(event)),
            *final(room) == old(self).after_send_to_all(*old(room), event),
    ;

    fn send_to_all_except(&mut self, room: &mut Room, event: ServerEvent, except: usize)
        requires
            event_in_range(event),
        ensures
            Self::served(old(self), final(self), to_all_except(event, except)),
            *final(room) == old(self).after_send_to_all_except(*old(room), event, except),
    ;

    fn send_to(&mut self, room: &mut Room, event: ServerEvent, player_index: usize)
        requires
            event_in_range(event),
        ensures
            Self::served(old(self), final(self), to_one(event, player_index)),
            *final(room) == old(self).after_send_to(*old(room), event, player_index),
    ;

    /// For events whose effect the client that caused them can work out by
    /// itself: everyone else is told.
    fn send_to_all_except_origin(&mut self, room: &mut Room, event: ServerEvent, origin: usize)
        requires
            event_in_range(event),
        ensures
            Self::served(old(self), final(self), to_all_except(event, origin)),
            *final(room) == old(self).after_send_to_all_except_origin(*old(room), event, origin),
    ;
}

/// A client sends nothing to anyone. Of the four operations it replays only
/// the one whose effect it can foresee: what it caused itself.
impl Networking for ClientConnection {
    open spec fn after_send_to_all(&self, room: Room, event: ServerEvent) -> Room {
        room
    }

    open spec fn after_send_to_all_except(
        &self,
        room: Room,
        event: ServerEvent,
        except: usize,
    ) -> Room {
        room
    }

    open spec fn after_send_to(&self, room: Room, event: ServerEvent, player_index: usize) -> Room {
        room
    }

    open spec fn after_send_to_all_except_origin(
        &self,
        room: Room,
        event: ServerEvent,
        origin: usize,
    ) -> Room {
        room_after_server_event(room, event, Some(origin), false)
    }

    open spec fn served(
        before: &Self,
        after: &Self,
        expected: spec_fn(int) -> Seq<ServerEvent>,
    ) -> bool {
        true
    }

    proof fn lemma_served(
        first: &Self,
        second: &Self,
        third: &Self,
        early: spec_fn(int) -> Seq<ServerEvent>,
        late: spec_fn(int) -> Seq<ServerEvent>,
    ) {
    }

    fn send_to_all(&mut self, room: &mut Room, event: ServerEvent) {
    }

    fn send_to_all_except(&mut self, room: &mut Room, event: ServerEvent, except: usize) {
    }

    fn send_to(&mut self, room: &mut Room, event: ServerEvent, player_index: usize) {
    }

    fn send_to_all_except_origin(&mut self, room: &mut Room, event: ServerEvent, origin: usize) {
        handle_server_event(room, &event, Some(origin), false);
    }
}

} // verus!
