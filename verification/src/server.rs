//! One room on the server: its seats and its state.

use crate::connection::{seats_served, served, Channel, Connection, PlayerIdentity};
use crate::logic::{
    common_announcement, handle_client_event, lemma_only_a_join_seats, room_after_client_event,
    room_after_server_event, told_of_client_event, valid_client_event, validate_client_event,
};
use crate::traits::GameLogic;
use crate::traits::{one_after_another, to_all, to_all_except, to_nobody, to_one, Networking};
use crate::types::{
    ClientEvent, CommonClientEvent, CommonServerEvent, Player, Room, ServerEvent, MAX_NAME_LENGTH,
    MAX_PLAYERS,
};
use vstd::array::spec_array_update;
use vstd::prelude::*;

verus! {

/// A room as the server holds it: who sits where, and the state that the
/// server's events have made.
pub struct ServerRoom {
    pub connections: [Option<Connection>; MAX_PLAYERS],
    pub room: Room,
}

/// What became of an attempt to connect.
#[derive(Clone, Copy, Debug, PartialEq, Eq)]
pub enum Admission {
    /// Every seat is taken by someone else.
    Rejected,
    /// The identity has a named player in this seat and is back in it.
    Reconnected(usize),
    /// The identity holds this seat and has yet to give a name.
    AwaitingName(usize),
}

/// What became of a client event.
#[derive(Clone, Copy, Debug, PartialEq, Eq, Structural)]
pub enum Outcome {
    /// The event was not legal; nothing changed and nobody was told.
    Dropped,
    /// The event was carried out.
    Applied,
    /// The event was carried out and ends the connection of its sender.
    Ended,
}

/// Every seat that holds a player is held by a connection.
pub open spec fn players_held(
    connections: [Option<Connection>; MAX_PLAYERS],
    room: Room,
) -> bool {
    forall|seat: int|
        0 <= seat < MAX_PLAYERS && #[trigger] room.players[seat] is Some
            ==> connections[seat] is Some
}

/// No two seats are held by the same identity.
pub open spec fn distinct_identities(connections: [Option<Connection>; MAX_PLAYERS]) -> bool {
    forall|first: int, second: int|
        0 <= first < MAX_PLAYERS && 0 <= second < MAX_PLAYERS && first != second ==> match (
            #[trigger] connections[first],
            #[trigger] connections[second],
        ) {
            (Some(one), Some(other)) => one.id != other.id,
            _ => true,
        }
}

/// The lowest seat from `from` on that `id` holds.
pub open spec fn seat_of(
    connections: [Option<Connection>; MAX_PLAYERS],
    id: PlayerIdentity,
    from: int,
) -> Option<usize>
    decreases MAX_PLAYERS - from,
{
    if from < 0 || from >= MAX_PLAYERS {
        None
    } else if connections[from] matches Some(connection) && connection.id == id {
        Some(from as usize)
    } else {
        seat_of(connections, id, from + 1)
    }
}

/// The lowest seat from `from` on that nobody holds.
pub open spec fn first_free(connections: [Option<Connection>; MAX_PLAYERS], from: int) -> Option<
    usize,
>
    decreases MAX_PLAYERS - from,
{
    if from < 0 || from >= MAX_PLAYERS {
        None
    } else if connections[from] is None {
        Some(from as usize)
    } else {
        first_free(connections, from + 1)
    }
}

/// The seat that `id` is given: the one it holds already, else the lowest
/// free one, else none.
pub open spec fn assigned_seat(
    connections: [Option<Connection>; MAX_PLAYERS],
    id: PlayerIdentity,
) -> Option<usize> {
    match seat_of(connections, id, 0) {
        Some(seat) => Some(seat),
        None => first_free(connections, 0),
    }
}

/// Every seat is empty or has lost its channel.
pub open spec fn room_empty(connections: [Option<Connection>; MAX_PLAYERS]) -> bool {
    forall|seat: int|
        0 <= seat < MAX_PLAYERS ==> match #[trigger] connections[seat] {
            Some(connection) => connection.sender is None,
            None => true,
        }
}

/// `seat_of` finds a seat that `id` holds, passes over none, and finds none
/// only where `id` holds none.
pub proof fn lemma_seat_of(
    connections: [Option<Connection>; MAX_PLAYERS],
    id: PlayerIdentity,
    from: int,
)
    requires
        0 <= from <= MAX_PLAYERS,
    ensures
        match seat_of(connections, id, from) {
            Some(seat) => {
                &&& from <= seat < MAX_PLAYERS
                &&& connections[seat as int] matches Some(connection) && connection.id == id
                &&& forall|lower: int|
                    from <= lower < seat ==> !(#[trigger] connections[lower] matches Some(
                        connection,
                    ) && connection.id == id)
            },
            None => forall|seat: int|
                from <= seat < MAX_PLAYERS ==> !(#[trigger] connections[seat] matches Some(
                    connection,
                ) && connection.id == id),
        },
    decreases MAX_PLAYERS - from,
{
    if from < MAX_PLAYERS && !(connections[from] matches Some(connection) && connection.id == id) {
        lemma_seat_of(connections, id, from + 1);
    }
}

/// `first_free` finds a free seat, passes over none, and finds none only
/// where every seat is held.
pub proof fn lemma_first_free(connections: [Option<Connection>; MAX_PLAYERS], from: int)
    requires
        0 <= from <= MAX_PLAYERS,
    ensures
        match first_free(connections, from) {
            Some(seat) => {
                &&& from <= seat < MAX_PLAYERS
                &&& connections[seat as int] is None
                &&& forall|lower: int|
                    from <= lower < seat ==> #[trigger] connections[lower] is Some
            },
            None => forall|seat: int|
                from <= seat < MAX_PLAYERS ==> #[trigger] connections[seat] is Some,
        },
    decreases MAX_PLAYERS - from,
{
    if from < MAX_PLAYERS && connections[from] is Some {
        lemma_first_free(connections, from + 1);
    }
}

/// The seat that an identity is given is its own or is free: nobody is
/// ever put in a seat that another identity holds.
pub proof fn lemma_assigned_seat(
    connections: [Option<Connection>; MAX_PLAYERS],
    id: PlayerIdentity,
)
    ensures
        match assigned_seat(connections, id) {
            Some(seat) => seat < MAX_PLAYERS && match connections[seat as int] {
                Some(connection) => connection.id == id,
                None => seat_of(connections, id, 0) is None,
            },
            None => forall|seat: int|
                0 <= seat < MAX_PLAYERS ==> (#[trigger] connections[seat] matches Some(connection)
                    && connection.id != id),
        },
{
    lemma_seat_of(connections, id, 0);
    lemma_first_free(connections, 0);
}

/// Where identities are distinct, the seat of an identity is the seat it
/// is found in.
pub proof fn lemma_seat_of_holder(
    connections: [Option<Connection>; MAX_PLAYERS],
    id: PlayerIdentity,
    seat: usize,
)
    requires
        distinct_identities(connections),
        seat < MAX_PLAYERS,
        connections[seat as int] matches Some(connection) && connection.id == id,
    ensures
        seat_of(connections, id, 0) == Some(seat),
{
    lemma_seat_of(connections, id, 0);
}

/// Sending leaves identities distinct.
pub proof fn lemma_served_distinct(
    before: [Option<Connection>; MAX_PLAYERS],
    after: [Option<Connection>; MAX_PLAYERS],
    expected: spec_fn(int) -> Seq<ServerEvent>,
)
    requires
        distinct_identities(before),
        seats_served(before, after, expected),
    ensures
        distinct_identities(after),
{
    assert forall|first: int, second: int|
        0 <= first < MAX_PLAYERS && 0 <= second < MAX_PLAYERS && first != second implies match (
            #[trigger] after[first],
            #[trigger] after[second],
        ) {
            (Some(one), Some(other)) => one.id != other.id,
            _ => true,
        } by {
        let _ = (before[first], before[second]);
    }
}

/// Sending neither frees a seat nor fills one.
pub proof fn lemma_served_keeps_held(
    before: [Option<Connection>; MAX_PLAYERS],
    after: [Option<Connection>; MAX_PLAYERS],
    expected: spec_fn(int) -> Seq<ServerEvent>,
)
    requires
        seats_served(before, after, expected),
    ensures
        forall|seat: int|
            0 <= seat < MAX_PLAYERS ==> (#[trigger] after[seat] is Some <==> before[seat] is Some),
{
}

/// Carrying out a client event seats nobody but the one who joins, in the
/// seat from which the join came.
pub proof fn lemma_carried_out_keeps_seats(room: Room, event: ClientEvent, slot: usize)
    requires
        slot < MAX_PLAYERS,
        valid_client_event(room, event, slot),
    ensures
        forall|connections: [Option<Connection>; MAX_PLAYERS], seat: int|
            0 <= seat < MAX_PLAYERS && connections[slot as int] is Some
                && #[trigger] room_after_client_event(
                connections,
                room,
                event,
                slot,
            ).players[seat] is Some ==> room.players[seat] is Some || seat == slot,
{
    assert forall|connections: [Option<Connection>; MAX_PLAYERS], seat: int|
        0 <= seat < MAX_PLAYERS && connections[slot as int] is Some
            && #[trigger] room_after_client_event(
            connections,
            room,
            event,
            slot,
        ).players[seat] is Some implies room.players[seat] is Some || seat == slot by {
        match event {
            ClientEvent::CommonEvent(common) => {
                lemma_only_a_join_seats(room, common_announcement(common, slot), None);
            },
            ClientEvent::TycoonEvent(game) => {},
            ClientEvent::CarboEvent(game) => {},
            ClientEvent::CoupEvent(game) => {
                match <crate::games::coup::CoupRoom as GameLogic>::announcement(game, slot) {
                    Some(announced) => {
                        lemma_only_a_join_seats(room, ServerEvent::CoupEvent(announced), None);
                    },
                    None => {},
                }
            },
            ClientEvent::Unknown => {},
        }
    }
}

/// The seats once `id` has taken seat `slot` with the channel `tx`, to
/// which nothing was handed.
pub open spec fn seated(
    connections: [Option<Connection>; MAX_PLAYERS],
    slot: usize,
    id: PlayerIdentity,
    tx: Channel,
) -> [Option<Connection>; MAX_PLAYERS] {
    spec_array_update(
        connections,
        slot as int,
        Some(Connection { id, sender: Some(tx), handed: Ghost(Seq::empty()) }),
    )
}

/// The seats once seat `slot` has lost its channel.
pub open spec fn cut_off(
    connections: [Option<Connection>; MAX_PLAYERS],
    slot: usize,
) -> [Option<Connection>; MAX_PLAYERS] {
    match connections[slot as int] {
        Some(connection) => spec_array_update(
            connections,
            slot as int,
            Some(Connection { sender: None, ..connection }),
        ),
        None => connections,
    }
}

/// The seats once seat `slot` was given up. A seat in which a player sits
/// is not given up, and a number that is no seat changes nothing.
pub open spec fn released(room: ServerRoom, slot: usize) -> [Option<Connection>; MAX_PLAYERS] {
    if slot < MAX_PLAYERS && room.room.players[slot as int] is None {
        spec_array_update(room.connections, slot as int, None)
    } else {
        room.connections
    }
}

/// Everyone is told the host's seat if it is no longer `previous`.
pub open spec fn told_of_host(previous: u8, room: Room) -> spec_fn(int) -> Seq<ServerEvent> {
    if room.host != previous {
        to_all(ServerEvent::CommonEvent(CommonServerEvent::HostChanged { player_index: room.host }))
    } else {
        to_nobody()
    }
}

/// What is sent when `id` comes back to seat `slot` of a room that is then
/// `room`: the others are told of the return, and the one who returned is
/// sent the room.
pub open spec fn told_of_return(slot: usize, room: Room) -> spec_fn(int) -> Seq<ServerEvent> {
    one_after_another(
        to_all_except(
            ServerEvent::CommonEvent(
                CommonServerEvent::PlayerReconnected { player_index: slot as u8 },
            ),
            slot,
        ),
        to_one(
            ServerEvent::CommonEvent(
                CommonServerEvent::RoomJoined { new_room: room, current_player: slot as u8 },
            ),
            slot,
        ),
    )
}

/// What is sent when the connection in seat `slot` is gone and the room is
/// then `room`: everyone is told that the player is away, and then of the
/// new host if there is one.
pub open spec fn told_of_departure(slot: usize, previous_host: u8, room: Room) -> spec_fn(
    int,
) -> Seq<ServerEvent> {
    one_after_another(
        to_all(
            ServerEvent::CommonEvent(
                CommonServerEvent::PlayerDisconnected { player_index: slot as u8 },
            ),
        ),
        told_of_host(previous_host, room),
    )
}

/// What `handle_connection` makes of `before` when `id` arrives with the
/// channel `tx`.
///
/// Where no seat can be given, nothing changes. Else the seat takes the
/// identity and the channel. If a named player sits there, the player is
/// marked as connected, the others are told of the return, and the one who
/// returned is sent the room. If nobody is named there, the room is left
/// as it is and nothing is sent.
pub open spec fn admitted(
    before: ServerRoom,
    id: PlayerIdentity,
    tx: Channel,
    after: ServerRoom,
    admission: Admission,
) -> bool {
    match assigned_seat(before.connections, id) {
        None => admission == Admission::Rejected && after == before,
        Some(slot) => if before.room.players[slot as int] is Some {
            &&& admission == Admission::Reconnected(slot)
            &&& after.room == room_after_server_event(
                before.room,
                ServerEvent::CommonEvent(
                    CommonServerEvent::PlayerReconnected { player_index: slot as u8 },
                ),
                None,
                true,
            )
            &&& seats_served(
                seated(before.connections, slot, id, tx),
                after.connections,
                told_of_return(slot, after.room),
            )
        } else {
            &&& admission == Admission::AwaitingName(slot)
            &&& after.room == before.room
            &&& after.connections == seated(before.connections, slot, id, tx)
        },
    }
}

/// What is sent when the valid event `event` of the client in seat `slot`
/// is carried out and the room is then `room`: what the event asks for,
/// and then the new host if there is one.
pub open spec fn told_of_processing(
    before: ServerRoom,
    event: ClientEvent,
    slot: usize,
    room: Room,
) -> spec_fn(int) -> Seq<ServerEvent> {
    one_after_another(
        told_of_client_event(before.connections, before.room, event, slot),
        told_of_host(before.room.host, room),
    )
}

/// What `process_client_event` makes of `before` when the client in seat
/// `slot` sends `event`.
///
/// An event that is not legal, and any event that comes from no seat or
/// from a seat that nobody holds, changes nothing and nothing is sent. A
/// legal one is carried out. A player who leaves gives up the seat as
/// well.
pub open spec fn processed(
    before: ServerRoom,
    event: ClientEvent,
    slot: usize,
    after: ServerRoom,
    outcome: Outcome,
) -> bool {
    if slot < MAX_PLAYERS && before.connections[slot as int] is Some && valid_client_event(
        before.room,
        event,
        slot,
    ) {
        let told = told_of_processing(before, event, slot, after.room);
        &&& after.room == room_after_client_event(before.connections, before.room, event, slot)
        &&& event == ClientEvent::CommonEvent(CommonClientEvent::LeaveRoom) ==> {
            &&& outcome == Outcome::Ended
            &&& after.connections[slot as int] is None
            &&& forall|seat: int|
                0 <= seat < MAX_PLAYERS && seat != slot ==> served(
                    before.connections[seat],
                    #[trigger] after.connections[seat],
                    told(seat),
                )
        }
        &&& event != ClientEvent::CommonEvent(CommonClientEvent::LeaveRoom) ==> {
            &&& outcome == if event == ClientEvent::CommonEvent(CommonClientEvent::Disconnect) {
                Outcome::Ended
            } else {
                Outcome::Applied
            }
            &&& seats_served(before.connections, after.connections, told)
        }
    } else {
        outcome == Outcome::Dropped && after == before
    }
}

/// What `handle_disconnection` makes of `before` when the connection in
/// seat `slot` is gone.
///
/// The seat keeps its identity and its player and loses its channel;
/// everyone is told that the player is away, and then of the new host if
/// there is one. A seat that nobody holds, and a number that is no seat,
/// change nothing.
pub open spec fn disconnected_from(before: ServerRoom, slot: usize, after: ServerRoom) -> bool {
    if slot < MAX_PLAYERS && before.connections[slot as int] is Some {
        &&& after.room == room_after_server_event(
            before.room,
            ServerEvent::CommonEvent(
                CommonServerEvent::PlayerDisconnected { player_index: slot as u8 },
            ),
            None,
            true,
        )
        &&& seats_served(
            cut_off(before.connections, slot),
            after.connections,
            told_of_departure(slot, before.room.host, after.room),
        )
    } else {
        after == before
    }
}

impl ServerRoom {
    /// No identity holds two seats, and every player's seat is held.
    pub open spec fn wf(&self) -> bool {
        &&& distinct_identities(self.connections)
        &&& players_held(self.connections, self.room)
    }

    /// A room nobody has connected to.
    pub open spec fn is_initial(&self) -> bool {
        &&& self.room == Room::initial()
        &&& forall|seat: int| 0 <= seat < MAX_PLAYERS ==> #[trigger] self.connections[seat] is None
    }

    /// A room with no connection and no player.
    pub fn new() -> (room: ServerRoom)
        ensures
            room.is_initial(),
            room.wf(),
    {
        ServerRoom {
            connections: [None, None, None, None, None, None, None, None],
            room: Room::default(),
        }
    }

    /// Gives `id` a seat and puts the channel `tx` there: the seat that `id`
    /// holds already, or else the lowest free one. Returns the seat, or
    /// `None` and changes nothing where every seat is held by someone else.
    pub fn add_connection(&mut self, tx: Channel, id: PlayerIdentity) -> (slot: Option<usize>)
        ensures
            slot == assigned_seat(old(self).connections, id),
            final(self).room == old(self).room,
            final(self).connections == (match slot {
                Some(seat) => seated(old(self).connections, seat, id, tx),
                None => old(self).connections,
            }),
            slot matches Some(seat) ==> seat < MAX_PLAYERS,
            old(self).wf() ==> final(self).wf(),
    {
        let mut free: Option<usize> = None;
        let mut index: usize = 0;
        proof {
            lemma_seat_of(self.connections, id, 0);
            lemma_first_free(self.connections, 0);
        }
        while index < MAX_PLAYERS
            invariant
                index <= MAX_PLAYERS,
                *self == *old(self),
                seat_of(self.connections, id, 0) == seat_of(self.connections, id, index as int),
                match free {
                    Some(seat) => first_free(self.connections, 0) == Some(seat),
                    None => first_free(self.connections, 0) == first_free(
                        self.connections,
                        index as int,
                    ),
                },
            decreases MAX_PLAYERS - index,
        {
            let held = match &self.connections[index] {
                Some(connection) => connection.id == id,
                None => {
                    if free.is_none() {
                        free = Some(index);
                    }
                    false
                },
            };
            if held {
                self.connections[index] = Some(Connection::new(id, Some(tx)));
                proof {
                    lemma_seat_of(old(self).connections, id, index as int);
                }
                return Some(index);
            }
            index = index + 1;
        }
        match free {
            Some(seat) => {
                proof {
                    lemma_first_free(old(self).connections, 0);
                    lemma_seat_of(old(self).connections, id, 0);
                }
                self.connections[seat] = Some(Connection::new(id, Some(tx)));
                Some(seat)
            },
            None => None,
        }
    }

    /// Admits a client that connects as `id` with the channel `tx`.
    ///
    /// Where every seat is held by someone else the client is turned away
    /// and nothing changes. A client whose identity has a named player is
    /// back at once: the others are told, and the client is sent the room.
    /// Any other client holds its seat and is awaited to give a name.
    pub fn handle_connection(&mut self, tx: Channel, id: PlayerIdentity) -> (admission: Admission)
        ensures
            admitted(*old(self), id, tx, *final(self), admission),
            old(self).wf() ==> final(self).wf(),
    {
        let slot = match self.add_connection(tx, id) {
            Some(slot) => slot,
            None => {
                return Admission::Rejected;
            },
        };
        if self.room.players[slot].is_some() {
            let ghost taken = self.connections;
            self.connections.send_to_all_except(
                &mut self.room,
                ServerEvent::CommonEvent(
                    CommonServerEvent::PlayerReconnected { player_index: slot as u8 },
                ),
                slot,
            );
            let ghost told = self.connections;
            let snapshot = self.room;
            self.connections.send_to(
                &mut self.room,
                ServerEvent::CommonEvent(
                    CommonServerEvent::RoomJoined {
                        new_room: snapshot,
                        current_player: slot as u8,
                    },
                ),
                slot,
            );
            proof {
                <[Option<Connection>; MAX_PLAYERS] as Networking>::lemma_served(
                    &taken,
                    &told,
                    &self.connections,
                    to_all_except(
                        ServerEvent::CommonEvent(
                            CommonServerEvent::PlayerReconnected { player_index: slot as u8 },
                        ),
                        slot,
                    ),
                    to_one(
                        ServerEvent::CommonEvent(
                            CommonServerEvent::RoomJoined {
                                new_room: snapshot,
                                current_player: slot as u8,
                            },
                        ),
                        slot,
                    ),
                );
                if old(self).wf() {
                    lemma_served_distinct(
                        taken,
                        self.connections,
                        told_of_return(slot, self.room),
                    );
                    lemma_served_keeps_held(
                        taken,
                        self.connections,
                        told_of_return(slot, self.room),
                    );
                }
            }
            Admission::Reconnected(slot)
        } else {
            Admission::AwaitingName(slot)
        }
    }

    /// Frees seat `slot` if no player sits in it: whoever held it holds it
    /// no more. The seat of a player is left to the player.
    pub fn release(&mut self, slot: usize)
        ensures
            final(self).room == old(self).room,
            final(self).connections == released(*old(self), slot),
            old(self).wf() ==> final(self).wf(),
    {
        if slot < MAX_PLAYERS && self.room.players[slot].is_none() {
            self.connections[slot] = None;
        }
    }

    /// Tells everyone the host's seat if it is no longer `previous`.
    fn announce_host(&mut self, previous: u8)
        ensures
            final(self).room == old(self).room,
            seats_served(
                old(self).connections,
                final(self).connections,
                told_of_host(previous, old(self).room),
            ),
    {
        if self.room.host != previous {
            let host = self.room.host;
            self.connections.send_to_all(
                &mut self.room,
                ServerEvent::CommonEvent(CommonServerEvent::HostChanged { player_index: host }),
            );
        } else {
            proof {
                <[Option<Connection>; MAX_PLAYERS] as Networking>::lemma_served(
                    &self.connections,
                    &self.connections,
                    &self.connections,
                    to_nobody(),
                    to_nobody(),
                );
            }
        }
    }

    /// Takes one event from the client in seat `slot` through validation
    /// and, if it is legal, carries it out. Nothing is taken from a seat
    /// that nobody holds. A player who leaves is taken from the seat at
    /// once, so that what follows finds the seat free rather than a player
    /// who is away.
    pub fn process_client_event(&mut self, event: &ClientEvent, slot: usize) -> (outcome: Outcome)
        ensures
            processed(*old(self), *event, slot, *final(self), outcome),
            old(self).wf() ==> final(self).wf(),
    {
        if slot >= MAX_PLAYERS || self.connections[slot].is_none() || !validate_client_event(
            &self.room,
            event,
            slot,
        ) {
            return Outcome::Dropped;
        }
        let host = self.room.host;
        handle_client_event(&mut self.room, event, &mut self.connections, slot);
        let ghost sent = self.connections;
        self.announce_host(host);
        let ghost told = told_of_processing(*old(self), *event, slot, self.room);
        proof {
            <[Option<Connection>; MAX_PLAYERS] as Networking>::lemma_served(
                &old(self).connections,
                &sent,
                &self.connections,
                told_of_client_event(old(self).connections, old(self).room, *event, slot),
                told_of_host(host, self.room),
            );
            if old(self).wf() {
                lemma_served_distinct(old(self).connections, self.connections, told);
                lemma_carried_out_keeps_seats(old(self).room, *event, slot);
                lemma_served_keeps_held(old(self).connections, self.connections, told);
            }
        }
        match event {
            ClientEvent::CommonEvent(CommonClientEvent::LeaveRoom) => {
                self.connections[slot] = None;
                Outcome::Ended
            },
            ClientEvent::CommonEvent(CommonClientEvent::Disconnect) => Outcome::Ended,
            _ => Outcome::Applied,
        }
    }

    /// Takes note that the connection in seat `slot` is gone. The seat
    /// keeps its identity and its player, so that the client can come back
    /// to them; it loses its channel, and everyone is told that the player
    /// is away. A seat that nobody holds is left as it is.
    pub fn handle_disconnection(&mut self, slot: usize)
        ensures
            disconnected_from(*old(self), slot, *final(self)),
            old(self).wf() ==> final(self).wf(),
    {
        let mut held = false;
        if slot < MAX_PLAYERS {
            if let Some(connection) = &mut self.connections[slot] {
                connection.sender = None;
                held = true;
            }
        }
        if held {
            let ghost cut = self.connections;
            let host = self.room.host;
            self.connections.send_to_all(
                &mut self.room,
                ServerEvent::CommonEvent(
                    CommonServerEvent::PlayerDisconnected { player_index: slot as u8 },
                ),
            );
            let ghost told = self.connections;
            self.announce_host(host);
            proof {
                <[Option<Connection>; MAX_PLAYERS] as Networking>::lemma_served(
                    &cut,
                    &told,
                    &self.connections,
                    to_all(
                        ServerEvent::CommonEvent(
                            CommonServerEvent::PlayerDisconnected { player_index: slot as u8 },
                        ),
                    ),
                    told_of_host(host, self.room),
                );
                if old(self).wf() {
                    lemma_cut_off_distinct(old(self).connections, slot);
                    lemma_served_distinct(
                        cut,
                        self.connections,
                        told_of_departure(slot, host, self.room),
                    );
                    lemma_served_keeps_held(
                        cut,
                        self.connections,
                        told_of_departure(slot, host, self.room),
                    );
                }
            }
        } else {
            assert(self.connections =~= old(self).connections);
        }
    }
}

/// Losing a channel leaves identities distinct.
pub proof fn lemma_cut_off_distinct(connections: [Option<Connection>; MAX_PLAYERS], slot: usize)
    requires
        distinct_identities(connections),
        slot < MAX_PLAYERS,
    ensures
        distinct_identities(cut_off(connections, slot)),
{
    let cut = cut_off(connections, slot);
    assert forall|first: int, second: int|
        0 <= first < MAX_PLAYERS && 0 <= second < MAX_PLAYERS && first != second implies match (
            #[trigger] cut[first],
            #[trigger] cut[second],
        ) {
            (Some(one), Some(other)) => one.id != other.id,
            _ => true,
        } by {
        let _ = (connections[first], connections[second]);
    }
}

/// Whether nobody is connected to the room: every seat is empty or has
/// lost its channel.
pub fn is_room_empty(room: &ServerRoom) -> (empty: bool)
    ensures
        empty == room_empty(room.connections),
{
    let mut index: usize = 0;
    while index < MAX_PLAYERS
        invariant
            index <= MAX_PLAYERS,
            forall|seat: int|
                0 <= seat < index ==> match #[trigger] room.connections[seat] {
                    Some(connection) => connection.sender is None,
                    None => true,
                },
        decreases MAX_PLAYERS - index,
    {
        if let Some(connection) = &room.connections[index] {
            if connection.sender.is_some() {
                return false;
            }
        }
        index = index + 1;
    }
    true
}

/// A client that goes away and comes back is given its seat again, and
/// finds its player as it was, marked as connected. The others are told
/// of the return and of nothing else, and the one who returned is sent the
/// room.
pub proof fn lemma_reconnection_keeps_player(
    start: ServerRoom,
    slot: usize,
    away: ServerRoom,
    id: PlayerIdentity,
    tx: Channel,
    back: ServerRoom,
    admission: Admission,
)
    requires
        start.wf(),
        slot < MAX_PLAYERS,
        start.connections[slot as int] matches Some(connection) && connection.id == id,
        start.room.players[slot as int] is Some,
        disconnected_from(start, slot, away),
        admitted(away, id, tx, back, admission),
    ensures
        away.room.players[slot as int] == Some(
            Player { disconnected: true, ..start.room.players[slot as int].unwrap() },
        ),
        admission == Admission::Reconnected(slot),
        back.connections[slot as int] matches Some(connection) && connection.id == id,
        back.room.players[slot as int] == Some(
            Player { disconnected: false, ..start.room.players[slot as int].unwrap() },
        ),
        back.wf(),
        forall|seat: int|
            0 <= seat < MAX_PLAYERS && seat != slot ==> served(
                away.connections[seat],
                #[trigger] back.connections[seat],
                seq![
                    ServerEvent::CommonEvent(
                        CommonServerEvent::PlayerReconnected { player_index: slot as u8 },
                    ),
                ],
            ),
        served(
            Some(Connection { id, sender: Some(tx), handed: Ghost(Seq::empty()) }),
            back.connections[slot as int],
            seq![
                ServerEvent::CommonEvent(
                    CommonServerEvent::RoomJoined {
                        new_room: back.room,
                        current_player: slot as u8,
                    },
                ),
            ],
        ),
{
    let cut = cut_off(start.connections, slot);
    lemma_cut_off_distinct(start.connections, slot);
    let farewell = told_of_departure(slot, start.room.host, away.room);
    lemma_served_distinct(cut, away.connections, farewell);
    lemma_seat_of_holder(away.connections, id, slot);
    let taken = seated(away.connections, slot, id, tx);
    assert(distinct_identities(taken)) by {
        assert forall|first: int, second: int|
            0 <= first < MAX_PLAYERS && 0 <= second < MAX_PLAYERS && first != second implies match (
                #[trigger] taken[first],
                #[trigger] taken[second],
            ) {
                (Some(one), Some(other)) => one.id != other.id,
                _ => true,
            } by {
            let _ = (away.connections[first], away.connections[second]);
        }
    }
    lemma_served_distinct(taken, back.connections, told_of_return(slot, back.room));
}

/// When a seat joins, every other seat is told of the join once and of
/// nothing else, the one who joined is sent the room and nothing else, and
/// the room in which the player is seated is the room that is sent.
pub proof fn lemma_join_is_told_once(
    before: ServerRoom,
    name: [u8; MAX_NAME_LENGTH],
    slot: usize,
    after: ServerRoom,
    outcome: Outcome,
)
    requires
        slot < MAX_PLAYERS,
        before.connections[slot as int] is Some,
        before.room.players[slot as int] is None,
        processed(
            before,
            ClientEvent::CommonEvent(CommonClientEvent::JoinRoom { name }),
            slot,
            after,
            outcome,
        ),
    ensures
        outcome == Outcome::Applied,
        after.room.players[slot as int] == Some(Player::named(name)),
        after.room.host == before.room.host,
        served(
            before.connections[slot as int],
            after.connections[slot as int],
            seq![
                ServerEvent::CommonEvent(
                    CommonServerEvent::RoomJoined {
                        new_room: after.room,
                        current_player: slot as u8,
                    },
                ),
            ],
        ),
        forall|seat: int|
            0 <= seat < MAX_PLAYERS && seat != slot ==> served(
                before.connections[seat],
                #[trigger] after.connections[seat],
                seq![
                    ServerEvent::CommonEvent(
                        CommonServerEvent::PlayerJoined { name, player_index: slot as u8 },
                    ),
                ],
            ),
{
}

} // verus!
