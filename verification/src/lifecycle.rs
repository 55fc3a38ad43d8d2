//! The course of one connection: admitted, perhaps awaited to give a name,
//! joined, and gone.
//!
//! Whoever owns the connection waits for what the client sends next, or for
//! the wait to run out, or for the stream to close, and hands that in as a
//! [`Signal`]; the functions here decide what it does to the room and where
//! the connection stands afterwards.

use crate::connection::PlayerIdentity;
use crate::server::{disconnected_from, processed, released, Admission, Outcome, ServerRoom};
use crate::types::{ClientEvent, CommonClientEvent, MAX_PLAYERS};
use vstd::prelude::*;

verus! {

/// Where a connection stands. A connection that has a seat remembers the
/// identity it was given the seat as.
#[derive(Clone, Copy, Debug, PartialEq, Eq)]
pub enum ConnectionState {
    /// Not admitted to a room.
    Connecting,
    /// Holds seat `slot` and is awaited to give a name.
    AwaitingName { slot: usize, id: PlayerIdentity },
    /// Plays in seat `slot`.
    Joined { slot: usize, id: PlayerIdentity },
    /// Gone, or never admitted. Nothing follows.
    Disconnected,
}

/// What happened on a connection.
#[derive(Clone, Copy, Debug, PartialEq, Eq)]
pub enum Signal {
    /// The client sent this.
    Event(ClientEvent),
    /// The wait for a name ran out.
    TimedOut,
    /// The stream ended.
    Closed,
}

/// Where a connection of `id` stands once it was admitted or turned away.
pub open spec fn state_after_admission(
    admission: Admission,
    id: PlayerIdentity,
) -> ConnectionState {
    match admission {
        Admission::Rejected => ConnectionState::Disconnected,
        Admission::Reconnected(slot) => ConnectionState::Joined { slot, id },
        Admission::AwaitingName(slot) => ConnectionState::AwaitingName { slot, id },
    }
}

/// The seat that a connection in `state` was given, if it was given one.
pub open spec fn seat_held(state: ConnectionState) -> Option<usize> {
    match state {
        ConnectionState::AwaitingName { slot, .. } if slot < MAX_PLAYERS => Some(slot),
        ConnectionState::Joined { slot, .. } if slot < MAX_PLAYERS => Some(slot),
        _ => None,
    }
}

/// The connection in `state` still holds its seat of `room`: the seat is
/// held, and by the identity that the connection was given it as.
pub open spec fn still_held(room: ServerRoom, state: ConnectionState) -> bool {
    match state {
        ConnectionState::AwaitingName { slot, id } | ConnectionState::Joined { slot, id } => {
            &&& slot < MAX_PLAYERS
            &&& room.connections[slot as int] matches Some(connection) && connection.id == id
        },
        _ => false,
    }
}

/// The client asks to join.
pub open spec fn is_join(event: ClientEvent) -> bool {
    event matches ClientEvent::CommonEvent(CommonClientEvent::JoinRoom { .. })
}

/// What `signal` makes of room `before` and of a connection that stands in
/// `state`. A connection that was given no seat is left where it stands,
/// and so is the room. A connection whose seat is no longer held by its
/// identity is gone, and the room is left as it is.
///
/// While a name is awaited, only a request to join counts: a legal one
/// seats the player, and the connection has joined. If the wait runs out or
/// the stream closes first, the seat is given up, unless a player has
/// come to sit in it.
///
/// Once joined, every event goes through validation. An event that ends
/// the connection, and the close of the stream, lead to the same farewell:
/// a seat that is still held loses its channel, and everyone is told that
/// its player is away.
pub open spec fn stepped(
    before: ServerRoom,
    state: ConnectionState,
    signal: Signal,
    after: ServerRoom,
    next: ConnectionState,
) -> bool {
    match (state, signal) {
        _ if seat_held(state) is None => after == before && next == state,
        _ if !still_held(before, state) => after == before && next
            == ConnectionState::Disconnected,
        (ConnectionState::AwaitingName { slot, id }, Signal::Event(event)) => if is_join(event) {
            exists|outcome: Outcome|
                {
                    &&& #[trigger] processed(before, event, slot, after, outcome)
                    &&& next == if outcome == Outcome::Dropped {
                        state
                    } else {
                        ConnectionState::Joined { slot, id }
                    }
                }
        } else {
            after == before && next == state
        },
        (ConnectionState::AwaitingName { slot, .. }, _) => {
            &&& after.room == before.room
            &&& after.connections == released(before, slot)
            &&& next == ConnectionState::Disconnected
        },
        (ConnectionState::Joined { slot, .. }, Signal::Event(event)) => exists|
            between: ServerRoom,
            outcome: Outcome,
        |
            {
                &&& #[trigger] processed(before, event, slot, between, outcome)
                &&& if outcome == Outcome::Ended {
                    disconnected_from(between, slot, after) && next == ConnectionState::Disconnected
                } else {
                    after == between && next == state
                }
            },
        (ConnectionState::Joined { .. }, Signal::TimedOut) => after == before && next == state,
        (ConnectionState::Joined { slot, .. }, Signal::Closed) => disconnected_from(
            before,
            slot,
            after,
        ) && next == ConnectionState::Disconnected,
        _ => after == before && next == state,
    }
}

impl ConnectionState {
    /// The seat that the connection was given, if it was given one.
    pub fn seat(&self) -> (seat: Option<usize>)
        ensures
            seat == seat_held(*self),
    {
        match self {
            ConnectionState::AwaitingName { slot, .. } => if *slot < MAX_PLAYERS {
                Some(*slot)
            } else {
                None
            },
            ConnectionState::Joined { slot, .. } => if *slot < MAX_PLAYERS {
                Some(*slot)
            } else {
                None
            },
            _ => None,
        }
    }

    /// Where a connection of `id` stands once it was admitted or turned
    /// away.
    pub fn after_admission(admission: Admission, id: PlayerIdentity) -> (state: ConnectionState)
        ensures
            state == state_after_admission(admission, id),
    {
        match admission {
            Admission::Rejected => ConnectionState::Disconnected,
            Admission::Reconnected(slot) => ConnectionState::Joined { slot, id },
            Admission::AwaitingName(slot) => ConnectionState::AwaitingName { slot, id },
        }
    }
}

impl ServerRoom {
    /// Whether the connection in `state` still holds its seat of this
    /// room.
    pub fn holds_seat(&self, state: ConnectionState) -> (held: bool)
        ensures
            held == still_held(*self, state),
    {
        match state {
            ConnectionState::AwaitingName { slot, id } | ConnectionState::Joined { slot, id } => {
                if slot < MAX_PLAYERS {
                    match &self.connections[slot] {
                        Some(connection) => connection.id == id,
                        None => false,
                    }
                } else {
                    false
                }
            },
            _ => false,
        }
    }

    /// Takes `signal` for a connection that stands in `state`, and returns
    /// where the connection stands then.
    pub fn advance(&mut self, state: ConnectionState, signal: &Signal) -> (next: ConnectionState)
        ensures
            stepped(*old(self), state, *signal, *final(self), next),
            old(self).wf() ==> final(self).wf(),
    {
        if state.seat().is_none() {
            return state;
        }
        if !self.holds_seat(state) {
            return ConnectionState::Disconnected;
        }
        match state {
            ConnectionState::AwaitingName { slot, id } => {
                match signal {
                    Signal::Event(event) => {
                        match event {
                            ClientEvent::CommonEvent(CommonClientEvent::JoinRoom { .. }) => {
                                let outcome = self.process_client_event(event, slot);
                                match outcome {
                                    Outcome::Dropped => state,
                                    _ => ConnectionState::Joined { slot, id },
                                }
                            },
                            _ => state,
                        }
                    },
                    _ => {
                        self.release(slot);
                        ConnectionState::Disconnected
                    },
                }
            },
            ConnectionState::Joined { slot, .. } => {
                match signal {
                    Signal::Event(event) => {
                        let outcome = self.process_client_event(event, slot);
                        let ghost between = *self;
                        assert(processed(*old(self), *event, slot, between, outcome));
                        match outcome {
                            Outcome::Ended => {
                                self.handle_disconnection(slot);
                                ConnectionState::Disconnected
                            },
                            _ => state,
                        }
                    },
                    Signal::TimedOut => state,
                    Signal::Closed => {
                        self.handle_disconnection(slot);
                        ConnectionState::Disconnected
                    },
                }
            },
            _ => state,
        }
    }
}

} // verus!
