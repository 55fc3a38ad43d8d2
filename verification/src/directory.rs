//! The rooms of a server, by code.
//!
//! A room is made when the first client asks for its code and is dropped as
//! soon as nobody is connected to it. Every operation here is meant to run
//! under one lock, so that nobody sees a room half made or half gone.

use crate::connection::{Channel, PlayerIdentity};
use crate::lifecycle::{seat_held, state_after_admission, stepped, ConnectionState, Signal};
use crate::server::{admitted, is_room_empty, room_empty, Admission, ServerRoom};
use std::collections::HashMap;
use vstd::prelude::*;
use vstd::string::StringSliceAdditionalSpecFns;

verus! {

/// Bytes in a room code.
pub const ROOM_CODE_LENGTH: usize = 6;

/// The name of a room: six bytes that clients agree on among themselves.
#[derive(Clone, Copy, Debug, PartialEq, Eq)]
pub struct RoomCode {
    pub bytes: [u8; ROOM_CODE_LENGTH],
}

/// The rooms that are open, each under the key of its code.
pub struct Directory {
    pub rooms: HashMap<u64, ServerRoom>,
}

/// The number that the bytes of a code spell, the first byte lowest.
pub open spec fn key_of(bytes: [u8; ROOM_CODE_LENGTH]) -> u64 {
    (bytes[0] as int + 0x100 * bytes[1] as int + 0x1_0000 * bytes[2] as int + 0x100_0000
        * bytes[3] as int + 0x1_0000_0000 * bytes[4] as int + 0x100_0000_0000
        * bytes[5] as int) as u64
}

/// A number below 256 and a multiple of 256 add up in one way only.
proof fn lemma_low_byte(low: int, high: int, other_low: int, other_high: int)
    requires
        0 <= low < 0x100,
        0 <= other_low < 0x100,
        low + 0x100 * high == other_low + 0x100 * other_high,
    ensures
        low == other_low,
        high == other_high,
{
}

/// Different codes have different keys.
pub proof fn lemma_key_of_injective(first: RoomCode, second: RoomCode)
    requires
        key_of(first.bytes) == key_of(second.bytes),
    ensures
        first == second,
{
    let a = first.bytes;
    let b = second.bytes;
    let a4 = a[4] as int + 0x100 * a[5] as int;
    let a3 = a[3] as int + 0x100 * a4;
    let a2 = a[2] as int + 0x100 * a3;
    let a1 = a[1] as int + 0x100 * a2;
    let b4 = b[4] as int + 0x100 * b[5] as int;
    let b3 = b[3] as int + 0x100 * b4;
    let b2 = b[2] as int + 0x100 * b3;
    let b1 = b[1] as int + 0x100 * b2;
    assert(key_of(a) == a[0] as int + 0x100 * a1);
    assert(key_of(b) == b[0] as int + 0x100 * b1);
    lemma_low_byte(a[0] as int, a1, b[0] as int, b1);
    lemma_low_byte(a[1] as int, a2, b[1] as int, b2);
    lemma_low_byte(a[2] as int, a3, b[2] as int, b3);
    lemma_low_byte(a[3] as int, a4, b[3] as int, b4);
    lemma_low_byte(a[4] as int, a[5] as int, b[4] as int, b[5] as int);
    assert(a =~= b);
}

/// `room` is what stands under `key`: the room that is open there, or a
/// new one.
pub open spec fn opened(rooms: Map<u64, ServerRoom>, key: u64, room: ServerRoom) -> bool {
    if rooms.contains_key(key) {
        room == rooms[key]
    } else {
        room.is_initial()
    }
}

/// `rooms` once `room` was handed back for `key`: kept while somebody is
/// connected to it, dropped otherwise.
pub open spec fn closed(rooms: Map<u64, ServerRoom>, key: u64, room: ServerRoom) -> Map<
    u64,
    ServerRoom,
> {
    if room_empty(room.connections) {
        rooms.remove(key)
    } else {
        rooms.insert(key, room)
    }
}

/// Every open room has somebody connected and is well formed.
pub open spec fn rooms_wf(rooms: Map<u64, ServerRoom>) -> bool {
    forall|key: u64| #[trigger]
        rooms.contains_key(key) ==> rooms[key].wf() && !room_empty(rooms[key].connections)
}

/// A room that is handed back stays open if and only if somebody is
/// connected to it, no other room is touched, and the rooms stay well
/// formed.
pub proof fn lemma_closed(rooms: Map<u64, ServerRoom>, key: u64, room: ServerRoom)
    ensures
        closed(rooms, key, room).contains_key(key) <==> !room_empty(room.connections),
        closed(rooms, key, room).contains_key(key) ==> closed(rooms, key, room)[key] == room,
        forall|other: u64|
            other != key ==> (#[trigger] closed(rooms, key, room).contains_key(other)
                <==> rooms.contains_key(other)),
        forall|other: u64|
            other != key && rooms.contains_key(other) ==> #[trigger] closed(rooms, key, room)[other]
                == rooms[other],
        rooms_wf(rooms) && room.wf() ==> rooms_wf(closed(rooms, key, room)),
{
}

impl RoomCode {
    /// Reads a room code. A code is any text of six bytes.
    pub fn parse(code: &str) -> (parsed: Option<RoomCode>)
        ensures
            parsed is Some <==> code.spec_bytes().len() == ROOM_CODE_LENGTH,
            parsed matches Some(room_code) ==> room_code.bytes@ == code.spec_bytes(),
    {
        let bytes = code.as_bytes();
        if bytes.len() != ROOM_CODE_LENGTH {
            return None;
        }
        let room_code = RoomCode {
            bytes: [bytes[0], bytes[1], bytes[2], bytes[3], bytes[4], bytes[5]],
        };
        Some(room_code)
    }

    /// The key under which the directory holds the room of this code.
    pub fn key(&self) -> (key: u64)
        ensures
            key == key_of(self.bytes),
    {
        self.bytes[0] as u64 + 0x100 * self.bytes[1] as u64 + 0x1_0000 * self.bytes[2] as u64
            + 0x100_0000 * self.bytes[3] as u64 + 0x1_0000_0000 * self.bytes[4] as u64
            + 0x100_0000_0000 * self.bytes[5] as u64
    }
}

impl Directory {
    /// Every open room has somebody connected and is well formed.
    pub open spec fn wf(&self) -> bool {
        rooms_wf(self.rooms@)
    }

    /// A directory with no room.
    pub fn new() -> (directory: Directory)
        ensures
            directory.rooms@ == Map::<u64, ServerRoom>::empty(),
            directory.wf(),
    {
        Directory { rooms: HashMap::new() }
    }

    /// Whether a room is open under `code`.
    pub fn contains(&self, code: &RoomCode) -> (open: bool)
        ensures
            open == self.rooms@.contains_key(key_of(code.bytes)),
    {
        let key = code.key();
        self.rooms.contains_key(&key)
    }

    /// Makes sure that a room stands under `code`, and returns it: the one
    /// that is open there stays, and where there is none a new one is
    /// opened.
    pub fn get_or_create(&mut self, code: &RoomCode) -> (room: &ServerRoom)
        ensures
            final(self).rooms@.contains_key(key_of(code.bytes)),
            *room == final(self).rooms@[key_of(code.bytes)],
            opened(old(self).rooms@, key_of(code.bytes), *room),
            final(self).rooms@ == old(self).rooms@.insert(key_of(code.bytes), *room),
    {
        let key = code.key();
        if !self.rooms.contains_key(&key) {
            self.rooms.insert(key, ServerRoom::new());
        }
        self.rooms.get(&key).unwrap()
    }

    /// Drops the room under `code` if nobody is connected to it.
    pub fn remove_if_empty(&mut self, code: &RoomCode)
        ensures
            final(self).rooms@ == (if old(self).rooms@.contains_key(key_of(code.bytes))
                && room_empty(old(self).rooms@[key_of(code.bytes)].connections) {
                old(self).rooms@.remove(key_of(code.bytes))
            } else {
                old(self).rooms@
            }),
    {
        let key = code.key();
        let empty = match self.rooms.get(&key) {
            Some(room) => is_room_empty(room),
            None => false,
        };
        if empty {
            self.rooms.remove(&key);
        }
    }

    /// Takes the room under `key` out of the directory.
    fn take(&mut self, key: u64) -> (room: ServerRoom)
        requires
            old(self).rooms@.contains_key(key),
        ensures
            room == old(self).rooms@[key],
            final(self).rooms@ == old(self).rooms@.remove(key),
    {
        self.rooms.remove(&key).unwrap()
    }

    /// Admits a client that asks for the room `code` as `id`, with the
    /// channel `tx`. The room is opened if need be. A room that is left
    /// with nobody connected is dropped again.
    pub fn connect(&mut self, code: &RoomCode, id: PlayerIdentity, tx: Channel) -> (state:
        ConnectionState)
        ensures
            exists|start: ServerRoom, end: ServerRoom, admission: Admission|
                {
                    &&& opened(old(self).rooms@, key_of(code.bytes), start)
                    &&& #[trigger] admitted(start, id, tx, end, admission)
                    &&& final(self).rooms@ == closed(old(self).rooms@, key_of(code.bytes), end)
                    &&& state == state_after_admission(admission, id)
                },
            old(self).wf() ==> final(self).wf(),
    {
        let key = code.key();
        self.get_or_create(code);
        let mut room = self.take(key);
        let ghost start = room;
        let admission = room.handle_connection(tx, id);
        let ghost end = room;
        self.rooms.insert(key, room);
        self.remove_if_empty(code);
        assert(admitted(start, id, tx, end, admission));
        ConnectionState::after_admission(admission, id)
    }

    /// Takes `signal` for a connection to the room `code` that stands in
    /// `state`, and returns where the connection stands then. A connection
    /// whose room is gone is gone itself. A room that is left with nobody
    /// connected is dropped.
    pub fn advance(&mut self, code: &RoomCode, state: ConnectionState, signal: &Signal) -> (next:
        ConnectionState)
        ensures
            match seat_held(state) {
                Some(slot) => if old(self).rooms@.contains_key(key_of(code.bytes)) {
                    exists|end: ServerRoom|
                        {
                            &&& #[trigger] stepped(
                                old(self).rooms@[key_of(code.bytes)],
                                state,
                                *signal,
                                end,
                                next,
                            )
                            &&& final(self).rooms@ == closed(
                                old(self).rooms@,
                                key_of(code.bytes),
                                end,
                            )
                        }
                } else {
                    next == ConnectionState::Disconnected && final(self).rooms@ == old(self).rooms@
                },
                None => next == state && final(self).rooms@ == old(self).rooms@,
            },
            old(self).wf() ==> final(self).wf(),
    {
        if state.seat().is_none() {
            return state;
        }
        let key = code.key();
        if !self.rooms.contains_key(&key) {
            return ConnectionState::Disconnected;
        }
        let mut room = self.take(key);
        let next = room.advance(state, signal);
        let ghost end = room;
        self.rooms.insert(key, room);
        self.remove_if_empty(code);
        assert(stepped(old(self).rooms@[key], state, *signal, end, next));
        next
    }
}

} // verus!
