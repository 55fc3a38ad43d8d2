//! A client's copy of the room.
//!
//! The copy changes in two ways only: by replaying what the server sent,
//! and by replaying ahead of the server what the client's own legal event
//! will make the server say.

use crate::connection::Connection;
use crate::logic::{
    event_in_range, handle_client_event, handle_server_event, room_after_client_event,
    room_after_server_event, same_but_own_seat, valid_client_event, validate_client_event,
};
use crate::types::{
    ClientConnection, ClientEvent, CommonClientEvent, CommonServerEvent, Room, ServerEvent,
    MAX_PLAYERS,
};
use vstd::prelude::*;

verus! {

/// The server has sent the whole room.
pub open spec fn is_room_joined(event: ServerEvent) -> bool {
    event matches ServerEvent::CommonEvent(CommonServerEvent::RoomJoined { .. })
}

/// Whether the owner of the copy is the host.
pub fn is_own_host(room: &Room) -> (host: bool)
    ensures
        host == (room.host == room.player_index),
{
    room.host == room.player_index
}

/// Replays on the client's copy what the server sent, as the player whose
/// seat the copy names. Returns whether the event was the whole room, which
/// tells the client that it is in.
pub fn receive_server_event(room: &mut Room, event: &ServerEvent) -> (joined: bool)
    requires
        event_in_range(*event),
    ensures
        *final(room) == room_after_server_event(
            *old(room),
            *event,
            Some(old(room).player_index as usize),
            false,
        ),
        joined == is_room_joined(*event),
{
    let player_index = room.player_index as usize;
    handle_server_event(room, event, Some(player_index), false);
    match event {
        ServerEvent::CommonEvent(CommonServerEvent::RoomJoined { .. }) => true,
        _ => false,
    }
}

/// Decides whether the client may send `event`, and if so replays at once
/// what the event will make the server announce. Returns whether to send:
/// an event that is not legal is not sent and changes nothing.
pub fn send_event(room: &mut Room, event: &ClientEvent) -> (send: bool)
    requires
        (old(room).player_index as int) < MAX_PLAYERS,
    ensures
        send == valid_client_event(*old(room), *event, old(room).player_index as usize),
        *final(room) == (if send {
            room_after_client_event(
                ClientConnection,
                *old(room),
                *event,
                old(room).player_index as usize,
            )
        } else {
            *old(room)
        }),
{
    let player_index = room.player_index as usize;
    if validate_client_event(room, event, player_index) {
        let mut connection = ClientConnection;
        handle_client_event(room, event, &mut connection, player_index);
        true
    } else {
        false
    }
}

/// What a client foresees is what the server does: if the client's copy
/// is the server's room but for the owner's seat, then replaying a legal
/// event ahead leaves the copy as carrying the event out leaves the
/// server's room. The one event of which a client foresees nothing is its
/// own join, which the server answers with the whole room.
pub proof fn lemma_foreseen_is_done(
    seats: [Option<Connection>; MAX_PLAYERS],
    server: Room,
    copy: Room,
    event: ClientEvent,
    player_index: usize,
)
    requires
        same_but_own_seat(server, copy),
        player_index < MAX_PLAYERS,
        !(event matches ClientEvent::CommonEvent(CommonClientEvent::JoinRoom { .. })),
    ensures
        valid_client_event(server, event, player_index) == valid_client_event(
            copy,
            event,
            player_index,
        ),
        same_but_own_seat(
            room_after_client_event(seats, server, event, player_index),
            room_after_client_event(ClientConnection, copy, event, player_index),
        ),
        room_after_client_event(ClientConnection, copy, event, player_index).player_index
            == copy.player_index,
{
}

} // verus!
