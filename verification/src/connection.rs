//! The server's end of one client's connection, and the seats of a room.

use crate::logic::{handle_server_event, room_after_server_event};
use crate::traits::{
    one_after_another, to_all_except, to_nobody, Networking, NetworkingSend,
};
use crate::types::{Room, ServerEvent, MAX_PLAYERS};
use tokio::sync::mpsc::UnboundedSender;
use vstd::prelude::*;

verus! {

/// The sending half of tokio's unbounded channel. Nothing is known of what
/// is inside one.
#[verifier::external_type_specification]
#[verifier::external_body]
#[verifier::reject_recursive_types(T)]
pub struct ExUnboundedSender<T>(UnboundedSender<T>);

/// The channel on which a client is sent server events.
pub type Channel = UnboundedSender<ServerEvent>;

/// The lasting name of a client, by which it is known again when it comes
/// back: the 128 bits of the UUID that it presents.
pub type PlayerIdentity = u128;

/// Who sits in a seat, and the channel to them. A connection without a
/// channel keeps the seat of a client that is away.
///
/// `handed` records, in order, every event that was handed to the channel
/// since the connection was made. It is kept for the proofs alone.
pub struct Connection {
    pub id: PlayerIdentity,
    pub sender: Option<Channel>,
    pub handed: Ghost<Seq<ServerEvent>>,
}

/// Calls `UnboundedSender::send` of tokio and tells whether it returned
/// `Ok`. It returns an error when the receiving half was closed or dropped;
/// whether it was is not known here, so nothing is claimed of the answer.
#[verifier::external_body]
fn channel_send(sender: &Channel, event: ServerEvent) -> (delivered: bool) {
    sender.send(event).is_ok()
}

/// The seat `before` was to be sent `expected` and is now `after`.
///
/// An empty seat stays empty. A taken one keeps its identity. Without a
/// channel it is handed nothing. With one it is handed the events in
/// order, all of them unless one fails: the channel that fails is given
/// up, and what comes after the failure is not handed on.
pub open spec fn served(
    before: Option<Connection>,
    after: Option<Connection>,
    expected: Seq<ServerEvent>,
) -> bool {
    match (before, after) {
        (None, None) => true,
        (Some(before), Some(after)) => {
            let count = after.handed@.len() - before.handed@.len();
            &&& after.id == before.id
            &&& 0 <= count <= expected.len()
            &&& after.handed@ == before.handed@ + expected.take(count)
            &&& after.sender is Some ==> after.sender == before.sender && count == expected.len()
            &&& before.sender is None ==> count == 0
            &&& before.sender is Some && expected.len() > 0 ==> count > 0
            &&& expected.len() == 0 ==> after.sender == before.sender
        },
        _ => false,
    }
}

/// Seat by seat, `before` was to be sent what `expected` gives for the
/// seat, and is now `after`.
pub open spec fn seats_served(
    before: [Option<Connection>; MAX_PLAYERS],
    after: [Option<Connection>; MAX_PLAYERS],
    expected: spec_fn(int) -> Seq<ServerEvent>,
) -> bool {
    forall|seat: int|
        0 <= seat < MAX_PLAYERS ==> served(before[seat], #[trigger] after[seat], expected(seat))
}

/// A seat that is served twice has been served both lots, one after the
/// other.
pub proof fn lemma_served_twice(
    first: Option<Connection>,
    second: Option<Connection>,
    third: Option<Connection>,
    early: Seq<ServerEvent>,
    late: Seq<ServerEvent>,
)
    requires
        served(first, second, early),
        served(second, third, late),
    ensures
        served(first, third, early + late),
{
    if first is Some {
        let a = first.unwrap();
        let b = second.unwrap();
        let c = third.unwrap();
        let early_count = b.handed@.len() - a.handed@.len();
        let late_count = c.handed@.len() - b.handed@.len();
        assert(c.handed@ =~= a.handed@ + (early + late).take(early_count + late_count));
    }
}

impl Connection {
    /// A connection of `id` over `sender`, to which nothing was handed.
    pub fn new(id: PlayerIdentity, sender: Option<Channel>) -> (connection: Connection)
        ensures
            connection.id == id,
            connection.sender == sender,
            connection.handed@ == Seq::<ServerEvent>::empty(),
    {
        Connection { id, sender, handed: Ghost(Seq::empty()) }
    }

    /// Takes note of how a send on the channel went: a channel that failed
    /// is given up, so that the client counts as away and keeps the seat.
    pub fn settle(&mut self, delivered: bool)
        ensures
            final(self).id == old(self).id,
            final(self).handed == old(self).handed,
            final(self).sender == (if delivered {
                old(self).sender
            } else {
                None
            }),
    {
        if !delivered {
            self.sender = None;
        }
    }
}

impl NetworkingSend for Connection {
    /// Hands `event` to the channel, if there is one, and gives up a
    /// channel that fails.
    fn send(&mut self, event: &ServerEvent)
        ensures
            served(Some(*old(self)), Some(*final(self)), seq![*event]),
    {
        let delivered = match &self.sender {
            Some(sender) => {
                proof {
                    self.handed@ = self.handed@.push(*event);
                }
                channel_send(sender, *event)
            },
            None => true,
        };
        self.settle(delivered);
        proof {
            let count = self.handed@.len() - old(self).handed@.len();
            assert(self.handed@ =~= old(self).handed@ + seq![*event].take(count));
        }
    }
}

/// The seats of a room on the server. What is sent is replayed on the
/// server's room once, whoever it goes to; what is addressed to one seat is
/// replayed only where that seat is taken.
impl Networking for [Option<Connection>; MAX_PLAYERS] {
    open spec fn after_send_to_all(&self, room: Room, event: ServerEvent) -> Room {
        room_after_server_event(room, event, None, true)
    }

    open spec fn after_send_to_all_except(
        &self,
        room: Room,
        event: ServerEvent,
        except: usize,
    ) -> Room {
        room_after_server_event(room, event, None, true)
    }

    open spec fn after_send_to(&self, room: Room, event: ServerEvent, player_index: usize) -> Room {
        if player_index < MAX_PLAYERS && self[player_index as int] is Some {
            room_after_server_event(room, event, Some(player_index), true)
        } else {
            room
        }
    }

    open spec fn after_send_to_all_except_origin(
        &self,
        room: Room,
        event: ServerEvent,
        origin: usize,
    ) -> Room {
        room_after_server_event(room, event, None, true)
    }

    open spec fn served(
        before: &Self,
        after: &Self,
        expected: spec_fn(int) -> Seq<ServerEvent>,
    ) -> bool {
        seats_served(*before, *after, expected)
    }

    proof fn lemma_served(
        first: &Self,
        second: &Self,
        third: &Self,
        early: spec_fn(int) -> Seq<ServerEvent>,
        late: spec_fn(int) -> Seq<ServerEvent>,
    ) {
        if Self::served(first, second, early) && Self::served(second, third, late) {
            assert forall|seat: int| 0 <= seat < MAX_PLAYERS implies served(
                first[seat],
                #[trigger] third[seat],
                one_after_another(early, late)(seat),
            ) by {
                lemma_served_twice(first[seat], second[seat], third[seat], early(seat), late(seat));
            }
        }
    }

    fn send_to_all(&mut self, room: &mut Room, event: ServerEvent) {
        handle_server_event(room, &event, None, true);
        let mut index: usize = 0;
        while index < MAX_PLAYERS
            invariant
                index <= MAX_PLAYERS,
                forall|seat: int|
                    0 <= seat < index ==> served(
                        old(self)[seat],
                        #[trigger] self[seat],
                        seq![event],
                    ),
                forall|seat: int|
                    index <= seat < MAX_PLAYERS ==> #[trigger] self[seat] == old(self)[seat],
            decreases MAX_PLAYERS - index,
        {
            if let Some(connection) = &mut self[index] {
                connection.send(&event);
            }
            index = index + 1;
        }
    }

    fn send_to_all_except(&mut self, room: &mut Room, event: ServerEvent, except: usize)
        ensures
            except < MAX_PLAYERS ==> final(self)[except as int] == old(self)[except as int],
    {
        handle_server_event(room, &event, None, true);
        let mut index: usize = 0;
        while index < MAX_PLAYERS
            invariant
                index <= MAX_PLAYERS,
                forall|seat: int|
                    0 <= seat < index ==> served(
                        old(self)[seat],
                        #[trigger] self[seat],
                        to_all_except(event, except)(seat),
                    ),
                forall|seat: int|
                    index <= seat < MAX_PLAYERS ==> #[trigger] self[seat] == old(self)[seat],
                except < MAX_PLAYERS ==> self[except as int] == old(self)[except as int],
            decreases MAX_PLAYERS - index,
        {
            if index != except {
                if let Some(connection) = &mut self[index] {
                    connection.send(&event);
                }
            }
            index = index + 1;
        }
    }

    fn send_to(&mut self, room: &mut Room, event: ServerEvent, player_index: usize) {
        let mut addressed = false;
        if player_index < MAX_PLAYERS {
            if let Some(connection) = &mut self[player_index] {
                connection.send(&event);
                addressed = true;
            }
        }
        if addressed {
            handle_server_event(room, &event, Some(player_index), true);
        }
    }

    fn send_to_all_except_origin(&mut self, room: &mut Room, event: ServerEvent, origin: usize)
        ensures
            origin < MAX_PLAYERS ==> final(self)[origin as int] == old(self)[origin as int],
    {
        self.send_to_all_except(room, event, origin);
    }
}

} // verus!
