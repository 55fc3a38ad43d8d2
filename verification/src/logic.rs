//! The event protocol: which client events are legal, what the server
//! answers, and what every copy of the room does with the answer.

use crate::games::carbo::{CarboPlayer, CarboRoom};
use crate::games::coup::{CoupPlayer, CoupRoom};
use crate::games::tycoon::{TycoonPlayer, TycoonRoom};
use crate::helpers::{
    each_player, first_connected, holds_host, in_lobby, is_connected, is_host, is_lobby,
    lemma_each_player, lemma_first_connected, with_seat,
};
use crate::traits::{
    one_after_another, to_all_except, to_nobody, to_one, GameLogic, Networking,
};
use crate::types::{
    ClientEvent, CommonClientEvent, CommonServerEvent, GameType, Player, Room, ServerEvent,
    MAX_PLAYERS,
};
use vstd::prelude::*;

verus! {

/// Every seat that `event` fills or empties is a seat of the room.
pub open spec fn event_in_range(event: ServerEvent) -> bool {
    match event {
        ServerEvent::CommonEvent(CommonServerEvent::PlayerJoined { player_index, .. }) => (
        player_index as int) < MAX_PLAYERS,
        ServerEvent::CommonEvent(CommonServerEvent::PlayerLeft { player_index }) => (
        player_index as int) < MAX_PLAYERS,
        _ => true,
    }
}

/// The host once seat `vacated` has stopped holding a connected player: if
/// that seat was the host's, the lowest seat with a connected player, or the
/// old host where there is none.
pub open spec fn host_after_vacating(room: Room, vacated: u8) -> u8 {
    if vacated == room.host {
        match first_connected(room.players, 0) {
            Some(heir) => heir,
            None => room.host,
        }
    } else {
        room.host
    }
}

/// `room` with the connection flag of the player in seat `player_index` set
/// as given; unchanged where the seat is empty or is no seat.
pub open spec fn with_disconnected(room: Room, player_index: u8, disconnected: bool) -> Room {
    if (player_index as int) < MAX_PLAYERS {
        match room.players[player_index as int] {
            Some(player) => with_seat(
                room,
                player_index as int,
                Some(Player { disconnected, ..player }),
            ),
            None => room,
        }
    } else {
        room
    }
}

/// A player as a change of rule set leaves them: name and connection flag
/// kept, nothing played.
pub open spec fn carried_over(player: Player) -> Player {
    Player { name: player.name, disconnected: player.disconnected, ..Player::initial() }
}

pub open spec fn carry_over() -> spec_fn(int, Player) -> Player {
    |seat: int, player: Player| carried_over(player)
}

/// The room that takes over when the host picks `game`: the same players in
/// the same seats, host and own seat kept, nothing played.
pub open spec fn room_for_game(game: GameType, previous: Room) -> Room {
    Room {
        game,
        host: previous.host,
        player_index: previous.player_index,
        players: each_player(previous.players, carry_over(), MAX_PLAYERS as int),
        ..Room::initial()
    }
}

/// A player with their share of `game` as new.
pub open spec fn reset_player(game: GameType) -> spec_fn(int, Player) -> Player {
    |seat: int, player: Player|
        match game {
            GameType::Carbo => Player { carbo: CarboPlayer::initial(), ..player },
            GameType::Tycoon => Player { tycoon: TycoonPlayer::initial(), ..player },
            GameType::Coup => Player { coup: CoupPlayer::initial(), ..player },
        }
}

/// `room` with the running rule set's share, of the room and of every
/// player, as new.
pub open spec fn room_after_reset(room: Room) -> Room {
    let players = each_player(room.players, reset_player(room.game), MAX_PLAYERS as int);
    match room.game {
        GameType::Carbo => Room { carbo: CarboRoom::initial(), players, ..room },
        GameType::Tycoon => Room { tycoon: TycoonRoom::initial(), players, ..room },
        GameType::Coup => Room { coup: CoupRoom::initial(), players, ..room },
    }
}

/// What replaying an event of the common alphabet leaves.
pub open spec fn room_after_common_event(
    room: Room,
    event: CommonServerEvent,
    is_server_side: bool,
) -> Room {
    match event {
        CommonServerEvent::HostChanged { player_index } => Room { host: player_index, ..room },
        CommonServerEvent::PlayerDisconnected { player_index } => {
            let marked = with_disconnected(room, player_index, true);
            Room { host: host_after_vacating(marked, player_index), ..marked }
        },
        CommonServerEvent::PlayerJoined { name, player_index } => with_seat(
            room,
            player_index as int,
            Some(Player::named(name)),
        ),
        CommonServerEvent::PlayerLeft { player_index } => {
            let emptied = with_seat(room, player_index as int, None);
            Room { host: host_after_vacating(emptied, player_index), ..emptied }
        },
        CommonServerEvent::PlayerReconnected { player_index } => with_disconnected(
            room,
            player_index,
            false,
        ),
        CommonServerEvent::RoomJoined { new_room, current_player } => if is_server_side {
            room
        } else {
            Room { player_index: current_player, ..new_room }
        },
        CommonServerEvent::GameChanged { game } => room_for_game(game, room),
        CommonServerEvent::ResetGame => room_after_reset(room),
    }
}

/// What replaying `event` leaves of `room`. An event of a rule set that the
/// room does not run, and an unknown event, leave it as it is.
pub open spec fn room_after_server_event(
    room: Room,
    event: ServerEvent,
    as_player: Option<usize>,
    is_server_side: bool,
) -> Room {
    match event {
        ServerEvent::TycoonEvent(event) => if room.game == GameType::Tycoon {
            <TycoonRoom as GameLogic>::replayed(room, event, as_player, is_server_side)
        } else {
            room
        },
        ServerEvent::CarboEvent(event) => if room.game == GameType::Carbo {
            <CarboRoom as GameLogic>::replayed(room, event, as_player, is_server_side)
        } else {
            room
        },
        ServerEvent::CoupEvent(event) => if room.game == GameType::Coup {
            <CoupRoom as GameLogic>::replayed(room, event, as_player, is_server_side)
        } else {
            room
        },
        ServerEvent::CommonEvent(event) => room_after_common_event(room, event, is_server_side),
        ServerEvent::Unknown => room,
    }
}

/// The legal client events: what the player in seat `player_index` may ask
/// of `room`.
pub open spec fn valid_client_event(room: Room, event: ClientEvent, player_index: usize) -> bool {
    match event {
        ClientEvent::TycoonEvent(event) => room.game == GameType::Tycoon
            && <TycoonRoom as GameLogic>::accepts(room, event, player_index),
        ClientEvent::CarboEvent(event) => room.game == GameType::Carbo
            && <CarboRoom as GameLogic>::accepts(room, event, player_index),
        ClientEvent::CoupEvent(event) => room.game == GameType::Coup
            && <CoupRoom as GameLogic>::accepts(room, event, player_index),
        ClientEvent::CommonEvent(event) => match event {
            CommonClientEvent::JoinRoom { .. } => player_index < MAX_PLAYERS
                && room.players[player_index as int] is None,
            CommonClientEvent::LeaveRoom => true,
            CommonClientEvent::ChangeGame { .. } => holds_host(room, player_index) && in_lobby(
                room,
            ),
            CommonClientEvent::ResetGame => holds_host(room, player_index) && in_lobby(room),
            CommonClientEvent::Disconnect => true,
        },
        ClientEvent::Unknown => false,
    }
}

/// What a rule set's answer to `event` leaves of `room`.
pub open spec fn room_after_game_event<N: Networking, Logic: GameLogic>(
    connections: N,
    room: Room,
    event: Logic::GameClientEvent,
    player_index: usize,
) -> Room {
    match Logic::announcement(event, player_index) {
        Some(announced) => connections.after_send_to_all_except_origin(
            room,
            Logic::wrapped(announced),
            player_index,
        ),
        None => room,
    }
}

/// The server event that tells of the common event `event` of the player in
/// seat `player_index`, for the events that are told in one server event.
pub open spec fn common_announcement(event: CommonClientEvent, player_index: usize) -> ServerEvent {
    ServerEvent::CommonEvent(
        match event {
            CommonClientEvent::JoinRoom { name } => CommonServerEvent::PlayerJoined {
                name,
                player_index: player_index as u8,
            },
            CommonClientEvent::LeaveRoom => CommonServerEvent::PlayerLeft {
                player_index: player_index as u8,
            },
            CommonClientEvent::ChangeGame { game } => CommonServerEvent::GameChanged { game },
            CommonClientEvent::ResetGame => CommonServerEvent::ResetGame,
            CommonClientEvent::Disconnect => CommonServerEvent::PlayerDisconnected {
                player_index: player_index as u8,
            },
        },
    )
}

/// What carrying out the valid event `event` of the player in seat
/// `player_index` leaves of `room`.
///
/// A join is announced to the others, and the room as the announcement
/// leaves it is then sent to the one who joined. Every other event is
/// announced to everyone but the player who caused it.
pub open spec fn room_after_client_event<N: Networking>(
    connections: N,
    room: Room,
    event: ClientEvent,
    player_index: usize,
) -> Room {
    match event {
        ClientEvent::TycoonEvent(event) => room_after_game_event::<N, TycoonRoom>(
            connections,
            room,
            event,
            player_index,
        ),
        ClientEvent::CarboEvent(event) => room_after_game_event::<N, CarboRoom>(
            connections,
            room,
            event,
            player_index,
        ),
        ClientEvent::CoupEvent(event) => room_after_game_event::<N, CoupRoom>(
            connections,
            room,
            event,
            player_index,
        ),
        ClientEvent::CommonEvent(event) => match event {
            CommonClientEvent::JoinRoom { .. } => {
                let seated = connections.after_send_to_all_except(
                    room,
                    common_announcement(event, player_index),
                    player_index,
                );
                connections.after_send_to(
                    seated,
                    welcome(connections, room, event, player_index),
                    player_index,
                )
            },
            _ => connections.after_send_to_all_except_origin(
                room,
                common_announcement(event, player_index),
                player_index,
            ),
        },
        ClientEvent::Unknown => room,
    }
}

/// Whom a rule set's answer to `event` is sent to.
pub open spec fn told_of_game_event<Logic: GameLogic>(
    event: Logic::GameClientEvent,
    player_index: usize,
) -> spec_fn(int) -> Seq<ServerEvent> {
    match Logic::announcement(event, player_index) {
        Some(announced) => to_all_except(Logic::wrapped(announced), player_index),
        None => to_nobody(),
    }
}

/// The whole room as the player in seat `player_index` is sent it once the
/// others were told of the player's join.
pub open spec fn welcome<N: Networking>(
    connections: N,
    room: Room,
    event: CommonClientEvent,
    player_index: usize,
) -> ServerEvent {
    ServerEvent::CommonEvent(
        CommonServerEvent::RoomJoined {
            new_room: connections.after_send_to_all_except(
                room,
                common_announcement(event, player_index),
                player_index,
            ),
            current_player: player_index as u8,
        },
    )
}

/// What each seat is sent when the valid event `event` of the player in
/// seat `player_index` is carried out.
///
/// A join is told to the others, and the one who joined is then sent the
/// whole room. Every other event is told to everyone but the player who
/// caused it.
pub open spec fn told_of_client_event<N: Networking>(
    connections: N,
    room: Room,
    event: ClientEvent,
    player_index: usize,
) -> spec_fn(int) -> Seq<ServerEvent> {
    match event {
        ClientEvent::TycoonEvent(event) => told_of_game_event::<TycoonRoom>(event, player_index),
        ClientEvent::CarboEvent(event) => told_of_game_event::<CarboRoom>(event, player_index),
        ClientEvent::CoupEvent(event) => told_of_game_event::<CoupRoom>(event, player_index),
        ClientEvent::CommonEvent(event) => match event {
            CommonClientEvent::JoinRoom { .. } => one_after_another(
                to_all_except(common_announcement(event, player_index), player_index),
                to_one(welcome(connections, room, event, player_index), player_index),
            ),
            _ => to_all_except(common_announcement(event, player_index), player_index),
        },
        ClientEvent::Unknown => to_nobody(),
    }
}

/// Tells whether every seat that `event` fills or empties is a seat of the
/// room, as replaying it asks.
pub fn is_in_range(event: &ServerEvent) -> (in_range: bool)
    ensures
        in_range == event_in_range(*event),
{
    match event {
        ServerEvent::CommonEvent(CommonServerEvent::PlayerJoined { player_index, .. }) => (
        *player_index as usize) < MAX_PLAYERS,
        ServerEvent::CommonEvent(CommonServerEvent::PlayerLeft { player_index }) => (
        *player_index as usize) < MAX_PLAYERS,
        _ => true,
    }
}

/// The lowest seat that holds a connected player.
pub fn find_first_connected(room: &Room) -> (found: Option<u8>)
    ensures
        found == first_connected(room.players, 0),
{
    let mut index: usize = 0;
    while index < MAX_PLAYERS
        invariant
            index <= MAX_PLAYERS,
            first_connected(room.players, 0) == first_connected(room.players, index as int),
        decreases MAX_PLAYERS - index,
    {
        if let Some(player) = &room.players[index] {
            if !player.disconnected {
                return Some(index as u8);
            }
        }
        index = index + 1;
    }
    None
}

/// Hands the host's seat on after seat `vacated` stopped holding a
/// connected player.
fn migrate_host(room: &mut Room, vacated: u8)
    ensures
        *final(room) == (Room { host: host_after_vacating(*old(room), vacated), ..*old(room) }),
{
    if vacated == room.host {
        if let Some(heir) = find_first_connected(room) {
            room.host = heir;
        }
    }
}

/// Sets the connection flag of the player in seat `player_index`, if there
/// is one.
fn mark_disconnected(room: &mut Room, player_index: u8, disconnected: bool)
    ensures
        *final(room) == with_disconnected(*old(room), player_index, disconnected),
{
    if (player_index as usize) < MAX_PLAYERS {
        if let Some(player) = &mut room.players[player_index as usize] {
            player.disconnected = disconnected;
        }
    }
    assert(room.players =~= with_disconnected(*old(room), player_index, disconnected).players);
}

impl Player {
    /// The player as a change of rule set leaves them: name and connection
    /// flag kept, nothing played.
    pub fn from_previous(previous: &Player) -> (player: Player)
        ensures
            player == carried_over(*previous),
    {
        let mut player = Player::default();
        player.name = previous.name;
        player.disconnected = previous.disconnected;
        player
    }
}

impl Room {
    /// The room that takes over from `previous` when `game` is picked: the
    /// players keep their seats, names and connection flags, and host and
    /// own seat stay; nothing else is kept.
    pub fn from_previous(game: GameType, previous: &Room) -> (room: Room)
        ensures
            room == room_for_game(game, *previous),
    {
        let mut room = Room::default();
        room.game = game;
        room.host = previous.host;
        room.player_index = previous.player_index;
        room.players = previous.players;
        let mut index: usize = 0;
        while index < MAX_PLAYERS
            invariant
                index <= MAX_PLAYERS,
                room == (Room {
                    game,
                    host: previous.host,
                    player_index: previous.player_index,
                    players: each_player(previous.players, carry_over(), index as int),
                    ..Room::initial()
                }),
            decreases MAX_PLAYERS - index,
        {
            if let Some(player) = &room.players[index] {
                room.players[index] = Some(Player::from_previous(player));
            }
            index = index + 1;
        }
        room
    }

    /// Switches the room to `game`.
    pub fn change_game(&mut self, game: GameType)
        ensures
            *final(self) == room_for_game(game, *old(self)),
    {
        *self = Room::from_previous(game, self);
    }

    /// Whether seat `player_index` holds a player.
    pub fn has_player(&self, player_index: usize) -> (seated: bool)
        requires
            player_index < MAX_PLAYERS,
        ensures
            seated == (self.players[player_index as int] is Some),
    {
        self.players[player_index].is_some()
    }

    /// Makes the running rule set's share, of the room and of every player,
    /// as new.
    pub fn reset_game(&mut self)
        ensures
            *final(self) == room_after_reset(*old(self)),
    {
        let game = self.game;
        match game {
            GameType::Carbo => {
                self.carbo = CarboRoom::default();
            },
            GameType::Tycoon => {
                self.tycoon = TycoonRoom::default();
            },
            GameType::Coup => {
                self.coup = CoupRoom::default();
            },
        }
        let ghost start = *self;
        let mut index: usize = 0;
        while index < MAX_PLAYERS
            invariant
                index <= MAX_PLAYERS,
                game == start.game,
                *self == (Room {
                    players: each_player(start.players, reset_player(game), index as int),
                    ..start
                }),
            decreases MAX_PLAYERS - index,
        {
            let ghost before = self.players;
            if let Some(player) = &mut self.players[index] {
                match game {
                    GameType::Carbo => {
                        player.carbo = CarboPlayer::default();
                    },
                    GameType::Tycoon => {
                        player.tycoon = TycoonPlayer::default();
                    },
                    GameType::Coup => {
                        player.coup = CoupPlayer::default();
                    },
                }
            }
            assert(self.players =~= each_player(start.players, reset_player(game), index + 1));
            index = index + 1;
        }
    }
}

/// Replays `event` on `room`. This is the one place where a room changes,
/// on the server and on every client; the server, which made the snapshot
/// that `RoomJoined` carries, does not take it over.
pub fn handle_server_event(
    room: &mut Room,
    event: &ServerEvent,
    as_player: Option<usize>,
    is_server_side: bool,
)
    requires
        event_in_range(*event),
    ensures
        *final(room) == room_after_server_event(*old(room), *event, as_player, is_server_side),
{
    match event {
        ServerEvent::TycoonEvent(event) => {
            if room.game == GameType::Tycoon {
                TycoonRoom::handle_server_game_event(room, event, as_player, is_server_side);
            }
        },
        ServerEvent::CarboEvent(event) => {
            if room.game == GameType::Carbo {
                CarboRoom::handle_server_game_event(room, event, as_player, is_server_side);
            }
        },
        ServerEvent::CoupEvent(event) => {
            if room.game == GameType::Coup {
                CoupRoom::handle_server_game_event(room, event, as_player, is_server_side);
            }
        },
        ServerEvent::CommonEvent(event) => {
            match event {
                CommonServerEvent::HostChanged { player_index } => {
                    room.host = *player_index;
                },
                CommonServerEvent::PlayerDisconnected { player_index } => {
                    mark_disconnected(room, *player_index, true);
                    migrate_host(room, *player_index);
                },
                CommonServerEvent::PlayerJoined { name, player_index } => {
                    room.players[*player_index as usize] = Some(Player::with_name(*name));
                },
                CommonServerEvent::PlayerLeft { player_index } => {
                    room.players[*player_index as usize] = None;
                    migrate_host(room, *player_index);
                },
                CommonServerEvent::PlayerReconnected { player_index } => {
                    mark_disconnected(room, *player_index, false);
                },
                CommonServerEvent::RoomJoined { new_room, current_player } => {
                    if !is_server_side {
                        *room = *new_room;
                        room.player_index = *current_player;
                    }
                },
                CommonServerEvent::GameChanged { game } => {
                    room.change_game(*game);
                },
                CommonServerEvent::ResetGame => {
                    room.reset_game();
                },
            }
        },
        ServerEvent::Unknown => {},
    }
}

/// Decides whether the player in seat `player_index` may do `event`. The
/// room is only read.
pub fn validate_client_event(room: &Room, event: &ClientEvent, player_index: usize) -> (valid: bool)
    ensures
        valid == valid_client_event(*room, *event, player_index),
{
    match event {
        ClientEvent::TycoonEvent(event) => room.game == GameType::Tycoon
            && TycoonRoom::validate_client_game_event(room, event, player_index),
        ClientEvent::CarboEvent(event) => room.game == GameType::Carbo
            && CarboRoom::validate_client_game_event(room, event, player_index),
        ClientEvent::CoupEvent(event) => room.game == GameType::Coup
            && CoupRoom::validate_client_game_event(room, event, player_index),
        ClientEvent::CommonEvent(event) => {
            match event {
                CommonClientEvent::JoinRoom { .. } => player_index < MAX_PLAYERS
                    && room.players[player_index].is_none(),
                CommonClientEvent::LeaveRoom => true,
                CommonClientEvent::ChangeGame { .. } => is_host(room, player_index) && is_lobby(
                    room,
                ),
                CommonClientEvent::ResetGame => is_host(room, player_index) && is_lobby(room),
                CommonClientEvent::Disconnect => true,
            }
        },
        ClientEvent::Unknown => false,
    }
}

/// Carries out a valid client event. The room is never changed here but by
/// the server events that are sent: each is replayed on the room as it is
/// sent, so the room holds what the clients were told.
pub fn handle_client_event<N: Networking>(
    room: &mut Room,
    event: &ClientEvent,
    connections: &mut N,
    player_index: usize,
)
    requires
        player_index < MAX_PLAYERS,
        valid_client_event(*old(room), *event, player_index),
    ensures
        *final(room) == room_after_client_event(
            *old(connections),
            *old(room),
            *event,
            player_index,
        ),
        N::served(
            old(connections),
            final(connections),
            told_of_client_event(*old(connections), *old(room), *event, player_index),
        ),
{
    let ghost before = *connections;
    match event {
        ClientEvent::TycoonEvent(event) => {
            TycoonRoom::handle_client_game_event(room, event, connections, player_index);
        },
        ClientEvent::CarboEvent(event) => {
            CarboRoom::handle_client_game_event(room, event, connections, player_index);
        },
        ClientEvent::CoupEvent(event) => {
            CoupRoom::handle_client_game_event(room, event, connections, player_index);
        },
        ClientEvent::CommonEvent(event) => {
            match event {
                CommonClientEvent::JoinRoom { name } => {
                    connections.send_to_all_except(
                        room,
                        ServerEvent::CommonEvent(
                            CommonServerEvent::PlayerJoined {
                                name: *name,
                                player_index: player_index as u8,
                            },
                        ),
                        player_index,
                    );
                    let ghost between = *connections;
                    connections.send_to(
                        room,
                        ServerEvent::CommonEvent(
                            CommonServerEvent::RoomJoined {
                                new_room: *room,
                                current_player: player_index as u8,
                            },
                        ),
                        player_index,
                    );
                    proof {
                        N::lemma_served(
                            &before,
                            &between,
                            connections,
                            to_all_except(
                                common_announcement(
                                    CommonClientEvent::JoinRoom { name: *name },
                                    player_index,
                                ),
                                player_index,
                            ),
                            to_one(
                                welcome(
                                    before,
                                    *old(room),
                                    CommonClientEvent::JoinRoom { name: *name },
                                    player_index,
                                ),
                                player_index,
                            ),
                        );
                    }
                },
                CommonClientEvent::LeaveRoom => {
                    connections.send_to_all_except_origin(
                        room,
                        ServerEvent::CommonEvent(
                            CommonServerEvent::PlayerLeft { player_index: player_index as u8 },
                        ),
                        player_index,
                    );
                },
                CommonClientEvent::ChangeGame { game } => {
                    connections.send_to_all_except_origin(
                        room,
                        ServerEvent::CommonEvent(CommonServerEvent::GameChanged { game: *game }),
                        player_index,
                    );
                },
                CommonClientEvent::ResetGame => {
                    connections.send_to_all_except_origin(
                        room,
                        ServerEvent::CommonEvent(CommonServerEvent::ResetGame),
                        player_index,
                    );
                },
                CommonClientEvent::Disconnect => {
                    connections.send_to_all_except_origin(
                        room,
                        ServerEvent::CommonEvent(
                            CommonServerEvent::PlayerDisconnected {
                                player_index: player_index as u8,
                            },
                        ),
                        player_index,
                    );
                },
            }
        },
        ClientEvent::Unknown => {},
    }
}

/// What replaying `events` in order leaves of `room`.
pub open spec fn room_after_server_events(
    room: Room,
    events: Seq<ServerEvent>,
    as_player: Option<usize>,
    is_server_side: bool,
) -> Room
    decreases events.len(),
{
    if events.len() == 0 {
        room
    } else {
        room_after_server_event(
            room_after_server_events(room, events.drop_last(), as_player, is_server_side),
            events.last(),
            as_player,
            is_server_side,
        )
    }
}

/// Replays `events` on `room`, first to last.
pub fn handle_server_events(
    room: &mut Room,
    events: &[ServerEvent],
    as_player: Option<usize>,
    is_server_side: bool,
)
    requires
        forall|index: int| 0 <= index < events@.len() ==> event_in_range(#[trigger] events@[index]),
    ensures
        *final(room) == room_after_server_events(*old(room), events@, as_player, is_server_side),
{
    let mut index: usize = 0;
    while index < events.len()
        invariant
            index <= events@.len(),
            forall|index: int|
                0 <= index < events@.len() ==> event_in_range(#[trigger] events@[index]),
            *room == room_after_server_events(
                *old(room),
                events@.take(index as int),
                as_player,
                is_server_side,
            ),
        decreases events@.len() - index,
    {
        assert(events@.take(index + 1).drop_last() =~= events@.take(index as int));
        handle_server_event(room, &events[index], as_player, is_server_side);
        index = index + 1;
    }
    assert(events@.take(index as int) =~= events@);
}

/// Two rooms that differ at most in the seat of their owner.
pub open spec fn same_but_own_seat(first: Room, second: Room) -> bool {
    first == (Room { player_index: first.player_index, ..second })
}

/// The host's seat holds a connected player.
pub open spec fn host_connected(room: Room) -> bool {
    (room.host as int) < MAX_PLAYERS && is_connected(room.players[room.host as int])
}

/// No seat holds a connected player.
pub open spec fn nobody_connected(room: Room) -> bool {
    forall|seat: int| 0 <= seat < MAX_PLAYERS ==> !is_connected(#[trigger] room.players[seat])
}

/// Replaying is a function of the room and the events: two copies that are
/// equal stay equal under the same events.
pub proof fn lemma_equal_copies_stay_equal(
    first: Room,
    second: Room,
    events: Seq<ServerEvent>,
    as_player: Option<usize>,
    is_server_side: bool,
)
    requires
        first == second,
    ensures
        room_after_server_events(first, events, as_player, is_server_side)
            == room_after_server_events(second, events, as_player, is_server_side),
{
}

/// The server's room and a client's copy stay the same but for the seat of
/// the copy's owner: under every event of the common alphabet except the
/// one that hands over the whole room, whoever it is addressed to, and
/// under every event of a rule set that both replay as the same player.
pub proof fn lemma_copies_converge(
    server: Room,
    client: Room,
    event: ServerEvent,
    as_server: Option<usize>,
    as_client: Option<usize>,
)
    requires
        same_but_own_seat(server, client),
        !(event matches ServerEvent::CommonEvent(CommonServerEvent::RoomJoined { .. })),
        event is CommonEvent || as_server == as_client,
    ensures
        same_but_own_seat(
            room_after_server_event(server, event, as_server, true),
            room_after_server_event(client, event, as_client, false),
        ),
        room_after_server_event(client, event, as_client, false).player_index
            == client.player_index,
{
}

/// A client that is sent the whole room holds the server's room, with its
/// own seat as the event names it.
pub proof fn lemma_room_joined_copies(
    server: Room,
    client: Room,
    current_player: u8,
    as_player: Option<usize>,
)
    ensures
        ({
            let event = ServerEvent::CommonEvent(
                CommonServerEvent::RoomJoined { new_room: server, current_player },
            );
            let copy = room_after_server_event(client, event, as_player, false);
            &&& same_but_own_seat(server, copy)
            &&& copy.player_index == current_player
            &&& room_after_server_event(server, event, as_player, true) == server
        }),
{
}

/// When the host goes away while someone else is connected, the lowest
/// seat with a connected player is the host's as soon as the event is
/// replayed.
pub proof fn lemma_host_migrates(
    room: Room,
    other: int,
    as_player: Option<usize>,
    is_server_side: bool,
)
    requires
        (room.host as int) < MAX_PLAYERS,
        0 <= other < MAX_PLAYERS,
        other != room.host,
        is_connected(room.players[other]),
    ensures
        ({
            let after = room_after_server_event(
                room,
                ServerEvent::CommonEvent(
                    CommonServerEvent::PlayerDisconnected { player_index: room.host },
                ),
                as_player,
                is_server_side,
            );
            &&& after.host != room.host
            &&& host_connected(after)
            &&& forall|lower: int|
                0 <= lower < after.host ==> !is_connected(#[trigger] after.players[lower])
        }),
{
    let marked = with_disconnected(room, room.host, true);
    lemma_first_connected(marked.players, 0);
    assert(is_connected(marked.players[other]));
}

/// The same holds when the host leaves.
pub proof fn lemma_host_migrates_on_leave(
    room: Room,
    other: int,
    as_player: Option<usize>,
    is_server_side: bool,
)
    requires
        (room.host as int) < MAX_PLAYERS,
        0 <= other < MAX_PLAYERS,
        other != room.host,
        is_connected(room.players[other]),
    ensures
        ({
            let after = room_after_server_event(
                room,
                ServerEvent::CommonEvent(CommonServerEvent::PlayerLeft { player_index: room.host }),
                as_player,
                is_server_side,
            );
            &&& after.host != room.host
            &&& host_connected(after)
            &&& forall|lower: int|
                0 <= lower < after.host ==> !is_connected(#[trigger] after.players[lower])
        }),
{
    let emptied = with_seat(room, room.host as int, None);
    lemma_first_connected(emptied.players, 0);
    assert(is_connected(emptied.players[other]));
}

/// A host who is connected is followed by one who is, for as long as
/// anyone is connected: no event does away with that but the two that set
/// the host or the whole room from outside.
pub proof fn lemma_host_stays_connected(
    room: Room,
    event: ServerEvent,
    as_player: Option<usize>,
    is_server_side: bool,
)
    requires
        host_connected(room),
        event_in_range(event),
        !(event matches ServerEvent::CommonEvent(CommonServerEvent::HostChanged { .. })),
        !(event matches ServerEvent::CommonEvent(CommonServerEvent::RoomJoined { .. })),
    ensures
        ({
            let after = room_after_server_event(room, event, as_player, is_server_side);
            host_connected(after) || nobody_connected(after)
        }),
{
    let after = room_after_server_event(room, event, as_player, is_server_side);
    match event {
        ServerEvent::CommonEvent(CommonServerEvent::PlayerDisconnected { player_index }) => {
            let marked = with_disconnected(room, player_index, true);
            lemma_first_connected(marked.players, 0);
        },
        ServerEvent::CommonEvent(CommonServerEvent::PlayerLeft { player_index }) => {
            let emptied = with_seat(room, player_index as int, None);
            lemma_first_connected(emptied.players, 0);
        },
        ServerEvent::CommonEvent(CommonServerEvent::GameChanged { game }) => {
            lemma_each_player(room.players, carry_over(), MAX_PLAYERS as int);
        },
        ServerEvent::CommonEvent(CommonServerEvent::ResetGame) => {
            lemma_each_player(room.players, reset_player(room.game), MAX_PLAYERS as int);
        },
        ServerEvent::TycoonEvent(crate::games::tycoon::TycoonServerEvent::GameStarted {
            cards,
            other_hands,
            ..
        }) => {
            lemma_each_player(
                room.players,
                crate::games::tycoon::dealt(cards, other_hands, as_player),
                MAX_PLAYERS as int,
            );
        },
        _ => {},
    }
}

/// `event` tells that a player has joined in seat `seat`.
pub open spec fn tells_of_join(event: ServerEvent, seat: int) -> bool {
    event matches ServerEvent::CommonEvent(CommonServerEvent::PlayerJoined { player_index, .. })
        && seat == player_index
}

/// On the server, no event seats a player but the one that tells of a
/// join, and that one seats the player in the seat it names.
pub proof fn lemma_only_a_join_seats(room: Room, event: ServerEvent, as_player: Option<usize>)
    requires
        event_in_range(event),
    ensures
        forall|seat: int|
            0 <= seat < MAX_PLAYERS && #[trigger] room_after_server_event(
                room,
                event,
                as_player,
                true,
            ).players[seat] is Some ==> room.players[seat] is Some || tells_of_join(event, seat),
{
    match event {
        ServerEvent::CommonEvent(CommonServerEvent::GameChanged { game }) => {
            lemma_each_player(room.players, carry_over(), MAX_PLAYERS as int);
        },
        ServerEvent::CommonEvent(CommonServerEvent::ResetGame) => {
            lemma_each_player(room.players, reset_player(room.game), MAX_PLAYERS as int);
        },
        ServerEvent::TycoonEvent(crate::games::tycoon::TycoonServerEvent::GameStarted {
            cards,
            other_hands,
            ..
        }) => {
            lemma_each_player(
                room.players,
                crate::games::tycoon::dealt(cards, other_hands, as_player),
                MAX_PLAYERS as int,
            );
        },
        _ => {},
    }
}

} // verus!
