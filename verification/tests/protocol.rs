use game_rooms::client::{receive_server_event, send_event};
use game_rooms::games::carbo::{CarboClientEvent, CarboPlayer, CarboRoom, CarboServerEvent};
use game_rooms::games::coup::{CoupPlayer, CoupRoom};
use game_rooms::games::games::create_logic_from;
use game_rooms::games::tycoon::{
    RoomState as TycoonState, TycoonClientEvent, TycoonPlayer, TycoonRoom, TycoonServerEvent,
};
use game_rooms::logic::{
    find_first_connected, handle_client_event, handle_server_event,
    handle_server_events, is_in_range, validate_client_event,
};
use game_rooms::server::{Admission, Outcome, ServerRoom};
use game_rooms::traits::{GameLogic, Networking, PlayerFields, RoomFields};
use game_rooms::types::{
    pad_name, ClientConnection, ClientEvent, CommonClientEvent, CommonServerEvent, GameType,
    Player, Room, RoomState, ServerEvent, MAX_NAME_LENGTH, MAX_PLAYERS,
};
use tokio::sync::mpsc::unbounded_channel;

fn common(event: CommonServerEvent) -> ServerEvent {
    ServerEvent::CommonEvent(event)
}

fn asks(event: CommonClientEvent) -> ClientEvent {
    ClientEvent::CommonEvent(event)
}

fn joined(name: &str, player_index: u8) -> ServerEvent {
    common(CommonServerEvent::PlayerJoined { name: pad_name(name.as_bytes()), player_index })
}

fn room_of(names: &[(&str, u8)]) -> Room {
    let mut room = Room::default();
    for (name, seat) in names {
        handle_server_event(&mut room, &joined(name, *seat), None, true);
    }
    room
}

#[test]
fn default_room_and_player() {
    let room = Room::default();
    assert_eq!(room.state, RoomState::Lobby);
    assert_eq!(room.game, GameType::Coup);
    assert_eq!(room.host, 0);
    assert_eq!(room.player_index, 0);
    assert!(room.players.iter().all(|seat| seat.is_none()));
    assert_eq!(room.carbo, CarboRoom::default());
    assert_eq!(room.tycoon, TycoonRoom::default());
    assert_eq!(room.coup, CoupRoom::default());
    let player = Player::default();
    assert_eq!(player.name, [0u8; MAX_NAME_LENGTH]);
    assert!(!player.disconnected);
    assert_eq!(GameType::default(), GameType::Coup);
    assert_eq!(RoomState::default(), RoomState::Lobby);
    assert_eq!(ServerEvent::default(), ServerEvent::Unknown);
    assert_eq!(ClientEvent::default(), ClientEvent::Unknown);
    assert_eq!(MAX_PLAYERS, 8);
}

#[test]
fn pad_name_fills_and_cuts() {
    let short = pad_name(b"Al");
    assert_eq!(&short[..2], b"Al");
    assert!(short[2..].iter().all(|byte| *byte == 0));
    let long = pad_name(b"abcdefghijklmnopqrstuvwxyz");
    assert_eq!(&long[..], b"abcdefghijklmnopqrst");
    assert_eq!(pad_name(b""), [0u8; MAX_NAME_LENGTH]);
    assert_eq!(&pad_name(b"exactly twenty bytes")[..], b"exactly twenty bytes");
}

#[test]
fn player_joined_seats_a_new_player() {
    let mut room = Room::default();
    handle_server_event(&mut room, &joined("Alice", 3), None, true);
    let alice = room.players[3].expect("a player in seat 3");
    assert_eq!(alice, Player::with_name(pad_name(b"Alice")));
    assert_eq!(alice.coup, CoupPlayer::default());
    for seat in [0usize, 1, 2, 4, 5, 6, 7] {
        assert!(room.players[seat].is_none());
    }
    assert_eq!(room.host, 0);
}

#[test]
fn player_joined_replaces_whoever_sat_there() {
    let mut room = room_of(&[("Alice", 0)]);
    room.players[0].as_mut().unwrap().coup.coins = 5;
    handle_server_event(&mut room, &joined("Bob", 0), None, true);
    assert_eq!(room.players[0], Some(Player::with_name(pad_name(b"Bob"))));
}

#[test]
fn player_left_empties_the_seat() {
    let mut room = room_of(&[("Alice", 0), ("Bob", 1)]);
    let event = common(CommonServerEvent::PlayerLeft { player_index: 1 });
    handle_server_event(&mut room, &event, None, true);
    assert!(room.players[1].is_none());
    assert!(room.players[0].is_some());
    assert_eq!(room.host, 0);
}

#[test]
fn host_moves_to_lowest_connected_seat_when_host_leaves() {
    let mut room = room_of(&[("Alice", 0), ("Bob", 2), ("Carol", 5)]);
    let event = common(CommonServerEvent::PlayerLeft { player_index: 0 });
    handle_server_event(&mut room, &event, None, true);
    assert_eq!(room.host, 2);
}

#[test]
fn host_moves_to_lowest_connected_seat_when_host_disconnects() {
    let mut room = room_of(&[("Alice", 1), ("Bob", 2), ("Carol", 5), ("Dave", 0)]);
    room.host = 2;
    let away = |player_index| common(CommonServerEvent::PlayerDisconnected { player_index });
    handle_server_event(&mut room, &away(0), None, true);
    assert_eq!(room.host, 2);
    assert!(room.players[0].unwrap().disconnected);
    handle_server_event(&mut room, &away(2), None, true);
    assert_eq!(room.host, 1);
    assert!(room.players[2].unwrap().disconnected);
    assert_eq!(room.players[2].unwrap().name, pad_name(b"Bob"));
    handle_server_event(&mut room, &away(1), None, true);
    assert_eq!(room.host, 5);
    handle_server_event(&mut room, &away(5), None, true);
    assert_eq!(room.host, 5);
    assert_eq!(find_first_connected(&room), None);
}

#[test]
fn disconnect_of_an_empty_or_unknown_seat_changes_nothing() {
    let start = room_of(&[("Alice", 0), ("Bob", 1)]);
    let mut room = start;
    let away = |player_index| common(CommonServerEvent::PlayerDisconnected { player_index });
    handle_server_event(&mut room, &away(4), None, true);
    assert_eq!(room, start);
    handle_server_event(&mut room, &away(200), None, true);
    assert_eq!(room, start);
    let back = |player_index| common(CommonServerEvent::PlayerReconnected { player_index });
    handle_server_event(&mut room, &back(4), None, true);
    handle_server_event(&mut room, &back(200), None, true);
    assert_eq!(room, start);
}

#[test]
fn reconnect_clears_the_flag_and_keeps_the_rest() {
    let mut room = room_of(&[("Alice", 0), ("Bob", 1)]);
    room.players[1].as_mut().unwrap().coup.coins = 4;
    let away = common(CommonServerEvent::PlayerDisconnected { player_index: 1 });
    let back = common(CommonServerEvent::PlayerReconnected { player_index: 1 });
    handle_server_event(&mut room, &away, None, true);
    assert!(room.players[1].unwrap().disconnected);
    handle_server_event(&mut room, &back, None, true);
    let bob = room.players[1].unwrap();
    assert!(!bob.disconnected);
    assert_eq!(bob.coup.coins, 4);
    assert_eq!(bob.name, pad_name(b"Bob"));
}

#[test]
fn host_changed_sets_the_host() {
    let mut room = room_of(&[("Alice", 0), ("Bob", 1)]);
    let event = common(CommonServerEvent::HostChanged { player_index: 1 });
    handle_server_event(&mut room, &event, None, true);
    assert_eq!(room.host, 1);
}

#[test]
fn room_joined_replaces_a_clients_copy_only() {
    let server = room_of(&[("Alice", 0), ("Bob", 1)]);
    let event = common(CommonServerEvent::RoomJoined { new_room: server, current_player: 1 });
    let mut served = server;
    handle_server_event(&mut served, &event, Some(1), true);
    assert_eq!(served, server);
    let mut copy = Room::default();
    handle_server_event(&mut copy, &event, Some(0), false);
    assert_eq!(copy.player_index, 1);
    assert_eq!(copy.players, server.players);
    copy.player_index = server.player_index;
    assert_eq!(copy, server);
}

#[test]
fn game_changed_keeps_names_and_flags_only() {
    let mut room = room_of(&[("Alice", 0), ("Bob", 3)]);
    room.host = 3;
    room.player_index = 3;
    room.state = RoomState::InGame;
    room.coup.turn = 2;
    room.tycoon.revolution = true;
    room.players[0].as_mut().unwrap().disconnected = true;
    room.players[0].as_mut().unwrap().coup.coins = 9;
    room.players[3].as_mut().unwrap().tycoon.hand = 0xff;
    let event = common(CommonServerEvent::GameChanged { game: GameType::Carbo });
    handle_server_event(&mut room, &event, None, true);
    assert_eq!(room.game, GameType::Carbo);
    assert_eq!(room.host, 3);
    assert_eq!(room.player_index, 3);
    assert_eq!(room.state, RoomState::Lobby);
    assert_eq!(room.coup, CoupRoom::default());
    assert_eq!(room.tycoon, TycoonRoom::default());
    let alice = room.players[0].unwrap();
    assert_eq!(alice.name, pad_name(b"Alice"));
    assert!(alice.disconnected);
    assert_eq!(alice.coup, CoupPlayer::default());
    let bob = room.players[3].unwrap();
    assert_eq!(bob.name, pad_name(b"Bob"));
    assert!(!bob.disconnected);
    assert_eq!(bob.tycoon, TycoonPlayer::default());
    assert!(room.players[1].is_none());
}

#[test]
fn from_previous_and_change_game_agree() {
    let mut room = room_of(&[("Alice", 0), ("Bob", 3)]);
    room.coup.turn = 2;
    let fresh = Room::from_previous(GameType::Tycoon, &room);
    room.change_game(GameType::Tycoon);
    assert_eq!(room, fresh);
    assert_eq!(fresh.coup.turn, 0);
    assert_eq!(fresh.game, GameType::Tycoon);
    let mut played = Player::with_name(pad_name(b"Zed"));
    played.disconnected = true;
    played.carbo.num_cards = 3;
    let carried = Player::from_previous(&played);
    assert_eq!(carried.name, pad_name(b"Zed"));
    assert!(carried.disconnected);
    assert_eq!(carried.carbo, CarboPlayer::default());
}

#[test]
fn create_logic_from_forgets_what_came_before() {
    let previous = room_of(&[("Alice", 0)]);
    let room = create_logic_from(GameType::Tycoon, previous);
    let mut expected = Room::default();
    expected.game = GameType::Tycoon;
    assert_eq!(room, expected);
}

#[test]
fn has_player_tells_taken_seats() {
    let room = room_of(&[("Alice", 2)]);
    assert!(room.has_player(2));
    assert!(!room.has_player(0));
    assert!(!room.has_player(7));
}

#[test]
fn reset_game_resets_the_running_rule_set_only() {
    let mut room = room_of(&[("Alice", 0), ("Bob", 1)]);
    room.coup.turn = 3;
    room.tycoon.turn = 4;
    room.players[0].as_mut().unwrap().coup.coins = 7;
    room.players[0].as_mut().unwrap().tycoon.num_cards = 5;
    room.players[1].as_mut().unwrap().coup.cards[0].revealed = true;
    let event = common(CommonServerEvent::ResetGame);
    handle_server_event(&mut room, &event, None, true);
    assert_eq!(room.game, GameType::Coup);
    assert_eq!(room.coup, CoupRoom::default());
    assert_eq!(room.tycoon.turn, 4);
    assert_eq!(room.players[0].unwrap().coup, CoupPlayer::default());
    assert_eq!(room.players[0].unwrap().tycoon.num_cards, 5);
    assert_eq!(room.players[1].unwrap().coup, CoupPlayer::default());
    assert_eq!(room.players[1].unwrap().name, pad_name(b"Bob"));

    room.game = GameType::Tycoon;
    handle_server_event(&mut room, &event, None, true);
    assert_eq!(room.tycoon, TycoonRoom::default());
    assert_eq!(room.players[0].unwrap().tycoon, TycoonPlayer::default());

    room.game = GameType::Carbo;
    room.carbo.turn = 1;
    room.players[0].as_mut().unwrap().carbo.visible_cards = 3;
    handle_server_event(&mut room, &event, None, true);
    assert_eq!(room.carbo, CarboRoom::default());
    assert_eq!(room.players[0].unwrap().carbo, CarboPlayer::default());
}

#[test]
fn unknown_event_changes_nothing() {
    let start = room_of(&[("Alice", 0)]);
    let mut room = start;
    handle_server_event(&mut room, &ServerEvent::Unknown, Some(0), false);
    assert_eq!(room, start);
}

#[test]
fn tycoon_start_deals_to_every_seated_player() {
    let mut room = room_of(&[("Alice", 0), ("Bob", 2)]);
    room.game = GameType::Tycoon;
    room.players[2].as_mut().unwrap().tycoon.hand = 0b1;
    let event = ServerEvent::TycoonEvent(TycoonServerEvent::GameStarted {
        turn: 2,
        cards: 0b1011,
        other_hands: [3, 9, 4, 9, 9, 9, 9, 9],
    });
    handle_server_event(&mut room, &event, Some(0), false);
    assert_eq!(room.tycoon.turn, 2);
    assert_eq!(room.tycoon.state, TycoonState::Game);
    let alice = room.players[0].unwrap();
    assert_eq!(alice.tycoon.num_cards, 3);
    assert_eq!(alice.tycoon.hand, 0b1011);
    let bob = room.players[2].unwrap();
    assert_eq!(bob.tycoon.num_cards, 4);
    assert_eq!(bob.tycoon.hand, 0b1);
    assert!(room.players[1].is_none());
}

#[test]
fn tycoon_start_addressed_to_nobody_hands_out_no_cards() {
    let mut room = room_of(&[("Alice", 0)]);
    room.game = GameType::Tycoon;
    let event = ServerEvent::TycoonEvent(TycoonServerEvent::GameStarted {
        turn: 0,
        cards: 0b111,
        other_hands: [5; 8],
    });
    handle_server_event(&mut room, &event, None, true);
    assert_eq!(room.players[0].unwrap().tycoon.num_cards, 5);
    assert_eq!(room.players[0].unwrap().tycoon.hand, 0);
}

#[test]
fn events_of_a_rule_set_that_is_not_running_change_nothing() {
    let start = room_of(&[("Alice", 0)]);
    let mut room = start;
    assert_eq!(room.game, GameType::Coup);
    let event = ServerEvent::TycoonEvent(TycoonServerEvent::GameStarted {
        turn: 2,
        cards: 1,
        other_hands: [1; 8],
    });
    handle_server_event(&mut room, &event, Some(0), false);
    assert_eq!(room, start);
    let pass = ClientEvent::TycoonEvent(TycoonClientEvent::Pass);
    assert!(!validate_client_event(&room, &pass, 0));
    let start_carbo = ClientEvent::CarboEvent(CarboClientEvent::StartGame);
    assert!(!validate_client_event(&room, &start_carbo, 0));
}

#[test]
fn events_without_a_rule_change_nothing() {
    let mut start = room_of(&[("Alice", 0)]);
    start.game = GameType::Tycoon;
    let mut room = start;
    for event in [
        TycoonServerEvent::CardsPlayed { cards: 3 },
        TycoonServerEvent::Pass,
        TycoonServerEvent::ReceiveCards { cards: 3 },
    ] {
        handle_server_event(&mut room, &ServerEvent::TycoonEvent(event), Some(0), false);
        assert_eq!(room, start);
    }
    for event in [
        TycoonClientEvent::PlayCards { cards: 1 },
        TycoonClientEvent::Pass,
        TycoonClientEvent::ExchangeCards { cards: 1 },
    ] {
        assert!(!validate_client_event(&room, &ClientEvent::TycoonEvent(event), 0));
        assert!(!TycoonRoom::validate_client_game_event(&room, &event, 0));
        let mut connection = ClientConnection;
        TycoonRoom::handle_client_game_event(&mut room, &event, &mut connection, 0);
        assert_eq!(room, start);
    }
    start.game = GameType::Carbo;
    room = start;
    let carbo = CarboServerEvent::GameStarted { turn: 1, cards: 2 };
    handle_server_event(&mut room, &ServerEvent::CarboEvent(carbo), Some(0), false);
    assert_eq!(room, start);
}

#[test]
fn carbo_can_start_and_cannot_play() {
    let mut room = room_of(&[("Alice", 0)]);
    room.game = GameType::Carbo;
    let start = ClientEvent::CarboEvent(CarboClientEvent::StartGame);
    let play = ClientEvent::CarboEvent(CarboClientEvent::PlayCard { card: 1 });
    assert!(validate_client_event(&room, &start, 0));
    assert!(!validate_client_event(&room, &play, 0));
    let before = room;
    let mut connection = ClientConnection;
    handle_client_event(&mut room, &start, &mut connection, 0);
    assert_eq!(room, before);
}

#[test]
fn wrapping_keeps_the_event() {
    let tycoon = TycoonServerEvent::CardsPlayed { cards: 5 };
    assert_eq!(TycoonRoom::wrap_game_event(tycoon), ServerEvent::TycoonEvent(tycoon));
    let carbo = CarboServerEvent::GameStarted { turn: 1, cards: 2 };
    assert_eq!(CarboRoom::wrap_game_event(carbo), ServerEvent::CarboEvent(carbo));
}

#[test]
fn common_events_are_valid_as_the_rules_say() {
    let mut room = room_of(&[("Alice", 0), ("Bob", 1)]);
    let name = pad_name(b"Carol");
    assert!(!validate_client_event(&room, &asks(CommonClientEvent::JoinRoom { name }), 0));
    assert!(validate_client_event(&room, &asks(CommonClientEvent::JoinRoom { name }), 2));
    assert!(!validate_client_event(&room, &asks(CommonClientEvent::JoinRoom { name }), 8));
    assert!(validate_client_event(&room, &asks(CommonClientEvent::LeaveRoom), 1));
    assert!(validate_client_event(&room, &asks(CommonClientEvent::LeaveRoom), 77));
    assert!(validate_client_event(&room, &asks(CommonClientEvent::Disconnect), 1));
    let change = asks(CommonClientEvent::ChangeGame { game: GameType::Carbo });
    let reset = asks(CommonClientEvent::ResetGame);
    assert!(validate_client_event(&room, &change, 0));
    assert!(!validate_client_event(&room, &change, 1));
    assert!(!validate_client_event(&room, &change, 256));
    assert!(validate_client_event(&room, &reset, 0));
    assert!(!validate_client_event(&room, &reset, 1));
    room.state = RoomState::InGame;
    assert!(!validate_client_event(&room, &change, 0));
    assert!(!validate_client_event(&room, &reset, 0));
    assert!(!validate_client_event(&room, &ClientEvent::Unknown, 0));
}

#[test]
fn in_range_is_about_joining_and_leaving() {
    assert!(is_in_range(&joined("Alice", 7)));
    assert!(!is_in_range(&joined("Alice", 8)));
    assert!(is_in_range(&common(CommonServerEvent::PlayerLeft { player_index: 0 })));
    assert!(!is_in_range(&common(CommonServerEvent::PlayerLeft { player_index: 255 })));
    assert!(is_in_range(&common(CommonServerEvent::PlayerDisconnected { player_index: 255 })));
    assert!(is_in_range(&common(CommonServerEvent::HostChanged { player_index: 12 })));
    assert!(is_in_range(&ServerEvent::Unknown));
}

#[test]
fn two_copies_replay_to_the_same_room() {
    let events = [
        joined("Alice", 0),
        joined("Bob", 1),
        joined("Carol", 4),
        common(CommonServerEvent::PlayerDisconnected { player_index: 0 }),
        common(CommonServerEvent::GameChanged { game: GameType::Tycoon }),
        ServerEvent::TycoonEvent(TycoonServerEvent::GameStarted {
            turn: 1,
            cards: 0b110,
            other_hands: [2; 8],
        }),
        common(CommonServerEvent::PlayerReconnected { player_index: 0 }),
        common(CommonServerEvent::PlayerLeft { player_index: 1 }),
        common(CommonServerEvent::ResetGame),
        ServerEvent::Unknown,
    ];
    let mut first = Room::default();
    let mut second = Room::default();
    handle_server_events(&mut first, &events, Some(4), false);
    for event in events.iter() {
        handle_server_event(&mut second, event, Some(4), false);
    }
    assert_eq!(first, second);
    assert_eq!(first.host, 0);
    assert_eq!(first.game, GameType::Tycoon);
    assert!(first.players[1].is_none());
    assert_eq!(first.players[0].unwrap().name, pad_name(b"Alice"));
    let mut empty = Room::default();
    handle_server_events(&mut empty, &[], None, true);
    assert_eq!(empty, Room::default());
}

#[test]
fn server_and_client_copies_stay_alike() {
    let mut server = room_of(&[("Alice", 0), ("Bob", 1)]);
    let mut client = Room::default();
    let snapshot = common(CommonServerEvent::RoomJoined { new_room: server, current_player: 1 });
    assert!(receive_server_event(&mut client, &snapshot));
    assert_eq!(client.player_index, 1);
    let events = [
        joined("Carol", 2),
        common(CommonServerEvent::PlayerDisconnected { player_index: 0 }),
        common(CommonServerEvent::GameChanged { game: GameType::Carbo }),
        common(CommonServerEvent::PlayerLeft { player_index: 2 }),
        common(CommonServerEvent::HostChanged { player_index: 1 }),
        common(CommonServerEvent::ResetGame),
    ];
    for event in events.iter() {
        handle_server_event(&mut server, event, None, true);
        assert!(!receive_server_event(&mut client, event));
        let mut alike = client;
        alike.player_index = server.player_index;
        assert_eq!(alike, server);
        assert_eq!(client.player_index, 1);
    }
}

#[test]
fn a_client_replays_its_own_legal_events_at_once() {
    let server = room_of(&[("Alice", 0), ("Bob", 1)]);
    let mut copy = server;
    copy.player_index = 1;
    let change = asks(CommonClientEvent::ChangeGame { game: GameType::Tycoon });
    assert!(!send_event(&mut copy, &change));
    assert_eq!(copy.game, GameType::Coup);
    assert!(send_event(&mut copy, &asks(CommonClientEvent::LeaveRoom)));
    assert!(copy.players[1].is_none());
    assert!(copy.players[0].is_some());

    let mut host = server;
    assert!(send_event(&mut host, &change));
    assert_eq!(host.game, GameType::Tycoon);
    assert!(send_event(&mut host, &asks(CommonClientEvent::Disconnect)));
    assert!(host.players[0].unwrap().disconnected);
    assert_eq!(host.host, 1);
}

#[test]
fn a_client_does_not_foresee_its_own_join() {
    let mut copy = Room::default();
    let before = copy;
    let name = pad_name(b"Alice");
    assert!(send_event(&mut copy, &asks(CommonClientEvent::JoinRoom { name })));
    assert_eq!(copy, before);
}

#[test]
fn a_client_stand_in_replays_only_what_the_client_caused() {
    let start = room_of(&[("Alice", 0), ("Bob", 1)]);
    let left = common(CommonServerEvent::PlayerLeft { player_index: 1 });
    let mut connection = ClientConnection;
    let mut room = start;
    connection.send_to_all(&mut room, left);
    assert_eq!(room, start);
    connection.send_to_all_except(&mut room, left, 0);
    assert_eq!(room, start);
    connection.send_to(&mut room, left, 1);
    assert_eq!(room, start);
    connection.send_to_all_except_origin(&mut room, left, 1);
    assert!(room.players[1].is_none());
}

#[test]
fn common_fields_are_read_and_set() {
    let mut player = Player::default();
    player.set_name(&pad_name(b"Alice"));
    assert_eq!(*player.name(), pad_name(b"Alice"));
    assert!(!player.disconnected());
    player.set_disconnected(true);
    assert!(player.disconnected());
    assert_eq!(*player.name(), pad_name(b"Alice"));

    let mut room = room_of(&[("Alice", 0)]);
    assert_eq!(RoomFields::host(&room), 0);
    room.set_host(5);
    assert_eq!(RoomFields::host(&room), 5);
    assert_eq!(room.host, 5);
    room.set_player_index(3);
    assert_eq!(RoomFields::player_index(&room), 3);
    assert_eq!(room.player_index, 3);
    assert_eq!(RoomFields::players(&room)[0].unwrap().name, pad_name(b"Alice"));
    assert!(RoomFields::players(&room)[1].is_none());
}

#[test]
fn what_a_client_foresees_is_what_the_server_does() {
    let mut server = ServerRoom::new();
    let mut receivers = Vec::new();
    for (id, name) in [(1u128, "Alice"), (2, "Bob"), (3, "Carol")] {
        let (tx, rx) = unbounded_channel();
        receivers.push(rx);
        let slot = match server.handle_connection(tx, id) {
            Admission::AwaitingName(slot) => slot,
            other => panic!("expected to be awaited, got {:?}", other),
        };
        let join = asks(CommonClientEvent::JoinRoom { name: pad_name(name.as_bytes()) });
        assert_eq!(server.process_client_event(&join, slot), Outcome::Applied);
    }
    let steps = [
        (0usize, asks(CommonClientEvent::ChangeGame { game: GameType::Tycoon })),
        (1, asks(CommonClientEvent::ChangeGame { game: GameType::Carbo })),
        (0, asks(CommonClientEvent::ResetGame)),
        (0, ClientEvent::CarboEvent(CarboClientEvent::StartGame)),
        (2, ClientEvent::Unknown),
        (0, asks(CommonClientEvent::Disconnect)),
        (1, asks(CommonClientEvent::ResetGame)),
        (1, asks(CommonClientEvent::LeaveRoom)),
    ];
    for (seat, event) in steps.iter() {
        let mut copy = server.room;
        copy.player_index = *seat as u8;
        let sent = send_event(&mut copy, event);
        let outcome = server.process_client_event(event, *seat);
        assert_eq!(sent, outcome != Outcome::Dropped);
        copy.player_index = server.room.player_index;
        assert_eq!(copy, server.room);
    }
    assert_eq!(server.room.game, GameType::Tycoon);
    assert_eq!(server.room.host, 2);
}
