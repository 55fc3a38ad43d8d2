use game_rooms::helpers::{get_player, get_player_mut, is_host, is_lobby, num_players};
use game_rooms::types::{pad_name, Player, Room, RoomState};

#[test]
fn new_room_is_an_empty_lobby() {
    let room = Room::default();
    assert!(is_lobby(&room));
    assert!(is_host(&room, 0));
    assert!(!is_host(&room, 1));
    assert_eq!(num_players(&room), 0);
}

#[test]
fn host_is_one_seat_only() {
    let mut room = Room::default();
    room.host = 3;
    assert!(is_host(&room, 3));
    assert!(!is_host(&room, 0));
    assert!(!is_host(&room, 3 + 256));
    assert!(!is_host(&room, usize::MAX));
}

#[test]
fn lobby_is_a_state() {
    let mut room = Room::default();
    room.state = RoomState::InGame;
    assert!(!is_lobby(&room));
    room.state = RoomState::Lobby;
    assert!(is_lobby(&room));
}

#[test]
fn players_are_found_by_seat() {
    let mut room = Room::default();
    room.players[2] = Some(Player::with_name(pad_name(b"Alice")));
    room.players[7] = Some(Player::with_name(pad_name(b"Bob")));
    assert_eq!(get_player(&room, 2).map(|player| player.name), Some(pad_name(b"Alice")));
    assert_eq!(get_player(&room, 7).map(|player| player.name), Some(pad_name(b"Bob")));
    assert!(get_player(&room, 0).is_none());
    assert!(get_player(&room, 8).is_none());
    assert!(get_player(&room, usize::MAX).is_none());
    assert_eq!(num_players(&room), 2);
}

#[test]
fn players_are_changed_in_their_seat() {
    let mut room = Room::default();
    room.players[2] = Some(Player::with_name(pad_name(b"Alice")));
    let before = room;
    assert!(get_player_mut(&mut room, 0).is_none());
    assert!(get_player_mut(&mut room, 8).is_none());
    assert_eq!(room, before);
    let alice = get_player_mut(&mut room, 2).expect("a player");
    alice.disconnected = true;
    alice.coup.coins = 3;
    let changed = room.players[2].unwrap();
    assert!(changed.disconnected);
    assert_eq!(changed.coup.coins, 3);
    assert_eq!(changed.name, pad_name(b"Alice"));
    room.players[2] = before.players[2];
    assert_eq!(room, before);
}

#[test]
fn every_seat_counts_once() {
    let mut room = Room::default();
    for seat in 0..8 {
        room.players[seat] = Some(Player::default());
        assert_eq!(num_players(&room), seat + 1);
    }
    room.players[3] = None;
    assert_eq!(num_players(&room), 7);
}
