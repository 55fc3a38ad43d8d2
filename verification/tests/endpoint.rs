use game_rooms::directory::{Directory, RoomCode};
use game_rooms::endpoint::{
    acceptable_length, frame, parse_request, request_from, JoinRequest, MAX_MESSAGE_LENGTH,
    MIN_MESSAGE_LENGTH,
};
use game_rooms::lifecycle::ConnectionState;
use game_rooms::server::Admission;
use game_rooms::types::Room;
use tokio::sync::mpsc::unbounded_channel;

#[test]
fn room_codes_are_six_bytes() {
    assert_eq!(RoomCode::parse("ABC123"), Some(RoomCode { bytes: *b"ABC123" }));
    assert_eq!(RoomCode::parse("ABC12"), None);
    assert_eq!(RoomCode::parse("ABC1234"), None);
    assert_eq!(RoomCode::parse(""), None);
    assert_eq!(
        RoomCode::parse("ab\u{e9}12"),
        Some(RoomCode { bytes: [97, 98, 0xc3, 0xa9, 49, 50] })
    );
    assert_eq!(RoomCode::parse("\u{e9}\u{e9}\u{e9}\u{e9}\u{e9}\u{e9}"), None);
}

#[test]
fn keys_spell_the_code_lowest_byte_first() {
    assert_eq!(RoomCode { bytes: [0; 6] }.key(), 0);
    assert_eq!(RoomCode { bytes: [1, 0, 0, 0, 0, 0] }.key(), 1);
    assert_eq!(RoomCode { bytes: [0, 1, 0, 0, 0, 0] }.key(), 0x100);
    assert_eq!(RoomCode { bytes: [1, 2, 3, 4, 5, 6] }.key(), 0x0605_0403_0201);
    assert_eq!(RoomCode { bytes: [255; 6] }.key(), 0xffff_ffff_ffff);
    assert_ne!(
        RoomCode::parse("ABC123").unwrap().key(),
        RoomCode::parse("ABC124").unwrap().key()
    );
    assert_ne!(
        RoomCode::parse("ABC123").unwrap().key(),
        RoomCode::parse("321CBA").unwrap().key()
    );
}

#[test]
fn identities_are_read_as_uuids() {
    let request = parse_request("ABC123", "a1a2a3a4-b1b2-c1c2-d1d2-d3d4d5d6d7d8");
    assert_eq!(
        request,
        Some(JoinRequest {
            code: RoomCode { bytes: *b"ABC123" },
            id: 0xa1a2a3a4b1b2c1c2d1d2d3d4d5d6d7d8,
        })
    );
    let simple = parse_request("ABC123", "a1a2a3a4b1b2c1c2d1d2d3d4d5d6d7d8").unwrap();
    assert_eq!(simple.id, 0xa1a2a3a4b1b2c1c2d1d2d3d4d5d6d7d8);
    let other = parse_request("ABC123", "00000000-0000-0000-0000-000000000001").unwrap();
    assert_eq!(other.id, 1);
}

#[test]
fn bad_requests_are_turned_away() {
    assert_eq!(parse_request("ABC123", "not-a-uuid"), None);
    assert_eq!(parse_request("ABC123", ""), None);
    assert_eq!(parse_request("ABC123", "a1a2a3a4-b1b2-c1c2-d1d2-d3d4d5d6d7d"), None);
    assert_eq!(parse_request("ABC12", "a1a2a3a4-b1b2-c1c2-d1d2-d3d4d5d6d7d8"), None);
    assert_eq!(parse_request("ABC1234", "a1a2a3a4-b1b2-c1c2-d1d2-d3d4d5d6d7d8"), None);
    assert_eq!(parse_request("", ""), None);
}

#[test]
fn a_request_needs_both_parts() {
    let code = RoomCode { bytes: *b"ABC123" };
    assert_eq!(request_from(Some(code), Some(7)), Some(JoinRequest { code, id: 7 }));
    assert_eq!(request_from(Some(code), None), None);
    assert_eq!(request_from(None, Some(7)), None);
    assert_eq!(request_from(None, None), None);
}

#[test]
fn messages_of_one_to_a_thousand_bytes_are_looked_at() {
    assert_eq!(MIN_MESSAGE_LENGTH, 1);
    assert_eq!(MAX_MESSAGE_LENGTH, 1000);
    assert!(!acceptable_length(0));
    assert!(acceptable_length(1));
    assert!(acceptable_length(500));
    assert!(acceptable_length(1000));
    assert!(!acceptable_length(1001));
    assert!(!acceptable_length(usize::MAX));
    assert_eq!(frame(&[]), None);
    assert_eq!(frame(&[7]), Some(&[7u8][..]));
    let longest = vec![1u8; 1000];
    assert_eq!(frame(&longest), Some(&longest[..]));
    let too_long = vec![1u8; 1001];
    assert_eq!(frame(&too_long), None);
}

#[test]
fn the_directory_opens_and_drops_rooms() {
    let mut directory = Directory::new();
    let code = RoomCode::parse("ABC123").unwrap();
    let other = RoomCode::parse("XYZ789").unwrap();
    assert!(directory.rooms.is_empty());
    assert!(!directory.contains(&code));

    let room = directory.get_or_create(&code);
    assert!(room.connections.iter().all(|seat| seat.is_none()));
    assert_eq!(room.room, Room::default());
    assert!(directory.contains(&code));
    assert!(!directory.contains(&other));
    assert_eq!(directory.rooms.len(), 1);
    directory.get_or_create(&code);
    assert_eq!(directory.rooms.len(), 1);

    directory.remove_if_empty(&other);
    assert_eq!(directory.rooms.len(), 1);
    directory.remove_if_empty(&code);
    assert!(!directory.contains(&code));

    directory.get_or_create(&code);
    let (tx, _rx) = unbounded_channel();
    let room = directory.rooms.get_mut(&code.key()).unwrap();
    assert_eq!(room.handle_connection(tx, 1), Admission::AwaitingName(0));
    directory.remove_if_empty(&code);
    assert!(directory.contains(&code));
    assert_eq!(directory.get_or_create(&code).connections[0].as_ref().unwrap().id, 1);
}

#[test]
fn rooms_are_apart() {
    let mut directory = Directory::new();
    let code = RoomCode::parse("ABC123").unwrap();
    let other = RoomCode::parse("XYZ789").unwrap();
    let (tx1, _rx1) = unbounded_channel();
    let (tx2, _rx2) = unbounded_channel();
    assert_eq!(directory.connect(&code, 1, tx1), ConnectionState::AwaitingName { slot: 0, id: 1 });
    assert_eq!(directory.connect(&other, 1, tx2), ConnectionState::AwaitingName { slot: 0, id: 1 });
    assert_eq!(directory.rooms.len(), 2);
    assert_eq!(ConnectionState::AwaitingName { slot: 3, id: 9 }.seat(), Some(3));
    assert_eq!(ConnectionState::Joined { slot: 7, id: 9 }.seat(), Some(7));
    assert_eq!(ConnectionState::Joined { slot: 8, id: 9 }.seat(), None);
    assert_eq!(ConnectionState::Connecting.seat(), None);
    assert_eq!(ConnectionState::Disconnected.seat(), None);
    assert_eq!(
        ConnectionState::after_admission(Admission::Reconnected(2), 5),
        ConnectionState::Joined { slot: 2, id: 5 }
    );
    assert_eq!(
        ConnectionState::after_admission(Admission::AwaitingName(2), 5),
        ConnectionState::AwaitingName { slot: 2, id: 5 }
    );
    assert_eq!(
        ConnectionState::after_admission(Admission::Rejected, 5),
        ConnectionState::Disconnected
    );
}
