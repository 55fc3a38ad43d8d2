use game_rooms::logic::handle_server_event;
use game_rooms::seats::{get_seat_position, seat_of_player, Seats};
use game_rooms::types::{pad_name, CommonServerEvent, Room, ServerEvent};

#[test]
fn styles_place_each_seat() {
    assert_eq!(Seats::CurrentPlayer.as_style(), "top: 100%; left: 50%;");
    assert_eq!(Seats::TopLeft.as_style(), "top: 15%; left: 27%;");
    assert_eq!(Seats::TopMiddle.as_style(), "top: 10%; left: 50%;");
    assert_eq!(Seats::TopRight.as_style(), "top: 15%; left: 73%;");
    assert_eq!(Seats::MiddleTopRight.as_style(), "top: 35%; left: 90%;");
    assert_eq!(Seats::MiddleTopLeft.as_style(), "top: 35%; left: 10%;");
    assert_eq!(Seats::MiddleLeft.as_style(), "top: 50%; left: 10%;");
    assert_eq!(Seats::MiddleRight.as_style(), "top: 50%; left: 90%;");
    assert_eq!(Seats::BottomLeft.as_style(), "top: 70%; left: 12%;");
    assert_eq!(Seats::BottomRight.as_style(), "top: 70%; left: 88%;");
    assert_eq!(Seats::Nowhere.as_style(), "top: 50%; left: 90%;");
}

#[test]
fn the_viewer_sits_at_the_bottom() {
    for players in 1..=8i8 {
        for viewer in 0..players {
            assert_eq!(get_seat_position(viewer, viewer, players), Seats::CurrentPlayer);
        }
    }
}

#[test]
fn tables_have_their_places() {
    let tables: [&[Seats]; 8] = [
        &[Seats::CurrentPlayer],
        &[Seats::CurrentPlayer, Seats::TopMiddle],
        &[Seats::CurrentPlayer, Seats::MiddleLeft, Seats::MiddleRight],
        &[Seats::CurrentPlayer, Seats::MiddleLeft, Seats::TopMiddle, Seats::MiddleRight],
        &[
            Seats::CurrentPlayer,
            Seats::MiddleLeft,
            Seats::TopLeft,
            Seats::TopRight,
            Seats::MiddleRight,
        ],
        &[
            Seats::CurrentPlayer,
            Seats::MiddleLeft,
            Seats::TopLeft,
            Seats::TopMiddle,
            Seats::TopRight,
            Seats::MiddleRight,
        ],
        &[
            Seats::CurrentPlayer,
            Seats::BottomLeft,
            Seats::MiddleTopLeft,
            Seats::TopLeft,
            Seats::TopRight,
            Seats::MiddleTopRight,
            Seats::BottomRight,
        ],
        &[
            Seats::CurrentPlayer,
            Seats::BottomLeft,
            Seats::MiddleTopLeft,
            Seats::TopLeft,
            Seats::TopMiddle,
            Seats::TopRight,
            Seats::MiddleTopRight,
            Seats::BottomRight,
        ],
    ];
    for (index, table) in tables.iter().enumerate() {
        let players = index as i8 + 1;
        for (relative, seat) in table.iter().enumerate() {
            assert_eq!(get_seat_position(0, relative as i8, players), *seat);
            let viewer = players - 1;
            let player = (viewer + relative as i8) % players;
            assert_eq!(get_seat_position(viewer, player, players), *seat);
        }
    }
}

#[test]
fn tables_of_no_size_have_no_places() {
    assert_eq!(get_seat_position(0, 0, 0), Seats::Nowhere);
    assert_eq!(get_seat_position(0, 0, 9), Seats::Nowhere);
    assert_eq!(get_seat_position(0, 0, -1), Seats::Nowhere);
    assert_eq!(get_seat_position(1, 3, i8::MIN), Seats::Nowhere);
    assert_eq!(get_seat_position(1, 3, i8::MAX), Seats::Nowhere);
}

#[test]
fn places_wrap_round_the_table() {
    assert_eq!(get_seat_position(2, 0, 3), Seats::MiddleLeft);
    assert_eq!(get_seat_position(2, 1, 3), Seats::MiddleRight);
    assert_eq!(get_seat_position(3, 1, 4), Seats::TopMiddle);
    assert_eq!(get_seat_position(5, 2, 4), Seats::MiddleLeft);
    assert_eq!(get_seat_position(i8::MIN, i8::MAX, 8), Seats::BottomRight);
    assert_eq!(get_seat_position(i8::MAX, i8::MIN, 8), Seats::BottomLeft);
}

#[test]
fn players_are_placed_by_rank_among_those_present() {
    let mut room = Room::default();
    for seat in [1u8, 4, 6] {
        let joined = ServerEvent::CommonEvent(CommonServerEvent::PlayerJoined {
            name: pad_name(b"Player"),
            player_index: seat,
        });
        handle_server_event(&mut room, &joined, None, true);
    }
    room.player_index = 4;
    assert_eq!(seat_of_player(&room, 4), Seats::CurrentPlayer);
    assert_eq!(seat_of_player(&room, 6), Seats::MiddleLeft);
    assert_eq!(seat_of_player(&room, 1), Seats::MiddleRight);
    assert_eq!(seat_of_player(&room, 0), Seats::MiddleRight);
    assert_eq!(seat_of_player(&room, 9), Seats::MiddleRight);
    room.player_index = 1;
    assert_eq!(seat_of_player(&room, 1), Seats::CurrentPlayer);
    assert_eq!(seat_of_player(&room, 4), Seats::MiddleLeft);
    assert_eq!(seat_of_player(&room, 6), Seats::MiddleRight);
    assert_eq!(seat_of_player(&Room::default(), 0), Seats::Nowhere);
}
