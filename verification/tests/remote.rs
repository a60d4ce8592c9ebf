use game_of_estimates::remote::{Frame, Reception, RemoteConnection, RemoteMessage};

#[test]
fn new_connection_has_no_ping_out() {
    let conn = RemoteConnection::new(17);
    assert_eq!(conn.last_ping_id, 0);
    assert_eq!(conn.last_ping_start, 17);
}

#[test]
fn ping_carries_a_rolling_counter_low_byte_first() {
    let mut conn = RemoteConnection::new(0);
    assert_eq!(conn.ping(5), Frame::Ping(vec![1, 0]));
    assert_eq!(conn.ping(6), Frame::Ping(vec![2, 0]));
    assert_eq!(conn.last_ping_start, 6);

    let mut conn = RemoteConnection {
        last_ping_start: 0,
        last_ping_id: 255,
    };
    assert_eq!(conn.ping(1), Frame::Ping(vec![0, 1]));
    let mut conn = RemoteConnection {
        last_ping_start: 0,
        last_ping_id: 0x1234,
    };
    assert_eq!(conn.ping(1), Frame::Ping(vec![0x35, 0x12]));
    let mut conn = RemoteConnection {
        last_ping_start: 0,
        last_ping_id: u16::MAX,
    };
    assert_eq!(conn.ping(1), Frame::Ping(vec![0, 0]));
    assert_eq!(conn.last_ping_id, 0);
}

#[test]
fn matching_pong_gives_the_round_trip() {
    let mut conn = RemoteConnection::new(0);
    let payload = match conn.ping(1_000) {
        Frame::Ping(payload) => payload,
        other => panic!("unexpected {:?}", other),
    };
    assert_eq!(
        conn.on_frame(Frame::Pong(payload), 4_500),
        Reception::Message(RemoteMessage::Ping(3_500))
    );
}

#[test]
fn other_pongs_are_dropped() {
    let mut conn = RemoteConnection::new(0);
    conn.ping(1_000);
    conn.ping(2_000);
    assert_eq!(conn.on_frame(Frame::Pong(vec![1, 0]), 3_000), Reception::Skip);
    assert_eq!(conn.on_frame(Frame::Pong(vec![2]), 3_000), Reception::Skip);
    assert_eq!(
        conn.on_frame(Frame::Pong(vec![2, 0, 0]), 3_000),
        Reception::Skip
    );
    assert_eq!(conn.on_frame(Frame::Pong(vec![]), 3_000), Reception::Skip);
    // a clock that went back gives no round trip
    assert_eq!(conn.on_frame(Frame::Pong(vec![2, 0]), 1_999), Reception::Skip);
    assert_eq!(
        conn.on_frame(Frame::Pong(vec![2, 0]), 2_000),
        Reception::Message(RemoteMessage::Ping(0))
    );
}

#[test]
fn ping_is_answered_with_the_same_payload() {
    let conn = RemoteConnection::new(0);
    assert_eq!(
        conn.on_frame(Frame::Ping(vec![9, 8, 7]), 1),
        Reception::Reply(Frame::Pong(vec![9, 8, 7]))
    );
}

#[test]
fn text_is_to_be_decoded_and_close_closes() {
    let conn = RemoteConnection::new(0);
    assert_eq!(
        conn.on_frame(Frame::Text("{\"type\":\"ForceOpen\"}".to_string()), 1),
        Reception::Decode("{\"type\":\"ForceOpen\"}".to_string())
    );
    assert_eq!(
        conn.on_frame(Frame::Close, 1),
        Reception::Message(RemoteMessage::Close)
    );
    assert_eq!(conn.on_end(), Reception::Message(RemoteMessage::Close));
}

#[test]
fn binary_frames_are_an_error() {
    let conn = RemoteConnection::new(0);
    assert_eq!(
        conn.on_frame(Frame::Binary(vec![1, 2]), 1),
        Reception::Unsupported(Frame::Binary(vec![1, 2]))
    );
}
