//! Tests for the streaming core: mode tags, frame classification, control
//! message encoding, the subscription ledger, the replay stream and the
//! connection state machine.

use manja::client::ConnectionAction;
use manja::client::ConnectionPhase;
use manja::client::TickerConnection;
use manja::mode::Mode;
use manja::request::TickerRequest;
use manja::stream::KiteStreamCredentials;
use manja::stream::StreamPoll;
use manja::stream::StreamState;
use manja::stream::Subscription;
use manja::stream::SubscriptionStream;
use manja::stream::KITECONNECT_WSS_API_BASE;

fn drain(stream: &mut SubscriptionStream) -> Vec<String> {
    stream.collect_frames()
}

#[test]
fn test_mode_wire_tag_round_trip() {
    for m in [Mode::Full, Mode::Quote, Mode::LTP] {
        assert_eq!(Mode::from_wire_tag(m.wire_tag()), Some(m));
    }
    assert_eq!(Mode::from_wire_tag("FULL"), None);
    assert_eq!(Mode::from_wire_tag(""), None);
    assert_eq!(Mode::from_wire_tag("ltp "), None);
}

#[test]
fn test_mode_wire_tags() {
    assert_eq!(Mode::Full.wire_tag(), "full");
    assert_eq!(Mode::Quote.wire_tag(), "quote");
    assert_eq!(Mode::LTP.wire_tag(), "ltp");
    assert_eq!(Mode::default(), Mode::Quote);
}

#[test]
fn test_mode_from_packet_length() {
    assert_eq!(Mode::try_from(8), Ok(Mode::LTP));
    assert_eq!(Mode::try_from(44), Ok(Mode::Quote));
    assert_eq!(Mode::try_from(184), Ok(Mode::Full));
}

#[test]
fn test_mode_from_invalid_packet_length() {
    assert_eq!(Mode::try_from(0), Err(String::from("Invalid packet size: 0")));
    assert_eq!(Mode::try_from(7), Err(String::from("Invalid packet size: 7")));
    assert_eq!(Mode::try_from(185), Err(String::from("Invalid packet size: 185")));
    assert_eq!(
        Mode::try_from(1048576),
        Err(String::from("Invalid packet size: 1048576"))
    );
}

#[test]
fn test_subscribe_encoding() {
    let request = TickerRequest::subscribe(vec![12345, 67890]);
    assert_eq!(request.to_json(), "{\"a\":\"subscribe\",\"v\":[12345,67890]}");
}

#[test]
fn test_unsubscribe_encoding() {
    let request = TickerRequest::unsubscribe(vec![12345]);
    assert_eq!(request.to_json(), "{\"a\":\"unsubscribe\",\"v\":[12345]}");
}

#[test]
fn test_subscribe_empty_token_list() {
    let request = TickerRequest::subscribe(vec![]);
    assert_eq!(request.to_json(), "{\"a\":\"subscribe\",\"v\":[]}");
}

#[test]
fn test_subscribe_with_mode_encoding() {
    let request = TickerRequest::subscribe_with_mode(vec![408065, 884737], Mode::Full);
    assert_eq!(
        request.to_json(),
        "{\"a\":\"mode\",\"v\":[\"full\",[408065,884737]]}"
    );
}

#[test]
fn test_encoding_token_bounds() {
    let request = TickerRequest::subscribe(vec![0, u32::MAX]);
    assert_eq!(request.to_json(), "{\"a\":\"subscribe\",\"v\":[0,4294967295]}");
}

#[test]
fn test_encoded_frames_are_valid_json() {
    let frames = [
        TickerRequest::subscribe(vec![1, 2, 3]).to_json(),
        TickerRequest::unsubscribe(vec![9]).to_json(),
        TickerRequest::subscribe_with_mode(vec![408065], Mode::LTP).to_json(),
    ];
    for frame in &frames {
        let value: serde_json::Value = serde_json::from_str(frame).unwrap();
        assert!(value.get("a").unwrap().is_string());
        assert!(value.get("v").is_some());
    }
    let value: serde_json::Value = serde_json::from_str(&frames[2]).unwrap();
    assert_eq!(value["a"], "mode");
    assert_eq!(value["v"][0], "ltp");
    assert_eq!(value["v"][1][0], 408065);
}

#[test]
fn test_ledger_uri_construction() {
    let state = StreamState::from_parts("wss://x", "k", "t");
    assert_eq!(state.to_uri(), "wss://x?api_key=k&access_token=t");
}

#[test]
fn test_ledger_from_credentials_default_endpoint() {
    let creds = KiteStreamCredentials::from_parts("key", "token");
    let state = StreamState::from_credentials(creds);
    assert_eq!(state.to_uri(), "wss://ws.kite.trade?api_key=key&access_token=token");
    assert_eq!(KITECONNECT_WSS_API_BASE, "wss://ws.kite.trade");
}

#[test]
fn test_credentials_query_params() {
    let creds = KiteStreamCredentials::from_parts("k", "t");
    assert_eq!(creds.to_query_params(), "api_key=k&access_token=t");
}

#[test]
fn test_replay_single_mode_two_tokens() {
    let state = StreamState::from_parts("wss://x", "k", "t")
        .subscribe_token(Mode::Full, 408065)
        .subscribe_token(Mode::Full, 884737);
    let mut stream = state.to_subcription_stream();
    let frames = drain(&mut stream);
    assert_eq!(frames.len(), 1);
    assert_eq!(frames[0], "{\"a\":\"mode\",\"v\":[\"full\",[408065,884737]]}");
}

#[test]
fn test_replay_two_modes_one_token_each() {
    let state = StreamState::from_parts("wss://x", "k", "t")
        .subscribe_token(Mode::Quote, 1)
        .subscribe_token(Mode::LTP, 2);
    let mut stream = state.to_subcription_stream();
    let frames = drain(&mut stream);
    assert_eq!(frames.len(), 2);
    assert_eq!(frames[0], "{\"a\":\"mode\",\"v\":[\"quote\",[1]]}");
    assert_eq!(frames[1], "{\"a\":\"mode\",\"v\":[\"ltp\",[2]]}");
}

#[test]
fn test_replay_counts_nonempty_buckets() {
    let state = StreamState::from_parts("wss://x", "k", "t")
        .subscribe_token(Mode::Full, 10)
        .subscribe_token(Mode::Quote, 20)
        .subscribe_token(Mode::LTP, 30)
        .subscribe_token(Mode::Full, 11);
    let mut stream = state.to_subcription_stream();
    let frames = drain(&mut stream);
    assert_eq!(frames.len(), 3);
    assert_eq!(frames[0], "{\"a\":\"mode\",\"v\":[\"full\",[10,11]]}");
    assert_eq!(frames[1], "{\"a\":\"mode\",\"v\":[\"quote\",[20]]}");
    assert_eq!(frames[2], "{\"a\":\"mode\",\"v\":[\"ltp\",[30]]}");
}

#[test]
fn test_replay_keeps_duplicates_in_order() {
    let state = StreamState::from_parts("wss://x", "k", "t")
        .subscribe_token(Mode::LTP, 7)
        .subscribe_token(Mode::LTP, 7)
        .subscribe_token(Mode::LTP, 3);
    let mut stream = state.to_subcription_stream();
    let frames = drain(&mut stream);
    assert_eq!(frames.len(), 1);
    assert_eq!(frames[0], "{\"a\":\"mode\",\"v\":[\"ltp\",[7,7,3]]}");
}

#[test]
fn test_empty_ledger_completes_immediately() {
    let state = StreamState::from_parts("wss://x", "k", "t");
    let mut stream = state.to_subcription_stream();
    assert!(matches!(stream.poll_next(), StreamPoll::Complete));
    let state = StreamState::from_parts("wss://x", "k", "t");
    let mut stream = state.to_subcription_stream();
    let frames = drain(&mut stream);
    assert_eq!(frames.len(), 0);
}

#[test]
fn test_poll_protocol_step_by_step() {
    let state = StreamState::from_parts("wss://x", "k", "t")
        .subscribe_token(Mode::Full, 5)
        .subscribe_token(Mode::LTP, 6);
    let mut stream = state.to_subcription_stream();
    match stream.poll_next() {
        StreamPoll::Yielded(frame) => {
            assert_eq!(frame, "{\"a\":\"mode\",\"v\":[\"full\",[5]]}")
        }
        other => panic!("expected a frame, got {:?}", other),
    }
    match stream.poll_next() {
        StreamPoll::Yielded(frame) => {
            assert_eq!(frame, "{\"a\":\"mode\",\"v\":[\"ltp\",[6]]}")
        }
        other => panic!("expected a frame, got {:?}", other),
    }
    assert!(matches!(stream.poll_next(), StreamPoll::Complete));
    assert!(matches!(stream.poll_next(), StreamPoll::Complete));
}

#[test]
fn test_poll_skips_empty_bucket_as_pending() {
    // A hand-built stream may list a key whose bucket is empty: the poll skips
    // it without yielding and asks to be polled again.
    let mut stream = SubscriptionStream {
        data: Subscription {
            full: vec![],
            quote: vec![42],
            ltp: vec![],
        },
        keys: vec![Mode::Full, Mode::Quote],
        current_key_idx: 0,
    };
    assert!(matches!(stream.poll_next(), StreamPoll::Pending));
    match stream.poll_next() {
        StreamPoll::Yielded(frame) => {
            assert_eq!(frame, "{\"a\":\"mode\",\"v\":[\"quote\",[42]]}")
        }
        other => panic!("expected a frame, got {:?}", other),
    }
    assert!(matches!(stream.poll_next(), StreamPoll::Complete));
}

#[test]
fn test_with_subscription_captures_snapshot() {
    let subscription = Subscription {
        full: vec![1],
        quote: vec![],
        ltp: vec![2, 3],
    };
    let mut stream = SubscriptionStream::with_subscription(&subscription);
    assert_eq!(stream.keys, vec![Mode::Full, Mode::LTP]);
    assert_eq!(stream.current_key_idx, 0);
    let frames = drain(&mut stream);
    assert_eq!(frames.len(), 2);
    assert_eq!(frames[0], "{\"a\":\"mode\",\"v\":[\"full\",[1]]}");
    assert_eq!(frames[1], "{\"a\":\"mode\",\"v\":[\"ltp\",[2,3]]}");
}

fn drain_connection(conn: &mut TickerConnection) -> Vec<String> {
    let mut sent = Vec::new();
    loop {
        match conn.replay_step() {
            ConnectionAction::SendFrame(frame) => sent.push(frame),
            ConnectionAction::Idle => {}
            ConnectionAction::ExposeSocket => return sent,
            other => panic!("unexpected action during replay: {:?}", other),
        }
    }
}

#[test]
fn test_connection_lifecycle() {
    let state = StreamState::from_parts("wss://x", "k", "t").subscribe_token(Mode::Quote, 99);
    let mut conn = TickerConnection::new(state);
    assert_eq!(conn.phase(), ConnectionPhase::Disconnected);

    match conn.connect() {
        ConnectionAction::OpenSocket(uri) => {
            assert_eq!(uri, "wss://x?api_key=k&access_token=t")
        }
        other => panic!("expected a socket opening, got {:?}", other),
    }
    assert_eq!(conn.phase(), ConnectionPhase::Connecting);

    // A failed attempt keeps the machine connecting at the same URI.
    match conn.on_socket_failed() {
        ConnectionAction::OpenSocket(uri) => {
            assert_eq!(uri, "wss://x?api_key=k&access_token=t")
        }
        other => panic!("expected a retry, got {:?}", other),
    }
    assert_eq!(conn.phase(), ConnectionPhase::Connecting);

    conn.on_socket_opened();
    assert_eq!(conn.phase(), ConnectionPhase::Replaying);
    let sent = drain_connection(&mut conn);
    assert_eq!(sent, vec![String::from("{\"a\":\"mode\",\"v\":[\"quote\",[99]]}")]);
    assert_eq!(conn.phase(), ConnectionPhase::Connected);

    conn.close();
    assert_eq!(conn.phase(), ConnectionPhase::Closed);
}

#[test]
fn test_reconnection_replays_full_ledger() {
    // Four tokens across two modes; after a connection drop the successful
    // reconnection replays every one of them again, from scratch.
    let state = StreamState::from_parts("wss://x", "k", "t")
        .subscribe_token(Mode::Full, 408065)
        .subscribe_token(Mode::Full, 884737)
        .subscribe_token(Mode::LTP, 1)
        .subscribe_token(Mode::LTP, 2);
    let mut conn = TickerConnection::new(state);
    conn.connect();
    conn.on_socket_opened();
    let first_replay = drain_connection(&mut conn);
    assert_eq!(
        first_replay,
        vec![
            String::from("{\"a\":\"mode\",\"v\":[\"full\",[408065,884737]]}"),
            String::from("{\"a\":\"mode\",\"v\":[\"ltp\",[1,2]]}"),
        ]
    );
    assert_eq!(conn.phase(), ConnectionPhase::Connected);

    // The connection drops; the machine goes back to connecting.
    match conn.on_io_error() {
        ConnectionAction::OpenSocket(uri) => {
            assert_eq!(uri, "wss://x?api_key=k&access_token=t")
        }
        other => panic!("expected a reconnect, got {:?}", other),
    }
    assert_eq!(conn.phase(), ConnectionPhase::Connecting);

    // The socket reopens: the full ledger is replayed again, unchanged.
    conn.on_socket_opened();
    let second_replay = drain_connection(&mut conn);
    assert_eq!(second_replay, first_replay);
    assert_eq!(conn.phase(), ConnectionPhase::Connected);
}

#[test]
fn test_io_error_during_replay_restarts_replay() {
    let state = StreamState::from_parts("wss://x", "k", "t")
        .subscribe_token(Mode::Full, 10)
        .subscribe_token(Mode::Quote, 20);
    let mut conn = TickerConnection::new(state);
    conn.connect();
    conn.on_socket_opened();
    // Send only the first frame, then lose the socket mid-replay.
    match conn.replay_step() {
        ConnectionAction::SendFrame(frame) => {
            assert_eq!(frame, "{\"a\":\"mode\",\"v\":[\"full\",[10]]}")
        }
        other => panic!("expected a frame, got {:?}", other),
    }
    conn.on_io_error();
    conn.on_socket_opened();
    // The replay starts over from the first bucket, not where it stopped.
    let sent = drain_connection(&mut conn);
    assert_eq!(
        sent,
        vec![
            String::from("{\"a\":\"mode\",\"v\":[\"full\",[10]]}"),
            String::from("{\"a\":\"mode\",\"v\":[\"quote\",[20]]}"),
        ]
    );
}

#[test]
fn test_subscribe_token_is_pure_update() {
    let base = StreamState::from_parts("wss://x", "k", "t");
    let one = base.subscribe_token(Mode::Full, 1);
    let two = one.subscribe_token(Mode::Quote, 2);
    let mut stream = two.to_subcription_stream();
    let frames = drain(&mut stream);
    assert_eq!(frames.len(), 2);
    assert_eq!(frames[0], "{\"a\":\"mode\",\"v\":[\"full\",[1]]}");
    assert_eq!(frames[1], "{\"a\":\"mode\",\"v\":[\"quote\",[2]]}");
}
