use syncplaympv::network::{
    parse_client_event, parse_server_event, serialize_client_event, serialize_server_event,
    ClientEvent, ServerEvent,
};

const CLIENT_EVENTS: [ClientEvent; 5] = [
    ClientEvent::Ping(0),
    ClientEvent::Ping(1_700_000_000_123),
    ClientEvent::Ready(42),
    ClientEvent::PauseReady(u64::MAX),
    ClientEvent::SeekReady(9000),
];

const SERVER_EVENTS: [ServerEvent; 6] = [
    ServerEvent::Pong { server_ts_ms: 1, client_ts_ms: 2 },
    ServerEvent::Start { deadline_ms: 150, pos_ms: 42 },
    ServerEvent::PauseAt { deadline_ms: u64::MAX, pos_ms: 0 },
    ServerEvent::SeekAt { deadline_ms: 7, pos_ms: u64::MAX },
    ServerEvent::State { playing: true, pos_ms: 5, playback_started_at_ms: Some(99) },
    ServerEvent::State { playing: false, pos_ms: 6, playback_started_at_ms: Some(0) },
];

#[test]
fn client_lines() {
    assert_eq!(serialize_client_event(&ClientEvent::Ping(17)), "PING 17\n");
    assert_eq!(serialize_client_event(&ClientEvent::Ready(0)), "READY 0\n");
    assert_eq!(serialize_client_event(&ClientEvent::PauseReady(1500)), "PAUSE_READY 1500\n");
    assert_eq!(
        serialize_client_event(&ClientEvent::SeekReady(u64::MAX)),
        "SEEK_READY 18446744073709551615\n"
    );
}

#[test]
fn server_lines() {
    let line = |ev: ServerEvent| serialize_server_event(&ev);
    assert_eq!(line(ServerEvent::Pong { server_ts_ms: 10, client_ts_ms: 20 }), "PONG 10 20\n");
    assert_eq!(line(ServerEvent::Start { deadline_ms: 1, pos_ms: 2 }), "START 1 2\n");
    assert_eq!(line(ServerEvent::PauseAt { deadline_ms: 3, pos_ms: 4 }), "PAUSE_AT 3 4\n");
    assert_eq!(line(ServerEvent::SeekAt { deadline_ms: 5, pos_ms: 6 }), "SEEK_AT 5 6\n");
    assert_eq!(
        line(ServerEvent::State { playing: true, pos_ms: 7, playback_started_at_ms: Some(8) }),
        "STATE 1 7 8\n"
    );
    assert_eq!(
        line(ServerEvent::State { playing: false, pos_ms: 9, playback_started_at_ms: None }),
        "STATE 0 9 0\n"
    );
}

#[test]
fn client_events_round_trip() {
    for ev in CLIENT_EVENTS {
        assert_eq!(parse_client_event(&serialize_client_event(&ev)), Some(ev));
    }
}

#[test]
fn server_events_round_trip() {
    for ev in SERVER_EVENTS {
        assert_eq!(parse_server_event(&serialize_server_event(&ev)), Some(ev));
    }
}

#[test]
fn missing_start_moment_arrives_as_zero() {
    let sent = ServerEvent::State { playing: false, pos_ms: 3, playback_started_at_ms: None };
    let received = ServerEvent::State { playing: false, pos_ms: 3, playback_started_at_ms: Some(0) };
    assert_eq!(parse_server_event(&serialize_server_event(&sent)), Some(received));
}

#[test]
fn every_event_is_one_line() {
    for ev in CLIENT_EVENTS {
        assert_eq!(serialize_client_event(&ev).find('\n'), Some(serialize_client_event(&ev).len() - 1));
    }
    for ev in SERVER_EVENTS {
        assert_eq!(serialize_server_event(&ev).find('\n'), Some(serialize_server_event(&ev).len() - 1));
    }
}

#[test]
fn client_lines_that_are_read() {
    assert_eq!(parse_client_event("PING 5"), Some(ClientEvent::Ping(5)));
    assert_eq!(parse_client_event("  READY 5 \r\n"), Some(ClientEvent::Ready(5)));
    assert_eq!(parse_client_event("PAUSE_READY +5\n"), Some(ClientEvent::PauseReady(5)));
    assert_eq!(parse_client_event("SEEK_READY 005"), Some(ClientEvent::SeekReady(5)));
}

#[test]
fn client_lines_that_carry_nothing() {
    for line in [
        "", "\n", "PING", "PING ", "PING x", "PING  5", "PING 5 6", "PING -1", "ping 5",
        "PING 18446744073709551616", "PONG 1 2", "PLAY", "XPING 5", "READY\t5",
    ] {
        assert_eq!(parse_client_event(line), None, "{:?}", line);
    }
}

#[test]
fn server_lines_that_are_read() {
    assert_eq!(
        parse_server_event("PONG 1   2 rest of it\n"),
        Some(ServerEvent::Pong { server_ts_ms: 1, client_ts_ms: 2 })
    );
    assert_eq!(
        parse_server_event("START  3\t4"),
        Some(ServerEvent::Start { deadline_ms: 3, pos_ms: 4 })
    );
    assert_eq!(
        parse_server_event("STATE yes 4 never"),
        Some(ServerEvent::State { playing: false, pos_ms: 4, playback_started_at_ms: None })
    );
    assert_eq!(
        parse_server_event("STATE 1 4 +9 x"),
        Some(ServerEvent::State { playing: true, pos_ms: 4, playback_started_at_ms: Some(9) })
    );
}

#[test]
fn server_lines_that_carry_nothing() {
    for line in [
        "", "PONG", "PONG 1", "PONG 1 x", "PONG x 1", "START 1", "PAUSE_AT 1 ", "SEEK_AT",
        "STATE 1 2", "STATE 1 x 3", "PING 1", "DISCONNECTED", "START1 2",
    ] {
        assert_eq!(parse_server_event(line), None, "{:?}", line);
    }
}
