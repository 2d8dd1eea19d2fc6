use syncplaympv::network::client::{relay_read_step, RelayRead};
use syncplaympv::network::link::LineInput;
use syncplaympv::network::relay::{forwarded, servable, ClientList, Relay, Reply, ServeStep};
use syncplaympv::sync::{serialize_sync_event, SyncEvent};
use syncplaympv::network::{ClientEvent, PlaybackState, RelayClient, RelayServer, ServerEvent};

fn line(text: &str) -> LineInput {
    LineInput::Line(text.to_string())
}

#[test]
fn addresses() {
    assert_eq!(RelayServer::new(4001).listen_address(), "0.0.0.0:4001");
    assert_eq!(RelayServer::new(65535).port, 65535);
    let client = RelayClient::new("counsler.pro".to_string(), 4001);
    assert_eq!(client.address(), "counsler.pro:4001");
    assert_eq!(client.server_addr, "counsler.pro");
}

#[test]
fn position_of_a_state() {
    let playing = PlaybackState { playing: true, start_pos_ms: 1000, wall_start_ms: 500 };
    assert_eq!(playing.position_at(400), 1000);
    assert_eq!(playing.position_at(500), 1000);
    assert_eq!(playing.position_at(750), 1250);
    let paused = PlaybackState { playing: false, start_pos_ms: 1000, wall_start_ms: 0 };
    assert_eq!(paused.position_at(u64::MAX), 1000);
    assert_eq!(paused.current_pos_ms(), 1000);
    let far = PlaybackState { playing: true, start_pos_ms: u64::MAX - 1, wall_start_ms: 0 };
    assert_eq!(far.position_at(10), u64::MAX);
    assert!(playing.current_pos_ms() > 1000);
}

#[test]
fn ping_is_answered_to_its_sender_only() {
    let mut relay = Relay::new();
    let reply = relay.handle_event(ClientEvent::Ping(7), 100);
    assert_eq!(reply, Reply::ToSender(ServerEvent::Pong { server_ts_ms: 100, client_ts_ms: 7 }));
    assert_eq!(relay.state, None);
    let reply = relay.handle_event(ClientEvent::Ping(7), u64::MAX);
    assert_eq!(reply, Reply::ToSender(ServerEvent::Pong { server_ts_ms: u64::MAX, client_ts_ms: 7 }));
}

#[test]
fn ready_starts_everyone() {
    let mut relay = Relay::new();
    let reply = relay.handle_event(ClientEvent::Ready(5000), 100);
    assert_eq!(reply, Reply::ToAll(ServerEvent::Start { deadline_ms: 150, pos_ms: 5000 }));
    let state = PlaybackState { playing: true, start_pos_ms: 5000, wall_start_ms: 150 };
    assert_eq!(relay.state, Some(state));
}

#[test]
fn pause_stops_everyone() {
    let mut relay = Relay::new();
    relay.handle_event(ClientEvent::Ready(5000), 100);
    let reply = relay.handle_event(ClientEvent::PauseReady(6000), 1000);
    assert_eq!(reply, Reply::ToAll(ServerEvent::PauseAt { deadline_ms: 1050, pos_ms: 6000 }));
    let state = PlaybackState { playing: false, start_pos_ms: 6000, wall_start_ms: 0 };
    assert_eq!(relay.state, Some(state));
}

#[test]
fn seek_keeps_playing_or_pausing() {
    let mut relay = Relay::new();
    let reply = relay.handle_event(ClientEvent::SeekReady(1), 100);
    assert_eq!(reply, Reply::ToAll(ServerEvent::SeekAt { deadline_ms: 150, pos_ms: 1 }));
    assert_eq!(relay.state, None);

    relay.handle_event(ClientEvent::Ready(5000), 100);
    relay.handle_event(ClientEvent::SeekReady(9000), 200);
    let playing = PlaybackState { playing: true, start_pos_ms: 9000, wall_start_ms: 250 };
    assert_eq!(relay.state, Some(playing));

    relay.handle_event(ClientEvent::PauseReady(9500), 300);
    relay.handle_event(ClientEvent::SeekReady(10), 400);
    let paused = PlaybackState { playing: false, start_pos_ms: 10, wall_start_ms: 0 };
    assert_eq!(relay.state, Some(paused));
}

#[test]
fn late_joiners_are_told_the_state() {
    let mut relay = Relay::new();
    assert_eq!(relay.greeting(50), None);
    relay.handle_event(ClientEvent::Ready(5000), 100);
    assert_eq!(
        relay.greeting(1150),
        Some(ServerEvent::State { playing: true, pos_ms: 6000, playback_started_at_ms: Some(150) })
    );
    relay.handle_event(ClientEvent::PauseReady(6100), 1300);
    assert_eq!(
        relay.greeting(99_999),
        Some(ServerEvent::State { playing: false, pos_ms: 6100, playback_started_at_ms: None })
    );
}

#[test]
fn serving_lines() {
    let mut relay = Relay::new();
    assert_eq!(
        relay.serve(&line("READY 10\n"), 1000),
        ServeStep::Send(Reply::ToAll(ServerEvent::Start { deadline_ms: 1050, pos_ms: 10 }))
    );
    let before = relay;
    assert_eq!(relay.serve(&line("nonsense\n"), 1000), ServeStep::Ignore);
    assert_eq!(relay.serve(&LineInput::Eof, 1000), ServeStep::Close);
    assert_eq!(relay.serve(&LineInput::Failed, 1000), ServeStep::Close);
    assert_eq!(relay, before);
}

#[test]
fn lines_that_can_be_served() {
    assert!(servable(&line("READY 10\n"), u64::MAX - 50));
    assert!(!servable(&line("READY 10\n"), u64::MAX - 49));
    assert!(!servable(&line("SEEK_READY 10\n"), u64::MAX));
    assert!(servable(&line("PING 10\n"), u64::MAX));
    assert!(servable(&line("PLAY\n"), u64::MAX));
    assert!(servable(&LineInput::Eof, u64::MAX));
    assert!(servable(&LineInput::Failed, u64::MAX));
}

#[test]
fn plain_events_are_forwarded() {
    let seek = SyncEvent::Seek("12.5".to_string());
    for event in [SyncEvent::Play, SyncEvent::Pause, seek] {
        let input = LineInput::Line(serialize_sync_event(&event));
        let mut relay = Relay::new();
        assert_eq!(relay.serve(&input, 1000), ServeStep::Ignore);
        assert_eq!(forwarded(&input), Some(event));
    }
    for text in ["READY 10\n", "PAUSE_READY 1\n", "SEEK_READY 1\n", "PING 1\n", "HELLO\n", "\n"] {
        assert_eq!(forwarded(&line(text)), None, "{:?}", text);
    }
    assert_eq!(forwarded(&LineInput::Eof), None);
    assert_eq!(forwarded(&LineInput::Failed), None);
}

#[test]
fn open_clients_stay_in_order() {
    let mut list: ClientList<&str> = ClientList::new();
    assert_eq!(list.register("a"), 1);
    assert_eq!(list.register("b"), 2);
    assert_eq!(list.register("c"), 3);
    assert_eq!(list.register("d"), 4);
    assert_eq!(list.retain_open(&vec![false, false, false, false]), 4);
    assert_eq!(list.retain_open(&vec![false, true, false, true]), 2);
    assert_eq!(list.clients, vec!["a", "c"]);
    assert_eq!(list.retain_open(&vec![true, true]), 0);
    assert_eq!(list.retain_open(&vec![]), 0);
}

#[test]
fn what_the_client_reads() {
    assert!(matches!(
        relay_read_step(&line("START 1 2\n")),
        RelayRead::Deliver(ServerEvent::Start { deadline_ms: 1, pos_ms: 2 })
    ));
    assert!(matches!(relay_read_step(&line(" \n")), RelayRead::Blank));
    match relay_read_step(&line("  HELLO there \n")) {
        RelayRead::Unknown(text) => assert_eq!(text, "HELLO there"),
        other => panic!("{:?}", other),
    }
    assert!(matches!(
        relay_read_step(&LineInput::Eof),
        RelayRead::DeliverLast(ServerEvent::Disconnected)
    ));
    assert!(matches!(
        relay_read_step(&LineInput::Failed),
        RelayRead::DeliverLast(ServerEvent::Disconnected)
    ));
}
