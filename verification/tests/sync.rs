use syncplaympv::mpv::{MpvCommand, MpvEvent};
use syncplaympv::network::parse_client_event;
use syncplaympv::sync::{
    parse_sync_event, serialize_sync_event, Bridge, BridgeCommand, BridgeStep, SyncEvent,
};

fn seek(time: &str) -> SyncEvent {
    SyncEvent::Seek(time.to_string())
}

#[test]
fn plain_lines() {
    assert_eq!(serialize_sync_event(&SyncEvent::Play), "PLAY\n");
    assert_eq!(serialize_sync_event(&SyncEvent::Pause), "PAUSE\n");
    assert_eq!(serialize_sync_event(&seek("12.5")), "SEEK 12.5\n");
}

#[test]
fn plain_events_round_trip() {
    for ev in [SyncEvent::Play, SyncEvent::Pause, seek("12.5"), seek("0")] {
        assert_eq!(parse_sync_event(&serialize_sync_event(&ev)), Some(ev));
    }
    assert_eq!(parse_sync_event(&serialize_sync_event(&seek(""))), None);
}

#[test]
fn plain_lines_that_carry_nothing() {
    for line in ["", "\n", "PLAYER", "PLAY 1", "play", "SEEK", "SEEK ", "PAUSED"] {
        assert_eq!(parse_sync_event(line), None, "{:?}", line);
    }
    assert_eq!(parse_sync_event("  PLAY \r\n"), Some(SyncEvent::Play));
}

#[test]
fn protocols_are_disjoint() {
    for line in ["PLAY", "PAUSE", "SEEK 1", "SEEK_READY 1", "PAUSE_READY 1", "READY 1", "PING 1"] {
        assert!(parse_sync_event(line).is_none() || parse_client_event(line).is_none());
    }
}

#[test]
fn the_bridge_reports_the_player() {
    let mut b = Bridge::new();
    assert!(b.is_paused);
    assert_eq!(b.on_player_event(MpvEvent::Unpause), BridgeStep::Send(SyncEvent::Play));
    assert!(!b.is_paused);
    assert_eq!(b.on_player_event(MpvEvent::TimePos(5)), BridgeStep::Nothing);
    assert_eq!(b.on_player_event(MpvEvent::Pause), BridgeStep::Send(SyncEvent::Pause));
    assert!(b.is_paused);
    assert_eq!(b.on_player_event(MpvEvent::Disconnected), BridgeStep::Exit);
}

#[test]
fn the_bridge_acts_once() {
    let mut b = Bridge::new();
    assert_eq!(b.on_server_event(SyncEvent::Pause), BridgeCommand::Nothing);
    assert_eq!(b.on_server_event(SyncEvent::Play), BridgeCommand::Tell(MpvCommand::Play));
    assert_eq!(b.on_server_event(SyncEvent::Play), BridgeCommand::Nothing);
    assert_eq!(b.on_server_event(SyncEvent::Pause), BridgeCommand::Tell(MpvCommand::Pause));
    assert_eq!(b.on_server_event(seek("9")), BridgeCommand::SeekTo("9".to_string()));
    assert!(b.is_paused);
}

#[test]
fn own_events_are_harmless() {
    let mut b = Bridge::new();
    b.on_player_event(MpvEvent::Unpause);
    assert_eq!(b.on_server_event(SyncEvent::Play), BridgeCommand::Nothing);
    b.on_player_event(MpvEvent::Pause);
    assert_eq!(b.on_server_event(SyncEvent::Pause), BridgeCommand::Nothing);
}

#[test]
fn the_same_event_brings_agreement() {
    for event in [SyncEvent::Play, SyncEvent::Pause] {
        let mut a = Bridge { is_paused: true, seek_commanded: false };
        let mut b = Bridge { is_paused: false, seek_commanded: false };
        a.on_server_event(event.clone());
        b.on_server_event(event.clone());
        assert_eq!(a, b);
        assert_eq!(a.on_server_event(event), BridgeCommand::Nothing);
    }
}

#[test]
fn plain_events_are_lines() {
    for event in [SyncEvent::Play, SyncEvent::Pause, seek("1:02")] {
        let line = serialize_sync_event(&event);
        assert_eq!(line.find('\n'), Some(line.len() - 1));
    }
}

#[test]
fn a_seek_is_sent_and_not_sent_back() {
    let mut seeker = Bridge::new();
    let mut other = Bridge::new();
    let step = seeker.on_player_seek("12.5".to_string());
    assert_eq!(step, BridgeStep::Send(seek("12.5")));
    let received = parse_sync_event(&serialize_sync_event(&seek("12.5"))).unwrap();
    let command = other.on_server_event(received);
    assert_eq!(command, BridgeCommand::SeekTo("12.5".to_string()));
    assert!(other.is_paused);
    assert_eq!(other.on_player_seek("12.4".to_string()), BridgeStep::Nothing);
    assert_eq!(other.on_player_seek("3".to_string()), BridgeStep::Send(seek("3")));
}
