use syncplaympv::network::clock::{handshake_step, wall_clock_ms, Handshake, PingSample};
use syncplaympv::network::link::LineInput;
use syncplaympv::network::client::{relay_read_step, RelayRead};
use syncplaympv::network::{now_ms, ClockSync, ServerEvent};

fn sample(ping: u64, received: u64, server: u64, echo: u64) -> PingSample {
    PingSample {
        ping_ts_ms: ping,
        pong_received_ms: received,
        server_ts_ms: server,
        client_ts_ms: echo,
    }
}

fn line(text: &str) -> LineInput {
    LineInput::Line(text.to_string())
}

#[test]
fn now_is_after_2020_and_does_not_stand_far_back() {
    let a = now_ms();
    let b = now_ms();
    assert!(a > 1_577_836_800_000);
    assert!(b + 60_000 > a);
}

#[test]
fn wall_clock_is_reduced_to_64_bits() {
    assert_eq!(wall_clock_ms(Some(5)), 5);
    assert_eq!(wall_clock_ms(Some(u64::MAX as u128)), u64::MAX);
    assert_eq!(wall_clock_ms(Some(u64::MAX as u128 + 3)), 2);
    assert_eq!(wall_clock_ms(None), 0);
}

#[test]
fn server_time_to_local_time() {
    assert_eq!(ClockSync { offset_ms: 0 }.server_to_local_ms(1000), 1000);
    assert_eq!(ClockSync { offset_ms: 300 }.server_to_local_ms(1000), 700);
    assert_eq!(ClockSync { offset_ms: -300 }.server_to_local_ms(1000), 1300);
    assert_eq!(ClockSync { offset_ms: 2000 }.server_to_local_ms(1000), 0);
    assert_eq!(ClockSync { offset_ms: 0 }.server_to_local_ms(u64::MAX), 0);
}

#[test]
fn conversion_out_of_range() {
    assert!(ClockSync { offset_ms: 5 }.convertible(0));
    assert!(!ClockSync { offset_ms: i64::MIN }.convertible(0));
    assert!(!ClockSync { offset_ms: i64::MAX }.convertible(1 << 63));
    assert!(ClockSync { offset_ms: 0 }.convertible(u64::MAX));
}

#[test]
fn conversion_undoes_offset() {
    for offset in [-5000i64, 0, 123] {
        let clock = ClockSync { offset_ms: offset };
        let local = 1_700_000_000_000u64;
        assert_eq!(clock.server_to_local_ms((local as i64 + offset) as u64), local);
    }
}

#[test]
fn symmetric_exchange_is_exact() {
    let s = sample(1000, 1040, 1020 + 777, 1000);
    assert!(s.in_range());
    assert_eq!(s.rtt(), 40);
    assert_eq!(s.offset(), 777);
    let clock = ClockSync { offset_ms: s.offset() };
    assert_eq!(clock.server_to_local_ms(s.server_ts_ms), 1020);
}

#[test]
fn offset_rounds_half_the_round_trip_down() {
    assert_eq!(sample(1000, 1005, 2000, 1000).offset(), 998);
    assert_eq!(sample(1000, 900, 2000, 1000).offset(), 1000);
    assert_eq!(sample(1000, 1010, 500, 1000).offset(), -505);
}

#[test]
fn samples_out_of_range() {
    assert!(!sample(0, 10, 0, u64::MAX).in_range());
    assert!(!sample(0, 0, i64::MAX as u64, 1 << 63).in_range());
    assert!(sample(0, 0, u64::MAX, u64::MAX).in_range());
}

#[test]
fn shortest_round_trip_counts() {
    assert_eq!(ClockSync::measure(&vec![]).offset_ms, 0);
    let one = sample(0, 10, 105, 0);
    assert_eq!(ClockSync::measure(&vec![one]).offset_ms, 100);
    let many = vec![sample(0, 10, 105, 0), sample(0, 4, 52, 0), sample(0, 4, 62, 0), sample(0, 9, 9, 0)];
    assert_eq!(ClockSync::measure(&many).offset_ms, 50);
}

#[test]
fn handshake_steps() {
    let done = |offset_ms| Handshake::Done(ClockSync { offset_ms });
    assert_eq!(handshake_step(&line("PONG 1797 1000\n"), 1000, 1040), done(777));
    assert_eq!(
        handshake_step(&line("STATE 1 2 3\n"), 1000, 1040),
        Handshake::Deliver(ServerEvent::State {
            playing: true,
            pos_ms: 2,
            playback_started_at_ms: Some(3),
        })
    );
    assert_eq!(
        handshake_step(&line("SEEK_AT 4 5\n"), 1000, 1040),
        Handshake::Deliver(ServerEvent::SeekAt { deadline_ms: 4, pos_ms: 5 })
    );
    assert_eq!(handshake_step(&line("HELLO\n"), 1000, 1040), Handshake::KeepReading);
    assert_eq!(handshake_step(&line("\n"), 1000, 1040), Handshake::KeepReading);
    assert_eq!(handshake_step(&LineInput::Eof, 1000, 1040), done(0));
    assert_eq!(handshake_step(&LineInput::Failed, 1000, 1040), done(0));
    assert_eq!(
        handshake_step(&line("PONG 0 18446744073709551615\n"), 0, 10),
        Handshake::OutOfRange
    );
}

#[test]
fn clients_meet_at_deadline() {
    let deadline = 1_700_000_000_050u64;
    for offset in [-40i64, 0, 25_000] {
        let clock = ClockSync { offset_ms: offset };
        assert_eq!(clock.server_to_local_ms(deadline) as i64 + offset, deadline as i64);
    }
}

#[test]
fn a_state_before_the_pong_is_the_first_event() {
    let inputs = [line("STATE 0 5000 0\n"), line("PONG 6000 1000\n"), LineInput::Eof];
    let mut events: Vec<ServerEvent> = Vec::new();
    let mut clock = None;
    for input in inputs.iter() {
        if clock.is_none() {
            match handshake_step(input, 1000, 1000) {
                Handshake::Done(measured) => clock = Some(measured),
                Handshake::Deliver(event) => events.push(event),
                other => panic!("{:?}", other),
            }
        } else {
            match relay_read_step(input) {
                RelayRead::Deliver(event) | RelayRead::DeliverLast(event) => events.push(event),
                other => panic!("{:?}", other),
            }
        }
    }
    let state =
        ServerEvent::State { playing: false, pos_ms: 5000, playback_started_at_ms: Some(0) };
    assert_eq!(events, vec![state, ServerEvent::Disconnected]);
    assert_eq!(clock, Some(ClockSync { offset_ms: 5000 }));
}
