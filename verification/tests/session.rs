use syncplaympv::mpv::{MpvCommand, MpvEvent};
use syncplaympv::network::relay::{Relay, Reply, ServeStep};
use syncplaympv::network::link::LineInput;
use syncplaympv::network::{
    parse_server_event, serialize_client_event, serialize_server_event, ClientEvent, ClockSync,
    ServerEvent,
};
use syncplaympv::session::{
    deadline_to_instant, handle_state, schedulable, schedule_pause, schedule_play, schedule_seek,
    Action, Session, Timing,
};

const CLOCK: ClockSync = ClockSync { offset_ms: 100 };
const EARLY: Timing = Timing { wall_ms: 1000, base_ns: 5_000_000, now_ns: 5_000_100 };
const LATE: Timing = Timing { wall_ms: 9000, base_ns: 5_000_000, now_ns: 8_900_000 };

fn seek(ms: u64) -> Action {
    Action::Player(MpvCommand::Seek(ms))
}

const PLAY: Action = Action::Player(MpvCommand::Play);
const PAUSE: Action = Action::Player(MpvCommand::Pause);

#[test]
fn deadlines_on_the_monotonic_clock() {
    assert_eq!(deadline_to_instant(&CLOCK, 1150, &EARLY), 55_000_000);
    assert_eq!(deadline_to_instant(&CLOCK, 1100, &EARLY), 5_000_000);
    assert_eq!(deadline_to_instant(&CLOCK, 50, &EARLY), 5_000_000);
    let far = deadline_to_instant(&ClockSync { offset_ms: 0 }, i64::MAX as u64, &EARLY);
    assert_eq!(far, 5_000_000 + (i64::MAX as u128 - 1000) * 1_000_000);
}

#[test]
fn scheduled_play() {
    assert_eq!(
        schedule_play(&CLOCK, 1150, 700, &EARLY),
        vec![seek(700), Action::WaitUntil(55_000_000), PLAY]
    );
    assert_eq!(schedule_play(&CLOCK, 1150, 700, &LATE), vec![seek(700), seek(8653), PLAY]);
}

#[test]
fn scheduled_pause() {
    assert_eq!(
        schedule_pause(&CLOCK, 1150, 700, &EARLY),
        vec![seek(700), Action::WaitUntil(55_000_000), PAUSE]
    );
    assert_eq!(schedule_pause(&CLOCK, 1150, 700, &LATE), vec![seek(700), PAUSE]);
}

#[test]
fn scheduled_seek() {
    assert_eq!(
        schedule_seek(&CLOCK, 1150, 700, &EARLY),
        vec![Action::WaitUntil(55_000_000), Action::SetTime(700), seek(700)]
    );
    assert_eq!(schedule_seek(&CLOCK, 1150, 700, &LATE), vec![Action::SetTime(700), seek(700)]);
}

#[test]
fn joining_late() {
    assert_eq!(handle_state(true, 700), vec![seek(700), Action::SetTime(700), PLAY]);
    assert_eq!(handle_state(false, 700), vec![seek(700), Action::SetTime(700)]);
}

#[test]
fn a_new_session_is_paused() {
    let s = Session::new();
    assert!(s.is_paused);
    assert_eq!(s.current_ms, 0);
    assert_eq!(s.suppress_until, None);
}

#[test]
fn play_is_announced_and_held() {
    let mut s = Session::new();
    assert_eq!(s.on_player_event(MpvEvent::TimePos(1234), 0), vec![]);
    assert_eq!(
        s.on_player_event(MpvEvent::Unpause, 10),
        vec![Action::Server(ClientEvent::Ready(1234)), Action::Suppress, PAUSE]
    );
    assert!(s.is_paused);
}

#[test]
fn pause_is_announced() {
    let mut s = Session::new();
    s.is_paused = false;
    s.set_time(55);
    assert_eq!(
        s.on_player_event(MpvEvent::Pause, 10),
        vec![Action::Server(ClientEvent::PauseReady(55))]
    );
    assert!(s.is_paused);
}

#[test]
fn echoes_are_silent() {
    let mut s = Session::new();
    s.suppress(1000);
    let before = s;
    assert_eq!(s.on_player_event(MpvEvent::Pause, 1000), vec![]);
    assert_eq!(s.on_player_event(MpvEvent::Unpause, 400_000_999), vec![]);
    assert_eq!(s, before);
    assert_eq!(
        s.on_player_event(MpvEvent::Pause, 400_001_000),
        vec![Action::Server(ClientEvent::PauseReady(0))]
    );
    assert_eq!(s.suppress_until, None);
}

#[test]
fn a_seek_is_announced() {
    let mut s = Session::new();
    assert_eq!(
        s.on_player_seek(9000, 10),
        vec![Action::Server(ClientEvent::SeekReady(9000))]
    );
    assert_eq!(s.current_ms, 9000);
    assert!(s.is_paused);
    s.suppress(1000);
    assert_eq!(s.on_player_seek(20, 400_000_999), vec![]);
    assert_eq!(s.current_ms, 20);
    assert_eq!(s.suppress_until, Some(400_001_000));
    assert_eq!(
        s.on_player_seek(30, 400_001_000),
        vec![Action::Server(ClientEvent::SeekReady(30))]
    );
    assert_eq!(s.suppress_until, None);
}

#[test]
fn a_late_start_catches_up() {
    let mut relay = Relay::new();
    let reply = relay.handle_event(ClientEvent::Ready(5000), 950);
    assert_eq!(reply, Reply::ToAll(ServerEvent::Start { deadline_ms: 1000, pos_ms: 5000 }));
    let clock = ClockSync { offset_ms: 300 };
    let t = Timing { wall_ms: 2000, base_ns: 0, now_ns: 4_000_000 };
    let shared = relay.state.unwrap().position_at(2304);
    assert_eq!(shared, 6304);
    assert_eq!(schedule_play(&clock, 1000, 5000, &t), vec![seek(5000), seek(shared), PLAY]);
}

#[test]
fn a_lost_player_ends_the_session() {
    assert_eq!(Session::new().on_player_event(MpvEvent::Disconnected, 0), vec![Action::Exit]);
}

#[test]
fn server_events() {
    let mut s = Session::new();
    let start = ServerEvent::Start { deadline_ms: 1150, pos_ms: 700 };
    assert_eq!(
        s.on_server_event(start, &CLOCK, &EARLY),
        vec![seek(700), Action::WaitUntil(55_000_000), PLAY, Action::Suppress]
    );
    assert!(!s.is_paused);
    let seek_at = ServerEvent::SeekAt { deadline_ms: 1150, pos_ms: 9 };
    assert_eq!(
        s.on_server_event(seek_at, &CLOCK, &LATE),
        vec![Action::SetTime(9), seek(9), Action::Suppress]
    );
    assert!(!s.is_paused);
    let pause = ServerEvent::PauseAt { deadline_ms: 1150, pos_ms: 8 };
    assert_eq!(
        s.on_server_event(pause, &CLOCK, &LATE),
        vec![seek(8), PAUSE, Action::Suppress]
    );
    assert!(s.is_paused);
    let state = ServerEvent::State { playing: true, pos_ms: 7, playback_started_at_ms: None };
    assert_eq!(
        s.on_server_event(state, &CLOCK, &LATE),
        vec![seek(7), Action::SetTime(7), PLAY, Action::Suppress]
    );
    assert!(!s.is_paused);
    let before = s;
    let pong = ServerEvent::Pong { server_ts_ms: 1, client_ts_ms: 2 };
    assert_eq!(s.on_server_event(pong, &CLOCK, &LATE), vec![]);
    assert_eq!(s.on_server_event(ServerEvent::Disconnected, &CLOCK, &LATE), vec![]);
    assert_eq!(s, before);
}

#[test]
fn events_out_of_range() {
    let clock = ClockSync { offset_ms: i64::MIN };
    let start = ServerEvent::Start { deadline_ms: 1, pos_ms: 1 };
    assert!(!schedulable(&start, &clock, &EARLY));
    assert!(!schedulable(&ServerEvent::PauseAt { deadline_ms: 1, pos_ms: 1 }, &clock, &EARLY));
    assert!(!schedulable(&ServerEvent::SeekAt { deadline_ms: 1, pos_ms: 1 }, &clock, &EARLY));
    assert!(schedulable(&ServerEvent::Disconnected, &clock, &EARLY));
    assert!(schedulable(&start, &CLOCK, &LATE));
    let last = ServerEvent::Start { deadline_ms: 1, pos_ms: u64::MAX };
    assert!(!schedulable(&last, &CLOCK, &LATE));
    assert!(schedulable(&ServerEvent::Start { deadline_ms: 9999, pos_ms: u64::MAX }, &CLOCK, &EARLY));
}

#[test]
fn a_press_of_play_reaches_another_client() {
    let mut presser = Session::new();
    presser.set_time(4321);
    let sent = presser.on_player_event(MpvEvent::Unpause, 0);
    let Action::Server(event) = sent[0] else {
        panic!("{:?}", sent);
    };
    let mut relay = Relay::new();
    let step = relay.serve(&LineInput::Line(serialize_client_event(&event)), 1000);
    let ServeStep::Send(Reply::ToAll(announced)) = step else {
        panic!("{:?}", step);
    };
    let received = parse_server_event(&serialize_server_event(&announced)).unwrap();
    let mut other = Session::new();
    assert_eq!(
        other.on_server_event(received, &ClockSync { offset_ms: 0 }, &EARLY),
        vec![seek(4321), Action::WaitUntil(55_000_000), PLAY, Action::Suppress]
    );
    assert!(!other.is_paused);

    let greeting = relay.greeting(2050).unwrap();
    let told = parse_server_event(&serialize_server_event(&greeting)).unwrap();
    assert_eq!(
        Session::new().on_server_event(told, &ClockSync { offset_ms: 0 }, &EARLY),
        vec![seek(5321), Action::SetTime(5321), PLAY, Action::Suppress]
    );
}

#[test]
fn a_press_of_pause_and_a_seek_reach_another_client() {
    let mut relay = Relay::new();
    let mut presser = Session::new();
    presser.set_time(77);
    let sent = presser.on_player_event(MpvEvent::Pause, 0);
    assert_eq!(sent, vec![Action::Server(ClientEvent::PauseReady(77))]);
    let step = relay.serve(&LineInput::Line("PAUSE_READY 77\n".to_string()), 1000);
    let announced = ServerEvent::PauseAt { deadline_ms: 1050, pos_ms: 77 };
    assert_eq!(step, ServeStep::Send(Reply::ToAll(announced)));
    assert_eq!(relay.state.unwrap().position_at(1050), 77);
    let mut other = Session::new();
    other.is_paused = false;
    let clock = ClockSync { offset_ms: 0 };
    assert_eq!(
        other.on_server_event(announced, &clock, &EARLY),
        vec![seek(77), Action::WaitUntil(55_000_000), PAUSE, Action::Suppress]
    );
    assert!(other.is_paused);

    let mut seeker = Session::new();
    let sent = seeker.on_player_seek(5, 0);
    assert_eq!(sent, vec![Action::Server(ClientEvent::SeekReady(5))]);
    let step = relay.serve(&LineInput::Line("SEEK_READY 5\n".to_string()), 1000);
    let announced = ServerEvent::SeekAt { deadline_ms: 1050, pos_ms: 5 };
    assert_eq!(step, ServeStep::Send(Reply::ToAll(announced)));
    let before = other;
    assert_eq!(
        other.on_server_event(announced, &clock, &EARLY),
        vec![Action::WaitUntil(55_000_000), Action::SetTime(5), seek(5), Action::Suppress]
    );
    assert_eq!(other, before);
}

#[test]
fn late_news_is_acted_on_at_once() {
    let t = Timing { wall_ms: 5000, base_ns: 1_000_000, now_ns: 3_500_000 };
    let clock = ClockSync { offset_ms: 0 };
    assert_eq!(schedule_play(&clock, 5000, 10, &t), vec![seek(10), seek(12), PLAY]);
    assert_eq!(schedule_pause(&clock, 4000, 10, &t), vec![seek(10), PAUSE]);
    let at_once = Timing { wall_ms: 2000, base_ns: 7, now_ns: 7 };
    assert_eq!(schedule_play(&clock, 1000, 5000, &at_once), vec![seek(5000), seek(6000), PLAY]);
    let ahead = ClockSync { offset_ms: 300 };
    assert_eq!(schedule_play(&ahead, 1000, 5000, &at_once), vec![seek(5000), seek(6300), PLAY]);
    let passed = Timing { wall_ms: 990, base_ns: 0, now_ns: 12_000_000 };
    assert_eq!(schedule_play(&clock, 1000, 5000, &passed), vec![seek(5000), seek(5002), PLAY]);
}
