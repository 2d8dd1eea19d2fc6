//! What holds of the whole: from one participant's player over the relay to everyone's.
use crate::mpv::{MpvCommand, MpvEvent};
use crate::network::clock;
use crate::network::clock::{ClockSync, Handshake};
use crate::network::link::LineInput;
use crate::network::protocol;
use crate::network::protocol::{ClientEvent, ServerEvent};
use crate::network::relay;
use crate::network::relay::{PlaybackState, Reply};
use crate::session;
use crate::session::{Action, Session, Timing};
use crate::sync;
use crate::sync::{Bridge, SyncEventView};
use crate::text;
use vstd::prelude::*;

verus! {

/// What every client reads when a client's event reaches the server at `now_ms`: the event
/// goes to the server as a line, and what the server announces comes back as a line.
pub open spec fn heard(ev: ClientEvent, now_ms: u64) -> Option<ServerEvent> {
    match protocol::client_event_of(protocol::client_line(ev)) {
        Some(received) => match relay::reply_to(received, now_ms) {
            Reply::ToAll(announced) => protocol::server_event_of(protocol::server_line(announced)),
            Reply::ToSender(_) => None,
        },
        None => None,
    }
}

/// When a participant presses play, every client seeks to that participant's position and
/// plays. Where the deadline is still to come, it plays at the deadline.
pub proof fn law_play_reaches_everyone(
    presser: Session,
    pressed_ns: u64,
    now_ms: u64,
    other: Session,
    clock: ClockSync,
    t: Timing,
)
    requires
        !session::suppressed(presser, pressed_ns),
        now_ms + relay::SCHEDULE_DELAY_MS <= u64::MAX,
    ensures
        ({
            let ev = ClientEvent::Ready(presser.current_ms);
            let announced = ServerEvent::Start {
                deadline_ms: relay::deadline_at(now_ms),
                pos_ms: presser.current_ms,
            };
            let actions = session::server_actions(announced, clock, t);
            let instant = session::instant_of(clock, relay::deadline_at(now_ms), t);
            &&& session::player_actions(presser, MpvEvent::Unpause, pressed_ns)[0]
                == Action::Server(ev)
            &&& heard(ev, now_ms) == Some(announced)
            &&& !session::after_server(other, announced).is_paused
            &&& actions[0] == Action::Player(MpvCommand::Seek(presser.current_ms))
            &&& instant > t.now_ns ==> actions[1] == Action::WaitUntil(instant as u128)
            &&& actions[2] == Action::Player(MpvCommand::Play)
        }),
{
    let ev = ClientEvent::Ready(presser.current_ms);
    protocol::law_client_event_round_trip(ev);
    protocol::law_server_event_round_trip(
        ServerEvent::Start {
            deadline_ms: relay::deadline_at(now_ms),
            pos_ms: presser.current_ms,
        },
    );
}

/// When a participant presses pause, every client seeks to that participant's position and
/// pauses there. Where the deadline is still to come, it pauses at the deadline.
pub proof fn law_pause_reaches_everyone(
    presser: Session,
    pressed_ns: u64,
    now_ms: u64,
    other: Session,
    clock: ClockSync,
    t: Timing,
)
    requires
        !session::suppressed(presser, pressed_ns),
        now_ms + relay::SCHEDULE_DELAY_MS <= u64::MAX,
    ensures
        ({
            let ev = ClientEvent::PauseReady(presser.current_ms);
            let announced = ServerEvent::PauseAt {
                deadline_ms: relay::deadline_at(now_ms),
                pos_ms: presser.current_ms,
            };
            let actions = session::server_actions(announced, clock, t);
            let instant = session::instant_of(clock, relay::deadline_at(now_ms), t);
            &&& session::player_actions(presser, MpvEvent::Pause, pressed_ns) == seq![
                Action::Server(ev),
            ]
            &&& heard(ev, now_ms) == Some(announced)
            &&& session::after_server(other, announced).is_paused
            &&& actions[0] == Action::Player(MpvCommand::Seek(presser.current_ms))
            &&& instant > t.now_ns ==> actions[1] == Action::WaitUntil(instant as u128)
                && actions[2] == Action::Player(MpvCommand::Pause)
            &&& actions[actions.len() - 2] == Action::Player(MpvCommand::Pause)
        }),
{
    let ev = ClientEvent::PauseReady(presser.current_ms);
    protocol::law_client_event_round_trip(ev);
    protocol::law_server_event_round_trip(
        ServerEvent::PauseAt {
            deadline_ms: relay::deadline_at(now_ms),
            pos_ms: presser.current_ms,
        },
    );
}

/// When a participant seeks, every client seeks to that position, and goes on playing or
/// pausing as before. Where the deadline is still to come, it seeks at the deadline.
pub proof fn law_seek_reaches_everyone(
    seeker: Session,
    pos_ms: u64,
    sought_ns: u64,
    now_ms: u64,
    other: Session,
    clock: ClockSync,
    t: Timing,
)
    requires
        !session::suppressed(seeker, sought_ns),
        now_ms + relay::SCHEDULE_DELAY_MS <= u64::MAX,
    ensures
        ({
            let ev = ClientEvent::SeekReady(pos_ms);
            let announced = ServerEvent::SeekAt {
                deadline_ms: relay::deadline_at(now_ms),
                pos_ms,
            };
            let actions = session::server_actions(announced, clock, t);
            let instant = session::instant_of(clock, relay::deadline_at(now_ms), t);
            &&& session::seek_actions(seeker, pos_ms, sought_ns) == seq![Action::Server(ev)]
            &&& session::after_seek(seeker, pos_ms, sought_ns).current_ms == pos_ms
            &&& heard(ev, now_ms) == Some(announced)
            &&& session::after_server(other, announced) == other
            &&& instant > t.now_ns ==> actions[0] == Action::WaitUntil(instant as u128)
                && actions.len() == 4
            &&& actions[actions.len() - 2] == Action::Player(MpvCommand::Seek(pos_ms))
        }),
{
    protocol::law_client_event_round_trip(ClientEvent::SeekReady(pos_ms));
    protocol::law_server_event_round_trip(
        ServerEvent::SeekAt { deadline_ms: relay::deadline_at(now_ms), pos_ms },
    );
}

/// When a participant of the plain protocol seeks, the server sends the seek on, and every
/// player is told to seek to that time. The time must not be empty or end in white space.
pub proof fn law_plain_seek_reaches_everyone(seeker: Bridge, time: Seq<char>, other: Bridge)
    requires
        !seeker.seek_commanded,
        time.len() > 0,
        !text::white_space(time.last()),
    ensures
        ({
            let ev = SyncEventView::Seek(time);
            let line = sync::sync_line(ev);
            &&& sync::bridge_seek(seeker, time) == Some(ev)
            &&& relay::forwarded_spec(line) == Some(ev)
            &&& sync::sync_event_of(line) == Some(ev)
            &&& sync::seek_target(ev) == Some(time)
            &&& sync::bridge_after_server(other, ev).is_paused == other.is_paused
        }),
{
    sync::law_sync_event_round_trip(SyncEventView::Seek(time));
    sync::law_protocols_are_disjoint(sync::sync_line(SyncEventView::Seek(time)));
}

/// A client that joins late does what the others do, even while it still waits for its
/// first pong: the state that the server sends it is handed on, it seeks to the shared
/// position of that moment, and plays exactly if they play.
pub proof fn law_late_joiner_follows(
    state: PlaybackState,
    joined_ms: u64,
    line: String,
    ping_ts_ms: u64,
    read_ms: u64,
    joiner: Session,
    clock: ClockSync,
    t: Timing,
)
    requires
        line@ == protocol::server_line(relay::greeting_spec(Some(state), joined_ms)->0),
    ensures
        clock::handshake_spec(LineInput::Line(line), ping_ts_ms, read_ms) matches Handshake::Deliver(
            received,
        ) && {
            &&& protocol::server_event_of(line@) == Some(received)
            &&& session::server_actions(received, clock, t) == session::join_plan(
                state.playing,
                state.pos_at(joined_ms),
            ).push(Action::Suppress)
            &&& session::after_server(joiner, received).is_paused == !state.playing
        },
{
    protocol::law_server_event_round_trip(relay::greeting_spec(Some(state), joined_ms)->0);
}

/// A client that hears of a start too late seeks to where the others are by then: to the
/// shared position at the present moment of the server's clock.
pub proof fn law_late_start_catches_up(
    before: Option<PlaybackState>,
    pos_ms: u64,
    asked_ms: u64,
    clock: ClockSync,
    t: Timing,
)
    requires
        asked_ms + relay::SCHEDULE_DELAY_MS <= i64::MAX,
        clock.local_time(relay::deadline_at(asked_ms)) >= 0,
        clock.server_to_local(relay::deadline_at(asked_ms)) <= t.wall_ms,
        t.base_ns <= t.now_ns,
        session::playable(clock, relay::deadline_at(asked_ms), pos_ms, t),
        t.wall_ms + clock.offset_ms + (t.now_ns - t.base_ns) / session::NS_PER_MS as int
            <= u64::MAX,
    ensures
        ({
            let shared = relay::state_after(before, ClientEvent::Ready(pos_ms), asked_ms)->0;
            let server_now_ms = t.wall_ms + clock.offset_ms + (t.now_ns - t.base_ns)
                / session::NS_PER_MS as int;
            session::play_plan(clock, relay::deadline_at(asked_ms), pos_ms, t)[1]
                == Action::Player(MpvCommand::Seek(shared.pos_at(server_now_ms as u64)))
        }),
{
    session::law_late_news_is_acted_on(clock, relay::deadline_at(asked_ms), pos_ms, t);
}

} // verus!
