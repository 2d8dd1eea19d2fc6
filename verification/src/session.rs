//! A client's session: how it reacts to its player and to the relay server.
//!
//! The session decides; whoever runs it performs the actions in order. Moments of the
//! monotonic clock are nanoseconds since a fixed start.
use crate::mpv::{MpvCommand, MpvEvent};
use crate::network::clock::ClockSync;
use crate::network::protocol::{ClientEvent, ServerEvent};
use vstd::prelude::*;

verus! {

/// How long the player's reports are taken for echoes of the session's own commands.
pub const SUPPRESS_NS: u64 = 400_000_000;

/// The nanoseconds in a millisecond.
pub const NS_PER_MS: u64 = 1_000_000;

/// Something to do.
#[derive(Debug, Clone, Copy, PartialEq, Eq, Structural)]
pub enum Action {
    /// Send a command to the player.
    Player(MpvCommand),
    /// Send an event to the server.
    Server(ClientEvent),
    /// Wait until this moment of the monotonic clock.
    WaitUntil(u128),
    /// Take this position (ms) for the playback time: hand it back through `set_time`.
    SetTime(u64),
    /// Start to disregard the player's reports: call `suppress` with the current moment.
    Suppress,
    /// End the session.
    Exit,
}

/// The clocks when a scheduled action is planned.
#[derive(Debug, Clone, Copy, PartialEq, Eq, Structural)]
pub struct Timing {
    /// The local wall clock (ms).
    pub wall_ms: u64,
    /// The monotonic clock from which the delay counts.
    pub base_ns: u64,
    /// The monotonic clock when the plan is made.
    pub now_ns: u64,
}

/// The moment of the monotonic clock that belongs to a deadline on the server's clock.
pub open spec fn instant_of(clock: ClockSync, deadline_ms: u64, t: Timing) -> int {
    let local = clock.server_to_local(deadline_ms);
    let delay_ms = if local > t.wall_ms {
        local - t.wall_ms
    } else {
        0
    };
    t.base_ns + delay_ms * NS_PER_MS
}

/// How far a deadline lies in the past, in whole milliseconds: what the wall clock shows
/// beyond it, and the time since the wall clock was read.
pub open spec fn late_ms(clock: ClockSync, deadline_ms: u64, t: Timing) -> int {
    t.wall_ms - clock.server_to_local(deadline_ms) + (t.now_ns - t.base_ns) / NS_PER_MS as int
}

/// The wait for a deadline that is still to come.
pub open spec fn wait_plan(clock: ClockSync, deadline_ms: u64, t: Timing) -> Seq<Action> {
    if instant_of(clock, deadline_ms, t) > t.now_ns {
        seq![Action::WaitUntil(instant_of(clock, deadline_ms, t) as u128)]
    } else {
        Seq::empty()
    }
}

/// Seek, wait, play; a deadline that has passed is made up for by a seek further on.
pub open spec fn play_plan(clock: ClockSync, deadline_ms: u64, pos_ms: u64, t: Timing) -> Seq<
    Action,
> {
    let then = if instant_of(clock, deadline_ms, t) > t.now_ns {
        Action::WaitUntil(instant_of(clock, deadline_ms, t) as u128)
    } else {
        Action::Player(MpvCommand::Seek((pos_ms + late_ms(clock, deadline_ms, t)) as u64))
    };
    seq![Action::Player(MpvCommand::Seek(pos_ms)), then, Action::Player(MpvCommand::Play)]
}

/// Seek, wait, pause.
pub open spec fn pause_plan(clock: ClockSync, deadline_ms: u64, pos_ms: u64, t: Timing) -> Seq<
    Action,
> {
    seq![Action::Player(MpvCommand::Seek(pos_ms))] + wait_plan(clock, deadline_ms, t)
        + seq![Action::Player(MpvCommand::Pause)]
}

/// Wait, then seek.
pub open spec fn seek_plan(clock: ClockSync, deadline_ms: u64, pos_ms: u64, t: Timing) -> Seq<
    Action,
> {
    wait_plan(clock, deadline_ms, t) + seq![
        Action::SetTime(pos_ms),
        Action::Player(MpvCommand::Seek(pos_ms)),
    ]
}

/// Join the others: seek to where they are, and play if they play.
pub open spec fn join_plan(playing: bool, pos_ms: u64) -> Seq<Action> {
    let seek = seq![Action::Player(MpvCommand::Seek(pos_ms)), Action::SetTime(pos_ms)];
    if playing {
        seek.push(Action::Player(MpvCommand::Play))
    } else {
        seek
    }
}

/// The arithmetic of a scheduled start stays within 64 bits.
pub open spec fn playable(clock: ClockSync, deadline_ms: u64, pos_ms: u64, t: Timing) -> bool {
    &&& clock.convertible_spec(deadline_ms)
    &&& instant_of(clock, deadline_ms, t) <= t.now_ns ==> pos_ms + late_ms(clock, deadline_ms, t)
        <= u64::MAX
}

/// The arithmetic that an event asks for stays within 64 bits.
pub open spec fn schedulable_spec(ev: ServerEvent, clock: ClockSync, t: Timing) -> bool {
    match ev {
        ServerEvent::Start { deadline_ms, pos_ms } => playable(clock, deadline_ms, pos_ms, t),
        ServerEvent::PauseAt { deadline_ms, .. } => clock.convertible_spec(deadline_ms),
        ServerEvent::SeekAt { deadline_ms, .. } => clock.convertible_spec(deadline_ms),
        _ => true,
    }
}

/// The moment of the monotonic clock that belongs to a deadline on the server's clock.
pub fn deadline_to_instant(clock: &ClockSync, deadline_ms: u64, t: &Timing) -> (r: u128)
    requires
        clock.convertible_spec(deadline_ms),
    ensures
        r == instant_of(*clock, deadline_ms, *t),
{
    let local = clock.server_to_local_ms(deadline_ms);
    let delay_ms = local.saturating_sub(t.wall_ms);
    t.base_ns as u128 + delay_ms as u128 * NS_PER_MS as u128
}

/// How far a deadline that has passed lies in the past.
fn lateness(clock: &ClockSync, deadline_ms: u64, t: &Timing) -> (r: u128)
    requires
        clock.convertible_spec(deadline_ms),
        instant_of(*clock, deadline_ms, *t) <= t.now_ns,
    ensures
        r == late_ms(*clock, deadline_ms, *t),
{
    let local = clock.server_to_local_ms(deadline_ms);
    let since_read = ((t.now_ns - t.base_ns) / NS_PER_MS) as u128;
    t.wall_ms as u128 + since_read - local as u128
}

/// The actions for a scheduled start of playback.
pub fn schedule_play(clock: &ClockSync, deadline_ms: u64, pos_ms: u64, t: &Timing) -> (r: Vec<
    Action,
>)
    requires
        playable(*clock, deadline_ms, pos_ms, *t),
    ensures
        r@ == play_plan(*clock, deadline_ms, pos_ms, *t),
{
    let instant = deadline_to_instant(clock, deadline_ms, t);
    let mut r: Vec<Action> = Vec::new();
    r.push(Action::Player(MpvCommand::Seek(pos_ms)));
    if instant > t.now_ns as u128 {
        r.push(Action::WaitUntil(instant));
    } else {
        let late = lateness(clock, deadline_ms, t);
        r.push(Action::Player(MpvCommand::Seek((pos_ms as u128 + late) as u64)));
    }
    r.push(Action::Player(MpvCommand::Play));
    assert(r@ =~= play_plan(*clock, deadline_ms, pos_ms, *t));
    r
}

/// The actions for a scheduled pause.
pub fn schedule_pause(clock: &ClockSync, deadline_ms: u64, pos_ms: u64, t: &Timing) -> (r: Vec<
    Action,
>)
    requires
        clock.convertible_spec(deadline_ms),
    ensures
        r@ == pause_plan(*clock, deadline_ms, pos_ms, *t),
{
    let instant = deadline_to_instant(clock, deadline_ms, t);
    let mut r: Vec<Action> = Vec::new();
    r.push(Action::Player(MpvCommand::Seek(pos_ms)));
    if instant > t.now_ns as u128 {
        r.push(Action::WaitUntil(instant));
    }
    r.push(Action::Player(MpvCommand::Pause));
    assert(r@ =~= pause_plan(*clock, deadline_ms, pos_ms, *t));
    r
}

/// The actions for a scheduled seek.
pub fn schedule_seek(clock: &ClockSync, deadline_ms: u64, pos_ms: u64, t: &Timing) -> (r: Vec<
    Action,
>)
    requires
        clock.convertible_spec(deadline_ms),
    ensures
        r@ == seek_plan(*clock, deadline_ms, pos_ms, *t),
{
    let instant = deadline_to_instant(clock, deadline_ms, t);
    let mut r: Vec<Action> = Vec::new();
    if instant > t.now_ns as u128 {
        r.push(Action::WaitUntil(instant));
    }
    r.push(Action::SetTime(pos_ms));
    r.push(Action::Player(MpvCommand::Seek(pos_ms)));
    assert(r@ =~= seek_plan(*clock, deadline_ms, pos_ms, *t));
    r
}

/// The actions with which a late client joins the others.
pub fn handle_state(playing: bool, pos_ms: u64) -> (r: Vec<Action>)
    ensures
        r@ == join_plan(playing, pos_ms),
{
    let mut r: Vec<Action> = Vec::new();
    r.push(Action::Player(MpvCommand::Seek(pos_ms)));
    r.push(Action::SetTime(pos_ms));
    if playing {
        r.push(Action::Player(MpvCommand::Play));
    }
    assert(r@ =~= join_plan(playing, pos_ms));
    r
}

/// Tells whether the arithmetic that an event asks for stays within 64 bits.
pub fn schedulable(ev: &ServerEvent, clock: &ClockSync, t: &Timing) -> (r: bool)
    ensures
        r == schedulable_spec(*ev, *clock, *t),
{
    match *ev {
        ServerEvent::Start { deadline_ms, pos_ms } => {
            if !clock.convertible(deadline_ms) {
                return false;
            }
            let instant = deadline_to_instant(clock, deadline_ms, t);
            if instant > t.now_ns as u128 {
                true
            } else {
                pos_ms as u128 + lateness(clock, deadline_ms, t) <= u64::MAX as u128
            }
        },
        ServerEvent::PauseAt { deadline_ms, .. } => clock.convertible(deadline_ms),
        ServerEvent::SeekAt { deadline_ms, .. } => clock.convertible(deadline_ms),
        _ => true,
    }
}

/// The state of a session.
#[derive(Debug, Clone, Copy, PartialEq, Eq, Structural)]
pub struct Session {
    pub is_paused: bool,
    /// The playback time in whole milliseconds.
    pub current_ms: u64,
    /// Until when the player's reports are disregarded.
    pub suppress_until: Option<u128>,
}

/// The player's reports at this moment are taken for echoes.
pub open spec fn suppressed(s: Session, now_ns: u64) -> bool {
    match s.suppress_until {
        Some(until) => now_ns < until,
        None => false,
    }
}

/// The session after a report of the player.
pub open spec fn after_player(s: Session, ev: MpvEvent, now_ns: u64) -> Session {
    match ev {
        MpvEvent::Pause | MpvEvent::Unpause => if suppressed(s, now_ns) {
            s
        } else {
            Session { is_paused: true, current_ms: s.current_ms, suppress_until: None }
        },
        MpvEvent::TimePos(ms) => Session {
            is_paused: s.is_paused,
            current_ms: ms,
            suppress_until: s.suppress_until,
        },
        MpvEvent::Disconnected => s,
    }
}

/// What a report of the player leads to. A press of play is announced to the server, and
/// the player is held until the server starts everyone.
pub open spec fn player_actions(s: Session, ev: MpvEvent, now_ns: u64) -> Seq<Action> {
    match ev {
        MpvEvent::Pause => if suppressed(s, now_ns) {
            Seq::empty()
        } else {
            seq![Action::Server(ClientEvent::PauseReady(s.current_ms))]
        },
        MpvEvent::Unpause => if suppressed(s, now_ns) {
            Seq::empty()
        } else {
            seq![
                Action::Server(ClientEvent::Ready(s.current_ms)),
                Action::Suppress,
                Action::Player(MpvCommand::Pause),
            ]
        },
        MpvEvent::TimePos(_) => Seq::empty(),
        MpvEvent::Disconnected => seq![Action::Exit],
    }
}

/// The session after its user sought to a position.
pub open spec fn after_seek(s: Session, ms: u64, now_ns: u64) -> Session {
    Session {
        is_paused: s.is_paused,
        current_ms: ms,
        suppress_until: if suppressed(s, now_ns) {
            s.suppress_until
        } else {
            None
        },
    }
}

/// A seek of the user is announced to the server.
pub open spec fn seek_actions(s: Session, ms: u64, now_ns: u64) -> Seq<Action> {
    if suppressed(s, now_ns) {
        Seq::empty()
    } else {
        seq![Action::Server(ClientEvent::SeekReady(ms))]
    }
}

/// The session after an event of the server.
pub open spec fn after_server(s: Session, ev: ServerEvent) -> Session {
    let is_paused = match ev {
        ServerEvent::Start { .. } => false,
        ServerEvent::PauseAt { .. } => true,
        ServerEvent::State { playing, .. } => !playing,
        _ => s.is_paused,
    };
    Session { is_paused, current_ms: s.current_ms, suppress_until: s.suppress_until }
}

/// What an event of the server leads to.
pub open spec fn server_actions(ev: ServerEvent, clock: ClockSync, t: Timing) -> Seq<Action> {
    match ev {
        ServerEvent::Start { deadline_ms, pos_ms } => play_plan(
            clock,
            deadline_ms,
            pos_ms,
            t,
        ).push(Action::Suppress),
        ServerEvent::PauseAt { deadline_ms, pos_ms } => pause_plan(
            clock,
            deadline_ms,
            pos_ms,
            t,
        ).push(Action::Suppress),
        ServerEvent::SeekAt { deadline_ms, pos_ms } => seek_plan(
            clock,
            deadline_ms,
            pos_ms,
            t,
        ).push(Action::Suppress),
        ServerEvent::State { playing, pos_ms, .. } => join_plan(playing, pos_ms).push(
            Action::Suppress,
        ),
        ServerEvent::Pong { .. } => Seq::empty(),
        ServerEvent::Disconnected => Seq::empty(),
    }
}

impl Session {
    /// A session begins paused, at the start of the file.
    pub fn new() -> (r: Session)
        ensures
            r == (Session { is_paused: true, current_ms: 0, suppress_until: None }),
    {
        Session { is_paused: true, current_ms: 0, suppress_until: None }
    }

    /// Records the playback time.
    pub fn set_time(&mut self, ms: u64)
        ensures
            *final(self) == (Session {
                is_paused: old(self).is_paused,
                current_ms: ms,
                suppress_until: old(self).suppress_until,
            }),
    {
        self.current_ms = ms;
    }

    /// Disregards the player's reports from now on for a while.
    pub fn suppress(&mut self, now_ns: u64)
        ensures
            *final(self) == (Session {
                is_paused: old(self).is_paused,
                current_ms: old(self).current_ms,
                suppress_until: Some((now_ns + SUPPRESS_NS) as u128),
            }),
    {
        self.suppress_until = Some(now_ns as u128 + SUPPRESS_NS as u128);
    }

    /// Checks whether a report of the player is an echo; if it is not, the suppression
    /// is over.
    fn is_echo(&mut self, now_ns: u64) -> (r: bool)
        ensures
            r == suppressed(*old(self), now_ns),
            r ==> *final(self) == *old(self),
            !r ==> *final(self) == (Session {
                is_paused: old(self).is_paused,
                current_ms: old(self).current_ms,
                suppress_until: None,
            }),
    {
        if let Some(until) = self.suppress_until {
            if (now_ns as u128) < until {
                return true;
            }
            self.suppress_until = None;
        }
        false
    }

    /// Reacts to a report of the player.
    pub fn on_player_event(&mut self, ev: MpvEvent, now_ns: u64) -> (r: Vec<Action>)
        ensures
            r@ == player_actions(*old(self), ev, now_ns),
            *final(self) == after_player(*old(self), ev, now_ns),
    {
        let mut r: Vec<Action> = Vec::new();
        match ev {
            MpvEvent::Pause => {
                if !self.is_echo(now_ns) {
                    self.is_paused = true;
                    r.push(Action::Server(ClientEvent::PauseReady(self.current_ms)));
                }
            },
            MpvEvent::Unpause => {
                if !self.is_echo(now_ns) {
                    self.is_paused = true;
                    r.push(Action::Server(ClientEvent::Ready(self.current_ms)));
                    r.push(Action::Suppress);
                    r.push(Action::Player(MpvCommand::Pause));
                }
            },
            MpvEvent::TimePos(ms) => {
                self.current_ms = ms;
            },
            MpvEvent::Disconnected => {
                r.push(Action::Exit);
            },
        }
        assert(r@ =~= player_actions(*old(self), ev, now_ns));
        r
    }

    /// Reacts to a seek in the player: the position is recorded and, unless the seek is an
    /// echo, announced.
    pub fn on_player_seek(&mut self, ms: u64, now_ns: u64) -> (r: Vec<Action>)
        ensures
            r@ == seek_actions(*old(self), ms, now_ns),
            *final(self) == after_seek(*old(self), ms, now_ns),
    {
        let mut r: Vec<Action> = Vec::new();
        if !self.is_echo(now_ns) {
            r.push(Action::Server(ClientEvent::SeekReady(ms)));
        }
        self.current_ms = ms;
        assert(r@ =~= seek_actions(*old(self), ms, now_ns));
        r
    }

    /// Reacts to an event of the server.
    pub fn on_server_event(&mut self, ev: ServerEvent, clock: &ClockSync, t: &Timing) -> (r: Vec<
        Action,
    >)
        requires
            schedulable_spec(ev, *clock, *t),
        ensures
            r@ == server_actions(ev, *clock, *t),
            *final(self) == after_server(*old(self), ev),
    {
        let mut r: Vec<Action> = match ev {
            ServerEvent::Start { deadline_ms, pos_ms } => {
                self.is_paused = false;
                schedule_play(clock, deadline_ms, pos_ms, t)
            },
            ServerEvent::PauseAt { deadline_ms, pos_ms } => {
                self.is_paused = true;
                schedule_pause(clock, deadline_ms, pos_ms, t)
            },
            ServerEvent::SeekAt { deadline_ms, pos_ms } => schedule_seek(
                clock,
                deadline_ms,
                pos_ms,
                t,
            ),
            ServerEvent::State { playing, pos_ms, .. } => {
                self.is_paused = !playing;
                handle_state(playing, pos_ms)
            },
            ServerEvent::Pong { .. } => {
                return Vec::new();
            },
            ServerEvent::Disconnected => {
                return Vec::new();
            },
        };
        r.push(Action::Suppress);
        r
    }
}

/// While reports are suppressed, a pause or a resumption of the player is an echo: it
/// changes nothing and nobody hears of it. Once the time is over, it is announced.
pub proof fn law_echoes_are_silent(s: Session, ev: MpvEvent, started_ns: u64, now_ns: u64)
    requires
        s.suppress_until == Some((started_ns + SUPPRESS_NS) as u128),
        ev is Pause || ev is Unpause,
    ensures
        now_ns < started_ns + SUPPRESS_NS ==> {
            &&& player_actions(s, ev, now_ns) == Seq::<Action>::empty()
            &&& after_player(s, ev, now_ns) == s
        },
        now_ns >= started_ns + SUPPRESS_NS ==> {
            &&& player_actions(s, ev, now_ns)[0] == Action::Server(
                if ev is Pause {
                    ClientEvent::PauseReady(s.current_ms)
                } else {
                    ClientEvent::Ready(s.current_ms)
                },
            )
            &&& after_player(s, ev, now_ns).is_paused
        },
{
}

/// While reports are suppressed, a seek of the player is an echo: nobody hears of it. Once
/// the time is over, it is announced.
pub proof fn law_seek_echoes_are_silent(s: Session, ms: u64, started_ns: u64, now_ns: u64)
    requires
        s.suppress_until == Some((started_ns + SUPPRESS_NS) as u128),
    ensures
        now_ns < started_ns + SUPPRESS_NS ==> seek_actions(s, ms, now_ns)
            == Seq::<Action>::empty(),
        now_ns >= started_ns + SUPPRESS_NS ==> seek_actions(s, ms, now_ns) == seq![
            Action::Server(ClientEvent::SeekReady(ms)),
        ],
        after_seek(s, ms, now_ns).current_ms == ms,
{
}

/// Whenever a server's event makes the session command its player, the session goes on to
/// disregard what the player reports, and sends nothing to the server itself.
pub proof fn law_commands_are_followed_by_suppression(ev: ServerEvent, clock: ClockSync, t: Timing)
    ensures
        ({
            let actions = server_actions(ev, clock, t);
            &&& actions.len() > 0 ==> actions.last() == Action::Suppress
            &&& forall|i: int| 0 <= i < actions.len() ==> !(#[trigger] actions[i] is Server)
        }),
{
    let actions = server_actions(ev, clock, t);
    assert forall|i: int| 0 <= i < actions.len() implies !(#[trigger] actions[i] is Server) by {
        match ev {
            ServerEvent::Start { .. } => {},
            ServerEvent::PauseAt { .. } => {},
            ServerEvent::SeekAt { .. } => {},
            _ => {},
        }
    }
}

/// A client whose deadline is still to come wakes up at the deadline: its wall clock at
/// that moment, moved by its offset, shows the server's deadline. All clients therefore
/// act at the same moment of the server's clock.
pub proof fn law_wake_up_at_deadline(clock: ClockSync, deadline_ms: u64, t: Timing)
    requires
        deadline_ms <= i64::MAX,
        clock.local_time(deadline_ms) >= t.wall_ms,
    ensures
        (t.wall_ms + clock.offset_ms) * NS_PER_MS + (instant_of(clock, deadline_ms, t) - t.base_ns)
            == deadline_ms * NS_PER_MS,
{
}

/// A client that hears of a deadline too late does not wait: it acts at once, and a start
/// makes up for all the time since the deadline.
pub proof fn law_late_news_is_acted_on(clock: ClockSync, deadline_ms: u64, pos_ms: u64, t: Timing)
    requires
        clock.server_to_local(deadline_ms) <= t.wall_ms,
        t.base_ns <= t.now_ns,
        playable(clock, deadline_ms, pos_ms, t),
    ensures
        wait_plan(clock, deadline_ms, t) == Seq::<Action>::empty(),
        ({
            let late = t.wall_ms - clock.server_to_local(deadline_ms) + (t.now_ns - t.base_ns)
                / NS_PER_MS as int;
            play_plan(clock, deadline_ms, pos_ms, t) == seq![
                Action::Player(MpvCommand::Seek(pos_ms)),
                Action::Player(MpvCommand::Seek((pos_ms + late) as u64)),
                Action::Player(MpvCommand::Play),
            ]
        }),
{
}

/// When a deadline falls on the monotonic clock: as long after the reading of the clocks as
/// the deadline, moved to the local clock, lies after the local time, and at the reading
/// itself where it has passed.
pub proof fn law_instant_of_a_deadline(clock: ClockSync, deadline_ms: u64, t: Timing)
    ensures
        ({
            let signed = if deadline_ms <= i64::MAX {
                deadline_ms as int
            } else {
                deadline_ms - 0x1_0000_0000_0000_0000
            };
            let local = if signed > clock.offset_ms {
                signed - clock.offset_ms
            } else {
                0
            };
            &&& local > t.wall_ms ==> instant_of(clock, deadline_ms, t) == t.base_ns + (local
                - t.wall_ms) * 1_000_000
            &&& local <= t.wall_ms ==> instant_of(clock, deadline_ms, t) == t.base_ns
            &&& late_ms(clock, deadline_ms, t) == t.wall_ms - local + (t.now_ns - t.base_ns)
                / 1_000_000
        }),
{
}

/// Where a start is heard of before its deadline, the player seeks to the announced position,
/// waits for the deadline, and plays. That is all that is done, whatever the clocks' offset,
/// and play is the last command.
pub proof fn law_start_in_time(
    s: Session,
    clock: ClockSync,
    deadline_ms: u64,
    pos_ms: u64,
    t: Timing,
)
    requires
        instant_of(clock, deadline_ms, t) > t.now_ns,
    ensures
        ({
            let wait = Action::WaitUntil(instant_of(clock, deadline_ms, t) as u128);
            let start = ServerEvent::Start { deadline_ms, pos_ms };
            &&& play_plan(clock, deadline_ms, pos_ms, t) == seq![
                Action::Player(MpvCommand::Seek(pos_ms)),
                wait,
                Action::Player(MpvCommand::Play),
            ]
            &&& server_actions(start, clock, t) == seq![
                Action::Player(MpvCommand::Seek(pos_ms)),
                wait,
                Action::Player(MpvCommand::Play),
                Action::Suppress,
            ]
            &&& after_server(s, start) == (Session { is_paused: false, ..s })
            &&& playable(clock, deadline_ms, pos_ms, t) <==> clock.convertible_spec(deadline_ms)
            &&& schedulable_spec(start, clock, t) <==> clock.convertible_spec(deadline_ms)
        }),
{
}

/// Where a start is heard of at or after its deadline, the player seeks to the announced
/// position, then as much further as the start is late, and plays at once.
pub proof fn law_start_too_late(
    s: Session,
    clock: ClockSync,
    deadline_ms: u64,
    pos_ms: u64,
    t: Timing,
    late: int,
)
    requires
        instant_of(clock, deadline_ms, t) <= t.now_ns,
        late == t.wall_ms - clock.server_to_local(deadline_ms) + (t.now_ns - t.base_ns) / 1_000_000,
    ensures
        ({
            let start = ServerEvent::Start { deadline_ms, pos_ms };
            &&& 0 <= late
            &&& playable(clock, deadline_ms, pos_ms, t) <==> clock.convertible_spec(deadline_ms)
                && pos_ms + late <= u64::MAX
            &&& schedulable_spec(start, clock, t) <==> clock.convertible_spec(deadline_ms) && pos_ms
                + late <= u64::MAX
            &&& pos_ms + late <= u64::MAX ==> play_plan(clock, deadline_ms, pos_ms, t) == seq![
                Action::Player(MpvCommand::Seek(pos_ms)),
                Action::Player(MpvCommand::Seek((pos_ms + late) as u64)),
                Action::Player(MpvCommand::Play),
            ]
            &&& pos_ms + late <= u64::MAX ==> server_actions(start, clock, t) == seq![
                Action::Player(MpvCommand::Seek(pos_ms)),
                Action::Player(MpvCommand::Seek((pos_ms + late) as u64)),
                Action::Player(MpvCommand::Play),
                Action::Suppress,
            ]
            &&& after_server(s, start) == (Session { is_paused: false, ..s })
        }),
{
}

/// A pause is carried out at its deadline, or at once where that has passed: the player seeks
/// to the announced position, waits if there is time, and pauses. That is all that is done.
pub proof fn law_pause_on_time(
    s: Session,
    clock: ClockSync,
    deadline_ms: u64,
    pos_ms: u64,
    t: Timing,
)
    ensures
        ({
            let pause = ServerEvent::PauseAt { deadline_ms, pos_ms };
            let seek = Action::Player(MpvCommand::Seek(pos_ms));
            let wait = Action::WaitUntil(instant_of(clock, deadline_ms, t) as u128);
            let stop = Action::Player(MpvCommand::Pause);
            &&& instant_of(clock, deadline_ms, t) > t.now_ns ==> pause_plan(
                clock,
                deadline_ms,
                pos_ms,
                t,
            ) == seq![seek, wait, stop] && server_actions(pause, clock, t) == seq![
                seek,
                wait,
                stop,
                Action::Suppress,
            ]
            &&& instant_of(clock, deadline_ms, t) <= t.now_ns ==> pause_plan(
                clock,
                deadline_ms,
                pos_ms,
                t,
            ) == seq![seek, stop] && server_actions(pause, clock, t) == seq![
                seek,
                stop,
                Action::Suppress,
            ]
            &&& after_server(s, pause) == (Session { is_paused: true, ..s })
            &&& schedulable_spec(pause, clock, t) <==> clock.convertible_spec(deadline_ms)
        }),
{
}

/// A seek is carried out at its deadline, or at once where that has passed: the position is
/// recorded and the player seeks to it. That is all that is done, and the session goes on
/// playing or pausing.
pub proof fn law_seek_on_time(
    s: Session,
    clock: ClockSync,
    deadline_ms: u64,
    pos_ms: u64,
    t: Timing,
)
    ensures
        ({
            let ev = ServerEvent::SeekAt { deadline_ms, pos_ms };
            let wait = Action::WaitUntil(instant_of(clock, deadline_ms, t) as u128);
            let set = Action::SetTime(pos_ms);
            let seek = Action::Player(MpvCommand::Seek(pos_ms));
            &&& instant_of(clock, deadline_ms, t) > t.now_ns ==> seek_plan(
                clock,
                deadline_ms,
                pos_ms,
                t,
            ) == seq![wait, set, seek] && server_actions(ev, clock, t) == seq![
                wait,
                set,
                seek,
                Action::Suppress,
            ]
            &&& instant_of(clock, deadline_ms, t) <= t.now_ns ==> seek_plan(
                clock,
                deadline_ms,
                pos_ms,
                t,
            ) == seq![set, seek] && server_actions(ev, clock, t) == seq![
                set,
                seek,
                Action::Suppress,
            ]
            &&& after_server(s, ev) == s
            &&& schedulable_spec(ev, clock, t) <==> clock.convertible_spec(deadline_ms)
        }),
{
}

/// A client that is told the state seeks to the position and records it, and plays if the
/// others do. A pong, or the loss of the server, leads to nothing. None of these has a
/// deadline that could fail to fit.
pub proof fn law_state_is_joined(
    s: Session,
    playing: bool,
    pos_ms: u64,
    playback_started_at_ms: Option<u64>,
    server_ts_ms: u64,
    client_ts_ms: u64,
    clock: ClockSync,
    t: Timing,
)
    ensures
        ({
            let state = ServerEvent::State { playing, pos_ms, playback_started_at_ms };
            let seek = Action::Player(MpvCommand::Seek(pos_ms));
            let set = Action::SetTime(pos_ms);
            let play = Action::Player(MpvCommand::Play);
            &&& join_plan(true, pos_ms) == seq![seek, set, play]
            &&& join_plan(false, pos_ms) == seq![seek, set]
            &&& playing ==> server_actions(state, clock, t) == seq![
                seek,
                set,
                play,
                Action::Suppress,
            ]
            &&& !playing ==> server_actions(state, clock, t) == seq![seek, set, Action::Suppress]
            &&& after_server(s, state) == (Session { is_paused: !playing, ..s })
            &&& schedulable_spec(state, clock, t)
        }),
        ({
            let pong = ServerEvent::Pong { server_ts_ms, client_ts_ms };
            &&& server_actions(pong, clock, t) == Seq::<Action>::empty()
            &&& after_server(s, pong) == s
            &&& schedulable_spec(pong, clock, t)
        }),
        ({
            let lost = ServerEvent::Disconnected;
            &&& server_actions(lost, clock, t) == Seq::<Action>::empty()
            &&& after_server(s, lost) == s
            &&& schedulable_spec(lost, clock, t)
        }),
{
}

/// Reports are echoes exactly up to the end of the suppression, and never without one.
pub proof fn law_suppression_has_an_end(s: Session, now_ns: u64)
    ensures
        suppressed(s, now_ns) <==> (s.suppress_until matches Some(until) && now_ns < until),
{
}

/// The playback time is followed at all times, playing or paused, suppressed or not, and
/// nothing else comes of a report of it. A press of pause or play after it, once no report
/// counts as an echo, is announced with that time.
pub proof fn law_playback_time_is_followed(s: Session, ms: u64, told_ns: u64, pressed_ns: u64)
    ensures
        ({
            let followed = after_player(s, MpvEvent::TimePos(ms), told_ns);
            &&& followed.current_ms == ms
            &&& followed.is_paused == s.is_paused
            &&& followed.suppress_until == s.suppress_until
            &&& player_actions(s, MpvEvent::TimePos(ms), told_ns) == Seq::<Action>::empty()
            &&& (s.suppress_until matches Some(until) ==> pressed_ns >= until) ==> {
                &&& player_actions(followed, MpvEvent::Pause, pressed_ns) == seq![
                    Action::Server(ClientEvent::PauseReady(ms)),
                ]
                &&& player_actions(followed, MpvEvent::Unpause, pressed_ns) == seq![
                    Action::Server(ClientEvent::Ready(ms)),
                    Action::Suppress,
                    Action::Player(MpvCommand::Pause),
                ]
            }
        }),
{
}

/// What a press of pause or play leads to. While it counts as an echo: nothing. Otherwise it
/// is announced with the playback time, the suppression is over, and the session is paused;
/// after a press of play the player is held, with its echo disregarded, until the server
/// starts everyone. A lost player ends the session.
pub proof fn law_presses_are_announced(s: Session, now_ns: u64)
    ensures
        ({
            let echo = s.suppress_until is Some && now_ns < s.suppress_until->0;
            let held = Session {
                is_paused: true,
                current_ms: s.current_ms,
                suppress_until: None,
            };
            &&& echo ==> {
                &&& player_actions(s, MpvEvent::Pause, now_ns) == Seq::<Action>::empty()
                &&& player_actions(s, MpvEvent::Unpause, now_ns) == Seq::<Action>::empty()
                &&& after_player(s, MpvEvent::Pause, now_ns) == s
                &&& after_player(s, MpvEvent::Unpause, now_ns) == s
            }
            &&& !echo ==> {
                &&& player_actions(s, MpvEvent::Pause, now_ns) == seq![
                    Action::Server(ClientEvent::PauseReady(s.current_ms)),
                ]
                &&& player_actions(s, MpvEvent::Unpause, now_ns) == seq![
                    Action::Server(ClientEvent::Ready(s.current_ms)),
                    Action::Suppress,
                    Action::Player(MpvCommand::Pause),
                ]
                &&& after_player(s, MpvEvent::Pause, now_ns) == held
                &&& after_player(s, MpvEvent::Unpause, now_ns) == held
            }
            &&& player_actions(s, MpvEvent::Disconnected, now_ns) == seq![Action::Exit]
            &&& after_player(s, MpvEvent::Disconnected, now_ns) == s
        }),
{
}

/// What a seek of the user leads to: the position is recorded at all times, and announced
/// unless the seek counts as an echo. The session goes on playing or pausing, and what is
/// announced next carries the sought position.
pub proof fn law_seeks_are_announced(s: Session, ms: u64, now_ns: u64, pressed_ns: u64)
    ensures
        ({
            let echo = s.suppress_until is Some && now_ns < s.suppress_until->0;
            let sought = after_seek(s, ms, now_ns);
            &&& sought.current_ms == ms
            &&& sought.is_paused == s.is_paused
            &&& echo ==> {
                &&& seek_actions(s, ms, now_ns) == Seq::<Action>::empty()
                &&& sought.suppress_until == s.suppress_until
            }
            &&& !echo ==> {
                &&& seek_actions(s, ms, now_ns) == seq![Action::Server(ClientEvent::SeekReady(ms))]
                &&& sought.suppress_until is None
                &&& player_actions(sought, MpvEvent::Pause, pressed_ns) == seq![
                    Action::Server(ClientEvent::PauseReady(ms)),
                ]
            }
        }),
{
}

} // verus!
