//! The relay server: it keeps the playback state that all clients share, and turns what
//! one client intends into what all clients are told to do.
use crate::network::clock::now_ms;
use crate::network::link::LineInput;
use crate::network::protocol;
use crate::network::protocol::{parse_client_event, ClientEvent, ServerEvent};
use crate::sync;
use crate::sync::{parse_sync_event, SyncEvent, SyncEventView};
use crate::text;
use crate::text::append_decimal;
use vstd::prelude::*;

verus! {

/// How far ahead of now an action is scheduled, so that every client hears of it in time.
pub const SCHEDULE_DELAY_MS: u64 = 50;

/// The playback state that all clients share.
#[derive(Debug, Clone, Copy, PartialEq, Eq, Structural)]
pub struct PlaybackState {
    pub playing: bool,
    /// The position (ms) at the moment playback starts, or at which it is paused.
    pub start_pos_ms: u64,
    /// While playing, the wall clock (ms) at which playback starts; otherwise zero.
    pub wall_start_ms: u64,
}

impl PlaybackState {
    pub open spec fn wf(self) -> bool {
        !self.playing ==> self.wall_start_ms == 0
    }

    /// The position at a moment of the wall clock, if everyone plays in perfect step:
    /// it stands still while paused and before the start, and then runs with the clock.
    pub open spec fn pos_at(self, now_ms: u64) -> u64 {
        if !self.playing || now_ms <= self.wall_start_ms {
            self.start_pos_ms
        } else if self.start_pos_ms + (now_ms - self.wall_start_ms) > u64::MAX {
            u64::MAX
        } else {
            (self.start_pos_ms + (now_ms - self.wall_start_ms)) as u64
        }
    }

    /// The position at the given moment of the wall clock.
    pub fn position_at(&self, now_ms: u64) -> (r: u64)
        ensures
            r == self.pos_at(now_ms),
    {
        if !self.playing {
            return self.start_pos_ms;
        }
        let elapsed = now_ms.saturating_sub(self.wall_start_ms);
        self.start_pos_ms.saturating_add(elapsed)
    }

    /// The position now. The clock decides which moment that is.
    pub fn current_pos_ms(&self) -> (r: u64)
        ensures
            exists|now: u64|
                call_ensures(now_ms, (), now) && r == #[trigger] self.pos_at(now),
            !self.playing ==> r == self.start_pos_ms,
            r >= self.start_pos_ms,
    {
        let now = now_ms();
        self.position_at(now)
    }
}

/// What the server sends on account of a client's event.
#[derive(Debug, Clone, Copy, PartialEq, Eq, Structural)]
pub enum Reply {
    /// To the client that sent the event.
    ToSender(ServerEvent),
    /// To every connected client, the sender among them.
    ToAll(ServerEvent),
}

/// The moment for which an action is scheduled.
pub open spec fn deadline_at(now_ms: u64) -> u64 {
    (now_ms + SCHEDULE_DELAY_MS) as u64
}

/// What the server sends when a client's event arrives.
pub open spec fn reply_to(ev: ClientEvent, now_ms: u64) -> Reply {
    let deadline_ms = deadline_at(now_ms);
    match ev {
        ClientEvent::Ping(client_ts_ms) => Reply::ToSender(
            ServerEvent::Pong { server_ts_ms: now_ms, client_ts_ms },
        ),
        ClientEvent::Ready(pos_ms) => Reply::ToAll(ServerEvent::Start { deadline_ms, pos_ms }),
        ClientEvent::PauseReady(pos_ms) => Reply::ToAll(
            ServerEvent::PauseAt { deadline_ms, pos_ms },
        ),
        ClientEvent::SeekReady(pos_ms) => Reply::ToAll(ServerEvent::SeekAt { deadline_ms, pos_ms }),
    }
}

/// The shared state after a client's event. A seek moves the position of a known state;
/// it neither starts nor stops playback.
pub open spec fn state_after(
    state: Option<PlaybackState>,
    ev: ClientEvent,
    now_ms: u64,
) -> Option<PlaybackState> {
    match ev {
        ClientEvent::Ping(_) => state,
        ClientEvent::Ready(pos_ms) => Some(
            PlaybackState {
                playing: true,
                start_pos_ms: pos_ms,
                wall_start_ms: deadline_at(now_ms),
            },
        ),
        ClientEvent::PauseReady(pos_ms) => Some(
            PlaybackState { playing: false, start_pos_ms: pos_ms, wall_start_ms: 0 },
        ),
        ClientEvent::SeekReady(pos_ms) => match state {
            Some(s) => Some(
                PlaybackState {
                    playing: s.playing,
                    start_pos_ms: pos_ms,
                    wall_start_ms: if s.playing {
                        deadline_at(now_ms)
                    } else {
                        s.wall_start_ms
                    },
                },
            ),
            None => None,
        },
    }
}

/// What a client that joins at `now_ms` is told: nothing before the first play or pause.
pub open spec fn greeting_spec(state: Option<PlaybackState>, now_ms: u64) -> Option<ServerEvent> {
    match state {
        Some(s) => Some(
            ServerEvent::State {
                playing: s.playing,
                pos_ms: s.pos_at(now_ms),
                playback_started_at_ms: if s.playing {
                    Some(s.wall_start_ms)
                } else {
                    None
                },
            },
        ),
        None => None,
    }
}

/// What the server does with what it read from a client.
#[derive(Debug, Clone, Copy, PartialEq, Eq, Structural)]
pub enum ServeStep {
    /// Send this.
    Send(Reply),
    /// The line carries no client's event; it may still be one to forward.
    Ignore,
    /// The connection is over.
    Close,
}

/// The moment of the action that a line asks for, if it asks for one, fits in 64 bits.
pub open spec fn servable_spec(input: LineInput, now_ms: u64) -> bool {
    match input {
        LineInput::Line(line) => match protocol::client_event_of(line@) {
            Some(ev) => ev is Ping || now_ms + SCHEDULE_DELAY_MS <= u64::MAX,
            None => true,
        },
        _ => true,
    }
}

/// Tells whether the moment of the action that a line asks for fits in 64 bits.
pub fn servable(input: &LineInput, now_ms: u64) -> (r: bool)
    ensures
        r == servable_spec(*input, now_ms),
{
    match input {
        LineInput::Line(line) => match parse_client_event(line.as_str()) {
            Some(ClientEvent::Ping(_)) => true,
            Some(_) => now_ms <= u64::MAX - SCHEDULE_DELAY_MS,
            None => true,
        },
        _ => true,
    }
}

/// The plain event that the server sends on to everyone: the one on a line that carries
/// no client's event with a deadline.
pub open spec fn forwarded_spec(line: Seq<char>) -> Option<SyncEventView> {
    if protocol::client_event_of(line) is Some {
        None
    } else {
        sync::sync_event_of(line)
    }
}

/// The plain event to send on, unchanged, to every connected client.
pub fn forwarded(input: &LineInput) -> (r: Option<SyncEvent>)
    ensures
        match *input {
            LineInput::Line(line) => match r {
                Some(ev) => forwarded_spec(line@) == Some(ev@),
                None => forwarded_spec(line@) is None,
            },
            _ => r is None,
        },
{
    match input {
        LineInput::Line(line) => match parse_client_event(line.as_str()) {
            Some(_) => None,
            None => parse_sync_event(line.as_str()),
        },
        _ => None,
    }
}

/// The relay's state: unknown until the first play or pause.
#[derive(Debug, Clone, Copy, PartialEq, Eq, Structural)]
pub struct Relay {
    pub state: Option<PlaybackState>,
}

impl Relay {
    pub open spec fn wf(self) -> bool {
        self.state matches Some(s) ==> s.wf()
    }

    pub fn new() -> (r: Relay)
        ensures
            r.state is None,
            r.wf(),
    {
        Relay { state: None }
    }

    /// Takes a client's event at the given moment of the wall clock.
    pub fn handle_event(&mut self, ev: ClientEvent, now_ms: u64) -> (r: Reply)
        requires
            ev is Ping || now_ms + SCHEDULE_DELAY_MS <= u64::MAX,
        ensures
            r == reply_to(ev, now_ms),
            final(self).state == state_after(old(self).state, ev, now_ms),
            old(self).wf() ==> final(self).wf(),
    {
        match ev {
            ClientEvent::Ping(client_ts_ms) => Reply::ToSender(
                ServerEvent::Pong { server_ts_ms: now_ms, client_ts_ms },
            ),
            ClientEvent::Ready(pos_ms) => {
                let deadline_ms = now_ms + SCHEDULE_DELAY_MS;
                self.state = Some(
                    PlaybackState {
                        playing: true,
                        start_pos_ms: pos_ms,
                        wall_start_ms: deadline_ms,
                    },
                );
                Reply::ToAll(ServerEvent::Start { deadline_ms, pos_ms })
            },
            ClientEvent::PauseReady(pos_ms) => {
                let deadline_ms = now_ms + SCHEDULE_DELAY_MS;
                self.state = Some(
                    PlaybackState { playing: false, start_pos_ms: pos_ms, wall_start_ms: 0 },
                );
                Reply::ToAll(ServerEvent::PauseAt { deadline_ms, pos_ms })
            },
            ClientEvent::SeekReady(pos_ms) => {
                let deadline_ms = now_ms + SCHEDULE_DELAY_MS;
                if let Some(s) = self.state {
                    self.state = Some(
                        PlaybackState {
                            playing: s.playing,
                            start_pos_ms: pos_ms,
                            wall_start_ms: if s.playing {
                                deadline_ms
                            } else {
                                s.wall_start_ms
                            },
                        },
                    );
                }
                Reply::ToAll(ServerEvent::SeekAt { deadline_ms, pos_ms })
            },
        }
    }

    /// Takes what was read from a client's connection. A line that carries no event is
    /// ignored; an ended or failed connection is closed.
    pub fn serve(&mut self, input: &LineInput, now_ms: u64) -> (r: ServeStep)
        requires
            servable_spec(*input, now_ms),
        ensures
            match *input {
                LineInput::Line(line) => match protocol::client_event_of(line@) {
                    Some(ev) => {
                        &&& r == ServeStep::Send(reply_to(ev, now_ms))
                        &&& final(self).state == state_after(old(self).state, ev, now_ms)
                    },
                    None => r == ServeStep::Ignore && *final(self) == *old(self),
                },
                _ => r == ServeStep::Close && *final(self) == *old(self),
            },
            old(self).wf() ==> final(self).wf(),
    {
        match input {
            LineInput::Line(line) => match parse_client_event(line.as_str()) {
                Some(ev) => ServeStep::Send(self.handle_event(ev, now_ms)),
                None => ServeStep::Ignore,
            },
            _ => ServeStep::Close,
        }
    }

    /// What a client that joins at the given moment is told first.
    pub fn greeting(&self, now_ms: u64) -> (r: Option<ServerEvent>)
        ensures
            r == greeting_spec(self.state, now_ms),
    {
        match self.state {
            Some(s) => Some(
                ServerEvent::State {
                    playing: s.playing,
                    pos_ms: s.position_at(now_ms),
                    playback_started_at_ms: if s.playing {
                        Some(s.wall_start_ms)
                    } else {
                        None
                    },
                },
            ),
            None => None,
        }
    }
}

/// The elements of `s` whose flag in `closed` is not set, in order.
pub open spec fn still_open<T>(s: Seq<T>, closed: Seq<bool>) -> Seq<T>
    recommends
        s.len() == closed.len(),
    decreases s.len(),
{
    if s.len() == 0 {
        Seq::empty()
    } else {
        let before = still_open(s.drop_last(), closed.take(s.len() - 1));
        if closed[s.len() - 1] {
            before
        } else {
            before.push(s.last())
        }
    }
}

/// The channels to the connected clients, in the order in which they connected.
pub struct ClientList<T> {
    pub clients: Vec<T>,
}

impl<T> View for ClientList<T> {
    type V = Seq<T>;

    open spec fn view(&self) -> Seq<T> {
        self.clients@
    }
}

impl<T> ClientList<T> {
    pub fn new() -> (r: ClientList<T>)
        ensures
            r@ == Seq::<T>::empty(),
    {
        ClientList { clients: Vec::new() }
    }

    /// Adds a client; returns how many there are with it.
    pub fn register(&mut self, client: T) -> (total: usize)
        ensures
            final(self)@ == old(self)@.push(client),
            total == final(self)@.len(),
    {
        self.clients.push(client);
        self.clients.len()
    }

    /// Drops the clients whose channel is closed; returns how many are left. These are
    /// the recipients of a broadcast.
    pub fn retain_open(&mut self, closed: &Vec<bool>) -> (total: usize)
        requires
            closed@.len() == old(self)@.len(),
        ensures
            final(self)@ == still_open(old(self)@, closed@),
            total == final(self)@.len(),
    {
        let ghost all = self.clients@;
        let mut kept: usize = 0;
        let mut seen: usize = 0;
        assert(self.clients@ =~= still_open(all.take(0), closed@.take(0)) + all.skip(0));
        while seen < closed.len()
            invariant
                kept <= seen <= closed@.len() == all.len(),
                kept == still_open(all.take(seen as int), closed@.take(seen as int)).len(),
                self.clients@ == still_open(all.take(seen as int), closed@.take(seen as int))
                    + all.skip(seen as int),
            decreases closed@.len() - seen,
        {
            let ghost before = still_open(all.take(seen as int), closed@.take(seen as int));
            proof {
                let n = seen as int;
                assert(all.take(n + 1).drop_last() =~= all.take(n));
                assert(closed@.take(n + 1).take(n) =~= closed@.take(n));
                assert(closed@.take(n + 1)[n] == closed@[n]);
                assert(all.take(n + 1).last() == all[n]);
            }
            if closed[seen] {
                self.clients.remove(kept);
                assert(self.clients@ =~= before + all.skip(seen + 1));
            } else {
                assert(self.clients@ =~= before.push(all[seen as int]) + all.skip(seen + 1));
                kept = kept + 1;
            }
            seen = seen + 1;
        }
        proof {
            assert(all.take(all.len() as int) =~= all);
            assert(closed@.take(all.len() as int) =~= closed@);
            assert(self.clients@ =~= still_open(all, closed@));
        }
        self.clients.len()
    }
}

/// The relay server on a port.
#[derive(Debug, Clone, Copy, PartialEq, Eq, Structural)]
pub struct RelayServer {
    pub port: u16,
}

impl RelayServer {
    pub fn new(port: u16) -> (r: RelayServer)
        ensures
            r.port == port,
    {
        RelayServer { port }
    }

    /// The address to listen on: every interface, at the server's port.
    pub fn listen_address(&self) -> (r: String)
        ensures
            r@ == "0.0.0.0:"@ + text::decimal(self.port as nat),
    {
        let mut out = String::new();
        out.append("0.0.0.0:");
        append_decimal(&mut out, self.port as u64);
        assert(out@ =~= "0.0.0.0:"@ + text::decimal(self.port as nat));
        out
    }
}

/// A client that joins while the others play is sent to where they are: the position of
/// the play request, plus the time since its deadline, with the deadline that the others
/// were told.
pub proof fn law_late_joiner_meets_players(
    before: Option<PlaybackState>,
    pos_ms: u64,
    asked_ms: u64,
    joined_ms: u64,
)
    requires
        asked_ms + SCHEDULE_DELAY_MS <= u64::MAX,
    ensures
        ({
            let ev = ClientEvent::Ready(pos_ms);
            let deadline_ms = deadline_at(asked_ms);
            let elapsed = if joined_ms > deadline_ms {
                joined_ms - deadline_ms
            } else {
                0
            };
            &&& reply_to(ev, asked_ms) == Reply::ToAll(ServerEvent::Start { deadline_ms, pos_ms })
            &&& greeting_spec(state_after(before, ev, asked_ms), joined_ms) matches Some(
                ServerEvent::State { playing, pos_ms: told, playback_started_at_ms },
            )
            &&& playing
            &&& playback_started_at_ms == Some(deadline_ms)
            &&& pos_ms + elapsed <= u64::MAX ==> told == pos_ms + elapsed
            &&& pos_ms + elapsed > u64::MAX ==> told == u64::MAX
        }),
{
}

/// A client that joins while the others are paused is told the position at which they
/// paused, however late it comes.
pub proof fn law_late_joiner_meets_paused(
    before: Option<PlaybackState>,
    pos_ms: u64,
    asked_ms: u64,
    joined_ms: u64,
)
    ensures
        greeting_spec(
            state_after(before, ClientEvent::PauseReady(pos_ms), asked_ms),
            joined_ms,
        ) == Some(
            ServerEvent::State { playing: false, pos_ms, playback_started_at_ms: None },
        ),
{
}

/// The shared position never runs backwards, and stands still while paused.
pub proof fn law_position_runs_forward(s: PlaybackState, earlier_ms: u64, later_ms: u64)
    requires
        earlier_ms <= later_ms,
    ensures
        s.pos_at(earlier_ms) <= s.pos_at(later_ms),
        s.pos_at(later_ms) - s.pos_at(earlier_ms) <= later_ms - earlier_ms,
        !s.playing ==> s.pos_at(earlier_ms) == s.pos_at(later_ms),
{
}

/// Whatever the server announces to all agrees with what it keeps: at the announced
/// moment the shared position is the announced one.
pub proof fn law_announcement_matches_state(
    before: Option<PlaybackState>,
    ev: ClientEvent,
    now_ms: u64,
)
    requires
        now_ms + SCHEDULE_DELAY_MS <= u64::MAX,
        !(ev is Ping),
        state_after(before, ev, now_ms) is Some,
    ensures
        ({
            let after = state_after(before, ev, now_ms)->0;
            match reply_to(ev, now_ms) {
                Reply::ToAll(ServerEvent::Start { deadline_ms, pos_ms }) => after.playing
                    && after.pos_at(deadline_ms) == pos_ms,
                Reply::ToAll(ServerEvent::PauseAt { deadline_ms, pos_ms }) => !after.playing
                    && after.pos_at(deadline_ms) == pos_ms,
                Reply::ToAll(ServerEvent::SeekAt { deadline_ms, pos_ms }) => before is Some
                    && after.playing == before->0.playing && after.pos_at(deadline_ms) == pos_ms,
                _ => false,
            }
        }),
{
}

/// A ping concerns its sender alone: it changes nothing and nobody else hears of it.
pub proof fn law_ping_is_private(before: Option<PlaybackState>, client_ts_ms: u64, now_ms: u64)
    ensures
        state_after(before, ClientEvent::Ping(client_ts_ms), now_ms) == before,
        reply_to(ClientEvent::Ping(client_ts_ms), now_ms) == Reply::ToSender(
            ServerEvent::Pong { server_ts_ms: now_ms, client_ts_ms },
        ),
{
}

/// A broadcast reaches every client whose channel is open, whoever sent the event, and
/// no other.
pub proof fn law_broadcast_reaches_open_clients<T>(s: Seq<T>, closed: Seq<bool>)
    requires
        s.len() == closed.len(),
    ensures
        still_open(s, closed).len() <= s.len(),
        forall|i: int|
            #![trigger s[i]]
            0 <= i < s.len() && !closed[i] ==> still_open(s, closed).contains(s[i]),
        forall|k: int|
            #![trigger still_open(s, closed)[k]]
            0 <= k < still_open(s, closed).len() ==> exists|i: int|
                0 <= i < s.len() && !closed[i] && s[i] == still_open(s, closed)[k],
    decreases s.len(),
{
    if s.len() > 0 {
        let n = s.len() - 1;
        let front = s.drop_last();
        let flags = closed.take(n);
        law_broadcast_reaches_open_clients(front, flags);
        let before = still_open(front, flags);
        let all = still_open(s, closed);
        assert forall|i: int| #![trigger s[i]] 0 <= i < s.len() && !closed[i] implies all.contains(
            s[i],
        ) by {
            if i < n {
                assert(front[i] == s[i] && !flags[i]);
                let k = choose|k: int| 0 <= k < before.len() && before[k] == s[i];
                assert(all[k] == s[i]);
            } else {
                assert(all[all.len() - 1] == s[i]);
            }
        }
        assert forall|k: int| #![trigger all[k]] 0 <= k < all.len() implies exists|i: int|
            0 <= i < s.len() && !closed[i] && s[i] == all[k] by {
            if k < before.len() {
                assert(all[k] == before[k]);
                let i = choose|i: int| 0 <= i < n && !flags[i] && front[i] == before[k];
                assert(s[i] == all[k] && !closed[i]);
            } else {
                assert(s[n] == all[k] && !closed[n]);
            }
        }
    }
}

/// A plain event that one client sends as a line is sent on as it is to every client whose
/// channel is open, the sender among them. The time of a seek must not be empty or end in
/// white space.
pub proof fn law_plain_event_goes_to_all<T>(ev: SyncEventView, clients: Seq<T>, closed: Seq<bool>)
    requires
        ev matches SyncEventView::Seek(time) ==> time.len() > 0 && !text::white_space(time.last()),
        clients.len() == closed.len(),
    ensures
        forwarded_spec(sync::sync_line(ev)) == Some(ev),
        forall|i: int|
            #![trigger clients[i]]
            0 <= i < clients.len() && !closed[i] ==> still_open(clients, closed).contains(
                clients[i],
            ),
{
    sync::law_sync_event_round_trip(ev);
    sync::law_protocols_are_disjoint(sync::sync_line(ev));
    law_broadcast_reaches_open_clients(clients, closed);
}

/// The position at any moment: while paused the one that is kept; while playing the one at
/// the start plus the time since the start, if any has passed, but no more than 64 bits hold.
pub proof fn law_position_is_start_plus_elapsed(s: PlaybackState, now_ms: u64)
    ensures
        !s.playing ==> s.pos_at(now_ms) == s.start_pos_ms,
        s.playing && now_ms <= s.wall_start_ms ==> s.pos_at(now_ms) == s.start_pos_ms,
        s.playing && now_ms > s.wall_start_ms ==> {
            let reached = s.start_pos_ms + (now_ms - s.wall_start_ms);
            &&& reached <= u64::MAX ==> s.pos_at(now_ms) == reached
            &&& reached > u64::MAX ==> s.pos_at(now_ms) == u64::MAX
        },
        s.wf() <==> s.playing || s.wall_start_ms == 0,
        (Relay { state: Some(s) }).wf() <==> s.wf(),
        (Relay { state: None }).wf(),
{
}

/// While everyone plays, the shared position and the clock advance together.
pub proof fn law_position_advances_with_the_clock(s: PlaybackState, now_ms: u64, later_ms: u64)
    requires
        s.playing,
        s.wall_start_ms <= now_ms <= later_ms,
        s.start_pos_ms + (later_ms - s.wall_start_ms) <= u64::MAX,
    ensures
        s.pos_at(later_ms) - s.pos_at(now_ms) == later_ms - now_ms,
{
}

/// What one client is ready for, all are told to do, the scheduling delay after the request
/// arrived and at the position that it named.
pub proof fn law_everyone_acts_one_delay_later(pos_ms: u64, now_ms: u64)
    requires
        now_ms + SCHEDULE_DELAY_MS <= u64::MAX,
    ensures
        deadline_at(now_ms) == now_ms + SCHEDULE_DELAY_MS,
        reply_to(ClientEvent::Ready(pos_ms), now_ms) matches Reply::ToAll(
            ServerEvent::Start { deadline_ms, pos_ms: at },
        ) && deadline_ms == now_ms + SCHEDULE_DELAY_MS && at == pos_ms,
        reply_to(ClientEvent::PauseReady(pos_ms), now_ms) matches Reply::ToAll(
            ServerEvent::PauseAt { deadline_ms, pos_ms: at },
        ) && deadline_ms == now_ms + SCHEDULE_DELAY_MS && at == pos_ms,
        reply_to(ClientEvent::SeekReady(pos_ms), now_ms) matches Reply::ToAll(
            ServerEvent::SeekAt { deadline_ms, pos_ms: at },
        ) && deadline_ms == now_ms + SCHEDULE_DELAY_MS && at == pos_ms,
{
}

/// Requests that arrive some time apart are carried out as far apart.
pub proof fn law_requests_keep_their_distance(a: ClientEvent, b: ClientEvent, a_ms: u64, b_ms: u64)
    requires
        !(a is Ping),
        !(b is Ping),
        a_ms <= b_ms,
        b_ms + SCHEDULE_DELAY_MS <= u64::MAX,
    ensures
        ({
            let deadline = |reply: Reply|
                match reply {
                    Reply::ToAll(ServerEvent::Start { deadline_ms, .. }) => deadline_ms as int,
                    Reply::ToAll(ServerEvent::PauseAt { deadline_ms, .. }) => deadline_ms as int,
                    Reply::ToAll(ServerEvent::SeekAt { deadline_ms, .. }) => deadline_ms as int,
                    _ => -1,
                };
            &&& deadline(reply_to(a, a_ms)) > a_ms
            &&& deadline(reply_to(b, b_ms)) - deadline(reply_to(a, a_ms)) == b_ms - a_ms
        }),
{
}

/// A play request makes the state known: it plays from the named position, one scheduling
/// delay after the request, whatever was before.
pub proof fn law_play_is_kept(before: Option<PlaybackState>, pos_ms: u64, now_ms: u64)
    requires
        now_ms + SCHEDULE_DELAY_MS <= u64::MAX,
    ensures
        state_after(before, ClientEvent::Ready(pos_ms), now_ms) matches Some(s) && s.playing
            && s.start_pos_ms == pos_ms && s.wall_start_ms == now_ms + SCHEDULE_DELAY_MS,
{
}

/// A pause request makes the state known: it is paused at the named position, whatever was
/// before.
pub proof fn law_pause_is_kept(before: Option<PlaybackState>, pos_ms: u64, now_ms: u64)
    ensures
        state_after(before, ClientEvent::PauseReady(pos_ms), now_ms) matches Some(s) && !s.playing
            && s.start_pos_ms == pos_ms && s.wall_start_ms == 0,
{
}

/// A seek forgets nothing: a known state stays known and goes on playing or pausing, and a
/// client that joins afterwards is told the sought position, plus, while playing, the time
/// since the seek was carried out. Before the first play or pause, a seek makes nothing
/// known.
pub proof fn law_seek_moves_the_known_state(
    before: PlaybackState,
    pos_ms: u64,
    now_ms: u64,
    joined_ms: u64,
)
    requires
        now_ms + SCHEDULE_DELAY_MS <= u64::MAX,
    ensures
        state_after(Some(before), ClientEvent::SeekReady(pos_ms), now_ms) matches Some(s)
            && s.playing == before.playing && s.start_pos_ms == pos_ms && s.wall_start_ms == (
        if before.playing {
            now_ms + SCHEDULE_DELAY_MS
        } else {
            before.wall_start_ms as int
        }),
        greeting_spec(
            state_after(Some(before), ClientEvent::SeekReady(pos_ms), now_ms),
            joined_ms,
        ) matches Some(ServerEvent::State { playing, pos_ms: told, playback_started_at_ms }) && {
            let elapsed = if before.playing && joined_ms > now_ms + SCHEDULE_DELAY_MS {
                joined_ms - (now_ms + SCHEDULE_DELAY_MS)
            } else {
                0
            };
            &&& playing == before.playing
            &&& pos_ms + elapsed <= u64::MAX ==> told == pos_ms + elapsed
            &&& pos_ms + elapsed > u64::MAX ==> told == u64::MAX
            &&& before.playing ==> playback_started_at_ms is Some && playback_started_at_ms->0
                == now_ms + SCHEDULE_DELAY_MS
            &&& !before.playing ==> playback_started_at_ms is None
        },
        state_after(None, ClientEvent::SeekReady(pos_ms), now_ms) is None,
{
}

/// Once known, the state is never forgotten.
pub proof fn law_known_state_stays_known(before: PlaybackState, ev: ClientEvent, now_ms: u64)
    ensures
        state_after(Some(before), ev, now_ms) is Some,
{
}

/// What a client that joins is told: nothing while nothing is known, and otherwise whether
/// the others play, where they are at that moment, and, if they play, since when.
pub proof fn law_greeting_tells_the_state(s: PlaybackState, joined_ms: u64)
    ensures
        greeting_spec(None, joined_ms) is None,
        greeting_spec(Some(s), joined_ms) matches Some(
            ServerEvent::State { playing, pos_ms, playback_started_at_ms },
        ) && {
            let elapsed = if s.playing && joined_ms > s.wall_start_ms {
                joined_ms - s.wall_start_ms
            } else {
                0
            };
            &&& playing == s.playing
            &&& s.start_pos_ms + elapsed <= u64::MAX ==> pos_ms == s.start_pos_ms + elapsed
            &&& s.start_pos_ms + elapsed > u64::MAX ==> pos_ms == u64::MAX
            &&& s.playing ==> playback_started_at_ms == Some(s.wall_start_ms)
            &&& !s.playing ==> playback_started_at_ms is None
        },
{
}

/// The only input that cannot be served is a request to play, pause or seek that comes so
/// late that its deadline does not fit in 64 bits.
pub proof fn law_only_unrepresentable_deadlines_are_refused(line: String, now_ms: u64)
    ensures
        servable_spec(LineInput::Eof, now_ms),
        servable_spec(LineInput::Failed, now_ms),
        !servable_spec(LineInput::Line(line), now_ms) <==> now_ms + SCHEDULE_DELAY_MS > u64::MAX
            && protocol::client_event_of(line@) is Some && !(protocol::client_event_of(
            line@,
        )->0 is Ping),
{
}

/// The server forwards exactly the plain events: whatever plain event a line carries, and
/// nothing else.
pub proof fn law_plain_events_are_forwarded_as_they_are(line: Seq<char>)
    ensures
        forwarded_spec(line) == sync::sync_event_of(line),
{
    sync::law_protocols_are_disjoint(line);
}

/// Clients stay in the order in which they came, each as often as it came: one more client
/// is one more recipient at the end if its channel is open, and none if it is closed.
pub proof fn law_recipients_in_order<T>(s: Seq<T>, closed: Seq<bool>, client: T, gone: bool)
    requires
        s.len() == closed.len(),
    ensures
        still_open(Seq::<T>::empty(), Seq::<bool>::empty()) == Seq::<T>::empty(),
        gone ==> still_open(s.push(client), closed.push(gone)) == still_open(s, closed),
        !gone ==> still_open(s.push(client), closed.push(gone)) == still_open(s, closed).push(
            client,
        ),
{
    let t = s.push(client);
    let flags = closed.push(gone);
    assert(t.drop_last() =~= s);
    assert(flags.take(t.len() - 1) =~= closed);
    assert(flags[t.len() - 1] == gone);
    assert(t.last() == client);
}

/// The contents of the list are its clients.
pub proof fn law_list_holds_its_clients<T>(list: ClientList<T>)
    ensures
        list@ == list.clients@,
{
}

} // verus!
