//! The wall clock, and the difference between the local clock and the server's.
use crate::network::link::LineInput;
use crate::network::protocol;
use crate::network::protocol::{parse_server_event, ServerEvent};
use vstd::prelude::*;

verus! {

/// The time since the Unix epoch in milliseconds, from `std::time::SystemTime::elapsed` on
/// `UNIX_EPOCH`; nothing where the clock stands before the epoch. What a clock shows is
/// not known in advance, so nothing is claimed of the result.
#[verifier::external_body]
fn epoch_millis() -> (ms: Option<u128>) {
    std::time::UNIX_EPOCH.elapsed().ok().map(|d| d.as_millis())
}

/// A reading of the system clock gave this time since the epoch.
pub closed spec fn clock_read(since_epoch: Option<u128>) -> bool {
    call_ensures(epoch_millis, (), since_epoch)
}

/// A reading of the wall clock in 64 bits; a clock before the epoch reads zero.
pub fn wall_clock_ms(since_epoch: Option<u128>) -> (r: u64)
    ensures
        match since_epoch {
            Some(ms) => r == ms % 0x1_0000_0000_0000_0000,
            None => r == 0,
        },
{
    match since_epoch {
        Some(ms) => {
            assert((ms as u64) == ms % 0x1_0000_0000_0000_0000) by (bit_vector);
            ms as u64
        },
        None => 0,
    }
}

/// Milliseconds since the Unix epoch. The clock decides what comes back.
pub fn now_ms() -> (r: u64)
    ensures
        exists|since_epoch: Option<u128>| #[trigger]
            clock_read(since_epoch) && match since_epoch {
                Some(ms) => r == ms % 0x1_0000_0000_0000_0000,
                None => r == 0,
            },
{
    let since_epoch = epoch_millis();
    assert(clock_read(since_epoch));
    wall_clock_ms(since_epoch)
}

/// A 64-bit pattern read as a two's complement number.
pub open spec fn as_signed(x: u64) -> int {
    if x < 0x8000_0000_0000_0000 {
        x as int
    } else {
        x - 0x1_0000_0000_0000_0000
    }
}

pub open spec fn fits_i64(x: int) -> bool {
    i64::MIN <= x <= i64::MAX
}

fn to_signed(x: u64) -> (r: i64)
    ensures
        r == as_signed(x),
{
    assert(x < 0x8000_0000_0000_0000 ==> (x as i64) == x) by (bit_vector);
    assert(x >= 0x8000_0000_0000_0000 ==> (x as i64) == x - 0x1_0000_0000_0000_0000)
        by (bit_vector);
    x as i64
}

/// One ping and the pong that answered it. All times are in milliseconds.
#[derive(Debug, Clone, Copy, PartialEq, Eq, Structural)]
pub struct PingSample {
    /// Local time at which the ping was sent.
    pub ping_ts_ms: u64,
    /// Local time at which the pong arrived.
    pub pong_received_ms: u64,
    /// The server's time, from the pong.
    pub server_ts_ms: u64,
    /// The local time that the pong echoes.
    pub client_ts_ms: u64,
}

impl PingSample {
    /// The time from ping to pong; zero where the local clock went backwards.
    pub open spec fn rtt_spec(self) -> u64 {
        if self.pong_received_ms >= self.ping_ts_ms {
            (self.pong_received_ms - self.ping_ts_ms) as u64
        } else {
            0
        }
    }

    /// The local time at which the server is taken to have answered: half way
    /// through the round trip.
    pub open spec fn midpoint(self) -> int {
        self.client_ts_ms + self.rtt_spec() / 2
    }

    /// The server's clock minus the local clock, at the moment of the answer.
    pub open spec fn offset_spec(self) -> int {
        as_signed(self.server_ts_ms) - as_signed(self.midpoint() as u64)
    }

    /// Neither the midpoint nor the offset leaves its 64 bits.
    pub open spec fn in_range_spec(self) -> bool {
        self.midpoint() <= u64::MAX && fits_i64(self.offset_spec())
    }

    /// The round trip time.
    pub fn rtt(&self) -> (r: u64)
        ensures
            r == self.rtt_spec(),
    {
        self.pong_received_ms.saturating_sub(self.ping_ts_ms)
    }

    /// Tells whether the offset can be computed in 64 bits.
    pub fn in_range(&self) -> (r: bool)
        ensures
            r == self.in_range_spec(),
    {
        match self.client_ts_ms.checked_add(self.rtt() / 2) {
            Some(mid) => to_signed(self.server_ts_ms).checked_sub(to_signed(mid)).is_some(),
            None => false,
        }
    }

    /// The offset of the server's clock that this exchange shows.
    pub fn offset(&self) -> (r: i64)
        requires
            self.in_range_spec(),
        ensures
            r == self.offset_spec(),
    {
        let one_way = self.rtt() / 2;
        let mid = self.client_ts_ms + one_way;
        to_signed(self.server_ts_ms) - to_signed(mid)
    }
}

/// The position of the first sample with the shortest round trip.
pub open spec fn is_best(samples: Seq<PingSample>, best: int) -> bool {
    &&& 0 <= best < samples.len()
    &&& forall|i: int|
        0 <= i < samples.len() ==> samples[best].rtt_spec() <= (#[trigger] samples[i]).rtt_spec()
    &&& forall|i: int|
        0 <= i < best ==> samples[best].rtt_spec() < (#[trigger] samples[i]).rtt_spec()
}

/// The difference between the server's clock and the local one:
/// server time = local time + offset.
#[derive(Debug, Clone, Copy, PartialEq, Eq, Structural)]
pub struct ClockSync {
    pub offset_ms: i64,
}

impl ClockSync {
    /// The local time before clamping at zero.
    pub open spec fn local_time(self, server_ts_ms: u64) -> int {
        as_signed(server_ts_ms) - self.offset_ms
    }

    /// The subtraction of the offset stays within 64 bits.
    pub open spec fn convertible_spec(self, server_ts_ms: u64) -> bool {
        fits_i64(self.local_time(server_ts_ms))
    }

    pub open spec fn server_to_local(self, server_ts_ms: u64) -> u64 {
        if self.local_time(server_ts_ms) > 0 {
            self.local_time(server_ts_ms) as u64
        } else {
            0
        }
    }

    /// Measures the offset from several exchanges: the one with the shortest round trip
    /// counts. Without any exchange the offset is zero.
    pub fn measure(samples: &Vec<PingSample>) -> (r: ClockSync)
        requires
            forall|i: int| 0 <= i < samples@.len() ==> (#[trigger] samples@[i]).in_range_spec(),
        ensures
            samples@.len() == 0 ==> r.offset_ms == 0,
            samples@.len() > 0 ==> exists|best: int| #[trigger]
                is_best(samples@, best) && r.offset_ms == samples@[best].offset_spec(),
    {
        if samples.len() == 0 {
            return ClockSync { offset_ms: 0 };
        }
        let mut best: usize = 0;
        let mut i: usize = 1;
        while i < samples.len()
            invariant
                best < i <= samples@.len(),
                forall|k: int|
                    0 <= k < i ==> samples@[best as int].rtt_spec() <= (
                    #[trigger] samples@[k]).rtt_spec(),
                forall|k: int|
                    0 <= k < best ==> samples@[best as int].rtt_spec() < (
                    #[trigger] samples@[k]).rtt_spec(),
            decreases samples@.len() - i,
        {
            if samples[i].rtt() < samples[best].rtt() {
                best = i;
            }
            i = i + 1;
        }
        assert(is_best(samples@, best as int));
        ClockSync { offset_ms: samples[best].offset() }
    }

    /// Tells whether a moment of the server's clock can be converted.
    pub fn convertible(&self, server_ts_ms: u64) -> (r: bool)
        ensures
            r == self.convertible_spec(server_ts_ms),
    {
        to_signed(server_ts_ms).checked_sub(self.offset_ms).is_some()
    }

    /// Converts a moment of the server's clock to the local clock; moments before the
    /// epoch become zero.
    pub fn server_to_local_ms(&self, server_ts_ms: u64) -> (r: u64)
        requires
            self.convertible_spec(server_ts_ms),
        ensures
            r == self.server_to_local(server_ts_ms),
    {
        let local_ts: i64 = to_signed(server_ts_ms) - self.offset_ms;
        if local_ts > 0 {
            local_ts as u64
        } else {
            0
        }
    }
}

/// What follows from what was read while the client waits for its first pong.
#[derive(Debug, Clone, Copy, PartialEq, Eq, Structural)]
pub enum Handshake {
    /// The wait is over, with this clock.
    Done(ClockSync),
    /// Another event came first: hand it on and read on.
    Deliver(ServerEvent),
    /// The line carries no event: read on.
    KeepReading,
    /// The pong's times cannot be reckoned with in 64 bits.
    OutOfRange,
}

/// The exchange that a pong closes.
pub open spec fn sample_of(
    ping_ts_ms: u64,
    now_ms: u64,
    server_ts_ms: u64,
    client_ts_ms: u64,
) -> PingSample {
    PingSample { ping_ts_ms, pong_received_ms: now_ms, server_ts_ms, client_ts_ms }
}

pub open spec fn handshake_spec(input: LineInput, ping_ts_ms: u64, now_ms: u64) -> Handshake {
    match input {
        LineInput::Line(line) => match protocol::server_event_of(line@) {
            Some(ServerEvent::Pong { server_ts_ms, client_ts_ms }) => {
                let sample = sample_of(ping_ts_ms, now_ms, server_ts_ms, client_ts_ms);
                if sample.in_range_spec() {
                    Handshake::Done(ClockSync { offset_ms: sample.offset_spec() as i64 })
                } else {
                    Handshake::OutOfRange
                }
            },
            Some(ev) => Handshake::Deliver(ev),
            None => Handshake::KeepReading,
        },
        _ => Handshake::Done(ClockSync { offset_ms: 0 }),
    }
}

/// Reacts to what was read while the client waits for the answer to its ping. No event is
/// lost over the wait. Where the connection ends or fails, the clocks are taken to agree.
pub fn handshake_step(input: &LineInput, ping_ts_ms: u64, now_ms: u64) -> (r: Handshake)
    ensures
        r == handshake_spec(*input, ping_ts_ms, now_ms),
{
    match input {
        LineInput::Line(line) => match parse_server_event(line.as_str()) {
            Some(ServerEvent::Pong { server_ts_ms, client_ts_ms }) => {
                let sample = PingSample {
                    ping_ts_ms,
                    pong_received_ms: now_ms,
                    server_ts_ms,
                    client_ts_ms,
                };
                if sample.in_range() {
                    let samples: Vec<PingSample> = vec![sample];
                    let clock = ClockSync::measure(&samples);
                    proof {
                        let best = choose|best: int| #[trigger]
                            is_best(samples@, best) && clock.offset_ms
                                == samples@[best].offset_spec();
                        assert(samples@[best] == sample);
                    }
                    Handshake::Done(clock)
                } else {
                    Handshake::OutOfRange
                }
            },
            Some(ev) => Handshake::Deliver(ev),
            None => Handshake::KeepReading,
        },
        _ => Handshake::Done(ClockSync { offset_ms: 0 }),
    }
}

/// Converting a local moment to the server's clock by adding the offset, and back,
/// gives the local moment.
pub proof fn law_conversion_undoes_offset(clock: ClockSync, local_ms: u64)
    requires
        local_ms <= i64::MAX,
        0 <= local_ms + clock.offset_ms <= i64::MAX,
    ensures
        clock.convertible_spec((local_ms + clock.offset_ms) as u64),
        clock.server_to_local((local_ms + clock.offset_ms) as u64) == local_ms,
{
}

/// Two clients act at the same moment of the server's clock: wherever a deadline does
/// not fall before a client's epoch, its local deadline plus its offset is the server's.
pub proof fn law_clients_meet_at_deadline(a: ClockSync, b: ClockSync, deadline_ms: u64)
    requires
        deadline_ms <= i64::MAX,
        a.local_time(deadline_ms) >= 0,
        b.local_time(deadline_ms) >= 0,
    ensures
        a.server_to_local(deadline_ms) + a.offset_ms == deadline_ms,
        b.server_to_local(deadline_ms) + b.offset_ms == deadline_ms,
        a.server_to_local(deadline_ms) + a.offset_ms == b.server_to_local(deadline_ms)
            + b.offset_ms,
{
}

/// The clock of an exchange maps the server's time in the pong to the middle of the
/// round trip.
pub proof fn law_pong_time_is_midpoint(sample: PingSample)
    requires
        sample.in_range_spec(),
        sample.midpoint() <= i64::MAX,
    ensures
        ({
            let clock = ClockSync { offset_ms: sample.offset_spec() as i64 };
            clock.server_to_local(sample.server_ts_ms) == sample.midpoint()
        }),
{
}

/// Where a ping travels as long as its pong, the measured offset is the true one.
pub proof fn law_symmetric_exchange_is_exact(ping_ts_ms: u64, one_way_ms: u64, true_offset: i64)
    requires
        ping_ts_ms + 2 * one_way_ms <= i64::MAX,
        0 <= ping_ts_ms + one_way_ms + true_offset <= i64::MAX,
    ensures
        ({
            let sample = sample_of(
                ping_ts_ms,
                (ping_ts_ms + 2 * one_way_ms) as u64,
                (ping_ts_ms + one_way_ms + true_offset) as u64,
                ping_ts_ms,
            );
            sample.in_range_spec() && sample.offset_spec() == true_offset
        }),
{
}

/// The exchange that counts is determined: no two positions are the first with the
/// shortest round trip. A single exchange always counts.
pub proof fn law_best_exchange_is_unique(samples: Seq<PingSample>, a: int, b: int)
    requires
        is_best(samples, a),
    ensures
        is_best(samples, b) <==> b == a,
        samples.len() == 1 ==> a == 0,
{
    if is_best(samples, b) {
        assert(samples[a].rtt_spec() <= samples[b].rtt_spec());
        assert(samples[b].rtt_spec() <= samples[a].rtt_spec());
    }
}

/// No event of the server is lost while the client waits for its first pong.
pub proof fn law_early_events_are_handed_on(
    line: String,
    ev: ServerEvent,
    ping_ts_ms: u64,
    now_ms: u64,
)
    requires
        protocol::server_event_of(line@) == Some(ev),
        !(ev is Pong),
    ensures
        handshake_spec(LineInput::Line(line), ping_ts_ms, now_ms) == Handshake::Deliver(ev),
{
}

/// Reading 64 bits as a signed number changes it by nothing or by the whole range, so that
/// it fits.
pub proof fn law_signed_reading(x: u64, y: int)
    ensures
        -0x8000_0000_0000_0000 <= as_signed(x) < 0x8000_0000_0000_0000,
        as_signed(x) == x || as_signed(x) == x - 0x1_0000_0000_0000_0000,
        fits_i64(y) <==> -0x8000_0000_0000_0000 <= y < 0x8000_0000_0000_0000,
{
}

/// The offset of an exchange, over its four times: the server's time minus the echoed time
/// and half the round trip, rounded down, whether the round trip is even or odd. A clock
/// that went backwards counts as no round trip. The offset can be had wherever times and
/// offset fit in 64 bits with a sign.
pub proof fn law_offset_over_the_four_times(
    ping_ts_ms: u64,
    pong_received_ms: u64,
    server_ts_ms: u64,
    client_ts_ms: u64,
)
    ensures
        ({
            let sample = PingSample { ping_ts_ms, pong_received_ms, server_ts_ms, client_ts_ms };
            let rtt = if pong_received_ms > ping_ts_ms {
                pong_received_ms - ping_ts_ms
            } else {
                0
            };
            let mid = client_ts_ms + rtt / 2;
            let signed_mid = if mid <= i64::MAX {
                mid
            } else {
                mid - 0x1_0000_0000_0000_0000
            };
            let signed_server = if server_ts_ms <= i64::MAX {
                server_ts_ms as int
            } else {
                server_ts_ms - 0x1_0000_0000_0000_0000
            };
            &&& sample.rtt_spec() == rtt
            &&& sample.in_range_spec() <==> mid <= u64::MAX && i64::MIN <= signed_server
                - signed_mid <= i64::MAX
            &&& sample.in_range_spec() ==> sample.offset_spec() == signed_server - signed_mid
            &&& mid <= i64::MAX && server_ts_ms <= i64::MAX ==> sample.in_range_spec()
                && sample.offset_spec() == server_ts_ms - (client_ts_ms + rtt / 2)
        }),
{
}

/// A client that gets its pong some time after its ping, with its own time echoed, takes
/// the server's clock to be ahead by the server's time minus the middle of the round trip.
pub proof fn law_pong_sets_the_clock(
    line: String,
    ping_ts_ms: u64,
    rtt_ms: u64,
    server_ts_ms: u64,
)
    requires
        ping_ts_ms + rtt_ms <= i64::MAX,
        server_ts_ms <= i64::MAX,
        line@ == protocol::server_line(
            ServerEvent::Pong { server_ts_ms, client_ts_ms: ping_ts_ms },
        ),
    ensures
        handshake_spec(
            LineInput::Line(line),
            ping_ts_ms,
            (ping_ts_ms + rtt_ms) as u64,
        ) matches Handshake::Done(clock) && clock.offset_ms == server_ts_ms - (ping_ts_ms + rtt_ms
            / 2),
{
    protocol::law_server_event_round_trip(
        ServerEvent::Pong { server_ts_ms, client_ts_ms: ping_ts_ms },
    );
}

/// However a round trip divides into the way there and the way back, the measured offset is
/// wrong by no more than half the round trip, rounded up.
pub proof fn law_error_is_at_most_half_the_round_trip(
    ping_ts_ms: u64,
    there_ms: u64,
    back_ms: u64,
    true_offset: i64,
)
    requires
        ping_ts_ms + there_ms + back_ms <= i64::MAX,
        0 <= ping_ts_ms + there_ms + true_offset <= i64::MAX,
    ensures
        ({
            let sample = PingSample {
                ping_ts_ms,
                pong_received_ms: (ping_ts_ms + there_ms + back_ms) as u64,
                server_ts_ms: (ping_ts_ms + there_ms + true_offset) as u64,
                client_ts_ms: ping_ts_ms,
            };
            let error = sample.offset_spec() - true_offset;
            &&& sample.in_range_spec()
            &&& error == there_ms - (there_ms + back_ms) / 2
            &&& -(there_ms + back_ms) <= 2 * error <= there_ms + back_ms + 1
        }),
{
}

/// The exchange that counts has a round trip that none of the others undercuts, and all
/// before it took longer.
pub proof fn law_shortest_round_trip_counts(samples: Seq<PingSample>, best: int, i: int)
    requires
        is_best(samples, best),
        0 <= i < samples.len(),
    ensures
        ({
            let took = |s: PingSample|
                if s.pong_received_ms > s.ping_ts_ms {
                    s.pong_received_ms - s.ping_ts_ms
                } else {
                    0
                };
            &&& 0 <= best < samples.len()
            &&& took(samples[best]) <= took(samples[i])
            &&& i < best ==> took(samples[best]) < took(samples[i])
        }),
{
    assert(samples[best].rtt_spec() <= samples[i].rtt_spec());
}

/// A moment of the server's clock is the offset later than the local one: converting takes
/// the offset off, but goes no further back than the epoch. It can be done wherever the
/// difference fits in 64 bits with a sign.
pub proof fn law_conversion_takes_the_offset_off(clock: ClockSync, server_ts_ms: u64)
    ensures
        ({
            let signed_server = if server_ts_ms <= i64::MAX {
                server_ts_ms as int
            } else {
                server_ts_ms - 0x1_0000_0000_0000_0000
            };
            let local = signed_server - clock.offset_ms;
            &&& clock.local_time(server_ts_ms) == local
            &&& clock.convertible_spec(server_ts_ms) <==> i64::MIN <= local <= i64::MAX
            &&& local >= 0 ==> clock.server_to_local(server_ts_ms) == local
            &&& local < 0 ==> clock.server_to_local(server_ts_ms) == 0
        }),
{
}

/// How the wait for the first pong goes on, by what is read: a pong ends it with the offset
/// of its exchange, or without a clock where that does not fit; a line without an event does
/// not count; the end of the connection leaves the clocks in agreement.
pub proof fn law_wait_for_the_pong(line: String, ping_ts_ms: u64, now_ms: u64)
    ensures
        handshake_spec(LineInput::Eof, ping_ts_ms, now_ms) == Handshake::Done(
            ClockSync { offset_ms: 0 },
        ),
        handshake_spec(LineInput::Failed, ping_ts_ms, now_ms) == Handshake::Done(
            ClockSync { offset_ms: 0 },
        ),
        protocol::server_event_of(line@) is None ==> handshake_spec(
            LineInput::Line(line),
            ping_ts_ms,
            now_ms,
        ) == Handshake::KeepReading,
        protocol::server_event_of(line@) matches Some(
            ServerEvent::Pong { server_ts_ms, client_ts_ms },
        ) ==> {
            let sample = PingSample {
                ping_ts_ms,
                pong_received_ms: now_ms,
                server_ts_ms,
                client_ts_ms,
            };
            match handshake_spec(LineInput::Line(line), ping_ts_ms, now_ms) {
                Handshake::Done(clock) => sample.in_range_spec() && clock.offset_ms
                    == sample.offset_spec(),
                Handshake::OutOfRange => !sample.in_range_spec(),
                _ => false,
            }
        },
{
}

/// A reading of the clock is what the system clock gave, and nothing else is one.
proof fn law_readings_come_from_the_system_clock(since_epoch: Option<u128>)
    ensures
        clock_read(since_epoch) <==> call_ensures(epoch_millis, (), since_epoch),
{
}

} // verus!
