//! The text protocol between clients and the relay server, one event per line.
use crate::text;
use crate::text::{append_decimal, parse_u64, same_text, strip_prefix, trimmed_chars, words};
use vstd::prelude::*;

verus! {

/// Events from a client to the server: what the client intends.
#[derive(Debug, Clone, Copy, PartialEq, Eq, Structural)]
pub enum ClientEvent {
    /// Clock synchronization: the client's own time (ms since the epoch).
    Ping(u64),
    /// The client is ready to play from this position (ms).
    Ready(u64),
    /// The client is ready to pause at this position (ms).
    PauseReady(u64),
    /// The client is ready to seek to this position (ms).
    SeekReady(u64),
}

/// Events from the server to a client: what the client is told to do.
#[derive(Debug, Clone, Copy, PartialEq, Eq, Structural)]
pub enum ServerEvent {
    /// Answer to a ping: the server's time and the echo of the client's.
    Pong { server_ts_ms: u64, client_ts_ms: u64 },
    /// Start playback at this moment of the server's clock, from this position.
    Start { deadline_ms: u64, pos_ms: u64 },
    /// Pause at this moment of the server's clock, at this position.
    PauseAt { deadline_ms: u64, pos_ms: u64 },
    /// Seek at this moment of the server's clock, to this position.
    SeekAt { deadline_ms: u64, pos_ms: u64 },
    /// The server's current state, for a client that joins late.
    State {
        playing: bool,
        pos_ms: u64,
        /// While playing, the moment at which playback started; otherwise ignored.
        playback_started_at_ms: Option<u64>,
    },
    /// The connection to the server is gone. Never on the wire.
    Disconnected,
}

/// The tag, one number and a newline.
pub open spec fn line1(tag: Seq<char>, a: u64) -> Seq<char> {
    tag + text::decimal(a as nat) + "\n"@
}

/// The tag, two numbers and a newline.
pub open spec fn line2(tag: Seq<char>, a: u64, b: u64) -> Seq<char> {
    tag + text::decimal(a as nat) + " "@ + text::decimal(b as nat) + "\n"@
}

/// The line that carries a client's event.
pub open spec fn client_line(ev: ClientEvent) -> Seq<char> {
    match ev {
        ClientEvent::Ping(ts) => line1("PING "@, ts),
        ClientEvent::Ready(pos) => line1("READY "@, pos),
        ClientEvent::PauseReady(pos) => line1("PAUSE_READY "@, pos),
        ClientEvent::SeekReady(pos) => line1("SEEK_READY "@, pos),
    }
}

/// The flag word of a state line, with the space behind it.
pub open spec fn flag_text(playing: bool) -> Seq<char> {
    if playing {
        "1 "@
    } else {
        "0 "@
    }
}

/// The line that carries a server's event. A missing start moment is written as zero.
pub open spec fn server_line(ev: ServerEvent) -> Seq<char> {
    match ev {
        ServerEvent::Pong { server_ts_ms, client_ts_ms } => line2(
            "PONG "@,
            server_ts_ms,
            client_ts_ms,
        ),
        ServerEvent::Start { deadline_ms, pos_ms } => line2("START "@, deadline_ms, pos_ms),
        ServerEvent::PauseAt { deadline_ms, pos_ms } => line2("PAUSE_AT "@, deadline_ms, pos_ms),
        ServerEvent::SeekAt { deadline_ms, pos_ms } => line2("SEEK_AT "@, deadline_ms, pos_ms),
        ServerEvent::State { playing, pos_ms, playback_started_at_ms } => line2(
            "STATE "@ + flag_text(playing),
            pos_ms,
            match playback_started_at_ms {
                Some(t) => t,
                None => 0,
            },
        ),
        ServerEvent::Disconnected => Seq::empty(),
    }
}

/// The number that follows `tag` to the end of `t`, where `t` begins with `tag`.
pub open spec fn tagged_number(t: Seq<char>, tag: Seq<char>) -> Option<u64> {
    match text::strip_prefix_spec(t, tag) {
        Some(rest) => crate::text::parse_u64_spec(rest),
        None => None,
    }
}

/// The client's event that a line carries, if it carries one.
pub open spec fn client_event_of(line: Seq<char>) -> Option<ClientEvent> {
    let t = text::trim_spec(line);
    if let Some(ts) = tagged_number(t, "PING "@) {
        Some(ClientEvent::Ping(ts))
    } else if let Some(pos) = tagged_number(t, "READY "@) {
        Some(ClientEvent::Ready(pos))
    } else if let Some(pos) = tagged_number(t, "PAUSE_READY "@) {
        Some(ClientEvent::PauseReady(pos))
    } else if let Some(pos) = tagged_number(t, "SEEK_READY "@) {
        Some(ClientEvent::SeekReady(pos))
    } else {
        None
    }
}

/// The words that follow `tag`, where `t` begins with `tag`.
pub open spec fn tagged_words(t: Seq<char>, tag: Seq<char>) -> Option<Seq<Seq<char>>> {
    match text::strip_prefix_spec(t, tag) {
        Some(rest) => Some(text::words_spec(rest)),
        None => None,
    }
}

/// The numbers in the first two words after `tag`; further words do not matter.
pub open spec fn tagged_pair(t: Seq<char>, tag: Seq<char>) -> Option<(u64, u64)> {
    match tagged_words(t, tag) {
        Some(w) => if w.len() >= 2 {
            match (crate::text::parse_u64_spec(w[0]), crate::text::parse_u64_spec(w[1])) {
                (Some(a), Some(b)) => Some((a, b)),
                _ => None,
            }
        } else {
            None
        },
        None => None,
    }
}

/// The state after the tag `STATE `: a flag, a position and a start moment. Any flag
/// word but `1` means paused; a start moment that is no number is missing.
pub open spec fn state_event_of(t: Seq<char>) -> Option<ServerEvent> {
    match tagged_words(t, "STATE "@) {
        Some(w) => if w.len() >= 3 {
            match crate::text::parse_u64_spec(w[1]) {
                Some(pos_ms) => Some(
                    ServerEvent::State {
                        playing: w[0] == "1"@,
                        pos_ms,
                        playback_started_at_ms: crate::text::parse_u64_spec(w[2]),
                    },
                ),
                None => None,
            }
        } else {
            None
        },
        None => None,
    }
}

/// The server's event that a line carries, if it carries one.
pub open spec fn server_event_of(line: Seq<char>) -> Option<ServerEvent> {
    let t = text::trim_spec(line);
    if let Some((server_ts_ms, client_ts_ms)) = tagged_pair(t, "PONG "@) {
        Some(ServerEvent::Pong { server_ts_ms, client_ts_ms })
    } else if let Some((deadline_ms, pos_ms)) = tagged_pair(t, "START "@) {
        Some(ServerEvent::Start { deadline_ms, pos_ms })
    } else if let Some((deadline_ms, pos_ms)) = tagged_pair(t, "PAUSE_AT "@) {
        Some(ServerEvent::PauseAt { deadline_ms, pos_ms })
    } else if let Some((deadline_ms, pos_ms)) = tagged_pair(t, "SEEK_AT "@) {
        Some(ServerEvent::SeekAt { deadline_ms, pos_ms })
    } else {
        state_event_of(t)
    }
}

fn write_line1(tag: &str, a: u64) -> (r: String)
    ensures
        r@ == line1(tag@, a),
{
    let mut out = String::new();
    out.append(tag);
    append_decimal(&mut out, a);
    out.append("\n");
    assert(out@ =~= line1(tag@, a));
    out
}

fn write_line2(tag: &str, a: u64, b: u64) -> (r: String)
    ensures
        r@ == line2(tag@, a, b),
{
    let mut out = String::new();
    out.append(tag);
    append_decimal(&mut out, a);
    out.append(" ");
    append_decimal(&mut out, b);
    out.append("\n");
    assert(out@ =~= line2(tag@, a, b));
    out
}

/// The line for a client's event, with its newline.
pub fn serialize_client_event(ev: &ClientEvent) -> (r: String)
    ensures
        r@ == client_line(*ev),
{
    match *ev {
        ClientEvent::Ping(ts) => write_line1("PING ", ts),
        ClientEvent::Ready(pos) => write_line1("READY ", pos),
        ClientEvent::PauseReady(pos) => write_line1("PAUSE_READY ", pos),
        ClientEvent::SeekReady(pos) => write_line1("SEEK_READY ", pos),
    }
}

/// The line for a server's event, with its newline. `Disconnected` has none: it is made
/// on the client's side only.
pub fn serialize_server_event(ev: &ServerEvent) -> (r: String)
    requires
        !(*ev is Disconnected),
    ensures
        r@ == server_line(*ev),
{
    match *ev {
        ServerEvent::Pong { server_ts_ms, client_ts_ms } => write_line2(
            "PONG ",
            server_ts_ms,
            client_ts_ms,
        ),
        ServerEvent::Start { deadline_ms, pos_ms } => write_line2("START ", deadline_ms, pos_ms),
        ServerEvent::PauseAt { deadline_ms, pos_ms } => write_line2(
            "PAUSE_AT ",
            deadline_ms,
            pos_ms,
        ),
        ServerEvent::SeekAt { deadline_ms, pos_ms } => write_line2("SEEK_AT ", deadline_ms, pos_ms),
        ServerEvent::State { playing, pos_ms, playback_started_at_ms } => {
            let started: u64 = match playback_started_at_ms {
                Some(t) => t,
                None => 0,
            };
            let mut tag = String::new();
            tag.append("STATE ");
            tag.append(
                if playing {
                    "1 "
                } else {
                    "0 "
                },
            );
            assert(tag@ =~= "STATE "@ + flag_text(playing));
            write_line2(tag.as_str(), pos_ms, started)
        },
        ServerEvent::Disconnected => String::new(),
    }
}

fn read_tagged_number(t: &Vec<char>, tag: &str) -> (r: Option<u64>)
    ensures
        r == tagged_number(t@, tag@),
{
    match strip_prefix(t, tag) {
        Some(rest) => parse_u64(&rest),
        None => None,
    }
}

/// The client's event on a line; `None` where the line carries none.
pub fn parse_client_event(line: &str) -> (r: Option<ClientEvent>)
    ensures
        r == client_event_of(line@),
{
    let t = trimmed_chars(line);
    if let Some(ts) = read_tagged_number(&t, "PING ") {
        return Some(ClientEvent::Ping(ts));
    }
    if let Some(pos) = read_tagged_number(&t, "READY ") {
        return Some(ClientEvent::Ready(pos));
    }
    if let Some(pos) = read_tagged_number(&t, "PAUSE_READY ") {
        return Some(ClientEvent::PauseReady(pos));
    }
    if let Some(pos) = read_tagged_number(&t, "SEEK_READY ") {
        return Some(ClientEvent::SeekReady(pos));
    }
    None
}

fn read_tagged_pair(t: &Vec<char>, tag: &str) -> (r: Option<(u64, u64)>)
    ensures
        r == tagged_pair(t@, tag@),
{
    match strip_prefix(t, tag) {
        Some(rest) => {
            let w = words(&rest);
            if w.len() >= 2 {
                match (parse_u64(&w[0]), parse_u64(&w[1])) {
                    (Some(a), Some(b)) => Some((a, b)),
                    _ => None,
                }
            } else {
                None
            }
        },
        None => None,
    }
}

fn read_state(t: &Vec<char>) -> (r: Option<ServerEvent>)
    ensures
        r == state_event_of(t@),
{
    match strip_prefix(t, "STATE ") {
        Some(rest) => {
            let w = words(&rest);
            if w.len() >= 3 {
                match parse_u64(&w[1]) {
                    Some(pos_ms) => Some(
                        ServerEvent::State {
                            playing: same_text(&w[0], "1"),
                            pos_ms,
                            playback_started_at_ms: parse_u64(&w[2]),
                        },
                    ),
                    None => None,
                }
            } else {
                None
            }
        },
        None => None,
    }
}

/// The server's event on a line; `None` where the line carries none.
pub fn parse_server_event(line: &str) -> (r: Option<ServerEvent>)
    ensures
        r == server_event_of(line@),
{
    let t = trimmed_chars(line);
    if let Some((server_ts_ms, client_ts_ms)) = read_tagged_pair(&t, "PONG ") {
        return Some(ServerEvent::Pong { server_ts_ms, client_ts_ms });
    }
    if let Some((deadline_ms, pos_ms)) = read_tagged_pair(&t, "START ") {
        return Some(ServerEvent::Start { deadline_ms, pos_ms });
    }
    if let Some((deadline_ms, pos_ms)) = read_tagged_pair(&t, "PAUSE_AT ") {
        return Some(ServerEvent::PauseAt { deadline_ms, pos_ms });
    }
    if let Some((deadline_ms, pos_ms)) = read_tagged_pair(&t, "SEEK_AT ") {
        return Some(ServerEvent::SeekAt { deadline_ms, pos_ms });
    }
    read_state(&t)
}

/// What a server's event becomes on its way through a line: a missing start moment
/// arrives as zero.
pub open spec fn as_received(ev: ServerEvent) -> ServerEvent {
    match ev {
        ServerEvent::State { playing, pos_ms, playback_started_at_ms: None } => ServerEvent::State {
            playing,
            pos_ms,
            playback_started_at_ms: Some(0),
        },
        _ => ev,
    }
}

proof fn lemma_line1(tag: Seq<char>, a: u64)
    requires
        tag.len() > 0,
        !text::white_space(tag[0]),
    ensures
        text::trim_spec(line1(tag, a)) == tag + text::decimal(a as nat),
        tagged_number(tag + text::decimal(a as nat), tag) == Some(a),
{
    let d = text::decimal(a as nat);
    reveal_strlit("\n");
    text::lemma_decimal(a as nat);
    text::lemma_digits_no_white_space(d);
    let body = tag + d;
    assert(body.last() == d[d.len() - 1]);
    assert(line1(tag, a) =~= body.push('\n'));
    text::lemma_trim_line(body);
    text::lemma_strip_tag(tag, d);
    text::law_decimal_reads_back(a);
}

/// A client's event arrives as it was sent: reading the line that was written for it
/// gives the event back.
pub proof fn law_client_event_round_trip(ev: ClientEvent)
    ensures
        client_event_of(client_line(ev)) == Some(ev),
{
    reveal_strlit("PING ");
    reveal_strlit("READY ");
    reveal_strlit("PAUSE_READY ");
    reveal_strlit("SEEK_READY ");
    match ev {
        ClientEvent::Ping(a) => {
            lemma_line1("PING "@, a);
        },
        ClientEvent::Ready(a) => {
            lemma_line1("READY "@, a);
            let t = "READY "@ + text::decimal(a as nat);
            assert(t[0] == 'R');
            assert(!"PING "@.is_prefix_of(t));
        },
        ClientEvent::PauseReady(a) => {
            lemma_line1("PAUSE_READY "@, a);
            let t = "PAUSE_READY "@ + text::decimal(a as nat);
            assert(t[0] == 'P' && t[1] == 'A');
            assert(!"PING "@.is_prefix_of(t));
            assert(!"READY "@.is_prefix_of(t));
        },
        ClientEvent::SeekReady(a) => {
            lemma_line1("SEEK_READY "@, a);
            let t = "SEEK_READY "@ + text::decimal(a as nat);
            assert(t[0] == 'S');
            assert(!"PING "@.is_prefix_of(t));
            assert(!"READY "@.is_prefix_of(t));
            assert(!"PAUSE_READY "@.is_prefix_of(t));
        },
    }
}

/// The text of a line with two numbers, without its newline.
spec fn body2(tag: Seq<char>, a: u64, b: u64) -> Seq<char> {
    tag + (text::decimal(a as nat).push(' ') + text::decimal(b as nat))
}

proof fn lemma_line2(tag: Seq<char>, a: u64, b: u64)
    requires
        tag.len() > 0,
        !text::white_space(tag[0]),
    ensures
        text::trim_spec(line2(tag, a, b)) == body2(tag, a, b),
        tagged_words(body2(tag, a, b), tag) == Some(
            seq![text::decimal(a as nat), text::decimal(b as nat)],
        ),
        tagged_pair(body2(tag, a, b), tag) == Some((a, b)),
{
    let da = text::decimal(a as nat);
    let db = text::decimal(b as nat);
    reveal_strlit("\n");
    reveal_strlit(" ");
    text::lemma_decimal(a as nat);
    text::lemma_decimal(b as nat);
    text::lemma_digits_no_white_space(da);
    text::lemma_digits_no_white_space(db);
    let body = body2(tag, a, b);
    assert(body.last() == db[db.len() - 1]);
    assert(line2(tag, a, b) =~= body.push('\n'));
    text::lemma_trim_line(body);
    let rest = da.push(' ') + db;
    text::lemma_strip_tag(tag, rest);
    text::lemma_first_word(da, db);
    text::lemma_single_word(db);
    assert(seq![da] + seq![db] =~= seq![da, db]);
    text::law_decimal_reads_back(a);
    text::law_decimal_reads_back(b);
}

proof fn lemma_state_round_trip(playing: bool, pos_ms: u64, playback_started_at_ms: Option<u64>)
    ensures
        ({
            let ev = ServerEvent::State { playing, pos_ms, playback_started_at_ms };
            server_event_of(server_line(ev)) == Some(as_received(ev))
        }),
{
    let started: u64 = match playback_started_at_ms {
        Some(t) => t,
        None => 0,
    };
    reveal_strlit("STATE ");
    reveal_strlit("1 ");
    reveal_strlit("0 ");
    reveal_strlit("1");
    let flag = flag_text(playing);
    let tag = "STATE "@ + flag;
    assert(tag[0] == 'S');
    lemma_line2(tag, pos_ms, started);
    let t = body2(tag, pos_ms, started);
    assert(t[0] == 'S' && t[1] == 'T' && t[3] == 'T');
    assert(!"PONG "@.is_prefix_of(t)) by {
        reveal_strlit("PONG ");
    }
    assert(!"START "@.is_prefix_of(t)) by {
        reveal_strlit("START ");
        assert("START "@[3] == 'R');
    }
    assert(!"PAUSE_AT "@.is_prefix_of(t)) by {
        reveal_strlit("PAUSE_AT ");
    }
    assert(!"SEEK_AT "@.is_prefix_of(t)) by {
        reveal_strlit("SEEK_AT ");
    }
    let dp = text::decimal(pos_ms as nat);
    let ds = text::decimal(started as nat);
    let f = seq![flag[0]];
    let numbers = dp.push(' ') + ds;
    let rest = f.push(' ') + numbers;
    assert(flag =~= f.push(' '));
    assert(t =~= "STATE "@ + rest);
    text::lemma_strip_tag("STATE "@, rest);
    text::lemma_strip_tag(tag, numbers);
    text::lemma_first_word(f, numbers);
    assert(text::words_spec(numbers) == seq![dp, ds]);
    let w = text::words_spec(rest);
    assert(w == seq![f] + seq![dp, ds]);
    assert(w.len() == 3 && w[0] == f && w[1] == dp && w[2] == ds);
    assert((f == "1"@) == playing) by {
        if playing {
            assert(f =~= "1"@);
        } else {
            assert(f[0] != "1"@[0]);
        }
    }
    text::law_decimal_reads_back(pos_ms);
    text::law_decimal_reads_back(started);
}

/// A server's event arrives as it was sent, but for a missing start moment, which
/// arrives as zero.
pub proof fn law_server_event_round_trip(ev: ServerEvent)
    requires
        !(ev is Disconnected),
    ensures
        server_event_of(server_line(ev)) == Some(as_received(ev)),
{
    reveal_strlit("PONG ");
    reveal_strlit("START ");
    reveal_strlit("PAUSE_AT ");
    reveal_strlit("SEEK_AT ");
    reveal_strlit("STATE ");
    match ev {
        ServerEvent::Pong { server_ts_ms, client_ts_ms } => {
            lemma_line2("PONG "@, server_ts_ms, client_ts_ms);
        },
        ServerEvent::Start { deadline_ms, pos_ms } => {
            lemma_line2("START "@, deadline_ms, pos_ms);
            let t = body2("START "@, deadline_ms, pos_ms);
            assert(t[0] == 'S');
            assert(!"PONG "@.is_prefix_of(t));
        },
        ServerEvent::PauseAt { deadline_ms, pos_ms } => {
            lemma_line2("PAUSE_AT "@, deadline_ms, pos_ms);
            let t = body2("PAUSE_AT "@, deadline_ms, pos_ms);
            assert(t[0] == 'P' && t[1] == 'A');
            assert(!"PONG "@.is_prefix_of(t));
            assert(!"START "@.is_prefix_of(t));
        },
        ServerEvent::SeekAt { deadline_ms, pos_ms } => {
            lemma_line2("SEEK_AT "@, deadline_ms, pos_ms);
            let t = body2("SEEK_AT "@, deadline_ms, pos_ms);
            assert(t[0] == 'S' && t[1] == 'E');
            assert(!"PONG "@.is_prefix_of(t));
            assert(!"START "@.is_prefix_of(t));
            assert(!"PAUSE_AT "@.is_prefix_of(t));
        },
        ServerEvent::State { playing, pos_ms, playback_started_at_ms } => {
            lemma_state_round_trip(playing, pos_ms, playback_started_at_ms);
        },
        ServerEvent::Disconnected => {},
    }
}

/// `line` is one line: it ends in a newline and holds no other.
pub open spec fn one_line(line: Seq<char>) -> bool {
    &&& line.len() > 0
    &&& forall|i: int| 0 <= i < line.len() ==> (#[trigger] line[i] == '\n' <==> i == line.len() - 1)
}

proof fn lemma_decimal_has_no_newline(n: nat)
    ensures
        forall|i: int| 0 <= i < text::decimal(n).len() ==> #[trigger] text::decimal(n)[i] != '\n',
{
    text::lemma_decimal(n);
    assert forall|i: int| 0 <= i < text::decimal(n).len() implies #[trigger] text::decimal(n)[i]
        != '\n' by {
        assert(text::digit(text::decimal(n)[i]));
    }
}

/// Every event is written as exactly one line, so a reader that takes one line at a
/// time takes one event at a time.
pub proof fn law_client_events_are_lines(ev: ClientEvent)
    ensures
        one_line(client_line(ev)),
{
    reveal_strlit("PING ");
    reveal_strlit("READY ");
    reveal_strlit("PAUSE_READY ");
    reveal_strlit("SEEK_READY ");
    reveal_strlit("\n");
    match ev {
        ClientEvent::Ping(a) => lemma_decimal_has_no_newline(a as nat),
        ClientEvent::Ready(a) => lemma_decimal_has_no_newline(a as nat),
        ClientEvent::PauseReady(a) => lemma_decimal_has_no_newline(a as nat),
        ClientEvent::SeekReady(a) => lemma_decimal_has_no_newline(a as nat),
    }
}

/// Every server's event that goes over the wire is written as exactly one line.
pub proof fn law_server_events_are_lines(ev: ServerEvent)
    requires
        !(ev is Disconnected),
    ensures
        one_line(server_line(ev)),
{
    reveal_strlit("PONG ");
    reveal_strlit("START ");
    reveal_strlit("PAUSE_AT ");
    reveal_strlit("SEEK_AT ");
    reveal_strlit("STATE ");
    reveal_strlit("0 ");
    reveal_strlit("1 ");
    reveal_strlit(" ");
    reveal_strlit("\n");
    match ev {
        ServerEvent::Pong { server_ts_ms, client_ts_ms } => {
            lemma_decimal_has_no_newline(server_ts_ms as nat);
            lemma_decimal_has_no_newline(client_ts_ms as nat);
        },
        ServerEvent::Start { deadline_ms, pos_ms } => {
            lemma_decimal_has_no_newline(deadline_ms as nat);
            lemma_decimal_has_no_newline(pos_ms as nat);
        },
        ServerEvent::PauseAt { deadline_ms, pos_ms } => {
            lemma_decimal_has_no_newline(deadline_ms as nat);
            lemma_decimal_has_no_newline(pos_ms as nat);
        },
        ServerEvent::SeekAt { deadline_ms, pos_ms } => {
            lemma_decimal_has_no_newline(deadline_ms as nat);
            lemma_decimal_has_no_newline(pos_ms as nat);
        },
        ServerEvent::State { playing, pos_ms, playback_started_at_ms } => {
            let started: u64 = match playback_started_at_ms {
                Some(t) => t,
                None => 0,
            };
            lemma_decimal_has_no_newline(pos_ms as nat);
            lemma_decimal_has_no_newline(started as nat);
        },
        ServerEvent::Disconnected => {},
    }
}

/// What a client's event looks like on the wire: a tag, a space, the number in decimal
/// notation and a newline.
pub proof fn law_client_wire_format(n: u64)
    ensures
        client_line(ClientEvent::Ping(n)) == "PING "@ + text::decimal(n as nat) + "\n"@,
        client_line(ClientEvent::Ready(n)) == "READY "@ + text::decimal(n as nat) + "\n"@,
        client_line(ClientEvent::PauseReady(n)) == "PAUSE_READY "@ + text::decimal(n as nat)
            + "\n"@,
        client_line(ClientEvent::SeekReady(n)) == "SEEK_READY "@ + text::decimal(n as nat) + "\n"@,
{
}

/// What a server's event looks like on the wire: a tag and two numbers, parted by single
/// spaces, and a newline; for a state also a flag in front of the numbers.
pub proof fn law_server_wire_format(a: u64, b: u64)
    ensures
        ({
            let numbers = text::decimal(a as nat) + " "@ + text::decimal(b as nat) + "\n"@;
            &&& server_line(ServerEvent::Pong { server_ts_ms: a, client_ts_ms: b }) == "PONG "@
                + numbers
            &&& server_line(ServerEvent::Start { deadline_ms: a, pos_ms: b }) == "START "@ + numbers
            &&& server_line(ServerEvent::PauseAt { deadline_ms: a, pos_ms: b }) == "PAUSE_AT "@
                + numbers
            &&& server_line(ServerEvent::SeekAt { deadline_ms: a, pos_ms: b }) == "SEEK_AT "@
                + numbers
            &&& server_line(
                ServerEvent::State { playing: true, pos_ms: a, playback_started_at_ms: Some(b) },
            ) == "STATE 1 "@ + numbers
            &&& server_line(
                ServerEvent::State { playing: false, pos_ms: a, playback_started_at_ms: Some(b) },
            ) == "STATE 0 "@ + numbers
        }),
        server_line(
            ServerEvent::State { playing: true, pos_ms: a, playback_started_at_ms: None },
        ) == "STATE 1 "@ + text::decimal(a as nat) + " 0\n"@,
        server_line(
            ServerEvent::State { playing: false, pos_ms: a, playback_started_at_ms: None },
        ) == "STATE 0 "@ + text::decimal(a as nat) + " 0\n"@,
{
    let numbers = text::decimal(a as nat) + " "@ + text::decimal(b as nat) + "\n"@;
    assert(line2("PONG "@, a, b) =~= "PONG "@ + numbers);
    assert(line2("START "@, a, b) =~= "START "@ + numbers);
    assert(line2("PAUSE_AT "@, a, b) =~= "PAUSE_AT "@ + numbers);
    assert(line2("SEEK_AT "@, a, b) =~= "SEEK_AT "@ + numbers);
    reveal_strlit("STATE ");
    reveal_strlit("1 ");
    reveal_strlit("0 ");
    reveal_strlit("STATE 1 ");
    reveal_strlit("STATE 0 ");
    reveal_strlit(" ");
    reveal_strlit("\n");
    reveal_strlit(" 0\n");
    assert("STATE "@ + "1 "@ =~= "STATE 1 "@);
    assert("STATE "@ + "0 "@ =~= "STATE 0 "@);
    assert(line2("STATE 1 "@, a, b) =~= "STATE 1 "@ + numbers);
    assert(line2("STATE 0 "@, a, b) =~= "STATE 0 "@ + numbers);
    assert(text::decimal(0) =~= seq!['0']);
    assert(" "@ + text::decimal(0) + "\n"@ =~= " 0\n"@);
    assert(line2("STATE 1 "@, a, 0) =~= "STATE 1 "@ + text::decimal(a as nat) + " 0\n"@);
    assert(line2("STATE 0 "@, a, 0) =~= "STATE 0 "@ + text::decimal(a as nat) + " 0\n"@);
}

proof fn lemma_tagged_number(t: Seq<char>, tag: Seq<char>, n: u64)
    ensures
        tagged_number(t, tag) == Some(n) <==> exists|rest: Seq<char>|
            t == tag + rest && #[trigger] text::parse_u64_spec(rest) == Some(n),
{
    if tagged_number(t, tag) == Some(n) {
        let rest = t.skip(tag.len() as int);
        text::law_strip_prefix_undoes_prepending(t, tag, rest);
        assert(t == tag + rest && text::parse_u64_spec(rest) == Some(n));
    }
    if exists|rest: Seq<char>|
        t == tag + rest && #[trigger] text::parse_u64_spec(rest) == Some(n) {
        let rest = choose|rest: Seq<char>|
            t == tag + rest && #[trigger] text::parse_u64_spec(rest) == Some(n);
        text::law_strip_prefix_undoes_prepending(t, tag, rest);
    }
}

/// Which lines carry a client's event: those that consist of its tag and a number, but for
/// white space at the ends. No other line carries one.
pub proof fn law_client_lines_are_read(line: Seq<char>, ev: ClientEvent)
    ensures
        ({
            let (tag, n) = match ev {
                ClientEvent::Ping(n) => ("PING "@, n),
                ClientEvent::Ready(n) => ("READY "@, n),
                ClientEvent::PauseReady(n) => ("PAUSE_READY "@, n),
                ClientEvent::SeekReady(n) => ("SEEK_READY "@, n),
            };
            client_event_of(line) == Some(ev) <==> exists|rest: Seq<char>|
                text::trim_spec(line) == tag + rest && #[trigger] text::parse_u64_spec(rest)
                    == Some(n)
        }),
{
    reveal_strlit("PING ");
    reveal_strlit("READY ");
    reveal_strlit("PAUSE_READY ");
    reveal_strlit("SEEK_READY ");
    let t = text::trim_spec(line);
    let n = match ev {
        ClientEvent::Ping(n) => n,
        ClientEvent::Ready(n) => n,
        ClientEvent::PauseReady(n) => n,
        ClientEvent::SeekReady(n) => n,
    };
    lemma_tagged_number(t, "PING "@, n);
    lemma_tagged_number(t, "READY "@, n);
    lemma_tagged_number(t, "PAUSE_READY "@, n);
    lemma_tagged_number(t, "SEEK_READY "@, n);
    if "PING "@.is_prefix_of(t) {
        assert(t[0] == "PING "@[0] && t[1] == "PING "@[1]);
    }
    if "READY "@.is_prefix_of(t) {
        assert(t[0] == "READY "@[0]);
    }
    if "PAUSE_READY "@.is_prefix_of(t) {
        assert(t[0] == "PAUSE_READY "@[0] && t[1] == "PAUSE_READY "@[1]);
    }
    if "SEEK_READY "@.is_prefix_of(t) {
        assert(t[0] == "SEEK_READY "@[0]);
    }
}

proof fn lemma_tagged_pair(t: Seq<char>, tag: Seq<char>, a: u64, b: u64)
    ensures
        tagged_pair(t, tag) == Some((a, b)) <==> exists|rest: Seq<char>|
            t == tag + rest && #[trigger] text::words_spec(rest).len() >= 2
                && text::parse_u64_spec(text::words_spec(rest)[0]) == Some(a)
                && text::parse_u64_spec(text::words_spec(rest)[1]) == Some(b),
{
    if tagged_pair(t, tag) == Some((a, b)) {
        let rest = t.skip(tag.len() as int);
        text::law_strip_prefix_undoes_prepending(t, tag, rest);
        assert(t == tag + rest && text::words_spec(rest).len() >= 2);
    }
    if exists|rest: Seq<char>|
        t == tag + rest && #[trigger] text::words_spec(rest).len() >= 2 && text::parse_u64_spec(
            text::words_spec(rest)[0],
        ) == Some(a) && text::parse_u64_spec(text::words_spec(rest)[1]) == Some(b) {
        let rest = choose|rest: Seq<char>|
            t == tag + rest && #[trigger] text::words_spec(rest).len() >= 2 && text::parse_u64_spec(
                text::words_spec(rest)[0],
            ) == Some(a) && text::parse_u64_spec(text::words_spec(rest)[1]) == Some(b);
        text::law_strip_prefix_undoes_prepending(t, tag, rest);
    }
}

proof fn lemma_server_tags_differ(t: Seq<char>)
    ensures
        "PONG "@.is_prefix_of(t) ==> t.len() > 3 && t[0] == 'P' && t[1] == 'O',
        "START "@.is_prefix_of(t) ==> t.len() > 3 && t[0] == 'S' && t[1] == 'T' && t[3] == 'R',
        "PAUSE_AT "@.is_prefix_of(t) ==> t.len() > 3 && t[0] == 'P' && t[1] == 'A',
        "SEEK_AT "@.is_prefix_of(t) ==> t.len() > 3 && t[0] == 'S' && t[1] == 'E',
        "STATE "@.is_prefix_of(t) ==> t.len() > 3 && t[0] == 'S' && t[1] == 'T' && t[3] == 'T',
{
    reveal_strlit("PONG ");
    reveal_strlit("START ");
    reveal_strlit("PAUSE_AT ");
    reveal_strlit("SEEK_AT ");
    reveal_strlit("STATE ");
    if "PONG "@.is_prefix_of(t) {
        assert(t[0] == "PONG "@[0] && t[1] == "PONG "@[1]);
    }
    if "START "@.is_prefix_of(t) {
        assert(t[0] == "START "@[0] && t[1] == "START "@[1] && t[3] == "START "@[3]);
    }
    if "PAUSE_AT "@.is_prefix_of(t) {
        assert(t[0] == "PAUSE_AT "@[0] && t[1] == "PAUSE_AT "@[1]);
    }
    if "SEEK_AT "@.is_prefix_of(t) {
        assert(t[0] == "SEEK_AT "@[0] && t[1] == "SEEK_AT "@[1]);
    }
    if "STATE "@.is_prefix_of(t) {
        assert(t[0] == "STATE "@[0] && t[1] == "STATE "@[1] && t[3] == "STATE "@[3]);
    }
}

/// Which lines carry a server's event with two numbers: those in which the first two words
/// behind its tag are these numbers.
pub proof fn law_server_lines_are_read(line: Seq<char>, a: u64, b: u64)
    ensures
        ({
            let t = text::trim_spec(line);
            let says = |tag: Seq<char>|
                exists|rest: Seq<char>|
                    t == tag + rest && #[trigger] text::words_spec(rest).len() >= 2
                        && text::parse_u64_spec(text::words_spec(rest)[0]) == Some(a)
                        && text::parse_u64_spec(text::words_spec(rest)[1]) == Some(b);
            &&& server_event_of(line) == Some(
                ServerEvent::Pong { server_ts_ms: a, client_ts_ms: b },
            ) <==> says("PONG "@)
            &&& server_event_of(line) == Some(ServerEvent::Start { deadline_ms: a, pos_ms: b })
                <==> says("START "@)
            &&& server_event_of(line) == Some(ServerEvent::PauseAt { deadline_ms: a, pos_ms: b })
                <==> says("PAUSE_AT "@)
            &&& server_event_of(line) == Some(ServerEvent::SeekAt { deadline_ms: a, pos_ms: b })
                <==> says("SEEK_AT "@)
            &&& server_event_of(line) != Some(ServerEvent::Disconnected)
        }),
{
    let t = text::trim_spec(line);
    lemma_server_tags_differ(t);
    lemma_tagged_pair(t, "PONG "@, a, b);
    lemma_tagged_pair(t, "START "@, a, b);
    lemma_tagged_pair(t, "PAUSE_AT "@, a, b);
    lemma_tagged_pair(t, "SEEK_AT "@, a, b);
}

/// Which lines carry a state: those in which the second word behind the tag is the position.
/// The first word is `1` exactly if the others play; the third is the start moment, missing
/// where it is no number.
pub proof fn law_state_lines_are_read(
    line: Seq<char>,
    playing: bool,
    pos_ms: u64,
    playback_started_at_ms: Option<u64>,
)
    ensures
        server_event_of(line) == Some(
            ServerEvent::State { playing, pos_ms, playback_started_at_ms },
        ) <==> exists|rest: Seq<char>|
            text::trim_spec(line) == "STATE "@ + rest && #[trigger] text::words_spec(rest).len()
                >= 3 && playing == (text::words_spec(rest)[0] == "1"@) && text::parse_u64_spec(
                text::words_spec(rest)[1],
            ) == Some(pos_ms) && text::parse_u64_spec(text::words_spec(rest)[2])
                == playback_started_at_ms,
{
    let t = text::trim_spec(line);
    let ev = ServerEvent::State { playing, pos_ms, playback_started_at_ms };
    lemma_server_tags_differ(t);
    if server_event_of(line) == Some(ev) {
        assert(state_event_of(t) == Some(ev));
        let rest = t.skip("STATE "@.len() as int);
        text::law_strip_prefix_undoes_prepending(t, "STATE "@, rest);
        assert(t == "STATE "@ + rest && text::words_spec(rest).len() >= 3);
    }
    if exists|rest: Seq<char>|
        t == "STATE "@ + rest && #[trigger] text::words_spec(rest).len() >= 3 && playing == (
        text::words_spec(rest)[0] == "1"@) && text::parse_u64_spec(text::words_spec(rest)[1])
            == Some(pos_ms) && text::parse_u64_spec(text::words_spec(rest)[2])
            == playback_started_at_ms {
        let rest = choose|rest: Seq<char>|
            t == "STATE "@ + rest && #[trigger] text::words_spec(rest).len() >= 3 && playing == (
            text::words_spec(rest)[0] == "1"@) && text::parse_u64_spec(text::words_spec(rest)[1])
                == Some(pos_ms) && text::parse_u64_spec(text::words_spec(rest)[2])
                == playback_started_at_ms;
        text::law_strip_prefix_undoes_prepending(t, "STATE "@, rest);
    }
}

} // verus!
