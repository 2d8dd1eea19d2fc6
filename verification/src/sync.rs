//! The plain protocol without deadlines: play, pause and seek take effect on arrival.
use crate::mpv::{MpvCommand, MpvEvent};
use crate::network::protocol;
use crate::text;
use crate::text::{same_text, strip_prefix, trim, trimmed_chars};
use vstd::prelude::*;

verus! {

/// An event of the plain protocol, in both directions.
#[derive(Debug, Clone, PartialEq, Eq)]
pub enum SyncEvent {
    Play,
    Pause,
    /// Seek to a time, in the notation in which it came.
    Seek(String),
}

/// A plain event with the text of its time.
pub enum SyncEventView {
    Play,
    Pause,
    Seek(Seq<char>),
}

impl View for SyncEvent {
    type V = SyncEventView;

    open spec fn view(&self) -> SyncEventView {
        match *self {
            SyncEvent::Play => SyncEventView::Play,
            SyncEvent::Pause => SyncEventView::Pause,
            SyncEvent::Seek(time) => SyncEventView::Seek(time@),
        }
    }
}

/// The line that carries a plain event.
pub open spec fn sync_line(ev: SyncEventView) -> Seq<char> {
    match ev {
        SyncEventView::Play => "PLAY\n"@,
        SyncEventView::Pause => "PAUSE\n"@,
        SyncEventView::Seek(time) => "SEEK "@ + time + "\n"@,
    }
}

/// The plain event that a line carries, if it carries one.
pub open spec fn sync_event_of(line: Seq<char>) -> Option<SyncEventView> {
    let t = text::trim_spec(line);
    if t == "PLAY"@ {
        Some(SyncEventView::Play)
    } else if t == "PAUSE"@ {
        Some(SyncEventView::Pause)
    } else {
        match text::strip_prefix_spec(t, "SEEK "@) {
            Some(time) => Some(SyncEventView::Seek(time)),
            None => None,
        }
    }
}

/// The line for a plain event, with its newline.
pub fn serialize_sync_event(ev: &SyncEvent) -> (r: String)
    ensures
        r@ == sync_line(ev@),
{
    match ev {
        SyncEvent::Play => "PLAY\n".to_owned(),
        SyncEvent::Pause => "PAUSE\n".to_owned(),
        SyncEvent::Seek(time) => {
            let mut out = String::new();
            out.append("SEEK ");
            out.append(time.as_str());
            out.append("\n");
            assert(out@ =~= "SEEK "@ + time@ + "\n"@);
            out
        },
    }
}

/// The plain event on a line; `None` where the line carries none.
pub fn parse_sync_event(line: &str) -> (r: Option<SyncEvent>)
    ensures
        match r {
            Some(ev) => sync_event_of(line@) == Some(ev@),
            None => sync_event_of(line@) is None,
        },
{
    let t = trimmed_chars(line);
    if same_text(&t, "PLAY") {
        return Some(SyncEvent::Play);
    }
    if same_text(&t, "PAUSE") {
        return Some(SyncEvent::Pause);
    }
    match strip_prefix(&t, "SEEK ") {
        Some(rest) => {
            let whole = trim(line);
            let n = t.len() - rest.len();
            proof {
                reveal_strlit("SEEK ");
            }
            let time = whole.substring_char(n, t.len());
            assert(time@ =~= rest@);
            Some(SyncEvent::Seek(time.to_owned()))
        },
        None => None,
    }
}

/// What the bridge does on account of the player.
#[derive(Debug, PartialEq, Eq)]
pub enum BridgeStep {
    /// Send this to the server.
    Send(SyncEvent),
    Nothing,
    /// End the session.
    Exit,
}

/// What the bridge tells the player on account of the server.
#[derive(Debug, PartialEq, Eq)]
pub enum BridgeCommand {
    /// Play or pause.
    Tell(MpvCommand),
    /// Seek to a time, in the notation in which it came.
    SeekTo(String),
    Nothing,
}

/// The bridge between a player and a server that speak the plain protocol.
#[derive(Debug, Clone, Copy, PartialEq, Eq, Structural)]
pub struct Bridge {
    pub is_paused: bool,
    /// The player was told to seek and has not reported it yet.
    pub seek_commanded: bool,
}

/// The bridge's state after a report of the player.
pub open spec fn bridge_after_player(b: Bridge, ev: MpvEvent) -> Bridge {
    match ev {
        MpvEvent::Pause => Bridge { is_paused: true, seek_commanded: b.seek_commanded },
        MpvEvent::Unpause => Bridge { is_paused: false, seek_commanded: b.seek_commanded },
        _ => b,
    }
}

/// The bridge's state after an event of the server.
pub open spec fn bridge_after_server(b: Bridge, ev: SyncEventView) -> Bridge {
    match ev {
        SyncEventView::Play => Bridge { is_paused: false, seek_commanded: b.seek_commanded },
        SyncEventView::Pause => Bridge { is_paused: true, seek_commanded: b.seek_commanded },
        SyncEventView::Seek(_) => Bridge { is_paused: b.is_paused, seek_commanded: true },
    }
}

/// The bridge's state after the player reported a seek.
pub open spec fn bridge_after_seek(b: Bridge) -> Bridge {
    Bridge { is_paused: b.is_paused, seek_commanded: false }
}

/// What is sent for a seek of the player: nothing where it was told to seek.
pub open spec fn bridge_seek(b: Bridge, time: Seq<char>) -> Option<SyncEventView> {
    if b.seek_commanded {
        None
    } else {
        Some(SyncEventView::Seek(time))
    }
}

/// Whether the player is told to play or pause. It is not told what it already does.
pub open spec fn bridge_command(b: Bridge, ev: SyncEventView) -> Option<MpvCommand> {
    match ev {
        SyncEventView::Play => if b.is_paused {
            Some(MpvCommand::Play)
        } else {
            None
        },
        SyncEventView::Pause => if b.is_paused {
            None
        } else {
            Some(MpvCommand::Pause)
        },
        SyncEventView::Seek(_) => None,
    }
}

/// The time to which the player is told to seek.
pub open spec fn seek_target(ev: SyncEventView) -> Option<Seq<char>> {
    match ev {
        SyncEventView::Seek(time) => Some(time),
        _ => None,
    }
}

impl Bridge {
    /// A bridge begins paused.
    pub fn new() -> (r: Bridge)
        ensures
            r == (Bridge { is_paused: true, seek_commanded: false }),
    {
        Bridge { is_paused: true, seek_commanded: false }
    }

    /// Reacts to a report of the player.
    pub fn on_player_event(&mut self, ev: MpvEvent) -> (r: BridgeStep)
        ensures
            *final(self) == bridge_after_player(*old(self), ev),
            match ev {
                MpvEvent::Pause => r == BridgeStep::Send(SyncEvent::Pause),
                MpvEvent::Unpause => r == BridgeStep::Send(SyncEvent::Play),
                MpvEvent::TimePos(_) => r == BridgeStep::Nothing,
                MpvEvent::Disconnected => r == BridgeStep::Exit,
            },
    {
        match ev {
            MpvEvent::Pause => {
                self.is_paused = true;
                BridgeStep::Send(SyncEvent::Pause)
            },
            MpvEvent::Unpause => {
                self.is_paused = false;
                BridgeStep::Send(SyncEvent::Play)
            },
            MpvEvent::TimePos(_) => BridgeStep::Nothing,
            MpvEvent::Disconnected => BridgeStep::Exit,
        }
    }

    /// Reacts to an event of the server.
    pub fn on_server_event(&mut self, ev: SyncEvent) -> (r: BridgeCommand)
        ensures
            *final(self) == bridge_after_server(*old(self), ev@),
            match seek_target(ev@) {
                Some(target) => r matches BridgeCommand::SeekTo(time) && time@ == target,
                None => match bridge_command(*old(self), ev@) {
                    Some(cmd) => r == BridgeCommand::Tell(cmd),
                    None => r == BridgeCommand::Nothing,
                },
            },
    {
        match ev {
            SyncEvent::Play => {
                if self.is_paused {
                    self.is_paused = false;
                    BridgeCommand::Tell(MpvCommand::Play)
                } else {
                    BridgeCommand::Nothing
                }
            },
            SyncEvent::Pause => {
                if !self.is_paused {
                    self.is_paused = true;
                    BridgeCommand::Tell(MpvCommand::Pause)
                } else {
                    BridgeCommand::Nothing
                }
            },
            SyncEvent::Seek(time) => {
                self.seek_commanded = true;
                BridgeCommand::SeekTo(time)
            },
        }
    }

    /// Reacts to a seek in the player, with the new time: it is sent to the server, unless
    /// it is what the server asked for.
    pub fn on_player_seek(&mut self, time: String) -> (r: BridgeStep)
        ensures
            *final(self) == bridge_after_seek(*old(self)),
            match bridge_seek(*old(self), time@) {
                Some(_) => r == BridgeStep::Send(SyncEvent::Seek(time)),
                None => r == BridgeStep::Nothing,
            },
    {
        if self.seek_commanded {
            self.seek_commanded = false;
            BridgeStep::Nothing
        } else {
            BridgeStep::Send(SyncEvent::Seek(time))
        }
    }
}

/// The play or pause that a bridge sends comes back to it without effect, so a server may
/// send every such event to everyone, the sender among them.
pub proof fn law_own_event_is_harmless(b: Bridge)
    ensures
        ({
            let paused = bridge_after_player(b, MpvEvent::Pause);
            &&& bridge_command(paused, SyncEventView::Pause) is None
            &&& bridge_after_server(paused, SyncEventView::Pause) == paused
        }),
        ({
            let playing = bridge_after_player(b, MpvEvent::Unpause);
            &&& bridge_command(playing, SyncEventView::Play) is None
            &&& bridge_after_server(playing, SyncEventView::Play) == playing
        }),
{
}

/// A seek that the server asked for, be it the bridge's own that comes back, is not sent to
/// it again, so seeks do not go round in circles; a seek after that is sent.
pub proof fn law_commanded_seek_is_not_sent_back(
    b: Bridge,
    asked: Seq<char>,
    reported: Seq<char>,
    next: Seq<char>,
)
    ensures
        ({
            let told = bridge_after_server(b, SyncEventView::Seek(asked));
            let done = bridge_after_seek(told);
            &&& bridge_seek(told, reported) is None
            &&& bridge_seek(done, next) == Some(SyncEventView::Seek(next))
        }),
{
}

/// A repeated event has no effect, and after the same play or pause any two bridges agree
/// on whether they are paused.
pub proof fn law_events_bring_agreement(a: Bridge, b: Bridge, ev: SyncEventView)
    requires
        !(ev is Seek),
    ensures
        bridge_after_server(a, ev).is_paused == bridge_after_server(b, ev).is_paused,
        bridge_command(bridge_after_server(a, ev), ev) is None,
        bridge_after_server(bridge_after_server(a, ev), ev) == bridge_after_server(a, ev),
{
}

/// A plain event arrives as it was sent. The time of a seek must not be empty or end in
/// white space.
pub proof fn law_sync_event_round_trip(ev: SyncEventView)
    requires
        ev matches SyncEventView::Seek(time) ==> time.len() > 0 && !text::white_space(time.last()),
    ensures
        sync_event_of(sync_line(ev)) == Some(ev),
{
    reveal_strlit("PLAY");
    reveal_strlit("PLAY\n");
    reveal_strlit("PAUSE");
    reveal_strlit("PAUSE\n");
    reveal_strlit("SEEK ");
    reveal_strlit("\n");
    match ev {
        SyncEventView::Play => {
            text::lemma_trim_line("PLAY"@);
            assert(sync_line(ev) =~= "PLAY"@.push('\n'));
        },
        SyncEventView::Pause => {
            text::lemma_trim_line("PAUSE"@);
            assert(sync_line(ev) =~= "PAUSE"@.push('\n'));
            assert("PAUSE"@.len() != "PLAY"@.len());
        },
        SyncEventView::Seek(time) => {
            let body = "SEEK "@ + time;
            assert(body[0] == 'S');
            assert(body.last() == time.last());
            assert(sync_line(ev) =~= body.push('\n'));
            text::lemma_trim_line(body);
            text::lemma_strip_tag("SEEK "@, time);
            assert("PLAY"@[0] == 'P' && "PAUSE"@[0] == 'P');
        },
    }
}

/// Every plain event is written as exactly one line, provided the time of a seek holds
/// no newline.
pub proof fn law_sync_events_are_lines(ev: SyncEventView)
    requires
        ev matches SyncEventView::Seek(time) ==> !time.contains('\n'),
    ensures
        protocol::one_line(sync_line(ev)),
{
    reveal_strlit("PLAY\n");
    reveal_strlit("PAUSE\n");
    reveal_strlit("SEEK ");
    reveal_strlit("\n");
    let line = sync_line(ev);
    if let SyncEventView::Seek(time) = ev {
        assert forall|i: int| 0 <= i < line.len() implies (#[trigger] line[i] == '\n' <==> i
            == line.len() - 1) by {
            if 5 <= i < line.len() - 1 {
                assert(line[i] == time[i - 5]);
                assert(time.contains(time[i - 5]));
            }
        }
    }
}

/// No line carries both a plain event and a client's event with a deadline, so a server
/// can tell the two protocols apart.
pub proof fn law_protocols_are_disjoint(line: Seq<char>)
    ensures
        sync_event_of(line) is None || protocol::client_event_of(line) is None,
{
    reveal_strlit("PLAY");
    reveal_strlit("PAUSE");
    reveal_strlit("SEEK ");
    reveal_strlit("PING ");
    reveal_strlit("READY ");
    reveal_strlit("PAUSE_READY ");
    reveal_strlit("SEEK_READY ");
    let t = text::trim_spec(line);
    if sync_event_of(line) is Some {
        if t == "PLAY"@ {
            assert(t[1] == 'L');
            assert(t.len() == 4);
        } else if t == "PAUSE"@ {
            assert(t[1] == 'A');
            assert(t.len() == 5);
        } else {
            assert("SEEK "@.is_prefix_of(t));
            assert(t[0] == "SEEK "@[0] && t[4] == "SEEK "@[4]);
            assert(t[4] == ' ');
            assert("SEEK_READY "@[4] == '_');
            assert(t[0] == 'S');
        }
        assert("PING "@[0] == 'P' && "PING "@[1] == 'I');
        if "PING "@.is_prefix_of(t) {
            assert(t[0] == "PING "@[0] && t[1] == "PING "@[1]);
        }
        assert(!"PING "@.is_prefix_of(t));
        assert(!"READY "@.is_prefix_of(t));
        assert(!"PAUSE_READY "@.is_prefix_of(t));
        assert(!"SEEK_READY "@.is_prefix_of(t));
    }
}

/// What a plain event looks like on the wire.
pub proof fn law_plain_wire_format(time: Seq<char>)
    ensures
        sync_line(SyncEventView::Play) == "PLAY\n"@,
        sync_line(SyncEventView::Pause) == "PAUSE\n"@,
        sync_line(SyncEventView::Seek(time)) == "SEEK "@ + time + "\n"@,
{
}

/// Which lines carry a plain event: the bare words for play and pause, and a seek's tag with
/// whatever stands behind it, but for white space at the ends. No other line carries one.
pub proof fn law_plain_lines_are_read(line: Seq<char>, time: Seq<char>)
    ensures
        sync_event_of(line) == Some(SyncEventView::Play) <==> text::trim_spec(line) == "PLAY"@,
        sync_event_of(line) == Some(SyncEventView::Pause) <==> text::trim_spec(line) == "PAUSE"@,
        sync_event_of(line) == Some(SyncEventView::Seek(time)) <==> text::trim_spec(line)
            == "SEEK "@ + time,
{
    reveal_strlit("PLAY");
    reveal_strlit("PAUSE");
    reveal_strlit("SEEK ");
    let t = text::trim_spec(line);
    text::law_strip_prefix_undoes_prepending(t, "SEEK "@, time);
    assert("PLAY"@.len() != "PAUSE"@.len());
    if t == "SEEK "@ + time {
        assert(t[0] == 'S');
        assert("PLAY"@[0] == 'P' && "PAUSE"@[0] == 'P');
    }
}

/// A plain event stands for itself, with the text of its time.
pub proof fn law_plain_event_stands_for_itself(time: String)
    ensures
        SyncEvent::Play@ == SyncEventView::Play,
        SyncEvent::Pause@ == SyncEventView::Pause,
        SyncEvent::Seek(time)@ == SyncEventView::Seek(time@),
{
}

/// The bridge follows its player: a pause pauses it, a resumption resumes it, and neither
/// touches a seek that is under way. Other reports change nothing.
pub proof fn law_bridge_follows_the_player(b: Bridge, ms: u64)
    ensures
        bridge_after_player(b, MpvEvent::Pause) == (Bridge { is_paused: true, ..b }),
        bridge_after_player(b, MpvEvent::Unpause) == (Bridge { is_paused: false, ..b }),
        bridge_after_player(b, MpvEvent::TimePos(ms)) == b,
        bridge_after_player(b, MpvEvent::Disconnected) == b,
{
}

/// The player follows the server: after a play or a pause of the server the bridge is in
/// that state, and the player was told so exactly if it was in the other one. A seek is
/// handed to the player with its time, whatever the state, and neither plays nor pauses.
pub proof fn law_player_follows_the_server(b: Bridge, time: Seq<char>)
    ensures
        bridge_after_server(b, SyncEventView::Play) == (Bridge { is_paused: false, ..b }),
        bridge_after_server(b, SyncEventView::Pause) == (Bridge { is_paused: true, ..b }),
        bridge_after_server(b, SyncEventView::Seek(time)) == (Bridge { seek_commanded: true, ..b }),
        b.is_paused ==> bridge_command(b, SyncEventView::Play) == Some(MpvCommand::Play),
        !b.is_paused ==> bridge_command(b, SyncEventView::Play) is None,
        b.is_paused ==> bridge_command(b, SyncEventView::Pause) is None,
        !b.is_paused ==> bridge_command(b, SyncEventView::Pause) == Some(MpvCommand::Pause),
        bridge_command(b, SyncEventView::Seek(time)) is None,
        seek_target(SyncEventView::Seek(time)) == Some(time),
        seek_target(SyncEventView::Play) is None,
        seek_target(SyncEventView::Pause) is None,
{
}

/// A seek of the user is sent with its time; one that the server asked for is not. Either
/// way the next one is the user's, and playing or pausing goes on.
pub proof fn law_seeks_of_the_user_are_sent(b: Bridge, time: Seq<char>)
    ensures
        b.seek_commanded ==> bridge_seek(b, time) is None,
        !b.seek_commanded ==> bridge_seek(b, time) == Some(SyncEventView::Seek(time)),
        bridge_after_seek(b) == (Bridge { seek_commanded: false, ..b }),
{
}

} // verus!
