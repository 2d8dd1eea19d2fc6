//! The player side: MPV's socket, its command line, the commands sent to it and the
//! events it reports.
use crate::network::link::LineInput;
use crate::text;
use crate::text::{append_hexadecimal, chars_of, same_text, trim};
use vstd::prelude::*;

verus! {

/// What the player reports.
#[derive(Debug, Clone, Copy, PartialEq, Eq, Structural)]
pub enum MpvEvent {
    Pause,
    Unpause,
    /// The playback time changed; the position in whole milliseconds.
    TimePos(u64),
    Disconnected,
}

/// What the player is told to do.
#[derive(Debug, Clone, Copy, PartialEq, Eq, Structural)]
pub enum MpvCommand {
    Play,
    Pause,
    /// Seek to a position in milliseconds.
    Seek(u64),
}

/// The payload of a property change, as far as it matters.
#[derive(Debug, Clone, Copy, PartialEq, Eq, Structural)]
pub enum RawData {
    /// A truth value.
    Flag(bool),
    /// A number of seconds, in whole milliseconds.
    Time(u64),
    /// Anything else.
    Other,
}

/// A message from MPV's socket, with the fields that may be missing.
#[derive(Debug)]
pub struct MpvEventRaw {
    pub event: Option<String>,
    pub error: Option<String>,
    pub data: Option<RawData>,
    pub request_id: Option<u64>,
    pub id: Option<u64>,
    pub name: Option<String>,
}

/// The identifier under which the property `pause` is observed.
pub const PAUSE_ID: u64 = 1;

/// The identifier under which the property `playback-time` is observed.
pub const PLAYBACK_TIME_ID: u64 = 2;

/// Why a message leads to no event.
#[derive(Debug, Clone, Copy, PartialEq, Eq, Structural)]
pub enum RawNote {
    /// A reply to a command, or an observed property without a usable value.
    Nothing,
    /// A property that is not observed.
    UnknownProperty,
    FileLoaded,
    EndFile,
    /// An event that reports an error.
    ReplyError,
    /// The player began to seek: see [`SeekWatch`].
    SeekBegan,
    /// Any other event.
    UnknownEvent,
}

/// What a message from the player leads to.
#[derive(Debug, Clone, Copy, PartialEq, Eq, Structural)]
pub enum RawStep {
    /// Hand the event on and read on.
    Deliver(MpvEvent),
    /// Hand the event on and stop reading.
    DeliverLast(MpvEvent),
    /// Read on.
    Ignore(RawNote),
}

/// The field is there and holds this text.
pub open spec fn holds(field: Option<String>, t: Seq<char>) -> bool {
    match field {
        Some(s) => s@ == t,
        None => false,
    }
}

/// What a change of a property leads to.
pub open spec fn property_step(raw: MpvEventRaw) -> RawStep {
    if raw.id == Some(PAUSE_ID) && holds(raw.name, "pause"@) {
        match raw.data {
            Some(RawData::Flag(true)) => RawStep::Deliver(MpvEvent::Pause),
            Some(RawData::Flag(false)) => RawStep::Deliver(MpvEvent::Unpause),
            _ => RawStep::Ignore(RawNote::Nothing),
        }
    } else if raw.id == Some(PLAYBACK_TIME_ID) && holds(raw.name, "playback-time"@) {
        match raw.data {
            Some(RawData::Time(ms)) => RawStep::Deliver(MpvEvent::TimePos(ms)),
            _ => RawStep::Ignore(RawNote::Nothing),
        }
    } else {
        RawStep::Ignore(RawNote::UnknownProperty)
    }
}

/// What a message from the player leads to.
pub open spec fn raw_step_spec(raw: MpvEventRaw) -> RawStep {
    if raw.event is None {
        RawStep::Ignore(RawNote::Nothing)
    } else if holds(raw.event, "property-change"@) {
        property_step(raw)
    } else if holds(raw.event, "shutdown"@) {
        RawStep::DeliverLast(MpvEvent::Disconnected)
    } else if holds(raw.event, "file-loaded"@) {
        RawStep::Ignore(RawNote::FileLoaded)
    } else if holds(raw.event, "end-file"@) {
        RawStep::Ignore(RawNote::EndFile)
    } else if raw.error is Some {
        RawStep::Ignore(RawNote::ReplyError)
    } else if holds(raw.event, "seek"@) {
        RawStep::Ignore(RawNote::SeekBegan)
    } else {
        RawStep::Ignore(RawNote::UnknownEvent)
    }
}

fn field_holds(field: &Option<String>, t: &str) -> (r: bool)
    ensures
        r == holds(*field, t@),
{
    match field {
        Some(s) => same_text(&chars_of(s.as_str()), t),
        None => false,
    }
}

/// Interprets a message from the player.
pub fn interpret(raw: &MpvEventRaw) -> (r: RawStep)
    ensures
        r == raw_step_spec(*raw),
{
    if raw.event.is_none() {
        return RawStep::Ignore(RawNote::Nothing);
    }
    if field_holds(&raw.event, "property-change") {
        let pause_id: bool = match raw.id {
            Some(id) => id == PAUSE_ID,
            None => false,
        };
        let time_id: bool = match raw.id {
            Some(id) => id == PLAYBACK_TIME_ID,
            None => false,
        };
        if pause_id && field_holds(&raw.name, "pause") {
            match raw.data {
                Some(RawData::Flag(paused)) => if paused {
                    RawStep::Deliver(MpvEvent::Pause)
                } else {
                    RawStep::Deliver(MpvEvent::Unpause)
                },
                _ => RawStep::Ignore(RawNote::Nothing),
            }
        } else if time_id && field_holds(&raw.name, "playback-time") {
            match raw.data {
                Some(RawData::Time(ms)) => RawStep::Deliver(MpvEvent::TimePos(ms)),
                _ => RawStep::Ignore(RawNote::Nothing),
            }
        } else {
            RawStep::Ignore(RawNote::UnknownProperty)
        }
    } else if field_holds(&raw.event, "shutdown") {
        RawStep::DeliverLast(MpvEvent::Disconnected)
    } else if field_holds(&raw.event, "file-loaded") {
        RawStep::Ignore(RawNote::FileLoaded)
    } else if field_holds(&raw.event, "end-file") {
        RawStep::Ignore(RawNote::EndFile)
    } else if raw.error.is_some() {
        RawStep::Ignore(RawNote::ReplyError)
    } else if field_holds(&raw.event, "seek") {
        RawStep::Ignore(RawNote::SeekBegan)
    } else {
        RawStep::Ignore(RawNote::UnknownEvent)
    }
}

/// Finds out where the player sought to: the first playback time after a seek began.
#[derive(Debug, Clone, Copy, PartialEq, Eq, Structural)]
pub struct SeekWatch {
    /// A seek began, and its playback time is still to come.
    pub pending: bool,
}

/// The position to which the player sought, if this step tells it.
pub open spec fn sought(w: SeekWatch, step: RawStep) -> Option<u64> {
    match step {
        RawStep::Deliver(MpvEvent::TimePos(ms)) => if w.pending {
            Some(ms)
        } else {
            None
        },
        _ => None,
    }
}

/// The watch after a step.
pub open spec fn watch_after(w: SeekWatch, step: RawStep) -> SeekWatch {
    match step {
        RawStep::Ignore(RawNote::SeekBegan) => SeekWatch { pending: true },
        RawStep::Deliver(MpvEvent::TimePos(_)) => SeekWatch { pending: false },
        _ => w,
    }
}

impl SeekWatch {
    pub fn new() -> (r: SeekWatch)
        ensures
            !r.pending,
    {
        SeekWatch { pending: false }
    }

    /// Takes note of a step; returns the position to which the player sought, once it is
    /// known.
    pub fn observe(&mut self, step: RawStep) -> (r: Option<u64>)
        ensures
            r == sought(*old(self), step),
            *final(self) == watch_after(*old(self), step),
    {
        match step {
            RawStep::Ignore(RawNote::SeekBegan) => {
                self.pending = true;
                None
            },
            RawStep::Deliver(MpvEvent::TimePos(ms)) => {
                let pending = self.pending;
                self.pending = false;
                if pending {
                    Some(ms)
                } else {
                    None
                }
            },
            _ => None,
        }
    }
}

/// A seek in the player is told exactly once: by the playback time that follows it, and
/// not by the one after that.
pub proof fn law_seek_is_told_once(w: SeekWatch, first_ms: u64, second_ms: u64)
    ensures
        ({
            let began = RawStep::Ignore(RawNote::SeekBegan);
            let first = RawStep::Deliver(MpvEvent::TimePos(first_ms));
            let second = RawStep::Deliver(MpvEvent::TimePos(second_ms));
            let w1 = watch_after(w, began);
            let w2 = watch_after(w1, first);
            &&& sought(w, began) is None
            &&& sought(w1, first) == Some(first_ms)
            &&& sought(w2, second) is None
        }),
{
}

/// What follows from what was read from the player's socket.
#[derive(Debug)]
pub enum MpvRead {
    /// A message in JSON, without the white space at its ends.
    Message(String),
    /// A blank line: read on.
    Blank,
    /// Hand the event on and stop reading.
    DeliverLast(MpvEvent),
}

/// Reacts to what was read from the player's socket. An ended or failed connection is
/// handed on as the last event.
pub fn mpv_read_step(input: &LineInput) -> (r: MpvRead)
    ensures
        match *input {
            LineInput::Line(line) => if text::trim_spec(line@).len() == 0 {
                r == MpvRead::Blank
            } else {
                r matches MpvRead::Message(t) && t@ == text::trim_spec(line@)
            },
            _ => r == MpvRead::DeliverLast(MpvEvent::Disconnected),
        },
{
    match input {
        LineInput::Line(line) => {
            let t = trim(line.as_str());
            if t.is_empty() {
                MpvRead::Blank
            } else {
                MpvRead::Message(t.to_owned())
            }
        },
        _ => MpvRead::DeliverLast(MpvEvent::Disconnected),
    }
}

/// The family of systems that decides how MPV's socket is named.
#[derive(Debug, Clone, Copy, PartialEq, Eq, Structural)]
pub enum Platform {
    Unix,
    Windows,
}

/// The path of MPV's socket: its text, and its last component where it has one.
#[derive(Debug)]
pub struct SocketPath {
    pub text: String,
    pub file_name: Option<String>,
}

/// The name under which MPV opens a socket: a named pipe on Windows, the path elsewhere.
pub open spec fn socket_arg(path: SocketPath, platform: Platform) -> Seq<char> {
    match platform {
        Platform::Windows => "\\\\.\\pipe\\"@ + match path.file_name {
            Some(name) => name@,
            None => Seq::empty(),
        },
        Platform::Unix => path.text@,
    }
}

/// The name under which MPV opens its socket.
pub fn mpv_socket_arg(path: &SocketPath, platform: Platform) -> (r: String)
    ensures
        r@ == socket_arg(*path, platform),
{
    match platform {
        Platform::Windows => {
            let mut out = String::new();
            out.append("\\\\.\\pipe\\");
            if let Some(name) = &path.file_name {
                out.append(name.as_str());
            }
            assert(out@ =~= socket_arg(*path, platform));
            out
        },
        Platform::Unix => path.text.clone(),
    }
}

/// The part of a socket's name that tells processes and their sockets apart.
pub open spec fn socket_suffix(pid: u32, seq: u32) -> Seq<char> {
    text::hexadecimal(pid as nat) + "_"@ + text::hexadecimal(seq as nat)
}

/// The path of the socket where none is given.
pub open spec fn default_socket(platform: Platform, pid: u32, seq: u32) -> Seq<char> {
    match platform {
        Platform::Windows => "mpv_sync_"@ + socket_suffix(pid, seq),
        Platform::Unix => "/tmp/mpv_sync.sock"@,
    }
}

/// The path of the socket where none is given: a fixed one on Unix; on Windows one that
/// process `pid` uses for its player number `seq`, relative to the directory for temporary
/// files.
pub fn default_socket_path(platform: Platform, pid: u32, seq: u32) -> (r: String)
    ensures
        r@ == default_socket(platform, pid, seq),
{
    match platform {
        Platform::Windows => {
            let mut out = String::new();
            out.append("mpv_sync_");
            append_hexadecimal(&mut out, pid as u64);
            out.append("_");
            append_hexadecimal(&mut out, seq as u64);
            assert(out@ =~= default_socket(platform, pid, seq));
            out
        },
        Platform::Unix => "/tmp/mpv_sync.sock".to_owned(),
    }
}

/// On Windows, different processes, and different players of one process, get different
/// sockets.
pub proof fn law_default_pipes_differ(pid1: u32, seq1: u32, pid2: u32, seq2: u32)
    requires
        pid1 != pid2 || seq1 != seq2,
    ensures
        default_socket(Platform::Windows, pid1, seq1) != default_socket(
            Platform::Windows,
            pid2,
            seq2,
        ),
{
    reveal_strlit("_");
    let p1 = text::hexadecimal(pid1 as nat);
    let p2 = text::hexadecimal(pid2 as nat);
    let q1 = text::hexadecimal(seq1 as nat);
    let q2 = text::hexadecimal(seq2 as nat);
    text::lemma_hexadecimal(pid1 as nat);
    text::lemma_hexadecimal(pid2 as nat);
    text::lemma_hexadecimal(seq1 as nat);
    text::lemma_hexadecimal(seq2 as nat);
    let s1 = default_socket(Platform::Windows, pid1, seq1);
    let s2 = default_socket(Platform::Windows, pid2, seq2);
    let f = "mpv_sync_"@.len() as int;
    if s1 == s2 {
        if p1.len() < p2.len() {
            assert(s1[f + p1.len()] == '_');
            assert(s2[f + p1.len()] == p2[p1.len() as int]);
        }
        if p2.len() < p1.len() {
            assert(s2[f + p2.len()] == '_');
            assert(s1[f + p2.len()] == p1[p2.len() as int]);
        }
        assert(s1.subrange(f, f + p1.len()) =~= p1);
        assert(s2.subrange(f, f + p2.len()) =~= p2);
        let g = f + p1.len() + 1;
        assert(s1.skip(g) =~= q1);
        assert(s2.skip(g) =~= q2);
    }
}

/// The arguments with which MPV is started.
pub fn mpv_args(socket_arg: &str) -> (r: Vec<String>)
    ensures
        r@.len() == 5,
        r@[0]@ == "--input-ipc-server="@ + socket_arg@,
        r@[1]@ == "--no-terminal"@,
        r@[2]@ == "--keep-open=yes"@,
        r@[3]@ == "--idle=yes"@,
        r@[4]@ == "--force-window=yes"@,
{
    let mut first = String::new();
    first.append("--input-ipc-server=");
    first.append(socket_arg);
    assert(first@ =~= "--input-ipc-server="@ + socket_arg@);
    let mut r: Vec<String> = Vec::new();
    r.push(first);
    r.push("--no-terminal".to_owned());
    r.push("--keep-open=yes".to_owned());
    r.push("--idle=yes".to_owned());
    r.push("--force-window=yes".to_owned());
    r
}

/// The client of the player's socket.
#[derive(Debug)]
pub struct MpvClient {
    pub socket_path: SocketPath,
}

impl MpvClient {
    pub fn new(socket_path: SocketPath) -> (r: MpvClient)
        ensures
            r.socket_path == socket_path,
    {
        MpvClient { socket_path }
    }
}

/// Which files to play.
#[derive(Debug)]
pub enum MediaChoice<P> {
    /// These: a video and perhaps a separate audio track.
    Use { video: P, audio: Option<P> },
    /// No video was named: ask for both.
    Ask,
}

/// Chooses the files to play from those named on the command line. An audio file
/// without a video does not count.
pub fn choose_media<P>(video: Option<P>, audio: Option<P>) -> (r: MediaChoice<P>)
    ensures
        match video {
            Some(v) => r == (MediaChoice::Use { video: v, audio }),
            None => r == MediaChoice::<P>::Ask,
        },
{
    match video {
        Some(v) => MediaChoice::Use { video: v, audio },
        None => MediaChoice::Ask,
    }
}

/// What each message of the player leads to. Only a change of an observed property, under
/// its own identifier and with a usable value, is an event that the client hears of, and only
/// a shutdown ends the reading; the rest is noted.
pub proof fn law_messages_of_the_player(raw: MpvEventRaw)
    ensures
        ({
            let event_is = |t: Seq<char>| raw.event is Some && raw.event->0@ == t;
            let name_is = |t: Seq<char>| raw.name is Some && raw.name->0@ == t;
            let change = event_is("property-change"@);
            let pause = change && raw.id == Some(PAUSE_ID) && name_is("pause"@);
            let time = change && raw.id == Some(PLAYBACK_TIME_ID) && name_is("playback-time"@);
            let other = raw.event is Some && !change && !event_is("shutdown"@) && !event_is(
                "file-loaded"@,
            ) && !event_is("end-file"@);
            &&& raw.event is None ==> raw_step_spec(raw) == RawStep::Ignore(RawNote::Nothing)
            &&& pause && raw.data == Some(RawData::Flag(true)) ==> raw_step_spec(raw)
                == RawStep::Deliver(MpvEvent::Pause)
            &&& pause && raw.data == Some(RawData::Flag(false)) ==> raw_step_spec(raw)
                == RawStep::Deliver(MpvEvent::Unpause)
            &&& pause && !(raw.data matches Some(RawData::Flag(_))) ==> raw_step_spec(raw)
                == RawStep::Ignore(RawNote::Nothing)
            &&& time ==> match raw.data {
                Some(RawData::Time(ms)) => raw_step_spec(raw) == RawStep::Deliver(
                    MpvEvent::TimePos(ms),
                ),
                _ => raw_step_spec(raw) == RawStep::Ignore(RawNote::Nothing),
            }
            &&& change && !pause && !time ==> raw_step_spec(raw) == RawStep::Ignore(
                RawNote::UnknownProperty,
            )
            &&& event_is("shutdown"@) ==> raw_step_spec(raw) == RawStep::DeliverLast(
                MpvEvent::Disconnected,
            )
            &&& event_is("file-loaded"@) ==> raw_step_spec(raw) == RawStep::Ignore(
                RawNote::FileLoaded,
            )
            &&& event_is("end-file"@) ==> raw_step_spec(raw) == RawStep::Ignore(RawNote::EndFile)
            &&& other && raw.error is Some ==> raw_step_spec(raw) == RawStep::Ignore(
                RawNote::ReplyError,
            )
            &&& other && raw.error is None && event_is("seek"@) ==> raw_step_spec(raw)
                == RawStep::Ignore(RawNote::SeekBegan)
            &&& other && raw.error is None && !event_is("seek"@) ==> raw_step_spec(raw)
                == RawStep::Ignore(RawNote::UnknownEvent)
        }),
{
    reveal_strlit("property-change");
    reveal_strlit("shutdown");
    reveal_strlit("file-loaded");
    reveal_strlit("end-file");
    assert("shutdown"@[0] == 's' && "end-file"@[0] == 'e');
    assert("property-change"@.len() == 15 && "file-loaded"@.len() == 11);
    assert("shutdown"@.len() == 8 && "end-file"@.len() == 8);
}

/// A position is told exactly by a playback time that comes while a seek is under way. A
/// seek is under way from its beginning to the first playback time after it.
pub proof fn law_seek_watch(w: SeekWatch, step: RawStep, ms: u64)
    ensures
        sought(w, step) == Some(ms) <==> w.pending && step == RawStep::Deliver(
            MpvEvent::TimePos(ms),
        ),
        watch_after(w, step).pending <==> step == RawStep::Ignore(RawNote::SeekBegan) || (w.pending
            && !(step matches RawStep::Deliver(MpvEvent::TimePos(_)))),
{
}

/// How sockets are named: on Unix a path is used as it is, and one fixed path where none is
/// given; on Windows the last component names a pipe, and where no path is given the name
/// holds the numbers of the process and of the player in hexadecimal notation.
pub proof fn law_names_of_sockets(path: SocketPath, pid: u32, seq: u32)
    ensures
        socket_arg(path, Platform::Unix) == path.text@,
        path.file_name is Some ==> socket_arg(path, Platform::Windows) == "\\\\.\\pipe\\"@
            + path.file_name->0@,
        path.file_name is None ==> socket_arg(path, Platform::Windows) == "\\\\.\\pipe\\"@,
        default_socket(Platform::Unix, pid, seq) == "/tmp/mpv_sync.sock"@,
        default_socket(Platform::Windows, pid, seq) == "mpv_sync_"@ + text::hexadecimal(pid as nat)
            + "_"@ + text::hexadecimal(seq as nat),
{
    assert("\\\\.\\pipe\\"@ + Seq::<char>::empty() =~= "\\\\.\\pipe\\"@);
}

} // verus!
