//! The JSON commands that go to MPV's socket, one per line.
use crate::mpv::{MpvCommand, PAUSE_ID, PLAYBACK_TIME_ID};
use crate::text;
use vstd::prelude::*;

verus! {

/// `s` stands in a JSON string as it is: no quote, backslash or control character.
pub open spec fn plain(s: Seq<char>) -> bool {
    forall|i: int| 0 <= i < s.len() ==> #[trigger] s[i] >= ' ' && s[i] != '"' && s[i] != '\\'
}

/// `s` as a JSON string, where it needs no escapes.
pub open spec fn quoted(s: Seq<char>) -> Seq<char> {
    "\""@ + s + "\""@
}

pub open spec fn flag_json(flag: bool) -> Seq<char> {
    if flag {
        "true"@
    } else {
        "false"@
    }
}

/// A JSON object with one member, an array of three items, in compact form.
pub open spec fn object_of_three(
    key: Seq<char>,
    a: Seq<char>,
    b: Seq<char>,
    c: Seq<char>,
) -> Seq<char> {
    "{"@ + quoted(key) + ":["@ + a + ","@ + b + ","@ + c + "]}"@
}

/// `serde_json::Value`'s `Display` on an object with one member, an array of two strings
/// and a truth value: the compact form without any white space, where strings that hold
/// nothing to escape stand between quotes as they are.
#[verifier::external_body]
fn json_words_and_flag(key: &str, a: &str, b: &str, flag: bool) -> (r: String)
    requires
        plain(key@),
        plain(a@),
        plain(b@),
    ensures
        r@ == object_of_three(key@, quoted(a@), quoted(b@), flag_json(flag)),
{
    let items = vec![
        serde_json::Value::from(a),
        serde_json::Value::from(b),
        serde_json::Value::from(flag),
    ];
    serde_json::Value::from_iter([(key, serde_json::Value::from(items))]).to_string()
}

/// `serde_json::Value`'s `Display` on an object with one member, an array of a string, an
/// unsigned number and a string: the compact form, with the number in decimal notation.
#[verifier::external_body]
fn json_word_number_word(key: &str, a: &str, number: u64, b: &str) -> (r: String)
    requires
        plain(key@),
        plain(a@),
        plain(b@),
    ensures
        r@ == object_of_three(key@, quoted(a@), text::decimal(number as nat), quoted(b@)),
{
    let items = vec![
        serde_json::Value::from(a),
        serde_json::Value::from(number),
        serde_json::Value::from(b),
    ];
    serde_json::Value::from_iter([(key, serde_json::Value::from(items))]).to_string()
}

/// The command that pauses or resumes the player.
pub open spec fn pause_command(paused: bool) -> Seq<char> {
    if paused {
        "{\"command\":[\"set_property\",\"pause\",true]}"@
    } else {
        "{\"command\":[\"set_property\",\"pause\",false]}"@
    }
}

/// The command that seeks to a time, which is written as a JSON number of seconds.
pub open spec fn seek_command(seconds: Seq<char>) -> Seq<char> {
    "{\"command\":[\"seek\","@ + seconds + ",\"absolute\"]}"@
}

fn write_pause(paused: bool) -> (r: String)
    ensures
        r@ == pause_command(paused),
{
    proof {
        reveal_strlit("command");
        reveal_strlit("set_property");
        reveal_strlit("pause");
        reveal_strlit("true");
        reveal_strlit("false");
        reveal_strlit("\"");
        reveal_strlit("{");
        reveal_strlit(":[");
        reveal_strlit(",");
        reveal_strlit("]}");
        reveal_strlit("{\"command\":[\"set_property\",\"pause\",true]}");
        reveal_strlit("{\"command\":[\"set_property\",\"pause\",false]}");
    }
    let out = json_words_and_flag("command", "set_property", "pause", paused);
    assert(out@ =~= pause_command(paused));
    out
}

/// The JSON text of a command. A seek carries `seconds`, the position as a JSON number of
/// seconds.
pub fn command_to_json(cmd: &MpvCommand, seconds: &str) -> (r: String)
    ensures
        match *cmd {
            MpvCommand::Play => r@ == pause_command(false),
            MpvCommand::Pause => r@ == pause_command(true),
            MpvCommand::Seek(_) => r@ == seek_command(seconds@),
        },
{
    match *cmd {
        MpvCommand::Play => write_pause(false),
        MpvCommand::Pause => write_pause(true),
        MpvCommand::Seek(_) => {
            let mut out = String::new();
            out.append("{\"command\":[\"seek\",");
            out.append(seconds);
            out.append(",\"absolute\"]}");
            assert(out@ =~= seek_command(seconds@));
            out
        },
    }
}

/// The commands that make MPV report changes of `pause` and `playback-time`.
pub fn observe_commands() -> (r: Vec<String>)
    ensures
        r@.len() == 2,
        r@[0]@ == "{\"command\":[\"observe_property\",1,\"pause\"]}"@,
        r@[1]@ == "{\"command\":[\"observe_property\",2,\"playback-time\"]}"@,
{
    proof {
        reveal_strlit("command");
        reveal_strlit("observe_property");
        reveal_strlit("pause");
        reveal_strlit("playback-time");
        reveal_strlit("\"");
        reveal_strlit("{");
        reveal_strlit(":[");
        reveal_strlit(",");
        reveal_strlit("]}");
        reveal_strlit("{\"command\":[\"observe_property\",1,\"pause\"]}");
        reveal_strlit("{\"command\":[\"observe_property\",2,\"playback-time\"]}");
    }
    let pause = json_word_number_word("command", "observe_property", PAUSE_ID, "pause");
    assert(pause@ =~= "{\"command\":[\"observe_property\",1,\"pause\"]}"@);
    let time = json_word_number_word(
        "command",
        "observe_property",
        PLAYBACK_TIME_ID,
        "playback-time",
    );
    assert(time@ =~= "{\"command\":[\"observe_property\",2,\"playback-time\"]}"@);
    let mut r: Vec<String> = Vec::new();
    r.push(pause);
    r.push(time);
    r
}

/// What the commands look like: a JSON object with an array that names the property or the
/// operation and gives its value. Play clears the player's pause, and pause sets it.
pub proof fn law_commands_in_json(paused: bool, seconds: Seq<char>)
    ensures
        pause_command(paused) == "{\"command\":[\"set_property\",\"pause\","@ + (if paused {
            "true]}"@
        } else {
            "false]}"@
        }),
        seek_command(seconds) == "{\"command\":[\"seek\","@ + seconds + ",\"absolute\"]}"@,
{
    reveal_strlit("{\"command\":[\"set_property\",\"pause\",true]}");
    reveal_strlit("{\"command\":[\"set_property\",\"pause\",false]}");
    reveal_strlit("{\"command\":[\"set_property\",\"pause\",");
    reveal_strlit("true]}");
    reveal_strlit("false]}");
}

} // verus!
