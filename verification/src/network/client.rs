//! The relay client: where it connects, and what it makes of the lines it reads.
use crate::network::link::LineInput;
use crate::network::protocol;
use crate::network::protocol::{parse_server_event, ServerEvent};
use crate::text;
use crate::text::{append_decimal, trim};
use vstd::prelude::*;

verus! {

/// A client of the relay server at a host and port.
#[derive(Debug)]
pub struct RelayClient {
    pub server_addr: String,
    pub port: u16,
}

impl RelayClient {
    pub fn new(server_addr: String, port: u16) -> (r: RelayClient)
        ensures
            r.server_addr == server_addr,
            r.port == port,
    {
        RelayClient { server_addr, port }
    }

    /// The address to connect to: host, colon, port.
    pub fn address(&self) -> (r: String)
        ensures
            r@ == self.server_addr@ + ":"@ + text::decimal(self.port as nat),
    {
        let mut out = String::new();
        out.append(self.server_addr.as_str());
        out.append(":");
        append_decimal(&mut out, self.port as u64);
        assert(out@ =~= self.server_addr@ + ":"@ + text::decimal(self.port as nat));
        out
    }
}

/// What the client does with what it read from the server.
#[derive(Debug)]
pub enum RelayRead {
    /// Hand the event on and read on.
    Deliver(ServerEvent),
    /// Hand the event on and stop reading.
    DeliverLast(ServerEvent),
    /// A line that carries no event, without the white space at its ends: read on.
    Unknown(String),
    /// A blank line: read on.
    Blank,
}

/// Reacts to what was read from the server. An ended or failed connection is handed on
/// as the last event.
pub fn relay_read_step(input: &LineInput) -> (r: RelayRead)
    ensures
        match *input {
            LineInput::Line(line) => match protocol::server_event_of(line@) {
                Some(ev) => r == RelayRead::Deliver(ev),
                None => if text::trim_spec(line@).len() == 0 {
                    r == RelayRead::Blank
                } else {
                    r matches RelayRead::Unknown(t) && t@ == text::trim_spec(line@)
                },
            },
            _ => r == RelayRead::DeliverLast(ServerEvent::Disconnected),
        },
{
    match input {
        LineInput::Line(line) => match parse_server_event(line.as_str()) {
            Some(ev) => RelayRead::Deliver(ev),
            None => {
                let t = trim(line.as_str());
                if t.is_empty() {
                    RelayRead::Blank
                } else {
                    RelayRead::Unknown(t.to_owned())
                }
            },
        },
        _ => RelayRead::DeliverLast(ServerEvent::Disconnected),
    }
}

} // verus!
