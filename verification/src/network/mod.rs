//! The network side: protocol, clocks, relay server and relay client.
pub mod client;
pub mod clock;
pub mod link;
pub mod protocol;
pub mod relay;

pub use client::RelayClient;
pub use clock::{now_ms, ClockSync};
pub use protocol::{parse_client_event, parse_server_event};
pub use protocol::{serialize_client_event, serialize_server_event};
pub use protocol::{ClientEvent, ServerEvent};
pub use relay::{PlaybackState, RelayServer};

pub use crate::sync::SyncEvent;
