//! Synchronized MPV playback: the wire protocol, the relay server's decisions,
//! clock synchronization, and the client's reactions to player and server events.
pub mod commands;
pub mod laws;
pub mod mpv;
pub mod network;
pub mod session;
pub mod sync;
pub mod text;
