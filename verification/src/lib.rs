//! Peer-to-peer LAN chat: the transport layer and the state behind the
//! terminal front end, with every function verified against its contract.
//!
//! Sockets, threads and the terminal stay with the caller. The types here hold
//! the state that those share and decide, step by step, what each socket
//! event does to it.

pub mod networking;
pub mod tui;
