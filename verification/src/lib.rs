//! Control plane of a plugin-based launcher: the plugin registry and its
//! lifecycle decisions, the control-message wire format, the plugin-side
//! request handling, and the index built over application entries.
//!
//! Every function here is a pure decision over plain values. The embedding
//! program performs the effects (probing the filesystem, spawning processes,
//! talking to sockets) and hands the observed outcomes back.

pub mod config;
pub mod index;
pub mod items;
pub mod laws;
pub mod plugin;
pub mod pm;
pub mod protocol;
pub mod server;
pub mod text;
