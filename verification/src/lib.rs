//! Core of a folder-synchronization tool: a plugin runtime executing
//! cloud-storage backends written as sandboxed Lua scripts, a three-way
//! timestamp reconciliation engine, a registry of per-folder filesystem
//! watchers, a buffer of unresolved conflicts, and an archive codec that
//! packs a folder tree into a single buffer for transport.
//!
//! Everything here works on plain values (strings, byte vectors, seconds
//! since the epoch). Reading directories, writing files and arming the
//! actual OS file watchers is left to the embedding application.

pub mod archive;
pub mod config_paths;
pub mod conflict;
pub mod emitter;
pub mod engine;
pub mod plugin;
pub mod service;
pub mod kvlist;
pub mod state;
pub mod store;
pub mod sync;
pub mod text;
pub mod watch;
