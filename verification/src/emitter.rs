//! The events the core reports outward (to a graphical shell or any
//! other front end).
//!
//! The core only builds these values; delivering them to the user is the
//! embedding application's job.

use vstd::prelude::*;

verus! {

/// One outward-facing notification.
pub enum AppEvent {
    /// A plugin failed to load or a capability call failed.
    PluginError { title: String, description: String },
    /// Whether activating a plugin succeeded.
    InitResult { ok: bool },
    /// A plugin's abort reported a message.
    AbortResult { message: String },
    /// The persisted plugin was re-activated.
    SavedResult,
    /// A folder was synced; reports whether it is now being watched.
    SyncResult { tag: String, folder: String, now_watching: bool },
    /// Both sides of a folder changed since the last sync; carries the
    /// two candidate timestamps.
    ConflictingFiles { tag: String, folder: String, local_modified: u64, cloud_modified: u64 },
    /// The folders found under each mapped tag.
    FiletreeResult { mapping: Vec<(String, Vec<String>)> },
}

/// A plugin failure, named after the plugin (or the capability) that
/// caused it.
pub fn plugin_error(title: &str, description: &str) -> (r: AppEvent)
    ensures
        r matches AppEvent::PluginError { title: t, description: d } && t@ == title@ && d@
            == description@,
{
    AppEvent::PluginError { title: title.to_owned(), description: description.to_owned() }
}

/// The outcome of activating a plugin.
pub fn init_result(ok: bool) -> (r: AppEvent)
    ensures
        r == (AppEvent::InitResult { ok }),
{
    AppEvent::InitResult { ok }
}

/// The message a plugin's abort handed back.
pub fn abort_result(message: &str) -> (r: AppEvent)
    ensures
        r matches AppEvent::AbortResult { message: m } && m@ == message@,
{
    AppEvent::AbortResult { message: message.to_owned() }
}

/// The persisted plugin was re-activated.
pub fn saved_result() -> (r: AppEvent)
    ensures
        r == AppEvent::SavedResult,
{
    AppEvent::SavedResult
}

/// A folder finished a sync pass; `now_watching` reports the state of
/// its watcher afterwards.
pub fn sync_result(tag: &str, folder: &str, now_watching: bool) -> (r: AppEvent)
    ensures
        r matches AppEvent::SyncResult { tag: t, folder: f, now_watching: w } && t@ == tag@ && f@
            == folder@ && w == now_watching,
{
    AppEvent::SyncResult { tag: tag.to_owned(), folder: folder.to_owned(), now_watching }
}

/// The folders found under each mapped tag.
pub fn filetree_result(mapping: Vec<(String, Vec<String>)>) -> (r: AppEvent)
    ensures
        r matches AppEvent::FiletreeResult { mapping: m } && m == mapping,
{
    AppEvent::FiletreeResult { mapping }
}

/// A conflict was detected for a folder, with both candidate timestamps.
pub fn conflicting_files(tag: &str, folder: &str, local_modified: u64, cloud_modified: u64) -> (r:
    AppEvent)
    ensures
        r matches AppEvent::ConflictingFiles {
            tag: t,
            folder: f,
            local_modified: l,
            cloud_modified: c,
        } && t@ == tag@ && f@ == folder@ && l == local_modified && c == cloud_modified,
{
    AppEvent::ConflictingFiles {
        tag: tag.to_owned(),
        folder: folder.to_owned(),
        local_modified,
        cloud_modified,
    }
}

} // verus!
