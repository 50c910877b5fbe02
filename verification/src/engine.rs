//! The synchronization engine: reconciliation of one tracked folder
//! from its three timestamps, the outbound upload path, and conflict
//! resolution.
//!
//! The engine works on plain values. The embedding application walks a
//! folder into a `FolderFile` list before calling in, and carries out
//! the filesystem effects the returned outcome asks for (writing
//! extracted entries, arming the OS watcher).

use vstd::prelude::*;

use crate::archive::{extract, extracted_views, latest_modified, packable, zip_dir,
    zip_encoding, FolderFile};
use crate::plugin::{capability_error, FileDetails, Plugin};
use crate::state::AppState;
use crate::sync::{decide, spec_decide, SyncAction};
use crate::text::str_eq;
use crate::watch::WatcherRegistry;

verus! {

/// The greatest modification time over a folder's files, `0` for an
/// absent or empty folder.
pub fn get_last_modified(files: &Vec<FolderFile>) -> (r: u64)
    ensures
        r == latest_modified(files@),
{
    let mut newest: u64 = 0;
    let n = files.len();
    let mut i: usize = 0;
    while i < n
        invariant
            n == files@.len(),
            i <= n,
            newest == latest_modified(files@.subrange(0, i as int)),
        decreases n - i,
    {
        if files[i].modified > newest {
            newest = files[i].modified;
        }
        proof {
            let pre = files@.subrange(0, i as int);
            let cur = files@.subrange(0, i + 1 as int);
            assert(cur.drop_last() =~= pre);
            assert(cur.last() == files@[i as int]);
        }
        i = i + 1;
    }
    proof {
        assert(files@.subrange(0, n as int) =~= files@);
    }
    newest
}

/// Pack a folder and push it to the plugin, stamped with the folder's
/// own latest modification time. Returns that timestamp. On a packable
/// tree the codec cannot fail, so any failure is the plugin's own, in
/// one of the two capability-failure shapes.
pub fn upload_file(plugin: &Plugin, tag: &str, folder: &str, files: &Vec<FolderFile>) -> (r:
    Result<u64, String>)
    ensures
        r matches Ok(ts) ==> ts == latest_modified(files@),
        packable(files@) ==> (r matches Err(e) ==> capability_error("Upload"@, e@)),
{
    let packed = match zip_dir(files) {
        Ok(p) => p,
        Err(e) => {
            return Err(e);
        },
    };
    match plugin.upload(tag, folder, packed.1, &packed.0) {
        Ok(()) => Ok(packed.1),
        Err(e) => Err(e),
    }
}

/// What reconciling one folder led to.
pub enum SyncOutcome {
    /// The folder's tag has no local mapping: nothing can be done.
    Unmapped,
    /// Neither side moved past the last sync; the watcher was
    /// re-established.
    UpToDate { newly_armed: bool },
    /// The cloud side won: write these entries into the folder's mapped
    /// path; the watcher was re-established.
    Extracted { entries: Vec<(String, Vec<u8>)>, newly_armed: bool },
    /// The local side won and was pushed at this timestamp; the watcher
    /// was re-established.
    Uploaded { timestamp: u64, newly_armed: bool },
    /// Both sides moved: the cloud archive was buffered with both
    /// candidate timestamps, nothing was written, no watcher armed.
    Conflict { local_modified: u64, cloud_modified: u64 },
    /// A plugin call or the codec failed; nothing else was changed.
    Failed { error: String },
}

/// Reconcile one folder from a cloud enumeration entry.
///
/// `mapped` says whether the folder's tag has a local mapping, and
/// `local_files` is the folder's current local content (empty for an
/// absent folder). Exactly one side strictly ahead of `last_sync` moves
/// data that way; both ahead buffers the cloud archive and raises a
/// conflict; otherwise nothing is written. On every non-conflicting
/// outcome the folder's watcher is re-established.
pub fn process_cloud_details(
    plugin: &Plugin,
    state: &mut AppState,
    registry: &mut WatcherRegistry,
    details: FileDetails,
    last_sync: u64,
    mapped: bool,
    local_files: &Vec<FolderFile>,
) -> (r: SyncOutcome)
    requires
        old(state).wf(),
        old(registry).wf(),
    ensures
        final(state).wf(),
        final(registry).wf(),
        final(state).tag_views() == old(state).tag_views(),
        ({
            let local = latest_modified(local_files@);
            let cloud = details.last_modified;
            let key = (details.tag@, details.folder_name@);
            let action = spec_decide(last_sync, local, cloud);
            &&& (!mapped ==> r is Unmapped && *final(state) == *old(state) && *final(registry)
                == *old(registry))
            &&& (mapped ==> match action {
                SyncAction::NoOp => {
                    &&& r matches SyncOutcome::UpToDate { newly_armed }
                    &&& WatcherRegistry::arm_step(*old(registry), *final(registry), key.0, key.1)
                    &&& newly_armed == !old(registry).watches(key.0, key.1)
                    &&& *final(state) == *old(state)
                },
                SyncAction::Download => {
                    ||| {
                        &&& r matches SyncOutcome::Extracted { entries, newly_armed }
                        &&& WatcherRegistry::arm_step(
                            *old(registry),
                            *final(registry),
                            key.0,
                            key.1,
                        )
                        &&& newly_armed == !old(registry).watches(key.0, key.1)
                        &&& *final(state) == *old(state)
                        &&& (details.data matches Some(buf) ==> forall|es: Seq<(Seq<char>, Seq<u8>)>|
                            buf@ == #[trigger] zip_encoding(es) ==> extracted_views(entries@) == es)
                    }
                    ||| {
                        &&& r is Failed
                        &&& *final(state) == *old(state)
                        &&& *final(registry) == *old(registry)
                    }
                },
                SyncAction::Upload => {
                    ||| {
                        &&& r matches SyncOutcome::Uploaded { timestamp, newly_armed }
                        &&& timestamp == local
                        &&& WatcherRegistry::arm_step(
                            *old(registry),
                            *final(registry),
                            key.0,
                            key.1,
                        )
                        &&& newly_armed == !old(registry).watches(key.0, key.1)
                        &&& *final(state) == *old(state)
                    }
                    ||| {
                        &&& r is Failed
                        &&& *final(state) == *old(state)
                        &&& *final(registry) == *old(registry)
                    }
                },
                SyncAction::Conflict => {
                    ||| {
                        &&& r matches SyncOutcome::Conflict { local_modified, cloud_modified }
                        &&& local_modified == local
                        &&& cloud_modified == cloud
                        &&& *final(registry) == *old(registry)
                        &&& exists|bs: Seq<u8>|
                            final(state).buffers.buffered() == #[trigger] old(
                                state,
                            ).buffers.buffered().insert(key, (bs, local, cloud))
                        &&& (details.data matches Some(buf) ==> final(state).buffers.buffered()
                            == old(state).buffers.buffered().insert(key, (buf@, local, cloud)))
                    }
                    ||| {
                        &&& r is Failed
                        &&& *final(state) == *old(state)
                        &&& *final(registry) == *old(registry)
                    }
                },
            })
            &&& (mapped && action == SyncAction::Conflict && details.data is Some ==> r
                is Conflict)
            &&& (mapped && action == SyncAction::Download && (details.data matches Some(buf)
                && exists|es: Seq<(Seq<char>, Seq<u8>)>| buf@ == #[trigger] zip_encoding(es))
                ==> r is Extracted)
            &&& (mapped && action == SyncAction::Upload && packable(local_files@) ==> (
            r matches SyncOutcome::Failed { error } ==> capability_error("Upload"@, error@)))
        }),
{
    let FileDetails { tag, folder_name, last_modified: cloud, data } = details;
    if !mapped {
        return SyncOutcome::Unmapped;
    }
    let local = get_last_modified(local_files);
    match decide(last_sync, local, cloud) {
        SyncAction::NoOp => {
            let newly_armed = registry.arm(tag.as_str(), folder_name.as_str());
            SyncOutcome::UpToDate { newly_armed }
        },
        SyncAction::Download => {
            let ghost had_inline = data is Some;
            let ghost inline_view: Seq<u8> = if data is Some {
                data->0@
            } else {
                Seq::empty()
            };
            let bytes = match data {
                Some(buf) => buf,
                None => match plugin.download(tag.as_str(), folder_name.as_str()) {
                    Ok(b) => b,
                    Err(e) => {
                        return SyncOutcome::Failed { error: e };
                    },
                },
            };
            proof {
                assert(had_inline ==> bytes@ == inline_view);
            }
            match extract(&bytes) {
                Ok(entries) => {
                    let newly_armed = registry.arm(tag.as_str(), folder_name.as_str());
                    SyncOutcome::Extracted { entries, newly_armed }
                },
                Err(e) => SyncOutcome::Failed { error: e },
            }
        },
        SyncAction::Upload => {
            match upload_file(plugin, tag.as_str(), folder_name.as_str(), local_files) {
                Ok(timestamp) => {
                    let newly_armed = registry.arm(tag.as_str(), folder_name.as_str());
                    SyncOutcome::Uploaded { timestamp, newly_armed }
                },
                Err(e) => SyncOutcome::Failed { error: e },
            }
        },
        SyncAction::Conflict => {
            let bytes = match data {
                Some(buf) => buf,
                None => match plugin.download(tag.as_str(), folder_name.as_str()) {
                    Ok(b) => b,
                    Err(e) => {
                        return SyncOutcome::Failed { error: e };
                    },
                },
            };
            let ghost bytes_view = bytes@;
            state.buffers.store_buffer(tag.as_str(), folder_name.as_str(), bytes, local, cloud);
            proof {
                assert(state.buffers.buffered() == old(state).buffers.buffered().insert(
                    (tag@, folder_name@),
                    (bytes_view, local, cloud),
                ));
            }
            SyncOutcome::Conflict { local_modified: local, cloud_modified: cloud }
        },
    }
}

/// Start a reconciliation pass: enumerate the remote folders and record
/// their tags as the required ones. The caller then walks each entry's
/// mapped local folder and hands both to `process_cloud_details`.
pub fn init_download_folders(plugin: &Plugin, state: &mut AppState) -> (r: Result<
    Vec<FileDetails>,
    String,
>)
    requires
        old(state).wf(),
    ensures
        final(state).wf(),
        final(state).buffers == old(state).buffers,
        r matches Ok(details) ==> final(state).tag_views() == details@.map_values(
            |d: FileDetails| d.tag@,
        ),
        r is Err ==> *final(state) == *old(state),
{
    let details = match plugin.read_cloud() {
        Ok(d) => d,
        Err(e) => {
            return Err(e);
        },
    };
    let n = details.len();
    let mut tags: Vec<String> = Vec::new();
    let mut i: usize = 0;
    while i < n
        invariant
            n == details@.len(),
            i <= n,
            tags@.len() == i,
            forall|j: int| 0 <= j < i ==> #[trigger] tags@[j]@ == details@[j].tag@,
        decreases n - i,
    {
        tags.push(details[i].tag.clone());
        i = i + 1;
    }
    proof {
        assert(tags@.map_values(|t: String| t@) =~= details@.map_values(
            |d: FileDetails| d.tag@,
        ));
    }
    state.set_required_tags(tags);
    Ok(details)
}

/// Sync one folder on demand: push the local copy, then toggle the
/// folder's watcher (this is the user-facing toggle: syncing an
/// already-watched folder detaches it and removes the remote copy).
/// Returns whether the folder is now being watched.
pub fn sync_folder(
    plugin: &Plugin,
    registry: &mut WatcherRegistry,
    tag: &str,
    folder: &str,
    local_files: &Vec<FolderFile>,
) -> (r: Result<bool, String>)
    requires
        old(registry).wf(),
    ensures
        final(registry).wf(),
        r matches Ok(now_watching) ==> {
            &&& WatcherRegistry::toggle_step(*old(registry), *final(registry), tag@, folder@)
            &&& now_watching == !old(registry).watches(tag@, folder@)
            &&& now_watching == final(registry).watches(tag@, folder@)
        },
        r is Err ==> (*final(registry) == *old(registry) || WatcherRegistry::toggle_step(
            *old(registry),
            *final(registry),
            tag@,
            folder@,
        )),
        packable(local_files@) ==> (r matches Err(e) ==> capability_error("Upload"@, e@)
            || capability_error("Remove"@, e@)),
{
    if let Err(e) = upload_file(plugin, tag, folder, local_files) {
        return Err(e);
    }
    let now_watching = registry.watch_folder(tag, folder);
    if !now_watching {
        if let Err(e) = plugin.remove(tag, folder) {
            return Err(e);
        }
    }
    Ok(now_watching)
}

/// How a resolved conflict ended.
pub enum ResolveOutcome {
    /// The local copy won: it was pushed at this timestamp, the
    /// folder's watcher is re-established, and the buffered cloud
    /// snapshot was discarded.
    KeptLocal { timestamp: u64, newly_armed: bool },
    /// The cloud copy won: write these entries into the folder's
    /// mapped path.
    AppliedCloud { entries: Vec<(String, Vec<u8>)> },
    /// Neither side yet: write these entries into the tag's temporary
    /// folder and show it to the user.
    ViewBoth { entries: Vec<(String, Vec<u8>)> },
}

/// Why a conflict resolution failed.
#[derive(Debug)]
pub enum ResolveError {
    /// No conflict is pending for this (tag, folder) pair.
    NotFound,
    /// The resolution is not one of "local", "cloud" or "none".
    UnknownResolution,
    /// A plugin call or the codec failed; carries its message.
    Failed { message: String },
}

/// Apply the user's decision to a pending conflict. The buffered record
/// is consumed exactly once: whatever the decision, a second resolution
/// of the same pair finds nothing.
pub fn resolve_conflict(
    plugin: &Plugin,
    state: &mut AppState,
    registry: &mut WatcherRegistry,
    tag: &str,
    folder: &str,
    resolution: &str,
    local_files: &Vec<FolderFile>,
) -> (r: Result<ResolveOutcome, ResolveError>)
    requires
        old(state).wf(),
        old(registry).wf(),
    ensures
        final(state).wf(),
        final(registry).wf(),
        final(state).tag_views() == old(state).tag_views(),
        ({
            let key = (tag@, folder@);
            let buffered0 = old(state).buffers.buffered();
            &&& (r matches Ok(out) ==> match out {
                ResolveOutcome::KeptLocal { timestamp, newly_armed } => {
                    &&& resolution@ == "local"@
                    &&& timestamp == latest_modified(local_files@)
                    &&& WatcherRegistry::arm_step(*old(registry), *final(registry), key.0, key.1)
                    &&& newly_armed == !old(registry).watches(key.0, key.1)
                    &&& final(state).buffers.buffered() == buffered0.remove(key)
                },
                ResolveOutcome::AppliedCloud { entries } => {
                    &&& resolution@ == "cloud"@
                    &&& final(state).buffers.buffered() == buffered0.remove(key)
                    &&& *final(registry) == *old(registry)
                    &&& forall|es: Seq<(Seq<char>, Seq<u8>)>|
                        buffered0[key].0 == #[trigger] zip_encoding(es) ==> extracted_views(
                            entries@,
                        ) == es
                },
                ResolveOutcome::ViewBoth { entries } => {
                    &&& resolution@ == "none"@
                    &&& final(state).buffers.buffered() == buffered0.remove(key)
                    &&& *final(registry) == *old(registry)
                    &&& forall|es: Seq<(Seq<char>, Seq<u8>)>|
                        buffered0[key].0 == #[trigger] zip_encoding(es) ==> extracted_views(
                            entries@,
                        ) == es
                },
            })
            &&& (r matches Ok(out) ==> buffered0.dom().contains(key))
            &&& (r matches Err(e) ==> match e {
                ResolveError::NotFound => {
                    &&& !buffered0.dom().contains(key)
                    &&& *final(state) == *old(state)
                    &&& *final(registry) == *old(registry)
                },
                ResolveError::UnknownResolution => {
                    &&& !(resolution@ == "local"@ || resolution@ == "cloud"@ || resolution@
                        == "none"@)
                    &&& *final(state) == *old(state)
                    &&& *final(registry) == *old(registry)
                },
                ResolveError::Failed { .. } => {
                    &&& *final(registry) == *old(registry)
                    &&& (resolution@ == "local"@ ==> *final(state) == *old(state))
                    &&& (resolution@ == "cloud"@ || resolution@ == "none"@ ==> {
                        &&& buffered0.dom().contains(key)
                        &&& final(state).buffers.buffered() == buffered0.remove(key)
                    })
                },
            })
            &&& ((resolution@ == "local"@ || resolution@ == "cloud"@ || resolution@ == "none"@)
                && !buffered0.dom().contains(key) ==> r == Err::<ResolveOutcome, ResolveError>(
                ResolveError::NotFound,
            ))
            &&& ((resolution@ == "cloud"@ || resolution@ == "none"@) && buffered0.dom().contains(
                key,
            ) && (exists|es: Seq<(Seq<char>, Seq<u8>)>| buffered0[key].0 == #[trigger] zip_encoding(
                es,
            )) ==> r is Ok)
        }),
{
    proof {
        reveal_strlit("local");
        reveal_strlit("cloud");
        reveal_strlit("none");
        assert("local"@ != "cloud"@) by {
            assert("local"@[0] != "cloud"@[0]);
        }
        assert("local"@ != "none"@) by {
            assert("local"@[0] != "none"@[0]);
        }
        assert("cloud"@ != "none"@) by {
            assert("cloud"@[0] != "none"@[0]);
        }
    }
    let is_local = str_eq(resolution, "local");
    let is_cloud = str_eq(resolution, "cloud");
    let is_none = str_eq(resolution, "none");
    if !is_local && !is_cloud && !is_none {
        return Err(ResolveError::UnknownResolution);
    }
    if is_local {
        if !state.buffers.contains_key(tag, folder) {
            return Err(ResolveError::NotFound);
        }
        let timestamp = match upload_file(plugin, tag, folder, local_files) {
            Ok(ts) => ts,
            Err(e) => {
                return Err(ResolveError::Failed { message: e });
            },
        };
        let _discarded = state.buffers.retrieve_buffer(tag, folder);
        let newly_armed = registry.arm(tag, folder);
        Ok(ResolveOutcome::KeptLocal { timestamp, newly_armed })
    } else {
        let record = match state.buffers.retrieve_buffer(tag, folder) {
            Some(rec) => rec,
            None => {
                return Err(ResolveError::NotFound);
            },
        };
        let entries = match extract(&record.data) {
            Ok(entries) => entries,
            Err(e) => {
                return Err(ResolveError::Failed { message: e });
            },
        };
        if is_cloud {
            Ok(ResolveOutcome::AppliedCloud { entries })
        } else {
            Ok(ResolveOutcome::ViewBoth { entries })
        }
    }
}

/// Retarget the tag-to-folder mapping: watchers of tags that the new
/// mapping no longer names are dropped (without deleting any remote
/// data), every other watcher stays, and the store holds the new
/// mapping. Afterwards a key is watched exactly when it was watched
/// before and its tag is still mapped.
pub fn set_mapping(
    store: &mut crate::store::AppStore,
    registry: &mut WatcherRegistry,
    mapping: Vec<(String, crate::store::MappingEntry)>,
)
    requires
        old(registry).wf(),
        crate::kvlist::distinct_keys(crate::store::AppStore::items_of(mapping@)),
    ensures
        final(store).wf(),
        final(registry).wf(),
        final(store).mapping_items() == crate::store::AppStore::items_of(mapping@),
        final(store).plugin_view() == old(store).plugin_view(),
        final(store).last_sync_view() == old(store).last_sync_view(),
        forall|t: Seq<char>, p: Seq<char>|
            #[trigger] final(registry).watches(t, p) <==> (old(registry).watches(t, p)
                && final(store).mapping_view().dom().contains(t)),
{
    store.set_mapping(mapping);
    let watched = registry.watched_folders();
    let retired = retired_watch_keys(&watched, store);
    let ghost retired_views = retired@.map_values(|k: (String, String)| (k.0@, k.1@));
    registry.drop_watchers(&retired);
    proof {
        assert forall|t: Seq<char>, p: Seq<char>|
            #[trigger] registry.watches(t, p) <==> (old(registry).watches(t, p)
                && store.mapping_view().dom().contains(t)) by {
            if old(registry).watches(t, p) && store.mapping_view().dom().contains(t) {
                assert(!retired_views.contains((t, p))) by {
                    if retired_views.contains((t, p)) {
                        let w = choose|w: int|
                            0 <= w < retired_views.len() && retired_views[w] == (t, p);
                        assert(retired@[w].0@ == t);
                        assert(!store.mapping_view().dom().contains(retired@[w].0@));
                    }
                }
            }
            if registry.watches(t, p) {
                assert(old(registry).watches(t, p));
                assert(!retired_views.contains((t, p)));
                assert(store.mapping_view().dom().contains(t)) by {
                    if !store.mapping_view().dom().contains(t) {
                        let w = choose|w: int|
                            0 <= w < old(registry).keys().len() && old(registry).keys()[w] == (
                            t,
                            p,
                            );
                        assert((watched@[w].0@, watched@[w].1@) == (t, p));
                        assert(retired_views.contains((watched@[w].0@, watched@[w].1@)));
                    }
                }
            }
        }
    }
}

/// The watched keys whose tag is absent from a new mapping: when the
/// user retargets mappings, these watchers are dropped without touching
/// remote data.
#[verifier::spinoff_prover]
pub fn retired_watch_keys(
    watched: &Vec<(String, String)>,
    store: &crate::store::AppStore,
) -> (r: Vec<(String, String)>)
    requires
        store.wf(),
    ensures
        forall|i: int|
            0 <= i < r@.len() ==> !store.mapping_view().dom().contains(#[trigger] r@[i].0@),
        forall|j: int|
            0 <= j < watched@.len() && !store.mapping_view().dom().contains(
                #[trigger] watched@[j].0@,
            ) ==> r@.map_values(|k: (String, String)| (k.0@, k.1@)).contains(
                (watched@[j].0@, watched@[j].1@),
            ),
{
    let n = watched.len();
    let mut out: Vec<(String, String)> = Vec::new();
    let mut i: usize = 0;
    while i < n
        invariant
            store.wf(),
            n == watched@.len(),
            i <= n,
            forall|k: int|
                0 <= k < out@.len() ==> !store.mapping_view().dom().contains(
                    #[trigger] out@[k].0@,
                ),
            forall|j: int|
                0 <= j < i && !store.mapping_view().dom().contains(#[trigger] watched@[j].0@)
                    ==> out@.map_values(|k: (String, String)| (k.0@, k.1@)).contains(
                    (watched@[j].0@, watched@[j].1@),
                ),
        decreases n - i,
    {
        let (t, p) = &watched[i];
        match store.get_mapping(t.as_str()) {
            Some(_) => {},
            None => {
                let ghost before = out@;
                out.push((t.clone(), p.clone()));
                proof {
                    let mapped = out@.map_values(|k: (String, String)| (k.0@, k.1@));
                    assert(mapped[before.len() as int] == (watched@[i as int].0@, watched@[
                    i as int].1@));
                    assert forall|j: int|
                        0 <= j < i + 1 && !store.mapping_view().dom().contains(
                            #[trigger] watched@[j].0@,
                        ) implies mapped.contains((watched@[j].0@, watched@[j].1@)) by {
                        if j < i {
                            let prev = before.map_values(|k: (String, String)| (k.0@, k.1@));
                            assert(prev.contains((watched@[j].0@, watched@[j].1@)));
                            let w = choose|w: int|
                                0 <= w < prev.len() && prev[w] == (watched@[j].0@, watched@[j].1@);
                            assert(mapped[w] == (watched@[j].0@, watched@[j].1@));
                        }
                    }
                }
            },
        }
        i = i + 1;
    }
    out
}

} // verus!
