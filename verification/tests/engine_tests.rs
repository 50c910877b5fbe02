use savesync::archive::{zip_dir, FolderFile};
use savesync::engine::{init_download_folders, process_cloud_details, resolve_conflict,
    set_mapping, sync_folder, ResolveError, ResolveOutcome, SyncOutcome};
use savesync::plugin::{FileDetails, Plugin};
use savesync::state::AppState;
use savesync::store::{AppStore, MappingEntry};
use savesync::watch::WatcherRegistry;

fn file(rel_path: &str, data: &[u8], modified: u64) -> FolderFile {
    FolderFile { rel_path: rel_path.to_string(), data: data.to_vec(), modified }
}

fn details(tag: &str, folder: &str, last_modified: u64, data: Option<Vec<u8>>) -> FileDetails {
    FileDetails {
        tag: tag.to_string(),
        folder_name: folder.to_string(),
        last_modified,
        data,
    }
}

fn idle_plugin() -> Plugin {
    Plugin::from_script("idle.lua", "x = 1").unwrap()
}

#[test]
fn download_when_cloud_is_ahead_then_watch_is_armed() {
    // synced = 100, local = 50, cloud = 200: the cloud side wins.
    let cloud_files = vec![file("save.dat", b"cloud copy", 200)];
    let (cloud_bytes, _) = zip_dir(&cloud_files).unwrap();
    let local_files = vec![file("save.dat", b"old local", 50)];

    let plugin = idle_plugin();
    let mut state = AppState::new();
    let mut registry = WatcherRegistry::new();
    let outcome = process_cloud_details(
        &plugin,
        &mut state,
        &mut registry,
        details("saves", "slot1", 200, Some(cloud_bytes)),
        100,
        true,
        &local_files,
    );
    match outcome {
        SyncOutcome::Extracted { entries, newly_armed } => {
            assert!(newly_armed);
            assert_eq!(entries.len(), 1);
            assert_eq!(entries[0].0, "save.dat");
            assert_eq!(entries[0].1, b"cloud copy".to_vec());
        },
        _ => panic!("expected a download"),
    }
    assert!(registry.contains_key("saves", "slot1"));
}

#[test]
fn upload_when_local_is_ahead_carries_the_local_timestamp() {
    // synced = 100, local = 150, cloud = 50: the local side wins, and the
    // plugin must see the freshly packed bytes stamped at 150.
    let script = r#"
function Upload(tag, folder, date, buffer)
    if tag ~= 'saves' then error('wrong tag') end
    if folder ~= 'slot1' then error('wrong folder') end
    if date < 150 then error('stale timestamp') end
    if #buffer == 0 then error('empty archive') end
end
"#;
    let plugin = Plugin::from_script("drive.lua", script).unwrap();
    let local_files = vec![file("save.dat", b"new local", 150)];
    let mut state = AppState::new();
    let mut registry = WatcherRegistry::new();
    let outcome = process_cloud_details(
        &plugin,
        &mut state,
        &mut registry,
        details("saves", "slot1", 50, None),
        100,
        true,
        &local_files,
    );
    match outcome {
        SyncOutcome::Uploaded { timestamp, newly_armed } => {
            assert_eq!(timestamp, 150);
            assert!(newly_armed);
        },
        _ => panic!("expected an upload"),
    }
    assert!(registry.contains_key("saves", "slot1"));
}

#[test]
fn both_ahead_buffers_a_conflict_and_writes_nothing() {
    // synced = 100, local = 150, cloud = 200: unresolvable automatically.
    let cloud_files = vec![file("save.dat", b"cloud copy", 200)];
    let (cloud_bytes, _) = zip_dir(&cloud_files).unwrap();
    let local_files = vec![file("save.dat", b"local copy", 150)];

    let plugin = idle_plugin();
    let mut state = AppState::new();
    let mut registry = WatcherRegistry::new();
    let outcome = process_cloud_details(
        &plugin,
        &mut state,
        &mut registry,
        details("saves", "slot1", 200, Some(cloud_bytes)),
        100,
        true,
        &local_files,
    );
    match outcome {
        SyncOutcome::Conflict { local_modified, cloud_modified } => {
            assert_eq!(local_modified, 150);
            assert_eq!(cloud_modified, 200);
        },
        _ => panic!("expected a conflict"),
    }
    // No watcher was armed and the record is pending.
    assert!(!registry.contains_key("saves", "slot1"));
    assert!(state.buffers.contains_key("saves", "slot1"));
}

#[test]
fn resolving_with_cloud_applies_the_buffered_archive_once() {
    let cloud_files = vec![file("save.dat", b"cloud copy", 200)];
    let (cloud_bytes, _) = zip_dir(&cloud_files).unwrap();
    let local_files = vec![file("save.dat", b"local copy", 150)];

    let plugin = idle_plugin();
    let mut state = AppState::new();
    let mut registry = WatcherRegistry::new();
    process_cloud_details(
        &plugin,
        &mut state,
        &mut registry,
        details("saves", "slot1", 200, Some(cloud_bytes)),
        100,
        true,
        &local_files,
    );

    let outcome = resolve_conflict(
        &plugin, &mut state, &mut registry, "saves", "slot1", "cloud", &local_files,
    )
    .expect("resolution should succeed");
    match outcome {
        ResolveOutcome::AppliedCloud { entries } => {
            assert_eq!(entries.len(), 1);
            assert_eq!(entries[0].0, "save.dat");
            assert_eq!(entries[0].1, b"cloud copy".to_vec());
        },
        _ => panic!("expected the cloud side to be applied"),
    }
    // The record is consumed: a second resolution finds nothing.
    let again = resolve_conflict(
        &plugin, &mut state, &mut registry, "saves", "slot1", "cloud", &local_files,
    );
    assert!(matches!(again, Err(ResolveError::NotFound)));
}

#[test]
fn resolving_with_local_uploads_and_rearms_the_watcher() {
    let cloud_files = vec![file("save.dat", b"cloud copy", 200)];
    let (cloud_bytes, _) = zip_dir(&cloud_files).unwrap();
    let local_files = vec![file("save.dat", b"local copy", 150)];

    let script = r#"
function Upload(tag, folder, date, buffer)
    if date < 150 then error('stale timestamp') end
end
"#;
    let plugin = Plugin::from_script("drive.lua", script).unwrap();
    let mut state = AppState::new();
    let mut registry = WatcherRegistry::new();
    process_cloud_details(
        &plugin,
        &mut state,
        &mut registry,
        details("saves", "slot1", 200, Some(cloud_bytes)),
        100,
        true,
        &local_files,
    );

    let outcome = resolve_conflict(
        &plugin, &mut state, &mut registry, "saves", "slot1", "local", &local_files,
    )
    .expect("resolution should succeed");
    match outcome {
        ResolveOutcome::KeptLocal { timestamp, newly_armed } => {
            assert_eq!(timestamp, 150);
            assert!(newly_armed);
        },
        _ => panic!("expected the local side to be kept"),
    }
    assert!(registry.contains_key("saves", "slot1"));
    // The buffered cloud snapshot was discarded.
    assert!(!state.buffers.contains_key("saves", "slot1"));
    let again = resolve_conflict(
        &plugin, &mut state, &mut registry, "saves", "slot1", "local", &local_files,
    );
    assert!(matches!(again, Err(ResolveError::NotFound)));
}

#[test]
fn resolving_with_none_hands_out_the_entries_for_viewing() {
    let cloud_files = vec![file("save.dat", b"cloud copy", 200)];
    let (cloud_bytes, _) = zip_dir(&cloud_files).unwrap();
    let plugin = idle_plugin();
    let mut state = AppState::new();
    let mut registry = WatcherRegistry::new();
    state.buffers.store_buffer("saves", "slot1", cloud_bytes, 150, 200);

    let outcome = resolve_conflict(
        &plugin, &mut state, &mut registry, "saves", "slot1", "none", &Vec::new(),
    )
    .expect("resolution should succeed");
    match outcome {
        ResolveOutcome::ViewBoth { entries } => {
            assert_eq!(entries[0].1, b"cloud copy".to_vec());
        },
        _ => panic!("expected a side-by-side view"),
    }
    assert!(!registry.contains_key("saves", "slot1"));
}

#[test]
fn unknown_resolutions_are_rejected_and_keep_the_record() {
    let plugin = idle_plugin();
    let mut state = AppState::new();
    let mut registry = WatcherRegistry::new();
    state.buffers.store_buffer("saves", "slot1", vec![1], 150, 200);
    let r = resolve_conflict(
        &plugin, &mut state, &mut registry, "saves", "slot1", "both", &Vec::new(),
    );
    assert!(matches!(r, Err(ResolveError::UnknownResolution)));
    assert!(state.buffers.contains_key("saves", "slot1"));
}

#[test]
fn unmapped_tags_are_skipped() {
    let plugin = idle_plugin();
    let mut state = AppState::new();
    let mut registry = WatcherRegistry::new();
    let outcome = process_cloud_details(
        &plugin,
        &mut state,
        &mut registry,
        details("saves", "slot1", 200, None),
        100,
        false,
        &Vec::new(),
    );
    assert!(matches!(outcome, SyncOutcome::Unmapped));
    assert!(!registry.contains_key("saves", "slot1"));
}

#[test]
fn noop_still_rearms_the_watcher() {
    let plugin = idle_plugin();
    let mut state = AppState::new();
    let mut registry = WatcherRegistry::new();
    let outcome = process_cloud_details(
        &plugin,
        &mut state,
        &mut registry,
        details("saves", "slot1", 100, None),
        100,
        true,
        &vec![file("a", b"x", 100)],
    );
    assert!(matches!(outcome, SyncOutcome::UpToDate { newly_armed: true }));
    assert!(registry.contains_key("saves", "slot1"));
}

#[test]
fn failed_download_changes_nothing() {
    let plugin = Plugin::from_script("p", "function Download(t, f) error('offline') end")
        .unwrap();
    let mut state = AppState::new();
    let mut registry = WatcherRegistry::new();
    let outcome = process_cloud_details(
        &plugin,
        &mut state,
        &mut registry,
        details("saves", "slot1", 200, None),
        100,
        true,
        &Vec::new(),
    );
    match outcome {
        SyncOutcome::Failed { error } => assert!(error.contains("offline")),
        _ => panic!("expected a failure"),
    }
    assert!(!registry.contains_key("saves", "slot1"));
    assert!(!state.buffers.contains_key("saves", "slot1"));
}

#[test]
fn sync_folder_toggles_the_watcher() {
    let script = r#"
function Upload(tag, folder, date, buffer) end
function Remove(tag, folder)
    Removed = tag .. '/' .. folder
end
"#;
    let plugin = Plugin::from_script("drive.lua", script).unwrap();
    let mut registry = WatcherRegistry::new();
    let files = vec![file("a", b"x", 1)];
    assert_eq!(sync_folder(&plugin, &mut registry, "saves", "slot1", &files), Ok(true));
    assert!(registry.contains_key("saves", "slot1"));
    // Syncing again detaches the watcher and removes the remote copy.
    assert_eq!(sync_folder(&plugin, &mut registry, "saves", "slot1", &files), Ok(false));
    assert!(!registry.contains_key("saves", "slot1"));
}

#[test]
fn init_download_folders_records_the_required_tags() {
    let script = r#"
function Read_cloud()
    return {
        { tag = 'saves', folder_name = 'slot1', last_modified = 10 },
        { tag = 'mods', folder_name = 'pack', last_modified = 20 },
    }
end
"#;
    let plugin = Plugin::from_script("drive.lua", script).unwrap();
    let mut state = AppState::new();
    let details = init_download_folders(&plugin, &mut state).unwrap();
    assert_eq!(details.len(), 2);
    assert_eq!(state.required_tags(), vec!["saves".to_string(), "mods".to_string()]);
}

#[test]
fn init_download_folders_reports_read_failures() {
    let plugin = idle_plugin();
    let mut state = AppState::new();
    let err = init_download_folders(&plugin, &mut state).unwrap_err();
    assert_eq!(err, "Read_cloud function not defined");
}

#[test]
fn set_mapping_drops_watchers_of_unmapped_tags() {
    let mut store = AppStore::new(None, Vec::new(), 0);
    let mut registry = WatcherRegistry::new();
    registry.watch_folder("saves", "slot1");
    registry.watch_folder("mods", "pack");
    let mapping = vec![(
        "saves".to_string(),
        MappingEntry { env_var: "HOME".to_string(), rel_path: "saves".to_string() },
    )];
    set_mapping(&mut store, &mut registry, mapping);
    assert!(registry.contains_key("saves", "slot1"));
    assert!(!registry.contains_key("mods", "pack"));
    assert_eq!(store.path_mapping().len(), 1);
}

#[test]
fn conflict_buffers_whatever_the_plugin_sent() {
    // The cloud bytes are buffered unvalidated; a later resolution that
    // needs to unpack them reports the codec failure, and the record is
    // consumed either way.
    let plugin = idle_plugin();
    let mut state = AppState::new();
    let mut registry = WatcherRegistry::new();
    let garbage = vec![0u8; 32];
    let outcome = process_cloud_details(
        &plugin,
        &mut state,
        &mut registry,
        details("saves", "slot1", 200, Some(garbage)),
        100,
        true,
        &vec![file("a", b"x", 150)],
    );
    assert!(matches!(outcome, SyncOutcome::Conflict { .. }));
    let r = resolve_conflict(
        &plugin, &mut state, &mut registry, "saves", "slot1", "cloud", &Vec::new(),
    );
    assert!(matches!(r, Err(ResolveError::Failed { .. })));
    let again = resolve_conflict(
        &plugin, &mut state, &mut registry, "saves", "slot1", "cloud", &Vec::new(),
    );
    assert!(matches!(again, Err(ResolveError::NotFound)));
}

#[test]
fn resolving_without_a_pending_conflict_is_not_found() {
    let plugin = idle_plugin();
    let mut state = AppState::new();
    let mut registry = WatcherRegistry::new();
    for resolution in ["local", "cloud", "none"] {
        let r = resolve_conflict(
            &plugin, &mut state, &mut registry, "saves", "slot1", resolution, &Vec::new(),
        );
        assert!(matches!(r, Err(ResolveError::NotFound)));
    }
}
