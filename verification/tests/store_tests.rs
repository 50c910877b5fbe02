use savesync::emitter::{abort_result, conflicting_files, init_result, plugin_error, saved_result,
    sync_result, AppEvent};
use savesync::state::AppState;
use savesync::store::{AppStore, MappingEntry};

fn entry(env_var: &str, rel_path: &str) -> MappingEntry {
    MappingEntry { env_var: env_var.to_string(), rel_path: rel_path.to_string() }
}

#[test]
fn store_round_trips_its_values() {
    let mapping = vec![
        ("saves".to_string(), entry("HOME", "saves")),
        ("mods".to_string(), entry("APPDATA", "game/mods")),
    ];
    let store = AppStore::new(Some("drive.lua".to_string()), mapping, 42);
    assert_eq!(store.plugin(), Some("drive.lua".to_string()));
    assert_eq!(store.last_sync(), 42);
    let back = store.path_mapping();
    assert_eq!(back.len(), 2);
    assert_eq!(back[0].0, "saves");
    assert_eq!(back[0].1.env_var, "HOME");
    assert_eq!(back[1].1.rel_path, "game/mods");
}

#[test]
fn get_mapping_finds_only_mapped_tags() {
    let mapping = vec![("saves".to_string(), entry("HOME", "saves"))];
    let store = AppStore::new(None, mapping, 0);
    let found = store.get_mapping("saves").expect("tag should be mapped");
    assert_eq!(found.env_var, "HOME");
    assert_eq!(found.rel_path, "saves");
    assert!(store.get_mapping("other").is_none());
}

#[test]
fn set_plugin_and_clear_plugin() {
    let mut store = AppStore::new(None, Vec::new(), 0);
    assert!(store.plugin().is_none());
    store.set_plugin("drive.lua");
    assert_eq!(store.plugin(), Some("drive.lua".to_string()));
    store.clear_plugin();
    assert!(store.plugin().is_none());
}

#[test]
fn set_last_sync_updates_only_the_timestamp() {
    let mut store = AppStore::new(Some("p".to_string()), Vec::new(), 5);
    store.set_last_sync(99);
    assert_eq!(store.last_sync(), 99);
    assert_eq!(store.plugin(), Some("p".to_string()));
}

#[test]
fn session_state_tracks_required_tags() {
    let mut state = AppState::new();
    assert!(state.required_tags().is_empty());
    state.set_required_tags(vec!["saves".to_string(), "mods".to_string()]);
    assert_eq!(state.required_tags(), vec!["saves".to_string(), "mods".to_string()]);
}

#[test]
fn events_carry_their_payloads() {
    match plugin_error("drive.lua", "it broke") {
        AppEvent::PluginError { title, description } => {
            assert_eq!(title, "drive.lua");
            assert_eq!(description, "it broke");
        },
        _ => panic!("wrong event"),
    }
    match init_result(true) {
        AppEvent::InitResult { ok } => assert!(ok),
        _ => panic!("wrong event"),
    }
    match abort_result("stopped") {
        AppEvent::AbortResult { message } => assert_eq!(message, "stopped"),
        _ => panic!("wrong event"),
    }
    assert!(matches!(saved_result(), AppEvent::SavedResult));
    match sync_result("saves", "slot1", true) {
        AppEvent::SyncResult { tag, folder, now_watching } => {
            assert_eq!(tag, "saves");
            assert_eq!(folder, "slot1");
            assert!(now_watching);
        },
        _ => panic!("wrong event"),
    }
    match conflicting_files("saves", "slot1", 150, 200) {
        AppEvent::ConflictingFiles { tag, folder, local_modified, cloud_modified } => {
            assert_eq!(tag, "saves");
            assert_eq!(folder, "slot1");
            assert_eq!(local_modified, 150);
            assert_eq!(cloud_modified, 200);
        },
        _ => panic!("wrong event"),
    }
}
