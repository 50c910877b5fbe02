use savesync::config_paths;
use savesync::plugin::{call_failure_message, field_from_diagnostic, include_path,
    missing_field_message, CallFailure};
use savesync::store::resolve_path;
use savesync::text::{backtick_field, path_join, replace_backslashes, str_eq};

#[test]
fn str_eq_compares_contents() {
    assert!(str_eq("abc", "abc"));
    assert!(!str_eq("abc", "abd"));
    assert!(!str_eq("abc", "abcd"));
    assert!(str_eq("", ""));
}

#[test]
fn path_join_inserts_one_separator() {
    assert_eq!(path_join("base", "name"), "base/name");
    assert_eq!(resolve_path("/home/user/saves", "slot1"), "/home/user/saves/slot1");
}

#[test]
fn replace_backslashes_normalizes() {
    assert_eq!(replace_backslashes("a\\b\\c"), "a/b/c");
    assert_eq!(replace_backslashes("a/b"), "a/b");
    assert_eq!(replace_backslashes(""), "");
}

#[test]
fn include_path_builds_the_search_pattern() {
    assert_eq!(include_path("plugins\\drive", "lua"), "plugins/drive/?.lua");
    assert_eq!(include_path("plugins/drive", "dll"), "plugins/drive/?.dll");
}

#[test]
fn backtick_field_takes_first_to_last_tick() {
    assert_eq!(backtick_field("missing field `name`"), Some("name".to_string()));
    assert_eq!(backtick_field("a `x` and `y` b"), Some("x` and `y".to_string()));
    assert_eq!(backtick_field("no ticks here"), None);
    assert_eq!(backtick_field("only `one tick"), None);
}

#[test]
fn diagnostic_field_falls_back_to_the_key() {
    assert_eq!(field_from_diagnostic("missing field `author`", "name"), "author");
    assert_eq!(field_from_diagnostic("error converting Lua nil to String", "name"), "name");
}

#[test]
fn failure_messages_match_the_capability() {
    assert_eq!(
        call_failure_message("Info", &CallFailure::Undefined),
        "Info function not defined"
    );
    assert_eq!(
        call_failure_message("Upload", &CallFailure::Failed { message: "boom".to_string() }),
        "Error while calling Upload: boom"
    );
    assert_eq!(missing_field_message("author"), "Plugin author was not found");
}

#[test]
fn config_paths_hang_off_the_appdata_root() {
    assert_eq!(config_paths::appdata(), "..");
    assert_eq!(config_paths::config("root"), "root/SaveSync");
    assert_eq!(config_paths::creds("root"), "root/SaveSync/credentials");
    assert_eq!(config_paths::plugin("root"), "root/SaveSync/plugins");
    assert_eq!(config_paths::logs("root"), "root/SaveSync/logs");
    assert_eq!(config_paths::temp("root", "saves"), "root/SaveSync/temp/saves");
    assert_eq!(config_paths::tagmap_loc("root"), "root/SaveSync/tagmap.json");
    assert_eq!(config_paths::plugin_loc("root"), "root/SaveSync/last_plugin.txt");
}
