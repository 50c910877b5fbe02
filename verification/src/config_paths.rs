//! Where the tool keeps its configuration, credentials, plugins, logs
//! and temporary extractions, as path strings under a caller-supplied
//! application-data root.
//!
//! These functions only build the paths; creating the directories (and
//! finding the platform's real application-data root) is left to the
//! embedding application.

use vstd::prelude::*;

use crate::text::path_join;

verus! {

/// The application-data root used when no platform directory is
/// configured: the parent of the working directory.
pub fn appdata() -> (r: String)
    ensures
        r@ == ".."@,
{
    let r = String::new();
    let mut s = r;
    s.append("..");
    s
}

/// The tool's own folder under the application-data root.
pub fn config(appdata: &str) -> (r: String)
    ensures
        r@ == appdata@ + "/"@ + "SaveSync"@,
{
    path_join(appdata, "SaveSync")
}

/// Where per-plugin credential files live.
pub fn creds(appdata: &str) -> (r: String)
    ensures
        r@ == appdata@ + "/"@ + "SaveSync"@ + "/"@ + "credentials"@,
{
    let c = config(appdata);
    path_join(c.as_str(), "credentials")
}

/// Where installed plugins live.
pub fn plugin(appdata: &str) -> (r: String)
    ensures
        r@ == appdata@ + "/"@ + "SaveSync"@ + "/"@ + "plugins"@,
{
    let c = config(appdata);
    path_join(c.as_str(), "plugins")
}

/// Where per-plugin logs live.
pub fn logs(appdata: &str) -> (r: String)
    ensures
        r@ == appdata@ + "/"@ + "SaveSync"@ + "/"@ + "logs"@,
{
    let c = config(appdata);
    path_join(c.as_str(), "logs")
}

/// Where a tag's files are unpacked for side-by-side viewing.
pub fn temp(appdata: &str, tag: &str) -> (r: String)
    ensures
        r@ == appdata@ + "/"@ + "SaveSync"@ + "/"@ + "temp"@ + "/"@ + tag@,
{
    let c = config(appdata);
    let t = path_join(c.as_str(), "temp");
    path_join(t.as_str(), tag)
}

/// Where the tag-to-folder mapping is persisted.
pub fn tagmap_loc(appdata: &str) -> (r: String)
    ensures
        r@ == appdata@ + "/"@ + "SaveSync"@ + "/"@ + "tagmap.json"@,
{
    let c = config(appdata);
    path_join(c.as_str(), "tagmap.json")
}

/// Where the last used plugin's file name is persisted.
pub fn plugin_loc(appdata: &str) -> (r: String)
    ensures
        r@ == appdata@ + "/"@ + "SaveSync"@ + "/"@ + "last_plugin.txt"@,
{
    let c = config(appdata);
    path_join(c.as_str(), "last_plugin.txt")
}

} // verus!
