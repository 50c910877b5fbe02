//! Reading a script package's self-description without loading it as
//! the active plugin.

use vstd::prelude::*;

use crate::plugin::{capability_error, contract_violation, load_error, Plugin};
use crate::text::replace_backslashes;

verus! {

/// A script package's static metadata.
pub struct Service {
    pub name: String,
    pub description: String,
    pub author: String,
}

/// Load the script package named `servicename` from the plugins folder
/// (separators normalized for the interpreter) and read its metadata.
/// A failure is a loading error, an Info capability failure, or a
/// malformed metadata field, each in its stated shape.
pub fn plugin_info(appdata: &str, servicename: &str) -> (r: Result<Service, String>)
    ensures
        r matches Err(e) ==> load_error(e@) || capability_error("Info"@, e@)
            || contract_violation(e@),
{
    let normalized = replace_backslashes(servicename);
    let plugin = match Plugin::new(appdata, normalized.as_str()) {
        Ok(p) => p,
        Err(e) => {
            return Err(e);
        },
    };
    let info = match plugin.info() {
        Ok(i) => i,
        Err(e) => {
            return Err(e);
        },
    };
    Ok(Service { name: info.name, description: info.description, author: info.author })
}

} // verus!
