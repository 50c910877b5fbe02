//! The plugin runtime: a cloud-storage backend is a Lua script package
//! that registers a fixed set of global callables (the capability set),
//! run inside a sandboxed interpreter whose standard library is limited
//! to its safe subset.
//!
//! Every crossing into the interpreter goes through one of the trusted
//! wrappers below; everything around them — capability names, error
//! shaping, normalization of what scripts hand back — is verified code.

use vstd::prelude::*;
use vstd::string::StringExecFns;

use crate::text::{backtick_field, path_join, replace_backslashes, slashed};

verus! {

#[verifier::external_type_specification]
#[verifier::external_body]
pub struct ExLua(mlua::Lua);

#[verifier::external_type_specification]
#[verifier::external_body]
pub struct ExTable(mlua::Table);

/// Why a capability call failed.
pub enum CallFailure {
    /// The script never defined a global of that name.
    Undefined,
    /// The callable exists but the call failed; carries the
    /// interpreter's message.
    Failed { message: String },
}

/// A remote folder descriptor, as normalized from whatever the script
/// handed back: the folder's tag, its name, its last modification time
/// in seconds, and optionally the folder's packed bytes so no second
/// fetch is needed.
#[derive(Debug)]
pub struct FileDetails {
    pub tag: String,
    pub folder_name: String,
    pub last_modified: u64,
    pub data: Option<Vec<u8>>,
}

/// A plugin's static self-description.
#[derive(Debug)]
pub struct PluginInfo {
    pub filename: String,
    pub name: String,
    pub description: String,
    pub author: String,
    pub icon_url: Option<String>,
}

/// Relies on `mlua::Lua::new`, which creates an interpreter with only
/// the safe subset of the standard libraries loaded. The safe
/// constructor also disables the interpreter's compiled-module loaders,
/// so a `package.cpath` entry can name a compiled helper module but
/// never load one.
#[verifier::external_body]
fn lua_new() -> mlua::Lua {
    mlua::Lua::new()
}

/// Relies on `mlua::Lua::load` and `Chunk::exec`: runs a chunk of Lua
/// source in the interpreter.
#[verifier::external_body]
fn lua_exec(lua: &mlua::Lua, chunk: &str) -> Result<(), String> {
    match lua.load(chunk).exec() {
        Ok(()) => Ok(()),
        Err(e) => Err(e.to_string()),
    }
}

/// Relies on the interpreter's own `dofile` (fetched with
/// `Table::get` from the globals and invoked with `Function::call`):
/// runs the script file at `path`.
#[verifier::external_body]
fn lua_dofile(lua: &mlua::Lua, path: &str) -> Result<(), String> {
    let dofile: mlua::Function = match lua.globals().get("dofile") {
        Ok(f) => f,
        Err(e) => return Err(e.to_string()),
    };
    match dofile.call::<()>(path) {
        Ok(()) => Ok(()),
        Err(e) => Err(e.to_string()),
    }
}

/// Relies on `Table::get` over the globals and `Function::call`: runs
/// the named capability expecting a table back.
#[verifier::external_body]
fn lua_call_table(lua: &mlua::Lua, name: &str) -> Result<mlua::Table, CallFailure> {
    let f: mlua::Function = match lua.globals().get(name) {
        Ok(f) => f,
        Err(_) => return Err(CallFailure::Undefined),
    };
    match f.call::<mlua::Table>(()) {
        Ok(t) => Ok(t),
        Err(e) => Err(CallFailure::Failed { message: e.to_string() }),
    }
}

/// Relies on `Table::get` over the globals and `Function::call`: runs
/// the named capability expecting an optional string back (absent or
/// nil both come back as none).
#[verifier::external_body]
fn lua_call_opt_string(lua: &mlua::Lua, name: &str, args: (Option<String>, String)) -> Result<
    Option<String>,
    CallFailure,
> {
    let f: mlua::Function = match lua.globals().get(name) {
        Ok(f) => f,
        Err(_) => return Err(CallFailure::Undefined),
    };
    match f.call::<Option<String>>(args) {
        Ok(v) => Ok(v),
        Err(e) => Err(CallFailure::Failed { message: e.to_string() }),
    }
}

/// Relies on `Table::get` over the globals and `Function::call`: runs
/// the named capability with no arguments expecting an optional string.
#[verifier::external_body]
fn lua_call_opt_string_noargs(lua: &mlua::Lua, name: &str) -> Result<Option<String>, CallFailure> {
    let f: mlua::Function = match lua.globals().get(name) {
        Ok(f) => f,
        Err(_) => return Err(CallFailure::Undefined),
    };
    match f.call::<Option<String>>(()) {
        Ok(v) => Ok(v),
        Err(e) => Err(CallFailure::Failed { message: e.to_string() }),
    }
}

/// Relies on `Table::get` over the globals and `Function::call`: runs
/// the named capability expecting a string back.
#[verifier::external_body]
fn lua_call_string(lua: &mlua::Lua, name: &str, arg: &str) -> Result<String, CallFailure> {
    let f: mlua::Function = match lua.globals().get(name) {
        Ok(f) => f,
        Err(_) => return Err(CallFailure::Undefined),
    };
    match f.call::<String>(arg) {
        Ok(v) => Ok(v),
        Err(e) => Err(CallFailure::Failed { message: e.to_string() }),
    }
}

/// Relies on `Table::get` over the globals and `Function::call`: runs
/// the named capability with (tag, folder, seconds, bytes), expecting
/// nothing back.
#[verifier::external_body]
fn lua_call_upload(
    lua: &mlua::Lua,
    name: &str,
    tag: &str,
    folder: &str,
    date: u64,
    buffer: &Vec<u8>,
) -> Result<(), CallFailure> {
    let f: mlua::Function = match lua.globals().get(name) {
        Ok(f) => f,
        Err(_) => return Err(CallFailure::Undefined),
    };
    let bytes = mlua::BString::from(buffer.clone());
    match f.call::<()>((tag, folder, date, bytes)) {
        Ok(()) => Ok(()),
        Err(e) => Err(CallFailure::Failed { message: e.to_string() }),
    }
}

/// Relies on `Table::get` over the globals and `Function::call`: runs
/// the named capability with (tag, folder), expecting a byte string.
#[verifier::external_body]
fn lua_call_bytes(lua: &mlua::Lua, name: &str, tag: &str, folder: &str) -> Result<
    Vec<u8>,
    CallFailure,
> {
    let f: mlua::Function = match lua.globals().get(name) {
        Ok(f) => f,
        Err(_) => return Err(CallFailure::Undefined),
    };
    match f.call::<mlua::BString>((tag, folder)) {
        Ok(b) => Ok(b.into()),
        Err(e) => Err(CallFailure::Failed { message: e.to_string() }),
    }
}

/// Relies on `Table::get` over the globals and `Function::call`: runs
/// the named capability with (tag, folder), expecting nothing back.
#[verifier::external_body]
fn lua_call_unit2(lua: &mlua::Lua, name: &str, tag: &str, folder: &str) -> Result<
    (),
    CallFailure,
> {
    let f: mlua::Function = match lua.globals().get(name) {
        Ok(f) => f,
        Err(_) => return Err(CallFailure::Undefined),
    };
    match f.call::<()>((tag, folder)) {
        Ok(()) => Ok(()),
        Err(e) => Err(CallFailure::Failed { message: e.to_string() }),
    }
}

/// Relies on `Table::get` over the globals and `Function::call`: runs
/// the named capability expecting a list of tables back.
#[verifier::external_body]
fn lua_call_tables(lua: &mlua::Lua, name: &str) -> Result<Vec<mlua::Table>, CallFailure> {
    let f: mlua::Function = match lua.globals().get(name) {
        Ok(f) => f,
        Err(_) => return Err(CallFailure::Undefined),
    };
    match f.call::<Vec<mlua::Table>>(()) {
        Ok(v) => Ok(v),
        Err(e) => Err(CallFailure::Failed { message: e.to_string() }),
    }
}

/// Relies on `mlua::Table::get`: reads a string field of a table; on
/// failure carries the interpreter's diagnostic.
#[verifier::external_body]
fn table_get_string(t: &mlua::Table, key: &str) -> Result<String, String> {
    match t.get::<String>(key) {
        Ok(v) => Ok(v),
        Err(e) => Err(e.to_string()),
    }
}

/// Relies on `mlua::Table::get`: reads an optional string field.
#[verifier::external_body]
fn table_get_opt_string(t: &mlua::Table, key: &str) -> Result<Option<String>, String> {
    match t.get::<Option<String>>(key) {
        Ok(v) => Ok(v),
        Err(e) => Err(e.to_string()),
    }
}

/// Relies on `mlua::Table::get`: reads an unsigned integer field.
#[verifier::external_body]
fn table_get_u64(t: &mlua::Table, key: &str) -> Result<u64, String> {
    match t.get::<u64>(key) {
        Ok(v) => Ok(v),
        Err(e) => Err(e.to_string()),
    }
}

/// Relies on `mlua::Table::get`: reads an optional byte-string field.
#[verifier::external_body]
fn table_get_opt_bytes(t: &mlua::Table, key: &str) -> Result<Option<Vec<u8>>, String> {
    match t.get::<Option<mlua::BString>>(key) {
        Ok(v) => Ok(v.map(|b| b.into())),
        Err(e) => Err(e.to_string()),
    }
}

/// The two failure shapes a capability call can report: the capability
/// was never defined by the script, or the call itself failed and the
/// message carries the interpreter's diagnostic after a fixed prefix.
pub open spec fn capability_error(name: Seq<char>, message: Seq<char>) -> bool {
    ||| message == name + " function not defined"@
    ||| ("Error while calling "@ + name + ": "@).is_prefix_of(message)
}

/// The error text for a failed capability call: a capability the script
/// never defined, or the interpreter's own message.
pub fn call_failure_message(name: &str, failure: &CallFailure) -> (r: String)
    ensures
        failure is Undefined ==> r@ == name@ + " function not defined"@,
        failure matches CallFailure::Failed { message } ==> r@ == "Error while calling "@ + name@
            + ": "@ + message@,
        capability_error(name@, r@),
{
    match failure {
        CallFailure::Undefined => {
            let mut s = name.to_owned();
            s.append(" function not defined");
            s
        },
        CallFailure::Failed { message } => {
            let mut s = "Error while calling ".to_owned();
            s.append(name);
            s.append(": ");
            s.append(message.as_str());
            proof {
                let p = "Error while calling "@ + name@ + ": "@;
                assert(p.is_prefix_of(s@)) by {
                    assert(p =~= s@.subrange(0, p.len() as int));
                }
            }
            s
        },
    }
}

/// The field name a conversion diagnostic points at: the backtick-quoted
/// name inside the interpreter's message when there is one, otherwise
/// the field that was being read.
pub fn field_from_diagnostic(message: &str, fallback: &str) -> (r: String)
    ensures
        (exists|i: int, j: int|
            0 <= i < j < message@.len() && message@[i] == '`' && message@[j] == '`') ==> (
        exists|f: int, l: int|
            {
                &&& 0 <= f < l < message@.len()
                &&& message@[f] == '`'
                &&& message@[l] == '`'
                &&& r@ == message@.subrange(f + 1, l)
            }),
        (forall|i: int, j: int|
            0 <= i < j < message@.len() ==> !(message@[i] == '`' && message@[j] == '`')) ==> r@
            == fallback@,
{
    match backtick_field(message) {
        Some(name) => name,
        None => fallback.to_owned(),
    }
}

/// The shape of an error that names a malformed or missing field of a
/// value the script handed back.
pub open spec fn contract_violation(message: Seq<char>) -> bool {
    &&& ("Plugin "@).is_prefix_of(message)
    &&& (" was not found"@).is_suffix_of(message)
}

/// "Plugin {field} was not found": the error reported when a script's
/// metadata is missing or malformed in one field.
pub fn missing_field_message(field: &str) -> (r: String)
    ensures
        r@ == "Plugin "@ + field@ + " was not found"@,
        contract_violation(r@),
{
    let mut s = "Plugin ".to_owned();
    s.append(field);
    s.append(" was not found");
    proof {
        let p = "Plugin "@;
        let q = " was not found"@;
        assert(p.is_prefix_of(s@)) by {
            assert(p =~= s@.subrange(0, p.len() as int));
        }
        assert(q.is_suffix_of(s@)) by {
            assert(q =~= s@.subrange(s@.len() - q.len(), s@.len() as int));
        }
    }
    s
}

/// The interpreter search-path pattern for module files of one
/// extension under the plugin's folder, with separators normalized.
pub fn include_path(servicepath: &str, ext: &str) -> (r: String)
    ensures
        r@ == slashed(servicepath@ + "/?."@ + ext@),
{
    let mut s = servicepath.to_owned();
    s.append("/?.");
    s.append(ext);
    replace_backslashes(s.as_str())
}

/// What a plugin's abort means for the caller: a message is a failure,
/// no message is success, and a script without an abort at all is a
/// no-op, not an error.
pub fn interpret_abort(outcome: Result<Option<String>, CallFailure>) -> (r: Result<(), String>)
    ensures
        match outcome {
            Ok(msg) => match msg {
                Some(m) => r matches Err(e) && e@ == m@,
                None => r is Ok,
            },
            Err(f) => match f {
                CallFailure::Undefined => r is Ok,
                CallFailure::Failed { message } => r matches Err(e) && e@ == "Error while calling "@
                    + "Abort"@ + ": "@ + message@,
            },
        },
{
    match outcome {
        Ok(Some(m)) => Err(m),
        Ok(None) => Ok(()),
        Err(CallFailure::Undefined) => Ok(()),
        Err(f) => Err(call_failure_message("Abort", &f)),
    }
}

/// The shape of an error reported while loading a script package: its
/// module search paths could not be set, or its entry script failed to
/// parse or run.
pub open spec fn load_error(message: Seq<char>) -> bool {
    ||| ("Unable to change package path: "@).is_prefix_of(message)
    ||| ("Error parsing "@).is_prefix_of(message)
}

/// One loaded backend: the sandboxed interpreter state with the script
/// package's globals registered, and the plugin's file name.
pub struct Plugin {
    backend: mlua::Lua,
    filename: String,
}

impl Plugin {
    /// The plugin's file name.
    pub closed spec fn filename_view(self) -> Seq<char> {
        self.filename@
    }

    pub fn filename(&self) -> (r: String)
        ensures
            r@ == self.filename_view(),
    {
        self.filename.clone()
    }

    /// Load a plugin from its folder under the plugins directory: the
    /// interpreter's module search paths are scoped to that folder (so
    /// a script package may ship helper modules), then the package's
    /// entry script is run to register the capability globals.
    pub fn new(appdata: &str, servicename: &str) -> (r: Result<Plugin, String>)
        ensures
            r matches Ok(p) ==> p.filename_view() == servicename@,
            r matches Err(e) ==> load_error(e@),
    {
        let backend = lua_new();
        let plugin_dir = crate::config_paths::plugin(appdata);
        let servicepath = path_join(plugin_dir.as_str(), servicename);
        let path = include_path(servicepath.as_str(), "lua");
        let cpath = include_path(servicepath.as_str(), "dll");

        let mut chunk = "package.path = '".to_owned();
        chunk.append(path.as_str());
        chunk.append(";' .. package.path; package.cpath = '");
        chunk.append(cpath.as_str());
        chunk.append(";' .. package.cpath");
        if let Err(e) = lua_exec(&backend, chunk.as_str()) {
            let mut msg = "Unable to change package path: ".to_owned();
            msg.append(e.as_str());
            proof {
                let p = "Unable to change package path: "@;
                assert(p.is_prefix_of(msg@)) by {
                    assert(p =~= msg@.subrange(0, p.len() as int));
                }
            }
            return Err(msg);
        }

        let entry = path_join(servicepath.as_str(), "main.lua");
        if let Err(e) = lua_dofile(&backend, entry.as_str()) {
            let mut msg = "Error parsing ".to_owned();
            msg.append(servicepath.as_str());
            msg.append(": ");
            msg.append(e.as_str());
            proof {
                let p = "Error parsing "@;
                assert(p.is_prefix_of(msg@)) by {
                    assert(p =~= msg@.subrange(0, p.len() as int));
                }
            }
            return Err(msg);
        }

        Ok(Plugin { backend, filename: servicename.to_owned() })
    }

    /// Load a plugin whose entry script is handed in as source text
    /// instead of living on disk.
    pub fn from_script(servicename: &str, source: &str) -> (r: Result<Plugin, String>)
        ensures
            r matches Ok(p) ==> p.filename_view() == servicename@,
            r matches Err(e) ==> load_error(e@),
    {
        let backend = lua_new();
        if let Err(e) = lua_exec(&backend, source) {
            let mut msg = "Error parsing ".to_owned();
            msg.append(servicename);
            msg.append(": ");
            msg.append(e.as_str());
            proof {
                let p = "Error parsing "@;
                assert(p.is_prefix_of(msg@)) by {
                    assert(p =~= msg@.subrange(0, p.len() as int));
                }
            }
            return Err(msg);
        }
        Ok(Plugin { backend, filename: servicename.to_owned() })
    }

    /// The plugin's static metadata. A missing or malformed field is
    /// reported by name, taken from the interpreter's diagnostic when
    /// it quotes one.
    pub fn info(&self) -> (r: Result<PluginInfo, String>)
        ensures
            r matches Ok(info) ==> info.filename@ == self.filename_view(),
            r matches Err(e) ==> capability_error("Info"@, e@) || contract_violation(e@),
    {
        let table = match lua_call_table(&self.backend, "Info") {
            Ok(t) => t,
            Err(f) => {
                return Err(call_failure_message("Info", &f));
            },
        };
        let name = match table_get_string(&table, "name") {
            Ok(v) => v,
            Err(e) => {
                let field = field_from_diagnostic(e.as_str(), "name");
                return Err(missing_field_message(field.as_str()));
            },
        };
        let description = match table_get_string(&table, "description") {
            Ok(v) => v,
            Err(e) => {
                let field = field_from_diagnostic(e.as_str(), "description");
                return Err(missing_field_message(field.as_str()));
            },
        };
        let author = match table_get_string(&table, "author") {
            Ok(v) => v,
            Err(e) => {
                let field = field_from_diagnostic(e.as_str(), "author");
                return Err(missing_field_message(field.as_str()));
            },
        };
        let icon_url = match table_get_opt_string(&table, "icon_url") {
            Ok(v) => v,
            Err(e) => {
                let field = field_from_diagnostic(e.as_str(), "icon_url");
                return Err(missing_field_message(field.as_str()));
            },
        };
        Ok(PluginInfo { filename: self.filename.clone(), name, description, author, icon_url })
    }

    /// Credential bootstrap: hands the stored credential blob (if any)
    /// and the redirect URI to the script, which answers with an
    /// authorization URL when out-of-band user consent is needed, or
    /// nothing when the credentials already work.
    pub fn validate(&self, creds: Option<String>, redirect_uri: &str) -> (r: Result<
        Option<String>,
        String,
    >)
        ensures
            r matches Err(e) ==> capability_error("Validate"@, e@),
    {
        match lua_call_opt_string(
            &self.backend,
            "Validate",
            (creds, redirect_uri.to_owned()),
        ) {
            Ok(v) => Ok(v),
            Err(f) => Err(call_failure_message("Validate", &f)),
        }
    }

    /// Extract a credential blob from the authorization redirect URL.
    /// The caller persists what comes back.
    pub fn process_save_credentials(&self, url: &str) -> (r: Result<String, String>)
        ensures
            r matches Err(e) ==> capability_error("Extract_credentials"@, e@),
    {
        match lua_call_string(&self.backend, "Extract_credentials", url) {
            Ok(v) => Ok(v),
            Err(f) => Err(call_failure_message("Extract_credentials", &f)),
        }
    }

    /// Best-effort abort of whatever the plugin is doing. A plugin
    /// without an abort is a no-op; a returned message is a failure.
    /// The result is exactly `interpret_abort` of the capability call,
    /// whose contract pins each case; nothing tighter is statable here,
    /// since a reported message is whatever string the script chose.
    pub fn abort(&self) -> Result<(), String> {
        let outcome = lua_call_opt_string_noargs(&self.backend, "Abort");
        interpret_abort(outcome)
    }

    /// Push one folder's packed archive to the cloud.
    pub fn upload(&self, tag: &str, folder_name: &str, date: u64, buffer: &Vec<u8>) -> (r: Result<
        (),
        String,
    >)
        ensures
            r matches Err(e) ==> capability_error("Upload"@, e@),
    {
        match lua_call_upload(&self.backend, "Upload", tag, folder_name, date, buffer) {
            Ok(()) => Ok(()),
            Err(f) => Err(call_failure_message("Upload", &f)),
        }
    }

    /// Fetch one folder's packed archive from the cloud.
    pub fn download(&self, tag: &str, folder_name: &str) -> (r: Result<Vec<u8>, String>)
        ensures
            r matches Err(e) ==> capability_error("Download"@, e@),
    {
        match lua_call_bytes(&self.backend, "Download", tag, folder_name) {
            Ok(v) => Ok(v),
            Err(f) => Err(call_failure_message("Download", &f)),
        }
    }

    /// Delete one folder's archive from the cloud.
    pub fn remove(&self, tag: &str, folder_name: &str) -> (r: Result<(), String>)
        ensures
            r matches Err(e) ==> capability_error("Remove"@, e@),
    {
        match lua_call_unit2(&self.backend, "Remove", tag, folder_name) {
            Ok(()) => Ok(()),
            Err(f) => Err(call_failure_message("Remove", &f)),
        }
    }

    /// Enumerate the remote folders, normalizing each entry the script
    /// handed back into a `FileDetails`. An entry of the wrong shape is
    /// reported by the offending field's name, taken from the
    /// interpreter's diagnostic when it quotes one.
    pub fn read_cloud(&self) -> (r: Result<Vec<FileDetails>, String>)
        ensures
            r matches Err(e) ==> capability_error("Read_cloud"@, e@) || contract_violation(e@),
    {
        let tables = match lua_call_tables(&self.backend, "Read_cloud") {
            Ok(v) => v,
            Err(f) => {
                return Err(call_failure_message("Read_cloud", &f));
            },
        };
        let mut out: Vec<FileDetails> = Vec::new();
        let n = tables.len();
        let mut i: usize = 0;
        while i < n
            invariant
                n == tables@.len(),
                i <= n,
            decreases n - i,
        {
            let t = &tables[i];
            let tag = match table_get_string(t, "tag") {
                Ok(v) => v,
                Err(e) => {
                    let field = field_from_diagnostic(e.as_str(), "tag");
                    return Err(missing_field_message(field.as_str()));
                },
            };
            let folder_name = match table_get_string(t, "folder_name") {
                Ok(v) => v,
                Err(e) => {
                    let field = field_from_diagnostic(e.as_str(), "folder_name");
                    return Err(missing_field_message(field.as_str()));
                },
            };
            let last_modified = match table_get_u64(t, "last_modified") {
                Ok(v) => v,
                Err(e) => {
                    let field = field_from_diagnostic(e.as_str(), "last_modified");
                    return Err(missing_field_message(field.as_str()));
                },
            };
            let data = match table_get_opt_bytes(t, "data") {
                Ok(v) => v,
                Err(e) => {
                    let field = field_from_diagnostic(e.as_str(), "data");
                    return Err(missing_field_message(field.as_str()));
                },
            };
            out.push(FileDetails { tag, folder_name, last_modified, data });
            i = i + 1;
        }
        Ok(out)
    }
}

} // verus!
