//! Installation and data file locations.

use std::path::Path;
use vstd::prelude::*;
use vstd::string::*;

verus! {

pub const APP_DIR_NAME: &'static str = "OTPUAC";
pub const SERVICE_NAME: &'static str = "OTPUAC";
pub const SETUP_METADATA_FILE: &'static str = "setup.json";
pub const SERVICE_STATE_FILE: &'static str = "service-state.json";
pub const VAULT_FILE: &'static str = "vault.json";
pub const PROVIDER_DLL: &'static str = "otpuac_provider_rs.dll";
pub const SERVICE_EXE: &'static str = "otpuac-service.exe";
pub const ADMIN_EXE: &'static str = "otpuac-admin.exe";
pub const DEFAULT_PROGRAM_FILES: &'static str = "C:\\Program Files";
pub const DEFAULT_PROGRAM_DATA: &'static str = "C:\\ProgramData";

/// A path component: no separators and no drive colon.
pub open spec fn is_plain_component(name: Seq<char>) -> bool {
    forall|i: int| 0 <= i < name.len() ==> #[trigger] name[i] != '/' && name[i] != '\\' && name[i] != ':'
}

/// `base` is not empty and ends in neither a separator nor a drive colon,
/// so joining a component to it inserts a separator.
pub open spec fn needs_separator(base: Seq<char>) -> bool {
    base.len() > 0 && base.last() != '/' && base.last() != '\\' && base.last() != ':'
}

/// What `base.join(name)` can be for a plain component: `name` appended
/// directly, which happens only when `base` needs no separator (it is empty,
/// already ends in a separator or is a bare drive), or after the platform's
/// separator. An empty base, or one ending in `/` (a separator everywhere),
/// gets no separator.
pub open spec fn is_joined(base: Seq<char>, name: Seq<char>, joined: Seq<char>) -> bool {
    &&& {
        ||| joined == base + name
        ||| joined == base + "/"@ + name
        ||| joined == base + "\\"@ + name
    }
    &&& joined == base + name ==> !needs_separator(base)
    &&& (base.len() == 0 || base.last() == '/') ==> joined == base + name
}

/// `path` starts with the Windows verbatim prefix `\\?\`.
pub open spec fn is_verbatim(path: Seq<char>) -> bool {
    path.len() >= 4 && path[0] == '\\' && path[1] == '\\' && path[2] == '?' && path[3] == '\\'
}

/// `Path::new(base).join(name)`, as text. For a plain component `push` only
/// adds the platform separator (`/` or `\`) when `base` needs one: when it is
/// not empty, does not already end in a separator and is not a bare drive.
/// On Windows a base with a verbatim prefix (`\\?\`) is rebuilt from its
/// components, with `.` and `..` resolved, so nothing is said of that case.
#[verifier::external_body]
pub(crate) fn join_path(base: &str, name: &str) -> (r: String)
    requires
        is_plain_component(name@),
    ensures
        !is_verbatim(base@) ==> is_joined(base@, name@, r@),
{
    Path::new(base).join(name).to_string_lossy().into_owned()
}

proof fn lemma_plain(name: &str)
    requires
        name@ == SETUP_METADATA_FILE@ || name@ == SERVICE_STATE_FILE@ || name@ == VAULT_FILE@
            || name@ == APP_DIR_NAME@ || name@ == "target"@ || name@ == "otpuac-dev"@,
    ensures
        is_plain_component(name@),
{
    reveal_strlit("setup.json");
    reveal_strlit("service-state.json");
    reveal_strlit("vault.json");
    reveal_strlit("OTPUAC");
    reveal_strlit("target");
    reveal_strlit("otpuac-dev");
}

/// The installation directory under the Program Files directory (the
/// `ProgramFiles` environment value, or `C:\Program Files` without one).
pub fn default_install_dir(program_files: Option<&str>) -> (r: String)
    ensures
        program_files matches Some(p) ==> (!is_verbatim(p@) ==> is_joined(p@, APP_DIR_NAME@, r@)),
        program_files is None ==> is_joined(DEFAULT_PROGRAM_FILES@, APP_DIR_NAME@, r@),
{
    let base = match program_files {
        Some(p) => p,
        None => DEFAULT_PROGRAM_FILES,
    };
    proof {
        lemma_plain(APP_DIR_NAME);
        reveal_strlit("C:\\Program Files");
    }
    join_path(base, APP_DIR_NAME)
}

/// The data directory under the ProgramData directory (the `ProgramData`
/// environment value, or `C:\ProgramData` without one).
pub fn default_program_data_dir(program_data: Option<&str>) -> (r: String)
    ensures
        program_data matches Some(p) ==> (!is_verbatim(p@) ==> is_joined(p@, APP_DIR_NAME@, r@)),
        program_data is None ==> is_joined(DEFAULT_PROGRAM_DATA@, APP_DIR_NAME@, r@),
{
    let base = match program_data {
        Some(p) => p,
        None => DEFAULT_PROGRAM_DATA,
    };
    proof {
        lemma_plain(APP_DIR_NAME);
        reveal_strlit("C:\\ProgramData");
    }
    join_path(base, APP_DIR_NAME)
}

/// The development vault location, `target/otpuac-dev/vault.json`, used where
/// no Windows installation provides one.
pub fn default_vault_path() -> (r: String)
    ensures
        exists|dir: Seq<char>| is_joined("target"@, "otpuac-dev"@, dir) && is_joined(dir, VAULT_FILE@, r@),
{
    proof {
        lemma_plain("otpuac-dev");
        lemma_plain(VAULT_FILE);
        reveal_strlit("target");
    }
    let dir = join_path("target", "otpuac-dev");
    proof {
        assert(dir@[0] == 't');
    }
    join_path(dir.as_str(), VAULT_FILE)
}

/// The default vault location for the platform: on Windows the vault in the
/// default data directory (see `default_program_data_dir`, given the
/// `ProgramData` environment value), elsewhere `default_vault_path`.
pub fn platform_default_vault_path(windows: bool, program_data: Option<&str>) -> (r: String)
    ensures
        windows && program_data is None ==> exists|dir: Seq<char>|
            is_joined(DEFAULT_PROGRAM_DATA@, APP_DIR_NAME@, dir) && is_joined(dir, VAULT_FILE@, r@),
        windows && program_data is Some && !is_verbatim(program_data->0@) ==> exists|dir: Seq<char>|
            is_joined(program_data->0@, APP_DIR_NAME@, dir) && (!is_verbatim(dir) ==> is_joined(
                dir,
                VAULT_FILE@,
                r@,
            )),
        !windows ==> exists|dir: Seq<char>|
            is_joined("target"@, "otpuac-dev"@, dir) && is_joined(dir, VAULT_FILE@, r@),
{
    if windows {
        let dir = default_program_data_dir(program_data);
        proof {
            reveal_strlit("C:\\ProgramData");
            let base = match program_data {
                Some(p) => p@,
                None => DEFAULT_PROGRAM_DATA@,
            };
            if program_data is None {
                assert(dir@[0] == base[0]);
                assert(dir@[1] == base[1]);
            }
        }
        vault_path(dir.as_str())
    } else {
        default_vault_path()
    }
}

/// The setup metadata file in `program_data_dir`.
pub fn setup_metadata_path(program_data_dir: &str) -> (r: String)
    ensures
        !is_verbatim(program_data_dir@) ==> is_joined(program_data_dir@, SETUP_METADATA_FILE@, r@),
{
    proof {
        lemma_plain(SETUP_METADATA_FILE);
    }
    join_path(program_data_dir, SETUP_METADATA_FILE)
}

/// The service state file in `program_data_dir`.
pub fn service_state_path(program_data_dir: &str) -> (r: String)
    ensures
        !is_verbatim(program_data_dir@) ==> is_joined(program_data_dir@, SERVICE_STATE_FILE@, r@),
{
    proof {
        lemma_plain(SERVICE_STATE_FILE);
    }
    join_path(program_data_dir, SERVICE_STATE_FILE)
}

/// The vault file in `program_data_dir`.
pub fn vault_path(program_data_dir: &str) -> (r: String)
    ensures
        !is_verbatim(program_data_dir@) ==> is_joined(program_data_dir@, VAULT_FILE@, r@),
{
    proof {
        lemma_plain(VAULT_FILE);
    }
    join_path(program_data_dir, VAULT_FILE)
}

/// `dir + "/" + file` for two non-empty plain components, the second not
/// `.`: a path that every platform splits into the directory `dir` and the
/// file `file`.
pub open spec fn is_dir_and_file(path: Seq<char>, dir: Seq<char>, file: Seq<char>) -> bool {
    &&& path == dir + "/"@ + file
    &&& dir.len() > 0 && is_plain_component(dir)
    &&& file.len() > 0 && is_plain_component(file)
    &&& file != "."@
}

/// `Path::new(path).parent()`, as text. The parent is the path without its
/// final component: a slice of the path from its start, so a prefix, and a
/// shorter one; for `dir/file` made of two plain components (the file not
/// `.`) it is `dir` on every platform, and for a single plain component it is
/// the empty path. An empty path has no parent; which
/// other paths have none (a root, a bare prefix) depends on the platform's
/// path syntax and is left unsaid here.
#[verifier::external_body]
fn parent_of(path: &str) -> (r: Option<String>)
    ensures
        r matches Some(p) ==> p@.len() < path@.len() && path@.take(p@.len() as int) == p@,
        path@.len() == 0 ==> r is None,
        r matches Some(p) ==> forall|dir: Seq<char>, file: Seq<char>|
            #[trigger] is_dir_and_file(path@, dir, file) ==> p@ == dir,
        r is None ==> forall|dir: Seq<char>, file: Seq<char>|
            !#[trigger] is_dir_and_file(path@, dir, file),
        path@.len() > 0 && is_plain_component(path@) ==> r is Some && r->0@.len() == 0,
{
    match Path::new(path).parent() {
        Some(p) => Some(p.to_string_lossy().into_owned()),
        None => None,
    }
}

/// The service state file for a vault whose directory is `vault_dir`: in
/// that directory, or the bare file name when there is none.
pub fn state_path_in(vault_dir: Option<&str>) -> (r: String)
    ensures
        vault_dir matches Some(d) ==> (!is_verbatim(d@) ==> is_joined(d@, SERVICE_STATE_FILE@, r@)),
        vault_dir is None ==> r@ == SERVICE_STATE_FILE@,
{
    match vault_dir {
        Some(d) => service_state_path(d),
        None => crate::text::string_of(SERVICE_STATE_FILE),
    }
}

/// The service state file kept next to the vault at `vault_path`: in the
/// vault's parent directory, or the bare file name when the path has no
/// parent (as for an empty path). For `dir/vault.json` it is `dir` joined
/// with the state file's name, and for a bare file name it is the state
/// file's name.
pub fn state_path_for_vault(vault_path: &str) -> (r: String)
    ensures
        !is_verbatim(vault_path@) ==> (r@ == SERVICE_STATE_FILE@ || exists|dir: Seq<char>|
            dir.len() < vault_path@.len() && vault_path@.take(dir.len() as int) == dir && is_joined(
                dir,
                SERVICE_STATE_FILE@,
                r@,
            )),
        vault_path@.len() == 0 ==> r@ == SERVICE_STATE_FILE@,
        vault_path@.len() > 0 && is_plain_component(vault_path@) ==> r@ == SERVICE_STATE_FILE@,
        forall|dir: Seq<char>, file: Seq<char>|
            #[trigger] is_dir_and_file(vault_path@, dir, file) ==> is_joined(
                dir,
                SERVICE_STATE_FILE@,
                r@,
            ),
{
    match parent_of(vault_path) {
        Some(dir) => {
            proof {
                if vault_path@.len() >= 4 && dir@.len() >= 4 {
                    assert(dir@[0] == vault_path@[0]);
                    assert(dir@[1] == vault_path@[1]);
                    assert(dir@[2] == vault_path@[2]);
                    assert(dir@[3] == vault_path@[3]);
                }
                assert forall|d: Seq<char>, f: Seq<char>|
                    #[trigger] is_dir_and_file(vault_path@, d, f) implies !is_verbatim(d) by {
                    if d.len() >= 2 {
                        assert(d[0] != '\\');
                    }
                }
            }
            state_path_in(Some(dir.as_str()))
        },
        None => state_path_in(None),
    }
}

} // verus!
