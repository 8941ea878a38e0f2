//! Auto-executed script files: which file names count as scripts, and the
//! extension rule applied when one is saved. The directory walking and the
//! mirroring into the executor's folder are the surrounding application's
//! job.

use vstd::prelude::*;

use crate::text::{ends_with_str, spec_ends_with};
use vstd::string::StringExecFns;

verus! {

/// One script file of the auto-execute folder.
#[derive(Debug, Clone, PartialEq, Eq)]
pub struct AutoExecuteFile {
    /// File name.
    pub name: String,
    /// The script text.
    pub content: String,
    /// Where the file lives.
    pub path: String,
}

/// Whether `name` carries one of the accepted script extensions.
pub open spec fn spec_has_script_extension(name: Seq<char>) -> bool {
    ||| spec_ends_with(name, ".lua"@)
    ||| spec_ends_with(name, ".luau"@)
    ||| spec_ends_with(name, ".txt"@)
}

/// Whether `name` names a script file: it is not hidden (no leading dot) and
/// carries an accepted extension.
pub open spec fn spec_valid_script_name(name: Seq<char>) -> bool {
    &&& !(name.len() > 0 && name[0] == '.')
    &&& spec_has_script_extension(name)
}

/// Decide whether the file called `name` is a script the auto-execute folder
/// should pick up.
pub fn is_valid_script_file(name: &str) -> (r: bool)
    ensures
        r == spec_valid_script_name(name@),
{
    if name.unicode_len() > 0 && name.get_char(0) == '.' {
        return false;
    }
    ends_with_str(name, ".lua") || ends_with_str(name, ".luau") || ends_with_str(name, ".txt")
}

/// Give `name` an accepted extension: kept as it is when it already carries
/// one, with `.lua` appended otherwise.
pub fn ensure_valid_extension(name: &str) -> (r: String)
    ensures
        spec_has_script_extension(name@) ==> r@ == name@,
        !spec_has_script_extension(name@) ==> r@ == name@ + ".lua"@,
{
    if ends_with_str(name, ".lua") || ends_with_str(name, ".luau") || ends_with_str(name, ".txt") {
        name.to_owned()
    } else {
        let mut s = name.to_owned();
        s.append(".lua");
        s
    }
}

/// The path of the marker file whose presence disables auto-execution, under
/// the configuration directory `base`.
pub fn get_state_file(base: &str) -> (r: String)
    ensures
        r@ == base@ + "/com.comet.dev/auto_execute_disabled"@,
{
    let mut s = base.to_owned();
    s.append("/com.comet.dev/auto_execute_disabled");
    s
}

/// The directory the auto-execute scripts live in, under the configuration
/// directory `base`.
pub fn get_scripts_dir(base: &str) -> (r: String)
    ensures
        r@ == base@ + "/com.comet.dev/scripts"@,
{
    let mut s = base.to_owned();
    s.append("/com.comet.dev/scripts");
    s
}

/// Whether auto-execution is on, given whether the marker file exists:
/// the feature is enabled exactly while the marker is absent.
pub fn get_auto_execute_state(marker_exists: bool) -> (r: bool)
    ensures
        r == !marker_exists,
{
    !marker_exists
}

} // verus!
