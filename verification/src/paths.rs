//! Where the application keeps its on-disk state: the trace index lives
//! under the platform's per-user data directory.

use vstd::prelude::*;
use vstd::string::StringExecFns;

verus! {

/// The application's well-known directories.
pub struct ProjectDirs;

/// Relies on directories::ProjectDirs::from with empty qualifier and
/// organization: yields the platform's data directory for the
/// application. The outcome depends on the environment, so nothing is
/// promised of it.
#[verifier::external_body]
fn data_dir_of(app: &str) -> (r: Option<String>) {
    let dirs = directories::ProjectDirs::from("", "", app)?;
    Some(dirs.data_dir().to_string_lossy().into_owned())
}

/// The trace-index directory under a given data directory.
pub fn trace_index_path_in(data_dir: &str) -> (r: String)
    ensures
        r@ == data_dir@ + "/trace_index"@,
{
    String::from_str(data_dir).concat("/trace_index")
}

impl ProjectDirs {
    /// The on-disk location of the trace index: the platform data
    /// directory with the index directory appended; nothing when the
    /// platform yields no directory for the application.
    pub fn get_trace_index_path() -> (r: Option<String>)
        ensures
            r matches Some(p) ==> exists|d: Seq<char>| p@ == d + "/trace_index"@,
    {
        match data_dir_of("umem") {
            Some(d) => Some(trace_index_path_in(d.as_str())),
            None => None,
        }
    }
}

} // verus!
