//! Where the configuration file is.

use vstd::prelude::*;
use vstd::string::*;
use crate::config::opt_text;

verus! {

/// The name of the daemon's and the client's configuration file.
pub const CONFIG_FILE: &'static str = "nvprime.conf";

/// The name of the stand-alone launcher's configuration file.
pub const STANDALONE_CONFIG_FILE: &'static str = "prime-rs.conf";

/// The path of the entry `name` of the directory `dir`, in the host's way
/// of writing paths.
pub uninterp spec fn joined_path(dir: Seq<char>, name: Seq<char>) -> Seq<char>;

/// `Path::join` of the standard library, on a directory and a name given as
/// strings. The result is the joined path, and depends on nothing else.
#[verifier::external_body]
fn join_path(dir: &str, name: &str) -> (path: String)
    ensures
        path@ == joined_path(dir@, name@),
{
    std::path::Path::new(dir).join(name).to_string_lossy().into_owned()
}

/// `dirs::config_dir`: the directory that holds the user's configuration
/// files, if the host names one and its name is valid text. The answer
/// depends on the user and on the environment, so nothing is claimed of it.
#[verifier::external_body]
fn config_dir() -> (dir: Option<String>) {
    dirs::config_dir().and_then(|dir| dir.into_os_string().into_string().ok())
}

/// The path of the file `name` in the configuration directory `dir`; none
/// without a directory.
pub fn config_path_in(dir: Option<String>, name: &str) -> (path: Option<String>)
    ensures
        opt_text(path) == (match dir {
            Some(d) => Some(joined_path(d@, name@)),
            None => None,
        }),
{
    match dir {
        Some(d) => Some(join_path(d.as_str(), name)),
        None => None,
    }
}

/// The path of the file `name` in the user's configuration directory, if
/// the host names such a directory.
pub fn config_path(name: &str) -> (path: Option<String>)
    ensures
        path matches Some(p) ==> exists|dir: Seq<char>| p@ == joined_path(dir, name@),
{
    config_path_in(config_dir(), name)
}

} // verus!
