//! Where the application keeps its files.

use std::path::PathBuf;
use vstd::prelude::*;

verus! {

/// `std::path::PathBuf`, carried through as it comes.
#[verifier::external_type_specification]
#[verifier::external_body]
pub struct ExPathBuf(PathBuf);

/// The path that `Path::join` makes of `base` and `child`.
pub uninterp spec fn joined(base: PathBuf, child: Seq<char>) -> PathBuf;

/// Why the data directory is not known.
#[derive(Clone, Copy, Debug, PartialEq, Eq, Structural)]
pub enum DataDirError {
    /// The system names no directory for the user's local data.
    Undetermined,
}

/// `dirs::data_local_dir`: the directory for the user's local data, taken
/// from the environment; `None` where the system names none. Nothing is
/// claimed of which directory it is.
#[verifier::external_body]
fn data_local_dir() -> Option<PathBuf> {
    dirs::data_local_dir()
}

/// `Path::join`: the path `child` below `base`. The result depends on the
/// two arguments alone.
#[verifier::external_body]
fn join(base: &PathBuf, child: &str) -> (path: PathBuf)
    ensures
        path == joined(*base, child@),
{
    base.join(child)
}

/// The application's directory below the directory for local data:
/// its child `commity`. Without a directory for local data there is none.
pub fn data_dir_under(base: Option<PathBuf>) -> (r: Result<PathBuf, DataDirError>)
    ensures
        r == match base {
            Some(dir) => Ok::<PathBuf, DataDirError>(joined(dir, "commity"@)),
            None => Err::<PathBuf, DataDirError>(DataDirError::Undetermined),
        },
{
    match base {
        Some(dir) => Ok(join(&dir, "commity")),
        None => Err(DataDirError::Undetermined),
    }
}

/// The application's data directory, as the environment of the process
/// places it: `data_dir_under` of the system's directory for local data.
pub fn get_data_dir() -> (r: Result<PathBuf, DataDirError>)
    ensures
        r matches Ok(path) ==> exists|base: PathBuf| path == joined(base, "commity"@),
{
    data_dir_under(data_local_dir())
}

} // verus!
