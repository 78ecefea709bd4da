//! The application state directory on the local file system.
//!
//! The path comes from the composition root: the core does not know how the
//! platform picks the data directory of an application. The checks that do not
//! touch the file system are made here.

use vstd::prelude::*;

use crate::error::EgressError;

verus! {

/// The state directory of the application on the local file system.
#[derive(Debug)]
pub struct FsStateDirectory {
    path: String,
}

impl View for FsStateDirectory {
    type V = Seq<char>;

    closed spec fn view(&self) -> Seq<char> {
        self.path@
    }
}

impl Clone for FsStateDirectory {
    fn clone(&self) -> (copy: Self)
        ensures
            copy@ == self@,
    {
        FsStateDirectory { path: self.path.clone() }
    }
}

impl FsStateDirectory {
    /// Creates the directory for the given path.
    pub fn new(path: &str) -> (directory: Self)
        ensures
            directory@ == path@,
    {
        FsStateDirectory { path: path.to_owned() }
    }

    /// The path the directory works with.
    pub fn path(&self) -> (path: &str)
        ensures
            path@ == self@,
    {
        self.path.as_str()
    }

    /// Checks that a path is set before the file system is touched.
    ///
    /// # Errors
    ///
    /// Returns a validation error of the field `state_dir` for an empty path.
    pub fn check_path(&self) -> (result: Result<(), EgressError>)
        ensures
            self@.len() == 0 ==> result == Err::<(), EgressError>(
                EgressError::Validation { field: "state_dir", reason: "must not be empty" },
            ),
            self@.len() > 0 ==> result is Ok,
    {
        if self.path.as_str().unicode_len() == 0 {
            return Err(EgressError::validation("state_dir", "must not be empty"));
        }
        Ok(())
    }
}

/// The text of the failure of a path that exists and is no directory.
pub open spec fn not_a_directory_text() -> Seq<char> {
    "state directory path exists and is not a directory"@
}

/// A path that exists but is no directory cannot hold the state.
pub fn check_is_directory(is_directory: bool) -> (result: Result<(), EgressError>)
    ensures
        is_directory ==> result is Ok,
        !is_directory ==> (result matches Err(EgressError::StateDirUnavailable { source })
            && source@ == not_a_directory_text()),
{
    if !is_directory {
        return Err(EgressError::StateDirUnavailable {
            source: "state directory path exists and is not a directory".to_owned(),
        });
    }
    Ok(())
}

} // verus!
