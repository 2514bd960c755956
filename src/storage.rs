//! A storage location on disk, named by its directory.
use std::path::PathBuf;
use vstd::prelude::*;

verus! {

/// std's `PathBuf`, carried through as an opaque value.
#[verifier::external_type_specification]
#[verifier::external_body]
pub struct ExPathBuf(PathBuf);

/// Relies on std's `PathBuf::from`, which takes the text as the path as it
/// stands; nothing of the path is stated here.
#[verifier::external_body]
fn path_from(text: &str) -> PathBuf {
    PathBuf::from(text)
}

/// Stores files under one directory.
#[derive(Debug)]
pub struct DiskStorage {
    pub storage_directory: String,
}

impl DiskStorage {
    /// Storage under the directory `directory_name`.
    pub fn new(directory_name: &str) -> (r: Self)
        ensures
            r.storage_directory@ == directory_name@,
    {
        DiskStorage { storage_directory: String::from_str(directory_name) }
    }

    /// The directory, as a path.
    pub fn get_directory_path(&self) -> PathBuf {
        path_from(self.storage_directory.as_str())
    }
}

} // verus!
