use vstd::prelude::*;

verus! {

/// Relies on pathsearch::find_executable_in_path: the first executable file
/// with this name in the directories of PATH, as text. What it finds depends
/// on the environment and the disk, so nothing is stated of it.
#[verifier::external_body]
pub(crate) fn find_executable(name: &str) -> (r: Option<String>) {
    match pathsearch::find_executable_in_path(name) {
        Some(p) => Some(p.display().to_string()),
        None => None,
    }
}

} // verus!
