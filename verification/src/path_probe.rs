//! Trusted probes of the filesystem around the starting directory.
//!
//! What exists on disk cannot be pinned down by a contract, so these
//! wrappers promise only what holds of every outcome; the walk over the
//! ancestor chain itself is verified logic (see the locator).

use vstd::prelude::*;

verus! {

/// Relies on std::path::Path::canonicalize applied to `"."`: the current
/// directory, `None` when it cannot be resolved or is not valid UTF-8.
#[verifier::external_body]
pub(crate) fn current_dir_string() -> Option<String> {
    match std::path::Path::new(".").canonicalize() {
        Ok(path) => match path.to_str() {
            Some(s) => Some(s.to_string()),
            None => None,
        },
        Err(_) => None,
    }
}

/// Relies on std::path::Path::exists: whether `path` names an existing
/// filesystem entry, following symbolic links.
#[verifier::external_body]
pub(crate) fn path_exists(path: &str) -> bool {
    std::path::Path::new(path).exists()
}

/// Relies on std::path::Path::join and std::path::Path::exists: whether the
/// `child` entry exists under the directory `path`.
#[verifier::external_body]
pub(crate) fn has_child(path: &str, child: &str) -> bool {
    std::path::Path::new(path).join(child).exists()
}

/// Relies on std::path::Path::ancestors: the path itself first, then each
/// parent in turn up to the filesystem root.
#[verifier::external_body]
pub(crate) fn ancestors_of(path: &str) -> (r: Vec<String>)
    ensures
        r@.len() >= 1,
        r@[0]@ == path@,
{
    std::path::Path::new(path)
        .ancestors()
        .map(|ancestor| ancestor.to_string_lossy().into_owned())
        .collect()
}

} // verus!
