//! Checking that an asset path exists inside a working copy.
use vstd::prelude::*;

use crate::error::ApsError;

verus! {

/// The path that joining `rel` onto `base` gives, with Unix separators: an
/// absolute `rel` replaces `base`; otherwise `rel` follows `base`, after a
/// `/` unless `base` is empty or already ends in one.
pub open spec fn joined_path(base: Seq<char>, rel: Seq<char>) -> Seq<char> {
    if rel.len() > 0 && rel[0] == '/' {
        rel
    } else if base.len() == 0 || base.last() == '/' {
        base + rel
    } else {
        base + "/"@ + rel
    }
}

/// Relies on `std::path::Path::join` on a Unix target (`PathBuf::push`):
/// an absolute `rel` replaces `base`; otherwise a `/` is added between
/// them unless `base` is empty or ends in one.
#[verifier::external_body]
fn path_join(base: &str, rel: &str) -> (r: String)
    ensures
        r@ == joined_path(base@, rel@),
{
    std::path::Path::new(base).join(rel).to_string_lossy().into_owned()
}

/// Relies on `std::path::Path::exists`: whether the file system holds a file
/// or directory at `path` right now.
#[verifier::external_body]
fn path_exists(path: &str) -> (r: bool) {
    std::path::Path::new(path).exists()
}

/// Decides the validation of `full_path`, given whether it exists: the path
/// itself when it does, else the error that carries it.
pub fn check_path(full_path: String, exists: bool) -> (r: Result<String, ApsError>)
    ensures
        exists ==> r == Ok::<String, ApsError>(full_path),
        !exists ==> (r matches Err(ApsError::SourcePathNotFound { path }) && path == full_path),
{
    if exists {
        Ok(full_path)
    } else {
        Err(ApsError::SourcePathNotFound { path: full_path })
    }
}

/// Checks that `asset_path` exists under `repo_path`: returns the joined path
/// if a file or directory is there, else `SourcePathNotFound` with that path.
/// Nothing keeps `asset_path` from leaving `repo_path` through `..`.
pub fn validate_path_exists(repo_path: &str, asset_path: &str) -> (r: Result<String, ApsError>)
    ensures
        r matches Ok(p) ==> p@ == joined_path(repo_path@, asset_path@),
        r matches Err(e) ==> (e matches ApsError::SourcePathNotFound { path } && path@ == joined_path(
            repo_path@,
            asset_path@,
        )),
{
    let full_path = path_join(repo_path, asset_path);
    let exists = path_exists(full_path.as_str());
    check_path(full_path, exists)
}

} // verus!
