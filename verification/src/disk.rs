//! Questions about the file system. What they answer depends on the disk
//! at the moment of the call, so their contracts promise nothing about
//! the answer beyond what the standard library documents.
use vstd::prelude::*;

verus! {

/// `Path::is_dir`: whether `path` names an existing directory. Nothing is
/// stated of the answer: it depends on the disk.
#[verifier::external_body]
pub fn is_existing_dir(path: &str) -> bool {
    std::path::Path::new(path).is_dir()
}

/// `Path::exists`: whether something exists at `path`. Nothing is stated
/// of the answer: it depends on the disk.
#[verifier::external_body]
pub fn path_exists(path: &str) -> bool {
    std::path::Path::new(path).exists()
}

/// `Path::is_file`: whether `path` names an existing regular file.
/// Nothing is stated of the answer: it depends on the disk.
#[verifier::external_body]
pub fn is_existing_file(path: &str) -> bool {
    std::path::Path::new(path).is_file()
}

/// Text that names an absolute path: on Unix it starts at the root `/`;
/// on Windows it starts with `\\` (a verbatim or network path, which is
/// what canonical paths are there) or with a drive letter, `:` and a
/// separator.
pub open spec fn is_absolute_text(s: Seq<char>) -> bool {
    ||| (s.len() > 0 && s[0] == '/')
    ||| (s.len() >= 2 && s[0] == '\\' && s[1] == '\\')
    ||| (s.len() >= 3 && s[1] == ':' && (s[2] == '\\' || s[2] == '/'))
}

/// `Path::canonicalize`: the absolute form of `path` with symbolic links
/// resolved, or `None` when it does not exist (or is not valid UTF-8).
/// The contract claims only that a result is a non-empty absolute path,
/// as the standard library documents; which path it is depends on the
/// disk.
#[verifier::external_body]
pub fn canonicalize_existing(path: &str) -> (r: Option<String>)
    ensures
        r matches Some(s) ==> s@.len() > 0 && is_absolute_text(s@),
{
    std::path::Path::new(path).canonicalize().ok().and_then(|p| p.to_str().map(|s| s.to_string()))
}

} // verus!
