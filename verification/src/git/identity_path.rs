//! An ssh identity file given by the user.
use vstd::prelude::*;
use crate::disk::{is_existing_file, path_exists};
use crate::text::{replace_all, replace_all_exec};
use super::utils::{home, no_home_message};

verus! {

/// Why a path cannot be used as an identity file.
#[derive(Debug, Clone, PartialEq, Eq, Structural)]
pub enum IdentityPathErr {
    /// identity file do not exist
    FileNoExist,
    /// path is not a file
    NotFile,
}

impl IdentityPathErr {
    /// The text of the error.
    pub fn message(&self) -> (r: String)
        ensures
            r@ == (match self {
                IdentityPathErr::FileNoExist => "identity file do not exist"@,
                IdentityPathErr::NotFile => "path is not a file"@,
            }),
    {
        let mut s = String::new();
        match self {
            IdentityPathErr::FileNoExist => s.append("identity file do not exist"),
            IdentityPathErr::NotFile => s.append("path is not a file"),
        }
        s
    }
}

/// A path to an existing identity file.
pub struct IdentityPath(pub String);

/// What the disk's two answers make of `path`: an identity file when
/// something exists there and it is a file; otherwise the matching error.
pub open spec fn identity_outcome_spec(path: String, exists: bool, is_file: bool) -> Result<IdentityPath, IdentityPathErr> {
    if !exists {
        Err(IdentityPathErr::FileNoExist)
    } else if !is_file {
        Err(IdentityPathErr::NotFile)
    } else {
        Ok(IdentityPath(path))
    }
}

/// Decides on `path` from whether something exists there (`exists`) and
/// whether it is a regular file (`is_file`).
pub fn identity_outcome(path: String, exists: bool, is_file: bool) -> (r: Result<IdentityPath, IdentityPathErr>)
    ensures
        r == identity_outcome_spec(path, exists, is_file),
        exists && is_file ==> (r matches Ok(p) && p.0 == path),
        exists && !is_file ==> (r matches Err(IdentityPathErr::NotFile)),
        !exists ==> (r matches Err(IdentityPathErr::FileNoExist)),
{
    if !exists {
        Err(IdentityPathErr::FileNoExist)
    } else if !is_file {
        Err(IdentityPathErr::NotFile)
    } else {
        Ok(IdentityPath(path))
    }
}

impl IdentityPath {
    /// Accepts `path` when a file exists there. The disk answers whether
    /// something exists at `path` and whether it is a file;
    /// [`identity_outcome`] decides from those answers.
    pub fn try_from_path(path: String) -> (r: Result<IdentityPath, IdentityPathErr>)
        ensures
            r matches Ok(p) ==> p.0 == path,
            exists|exists: bool, is_file: bool| r == identity_outcome_spec(path, exists, is_file),
    {
        let exists = path_exists(path.as_str());
        let is_file = if exists {
            is_existing_file(path.as_str())
        } else {
            false
        };
        identity_outcome(path, exists, is_file)
    }

    /// The path.
    pub fn as_str(&self) -> (r: &str)
        ensures
            r@ == self.0@,
    {
        self.0.as_str()
    }
}

/// `a` with every occurrence of the home directory `home` written as
/// `$HOME`.
pub fn pretty_path_with_home(a: &str, home: &str) -> (r: String)
    ensures
        r@ == replace_all(a@, home@, "$HOME"@),
{
    replace_all_exec(a, home, "$HOME")
}

/// `a` with the home directory written as `$HOME`. This is the Unix
/// form; on Windows the generator writes `%userprofile%`, which this
/// library, having no view of the platform, does not do.
pub fn pretty_path(a: &str) -> (r: Result<String, String>)
    ensures
        r matches Ok(s) ==> exists|h: Seq<char>| s@ == replace_all(a@, h, "$HOME"@),
        r matches Err(e) ==> e@ == no_home_message(),
{
    let h = home()?;
    let r = pretty_path_with_home(a, h.as_str());
    assert(r@ == replace_all(a@, h@, "$HOME"@));
    Ok(r)
}

} // verus!
