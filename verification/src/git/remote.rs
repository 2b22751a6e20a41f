//! A validated git remote.
use vstd::prelude::*;
use crate::disk::{is_absolute_text, path_exists};
use crate::text::{debug_str, owned};
use super::{determine_repo_kind, invalid_remote_message, missing_remote_message, repo_kind_of, RepoKind};
use super::gitconfig::{instead_url_of, resolve_instead_url, InsteadOfRule};
use super::utils::{canonicalize_path, canonicalize_refusal};

verus! {

/// A remote URL and the `insteadOf` rules of the git configuration that
/// applies to it.
pub struct GitUrlAndConfig(pub String, pub Vec<InsteadOfRule>);

/// A git remote whose kind is known: a URL, or the resolved path of a
/// local repository.
#[derive(Debug, Clone, PartialEq, Eq)]
pub struct GitRemote {
    pub url: String,
    pub kind: RepoKind,
}

impl GitRemote {
    /// Checks `url` as a remote: a URL with a known scheme is kept, an
    /// existing local path is resolved, anything else is an error.
    pub fn try_from_url(url: &str) -> (r: Result<GitRemote, String>)
        ensures
            r matches Ok(g) ==> (g.kind == repo_kind_of(url@, true) || g.kind == repo_kind_of(
                url@,
                false,
            )) && g.kind != RepoKind::Invalid && (g.kind != RepoKind::LocalFolder ==> g.url@
                == url@) && (g.kind == RepoKind::LocalFolder ==> g.url@.len() > 0
                && is_absolute_text(g.url@)),
            r matches Err(e) ==> e@ == invalid_remote_message(url@) || e@
                == missing_remote_message(url@) || canonicalize_refusal(url@, e@),
            repo_kind_of(url@, true) != RepoKind::LocalFolder ==> r is Ok,
    {
        let kind = determine_repo_kind(url);
        match kind {
            RepoKind::Invalid => {
                let mut s = String::new();
                s.append("Invalid git remote '");
                s.append(url);
                s.append("'");
                assert(s@ =~= invalid_remote_message(url@));
                Err(s)
            },
            RepoKind::LocalFolder => {
                let full = canonicalize_path(url)?;
                if !path_exists(full.as_str()) {
                    let mut s = String::new();
                    s.append("The given git remote ");
                    let quoted = debug_str(url);
                    s.append(quoted.as_str());
                    s.append(" does not exist.");
                    assert(s@ =~= missing_remote_message(url@));
                    return Err(s);
                }
                Ok(GitRemote { url: full, kind })
            },
            _ => Ok(GitRemote { url: owned(url), kind }),
        }
    }

    /// Checks the remote after rewriting it by the `insteadOf` rules.
    pub fn try_from_url_and_config(value: &GitUrlAndConfig) -> (r: Result<GitRemote, String>)
        ensures
            ({
                let u = match instead_url_of(value.0@, value.1@) {
                    Some(x) => x,
                    None => value.0@,
                };
                &&& r matches Ok(g) ==> (g.kind == repo_kind_of(u, true) || g.kind
                    == repo_kind_of(u, false)) && g.kind != RepoKind::Invalid && (g.kind
                    != RepoKind::LocalFolder ==> g.url@ == u) && (g.kind == RepoKind::LocalFolder
                    ==> g.url@.len() > 0 && is_absolute_text(g.url@))
                &&& r matches Err(e) ==> e@ == invalid_remote_message(u) || e@
                    == missing_remote_message(u) || canonicalize_refusal(u, e@)
                &&& repo_kind_of(u, true) != RepoKind::LocalFolder ==> r is Ok
            }),
    {
        match resolve_instead_url(value.0.as_str(), &value.1) {
            Some(u) => Self::try_from_url(u.as_str()),
            None => Self::try_from_url(value.0.as_str()),
        }
    }

    /// The URL.
    pub fn as_str(&self) -> (r: &str)
        ensures
            r@ == self.url@,
    {
        self.url.as_str()
    }
}

} // verus!
