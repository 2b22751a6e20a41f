//! Everything that reasons about git remotes and clones.
use vstd::prelude::*;
use crate::text::{chars_of, debug_str, debug_text, has_prefix, owned, str_has_prefix};
use crate::disk::{is_absolute_text, path_exists};

pub mod feature;
pub mod gitconfig;
pub mod gix;
pub mod identity_path;
pub mod remote;
pub mod utils;

verus! {

/// The URL an abbreviated remote (`gl:`, `bb:` or `gh:` followed by
/// `owner/repo`) stands for; anything else is returned unchanged.
pub open spec fn full_remote_of(git: Seq<char>) -> Seq<char> {
    if git.len() >= 3 && git.subrange(0, 3) == "gl:"@ {
        "https://gitlab.com/"@ + git.subrange(3, git.len() as int) + ".git"@
    } else if git.len() >= 3 && git.subrange(0, 3) == "bb:"@ {
        "https://bitbucket.org/"@ + git.subrange(3, git.len() as int) + ".git"@
    } else if git.len() >= 3 && git.subrange(0, 3) == "gh:"@ {
        "https://github.com/"@ + git.subrange(3, git.len() as int) + ".git"@
    } else {
        git
    }
}

/// Expands an abbreviated remote into its full URL.
pub fn abbreviated_git_url_to_full_remote(git: &str) -> (r: String)
    ensures
        r@ == full_remote_of(git@),
{
    proof {
        reveal_strlit("gl:");
        reveal_strlit("bb:");
        reveal_strlit("gh:");
    }
    let n = git.unicode_len();
    if n >= 3 {
        let rest = git.substring_char(3, n);
        let mut s = String::new();
        if str_has_prefix(git, "gl:") {
            s.append("https://gitlab.com/");
            s.append(rest);
            s.append(".git");
        } else if str_has_prefix(git, "bb:") {
            s.append("https://bitbucket.org/");
            s.append(rest);
            s.append(".git");
        } else if str_has_prefix(git, "gh:") {
            s.append("https://github.com/");
            s.append(rest);
            s.append(".git");
        } else {
            return owned(git);
        }
        assert(s@ =~= full_remote_of(git@));
        s
    } else {
        owned(git)
    }
}

/// This build has git support, so git-requiring input is always
/// accepted; [`feature::ensure_available`] is the answer of a build
/// without it.
pub fn ensure_available(_what: &str) -> (r: Result<(), String>)
    ensures
        r is Ok,
{
    Ok(())
}

/// Information to find a specific commit in a git repository.
#[derive(Debug, Clone, PartialEq, Eq, PartialOrd, Ord, Hash)]
pub enum GitReference {
    /// From a branch.
    Branch(String),
    /// The default branch of the repository, the reference named `HEAD`.
    DefaultBranch,
}

/// What kind of repository a remote names.
#[derive(Debug, Clone, Copy, PartialEq, Eq, PartialOrd, Ord, Hash, Structural)]
pub enum RepoKind {
    LocalFolder,
    RemoteHttp,
    RemoteHttps,
    RemoteSsh,
    Invalid,
}

/// The kind of `remote_url`: by its prefix (`git@`, `http://`,
/// `https://`), else a local folder when something exists at that path
/// (`exists`), else invalid.
pub open spec fn repo_kind_of(remote_url: Seq<char>, exists: bool) -> RepoKind {
    if has_prefix(remote_url, "git@"@) {
        RepoKind::RemoteSsh
    } else if has_prefix(remote_url, "http://"@) {
        RepoKind::RemoteHttp
    } else if has_prefix(remote_url, "https://"@) {
        RepoKind::RemoteHttps
    } else if exists {
        RepoKind::LocalFolder
    } else {
        RepoKind::Invalid
    }
}

/// The kind of `remote_url`, given whether something exists at that path.
pub fn repo_kind_given(remote_url: &str, exists: bool) -> (r: RepoKind)
    ensures
        r == repo_kind_of(remote_url@, exists),
{
    if str_has_prefix(remote_url, "git@") {
        RepoKind::RemoteSsh
    } else if str_has_prefix(remote_url, "http://") {
        RepoKind::RemoteHttp
    } else if str_has_prefix(remote_url, "https://") {
        RepoKind::RemoteHttps
    } else if exists {
        RepoKind::LocalFolder
    } else {
        RepoKind::Invalid
    }
}

/// Determines what kind of repository `remote_url` names; the file system
/// is asked only when the prefix does not decide.
pub fn determine_repo_kind(remote_url: &str) -> (r: RepoKind)
    ensures
        r == repo_kind_of(remote_url@, true) || r == repo_kind_of(remote_url@, false),
{
    let exists = if str_has_prefix(remote_url, "git@") || str_has_prefix(remote_url, "http://")
        || str_has_prefix(remote_url, "https://") {
        false
    } else {
        path_exists(remote_url)
    };
    repo_kind_given(remote_url, exists)
}

/// The message for a remote of no known kind.
pub open spec fn invalid_remote_message(git: Seq<char>) -> Seq<char> {
    "Invalid git remote '"@ + git + "'"@
}

/// The message for a local remote that cannot be found.
pub open spec fn missing_remote_message(git: Seq<char>) -> Seq<char> {
    "The given git remote "@ + debug_text(git) + " does not exist."@
}

/// A git remote to clone, with its kind, branch and ssh identity.
pub struct GitConfig {
    pub remote: String,
    pub branch: GitReference,
    pub kind: RepoKind,
    pub identity: Option<String>,
}

/// The reference for an optional branch name.
pub open spec fn reference_of(branch: Option<String>) -> GitReference {
    match branch {
        Some(b) => GitReference::Branch(b),
        None => GitReference::DefaultBranch,
    }
}

/// The error for a remote of kind `kind`, if any: an invalid remote, or a
/// local folder whose resolved path (`resolved`) could not be found.
pub open spec fn remote_error(git: Seq<char>, kind: RepoKind, resolved: Option<String>) -> Option<Seq<char>> {
    if kind == RepoKind::Invalid {
        Some(invalid_remote_message(git))
    } else if kind == RepoKind::LocalFolder && resolved is None {
        Some(missing_remote_message(git))
    } else {
        None
    }
}

fn invalid_remote(git: &str) -> (r: String)
    ensures
        r@ == invalid_remote_message(git@),
{
    let mut s = String::new();
    s.append("Invalid git remote '");
    s.append(git);
    s.append("'");
    assert(s@ =~= invalid_remote_message(git@));
    s
}

fn missing_remote(git: &str) -> (r: String)
    ensures
        r@ == missing_remote_message(git@),
{
    let mut s = String::new();
    s.append("The given git remote ");
    let quoted = debug_str(git);
    s.append(quoted.as_str());
    s.append(" does not exist.");
    assert(s@ =~= missing_remote_message(git@));
    s
}

impl GitConfig {
    /// Creates a `GitConfig` for `git`, given its kind and, for a local
    /// folder, its resolved path. A remote URL is kept as given; a local
    /// folder is replaced by its resolved path.
    pub fn from_kind(git: &str, kind: RepoKind, resolved: Option<String>, branch: Option<String>, identity: Option<String>) -> (r: Result<GitConfig, String>)
        ensures
            match remote_error(git@, kind, resolved) {
                Some(e) => r is Err && r->Err_0@ == e,
                None => r is Ok && r->Ok_0.kind == kind && r->Ok_0.branch == reference_of(branch)
                    && r->Ok_0.identity == identity && r->Ok_0.remote@ == (if kind
                    == RepoKind::LocalFolder {
                    resolved->Some_0@
                } else {
                    git@
                }),
            },
    {
        let remote = match kind {
            RepoKind::Invalid => return Err(invalid_remote(git)),
            RepoKind::LocalFolder => match resolved {
                Some(p) => p,
                None => return Err(missing_remote(git)),
            },
            _ => owned(git),
        };
        let branch = match branch {
            Some(b) => GitReference::Branch(b),
            None => GitReference::DefaultBranch,
        };
        Ok(GitConfig { remote, kind, identity, branch })
    }

    /// Creates a `GitConfig` by reading `git` as a URL or a local path. A
    /// local path is resolved on disk (`~/` and `$HOME/` stand for the home
    /// directory).
    pub fn new(git: &str, branch: Option<String>, identity: Option<String>) -> (r: Result<GitConfig, String>)
        ensures
            r matches Ok(c) ==> c.branch == reference_of(branch) && c.identity == identity && (
            c.kind == repo_kind_of(git@, true) || c.kind == repo_kind_of(git@, false)) && (c.kind
                != RepoKind::LocalFolder ==> c.remote@ == git@) && c.kind != RepoKind::Invalid && (
            c.kind == RepoKind::LocalFolder ==> c.remote@.len() > 0 && is_absolute_text(c.remote@)),
            r matches Err(e) ==> e@ == invalid_remote_message(git@) || e@ == missing_remote_message(
                git@,
            ) || utils::canonicalize_refusal(git@, e@),
            repo_kind_of(git@, true) != RepoKind::LocalFolder ==> r is Ok,
    {
        let kind = determine_repo_kind(git);
        let resolved = if kind == RepoKind::LocalFolder {
            let p = utils::canonicalize_path(git)?;
            if path_exists(p.as_str()) {
                Some(p)
            } else {
                None
            }
        } else {
            None
        };
        Self::from_kind(git, kind, resolved, branch, identity)
    }

    /// Creates a `GitConfig` with [`GitConfig::new`] from the expanded
    /// abbreviation of `git`, and when that fails, from `gh:` followed by
    /// `git` (a GitHub `owner/repo`). The second attempt names an https
    /// URL, so this never fails: a URL is kept, and any other input is a
    /// local folder when one is found on disk, else the GitHub repository
    /// of that name.
    pub fn new_abbr(git: &str, branch: Option<String>, identity: Option<String>) -> (r: Result<GitConfig, String>)
        ensures
            r is Ok,
            r matches Ok(c) ==> c.branch == reference_of(branch) && c.identity == identity,
            is_url_remote(full_remote_of(git@)) ==> r->Ok_0.remote@ == full_remote_of(git@)
                && r->Ok_0.kind == repo_kind_of(full_remote_of(git@), true),
            !is_url_remote(full_remote_of(git@)) ==> r->Ok_0.kind == RepoKind::LocalFolder || (
            r->Ok_0.kind == RepoKind::RemoteHttps && r->Ok_0.remote@ == github_remote_of(git@)),
            r->Ok_0.kind == RepoKind::LocalFolder ==> r->Ok_0.remote@.len() > 0 && is_absolute_text(
                r->Ok_0.remote@,
            ),
    {
        let full_remote = abbreviated_git_url_to_full_remote(git);
        match Self::new(full_remote.as_str(), clone_opt(&branch), clone_opt(&identity)) {
            Ok(c) => Ok(c),
            Err(_) => {
                let mut gh = String::new();
                gh.append("gh:");
                gh.append(git);
                let full_remote = abbreviated_git_url_to_full_remote(gh.as_str());
                proof {
                    reveal_strlit("gh:");
                    reveal_strlit("gl:");
                    reveal_strlit("bb:");
                    reveal_strlit("https://github.com/");
                    reveal_strlit("https://");
                    reveal_strlit("git@");
                    reveal_strlit("http://");
                    assert(gh@ =~= "gh:"@ + git@);
                    assert(gh@.subrange(0, 3) =~= "gh:"@);
                    assert(gh@.subrange(0, 3) != "gl:"@) by {
                        assert(gh@.subrange(0, 3)[1] != "gl:"@[1]);
                    }
                    assert(gh@.subrange(0, 3) != "bb:"@) by {
                        assert(gh@.subrange(0, 3)[0] != "bb:"@[0]);
                    }
                    assert(gh@.subrange(3, gh@.len() as int) =~= git@);
                    assert(full_remote@ =~= github_remote_of(git@));
                    assert(full_remote@.subrange(0, 8) =~= "https://"@);
                    assert(!has_prefix(full_remote@, "git@"@)) by {
                        assert(full_remote@.subrange(0, 4)[0] == 'h');
                    }
                    assert(!has_prefix(full_remote@, "http://"@)) by {
                        assert(full_remote@.subrange(0, 7)[4] == 's');
                    }
                }
                Self::new(full_remote.as_str(), branch, identity)
            },
        }
    }
}

/// A remote that is not a URL is a local folder exactly when something
/// exists at that path, and invalid otherwise; a URL's kind does not
/// depend on the disk. A local folder that resolves gives a config whose
/// remote is the resolved path, with no error.
pub proof fn lemma_existing_path_is_local(u: Seq<char>, exists: bool, resolved: Option<String>)
    ensures
        !is_url_remote(u) ==> (repo_kind_of(u, exists) == RepoKind::LocalFolder <==> exists),
        !is_url_remote(u) && !exists ==> repo_kind_of(u, exists) == RepoKind::Invalid,
        is_url_remote(u) ==> repo_kind_of(u, true) == repo_kind_of(u, false)
            && repo_kind_of(u, exists) != RepoKind::LocalFolder && repo_kind_of(u, exists)
            != RepoKind::Invalid,
        resolved is Some ==> remote_error(u, RepoKind::LocalFolder, resolved) is None,
        remote_error(u, RepoKind::LocalFolder, None) == Some(missing_remote_message(u)),
{
}

/// A remote whose kind its prefix decides (`git@`, `http://`, `https://`),
/// without asking the disk.
pub open spec fn is_url_remote(u: Seq<char>) -> bool {
    has_prefix(u, "git@"@) || has_prefix(u, "http://"@) || has_prefix(u, "https://"@)
}

/// The GitHub repository `owner/repo` names.
pub open spec fn github_remote_of(owner_repo: Seq<char>) -> Seq<char> {
    "https://github.com/"@ + owner_repo + ".git"@
}

fn clone_opt(o: &Option<String>) -> (r: Option<String>)
    ensures
        r == *o,
{
    match o {
        Some(s) => Some(s.clone()),
        None => None,
    }
}

} // verus!
