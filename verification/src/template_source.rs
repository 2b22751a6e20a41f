//! Classified template source: where the template comes from, decided
//! once from what the user typed.
use vstd::prelude::*;
use crate::absolute_path::{is_abs, join_path, join_path_spec};
use crate::app_config::{favorite_of, AppConfig};
use crate::disk::is_existing_dir;
use crate::text::{
    chars_of, find_char_from, first_index_from, has_char, has_prefix, lemma_first_index_from,
    owned, push_char, str_has_prefix, string_of_range,
};

verus! {

/// Options threaded into git clones for remote sources. Local sources
/// ignore them.
#[derive(Debug, Default)]
pub struct CloneOptions {
    pub branch: Option<String>,
    pub tag: Option<String>,
    pub revision: Option<String>,
    pub ssh_identity: Option<String>,
    pub gitconfig: Option<String>,
    pub force_git_init: bool,
    pub skip_submodules: bool,
}

/// A git hosting service reachable by a short prefix.
#[derive(Debug, Clone, Copy, PartialEq, Eq, Structural)]
#[non_exhaustive]
pub enum GitHost {
    GitHub,
    GitLab,
    Bitbucket,
    SourceHut,
}

/// Where a template comes from.
#[derive(Debug, PartialEq, Eq)]
#[non_exhaustive]
pub enum TemplateSource {
    HostShorthand { host: GitHost, owner_repo: String },
    GithubOwnerRepo { owner: String, repo: String },
    RemoteUrl(String),
    LocalRelative(String),
    LocalAbsolute(String),
    Favorite(Box<TemplateSource>),
}

/// A template source with its text as character sequences.
pub enum SourceView {
    HostShorthand { host: GitHost, owner_repo: Seq<char> },
    GithubOwnerRepo { owner: Seq<char>, repo: Seq<char> },
    RemoteUrl(Seq<char>),
    LocalRelative(Seq<char>),
    LocalAbsolute(Seq<char>),
    Favorite(Box<SourceView>),
}

impl TemplateSource {
    pub open spec fn model(self) -> SourceView
        decreases self,
    {
        match self {
            TemplateSource::HostShorthand { host, owner_repo } => SourceView::HostShorthand {
                host,
                owner_repo: owner_repo@,
            },
            TemplateSource::GithubOwnerRepo { owner, repo } => SourceView::GithubOwnerRepo {
                owner: owner@,
                repo: repo@,
            },
            TemplateSource::RemoteUrl(u) => SourceView::RemoteUrl(u@),
            TemplateSource::LocalRelative(p) => SourceView::LocalRelative(p@),
            TemplateSource::LocalAbsolute(p) => SourceView::LocalAbsolute(p@),
            TemplateSource::Favorite(inner) => SourceView::Favorite(Box::new((*inner).model())),
        }
    }
}

/// The clone URL of `owner_repo` on `host`.
pub open spec fn host_url(host: GitHost, owner_repo: Seq<char>) -> Seq<char> {
    match host {
        GitHost::GitHub => "https://github.com/"@ + owner_repo + ".git"@,
        GitHost::GitLab => "https://gitlab.com/"@ + owner_repo + ".git"@,
        GitHost::Bitbucket => "https://bitbucket.org/"@ + owner_repo + ".git"@,
        GitHost::SourceHut => "https://git.sr.ht/~"@ + owner_repo,
    }
}

impl GitHost {
    /// The clone URL of `owner_repo` on this host.
    pub fn to_url(&self, owner_repo: &str) -> (r: String)
        ensures
            r@ == host_url(*self, owner_repo@),
    {
        let mut s = String::new();
        match self {
            GitHost::GitHub => {
                s.append("https://github.com/");
                s.append(owner_repo);
                s.append(".git");
            },
            GitHost::GitLab => {
                s.append("https://gitlab.com/");
                s.append(owner_repo);
                s.append(".git");
            },
            GitHost::Bitbucket => {
                s.append("https://bitbucket.org/");
                s.append(owner_repo);
                s.append(".git");
            },
            GitHost::SourceHut => {
                s.append("https://git.sr.ht/~");
                s.append(owner_repo);
            },
        }
        assert(s@ =~= host_url(*self, owner_repo@));
        s
    }
}

/// The host named by a `gh:`, `gl:`, `bb:` or `sr:` prefix of `s`.
pub open spec fn host_of_prefix(s: Seq<char>) -> Option<GitHost> {
    if s.len() < 3 || s[2] != ':' {
        None
    } else if s[0] == 'g' && s[1] == 'h' {
        Some(GitHost::GitHub)
    } else if s[0] == 'g' && s[1] == 'l' {
        Some(GitHost::GitLab)
    } else if s[0] == 'b' && s[1] == 'b' {
        Some(GitHost::Bitbucket)
    } else if s[0] == 's' && s[1] == 'r' {
        Some(GitHost::SourceHut)
    } else {
        None
    }
}

/// Splits a host prefix (`gh:`, `gl:`, `bb:`, `sr:`) off `s`.
pub fn strip_host_prefix(s: &str) -> (r: Option<(GitHost, &str)>)
    ensures
        match r {
            Some((h, rest)) => host_of_prefix(s@) == Some(h) && rest@ == s@.subrange(
                3,
                s@.len() as int,
            ),
            None => host_of_prefix(s@) is None,
        },
{
    let n = s.unicode_len();
    if n < 3 {
        return None;
    }
    let c0 = s.get_char(0);
    let c1 = s.get_char(1);
    let c2 = s.get_char(2);
    if c2 != ':' {
        return None;
    }
    let host = if c0 == 'g' && c1 == 'h' {
        GitHost::GitHub
    } else if c0 == 'g' && c1 == 'l' {
        GitHost::GitLab
    } else if c0 == 'b' && c1 == 'b' {
        GitHost::Bitbucket
    } else if c0 == 's' && c1 == 'r' {
        GitHost::SourceHut
    } else {
        return None;
    };
    Some((host, s.substring_char(3, n)))
}

/// The position of the first `/`, or the length when there is none.
pub open spec fn first_slash_or_end(s: Seq<char>) -> int {
    match first_index_from(s, '/', 0) {
        Some(i) => i,
        None => s.len() as int,
    }
}

/// `s` looks like a git URL: it has a known scheme, or it has the scp form
/// `user@host:path` where the `:` after the `@` comes before the first `/`.
pub open spec fn looks_like_url_spec(s: Seq<char>) -> bool {
    ||| has_prefix(s, "https://"@)
    ||| has_prefix(s, "http://"@)
    ||| has_prefix(s, "ssh://"@)
    ||| has_prefix(s, "git://"@)
    ||| has_prefix(s, "file://"@)
    ||| match first_index_from(s, '@', 0) {
        Some(at) => match first_index_from(s, ':', at) {
            Some(colon) => colon < first_slash_or_end(s),
            None => false,
        },
        None => false,
    }
}

/// Whether `s` looks like a git URL (see [`looks_like_url_spec`]).
pub fn looks_like_url(s: &str) -> (r: bool)
    ensures
        r == looks_like_url_spec(s@),
{
    if str_has_prefix(s, "https://") || str_has_prefix(s, "http://") || str_has_prefix(s, "ssh://")
        || str_has_prefix(s, "git://") || str_has_prefix(s, "file://") {
        return true;
    }
    let v = chars_of(s);
    match find_char_from(&v, '@', 0) {
        Some(at) => match find_char_from(&v, ':', at) {
            Some(colon) => {
                let slash = match find_char_from(&v, '/', 0) {
                    Some(i) => i,
                    None => v.len(),
                };
                colon < slash
            },
            None => false,
        },
        None => false,
    }
}

/// A character allowed in an owner or repository name.
pub open spec fn is_name_char(c: char) -> bool {
    ('a' <= c && c <= 'z') || ('A' <= c && c <= 'Z') || ('0' <= c && c <= '9') || c == '_' || c
        == '-' || c == '.'
}

pub open spec fn all_name_chars(s: Seq<char>) -> bool {
    forall|i: int| 0 <= i < s.len() ==> is_name_char(#[trigger] s[i])
}

/// `owner/repo`: exactly one `/` with a nonempty name on each side, made of
/// ASCII letters, digits, `_`, `-` and `.`, the owner not starting with `.`.
pub open spec fn owner_repo_of(s: Seq<char>) -> Option<(Seq<char>, Seq<char>)> {
    match first_index_from(s, '/', 0) {
        None => None,
        Some(k) => {
            let owner = s.subrange(0, k);
            let repo = s.subrange(k + 1, s.len() as int);
            if owner.len() == 0 || repo.len() == 0 || has_char(repo, '/') || owner[0] == '.'
                || !all_name_chars(owner) || !all_name_chars(repo) {
                None
            } else {
                Some((owner, repo))
            }
        },
    }
}

fn all_name_chars_exec(v: &Vec<char>, from: usize, to: usize) -> (r: bool)
    requires
        from <= to <= v.len(),
    ensures
        r == all_name_chars(v@.subrange(from as int, to as int)),
{
    let mut i = from;
    while i < to
        invariant
            from <= i <= to <= v.len(),
            forall|j: int| from <= j < i ==> is_name_char(v@[j]),
        decreases to - i,
    {
        let c = v[i];
        if !(('a' <= c && c <= 'z') || ('A' <= c && c <= 'Z') || ('0' <= c && c <= '9') || c == '_'
            || c == '-' || c == '.') {
            assert(v@.subrange(from as int, to as int)[i - from] == c);
            return false;
        }
        i = i + 1;
    }
    assert forall|j: int| 0 <= j < to - from implies is_name_char(
        #[trigger] v@.subrange(from as int, to as int)[j],
    ) by {
        assert(v@.subrange(from as int, to as int)[j] == v@[from + j]);
    }
    true
}

/// Reads `owner/repo` (see [`owner_repo_of`]).
pub fn parse_owner_repo(s: &str) -> (r: Option<(String, String)>)
    ensures
        match r {
            Some((o, p)) => owner_repo_of(s@) == Some((o@, p@)),
            None => owner_repo_of(s@) is None,
        },
{
    let v = chars_of(s);
    let k = match find_char_from(&v, '/', 0) {
        Some(k) => k,
        None => return None,
    };
    proof {
        lemma_first_index_from(v@, '/', 0);
    }
    let n = v.len();
    if k == 0 || k + 1 == n {
        return None;
    }
    let ghost repo = v@.subrange(k + 1, n as int);
    match find_char_from(&v, '/', k + 1) {
        Some(j) => {
            proof {
                lemma_first_index_from(v@, '/', k + 1);
                assert(repo[j - k - 1] == '/');
            }
            return None;
        },
        None => {
            proof {
                lemma_first_index_from(v@, '/', k + 1);
                assert forall|i: int| 0 <= i < repo.len() implies repo[i] != '/' by {
                    assert(repo[i] == v@[k + 1 + i]);
                }
            }
        },
    }
    if v[0] == '.' {
        return None;
    }
    if !all_name_chars_exec(&v, 0, k) || !all_name_chars_exec(&v, k + 1, n) {
        return None;
    }
    let owner = string_of_range(&v, 0, k);
    let repo_s = string_of_range(&v, k + 1, n);
    Some((owner, repo_s))
}

/// Steps 2 to 7 of classification, for input that names no favorite:
/// host prefix, full URL, absolute path, an existing relative directory
/// (`resolved_is_dir` says whether `cwd` joined with `input` is one),
/// `owner/repo` on GitHub, and finally the input as a URL.
pub open spec fn classify_plain_spec(input: Seq<char>, cwd: Seq<char>, resolved_is_dir: bool) -> SourceView {
    if host_of_prefix(input) is Some {
        SourceView::HostShorthand {
            host: host_of_prefix(input)->Some_0,
            owner_repo: input.subrange(3, input.len() as int),
        }
    } else if looks_like_url_spec(input) {
        SourceView::RemoteUrl(input)
    } else if is_abs(input) {
        SourceView::LocalAbsolute(input)
    } else if resolved_is_dir {
        SourceView::LocalRelative(join_path_spec(cwd, input))
    } else if owner_repo_of(input) is Some {
        SourceView::GithubOwnerRepo {
            owner: owner_repo_of(input)->Some_0.0,
            repo: owner_repo_of(input)->Some_0.1,
        }
    } else {
        SourceView::RemoteUrl(input)
    }
}

/// How deep favorites may refer to favorites.
pub open spec fn favorite_recursion_limit() -> nat {
    8
}

/// Classification of `input` at favorite depth `depth`. A favorite is
/// followed while the depth is within the limit: its `git` text is
/// classified in turn, its `path` is taken as a local directory, and a
/// favorite with neither falls through to the plain rules.
/// `resolved_is_dir` answers the one directory question the plain rules
/// may ask.
pub open spec fn classify_spec(input: Seq<char>, cfg: AppConfig, cwd: Seq<char>, depth: nat, resolved_is_dir: bool) -> SourceView
    decreases 9 - depth,
{
    let fav = favorite_of(cfg, input);
    if depth <= favorite_recursion_limit() && fav is Some && (fav->Some_0.git is Some
        || fav->Some_0.path is Some) {
        let f = fav->Some_0;
        if f.git is Some {
            SourceView::Favorite(
                Box::new(classify_spec(f.git->Some_0@, cfg, cwd, depth + 1, resolved_is_dir)),
            )
        } else {
            let p = f.path->Some_0@;
            SourceView::Favorite(
                Box::new(
                    if is_abs(p) {
                        SourceView::LocalAbsolute(p)
                    } else {
                        SourceView::LocalRelative(join_path_spec(cwd, p))
                    },
                ),
            )
        }
    } else {
        classify_plain_spec(input, cwd, resolved_is_dir)
    }
}

/// The label shown to the user for a source, in the form they typed it.
pub open spec fn label_of(s: SourceView) -> Seq<char>
    decreases s,
{
    match s {
        SourceView::HostShorthand { host, owner_repo } => (match host {
            GitHost::GitHub => "gh"@,
            GitHost::GitLab => "gl"@,
            GitHost::Bitbucket => "bb"@,
            GitHost::SourceHut => "sr"@,
        }) + ":"@ + owner_repo,
        SourceView::GithubOwnerRepo { owner, repo } => owner + "/"@ + repo,
        SourceView::RemoteUrl(u) => u,
        SourceView::LocalRelative(p) => p,
        SourceView::LocalAbsolute(p) => p,
        SourceView::Favorite(inner) => "favorite → "@ + label_of(*inner),
    }
}

/// Whether a source is acquired by cloning.
pub open spec fn is_remote_spec(s: SourceView) -> bool
    decreases s,
{
    match s {
        SourceView::Favorite(inner) => is_remote_spec(*inner),
        SourceView::LocalRelative(_) => false,
        SourceView::LocalAbsolute(_) => false,
        _ => true,
    }
}

/// The URL a remote source is cloned from.
pub open spec fn clone_url_of(s: SourceView) -> Option<Seq<char>>
    decreases s,
{
    match s {
        SourceView::HostShorthand { host, owner_repo } => Some(host_url(host, owner_repo)),
        SourceView::GithubOwnerRepo { owner, repo } => Some(
            "https://github.com/"@ + owner + "/"@ + repo + ".git"@,
        ),
        SourceView::RemoteUrl(u) => Some(u),
        SourceView::LocalRelative(_) => None,
        SourceView::LocalAbsolute(_) => None,
        SourceView::Favorite(inner) => clone_url_of(*inner),
    }
}

/// The directory a local source is copied from.
pub open spec fn local_path_of(s: SourceView) -> Option<Seq<char>>
    decreases s,
{
    match s {
        SourceView::LocalRelative(p) => Some(p),
        SourceView::LocalAbsolute(p) => Some(p),
        SourceView::Favorite(inner) => local_path_of(*inner),
        _ => None,
    }
}

/// A git source, with the options of the clone.
#[derive(Debug)]
pub struct GitUserInput {
    pub url: String,
    pub branch: Option<String>,
    pub tag: Option<String>,
    pub revision: Option<String>,
    pub identity: Option<String>,
    pub gitconfig: Option<String>,
    pub force_init: bool,
    pub skip_submodules: bool,
}

/// Where a template is taken from: a git remote or a local directory.
#[derive(Debug)]
pub enum TemplateLocation {
    Git(GitUserInput),
    Path(String),
}

fn clone_opt(o: &Option<String>) -> (r: Option<String>)
    ensures
        r == *o,
{
    match o {
        Some(s) => Some(s.clone()),
        None => None,
    }
}

/// `g` carries the options of `opts`.
pub open spec fn carries_options(g: GitUserInput, opts: CloneOptions) -> bool {
    &&& g.branch == opts.branch
    &&& g.tag == opts.tag
    &&& g.revision == opts.revision
    &&& g.identity == opts.ssh_identity
    &&& g.gitconfig == opts.gitconfig
    &&& g.force_init == opts.force_git_init
    &&& g.skip_submodules == opts.skip_submodules
}

impl GitUserInput {
    /// A git source at `url` with the clone options `opts`.
    pub fn with_url_and_clone_opts(url: String, opts: &CloneOptions) -> (r: GitUserInput)
        ensures
            r.url == url,
            carries_options(r, *opts),
    {
        GitUserInput {
            url,
            branch: clone_opt(&opts.branch),
            tag: clone_opt(&opts.tag),
            revision: clone_opt(&opts.revision),
            identity: clone_opt(&opts.ssh_identity),
            gitconfig: clone_opt(&opts.gitconfig),
            force_init: opts.force_git_init,
            skip_submodules: opts.skip_submodules,
        }
    }

    /// The URL to clone.
    pub fn url(&self) -> (r: &str)
        ensures
            r@ == self.url@,
    {
        self.url.as_str()
    }
}

impl TemplateSource {
    /// Classifies a raw template input. Favorites configured in
    /// `app_config` are followed (to a bounded depth), then host
    /// shorthands, URLs, absolute paths, existing relative directories
    /// under `cwd`, `owner/repo`, and finally anything else as a URL.
    /// The directory question is asked of the disk; the result is the
    /// classification for one of its two answers.
    pub fn classify(input: &str, app_config: &AppConfig, cwd: &str) -> (r: Self)
        ensures
            r.model() == classify_spec(input@, *app_config, cwd@, 0, true) || r.model()
                == classify_spec(input@, *app_config, cwd@, 0, false),
    {
        Self::classify_with_depth(input, app_config, cwd, 0)
    }

    fn classify_with_depth(input: &str, app_config: &AppConfig, cwd: &str, depth: u8) -> (r: Self)
        requires
            depth <= 9,
        ensures
            r.model() == classify_spec(input@, *app_config, cwd@, depth as nat, true) || r.model()
                == classify_spec(input@, *app_config, cwd@, depth as nat, false),
        decreases 9 - depth,
    {
        if depth <= 8 {
            if let Some(fav) = app_config.get_favorite_cfg(input) {
                if let Some(git) = &fav.git {
                    let inner = Self::classify_with_depth(git.as_str(), app_config, cwd, depth + 1);
                    return TemplateSource::Favorite(Box::new(inner));
                }
                if let Some(p) = &fav.path {
                    let v = chars_of(p.as_str());
                    let inner = if v.len() > 0 && v[0] == '/' {
                        TemplateSource::LocalAbsolute(p.clone())
                    } else {
                        TemplateSource::LocalRelative(join_path(cwd, p.as_str()))
                    };
                    assert(inner.model() == (if is_abs(p@) {
                        SourceView::LocalAbsolute(p@)
                    } else {
                        SourceView::LocalRelative(join_path_spec(cwd@, p@))
                    }));
                    let r = TemplateSource::Favorite(Box::new(inner));
                    assert(fav.git is None);
                    assert(favorite_of(*app_config, input@) == Some(*fav));
                    assert(r.model() == classify_spec(input@, *app_config, cwd@, depth as nat, true));
                    return r;
                }
            }
        }
        let probe = if strip_host_prefix(input).is_none() && !looks_like_url(input) && !str_has_prefix(
            input,
            "/",
        ) {
            let resolved = join_path(cwd, input);
            is_existing_dir(resolved.as_str())
        } else {
            false
        };
        let r = Self::classify_plain(input, cwd, probe);
        proof {
            reveal_strlit("/");
            if is_abs(input@) {
                assert(input@.subrange(0, 1) =~= "/"@);
            }
        }
        r
    }

    /// Steps 2 to 7 of classification (see [`classify_plain_spec`]), with
    /// the directory question already answered by `resolved_is_dir`.
    pub fn classify_plain(input: &str, cwd: &str, resolved_is_dir: bool) -> (r: Self)
        ensures
            r.model() == classify_plain_spec(input@, cwd@, resolved_is_dir),
    {
        if let Some((host, rest)) = strip_host_prefix(input) {
            return TemplateSource::HostShorthand { host, owner_repo: owned(rest) };
        }
        if looks_like_url(input) {
            return TemplateSource::RemoteUrl(owned(input));
        }
        let v = chars_of(input);
        if v.len() > 0 && v[0] == '/' {
            return TemplateSource::LocalAbsolute(owned(input));
        }
        if resolved_is_dir {
            return TemplateSource::LocalRelative(join_path(cwd, input));
        }
        if let Some((owner, repo)) = parse_owner_repo(input) {
            return TemplateSource::GithubOwnerRepo { owner, repo };
        }
        TemplateSource::RemoteUrl(owned(input))
    }

    /// The label shown to the user, in the form they typed it.
    pub fn display_label(&self) -> (r: String)
        ensures
            r@ == label_of(self.model()),
        decreases self,
    {
        match self {
            TemplateSource::HostShorthand { host, owner_repo } => {
                let mut s = String::new();
                match host {
                    GitHost::GitHub => s.append("gh"),
                    GitHost::GitLab => s.append("gl"),
                    GitHost::Bitbucket => s.append("bb"),
                    GitHost::SourceHut => s.append("sr"),
                }
                s.append(":");
                s.append(owner_repo.as_str());
                assert(s@ =~= label_of(self.model()));
                s
            },
            TemplateSource::GithubOwnerRepo { owner, repo } => {
                let mut s = String::new();
                s.append(owner.as_str());
                s.append("/");
                s.append(repo.as_str());
                assert(s@ =~= label_of(self.model()));
                s
            },
            TemplateSource::RemoteUrl(u) => u.clone(),
            TemplateSource::LocalRelative(p) => p.clone(),
            TemplateSource::LocalAbsolute(p) => p.clone(),
            TemplateSource::Favorite(inner) => {
                let mut s = String::new();
                s.append("favorite → ");
                let l = inner.display_label();
                s.append(l.as_str());
                assert(s@ =~= label_of(self.model()));
                s
            },
        }
    }

    /// The location the source is acquired from; `clone_opts` go with a
    /// git location and are ignored for a local one.
    pub fn into_template_location(self, clone_opts: &CloneOptions) -> (r: TemplateLocation)
        ensures
            match r {
                TemplateLocation::Git(g) => clone_url_of(self.model()) == Some(g.url@)
                    && carries_options(g, *clone_opts),
                TemplateLocation::Path(p) => local_path_of(self.model()) == Some(p@),
            },
        decreases self,
    {
        let ghost m = self.model();
        match self {
            TemplateSource::HostShorthand { host, owner_repo } => {
                let url = host.to_url(owner_repo.as_str());
                TemplateLocation::Git(GitUserInput::with_url_and_clone_opts(url, clone_opts))
            },
            TemplateSource::GithubOwnerRepo { owner, repo } => {
                let mut url = String::new();
                url.append("https://github.com/");
                url.append(owner.as_str());
                url.append("/");
                url.append(repo.as_str());
                url.append(".git");
                assert(url@ =~= clone_url_of(m)->Some_0);
                TemplateLocation::Git(GitUserInput::with_url_and_clone_opts(url, clone_opts))
            },
            TemplateSource::RemoteUrl(url) => {
                TemplateLocation::Git(GitUserInput::with_url_and_clone_opts(url, clone_opts))
            },
            TemplateSource::LocalAbsolute(p) => TemplateLocation::Path(p),
            TemplateSource::LocalRelative(p) => TemplateLocation::Path(p),
            TemplateSource::Favorite(inner) => {
                let inner = *inner;
                inner.into_template_location(clone_opts)
            },
        }
    }

    /// Whether the source is acquired by cloning rather than copying.
    pub fn is_remote(&self) -> (r: bool)
        ensures
            r == is_remote_spec(self.model()),
        decreases self,
    {
        match self {
            TemplateSource::HostShorthand { .. } => true,
            TemplateSource::GithubOwnerRepo { .. } => true,
            TemplateSource::RemoteUrl(_) => true,
            TemplateSource::LocalRelative(_) => false,
            TemplateSource::LocalAbsolute(_) => false,
            TemplateSource::Favorite(inner) => inner.is_remote(),
        }
    }
}

/// A source is cloned exactly when it has a URL to clone from, and
/// copied exactly when it has a directory to copy from; never both.
pub proof fn lemma_remote_iff_clone_url(s: SourceView)
    ensures
        is_remote_spec(s) <==> clone_url_of(s) is Some,
        !is_remote_spec(s) <==> local_path_of(s) is Some,
    decreases s,
{
    match s {
        SourceView::Favorite(inner) => lemma_remote_iff_clone_url(*inner),
        _ => {},
    }
}

/// A favorite that gives neither `git` nor `path` is no favorite: the
/// input classifies by the plain rules, exactly as in a configuration
/// that has no favorite of that name.
pub proof fn lemma_malformed_favorite_falls_through(
    input: Seq<char>,
    cfg: AppConfig,
    cfg_without: AppConfig,
    cwd: Seq<char>,
    depth: nat,
    resolved_is_dir: bool,
)
    requires
        favorite_of(cfg, input) matches Some(f) ==> f.git is None && f.path is None,
        favorite_of(cfg_without, input) is None,
    ensures
        classify_spec(input, cfg, cwd, depth, resolved_is_dir) == classify_spec(
            input,
            cfg_without,
            cwd,
            depth,
            resolved_is_dir,
        ),
        classify_spec(input, cfg, cwd, depth, resolved_is_dir) == classify_plain_spec(
            input,
            cwd,
            resolved_is_dir,
        ),
{
}

/// The label of a host shorthand, or of an absolute local path, is the
/// form the user typed: classified again (with no favorite of that name)
/// it gives the same source back.
pub proof fn lemma_label_classifies_back(s: SourceView, cfg: AppConfig, cwd: Seq<char>, resolved_is_dir: bool)
    requires
        s is HostShorthand || (s matches SourceView::LocalAbsolute(p) && is_abs(p)),
        favorite_of(cfg, label_of(s)) is None,
    ensures
        classify_spec(label_of(s), cfg, cwd, 0, resolved_is_dir) == s,
{
    reveal_strlit("gh");
    reveal_strlit("gl");
    reveal_strlit("bb");
    reveal_strlit("sr");
    reveal_strlit(":");
    let l = label_of(s);
    match s {
        SourceView::HostShorthand { host, owner_repo } => {
            let h = match host {
                GitHost::GitHub => "gh"@,
                GitHost::GitLab => "gl"@,
                GitHost::Bitbucket => "bb"@,
                GitHost::SourceHut => "sr"@,
            };
            assert(l == h + ":"@ + owner_repo);
            assert(l[0] == h[0] && l[1] == h[1] && l[2] == ':');
            assert(host_of_prefix(l) == Some(host));
            assert(l.subrange(3, l.len() as int) =~= owner_repo);
        },
        SourceView::LocalAbsolute(p) => {
            assert(l == p);
            assert(host_of_prefix(p) is None);
            lemma_first_index_from(p, '/', 0);
            assert(first_slash_or_end(p) == 0);
            reveal_strlit("https://");
            reveal_strlit("http://");
            reveal_strlit("ssh://");
            reveal_strlit("git://");
            reveal_strlit("file://");
            if has_prefix(p, "https://"@) {
                assert(p.subrange(0, 8)[0] == p[0]);
            }
            if has_prefix(p, "http://"@) {
                assert(p.subrange(0, 7)[0] == p[0]);
            }
            if has_prefix(p, "ssh://"@) {
                assert(p.subrange(0, 6)[0] == p[0]);
            }
            if has_prefix(p, "git://"@) {
                assert(p.subrange(0, 6)[0] == p[0]);
            }
            if has_prefix(p, "file://"@) {
                assert(p.subrange(0, 7)[0] == p[0]);
            }
            lemma_first_index_from(p, '@', 0);
            if let Some(at) = first_index_from(p, '@', 0) {
                lemma_first_index_from(p, ':', at);
            }
            assert(!looks_like_url_spec(p));
        },
        _ => {},
    }
}

/// A plain input (no favorite of that name, no host shorthand, no URL, not
/// absolute) is the local directory `cwd` joined with it exactly when
/// that directory exists; only when it does not is it read as
/// `owner/repo` or a URL. An existing directory always beats `owner/repo`.
pub proof fn lemma_existing_directory_is_local(input: Seq<char>, cfg: AppConfig, cwd: Seq<char>, resolved_is_dir: bool)
    requires
        favorite_of(cfg, input) is None,
        host_of_prefix(input) is None,
        !looks_like_url_spec(input),
        !is_abs(input),
    ensures
        resolved_is_dir ==> classify_spec(input, cfg, cwd, 0, resolved_is_dir)
            == SourceView::LocalRelative(join_path_spec(cwd, input)),
        !resolved_is_dir ==> !(classify_spec(input, cfg, cwd, 0, resolved_is_dir) is LocalRelative),
        !resolved_is_dir ==> (classify_spec(input, cfg, cwd, 0, resolved_is_dir) is GithubOwnerRepo
            || classify_spec(input, cfg, cwd, 0, resolved_is_dir) == SourceView::RemoteUrl(input)),
{
}

} // verus!
