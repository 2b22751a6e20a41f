//! Decisions of the clone path: which reference to check out, how deep
//! to fetch, how submodule URLs resolve and how an identity file reaches
//! `ssh`.
use vstd::prelude::*;
use crate::git::gitconfig::{instead_url_of, resolve_instead_url, InsteadOfRule};
use crate::git::utils::{canonicalize_path, canonicalize_refusal};
use crate::disk::is_absolute_text;
use crate::text::{
    chars_of, has_prefix, owned, push_char, push_chars, replace_all, replace_all_exec,
    str_has_prefix, string_of_range,
};

verus! {

/// Which target the checkout points to after the clone.
#[derive(Debug, Clone, PartialEq, Eq)]
pub enum CheckoutTarget {
    /// A branch or tag name, resolved on the remote.
    Ref(String),
    /// A full object id or a fully qualified reference, checked out detached.
    Revision(String),
}

/// A checkout target as text.
pub enum TargetView {
    Ref(Seq<char>),
    Revision(Seq<char>),
}

/// The settings of a clone, collected step by step.
pub struct RepoCloneBuilder {
    pub url: String,
    pub identity_file: Option<String>,
    pub target: Option<CheckoutTarget>,
    pub skip_submodules: bool,
    pub requires_full_history: bool,
    pub destination_path: Option<String>,
}

/// The settings of a clone, as text.
pub struct BuilderView {
    pub url: Seq<char>,
    pub identity_file: Option<Seq<char>>,
    pub target: Option<TargetView>,
    pub skip_submodules: bool,
    pub requires_full_history: bool,
    pub destination_path: Option<Seq<char>>,
}

pub open spec fn opt_view(o: Option<String>) -> Option<Seq<char>> {
    match o {
        Some(s) => Some(s@),
        None => None,
    }
}

pub open spec fn opt_str_view(o: Option<&str>) -> Option<Seq<char>> {
    match o {
        Some(s) => Some(s@),
        None => None,
    }
}

impl View for RepoCloneBuilder {
    type V = BuilderView;

    open spec fn view(&self) -> BuilderView {
        BuilderView {
            url: self.url@,
            identity_file: opt_view(self.identity_file),
            target: match self.target {
                Some(CheckoutTarget::Ref(s)) => Some(TargetView::Ref(s@)),
                Some(CheckoutTarget::Revision(s)) => Some(TargetView::Revision(s@)),
                None => None,
            },
            skip_submodules: self.skip_submodules,
            requires_full_history: self.requires_full_history,
            destination_path: opt_view(self.destination_path),
        }
    }
}

/// The settings after asking for a branch.
pub open spec fn after_branch(b: BuilderView, branch: Option<Seq<char>>) -> BuilderView {
    match branch {
        Some(n) => BuilderView { target: Some(TargetView::Ref(n)), ..b },
        None => b,
    }
}

/// The settings after asking for a tag: a tag replaces an earlier revision.
pub open spec fn after_tag(b: BuilderView, tag: Option<Seq<char>>) -> BuilderView {
    match tag {
        Some(n) => BuilderView { target: Some(TargetView::Ref(n)), requires_full_history: false, ..b },
        None => b,
    }
}

/// The settings after asking for a revision: a revision replaces an
/// earlier tag and needs the full history.
pub open spec fn after_revision(b: BuilderView, rev: Option<Seq<char>>) -> BuilderView {
    match rev {
        Some(n) => BuilderView {
            target: Some(TargetView::Revision(n)),
            requires_full_history: true,
            ..b
        },
        None => b,
    }
}

/// The message of `build` without a destination.
pub open spec fn no_destination_message() -> Seq<char> {
    "Destination path is not set"@
}

/// A clone ready to run: its destination is set.
pub struct GitCloneCmd {
    pub builder: RepoCloneBuilder,
}

impl RepoCloneBuilder {
    /// A clone of `url` with every setting at its default.
    pub fn new(url: &str) -> (r: Self)
        ensures
            r@.url == url@,
            r@.identity_file is None,
            r@.target is None,
            !r@.skip_submodules,
            !r@.requires_full_history,
            r@.destination_path is None,
    {
        RepoCloneBuilder {
            url: owned(url),
            identity_file: None,
            target: None,
            skip_submodules: false,
            requires_full_history: false,
            destination_path: None,
        }
    }

    /// Whether submodules are cloned too.
    pub fn with_submodules(self, with_submodules: bool) -> (r: Self)
        ensures
            r@ == (BuilderView { skip_submodules: !with_submodules, ..self@ }),
    {
        let mut s = self;
        s.skip_submodules = !with_submodules;
        s
    }

    /// Checks out `branch`, when given.
    pub fn with_branch(self, branch: Option<&str>) -> (r: Self)
        ensures
            r@ == after_branch(self@, opt_str_view(branch)),
    {
        let mut s = self;
        if let Some(b) = branch {
            s.target = Some(CheckoutTarget::Ref(owned(b)));
        }
        s
    }

    /// Checks out `tag`, when given. Overrides a previously set revision.
    pub fn with_tag(self, tag: Option<&str>) -> (r: Self)
        ensures
            r@ == after_tag(self@, opt_str_view(tag)),
    {
        let mut s = self;
        if let Some(t) = tag {
            s.target = Some(CheckoutTarget::Ref(owned(t)));
            s.requires_full_history = false;
        }
        s
    }

    /// Checks out `revision`, when given. Overrides a previously set tag.
    pub fn with_revision(self, revision: Option<&str>) -> (r: Self)
        ensures
            r@ == after_revision(self@, opt_str_view(revision)),
    {
        let mut s = self;
        if let Some(rev) = revision {
            s.target = Some(CheckoutTarget::Revision(owned(rev)));
            s.requires_full_history = true;
        }
        s
    }

    /// Rewrites the URL by the `insteadOf` rules of a git configuration.
    pub fn with_instead_of_rules(self, rules: &Vec<InsteadOfRule>) -> (r: Self)
        ensures
            r@ == (BuilderView {
                url: match instead_url_of(self@.url, rules@) {
                    Some(u) => u,
                    None => self@.url,
                },
                ..self@
            }),
    {
        let mut s = self;
        if let Some(u) = resolve_instead_url(s.url.as_str(), rules) {
            s.url = u;
        }
        s
    }

    /// Uses the identity file at `identity_path`, resolved on disk.
    pub fn with_ssh_identity(self, identity_path: Option<&str>) -> (r: Result<Self, String>)
        ensures
            identity_path is None ==> r is Ok && r->Ok_0@ == self@,
            r matches Ok(b) ==> (identity_path is Some ==> b@.identity_file is Some && (BuilderView {
                identity_file: self@.identity_file,
                ..b@
            }) == self@),
    {
        let mut s = self;
        if let Some(p) = identity_path {
            let resolved = canonicalize_path(p)?;
            s.identity_file = Some(resolved);
        }
        Ok(s)
    }

    /// Clones into `destination_path`, resolved on disk.
    pub fn with_destination(self, destination_path: &str) -> (r: Result<Self, String>)
        ensures
            r matches Ok(b) ==> b@.destination_path is Some && (BuilderView {
                destination_path: self@.destination_path,
                ..b@
            }) == self@ && b@.destination_path->Some_0.len() > 0
                && is_absolute_text(b@.destination_path->Some_0),
            r matches Err(e) ==> canonicalize_refusal(destination_path@, e@),
    {
        let mut s = self;
        let resolved = canonicalize_path(destination_path)?;
        s.destination_path = Some(resolved);
        Ok(s)
    }

    /// The clone, once a destination is set.
    pub fn build(self) -> (r: Result<GitCloneCmd, String>)
        ensures
            self@.destination_path is Some ==> r is Ok && r->Ok_0.builder@ == self@,
            self@.destination_path is None ==> r is Err && r->Err_0@ == no_destination_message(),
    {
        if self.destination_path.is_none() {
            return Err(owned("Destination path is not set"));
        }
        Ok(GitCloneCmd { builder: self })
    }
}

/// An http(s) URL.
pub open spec fn is_http_url(url: Seq<char>) -> bool {
    has_prefix(url, "http://"@) || has_prefix(url, "https://"@)
}

/// Whether `url` is an http(s) URL.
pub fn is_http_repo_url(url: &str) -> (r: bool)
    ensures
        r == is_http_url(url@),
{
    str_has_prefix(url, "http://") || str_has_prefix(url, "https://")
}

/// http(s) clones fetch only the tip, unless the full history is needed.
pub fn should_limit_fetch_depth(url: &str, requires_full_history: bool) -> (r: bool)
    ensures
        r == (is_http_url(url@) && !requires_full_history),
{
    is_http_repo_url(url) && !requires_full_history
}

/// A lower-case hexadecimal digit.
pub open spec fn is_hex_digit(c: char) -> bool {
    ('0' <= c && c <= '9') || ('a' <= c && c <= 'f')
}

/// A short object id: 1 to 39 lower-case hexadecimal digits.
pub open spec fn is_short_sha(s: Seq<char>) -> bool {
    0 < s.len() < 40 && forall|i: int| 0 <= i < s.len() ==> is_hex_digit(#[trigger] s[i])
}

/// Whether `s` is a short object id, to be expanded before checkout.
pub fn looks_like_short_sha(s: &str) -> (r: bool)
    ensures
        r == is_short_sha(s@),
{
    let v = chars_of(s);
    if v.len() == 0 || v.len() >= 40 {
        return false;
    }
    let mut i: usize = 0;
    while i < v.len()
        invariant
            i <= v.len(),
            v@ == s@,
            forall|j: int| 0 <= j < i ==> is_hex_digit(v@[j]),
        decreases v.len() - i,
    {
        let c = v[i];
        if !(('0' <= c && c <= '9') || ('a' <= c && c <= 'f')) {
            assert(!is_hex_digit(v@[i as int]));
            return false;
        }
        i = i + 1;
    }
    true
}

/// POSIX single-quoting: `s` inside `'…'`, each embedded `'` written as
/// `'\''`.
pub open spec fn sh_quoted(s: Seq<char>) -> Seq<char> {
    "'"@ + replace_all(s, "'"@, "'\\''"@) + "'"@
}

/// Quotes `s` for a POSIX shell.
pub fn sh_single_quote(s: &str) -> (r: String)
    ensures
        r@ == sh_quoted(s@),
{
    let mut out = String::new();
    out.append("'");
    let inner = replace_all_exec(s, "'", "'\\''");
    out.append(inner.as_str());
    out.append("'");
    out
}

/// `c` in front of what `rest` reads as, when it reads.
pub open spec fn read_prepend(c: char, rest: Option<Seq<char>>) -> Option<Seq<char>> {
    match rest {
        Some(r) => Some(seq![c] + r),
        None => None,
    }
}

/// How a POSIX shell reads the word `w`, written with single-quoted
/// parts, backslash-escaped characters and plain characters: the text it
/// stands for, or none when it ends inside quotes. `quoted` is whether
/// the reading starts inside single quotes.
pub open spec fn sh_read(w: Seq<char>, quoted: bool) -> Option<Seq<char>>
    decreases w.len(),
{
    if w.len() == 0 {
        if quoted {
            None
        } else {
            Some(Seq::empty())
        }
    } else if quoted {
        if w[0] == '\'' {
            sh_read(w.drop_first(), false)
        } else {
            read_prepend(w[0], sh_read(w.drop_first(), true))
        }
    } else if w[0] == '\'' {
        sh_read(w.drop_first(), true)
    } else if w[0] == '\\' && w.len() >= 2 {
        read_prepend(w[1], sh_read(w.subrange(2, w.len() as int), false))
    } else {
        read_prepend(w[0], sh_read(w.drop_first(), false))
    }
}

/// Inside quotes, the escaped text of `s` followed by the closing quote
/// reads as `s`.
proof fn lemma_sh_read_escaped(s: Seq<char>)
    ensures
        sh_read(replace_all(s, "'"@, "'\\''"@) + "'"@, true) == Some(s),
    decreases s.len(),
{
    reveal_strlit("'");
    reveal_strlit("'\\''");
    let q = "'"@;
    let e = "'\\''"@;
    if s.len() == 0 {
        assert(replace_all(s, q, e) == s);
        assert(replace_all(s, q, e) + q =~= q);
        assert(q.drop_first() =~= Seq::<char>::empty());
        assert(sh_read(q, true) == sh_read(q.drop_first(), false));
        assert(sh_read(replace_all(s, q, e) + q, true) == Some(s));
    } else {
        let rest = s.drop_first();
        lemma_sh_read_escaped(rest);
        let tail = replace_all(rest, q, e) + q;
        assert(s.subrange(1, s.len() as int) =~= rest);
        if s[0] == '\'' {
            assert(has_prefix(s, q)) by {
                assert(s.subrange(0, 1) =~= q);
            }
            let w = e + tail;
            assert(replace_all(s, q, e) + q =~= w);
            assert(w[0] == '\'');
            let w1 = w.drop_first();
            assert(w1[0] == '\\' && w1[1] == '\'' && w1.len() >= 2);
            let w2 = w1.subrange(2, w1.len() as int);
            assert(w2[0] == '\'');
            assert(w2.drop_first() =~= tail);
            assert(sh_read(w2, false) == Some(rest));
            assert(sh_read(w1, false) == Some(seq!['\''] + rest));
            assert(sh_read(w, true) == sh_read(w1, false));
            assert(seq!['\''] + rest =~= s);
        } else {
            assert(!has_prefix(s, q)) by {
                if has_prefix(s, q) {
                    assert(s.subrange(0, 1)[0] == q[0]);
                }
            }
            let w = seq![s[0]] + tail;
            assert(replace_all(s, q, e) + q =~= w);
            assert(w.drop_first() =~= tail);
            assert(sh_read(w, true) == read_prepend(s[0], sh_read(tail, true)));
            assert(seq![s[0]] + rest =~= s);
        }
    }
}

/// What `sh_single_quote` writes, a shell reads back as the original
/// text.
pub proof fn lemma_sh_quoted_reads_back(s: Seq<char>)
    ensures
        sh_read(sh_quoted(s), false) == Some(s),
{
    reveal_strlit("'");
    lemma_sh_read_escaped(s);
    let inner = replace_all(s, "'"@, "'\\''"@) + "'"@;
    assert(sh_quoted(s) =~= "'"@ + inner);
    assert(sh_quoted(s).drop_first() =~= inner);
}

/// `s` without trailing `c`s.
pub open spec fn trim_end_char(s: Seq<char>, c: char) -> Seq<char>
    decreases s.len(),
{
    if s.len() > 0 && s.last() == c {
        trim_end_char(s.drop_last(), c)
    } else {
        s
    }
}

/// The last position of `c` in `s`.
pub open spec fn last_index_of(s: Seq<char>, c: char) -> Option<int>
    decreases s.len(),
{
    if s.len() == 0 {
        None
    } else if s.last() == c {
        Some(s.len() - 1)
    } else {
        last_index_of(s.drop_last(), c)
    }
}

/// `s` starts with `../`.
pub open spec fn starts_with_up(s: Seq<char>) -> bool {
    s.len() >= 3 && s[0] == '.' && s[1] == '.' && s[2] == '/'
}

/// `s` starts with `./`.
pub open spec fn starts_with_here(s: Seq<char>) -> bool {
    s.len() >= 2 && s[0] == '.' && s[1] == '/'
}

/// Each leading `../` of `rest` removes the last `/`-component of `base`.
pub open spec fn climb(base: Seq<char>, rest: Seq<char>) -> (Seq<char>, Seq<char>)
    decreases rest.len(),
{
    if starts_with_up(rest) {
        climb(
            match last_index_of(base, '/') {
                Some(p) => base.subrange(0, p),
                None => base,
            },
            rest.subrange(3, rest.len() as int),
        )
    } else {
        (base, rest)
    }
}

/// One `../` of a relative URL drops the last component of the base.
proof fn lemma_climb_step(base: Seq<char>, rest: Seq<char>)
    requires
        starts_with_up(rest),
    ensures
        climb(base, rest) == climb(
            match last_index_of(base, '/') {
                Some(p) => base.subrange(0, p),
                None => base,
            },
            rest.subrange(3, rest.len() as int),
        ),
{
}

/// A relative submodule URL `rel` resolved against its parent's URL.
pub open spec fn joined_relative_url(parent: Seq<char>, rel: Seq<char>) -> Seq<char> {
    let (base, rest) = climb(trim_end_char(parent, '/'), rel);
    let rest2 = if starts_with_here(rest) {
        rest.subrange(2, rest.len() as int)
    } else {
        rest
    };
    base + "/"@ + rest2
}

/// The length of `v[..blen]` without its last `/` and what follows it;
/// `blen` when there is no `/`.
pub(crate) fn without_last_component(v: &Vec<char>, blen: usize) -> (r: usize)
    requires
        blen <= v.len(),
    ensures
        r <= blen,
        v@.subrange(0, r as int) == (match last_index_of(v@.subrange(0, blen as int), '/') {
            Some(p) => v@.subrange(0, blen as int).subrange(0, p),
            None => v@.subrange(0, blen as int),
        }),
{
    let ghost base = v@.subrange(0, blen as int);
    let mut k = blen;
    while k > 0 && v[k - 1] != '/'
        invariant
            k <= blen <= v.len(),
            base == v@.subrange(0, blen as int),
            last_index_of(base, '/') == last_index_of(v@.subrange(0, k as int), '/'),
        decreases k,
    {
        assert(v@.subrange(0, k as int).drop_last() =~= v@.subrange(0, k - 1));
        k = k - 1;
    }
    if k > 0 {
        assert(last_index_of(v@.subrange(0, k as int), '/') == Some(k - 1));
        assert(base.subrange(0, k - 1) =~= v@.subrange(0, k - 1));
        k - 1
    } else {
        assert(v@.subrange(0, 0) =~= Seq::<char>::empty());
        blen
    }
}

/// Resolves a relative submodule URL (`./x`, `../x`) against the
/// parent's URL, git's way: each `../` drops the last component.
pub fn join_relative_url(parent: &str, rel: &str) -> (r: String)
    ensures
        r@ == joined_relative_url(parent@, rel@),
{
    let vp = chars_of(parent);
    let vr = chars_of(rel);
    let mut end = vp.len();
    assert(vp@.subrange(0, vp@.len() as int) =~= vp@);
    while end > 0 && vp[end - 1] == '/'
        invariant
            end <= vp.len(),
            trim_end_char(vp@, '/') == trim_end_char(vp@.subrange(0, end as int), '/'),
        decreases end,
    {
        assert(vp@.subrange(0, end as int).drop_last() =~= vp@.subrange(0, end - 1));
        end = end - 1;
    }
    assert(vp@.subrange(0, end as int) == trim_end_char(vp@.subrange(0, end as int), '/'));
    let mut blen = end;
    let mut j: usize = 0;
    assert(vr@.subrange(0, vr@.len() as int) =~= vr@);
    let ghost target = climb(trim_end_char(vp@, '/'), vr@);
    while vr.len() - j >= 3 && vr[j] == '.' && vr[j + 1] == '.' && vr[j + 2] == '/'
        invariant
            blen <= vp.len(),
            j <= vr.len(),
            target == climb(vp@.subrange(0, blen as int), vr@.subrange(j as int, vr@.len() as int)),
        decreases vr.len() - j,
    {
        let ghost base = vp@.subrange(0, blen as int);
        let ghost rest = vr@.subrange(j as int, vr@.len() as int);
        proof {
            lemma_climb_step(base, rest);
        }
        blen = without_last_component(&vp, blen);
        assert(rest.subrange(3, rest.len() as int) =~= vr@.subrange(j + 3, vr@.len() as int));
        j = j + 3;
    }
    let mut out = string_of_range(&vp, 0, blen);
    let ghost rest = vr@.subrange(j as int, vr@.len() as int);
    assert(!starts_with_up(rest));
    if vr.len() - j >= 2 && vr[j] == '.' && vr[j + 1] == '/' {
        assert(starts_with_here(rest));
        assert(rest.subrange(2, rest.len() as int) =~= vr@.subrange(j + 2, vr@.len() as int));
        j = j + 2;
    }
    push_char(&mut out, '/');
    let tail = string_of_range(&vr, j, vr.len());
    out.append(tail.as_str());
    proof {
        reveal_strlit("/");
    }
    assert(out@ =~= joined_relative_url(parent@, rel@));
    out
}

/// The URL a submodule is cloned from: a relative one (`./x`, `../x`) is
/// resolved against the parent's URL, any other is kept.
pub fn resolve_submodule_url(parent: &str, sub: &str) -> (r: String)
    ensures
        r@ == (if has_prefix(sub@, "./"@) || has_prefix(sub@, "../"@) {
            joined_relative_url(parent@, sub@)
        } else {
            sub@
        }),
{
    if str_has_prefix(sub, "./") || str_has_prefix(sub, "../") {
        join_relative_url(parent, sub)
    } else {
        owned(sub)
    }
}

/// The ssh command setting that makes `ssh` use the identity file at
/// `identity`.
pub open spec fn ssh_command_setting(identity: Seq<char>) -> Seq<char> {
    "core.sshCommand=ssh -i "@ + sh_quoted(identity)
}

impl GitCloneCmd {
    /// The configuration override that hands the identity file to `ssh`,
    /// when one is set.
    pub fn ssh_command_override(&self) -> (r: Option<String>)
        ensures
            match self.builder@.identity_file {
                Some(i) => r is Some && r->Some_0@ == ssh_command_setting(i),
                None => r is None,
            },
    {
        match &self.builder.identity_file {
            Some(i) => {
                let mut s = String::new();
                s.append("core.sshCommand=ssh -i ");
                let q = sh_single_quote(i.as_str());
                s.append(q.as_str());
                Some(s)
            },
            None => None,
        }
    }

    /// Whether the clone fetches only the tip of the history.
    pub fn is_shallow(&self) -> (r: bool)
        ensures
            r == (is_http_url(self.builder@.url) && !self.builder@.requires_full_history),
    {
        should_limit_fetch_depth(self.builder.url.as_str(), self.builder.requires_full_history)
    }

    /// Whether the requested revision is a short object id that must be
    /// expanded on the remote before checkout.
    pub fn needs_revision_expansion(&self) -> (r: bool)
        ensures
            r == (self.builder@.target matches Some(TargetView::Revision(rev)) && is_short_sha(
                rev,
            )),
    {
        match &self.builder.target {
            Some(CheckoutTarget::Revision(rev)) => looks_like_short_sha(rev.as_str()),
            _ => false,
        }
    }
}

/// Of a tag and a revision, the one asked for last decides the checkout:
/// a revision after a tag checks out the revision with the full history,
/// a tag after a revision checks out the tag with a shallow history
/// allowed again.
pub proof fn lemma_last_reference_wins(b: BuilderView, tag: Seq<char>, rev: Seq<char>)
    ensures
        after_revision(after_tag(b, Some(tag)), Some(rev)).target == Some(TargetView::Revision(rev)),
        after_revision(after_tag(b, Some(tag)), Some(rev)).requires_full_history,
        after_tag(after_revision(b, Some(rev)), Some(tag)).target == Some(TargetView::Ref(tag)),
        !after_tag(after_revision(b, Some(rev)), Some(tag)).requires_full_history,
        after_branch(after_tag(b, Some(tag)), None) == after_tag(b, Some(tag)),
{
}

} // verus!
