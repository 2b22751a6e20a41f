//! Which files of a template are expanded: the `include` / `exclude`
//! lists of the template configuration, in gitignore syntax.
use vstd::prelude::*;
use crate::config::TemplateConfig;
use crate::text::{owned, str_eq, texts};

verus! {

#[verifier::external_type_specification]
#[verifier::external_body]
pub struct ExGitignore(ignore::gitignore::Gitignore);

/// What building a gitignore matcher rooted at `root` from the lines
/// `patterns` answers: `None` when it succeeds, else the text of the error.
pub uninterp spec fn gitignore_build_error(root: Seq<char>, patterns: Seq<Seq<char>>) -> Option<
    Seq<char>,
>;

/// Whether the matcher rooted at `root` built from `patterns` ignores the
/// file `path` or one of its parent directories.
pub uninterp spec fn gitignore_ignores(
    root: Seq<char>,
    patterns: Seq<Seq<char>>,
    path: Seq<char>,
) -> bool;

/// A gitignore matcher with the root and the lines it was built from. Its
/// fields are private and [`build_pattern_matcher`] is the only way to
/// make one, so `compiled` is always built from `root` and `patterns`.
pub struct PatternMatcher {
    root: String,
    patterns: Vec<String>,
    compiled: ignore::gitignore::Gitignore,
}

impl PatternMatcher {
    pub closed spec fn root(&self) -> Seq<char> {
        self.root@
    }

    pub closed spec fn patterns(&self) -> Seq<Seq<char>> {
        texts(self.patterns@)
    }
}

/// `ignore::gitignore::GitignoreBuilder`: a builder rooted at `root`, one
/// `add_line` per pattern, then `build`. The contract claims that this
/// succeeds exactly when the named outcome says so, with the named error
/// text otherwise.
#[verifier::external_body]
fn build_pattern_matcher(root: &str, patterns: &Vec<String>) -> (r: Result<PatternMatcher, String>)
    ensures
        match r {
            Ok(m) => m.root() == root@ && m.patterns() == texts(patterns@)
                && gitignore_build_error(root@, texts(patterns@)) is None,
            Err(e) => gitignore_build_error(root@, texts(patterns@)) == Some(e@),
        },
{
    let mut builder = ignore::gitignore::GitignoreBuilder::new(root);
    for rule in patterns {
        if let Err(e) = builder.add_line(None, rule) {
            return Err(e.to_string());
        }
    }
    match builder.build() {
        Ok(compiled) => Ok(PatternMatcher { root: root.to_string(), patterns: patterns.clone(), compiled }),
        Err(e) => Err(e.to_string()),
    }
}

/// `ignore::gitignore::Gitignore::matched_path_or_any_parents` for a file
/// (not a directory), then `Match::is_ignore`. The outside function strips
/// a leading `./`, then the matcher's root and one `/`, and panics when
/// what is left starts at the root; a path that does not start with `/`
/// and holds no `//` never does.
#[verifier::external_body]
fn ignores_path(m: &PatternMatcher, path: &str) -> (r: bool)
    requires
        is_relative(path@),
    ensures
        r == gitignore_ignores(m.root(), m.patterns(), path@),
{
    m.compiled.matched_path_or_any_parents(path, false).is_ignore()
}

/// A relative path without empty components: it does not start at the
/// root of the file system and holds no `//`.
pub open spec fn is_relative(path: Seq<char>) -> bool {
    &&& !(path.len() > 0 && path[0] == '/')
    &&& forall|i: int| 0 <= i < path.len() - 1 ==> !(#[trigger] path[i] == '/' && path[i + 1] == '/')
}

/// Whether `path` is a relative path without empty components.
pub fn is_relative_path(path: &str) -> (r: bool)
    ensures
        r == is_relative(path@),
{
    let v = crate::text::chars_of(path);
    if v.len() > 0 && v[0] == '/' {
        return false;
    }
    let mut i: usize = 1;
    while i < v.len()
        invariant
            1 <= i,
            v@ == path@,
            !(v@.len() > 0 && v@[0] == '/'),
            forall|j: int| 0 <= j < i - 1 && j < v@.len() - 1 ==> !(#[trigger] v@[j] == '/' && v@[j + 1] == '/'),
        decreases v.len() - i,
    {
        if v[i - 1] == '/' && v[i] == '/' {
            return false;
        }
        i = i + 1;
    }
    true
}

/// What to do with a file of the template.
#[derive(Debug, Clone, Copy, PartialEq, Eq, Structural)]
pub enum ShouldInclude {
    Include,
    Exclude,
    Ignore,
}

/// Whether the lists name the files to take or the files to leave.
enum MatcherKind {
    Include(PatternMatcher),
    Exclude(PatternMatcher),
}

/// Decides, file by file, what the template expansion does: files listed
/// as always left out are ignored; then the `include` list (files not
/// matched are excluded) or the `exclude` list (files matched are
/// excluded) decides; without either list every file is included.
pub struct Matcher(Option<MatcherKind>, Vec<String>);

/// The decisions of a matcher.
pub struct MatcherView {
    /// `Some((true, root, patterns))` for an include list,
    /// `Some((false, ..))` for an exclude list.
    pub lists: Option<(bool, Seq<char>, Seq<Seq<char>>)>,
    /// The paths that are always left out.
    pub permanent: Seq<Seq<char>>,
}

impl View for Matcher {
    type V = MatcherView;

    closed spec fn view(&self) -> MatcherView {
        MatcherView {
            lists: match self.0 {
                Some(MatcherKind::Include(m)) => Some((true, m.root(), m.patterns())),
                Some(MatcherKind::Exclude(m)) => Some((false, m.root(), m.patterns())),
                None => None,
            },
            permanent: texts(self.1@),
        }
    }
}

impl Default for Matcher {
    fn default() -> (r: Matcher)
        ensures
            r@.lists is None,
            r@.permanent.len() == 0,
    {
        Matcher(None, Vec::new())
    }
}

/// Both an include and an exclude list are given; the exclude list is then
/// dropped.
pub open spec fn has_both_lists(tc: TemplateConfig) -> bool {
    tc.includes is Some && tc.exclude is Some
}

/// Whether the configuration gives both lists, which calls for a warning.
pub fn both_lists_given(tc: &TemplateConfig) -> (r: bool)
    ensures
        r == has_both_lists(*tc),
{
    tc.includes.is_some() && tc.exclude.is_some()
}

/// The decision for the file `path` (relative to the template).
pub open spec fn should_include_spec(m: MatcherView, path: Seq<char>) -> ShouldInclude {
    if m.permanent.contains(path) {
        ShouldInclude::Ignore
    } else {
        let take = match m.lists {
            Some((true, root, patterns)) => gitignore_ignores(root, patterns, path),
            Some((false, root, patterns)) => !gitignore_ignores(root, patterns, path),
            None => true,
        };
        if take {
            ShouldInclude::Include
        } else {
            ShouldInclude::Exclude
        }
    }
}

impl Matcher {
    /// A matcher for the lists of `template_config`, rooted at
    /// `project_dir`, that always leaves out `permanent_excluded`. When
    /// both lists are given, the exclude list is dropped from the
    /// configuration and only the include list counts.
    pub fn new(template_config: &mut TemplateConfig, project_dir: &str, permanent_excluded: &Vec<String>) -> (r: Result<
        Matcher,
        String,
    >)
        ensures
            final(template_config).exclude == (if has_both_lists(*old(template_config)) {
                None
            } else {
                old(template_config).exclude
            }),
            final(template_config).includes == old(template_config).includes,
            match (old(template_config).includes, old(template_config).exclude) {
                (Some(inc), _) => match gitignore_build_error(project_dir@, texts(inc@)) {
                    Some(e) => r is Err && r->Err_0@ == e,
                    None => r is Ok && r->Ok_0@ == (MatcherView {
                        lists: Some((true, project_dir@, texts(inc@))),
                        permanent: texts(permanent_excluded@),
                    }),
                },
                (None, Some(exc)) => match gitignore_build_error(project_dir@, texts(exc@)) {
                    Some(e) => r is Err && r->Err_0@ == e,
                    None => r is Ok && r->Ok_0@ == (MatcherView {
                        lists: Some((false, project_dir@, texts(exc@))),
                        permanent: texts(permanent_excluded@),
                    }),
                },
                (None, None) => r is Ok && r->Ok_0@ == (MatcherView {
                    lists: None,
                    permanent: texts(permanent_excluded@),
                }),
            },
    {
        if template_config.includes.is_some() && template_config.exclude.is_some() {
            template_config.exclude = None;
        }
        let kind = match (&template_config.exclude, &template_config.includes) {
            (None, None) => None,
            (None, Some(it)) => Some(MatcherKind::Include(build_pattern_matcher(project_dir, it)?)),
            (Some(it), _) => Some(MatcherKind::Exclude(build_pattern_matcher(project_dir, it)?)),
        };
        Ok(Matcher(kind, permanent_excluded.clone()))
    }

    /// What to do with the file `relative_path`.
    pub fn should_include(&self, relative_path: &str) -> (r: ShouldInclude)
        requires
            is_relative(relative_path@),
        ensures
            r == should_include_spec(self@, relative_path@),
    {
        let mut i: usize = 0;
        while i < self.1.len()
            invariant
                i <= self.1.len(),
                forall|j: int| 0 <= j < i ==> self.1@[j]@ != relative_path@,
            decreases self.1.len() - i,
        {
            if str_eq(self.1[i].as_str(), relative_path) {
                assert(texts(self.1@)[i as int] == relative_path@);
                return ShouldInclude::Ignore;
            }
            i = i + 1;
        }
        assert(!texts(self.1@).contains(relative_path@)) by {
            assert forall|j: int| 0 <= j < texts(self.1@).len() implies texts(self.1@)[j]
                != relative_path@ by {
                assert(texts(self.1@)[j] == self.1@[j]@);
            }
        }
        let take = match &self.0 {
            Some(MatcherKind::Exclude(m)) => !ignores_path(m, relative_path),
            Some(MatcherKind::Include(m)) => ignores_path(m, relative_path),
            None => true,
        };
        if take {
            ShouldInclude::Include
        } else {
            ShouldInclude::Exclude
        }
    }
}

/// Files listed as always left out are ignored whatever the lists say;
/// without include or exclude lists every other file is included.
pub proof fn lemma_permanent_and_default(m: MatcherView, path: Seq<char>)
    ensures
        m.permanent.contains(path) ==> should_include_spec(m, path) == ShouldInclude::Ignore,
        m.lists is None && !m.permanent.contains(path) ==> should_include_spec(m, path)
            == ShouldInclude::Include,
        should_include_spec(m, path) == ShouldInclude::Ignore ==> m.permanent.contains(path),
{
}

} // verus!
