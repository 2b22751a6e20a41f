//! Decisions of the template expansion: which entries of the template
//! are processed, and what the user is shown about them.
use vstd::prelude::*;
use crate::include_exclude::{is_relative, should_include_spec, Matcher, ShouldInclude};
use crate::interactive::{split_on, split_text};
use crate::text::{decimal, decimal_text, owned, push_char, str_eq, texts};

verus! {

/// The path goes through a `.git` directory (or is one).
pub open spec fn is_git_metadata_spec(path: Seq<char>) -> bool {
    split_on(path, '/').contains(".git"@)
}

/// Whether the path belongs to git's own metadata, which is never
/// expanded.
pub fn is_git_metadata(path: &str) -> (r: bool)
    ensures
        r == is_git_metadata_spec(path@),
{
    let parts = split_text(path, '/');
    let mut i: usize = 0;
    while i < parts.len()
        invariant
            i <= parts.len(),
            texts(parts@) == split_on(path@, '/'),
            forall|j: int| 0 <= j < i ==> parts@[j]@ != ".git"@,
        decreases parts.len() - i,
    {
        if str_eq(parts[i].as_str(), ".git") {
            assert(texts(parts@)[i as int] == ".git"@);
            return true;
        }
        i = i + 1;
    }
    assert forall|j: int| 0 <= j < texts(parts@).len() implies texts(parts@)[j] != ".git"@ by {
        assert(texts(parts@)[j] == parts@[j]@);
    }
    false
}

/// What happens to one entry of the template.
#[derive(Debug, Clone, Copy, PartialEq, Eq, Structural)]
pub enum EntryAction {
    /// It is a file used as a Rhai filter: left alone.
    SkipRhaiFilter,
    /// It is rendered.
    Process,
    /// The include / exclude lists leave it out.
    Skip,
    /// It is always left out (a hook script).
    Ignore,
}

/// The action for the entry at `relative_path`.
pub open spec fn entry_action_spec(
    relative_path: Seq<char>,
    rhai_filters: Seq<Seq<char>>,
    decision: ShouldInclude,
) -> EntryAction {
    if rhai_filters.contains(relative_path) {
        EntryAction::SkipRhaiFilter
    } else {
        match decision {
            ShouldInclude::Include => EntryAction::Process,
            ShouldInclude::Exclude => EntryAction::Skip,
            ShouldInclude::Ignore => EntryAction::Ignore,
        }
    }
}

/// Decides what happens to the entry at `relative_path`: files used as
/// Rhai filters are left alone, the rest follow the matcher.
pub fn entry_action(relative_path: &str, rhai_filters: &Vec<String>, matcher: &Matcher) -> (r: EntryAction)
    requires
        is_relative(relative_path@),
    ensures
        r == entry_action_spec(
            relative_path@,
            texts(rhai_filters@),
            should_include_spec(matcher@, relative_path@),
        ),
{
    let mut i: usize = 0;
    while i < rhai_filters.len()
        invariant
            i <= rhai_filters.len(),
            forall|j: int| 0 <= j < i ==> rhai_filters@[j]@ != relative_path@,
        decreases rhai_filters.len() - i,
    {
        if str_eq(rhai_filters[i].as_str(), relative_path) {
            assert(texts(rhai_filters@)[i as int] == relative_path@);
            return EntryAction::SkipRhaiFilter;
        }
        i = i + 1;
    }
    assert forall|j: int| 0 <= j < texts(rhai_filters@).len() implies texts(rhai_filters@)[j]
        != relative_path@ by {
        assert(texts(rhai_filters@)[j] == rhai_filters@[j]@);
    }
    match matcher.should_include(relative_path) {
        ShouldInclude::Include => EntryAction::Process,
        ShouldInclude::Exclude => EntryAction::Skip,
        ShouldInclude::Ignore => EntryAction::Ignore,
    }
}

/// `n` spaces.
pub open spec fn spaces(n: nat) -> Seq<char> {
    Seq::new(n, |i: int| ' ')
}

/// `s` right-aligned in a field of `width` characters.
pub open spec fn pad_left(s: Seq<char>, width: nat) -> Seq<char> {
    if s.len() < width {
        spaces((width - s.len()) as nat) + s
    } else {
        s
    }
}

/// The counter shown before an entry: its position (from 1), aligned to
/// the width of the total, then the total, in brackets.
pub open spec fn progress_prefix_spec(index: nat, total: nat) -> Seq<char> {
    "["@ + pad_left(decimal(index + 1), decimal(total).len()) + "/"@ + decimal(total) + "]"@
}

/// The counter shown before the entry at `index` of `total`.
pub fn progress_prefix(index: u64, total: u64) -> (r: String)
    requires
        index < u64::MAX,
    ensures
        r@ == progress_prefix_spec(index as nat, total as nat),
{
    let pos = decimal_text(index + 1);
    let tot = decimal_text(total);
    let mut r = owned("[");
    let ghost head = r@;
    let w = tot.unicode_len();
    let p = pos.unicode_len();
    if p < w {
        let mut k: usize = 0;
        while k < w - p
            invariant
                p < w,
                k <= w - p,
                r@ == head + spaces(k as nat),
            decreases w - p - k,
        {
            push_char(&mut r, ' ');
            k = k + 1;
            assert(r@ =~= head + spaces(k as nat));
        }
    }
    r.append(pos.as_str());
    r.append("/");
    r.append(tot.as_str());
    r.append("]");
    assert(r@ =~= progress_prefix_spec(index as nat, total as nat));
    r
}

/// The warning listing the files whose substitution was skipped because
/// of invalid template syntax.
pub open spec fn files_with_errors_spec(files: Seq<Seq<char>>) -> Seq<char> {
    "\nSubstitution skipped, found invalid syntax in\n"@ + listed(files)
        + "\nConsider adding these files to a `cargo-generate.toml` in the template repo to skip substitution on these files.\n\nLearn more: https://github.com/cargo-generate/cargo-generate#include--exclude.\n\n"@
}

/// Each file on a line of its own, after a tab.
pub open spec fn listed(files: Seq<Seq<char>>) -> Seq<char>
    decreases files.len(),
{
    if files.len() == 0 {
        Seq::empty()
    } else {
        listed(files.drop_last()) + "\t"@ + files.last() + "\n"@
    }
}

/// The warning about files whose substitution was skipped.
pub fn files_with_errors_warning(files: &Vec<String>) -> (r: String)
    ensures
        r@ == files_with_errors_spec(texts(files@)),
{
    let mut r = owned("\nSubstitution skipped, found invalid syntax in\n");
    let ghost head = r@;
    let mut i: usize = 0;
    while i < files.len()
        invariant
            i <= files.len(),
            r@ == head + listed(texts(files@).subrange(0, i as int)),
        decreases files.len() - i,
    {
        let ghost pre = texts(files@).subrange(0, i as int);
        let ghost post = texts(files@).subrange(0, i + 1);
        assert(post.drop_last() =~= pre);
        r.append("\t");
        r.append(files[i].as_str());
        r.append("\n");
        i = i + 1;
        assert(r@ =~= head + listed(post));
    }
    assert(texts(files@).subrange(0, i as int) =~= texts(files@));
    r.append(
        "\nConsider adding these files to a `cargo-generate.toml` in the template repo to skip substitution on these files.\n\nLearn more: https://github.com/cargo-generate/cargo-generate#include--exclude.\n\n",
    );
    r
}

} // verus!
