//! Working out which directory of a fetched template is the template:
//! the requested subfolder, and the sub-templates a configuration lists.
use vstd::prelude::*;
use crate::absolute_path::{join_path, join_path_spec, path_starts_with, starts_with_path};
use crate::disk::{canonicalize_existing, is_existing_dir};
use crate::project_variables::{
    choices_view, Choice, ChoiceView, Prompt, StringEntry, StringKind, StringKindView, TemplateSlots,
    VarInfo, VarInfoView,
};
use crate::text::{chars_of, owned, str_eq, string_of_range, texts};
use crate::disk::path_exists;
use crate::git::gix::{last_index_of, trim_end_char, without_last_component};
use crate::project_variables::opt_text;

verus! {

/// The suffix of a file that is rendered rather than copied verbatim.
pub const LIQUID_SUFFIX: &'static str = ".liquid";

/// The name a file takes once its `.liquid` suffix is resolved, if it has
/// one.
pub open spec fn without_liquid_suffix(name: Seq<char>) -> Option<Seq<char>> {
    if name.len() >= 7 && name.subrange(name.len() - 7, name.len() as int) == ".liquid"@ {
        Some(name.subrange(0, name.len() - 7))
    } else {
        None
    }
}

/// What moving the expanded template into the project does with one
/// entry, before anything is copied.
#[derive(Debug, Clone, Copy, PartialEq, Eq, Structural)]
pub enum CopyStep {
    /// A directory: its entries are checked in turn.
    Descend,
    /// A file whose target is free: it is copied.
    Copy,
    /// A file whose target exists, with `overwrite`: the target is
    /// replaced, with a warning.
    Overwrite,
    /// A file whose target exists, without `overwrite`: the move is
    /// refused.
    RefuseExisting,
    /// Neither a directory nor a file (a symbolic link): the move is
    /// refused.
    RefuseLink,
}

/// The step for an entry of the given type whose target does or does not
/// exist.
pub open spec fn copy_entry_spec(is_dir: bool, is_file: bool, target_exists: bool, overwrite: bool) -> CopyStep {
    if is_dir {
        CopyStep::Descend
    } else if is_file {
        if !target_exists {
            CopyStep::Copy
        } else if overwrite {
            CopyStep::Overwrite
        } else {
            CopyStep::RefuseExisting
        }
    } else {
        CopyStep::RefuseLink
    }
}

/// Decides what happens to one entry of the expanded template.
pub fn copy_entry_step(is_dir: bool, is_file: bool, target_exists: bool, overwrite: bool) -> (r: CopyStep)
    ensures
        r == copy_entry_spec(is_dir, is_file, target_exists, overwrite),
{
    if is_dir {
        CopyStep::Descend
    } else if is_file {
        if !target_exists {
            CopyStep::Copy
        } else if overwrite {
            CopyStep::Overwrite
        } else {
            CopyStep::RefuseExisting
        }
    } else {
        CopyStep::RefuseLink
    }
}

/// Whether a directory is copied along: the `.git` directory is not.
pub fn copies_directory(name: &str) -> (r: bool)
    ensures
        r == (name@ != ".git"@),
{
    !crate::text::str_eq(name, ".git")
}

/// The path a `.liquid` file is renamed to, if it is one.
pub fn liquid_target(path: &str) -> (r: Option<String>)
    ensures
        match without_liquid_suffix(path@) {
            Some(p) => r is Some && r->Some_0@ == p,
            None => r is None,
        },
{
    let v = crate::text::chars_of(path);
    let n = v.len();
    if n >= 7 && v[n - 7] == '.' && v[n - 6] == 'l' && v[n - 5] == 'i' && v[n - 4] == 'q' && v[n
        - 3] == 'u' && v[n - 2] == 'i' && v[n - 1] == 'd' {
        proof {
            reveal_strlit(".liquid");
            assert(v@.subrange(n - 7, n as int) =~= ".liquid"@);
        }
        Some(crate::text::string_of_range(&v, 0, n - 7))
    } else {
        proof {
            reveal_strlit(".liquid");
            if n >= 7 && v@.subrange(n - 7, n as int) == ".liquid"@ {
                assert(v@[n - 7] == v@.subrange(n - 7, n as int)[0]);
                assert(v@[n - 6] == v@.subrange(n - 7, n as int)[1]);
                assert(v@[n - 5] == v@.subrange(n - 7, n as int)[2]);
                assert(v@[n - 4] == v@.subrange(n - 7, n as int)[3]);
                assert(v@[n - 3] == v@.subrange(n - 7, n as int)[4]);
                assert(v@[n - 2] == v@.subrange(n - 7, n as int)[5]);
                assert(v@[n - 1] == v@.subrange(n - 7, n as int)[6]);
            }
        }
        None
    }
}

/// Why a requested subfolder cannot be the template.
pub open spec fn subfolder_outcome_spec(
    base: Seq<char>,
    subfolder: Seq<char>,
    canonical_base: Option<Seq<char>>,
    canonical_dir: Option<Seq<char>>,
    is_dir: bool,
) -> Result<Seq<char>, Seq<char>> {
    match canonical_base {
        None => Err("failed to canonicalize path `"@ + base + "`"@),
        Some(b) => match canonical_dir {
            None => Err("not able to find subfolder '"@ + subfolder + "' in source template"@),
            Some(d) => if !starts_with_path(d, b) {
                Err(
                    "Subfolder Error: Invalid subfolder. Must be part of the template folder structure."@,
                )
            } else if !is_dir {
                Err("Subfolder Error: The specified subfolder must be a valid folder."@)
            } else {
                Ok(d)
            },
        },
    }
}

/// Where the subfolder `subfolder` of `base` leads, given what the disk
/// answered: the canonical base, the canonical subfolder, and whether it
/// is a directory. It must stay inside the base and be a directory.
pub fn subfolder_outcome(
    base: &str,
    subfolder: &str,
    canonical_base: Option<String>,
    canonical_dir: Option<String>,
    is_dir: bool,
) -> (r: Result<String, String>)
    ensures
        match subfolder_outcome_spec(
            base@,
            subfolder@,
            match canonical_base {
                Some(b) => Some(b@),
                None => None,
            },
            match canonical_dir {
                Some(d) => Some(d@),
                None => None,
            },
            is_dir,
        ) {
            Ok(p) => r is Ok && r->Ok_0@ == p,
            Err(e) => r is Err && r->Err_0@ == e,
        },
{
    let b = match canonical_base {
        None => {
            let mut s = owned("failed to canonicalize path `");
            s.append(base);
            s.append("`");
            return Err(s);
        },
        Some(b) => b,
    };
    let d = match canonical_dir {
        None => {
            let mut s = owned("not able to find subfolder '");
            s.append(subfolder);
            s.append("' in source template");
            return Err(s);
        },
        Some(d) => d,
    };
    if !path_starts_with(d.as_str(), b.as_str()) {
        return Err(
            owned(
                "Subfolder Error: Invalid subfolder. Must be part of the template folder structure.",
            ),
        );
    }
    if !is_dir {
        return Err(owned("Subfolder Error: The specified subfolder must be a valid folder."));
    }
    Ok(d)
}

/// Joins the subfolder to the template's base directory, making sure that
/// the result stays within the template. Without a subfolder the base is
/// the template. Which directories exist is up to the disk; a subfolder
/// that is accepted always lies inside the canonical base.
pub fn resolve_template_dir_subfolder(base: &str, subfolder: Option<&str>) -> (r: Result<
    String,
    String,
>)
    ensures
        subfolder is None ==> r is Ok && r->Ok_0@ == base@,
        subfolder matches Some(s) ==> exists|cb: Option<Seq<char>>, cd: Option<Seq<char>>, d: bool|
            match #[trigger] subfolder_outcome_spec(base@, s@, cb, cd, d) {
                Ok(p) => r is Ok && r->Ok_0@ == p,
                Err(e) => r is Err && r->Err_0@ == e,
            },
{
    match subfolder {
        None => Ok(owned(base)),
        Some(sub) => {
            let canonical_base = canonicalize_existing(base);
            let canonical_dir = match &canonical_base {
                Some(b) => canonicalize_existing(join_path(b.as_str(), sub).as_str()),
                None => None,
            };
            let is_dir = match &canonical_dir {
                Some(d) => is_existing_dir(d.as_str()),
                None => false,
            };
            let ghost cb = crate::project_variables::opt_text(canonical_base);
            let ghost cd = crate::project_variables::opt_text(canonical_dir);
            let r = subfolder_outcome(base, sub, canonical_base, canonical_dir, is_dir);
            assert(match subfolder_outcome_spec(base@, sub@, cb, cd, is_dir) {
                Ok(p) => r is Ok && r->Ok_0@ == p,
                Err(e) => r is Err && r->Err_0@ == e,
            });
            r
        },
    }
}

/// The question that picks one template among `options`, the first being
/// the default.
pub open spec fn selection_slot_spec(prompt: Seq<char>, options: Seq<Seq<char>>) -> crate::project_variables::SlotView {
    crate::project_variables::SlotView {
        var_name: "Template"@,
        var_info: VarInfoView::String {
            default: Some(options[0]),
            kind: StringKindView::Choices(
                options.map_values(|o: Seq<char>| ChoiceView { value: o, label: o }),
            ),
            regex: None,
        },
        prompt,
        prompt_with_default: prompt,
    }
}

/// Builds the question that picks one of `options`.
fn selection_slot(prompt: &str, options: &Vec<String>) -> (r: TemplateSlots)
    requires
        options.len() > 0,
    ensures
        r@ == selection_slot_spec(prompt@, texts(options@)),
{
    let mut choices: Vec<Choice> = Vec::new();
    let mut i: usize = 0;
    while i < options.len()
        invariant
            i <= options.len(),
            choices.len() == i,
            forall|j: int| 0 <= j < i ==> #[trigger] choices@[j]@ == (ChoiceView {
                value: options@[j]@,
                label: options@[j]@,
            }),
        decreases options.len() - i,
    {
        choices.push(Choice::new(options[i].clone()));
        i = i + 1;
    }
    assert(choices_view(choices@) =~= texts(options@).map_values(
        |o: Seq<char>| ChoiceView { value: o, label: o },
    ));
    let p = Prompt::new(owned(prompt), None);
    TemplateSlots {
        var_name: owned("Template"),
        var_info: VarInfo::String {
            entry: Box::new(
                StringEntry {
                    default: Some(options[0].clone()),
                    kind: StringKind::Choices(choices),
                    regex: None,
                },
            ),
        },
        prompt: p,
    }
}

/// The next step in finding the template inside a fetched directory,
/// given the relative directories that hold a configuration file.
pub enum LocateStep {
    /// No configuration: the directory is the template.
    Here,
    /// One configuration: read it, in this directory, for sub-templates.
    Single(String),
    /// Several: ask which one, then look again in the chosen directory.
    Ask(TemplateSlots),
}

/// The question asked when several templates are found.
pub open spec fn which_template_prompt() -> Seq<char> {
    "Which template should be expanded?"@
}

/// The question asked when a configuration lists sub-templates.
pub open spec fn which_sub_template_prompt() -> Seq<char> {
    "Which sub-template should be expanded?"@
}

/// Decides the next step from the directories holding a configuration.
pub fn locate_step(base: &str, config_paths: &Vec<String>) -> (r: LocateStep)
    ensures
        config_paths.len() == 0 ==> r is Here,
        config_paths.len() == 1 ==> (r matches LocateStep::Single(d) && d@ == join_path_spec(
            base@,
            config_paths@[0]@,
        )),
        config_paths.len() > 1 ==> (r matches LocateStep::Ask(s) && s@ == selection_slot_spec(
            which_template_prompt(),
            texts(config_paths@),
        )),
{
    if config_paths.len() == 0 {
        LocateStep::Here
    } else if config_paths.len() == 1 {
        LocateStep::Single(join_path(base, config_paths[0].as_str()))
    } else {
        LocateStep::Ask(selection_slot("Which template should be expanded?", config_paths))
    }
}

/// The question that picks one of the sub-templates a configuration lists.
pub fn sub_template_slot(sub_templates: &Vec<String>) -> (r: TemplateSlots)
    requires
        sub_templates.len() > 0,
    ensures
        r@ == selection_slot_spec(which_sub_template_prompt(), texts(sub_templates@)),
{
    selection_slot("Which sub-template should be expanded?", sub_templates)
}

/// The answer used in silent mode: the default of a text question.
pub open spec fn default_answer_spec(slot: crate::project_variables::SlotView) -> Option<Seq<char>> {
    match slot.var_info {
        VarInfoView::String { default, .. } => default,
        _ => None,
    }
}

/// The default answer of a text question, if it has one.
pub fn default_answer(slot: &TemplateSlots) -> (r: Option<String>)
    ensures
        match default_answer_spec(slot@) {
            Some(d) => r is Some && r->Some_0@ == d,
            None => r is None,
        },
{
    match &slot.var_info {
        VarInfo::String { entry } => match &entry.default {
            Some(d) => Some(d.clone()),
            None => None,
        },
        _ => None,
    }
}

/// The refusal in silent mode when a question has no default.
pub open spec fn no_default_message(var_name: Seq<char>) -> Seq<char> {
    "Option `--silent` provided, but `"@ + var_name + "` has no default value."@
}

/// In silent mode the default answers; its absence is refused.
pub fn silent_answer(slot: &TemplateSlots) -> (r: Result<String, String>)
    ensures
        match default_answer_spec(slot@) {
            Some(d) => r is Ok && r->Ok_0@ == d,
            None => r is Err && r->Err_0@ == no_default_message(slot.var_name@),
        },
{
    match default_answer(slot) {
        Some(d) => Ok(d),
        None => {
            let mut s = owned("Option `--silent` provided, but `");
            s.append(slot.var_name.as_str());
            s.append("` has no default value.");
            Err(s)
        },
    }
}

/// Picks a sub-template: in silent mode the question's default (refused
/// when it has none), otherwise whatever `prompt` answers.
pub fn select_sub_template<F: FnOnce(&TemplateSlots) -> Result<String, String>>(
    slots: &TemplateSlots,
    silent: bool,
    prompt: F,
) -> (r: Result<String, String>)
    requires
        !silent ==> call_requires(prompt, (slots,)),
    ensures
        silent ==> match default_answer_spec(slots@) {
            Some(d) => r is Ok && r->Ok_0@ == d,
            None => r is Err && r->Err_0@ == no_default_message(slots.var_name@),
        },
        !silent ==> call_ensures(prompt, (slots,), r),
{
    if !silent {
        return prompt(slots);
    }
    silent_answer(slots)
}

/// A trimmed prefix: `trim_end_char(s, c)` is `s` cut short.
proof fn lemma_trim_end_prefix(s: Seq<char>, c: char)
    ensures
        trim_end_char(s, c).len() <= s.len(),
        trim_end_char(s, c) == s.subrange(0, trim_end_char(s, c).len() as int),
    decreases s.len(),
{
    if s.len() > 0 && s.last() == c {
        lemma_trim_end_prefix(s.drop_last(), c);
        assert(s.drop_last().subrange(0, trim_end_char(s, c).len() as int) =~= s.subrange(
            0,
            trim_end_char(s, c).len() as int,
        ));
    } else {
        assert(s.subrange(0, s.len() as int) =~= s);
    }
}

/// What `trim_end_char` leaves does not end in the trimmed character.
proof fn lemma_trim_end_last(s: Seq<char>, c: char)
    ensures
        trim_end_char(s, c).len() > 0 ==> trim_end_char(s, c).last() != c,
    decreases s.len(),
{
    if s.len() > 0 && s.last() == c {
        lemma_trim_end_last(s.drop_last(), c);
    }
}

/// The last `c` of `s` lies within `s`.
proof fn lemma_last_index_in(s: Seq<char>, c: char)
    ensures
        last_index_of(s, c) matches Some(i) ==> 0 <= i < s.len() && s[i] == c,
    decreases s.len(),
{
    if s.len() > 0 && s.last() != c {
        lemma_last_index_in(s.drop_last(), c);
    }
}

/// A directory as text: without trailing separators, the root kept as
/// `/`.
pub open spec fn dir_text(p: Seq<char>) -> Seq<char> {
    let t = trim_end_char(p, '/');
    if t.len() == 0 && p.len() > 0 {
        "/"@
    } else {
        t
    }
}

/// The parent directory of `p`, as `Path::parent` gives it for a path
/// made of `/` and plain components: `p` without its last component and
/// the separators before it (the root stays `/`); `""` for a single
/// relative component; none for the root or the empty path.
pub open spec fn path_parent(p: Seq<char>) -> Option<Seq<char>> {
    let t = trim_end_char(p, '/');
    if t.len() == 0 {
        None
    } else {
        match last_index_of(t, '/') {
            None => Some(Seq::empty()),
            Some(i) => Some(dir_text(t.subrange(0, i + 1))),
        }
    }
}

/// A parent is shorter than its child.
pub proof fn lemma_parent_shorter(p: Seq<char>)
    ensures
        path_parent(p) matches Some(q) ==> q.len() < p.len(),
{
    let t = trim_end_char(p, '/');
    lemma_trim_end_prefix(p, '/');
    lemma_last_index_in(t, '/');
    if t.len() > 0 {
        match last_index_of(t, '/') {
            Some(i) => {
                let h = t.subrange(0, i + 1);
                lemma_trim_end_prefix(h, '/');
                assert(h.last() == '/');
                assert(trim_end_char(h, '/') == trim_end_char(h.drop_last(), '/'));
                lemma_trim_end_prefix(h.drop_last(), '/');
                assert(trim_end_char(h, '/').len() <= i);
                assert(t.last() != '/') by {
                    lemma_trim_end_last(p, '/');
                }
                assert(i < t.len());
                reveal_strlit("/");
                assert(dir_text(h).len() < p.len());
            },
            None => {},
        }
    }
}

/// The directories searched for a file from `folder` up: each parent in
/// turn, stopping after `base` or at the root.
pub open spec fn search_dirs(folder: Seq<char>, base: Seq<char>) -> Seq<Seq<char>>
    decreases folder.len(),
{
    if dir_text(folder) == dir_text(base) {
        seq![folder]
    } else {
        match path_parent(folder) {
            None => seq![folder],
            Some(q) => {
                proof {
                    lemma_parent_shorter(folder);
                }
                seq![folder] + search_dirs(q, base)
            },
        }
    }
}

/// Whether the search from `folder` up reaches `base`.
pub open spec fn search_reaches_base(folder: Seq<char>, base: Seq<char>) -> bool
    decreases folder.len(),
{
    if dir_text(folder) == dir_text(base) {
        true
    } else {
        match path_parent(folder) {
            None => false,
            Some(q) => {
                proof {
                    lemma_parent_shorter(folder);
                }
                search_reaches_base(q, base)
            },
        }
    }
}

/// The message when the file is not in `base` or below it on the way.
pub open spec fn file_not_found_message() -> Seq<char> {
    "File not found within template"@
}

/// The message when the search passed the root without meeting `base`.
pub open spec fn reached_root_message() -> Seq<char> {
    "Reached root folder"@
}

/// The length of `v[..end]` without its trailing separators.
fn trim_slashes_end(v: &Vec<char>, end: usize) -> (r: usize)
    requires
        end <= v.len(),
    ensures
        r <= end,
        v@.subrange(0, r as int) == trim_end_char(v@.subrange(0, end as int), '/'),
{
    let mut k = end;
    while k > 0 && v[k - 1] == '/'
        invariant
            k <= end <= v.len(),
            trim_end_char(v@.subrange(0, end as int), '/') == trim_end_char(
                v@.subrange(0, k as int),
                '/',
            ),
        decreases k,
    {
        assert(v@.subrange(0, k as int).drop_last() =~= v@.subrange(0, k - 1));
        k = k - 1;
    }
    k
}

/// `dir_text` of `v[..end]`.
fn dir_text_of(v: &Vec<char>, end: usize) -> (r: String)
    requires
        end <= v.len(),
    ensures
        r@ == dir_text(v@.subrange(0, end as int)),
{
    let t = trim_slashes_end(v, end);
    if t == 0 && end > 0 {
        proof {
            reveal_strlit("/");
        }
        owned("/")
    } else {
        string_of_range(v, 0, t)
    }
}

/// Whether `a` and `b` name the same directory as text.
fn same_dir(a: &str, b: &str) -> (r: bool)
    ensures
        r == (dir_text(a@) == dir_text(b@)),
{
    let va = chars_of(a);
    let vb = chars_of(b);
    assert(va@.subrange(0, va@.len() as int) =~= va@);
    assert(vb@.subrange(0, vb@.len() as int) =~= vb@);
    let ta = dir_text_of(&va, va.len());
    let tb = dir_text_of(&vb, vb.len());
    str_eq(ta.as_str(), tb.as_str())
}

/// The parent directory of `p`.
pub fn parent_dir(p: &str) -> (r: Option<String>)
    ensures
        opt_text(r) == path_parent(p@),
{
    let v = chars_of(p);
    assert(v@.subrange(0, v@.len() as int) =~= v@);
    let t = trim_slashes_end(&v, v.len());
    if t == 0 {
        return None;
    }
    let ghost tv = v@.subrange(0, t as int);
    let k = without_last_component(&v, t);
    proof {
        lemma_last_index_in(tv, '/');
    }
    if k == t {
        assert(last_index_of(tv, '/') is None) by {
            if let Some(i) = last_index_of(tv, '/') {
                assert(v@.subrange(0, k as int) =~= tv.subrange(0, i));
            }
        }
        return Some(String::new());
    }
    assert(last_index_of(tv, '/') == Some(k as int)) by {
        match last_index_of(tv, '/') {
            Some(i) => {
                assert(v@.subrange(0, k as int) == tv.subrange(0, i));
            },
            None => {},
        }
    }
    assert(tv.subrange(0, k + 1) =~= v@.subrange(0, k + 1));
    Some(dir_text_of(&v, k + 1))
}

/// The paths where `name` is looked for, nearest first: in `folder`, then
/// in each parent up to `base` or the root.
pub open spec fn template_file_candidates_spec(name: Seq<char>, base: Seq<char>, folder: Seq<char>) -> Seq<Seq<char>> {
    search_dirs(folder, base).map_values(|d: Seq<char>| join_path_spec(d, name))
}

/// The message when no candidate exists: the search met `base`, or it
/// passed the root.
pub open spec fn search_failure_message(reaches_base: bool) -> Seq<char> {
    if reaches_base {
        file_not_found_message()
    } else {
        reached_root_message()
    }
}

/// `r` is what the search gives when `probes` tells which of `candidates`
/// exist: the nearest existing candidate, else the failure message.
pub open spec fn is_nearest_outcome(
    candidates: Seq<Seq<char>>,
    probes: Seq<bool>,
    reaches_base: bool,
    r: Result<Seq<char>, Seq<char>>,
) -> bool {
    match r {
        Ok(p) => exists|i: int|
            0 <= i < probes.len() && #[trigger] probes[i] && (forall|j: int|
                0 <= j < i ==> !#[trigger] probes[j]) && p == candidates[i],
        Err(e) => (forall|j: int| 0 <= j < probes.len() ==> !#[trigger] probes[j])
            && e == search_failure_message(reaches_base),
    }
}

/// The disk's answers decide the search: for given answers there is one
/// outcome. A candidate that exists, with none nearer existing, is the
/// result; a farther existing candidate never is; with none existing the
/// search fails.
pub proof fn lemma_nearest_candidate_wins(
    candidates: Seq<Seq<char>>,
    probes: Seq<bool>,
    reaches_base: bool,
    r1: Result<Seq<char>, Seq<char>>,
    r2: Result<Seq<char>, Seq<char>>,
    i: int,
)
    requires
        candidates.len() == probes.len(),
    ensures
        is_nearest_outcome(candidates, probes, reaches_base, r1) && is_nearest_outcome(
            candidates,
            probes,
            reaches_base,
            r2,
        ) ==> r1 == r2,
        0 <= i < probes.len() && probes[i] && (forall|j: int| 0 <= j < i ==> !probes[j])
            && is_nearest_outcome(candidates, probes, reaches_base, r1) ==> r1 == Ok::<
            Seq<char>,
            Seq<char>,
        >(candidates[i]),
        0 <= i < probes.len() && probes[i] && is_nearest_outcome(
            candidates,
            probes,
            reaches_base,
            r1,
        ) ==> r1 is Ok && exists|k: int| 0 <= k <= i && probes[k] && r1->Ok_0 == candidates[k],
{
    if is_nearest_outcome(candidates, probes, reaches_base, r1) && is_nearest_outcome(
        candidates,
        probes,
        reaches_base,
        r2,
    ) {
        match (r1, r2) {
            (Ok(p1), Ok(p2)) => {
                let a = choose|a: int|
                    0 <= a < probes.len() && #[trigger] probes[a] && (forall|j: int|
                        0 <= j < a ==> !#[trigger] probes[j]) && p1 == candidates[a];
                let b = choose|b: int|
                    0 <= b < probes.len() && #[trigger] probes[b] && (forall|j: int|
                        0 <= j < b ==> !#[trigger] probes[j]) && p2 == candidates[b];
                if a < b {
                    assert(!probes[a]);
                } else if b < a {
                    assert(!probes[b]);
                }
            },
            (Ok(p1), Err(_)) => {
                let a = choose|a: int|
                    0 <= a < probes.len() && #[trigger] probes[a] && (forall|j: int|
                        0 <= j < a ==> !#[trigger] probes[j]) && p1 == candidates[a];
                assert(!probes[a]);
            },
            (Err(_), Ok(p2)) => {
                let b = choose|b: int|
                    0 <= b < probes.len() && #[trigger] probes[b] && (forall|j: int|
                        0 <= j < b ==> !#[trigger] probes[j]) && p2 == candidates[b];
                assert(!probes[b]);
            },
            (Err(_), Err(_)) => {},
        }
    }
    if 0 <= i < probes.len() && probes[i] && is_nearest_outcome(candidates, probes, reaches_base, r1) {
        match r1 {
            Ok(p1) => {
                let a = choose|a: int|
                    0 <= a < probes.len() && #[trigger] probes[a] && (forall|j: int|
                        0 <= j < a ==> !#[trigger] probes[j]) && p1 == candidates[a];
                if i < a {
                    assert(!probes[i]);
                }
                if (forall|j: int| 0 <= j < i ==> !probes[j]) && a < i {
                    assert(!probes[a]);
                }
            },
            Err(_) => {
                assert(!probes[i]);
            },
        }
    }
}

/// A result as text.
pub open spec fn text_result(r: Result<String, String>) -> Result<Seq<char>, Seq<char>> {
    match r {
        Ok(p) => Ok(p@),
        Err(e) => Err(e@),
    }
}

/// The candidates for `name`, nearest first, and whether the search
/// meets `base`.
pub fn template_file_candidates(name: &str, base: &str, folder: &str) -> (r: (Vec<String>, bool))
    ensures
        texts(r.0@) == template_file_candidates_spec(name@, base@, folder@),
        r.1 == search_reaches_base(folder@, base@),
{
    let ghost all = search_dirs(folder@, base@);
    let ghost mut done: Seq<Seq<char>> = Seq::empty();
    let mut out: Vec<String> = Vec::new();
    let mut search = owned(folder);
    loop
        invariant
            all == search_dirs(folder@, base@),
            all == done + search_dirs(search@, base@),
            texts(out@) == done.map_values(|d: Seq<char>| join_path_spec(d, name@)),
            search_reaches_base(folder@, base@) == search_reaches_base(search@, base@),
        decreases search@.len(),
    {
        let file_path = join_path(search.as_str(), name);
        let ghost before = out@;
        let ghost fp = file_path@;
        out.push(file_path);
        proof {
            assert(out@ == before.push(out@.last()));
            assert(out@.last()@ == fp);
            assert(texts(out@) =~= texts(before).push(fp));
            assert(texts(out@) =~= done.push(search@).map_values(
                |d: Seq<char>| join_path_spec(d, name@),
            ));
        }
        if same_dir(search.as_str(), base) {
            proof {
                assert(search_dirs(search@, base@) == seq![search@]);
                assert(all =~= done.push(search@));
            }
            return (out, true);
        }
        match parent_dir(search.as_str()) {
            None => {
                proof {
                    assert(search_dirs(search@, base@) == seq![search@]);
                    assert(all =~= done.push(search@));
                }
                return (out, false);
            },
            Some(q) => {
                proof {
                    lemma_parent_shorter(search@);
                    done = done.push(search@);
                    assert(search_dirs(search@, base@) == seq![search@] + search_dirs(q@, base@));
                    assert(all =~= done + search_dirs(q@, base@));
                }
                search = q;
            },
        }
    }
}

/// The nearest of `candidates` that exists, given for each whether it
/// does (`exists`); otherwise the failure message.
pub fn nearest_existing(candidates: &Vec<String>, exists: &Vec<bool>, reaches_base: bool) -> (r: Result<
    String,
    String,
>)
    requires
        candidates.len() == exists.len(),
    ensures
        is_nearest_outcome(texts(candidates@), exists@, reaches_base, text_result(r)),
{
    let mut i: usize = 0;
    while i < exists.len()
        invariant
            i <= exists.len(),
            candidates.len() == exists.len(),
            forall|j: int| 0 <= j < i ==> !#[trigger] exists@[j],
        decreases exists.len() - i,
    {
        if exists[i] {
            let r = candidates[i].clone();
            assert(exists@[i as int]);
            assert(texts(candidates@)[i as int] == r@);
            return Ok(r);
        }
        i = i + 1;
    }
    if reaches_base {
        proof {
            reveal_strlit("File not found within template");
        }
        Err(owned("File not found within template"))
    } else {
        proof {
            reveal_strlit("Reached root folder");
        }
        Err(owned("Reached root folder"))
    }
}

/// Finds `name` in `folder` or in one of its parents up to `base`, and
/// gives its path: the nearest candidate that exists. Which candidates
/// exist is up to the disk; [`nearest_existing`] decides from the answers.
pub fn locate_template_file(name: &str, base: &str, folder: &str) -> (r: Result<String, String>)
    ensures
        exists|probes: Seq<bool>|
            probes.len() == template_file_candidates_spec(name@, base@, folder@).len()
                && #[trigger] is_nearest_outcome(
                template_file_candidates_spec(name@, base@, folder@),
                probes,
                search_reaches_base(folder@, base@),
                text_result(r),
            ),
        r matches Err(e) ==> e@ == search_failure_message(search_reaches_base(folder@, base@)),
{
    let (candidates, reaches) = template_file_candidates(name, base, folder);
    let mut probes: Vec<bool> = Vec::new();
    let mut i: usize = 0;
    while i < candidates.len()
        invariant
            i <= candidates.len(),
            probes.len() == i,
        decreases candidates.len() - i,
    {
        probes.push(path_exists(candidates[i].as_str()));
        i = i + 1;
    }
    let r = nearest_existing(&candidates, &probes, reaches);
    assert(texts(candidates@).len() == candidates@.len());
    r
}

} // verus!
