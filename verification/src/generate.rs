//! Decisions of a generation run: the version the template asks for, the
//! project's name and the directory it goes to.
use vstd::prelude::*;
use crate::absolute_path::{join_path, join_path_spec};
use crate::args::GenerateArgs;
use crate::config::{Config, TomlValue};
use crate::project_variables::{
    field_of, find_key, lemma_key_index, ConversionError, ConversionErrorView,
};
use crate::disk::path_exists;
use crate::projectname::{kebab_case_of, ProjectName};
use crate::text::{owned, signed_decimal, signed_decimal_text, texts};

verus! {

#[verifier::external_type_specification]
#[verifier::external_body]
pub struct ExVersionReq(semver::VersionReq);

#[verifier::external_type_specification]
#[verifier::external_body]
pub struct ExVersion(semver::Version);

/// What `semver::VersionReq::parse` answers for `req`: `None` when it
/// parses, else the text of its error.
pub uninterp spec fn version_req_error(req: Seq<char>) -> Option<Seq<char>>;

/// What `semver::Version::parse` answers for `version`: `None` when it
/// parses, else the text of its error.
pub uninterp spec fn version_error(version: Seq<char>) -> Option<Seq<char>>;

/// Whether `semver::VersionReq::matches` accepts the version `version` for
/// the requirement `req`.
pub uninterp spec fn version_req_matches(req: Seq<char>, version: Seq<char>) -> bool;

/// How a parsed requirement `req` displays.
pub uninterp spec fn version_req_display(req: Seq<char>) -> Seq<char>;

/// A parsed version requirement with the text it was parsed from; only
/// [`parse_requirement`] makes one.
pub struct Requirement {
    text: String,
    parsed: semver::VersionReq,
}

impl View for Requirement {
    type V = Seq<char>;

    closed spec fn view(&self) -> Seq<char> {
        self.text@
    }
}

/// A parsed version with the text it was parsed from; only
/// [`parse_version`] makes one.
pub struct ParsedVersion {
    text: String,
    parsed: semver::Version,
}

impl View for ParsedVersion {
    type V = Seq<char>;

    closed spec fn view(&self) -> Seq<char> {
        self.text@
    }
}

/// `semver::VersionReq::parse`.
#[verifier::external_body]
fn parse_requirement(req: &str) -> (r: Result<Requirement, String>)
    ensures
        match r {
            Ok(p) => p@ == req@ && version_req_error(req@) is None,
            Err(e) => version_req_error(req@) == Some(e@),
        },
{
    match semver::VersionReq::parse(req) {
        Ok(parsed) => Ok(Requirement { text: req.to_string(), parsed }),
        Err(e) => Err(e.to_string()),
    }
}

/// `semver::Version::parse`.
#[verifier::external_body]
fn parse_version(version: &str) -> (r: Result<ParsedVersion, String>)
    ensures
        match r {
            Ok(p) => p@ == version@ && version_error(version@) is None,
            Err(e) => version_error(version@) == Some(e@),
        },
{
    match semver::Version::parse(version) {
        Ok(parsed) => Ok(ParsedVersion { text: version.to_string(), parsed }),
        Err(e) => Err(e.to_string()),
    }
}

/// `semver::VersionReq::matches`.
#[verifier::external_body]
fn requirement_matches(req: &Requirement, version: &ParsedVersion) -> (r: bool)
    ensures
        r == version_req_matches(req@, version@),
{
    req.parsed.matches(&version.parsed)
}

/// `Display` of `semver::VersionReq`.
#[verifier::external_body]
fn requirement_text(req: &Requirement) -> (r: String)
    ensures
        r@ == version_req_display(req@),
{
    req.parsed.to_string()
}

/// The refusal when the running version does not meet the requirement.
pub open spec fn version_not_met_spec(req_display: Seq<char>, version: Seq<char>) -> Seq<char> {
    "Required cargo-generate version not met. Required: "@ + req_display + "  was: "@ + version
}

/// The check of the version a template asks for (`cargo_generate_version`
/// in its `[template]` section) against the running version `version`.
pub open spec fn version_check_spec(config: Config, version: Seq<char>) -> Result<(), Seq<char>> {
    match config.template {
        Some(t) => match t.cargo_generate_version {
            Some(req) => match version_req_error(req@) {
                Some(e) => Err(e),
                None => match version_error(version) {
                    Some(e) => Err(e),
                    None => if version_req_matches(req@, version) {
                        Ok(())
                    } else {
                        Err(version_not_met_spec(version_req_display(req@), version))
                    },
                },
            },
            None => Ok(()),
        },
        None => Ok(()),
    }
}

/// Checks that the running version `version` meets the template's
/// requirement, if it states one.
pub fn check_cargo_generate_version(config: &Config, version: &str) -> (r: Result<(), String>)
    ensures
        match version_check_spec(*config, version@) {
            Ok(_) => r is Ok,
            Err(e) => r is Err && r->Err_0@ == e,
        },
{
    let req_text = match &config.template {
        Some(t) => match &t.cargo_generate_version {
            Some(req) => req,
            None => return Ok(()),
        },
        None => return Ok(()),
    };
    let req = parse_requirement(req_text.as_str())?;
    let v = parse_version(version)?;
    if requirement_matches(&req, &v) {
        Ok(())
    } else {
        let mut s = owned("Required cargo-generate version not met. Required: ");
        let shown = requirement_text(&req);
        s.append(shown.as_str());
        s.append("  was: ");
        s.append(version);
        Err(s)
    }
}

/// The project's name, when it can be had without asking.
pub open spec fn name_source_spec(name: Option<Seq<char>>, silent: bool) -> Result<
    Option<Seq<char>>,
    Seq<char>,
> {
    match name {
        Some(n) => Ok(Some(n)),
        None => if silent {
            Err(missing_name_message())
        } else {
            Ok(None)
        },
    }
}

/// The refusal when the name is missing in silent mode.
pub open spec fn missing_name_message() -> Seq<char> {
    "Project Name Error: Option `--silent` provided, but project name was not set. Please use `--name`."@
}

/// The project's name: the one given, or `None` when it must be asked for;
/// in silent mode a missing name is refused.
pub fn resolve_project_name(name: &Option<String>, silent: bool) -> (r: Result<
    Option<ProjectName>,
    String,
>)
    ensures
        match name_source_spec(
            match name {
                Some(n) => Some(n@),
                None => None,
            },
            silent,
        ) {
            Ok(Some(n)) => r is Ok && r->Ok_0 is Some && r->Ok_0->Some_0.user_input@ == n,
            Ok(None) => r is Ok && r->Ok_0 is None,
            Err(e) => r is Err && r->Err_0@ == e,
        },
{
    match name {
        Some(n) => Ok(Some(ProjectName::new(n.as_str()))),
        None => if silent {
            Err(
                owned(
                    "Project Name Error: Option `--silent` provided, but project name was not set. Please use `--name`.",
                ),
            )
        } else {
            Ok(None)
        },
    }
}

/// The name of the project's directory: the name as typed with `--force`,
/// else its kebab case.
pub open spec fn dir_name_spec(name: Seq<char>, force: bool) -> Seq<char> {
    if force {
        name
    } else {
        kebab_case_of(name)
    }
}

/// Whether the user is told that the project is renamed: when the
/// directory takes the kebab case and the name is not already in it.
pub open spec fn renames_spec(name: Seq<char>, force: bool) -> bool {
    !force && name != kebab_case_of(name)
}

/// Whether the project will be renamed, which calls for a warning.
pub fn renames_project(name: &ProjectName, force: bool) -> (r: bool)
    ensures
        r == renames_spec(name.user_input@, force),
{
    !force && !name.is_crate_name()
}

/// The refusal when the project's directory exists.
pub open spec fn dir_exists_message() -> Seq<char> {
    "Target directory already exists, aborting!"@
}

/// Where the project goes: the destination (else the working directory
/// `cwd`) itself when initializing in place, else the directory named
/// after the project inside it, which must not exist yet.
pub fn resolve_project_dir(
    name: &ProjectName,
    destination: &Option<String>,
    cwd: &str,
    init: bool,
    force: bool,
) -> (r: Result<String, String>)
    ensures
        ({
            let base = match destination {
                Some(d) => d@,
                None => cwd@,
            };
            &&& init ==> r is Ok && r->Ok_0@ == base
            &&& !init ==> match r {
                Ok(p) => p@ == join_path_spec(base, dir_name_spec(name.user_input@, force)),
                Err(e) => e@ == dir_exists_message(),
            }
        }),
{
    let base = match destination {
        Some(d) => d.clone(),
        None => owned(cwd),
    };
    if init {
        return Ok(base);
    }
    let dir_name = if force {
        name.user_input.clone()
    } else {
        name.kebab_case()
    };
    let project_dir = join_path(base.as_str(), dir_name.as_str());
    if path_exists(project_dir.as_str()) {
        return Err(owned("Target directory already exists, aborting!"));
    }
    Ok(project_dir)
}

/// The text a value given for a placeholder stands for: strings, numbers,
/// booleans and dates as they print; lists and tables stand for nothing.
pub open spec fn provided_text_spec(v: TomlValue) -> Option<Seq<char>> {
    match v {
        TomlValue::String(s) => Some(s@),
        TomlValue::Integer(i) => Some(signed_decimal(i as int)),
        TomlValue::Float(f) => Some(f@),
        TomlValue::Boolean(b) => Some(
            if b {
                "true"@
            } else {
                "false"@
            },
        ),
        TomlValue::Datetime(d) => Some(d@),
        _ => None,
    }
}

/// The text a value given for a placeholder stands for.
pub fn provided_text(v: &TomlValue) -> (r: Option<String>)
    ensures
        match provided_text_spec(*v) {
            Some(t) => r is Some && r->Some_0@ == t,
            None => r is None,
        },
{
    match v {
        TomlValue::String(s) => Some(s.clone()),
        TomlValue::Integer(i) => Some(signed_decimal_text(*i)),
        TomlValue::Float(f) => Some(f.clone()),
        TomlValue::Boolean(b) => Some(
            if *b {
                owned("true")
            } else {
                owned("false")
            },
        ),
        TomlValue::Datetime(d) => Some(d.clone()),
        _ => None,
    }
}

/// The value given in advance for the placeholder `var_name`, among
/// `values`; in silent mode there must be one, as nobody can be asked.
pub open spec fn given_answer_spec(
    var_name: Seq<char>,
    values: Seq<(String, TomlValue)>,
    silent: bool,
) -> Result<Option<Seq<char>>, ConversionErrorView> {
    let given = match field_of(values, var_name) {
        Some(v) => provided_text_spec(v),
        None => None,
    };
    if given is None && silent {
        Err(ConversionErrorView::MissingDefaultValueForPlaceholderVariable { var_name })
    } else {
        Ok(given)
    }
}

/// Finds the value given in advance for the placeholder `var_name`.
pub fn given_answer(var_name: &str, values: &Vec<(String, TomlValue)>, silent: bool) -> (r: Result<
    Option<String>,
    ConversionError,
>)
    ensures
        match given_answer_spec(var_name@, values@, silent) {
            Ok(Some(t)) => r is Ok && r->Ok_0 is Some && r->Ok_0->Some_0@ == t,
            Ok(None) => r is Ok && r->Ok_0 is None,
            Err(e) => r is Err && r->Err_0@ == e,
        },
{
    proof {
        lemma_key_index(values@, var_name@);
    }
    let given = match find_key(values, var_name) {
        Some(i) => provided_text(&values[i].1),
        None => None,
    };
    if given.is_none() && silent {
        return Err(
            ConversionError::MissingDefaultValueForPlaceholderVariable { var_name: owned(var_name) },
        );
    }
    Ok(given)
}

/// A value given for a name that no placeholder asks for, as a template
/// sees it.
#[derive(Debug, Clone, PartialEq, Eq)]
pub enum ProvidedLiteral {
    Text(String),
    Flag(bool),
}

/// The refusal of a given value that is neither a string nor a boolean.
pub open spec fn unsupported_value_message() -> Seq<char> {
    "Unsupported value type. Only Strings and Booleans are supported."@
}

/// Whether `l` is what the given value `v` stands for.
pub open spec fn literal_of(l: ProvidedLiteral, v: TomlValue) -> bool {
    match v {
        TomlValue::String(s) => l matches ProvidedLiteral::Text(t) && t@ == s@,
        TomlValue::Boolean(b) => l matches ProvidedLiteral::Flag(c) && c == b,
        _ => false,
    }
}

/// A value a template can be given without a placeholder.
pub open spec fn supported_value(v: TomlValue) -> bool {
    v is String || v is Boolean
}

/// The given values, in order, whose names are neither among `known` nor
/// given before; none when one of them is neither a string nor a
/// boolean.
pub open spec fn missing_provided_spec(
    known: Seq<Seq<char>>,
    values: Seq<(String, TomlValue)>,
) -> Option<Seq<(Seq<char>, TomlValue)>>
    decreases values.len(),
{
    if values.len() == 0 {
        Some(Seq::empty())
    } else if known.contains(values[0].0@) {
        missing_provided_spec(known, values.drop_first())
    } else if !supported_value(values[0].1) {
        None
    } else {
        match missing_provided_spec(known.push(values[0].0@), values.drop_first()) {
            Some(rest) => Some(seq![(values[0].0@, values[0].1)] + rest),
            None => None,
        }
    }
}

/// `out` in front of `r`, when `r` is some.
pub open spec fn prefixed(
    out: Seq<(Seq<char>, TomlValue)>,
    r: Option<Seq<(Seq<char>, TomlValue)>>,
) -> Option<Seq<(Seq<char>, TomlValue)>> {
    match r {
        Some(x) => Some(out + x),
        None => None,
    }
}

/// Whether `s` is one of `v`.
fn contains_text(v: &Vec<String>, s: &str) -> (r: bool)
    ensures
        r == texts(v@).contains(s@),
{
    let mut i: usize = 0;
    while i < v.len()
        invariant
            i <= v.len(),
            forall|j: int| 0 <= j < i ==> v@[j]@ != s@,
        decreases v.len() - i,
    {
        if crate::text::str_eq(v[i].as_str(), s) {
            assert(texts(v@)[i as int] == s@);
            return true;
        }
        i = i + 1;
    }
    assert(!texts(v@).contains(s@)) by {
        if texts(v@).contains(s@) {
            let j = choose|j: int| 0 <= j < texts(v@).len() && texts(v@)[j] == s@;
            assert(v@[j]@ == s@);
        }
    }
    false
}

/// The values given for names that the template's variables (`known`) do
/// not hold yet, each as the template sees it; refused when one of them
/// is neither a string nor a boolean.
pub fn missing_provided_values(known: &Vec<String>, values: &Vec<(String, TomlValue)>) -> (r: Result<
    Vec<(String, ProvidedLiteral)>,
    String,
>)
    ensures
        match missing_provided_spec(texts(known@), values@) {
            Some(m) => r is Ok && r->Ok_0.len() == m.len() && forall|i: int|
                0 <= i < m.len() ==> (#[trigger] r->Ok_0[i]).0@ == m[i].0 && literal_of(
                    r->Ok_0[i].1,
                    m[i].1,
                ),
            None => r is Err && r->Err_0@ == unsupported_value_message(),
        },
{
    let mut seen: Vec<String> = known.clone();
    let mut out: Vec<(String, ProvidedLiteral)> = Vec::new();
    let ghost mut done: Seq<(Seq<char>, TomlValue)> = Seq::empty();
    let mut i: usize = 0;
    assert(values@.subrange(0, values@.len() as int) =~= values@);
    assert(seen@ == known@);
    while i < values.len()
        invariant
            i <= values.len(),
            missing_provided_spec(texts(known@), values@) == prefixed(
                done,
                missing_provided_spec(texts(seen@), values@.subrange(i as int, values@.len() as int)),
            ),
            out.len() == done.len(),
            forall|j: int|
                0 <= j < done.len() ==> (#[trigger] out@[j]).0@ == done[j].0 && literal_of(
                    out@[j].1,
                    done[j].1,
                ),
        decreases values.len() - i,
    {
        let ghost rest = values@.subrange(i as int, values@.len() as int);
        assert(rest.drop_first() =~= values@.subrange(i + 1, values@.len() as int));
        assert(rest[0] == values@[i as int]);
        let key = &values[i].0;
        if contains_text(&seen, key.as_str()) {
            i = i + 1;
            continue;
        }
        let lit = match &values[i].1 {
            TomlValue::String(t) => ProvidedLiteral::Text(t.clone()),
            TomlValue::Boolean(b) => ProvidedLiteral::Flag(*b),
            _ => {
                proof {
                    reveal_strlit("Unsupported value type. Only Strings and Booleans are supported.");
                }
                return Err(owned("Unsupported value type. Only Strings and Booleans are supported."));
            },
        };
        proof {
            assert(texts(seen@).push(key@) =~= texts(seen@.push(*key)));
            let ghost m = missing_provided_spec(texts(seen@).push(key@), rest.drop_first());
            assert(prefixed(done, missing_provided_spec(texts(seen@), rest)) == prefixed(
                done.push((key@, values@[i as int].1)),
                m,
            )) by {
                match m {
                    Some(x) => {
                        assert(done + (seq![(key@, values@[i as int].1)] + x) =~= done.push(
                            (key@, values@[i as int].1),
                        ) + x);
                    },
                    None => {},
                }
            }
            done = done.push((key@, values@[i as int].1));
        }
        seen.push(key.clone());
        out.push((key.clone(), lit));
        i = i + 1;
    }
    assert(done + Seq::<(Seq<char>, TomlValue)>::empty() =~= done);
    Ok(out)
}

/// Whether the tip about the upcoming interface is shown: only to an
/// interactive, coloured terminal, outside silent mode and the favorites
/// listing, and when the user did not turn tips off.
pub open spec fn shows_tip_spec(
    silent: bool,
    list_favorites: bool,
    no_tip_set: bool,
    no_color_set: bool,
    stderr_is_terminal: bool,
) -> bool {
    !(silent || list_favorites || no_tip_set || no_color_set || !stderr_is_terminal)
}

/// Decides whether to show the tip.
pub fn shows_tip(
    silent: bool,
    list_favorites: bool,
    no_tip_set: bool,
    no_color_set: bool,
    stderr_is_terminal: bool,
) -> (r: bool)
    ensures
        r == shows_tip_spec(silent, list_favorites, no_tip_set, no_color_set, stderr_is_terminal),
{
    !(silent || list_favorites || no_tip_set || no_color_set || !stderr_is_terminal)
}

/// The position of the first `--test` argument, if any.
pub open spec fn test_flag_index(args: Seq<Seq<char>>) -> Option<int>
    decreases args.len(),
{
    if args.len() == 0 {
        None
    } else if args[0] == "--test"@ {
        Some(0)
    } else {
        match test_flag_index(args.drop_first()) {
            Some(i) => Some(i + 1),
            None => None,
        }
    }
}

proof fn lemma_test_flag_index(args: Seq<Seq<char>>)
    ensures
        test_flag_index(args) matches Some(i) ==> 0 <= i < args.len() && args[i] == "--test"@,
    decreases args.len(),
{
    if args.len() > 0 && args[0] != "--test"@ {
        lemma_test_flag_index(args.drop_first());
    }
}

/// The command line cut after the first `--test`: the arguments up to
/// and including it are the generator's, the rest go to the test command.
pub open spec fn split_test_args_spec(args: Seq<Seq<char>>) -> (Seq<Seq<char>>, Seq<Seq<char>>) {
    match test_flag_index(args) {
        Some(i) => (args.subrange(0, i + 1), args.subrange(i + 1, args.len() as int)),
        None => (args, Seq::empty()),
    }
}

/// Cuts the command line after the first `--test`.
pub fn split_test_args(args: &Vec<String>) -> (r: (Vec<String>, Vec<String>))
    ensures
        (texts(r.0@), texts(r.1@)) == split_test_args_spec(texts(args@)),
{
    let ghost a = texts(args@);
    proof {
        lemma_test_flag_index(a);
    }
    let mut mine: Vec<String> = Vec::new();
    let mut rest: Vec<String> = Vec::new();
    let mut seen = false;
    let mut i: usize = 0;
    assert(a.subrange(0, 0) =~= Seq::<Seq<char>>::empty());
    while i < args.len()
        invariant
            i <= args.len(),
            a == texts(args@),
            test_flag_index(a) matches Some(k) ==> 0 <= k < a.len() && a[k] == "--test"@,
            !seen ==> texts(mine@) == a.subrange(0, i as int) && rest@.len() == 0 && (
            test_flag_index(a) is None || test_flag_index(a)->Some_0 >= i),
            seen ==> (test_flag_index(a) matches Some(k) && k < i && texts(mine@) == a.subrange(
                0,
                k + 1,
            ) && texts(rest@) == a.subrange(k + 1, i as int)),
        decreases args.len() - i,
    {
        if seen {
            rest.push(args[i].clone());
            proof {
                let k = test_flag_index(a)->Some_0;
                assert(texts(rest@) =~= a.subrange(k + 1, i + 1));
            }
        } else {
            mine.push(args[i].clone());
            assert(texts(mine@) =~= a.subrange(0, i + 1));
            assert(a[i as int] == args@[i as int]@);
            if crate::text::str_eq(args[i].as_str(), "--test") {
                seen = true;
                proof {
                    lemma_first_test_flag(a, i as int);
                    assert(texts(rest@) =~= a.subrange(i + 1, i + 1));
                }
            }
        }
        i = i + 1;
    }
    proof {
        if !seen {
            assert(a.subrange(0, i as int) =~= a);
            if test_flag_index(a) is Some {
                assert(false);
            }
            assert(texts(rest@) =~= Seq::<Seq<char>>::empty());
        } else {
            let k = test_flag_index(a)->Some_0;
            assert(a.subrange(k + 1, i as int) =~= a.subrange(k + 1, a.len() as int));
        }
    }
    (mine, rest)
}

/// The first `--test` is at `i` when it is there and not before.
proof fn lemma_first_test_flag(args: Seq<Seq<char>>, i: int)
    requires
        0 <= i < args.len(),
        args[i] == "--test"@,
        test_flag_index(args) is None || test_flag_index(args)->Some_0 >= i,
    ensures
        test_flag_index(args) == Some(i),
    decreases args.len(),
{
    if i > 0 && args[0] != "--test"@ {
        let t = args.drop_first();
        assert(t[i - 1] == args[i]);
        if test_flag_index(t) is None || test_flag_index(t)->Some_0 >= i - 1 {
            lemma_first_test_flag(t, i - 1);
        }
    } else if i > 0 {
        assert(test_flag_index(args) == Some(0int));
    }
}

/// Prepares the parsed arguments: the arguments after `--test` are kept
/// for the test command; in test mode output is verbose, the template
/// defaults to the current directory when no template is named, and an
/// unnamed project takes the generated name.
pub fn apply_test_mode(args: &mut GenerateArgs, other_args: Vec<String>, generated_name: Option<String>)
    ensures
        final(args).other_args == Some(other_args),
        final(args).verbose == (old(args).verbose || old(args).template_path.test),
        final(args).template_path.test == old(args).template_path.test,
        final(args).template_path.auto_path == old(args).template_path.auto_path,
        final(args).template_path.path == (if old(args).template_path.test
            && old(args).template_path.auto_path is None {
            Some(final(args).template_path.path->Some_0)
        } else {
            old(args).template_path.path
        }),
        old(args).template_path.test && old(args).template_path.auto_path is None
            ==> final(args).template_path.path->Some_0@ == "."@,
        final(args).name == (if old(args).template_path.test && old(args).name is None {
            generated_name
        } else {
            old(args).name
        }),
{
    if args.template_path.test {
        args.verbose = true;
    }
    args.other_args = Some(other_args);
    if args.template_path.test {
        if args.template_path.auto_path.is_none() {
            args.template_path.path = Some(owned("."));
        }
        if args.name.is_none() {
            args.name = generated_name;
        }
    }
}

} // verus!
