//! What a build without git support answers, and the error it reports.
use vstd::prelude::*;

verus! {

/// The error for git-requiring input `what` in a build without git
/// support.
pub open spec fn feature_disabled_message(what: Seq<char>) -> Seq<char> {
    what + " needs git support, but this build of cargo-generate was compiled without the `git` cargo feature.\n\nEnable it in your Cargo.toml:\n    cargo-generate = { version = \"…\", features = [\"git\"] }\n\nTemplates from a local path work without it."@
}

/// The error returned when git-requiring input reaches a build without
/// git support; `what` names the offending input.
pub fn feature_disabled(what: &str) -> (r: String)
    ensures
        r@ == feature_disabled_message(what@),
{
    let mut s = String::new();
    s.append(what);
    s.append(" needs git support, but this build of cargo-generate was compiled without the `git` cargo feature.\n\nEnable it in your Cargo.toml:\n    cargo-generate = { version = \"…\", features = [\"git\"] }\n\nTemplates from a local path work without it.");
    s
}

/// Without git support every git-requiring input is refused.
pub fn ensure_available(what: &str) -> (r: Result<(), String>)
    ensures
        r is Err && r->Err_0@ == feature_disabled_message(what@),
{
    Err(feature_disabled(what))
}

/// Without git support no branch is inferred.
pub fn try_get_branch_from_path(_path: &str) -> (r: Option<String>)
    ensures
        r is None,
{
    None
}

/// The message of the stand-in for initializing a repository.
pub open spec fn init_disabled_message() -> Seq<char> {
    feature_disabled_message(
        "initializing a git repository in the generated project (`Vcs::Git`, or `vcs` in the template's or a favorite's config)"@,
    )
}

/// Without git support a repository cannot be initialized.
pub fn init(_project_dir: &str, _branch: Option<&str>, _force: bool) -> (r: Result<(), String>)
    ensures
        r is Err && r->Err_0@ == init_disabled_message(),
{
    Err(
        feature_disabled(
            "initializing a git repository in the generated project (`Vcs::Git`, or `vcs` in the template's or a favorite's config)",
        ),
    )
}

/// Without git support no git configuration is read.
pub fn read_config_string(_key: &str, _cwd: &str) -> (r: Option<String>)
    ensures
        r is None,
{
    None
}

} // verus!
