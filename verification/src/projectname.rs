//! The name the user gave the project, and its case variants.
use vstd::prelude::*;
use crate::text::{owned, str_eq};

verus! {

/// What `heck::ToKebabCase::to_kebab_case` makes of `s`.
pub uninterp spec fn kebab_case_of(s: Seq<char>) -> Seq<char>;

/// What `heck::ToSnakeCase::to_snake_case` makes of `s`.
pub uninterp spec fn snake_case_of(s: Seq<char>) -> Seq<char>;

/// `heck::ToKebabCase::to_kebab_case`: the words of `s`, lower-cased and
/// joined by `-`. The contract only names the result.
#[verifier::external_body]
fn to_kebab(s: &str) -> (r: String)
    ensures
        r@ == kebab_case_of(s@),
{
    heck::ToKebabCase::to_kebab_case(s)
}

/// `heck::ToSnakeCase::to_snake_case`: the words of `s`, lower-cased and
/// joined by `_`. The contract only names the result.
#[verifier::external_body]
fn to_snake(s: &str) -> (r: String)
    ensures
        r@ == snake_case_of(s@),
{
    heck::ToSnakeCase::to_snake_case(s)
}

/// Stores the name the user typed and gives its case variants.
pub struct ProjectName {
    pub user_input: String,
}

impl ProjectName {
    /// The name as typed.
    pub fn new(name: &str) -> (r: ProjectName)
        ensures
            r.user_input@ == name@,
    {
        ProjectName { user_input: owned(name) }
    }

    /// The name in kebab case.
    pub fn kebab_case(&self) -> (r: String)
        ensures
            r@ == kebab_case_of(self.user_input@),
    {
        to_kebab(self.user_input.as_str())
    }

    /// The name in snake case.
    pub fn snake_case(&self) -> (r: String)
        ensures
            r@ == snake_case_of(self.user_input@),
    {
        to_snake(self.user_input.as_str())
    }

    /// Whether the name is already in kebab case, as crate names are.
    pub fn is_crate_name(&self) -> (r: bool)
        ensures
            r == (self.user_input@ == kebab_case_of(self.user_input@)),
    {
        let k = self.kebab_case();
        str_eq(self.user_input.as_str(), k.as_str())
    }
}

} // verus!
