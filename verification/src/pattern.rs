//! Regular expressions that constrain the values of placeholders.
use vstd::prelude::*;

verus! {

#[verifier::external_type_specification]
#[verifier::external_body]
pub struct ExRegex(regex::Regex);

/// What `regex::Regex::new` answers for `pattern`: `None` when the pattern
/// compiles, else the text its error displays as.
pub uninterp spec fn regex_compile_error(pattern: Seq<char>) -> Option<Seq<char>>;

/// Whether `regex::Regex::is_match`, for the regex compiled from
/// `pattern`, finds a match anywhere in `text`.
pub uninterp spec fn regex_matches(pattern: Seq<char>, text: Seq<char>) -> bool;

/// A compiled regular expression together with the pattern it was
/// compiled from. Its fields are private, and the only way to make one is
/// [`ValueRegex::new`], so `compiled` is always the compilation of
/// `pattern`.
#[derive(Debug)]
pub struct ValueRegex {
    pattern: String,
    compiled: regex::Regex,
}

impl View for ValueRegex {
    type V = Seq<char>;

    /// The pattern.
    closed spec fn view(&self) -> Seq<char> {
        self.pattern@
    }
}

/// `regex::Regex::new`: compiles `pattern`. The contract claims that the
/// call succeeds exactly when the named outcome says so, and that its
/// error displays as the named text.
#[verifier::external_body]
fn compile_regex(pattern: &str) -> (r: Result<ValueRegex, String>)
    ensures
        match r {
            Ok(re) => re@ == pattern@ && regex_compile_error(pattern@) is None,
            Err(e) => regex_compile_error(pattern@) == Some(e@),
        },
{
    match regex::Regex::new(pattern) {
        Ok(compiled) => Ok(ValueRegex { pattern: pattern.to_string(), compiled }),
        Err(e) => Err(e.to_string()),
    }
}

/// `regex::Regex::is_match` on the compiled form of `re`'s pattern.
#[verifier::external_body]
fn regex_is_match(re: &ValueRegex, text: &str) -> (r: bool)
    ensures
        r == regex_matches(re@, text@),
{
    re.compiled.is_match(text)
}

/// `regex::Regex::clone`: a regex compiled from the same pattern.
#[verifier::external_body]
fn clone_regex(re: &ValueRegex) -> (r: ValueRegex)
    ensures
        r@ == re@,
{
    ValueRegex { pattern: re.pattern.clone(), compiled: re.compiled.clone() }
}

impl ValueRegex {
    /// Compiles `pattern`; the error is the text of the compiler's error.
    pub fn new(pattern: &str) -> (r: Result<ValueRegex, String>)
        ensures
            match r {
                Ok(re) => re@ == pattern@ && regex_compile_error(pattern@) is None,
                Err(e) => regex_compile_error(pattern@) == Some(e@),
            },
    {
        compile_regex(pattern)
    }

    /// Whether the regex matches anywhere in `text`.
    pub fn is_match(&self, text: &str) -> (r: bool)
        ensures
            r == regex_matches(self@, text@),
    {
        regex_is_match(self, text)
    }

    /// The pattern the regex was compiled from.
    pub fn as_str(&self) -> (r: &str)
        ensures
            r@ == self@,
    {
        self.pattern.as_str()
    }
}

impl Clone for ValueRegex {
    fn clone(&self) -> (r: Self)
        ensures
            r@ == self@,
    {
        clone_regex(self)
    }
}

} // verus!
