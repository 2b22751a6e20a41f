//! Who the project's author is, from the sources cargo consults.
use vstd::prelude::*;
use crate::text::{owned, trim_text, trimmed};

verus! {

/// The first candidate that is set.
pub open spec fn first_set(candidates: Seq<Option<String>>) -> Option<String>
    decreases candidates.len(),
{
    if candidates.len() == 0 {
        None
    } else if candidates[0] is Some {
        candidates[0]
    } else {
        first_set(candidates.drop_first())
    }
}

/// The first candidate that is set, in order.
pub fn first_available(candidates: &Vec<Option<String>>) -> (r: Option<String>)
    ensures
        match first_set(candidates@) {
            Some(s) => r is Some && r->Some_0@ == s@,
            None => r is None,
        },
{
    let mut i: usize = 0;
    assert(candidates@.subrange(0, candidates@.len() as int) =~= candidates@);
    while i < candidates.len()
        invariant
            i <= candidates.len(),
            first_set(candidates@) == first_set(
                candidates@.subrange(i as int, candidates@.len() as int),
            ),
        decreases candidates.len() - i,
    {
        let ghost rest = candidates@.subrange(i as int, candidates@.len() as int);
        assert(rest.drop_first() =~= candidates@.subrange(i + 1, candidates@.len() as int));
        match &candidates[i] {
            Some(s) => {
                return Some(s.clone());
            },
            None => {},
        }
        i = i + 1;
    }
    None
}

/// The refusal when no source names the user. It names the Unix
/// variable `$USER`; on Windows the generator names `$USERNAME` instead,
/// which this library, having no view of the platform, does not do.
pub open spec fn no_user_message() -> Seq<char> {
    "could not determine the current user, please set $USER"@
}

/// The user name, and the `authors` value: the name, followed by the
/// e-mail address in angle brackets when one is known.
pub open spec fn authors_spec(name: Seq<char>, email: Option<Seq<char>>) -> (Seq<char>, Seq<char>) {
    match email {
        Some(e) => (name, name + " <"@ + e + ">"@),
        None => (name, name),
    }
}

/// Works out the author. The candidates come in cargo's order: for the
/// name `$CARGO_NAME`, `$GIT_AUTHOR_NAME`, `$GIT_COMMITTER_NAME`, git's
/// `user.name`, `$USER`, `$USERNAME`, `$NAME`; for the e-mail address
/// `$CARGO_EMAIL`, `$GIT_AUTHOR_EMAIL`, `$GIT_COMMITTER_EMAIL`, git's
/// `user.email`, `$EMAIL`. The first one set wins, with the white space
/// around it dropped. Answers the user name and the `authors` value.
pub fn get_authors(name_candidates: &Vec<Option<String>>, email_candidates: &Vec<Option<String>>) -> (r: Result<
    (String, String),
    String,
>)
    ensures
        first_set(name_candidates@) is None ==> r is Err && r->Err_0@ == no_user_message(),
        first_set(name_candidates@) matches Some(n) ==> r is Ok && (r->Ok_0.0@, r->Ok_0.1@)
            == authors_spec(
            trimmed(n@),
            match first_set(email_candidates@) {
                Some(m) => Some(trimmed(m@)),
                None => None,
            },
        ),
{
    let name = match first_available(name_candidates) {
        Some(n) => trim_text(n.as_str()),
        None => return Err(owned("could not determine the current user, please set $USER")),
    };
    let email = match first_available(email_candidates) {
        Some(e) => Some(trim_text(e.as_str())),
        None => None,
    };
    let username = name.clone();
    let authors = match email {
        Some(e) => {
            let mut a = name;
            a.append(" <");
            a.append(e.as_str());
            a.append(">");
            a
        },
        None => name,
    };
    Ok((username, authors))
}

} // verus!
