//! Home-directory handling for paths given by the user.
use vstd::prelude::*;
use crate::absolute_path::join_path_spec;
use crate::absolute_path::join_path;
use crate::disk::{canonicalize_existing, is_absolute_text};
use crate::text::{chars_of, has_prefix, owned, string_of_range};

verus! {

/// `home::home_dir`: the user's home directory, when it can be
/// determined. Nothing is stated of the answer: it depends on the
/// environment of the process.
#[verifier::external_body]
fn home_dir() -> Option<String> {
    ::home::home_dir().and_then(|p| p.to_str().map(|s| s.to_string()))
}

/// The message when the home directory is unknown.
pub open spec fn no_home_message() -> Seq<char> {
    "$HOME was not set"@
}

/// The home directory.
pub fn home() -> (r: Result<String, String>)
    ensures
        r matches Err(e) ==> e@ == no_home_message(),
{
    match home_dir() {
        Some(h) => Ok(h),
        None => Err(owned("$HOME was not set")),
    }
}

/// The part of `p` after a leading `~` or `$HOME` component, with its
/// leading separators, when `p` starts with such a component.
pub open spec fn after_home_component(p: Seq<char>) -> Option<Seq<char>> {
    if p == "~"@ || has_prefix(p, "~/"@) {
        Some(trim_leading_slashes(p.subrange(1, p.len() as int)))
    } else if p == "$HOME"@ || has_prefix(p, "$HOME/"@) {
        Some(trim_leading_slashes(p.subrange(5, p.len() as int)))
    } else {
        None
    }
}

pub open spec fn trim_leading_slashes(p: Seq<char>) -> Seq<char>
    decreases p.len(),
{
    if p.len() > 0 && p[0] == '/' {
        trim_leading_slashes(p.drop_first())
    } else {
        p
    }
}

/// `p` with a leading `~` or `$HOME` component replaced by `home`.
pub open spec fn expand_home_spec(p: Seq<char>, home: Seq<char>) -> Seq<char> {
    match after_home_component(p) {
        Some(rest) => join_path_spec(home, rest),
        None => p,
    }
}

/// The length of a leading `~` or `$HOME` component of `p`, 0 when there
/// is none.
fn home_prefix_len(v: &Vec<char>) -> (r: usize)
    ensures
        r == 0 <==> after_home_component(v@) is None,
        r == 1 ==> (v@ == "~"@ || has_prefix(v@, "~/"@)),
        r == 5 ==> !(v@ == "~"@ || has_prefix(v@, "~/"@)) && (v@ == "$HOME"@ || has_prefix(
            v@,
            "$HOME/"@,
        )),
        r == 0 || r == 1 || r == 5,
        r <= v@.len(),
{
    let n = v.len();
    let tilde = n >= 1 && v[0] == '~' && (n == 1 || v[1] == '/');
    let dollar = n >= 5 && v[0] == '$' && v[1] == 'H' && v[2] == 'O' && v[3] == 'M' && v[4] == 'E'
        && (n == 5 || v[5] == '/');
    proof {
        reveal_strlit("~");
        reveal_strlit("~/");
        reveal_strlit("$HOME");
        reveal_strlit("$HOME/");
        if tilde {
            if n == 1 {
                assert(v@ =~= "~"@);
            } else {
                assert(v@.subrange(0, 2) =~= "~/"@);
            }
        } else {
            if v@ == "~"@ {
                assert(v@[0] == '~');
            }
            if has_prefix(v@, "~/"@) {
                assert(v@.subrange(0, 2)[0] == '~' && v@.subrange(0, 2)[1] == '/');
            }
        }
        if dollar {
            if n == 5 {
                assert(v@ =~= "$HOME"@);
            } else {
                assert(v@.subrange(0, 6) =~= "$HOME/"@);
            }
        } else {
            if v@ == "$HOME"@ {
                assert(v@[0] == '$');
            }
            if has_prefix(v@, "$HOME/"@) {
                assert(v@.subrange(0, 6)[5] == '/');
                assert(v@.subrange(0, 6)[0] == '$');
                assert(v@.subrange(0, 6)[1] == 'H');
                assert(v@.subrange(0, 6)[2] == 'O');
                assert(v@.subrange(0, 6)[3] == 'M');
                assert(v@.subrange(0, 6)[4] == 'E');
            }
        }
    }
    if tilde {
        1
    } else if dollar {
        5
    } else {
        0
    }
}

/// Whether `p` starts with a `~` or `$HOME` component.
pub fn starts_with_home(p: &str) -> (r: bool)
    ensures
        r == (after_home_component(p@) is Some),
{
    let v = chars_of(p);
    home_prefix_len(&v) != 0
}

/// Replaces a leading `~` or `$HOME` component of `p` by `home`.
pub fn expand_home(p: &str, home: &str) -> (r: String)
    ensures
        r@ == expand_home_spec(p@, home@),
{
    let v = chars_of(p);
    let k = home_prefix_len(&v);
    if k == 0 {
        return owned(p);
    }
    let mut i: usize = k;
    assert(v@.subrange(k as int, v@.len() as int) == v@.subrange(k as int, v@.len() as int));
    while i < v.len() && v[i] == '/'
        invariant
            k <= i <= v.len(),
            trim_leading_slashes(v@.subrange(k as int, v@.len() as int)) == trim_leading_slashes(
                v@.subrange(i as int, v@.len() as int),
            ),
        decreases v.len() - i,
    {
        assert(v@.subrange(i as int, v@.len() as int).drop_first() =~= v@.subrange(
            i + 1,
            v@.len() as int,
        ));
        i = i + 1;
    }
    let rest = string_of_range(&v, i, v.len());
    join_path(home, rest.as_str())
}

/// The refusal of a path that does not exist on disk.
pub open spec fn missing_path_message(p: Seq<char>) -> Seq<char> {
    "path does not exist: "@ + p
}

/// The errors `canonicalize_path` can give for `p`: the home directory is
/// unknown (only when `p` starts with `~` or `$HOME`), or the path, after
/// the home directory replaced its first component, does not exist.
pub open spec fn canonicalize_refusal(p: Seq<char>, e: Seq<char>) -> bool {
    if after_home_component(p) is Some {
        e == no_home_message() || exists|h: Seq<char>|
            e == missing_path_message(#[trigger] expand_home_spec(p, h))
    } else {
        e == missing_path_message(p)
    }
}

/// Resolves `p` on disk, after replacing a leading `~` or `$HOME`
/// component by the home directory. A result is absolute; whether the
/// path exists, and which path it resolves to, depends on the disk.
pub fn canonicalize_path(p: &str) -> (r: Result<String, String>)
    ensures
        r matches Ok(s) ==> s@.len() > 0 && is_absolute_text(s@),
        r matches Err(e) ==> canonicalize_refusal(p@, e@),
{
    let expanded = if starts_with_home(p) {
        let h = home()?;
        let x = expand_home(p, h.as_str());
        assert(x@ == expand_home_spec(p@, h@));
        x
    } else {
        owned(p)
    };
    match canonicalize_existing(expanded.as_str()) {
        Some(c) => Ok(c),
        None => {
            let mut msg = String::new();
            msg.append("path does not exist: ");
            msg.append(expanded.as_str());
            assert(msg@ =~= missing_path_message(expanded@));
            Err(msg)
        },
    }
}

} // verus!
