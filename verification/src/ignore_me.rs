//! The files of a template that never reach the generated project.
use vstd::prelude::*;
use crate::absolute_path::{join_path, join_path_spec};
use crate::config::CONFIG_FILE_NAME;
use crate::text::texts;

verus! {

/// The file listing, in gitignore syntax, what a template leaves out.
pub const IGNORE_FILE_NAME: &'static str = ".genignore";

/// The marker cargo leaves after extracting a package; never part of a
/// template.
pub const CARGO_OK_FILE_NAME: &'static str = ".cargo-ok";

/// The files always left out: the ignore file, the configuration and
/// cargo's marker.
pub open spec fn default_ignored_spec(location: Seq<char>) -> Seq<Seq<char>> {
    seq![
        join_path_spec(location, ".genignore"@),
        join_path_spec(location, "cargo-generate.toml"@),
        join_path_spec(location, ".cargo-ok"@),
    ]
}

/// The entries that are not kept, in walk order.
pub open spec fn not_kept(all: Seq<Seq<char>>, kept: Seq<Seq<char>>) -> Seq<Seq<char>>
    decreases all.len(),
{
    if all.len() == 0 {
        Seq::empty()
    } else {
        let r = not_kept(all.drop_last(), kept);
        if kept.contains(all.last()) {
            r
        } else {
            r.push(all.last())
        }
    }
}

/// What the ignore file leaves out of `location`: the default files, then,
/// when an ignore file exists, every entry (`all`, as walked) that the
/// walk honouring the ignore file does not keep (`kept`).
pub open spec fn ignored_spec(
    location: Seq<char>,
    genignore_exists: bool,
    all: Seq<Seq<char>>,
    kept: Seq<Seq<char>>,
) -> Seq<Seq<char>> {
    if genignore_exists {
        default_ignored_spec(location) + not_kept(all, kept)
    } else {
        default_ignored_spec(location)
    }
}

fn contains_path(v: &Vec<String>, p: &String) -> (r: bool)
    ensures
        r == texts(v@).contains(p@),
{
    let mut i: usize = 0;
    while i < v.len()
        invariant
            i <= v.len(),
            forall|j: int| 0 <= j < i ==> v@[j]@ != p@,
        decreases v.len() - i,
    {
        if crate::text::str_eq(v[i].as_str(), p.as_str()) {
            assert(texts(v@)[i as int] == p@);
            return true;
        }
        i = i + 1;
    }
    assert forall|j: int| 0 <= j < texts(v@).len() implies texts(v@)[j] != p@ by {
        assert(texts(v@)[j] == v@[j]@);
    }
    false
}

/// The files the ignore file leaves out of `location`, given the entries
/// of the two walks.
pub fn get_ignored(location: &str, genignore_exists: bool, all: &Vec<String>, kept: &Vec<String>) -> (r: Vec<
    String,
>)
    ensures
        texts(r@) == ignored_spec(location@, genignore_exists, texts(all@), texts(kept@)),
{
    let mut r: Vec<String> = Vec::new();
    r.push(join_path(location, IGNORE_FILE_NAME));
    r.push(join_path(location, CONFIG_FILE_NAME));
    r.push(join_path(location, CARGO_OK_FILE_NAME));
    let ghost head = texts(r@);
    assert(head =~= default_ignored_spec(location@));
    if !genignore_exists {
        return r;
    }
    let ghost a = texts(all@);
    let ghost k = texts(kept@);
    let mut i: usize = 0;
    while i < all.len()
        invariant
            i <= all.len(),
            a == texts(all@),
            k == texts(kept@),
            texts(r@) == head + not_kept(a.subrange(0, i as int), k),
        decreases all.len() - i,
    {
        let ghost pre = a.subrange(0, i as int);
        let ghost post = a.subrange(0, i + 1);
        assert(post.drop_last() =~= pre);
        assert(post.last() == all@[i as int]@);
        let ghost before = texts(r@);
        if !contains_path(kept, &all[i]) {
            r.push(all[i].clone());
            assert(texts(r@) =~= before.push(all@[i as int]@));
            assert(not_kept(post, k) == not_kept(pre, k).push(post.last()));
        } else {
            assert(not_kept(post, k) == not_kept(pre, k));
        }
        i = i + 1;
        assert(texts(r@) =~= head + not_kept(post, k));
    }
    assert(a.subrange(0, i as int) =~= a);
    r
}

/// Everything to remove from `dir`: what the ignore file leaves out, then
/// the files the configuration's `ignore` list names, inside `dir`.
pub fn remove_unneeded_files(dir: &str, ignored: Vec<String>, ignored_files: &Option<Vec<String>>) -> (r: Vec<
    String,
>)
    ensures
        texts(r@) == texts(ignored@) + match ignored_files {
            Some(f) => texts(f@).map_values(|x: Seq<char>| join_path_spec(dir@, x)),
            None => Seq::empty(),
        },
{
    let mut r = ignored;
    let ghost head = texts(r@);
    match ignored_files {
        Some(f) => {
            let ghost extra = texts(f@).map_values(|x: Seq<char>| join_path_spec(dir@, x));
            let mut i: usize = 0;
            while i < f.len()
                invariant
                    i <= f.len(),
                    extra == texts(f@).map_values(|x: Seq<char>| join_path_spec(dir@, x)),
                    texts(r@) == head + extra.subrange(0, i as int),
                decreases f.len() - i,
            {
                let ghost before = texts(r@);
                r.push(join_path(dir, f[i].as_str()));
                assert(texts(r@) =~= before.push(join_path_spec(dir@, f@[i as int]@)));
                assert(extra[i as int] == join_path_spec(dir@, f@[i as int]@));
                i = i + 1;
                assert(texts(r@) =~= head + extra.subrange(0, i as int));
            }
            assert(extra.subrange(0, i as int) =~= extra);
        },
        None => {
            assert(texts(r@) =~= head + Seq::<Seq<char>>::empty());
        },
    }
    r
}

} // verus!
