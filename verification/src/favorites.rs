//! The listing of the user's favorite templates.
use vstd::prelude::*;
use crate::app_config::FavoriteConfig;
use crate::text::{chars_of, has_prefix, owned, str_has_prefix};

verus! {

broadcast use vstd::seq_lib::to_multiset_insert, vstd::seq_lib::to_multiset_build;

/// `a` comes before `b` or equals it, in the order of `String`:
/// lexicographic on the characters (which is the order of their UTF-8
/// bytes).
pub open spec fn lex_le(a: Seq<char>, b: Seq<char>) -> bool
    decreases a.len(),
{
    if a.len() == 0 {
        true
    } else if b.len() == 0 {
        false
    } else if a[0] != b[0] {
        a[0] < b[0]
    } else {
        lex_le(a.drop_first(), b.drop_first())
    }
}

/// Any two texts are ordered one way or the other.
pub proof fn lemma_lex_total(a: Seq<char>, b: Seq<char>)
    ensures
        lex_le(a, b) || lex_le(b, a),
    decreases a.len(),
{
    if a.len() > 0 && b.len() > 0 {
        if a[0] == b[0] {
            lemma_lex_total(a.drop_first(), b.drop_first());
        }
    }
}

/// The order is transitive.
pub proof fn lemma_lex_trans(a: Seq<char>, b: Seq<char>, c: Seq<char>)
    requires
        lex_le(a, b),
        lex_le(b, c),
    ensures
        lex_le(a, c),
    decreases a.len(),
{
    if a.len() > 0 && b.len() > 0 && c.len() > 0 && a[0] == b[0] && b[0] == c[0] {
        lemma_lex_trans(a.drop_first(), b.drop_first(), c.drop_first());
    }
}

/// Whether `a` comes before `b` or equals it.
pub fn lex_le_exec(a: &Vec<char>, b: &Vec<char>) -> (r: bool)
    ensures
        r == lex_le(a@, b@),
{
    let mut i: usize = 0;
    assert(a@.subrange(0, a@.len() as int) =~= a@);
    assert(b@.subrange(0, b@.len() as int) =~= b@);
    while i < a.len() && i < b.len() && a[i] == b[i]
        invariant
            i <= a.len(),
            i <= b.len(),
            lex_le(a@, b@) == lex_le(a@.subrange(i as int, a@.len() as int), b@.subrange(i as int, b@.len() as int)),
        decreases a.len() - i,
    {
        let ghost ra = a@.subrange(i as int, a@.len() as int);
        let ghost rb = b@.subrange(i as int, b@.len() as int);
        assert(ra.drop_first() =~= a@.subrange(i + 1, a@.len() as int));
        assert(rb.drop_first() =~= b@.subrange(i + 1, b@.len() as int));
        i = i + 1;
    }
    let ghost ra = a@.subrange(i as int, a@.len() as int);
    let ghost rb = b@.subrange(i as int, b@.len() as int);
    if i == a.len() {
        true
    } else if i == b.len() {
        false
    } else {
        assert(ra[0] == a@[i as int] && rb[0] == b@[i as int]);
        a[i] < b[i]
    }
}

/// A favorite as listed: its name and its description.
pub open spec fn entry_view(e: (String, String)) -> (Seq<char>, Seq<char>) {
    (e.0@, e.1@)
}

pub open spec fn entries_view(v: Seq<(String, String)>) -> Seq<(Seq<char>, Seq<char>)> {
    v.map_values(|e: (String, String)| entry_view(e))
}

/// The names come in order.
pub open spec fn sorted_by_name(s: Seq<(Seq<char>, Seq<char>)>) -> bool {
    forall|i: int, j: int| 0 <= i < j < s.len() ==> lex_le(#[trigger] s[i].0, #[trigger] s[j].0)
}

/// The description shown for a favorite.
pub open spec fn description_of(f: FavoriteConfig) -> Seq<char> {
    match f.description {
        Some(d) => d@,
        None => "no description"@,
    }
}

/// The favorites whose name starts with `prefix` (all without one), in
/// file order, with their descriptions.
pub open spec fn listed(favs: Seq<(String, FavoriteConfig)>, prefix: Option<Seq<char>>) -> Seq<
    (Seq<char>, Seq<char>),
>
    decreases favs.len(),
{
    if favs.len() == 0 {
        Seq::empty()
    } else {
        let r = listed(favs.drop_last(), prefix);
        let f = favs.last();
        if prefix is None || has_prefix(f.0@, prefix->Some_0) {
            r.push((f.0@, description_of(f.1)))
        } else {
            r
        }
    }
}

/// Inserts `e` into the sorted `v`, after the names that do not come
/// after it.
fn insert_sorted(v: &mut Vec<(String, String)>, e: (String, String))
    requires
        sorted_by_name(entries_view(old(v)@)),
    ensures
        sorted_by_name(entries_view(final(v)@)),
        entries_view(final(v)@).to_multiset() == entries_view(old(v)@).to_multiset().insert(
            entry_view(e),
        ),
{
    let ghost s = entries_view(v@);
    let key = chars_of(e.0.as_str());
    let mut p: usize = 0;
    while p < v.len() && lex_le_exec(&chars_of(v[p].0.as_str()), &key)
        invariant
            p <= v.len(),
            s == entries_view(v@),
            key@ == e.0@,
            forall|i: int| 0 <= i < p ==> lex_le(#[trigger] s[i].0, e.0@),
        decreases v.len() - p,
    {
        assert(s[p as int].0 == v@[p as int].0@);
        p = p + 1;
    }
    proof {
        if p < s.len() {
            assert(s[p as int].0 == v@[p as int].0@);
            lemma_lex_total(s[p as int].0, e.0@);
        }
    }
    let ghost x = entry_view(e);
    v.insert(p, e);
    assert(entries_view(v@) =~= s.insert(p as int, x));
    proof {
        let t = s.insert(p as int, x);
        assert forall|i: int, j: int| 0 <= i < j < t.len() implies lex_le(
            #[trigger] t[i].0,
            #[trigger] t[j].0,
        ) by {
            if j < p {
                assert(t[i] == s[i] && t[j] == s[j]);
            } else if j == p {
                assert(t[i] == s[i]);
            } else if i < p {
                assert(t[i] == s[i] && t[j] == s[j - 1]);
                assert(lex_le(s[i].0, e.0@));
                assert(lex_le(e.0@, s[p as int].0));
                lemma_lex_trans(s[i].0, e.0@, s[p as int].0);
                if j - 1 > p {
                    lemma_lex_trans(s[i].0, s[p as int].0, s[j - 1].0);
                }
            } else if i == p {
                assert(t[j] == s[j - 1]);
                if j - 1 > p {
                    lemma_lex_trans(e.0@, s[p as int].0, s[j - 1].0);
                }
            } else {
                assert(t[i] == s[i - 1] && t[j] == s[j - 1]);
            }
        }
    }
}

/// The favorites to list, sorted by name: those whose name starts with
/// `prefix` (all of them without one), each with its description.
pub fn favorite_entries(favorites: &Option<Vec<(String, FavoriteConfig)>>, prefix: Option<&str>) -> (r: Vec<
    (String, String),
>)
    ensures
        sorted_by_name(entries_view(r@)),
        entries_view(r@).to_multiset() == (match favorites {
            Some(f) => listed(
                f@,
                match prefix {
                    Some(p) => Some(p@),
                    None => None,
                },
            ),
            None => Seq::empty(),
        }).to_multiset(),
{
    let mut r: Vec<(String, String)> = Vec::new();
    assert(entries_view(r@) =~= Seq::<(Seq<char>, Seq<char>)>::empty());
    let favs = match favorites {
        Some(f) => f,
        None => {
            return r;
        },
    };
    let ghost pre_opt = match prefix {
        Some(p) => Some(p@),
        None => None,
    };
    let mut i: usize = 0;
    assert(favs@.subrange(0, 0) =~= Seq::<(String, FavoriteConfig)>::empty());
    while i < favs.len()
        invariant
            i <= favs.len(),
            *favorites == Some(*favs),
            pre_opt == (match prefix {
                Some(p) => Some(p@),
                None => None::<Seq<char>>,
            }),
            sorted_by_name(entries_view(r@)),
            entries_view(r@).to_multiset() == listed(favs@.subrange(0, i as int), pre_opt).to_multiset(),
        decreases favs.len() - i,
    {
        let ghost before = favs@.subrange(0, i as int);
        let ghost after = favs@.subrange(0, i + 1);
        assert(after.drop_last() =~= before);
        assert(after.last() == favs@[i as int]);
        let (name, fav) = (&favs[i].0, &favs[i].1);
        let take = match prefix {
            Some(p) => str_has_prefix(name.as_str(), p),
            None => true,
        };
        if take {
            let description = match &fav.description {
                Some(d) => d.clone(),
                None => owned("no description"),
            };
            insert_sorted(&mut r, (name.clone(), description));
        }
        i = i + 1;
    }
    assert(favs@.subrange(0, i as int) =~= favs@);
    r
}

/// The width the names are padded to: the longest name's length in bytes
/// plus five, rounded down to a multiple of four.
pub open spec fn name_width(lens: Seq<nat>) -> int {
    ((max_len(lens) + 5) / 4) * 4 as int
}

pub open spec fn max_len(lens: Seq<nat>) -> nat
    decreases lens.len(),
{
    if lens.len() == 0 {
        0
    } else {
        let m = max_len(lens.drop_last());
        if lens.last() > m {
            lens.last()
        } else {
            m
        }
    }
}

proof fn lemma_max_len(lens: Seq<nat>, i: int)
    requires
        0 <= i < lens.len(),
    ensures
        lens[i] <= max_len(lens),
    decreases lens.len(),
{
    if i < lens.len() - 1 {
        lemma_max_len(lens.drop_last(), i);
    }
}

/// The byte length of each name.
pub open spec fn name_lens(entries: Seq<(String, String)>) -> Seq<nat> {
    entries.map_values(|e: (String, String)| byte_len(e.0@))
}

/// The length of a text in UTF-8 bytes.
pub open spec fn byte_len(s: Seq<char>) -> nat {
    vstd::utf8::encode_utf8(s).len()
}

/// One line of the listing: the name, a colon, spaces up to the width,
/// then the description.
pub open spec fn favorite_line(name: Seq<char>, name_len: nat, description: Seq<char>, width: int) -> Seq<
    char,
> {
    name + ":"@ + Seq::new((width - name_len) as nat, |k: int| ' ') + description
}

/// The lines of the listing, the names padded to a common width.
pub fn favorite_lines(entries: &Vec<(String, String)>) -> (r: Vec<String>)
    requires
        forall|i: int| 0 <= i < entries.len() ==> byte_len((#[trigger] entries@[i]).0@) + 5 <= usize::MAX,
    ensures
        r.len() == entries.len(),
        forall|i: int|
            0 <= i < r.len() ==> (#[trigger] r@[i])@ == favorite_line(
                entries@[i].0@,
                name_lens(entries@)[i],
                entries@[i].1@,
                name_width(name_lens(entries@)),
            ),
{
    let ghost lens = name_lens(entries@);
    let mut longest: usize = 0;
    let mut i: usize = 0;
    while i < entries.len()
        invariant
            i <= entries.len(),
            lens == name_lens(entries@),
            longest == max_len(lens.subrange(0, i as int)),
            longest + 5 <= usize::MAX,
            forall|k: int| 0 <= k < entries.len() ==> byte_len((#[trigger] entries@[k]).0@) + 5 <= usize::MAX,
        decreases entries.len() - i,
    {
        let ghost pre = lens.subrange(0, i as int);
        let ghost post = lens.subrange(0, i + 1);
        assert(post.drop_last() =~= pre);
        let n = entries[i].0.as_str().len();
        assert(n == lens[i as int]);
        if n > longest {
            longest = n;
        }
        i = i + 1;
    }
    assert(lens.subrange(0, i as int) =~= lens);
    let width = ((longest + 5) / 4) * 4;
    let mut r: Vec<String> = Vec::new();
    let mut j: usize = 0;
    while j < entries.len()
        invariant
            j <= entries.len(),
            lens == name_lens(entries@),
            width == name_width(lens),
            longest == max_len(lens),
            r.len() == j,
            forall|k: int|
                0 <= k < j ==> (#[trigger] r@[k])@ == favorite_line(
                    entries@[k].0@,
                    lens[k],
                    entries@[k].1@,
                    width as int,
                ),
        decreases entries.len() - j,
    {
        let n = entries[j].0.as_str().len();
        proof {
            lemma_max_len(lens, j as int);
        }
        assert(n == lens[j as int]);
        let mut line = entries[j].0.clone();
        line.append(":");
        let ghost head = line@;
        let mut k: usize = 0;
        while k < width - n
            invariant
                n <= width,
                k <= width - n,
                line@ == head + Seq::new(k as nat, |q: int| ' '),
            decreases width - n - k,
        {
            crate::text::push_char(&mut line, ' ');
            k = k + 1;
            assert(line@ =~= head + Seq::new(k as nat, |q: int| ' '));
        }
        line.append(entries[j].1.as_str());
        assert(line@ =~= favorite_line(entries@[j as int].0@, lens[j as int], entries@[j as int].1@, width as int));
        r.push(line);
        j = j + 1;
    }
    r
}

} // verus!
