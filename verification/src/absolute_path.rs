//! Lexical path handling: joining, canonicalizing without touching the
//! disk, and confining a path to a sandbox directory.
//!
//! Paths are `/`-separated strings. A path is absolute when it starts
//! with `/`. Canonicalizing drops empty and `.` components and lets each
//! `..` remove the component before it (never climbing above the start).
use vstd::prelude::*;
use crate::text::{chars_of, owned, push_char, push_chars, string_of, vec_eq};

verus! {

/// A path that starts at the root.
pub open spec fn is_abs(p: Seq<char>) -> bool {
    p.len() > 0 && p[0] == '/'
}

/// The pieces of `p` between `/` separators, empty pieces included.
pub open spec fn split_pieces(p: Seq<char>) -> Seq<Seq<char>>
    decreases p.len(),
{
    if p.len() == 0 {
        seq![Seq::empty()]
    } else {
        let prev = split_pieces(p.drop_last());
        if p.last() == '/' {
            prev.push(Seq::empty())
        } else {
            prev.update(prev.len() - 1, prev.last().push(p.last()))
        }
    }
}

/// The effect of one piece on a stack of canonical components.
pub open spec fn step_piece(st: Seq<Seq<char>>, piece: Seq<char>) -> Seq<Seq<char>> {
    if piece.len() == 0 || piece == seq!['.'] {
        st
    } else if piece == seq!['.', '.'] {
        if st.len() > 0 {
            st.drop_last()
        } else {
            st
        }
    } else {
        st.push(piece)
    }
}

/// Applies the pieces in order to `st`.
pub open spec fn fold_pieces(st: Seq<Seq<char>>, ps: Seq<Seq<char>>) -> Seq<Seq<char>>
    decreases ps.len(),
{
    if ps.len() == 0 {
        st
    } else {
        step_piece(fold_pieces(st, ps.drop_last()), ps.last())
    }
}

/// The canonical components of `p`.
pub open spec fn canon_segs(p: Seq<char>) -> Seq<Seq<char>> {
    fold_pieces(Seq::empty(), split_pieces(p))
}

/// Components separated by `/`.
pub open spec fn join_segs(segs: Seq<Seq<char>>) -> Seq<char>
    decreases segs.len(),
{
    if segs.len() == 0 {
        Seq::empty()
    } else if segs.len() == 1 {
        segs[0]
    } else {
        join_segs(segs.drop_last()) + seq!['/'] + segs.last()
    }
}

/// The text of a path made of a root flag and components.
pub open spec fn render(abs: bool, segs: Seq<Seq<char>>) -> Seq<char> {
    (if abs {
        seq!['/']
    } else {
        Seq::empty()
    }) + join_segs(segs)
}

/// The canonical form of `p`.
pub open spec fn canonical(p: Seq<char>) -> Seq<char> {
    render(is_abs(p), canon_segs(p))
}

/// `base` followed by `p`: `p` itself when it is absolute, otherwise `p`
/// after `base` with a separator when `base` does not already end in one.
pub open spec fn join_path_spec(base: Seq<char>, p: Seq<char>) -> Seq<char> {
    if is_abs(p) {
        p
    } else if base.len() > 0 && base.last() != '/' {
        base + seq!['/'] + p
    } else {
        base + p
    }
}

/// `base` is a leading part of `p`, component-wise: an empty relative
/// base leads every path; otherwise both are absolute or both relative
/// and the components of `base` come first in `p`.
pub open spec fn leads(base_abs: bool, base: Seq<Seq<char>>, p_abs: bool, p: Seq<Seq<char>>) -> bool {
    (!base_abs && base.len() == 0) || (base_abs == p_abs && base.len() <= p.len()
        && p.subrange(0, base.len() as int) == base)
}

/// What sandboxing `p` into `sandbox` yields: the canonical path, when
/// the canonical sandbox leads it.
pub open spec fn sandboxed_segs(p: Seq<char>, sandbox: Seq<char>) -> Seq<Seq<char>> {
    if is_abs(p) {
        canon_segs(p)
    } else {
        fold_pieces(canon_segs(sandbox), split_pieces(p))
    }
}

pub open spec fn sandboxed_abs(p: Seq<char>, sandbox: Seq<char>) -> bool {
    if is_abs(p) {
        true
    } else {
        is_abs(sandbox)
    }
}

pub open spec fn stays_in_sandbox(p: Seq<char>, sandbox: Seq<char>) -> bool {
    leads(is_abs(sandbox), canon_segs(sandbox), sandboxed_abs(p, sandbox), sandboxed_segs(p, sandbox))
}

/// The message of the error for a path that leaves its sandbox.
pub open spec fn escape_message() -> Seq<char> {
    "Path cannot escape the sandbox"@
}

pub open spec fn segs_view(v: Seq<Vec<char>>) -> Seq<Seq<char>> {
    v.map_values(|x: Vec<char>| x@)
}

proof fn lemma_split_pieces_nonempty(p: Seq<char>)
    ensures
        split_pieces(p).len() >= 1,
    decreases p.len(),
{
    if p.len() > 0 {
        lemma_split_pieces_nonempty(p.drop_last());
    }
}

/// Applies one piece to a component stack held in a vector.
fn apply_piece(segs: &mut Vec<Vec<char>>, piece: &Vec<char>)
    ensures
        segs_view(final(segs)@) == step_piece(segs_view(old(segs)@), piece@),
{
    let ghost old_v = segs_view(segs@);
    if piece.len() == 0 || (piece.len() == 1 && piece[0] == '.') {
        proof {
            if piece@.len() == 1 {
                assert(piece@ =~= seq!['.']);
            }
        }
        return;
    }
    assert(piece@ != seq!['.']) by {
        if piece@.len() == 1 {
            assert(seq!['.'][0] == '.');
        }
    }
    if piece.len() == 2 && piece[0] == '.' && piece[1] == '.' {
        assert(piece@ =~= seq!['.', '.']);
        if segs.len() > 0 {
            segs.pop();
            assert(segs_view(segs@) =~= old_v.drop_last());
        }
        return;
    }
    assert(piece@ != seq!['.', '.']) by {
        if piece@.len() == 2 {
            assert(seq!['.', '.'][0] == '.' && seq!['.', '.'][1] == '.');
        }
    }
    segs.push(piece.clone());
    assert(segs_view(segs@) =~= old_v.push(piece@));
}

/// Applies the pieces of `p` to a component stack.
fn extend_segs(segs: &mut Vec<Vec<char>>, p: &Vec<char>)
    ensures
        segs_view(final(segs)@) == fold_pieces(segs_view(old(segs)@), split_pieces(p@)),
{
    let ghost start = segs_view(segs@);
    let mut cur: Vec<char> = Vec::new();
    let mut i: usize = 0;
    proof {
        assert(p@.subrange(0, 0) =~= Seq::<char>::empty());
        assert(split_pieces(Seq::<char>::empty()).drop_last() =~= Seq::<Seq<char>>::empty());
    }
    while i < p.len()
        invariant
            i <= p.len(),
            segs_view(segs@) == fold_pieces(start, split_pieces(p@.subrange(0, i as int)).drop_last()),
            cur@ == split_pieces(p@.subrange(0, i as int)).last(),
        decreases p.len() - i,
    {
        let ghost pre = p@.subrange(0, i as int);
        let ghost next = p@.subrange(0, i + 1);
        proof {
            assert(next.drop_last() =~= pre);
            assert(next.last() == p@[i as int]);
            lemma_split_pieces_nonempty(pre);
        }
        let c = p[i];
        if c == '/' {
            proof {
                let ps = split_pieces(pre);
                assert(split_pieces(next) == ps.push(Seq::empty()));
                assert(split_pieces(next).drop_last() =~= ps);
                assert(ps =~= ps.drop_last().push(ps.last()));
                assert(fold_pieces(start, ps) == step_piece(
                    fold_pieces(start, ps.drop_last()),
                    ps.last(),
                ));
            }
            apply_piece(segs, &cur);
            cur = Vec::new();
        } else {
            proof {
                let ps = split_pieces(pre);
                assert(split_pieces(next) == ps.update(ps.len() - 1, ps.last().push(c)));
                assert(split_pieces(next).drop_last() =~= ps.drop_last());
            }
            cur.push(c);
        }
        i = i + 1;
    }
    proof {
        assert(p@.subrange(0, p@.len() as int) =~= p@);
        lemma_split_pieces_nonempty(p@);
        let ps = split_pieces(p@);
        assert(ps =~= ps.drop_last().push(ps.last()));
    }
    apply_piece(segs, &cur);
}

/// Renders a root flag and components as a path string.
fn render_exec(abs: bool, segs: &Vec<Vec<char>>) -> (r: String)
    ensures
        r@ == render(abs, segs_view(segs@)),
{
    let mut r = String::new();
    if abs {
        push_char(&mut r, '/');
    }
    let ghost head = r@;
    let mut i: usize = 0;
    while i < segs.len()
        invariant
            i <= segs.len(),
            head == (if abs { seq!['/'] } else { Seq::<char>::empty() }),
            r@ == head + join_segs(segs_view(segs@).subrange(0, i as int)),
        decreases segs.len() - i,
    {
        let ghost before = segs_view(segs@).subrange(0, i as int);
        let ghost after = segs_view(segs@).subrange(0, i + 1);
        assert(after.drop_last() =~= before);
        if i > 0 {
            push_char(&mut r, '/');
        }
        push_chars(&mut r, &segs[i]);
        i = i + 1;
        proof {
            if before.len() == 0 {
                assert(join_segs(before) =~= Seq::<char>::empty());
            }
            assert(r@ =~= head + join_segs(after));
        }
    }
    assert(segs_view(segs@).subrange(0, segs@.len() as int) =~= segs_view(segs@));
    r
}

/// Canonicalizes a path without requiring the files and folders to exist.
pub fn canonicalize_path(path: &str) -> (r: String)
    ensures
        r@ == canonical(path@),
{
    let v = chars_of(path);
    let abs = v.len() > 0 && v[0] == '/';
    let mut segs: Vec<Vec<char>> = Vec::new();
    assert(segs_view(segs@) =~= Seq::<Seq<char>>::empty());
    extend_segs(&mut segs, &v);
    render_exec(abs, &segs)
}

/// Joins `p` onto `base` as `PathBuf::push` does.
pub fn join_path(base: &str, p: &str) -> (r: String)
    ensures
        r@ == join_path_spec(base@, p@),
{
    let vb = chars_of(base);
    let vp = chars_of(p);
    if vp.len() > 0 && vp[0] == '/' {
        return string_of(&vp);
    }
    let mut r = string_of(&vb);
    if vb.len() > 0 && vb[vb.len() - 1] != '/' {
        push_char(&mut r, '/');
    }
    push_chars(&mut r, &vp);
    r
}

/// Whether the components `base` lead the components `p`.
fn leads_exec(base_abs: bool, base: &Vec<Vec<char>>, p_abs: bool, p: &Vec<Vec<char>>) -> (r: bool)
    ensures
        r == leads(base_abs, segs_view(base@), p_abs, segs_view(p@)),
{
    if !base_abs && base.len() == 0 {
        return true;
    }
    if base_abs != p_abs || base.len() > p.len() {
        return false;
    }
    let mut i: usize = 0;
    while i < base.len()
        invariant
            base.len() <= p.len(),
            i <= base.len(),
            forall|j: int| 0 <= j < i ==> segs_view(p@)[j] == segs_view(base@)[j],
        decreases base.len() - i,
    {
        if !vec_eq(&base[i], &p[i]) {
            assert(segs_view(p@).subrange(0, base@.len() as int)[i as int] != segs_view(base@)[i as int]);
            return false;
        }
        i = i + 1;
    }
    assert(segs_view(p@).subrange(0, base@.len() as int) =~= segs_view(base@));
    true
}

/// `p` starts with `base`, component by component (for paths without `.`
/// or `..` components, as canonical paths are, this is
/// `Path::starts_with`).
pub open spec fn starts_with_path(p: Seq<char>, base: Seq<char>) -> bool {
    leads(is_abs(base), canon_segs(base), is_abs(p), canon_segs(p))
}

/// Whether `p` starts with `base`, component by component.
pub fn path_starts_with(p: &str, base: &str) -> (r: bool)
    ensures
        r == starts_with_path(p@, base@),
{
    let vb = chars_of(base);
    let vp = chars_of(p);
    let mut bs: Vec<Vec<char>> = Vec::new();
    assert(segs_view(bs@) =~= Seq::<Seq<char>>::empty());
    extend_segs(&mut bs, &vb);
    let mut ps: Vec<Vec<char>> = Vec::new();
    assert(segs_view(ps@) =~= Seq::<Seq<char>>::empty());
    extend_segs(&mut ps, &vp);
    leads_exec(vb.len() > 0 && vb[0] == '/', &bs, vp.len() > 0 && vp[0] == '/', &ps)
}

/// A component of a canonical path: not empty, not `.` or `..`, and
/// without a separator.
pub open spec fn good_seg(x: Seq<char>) -> bool {
    x.len() > 0 && x != seq!['.'] && x != seq!['.', '.'] && !x.contains('/')
}

pub open spec fn all_good(segs: Seq<Seq<char>>) -> bool {
    forall|i: int| 0 <= i < segs.len() ==> good_seg(#[trigger] segs[i])
}

proof fn lemma_split_pieces_is_split_on(p: Seq<char>)
    ensures
        split_pieces(p) == crate::interactive::split_on(p, '/'),
    decreases p.len(),
{
    if p.len() > 0 {
        lemma_split_pieces_is_split_on(p.drop_last());
    }
}

proof fn lemma_split_pieces_no_slash(p: Seq<char>)
    ensures
        forall|i: int|
            0 <= i < split_pieces(p).len() ==> !(#[trigger] split_pieces(p)[i]).contains('/'),
    decreases p.len(),
{
    if p.len() > 0 {
        let pre = split_pieces(p.drop_last());
        lemma_split_pieces_no_slash(p.drop_last());
        lemma_split_pieces_nonempty(p.drop_last());
        if p.last() != '/' {
            let last = pre.last().push(p.last());
            assert(!last.contains('/')) by {
                if last.contains('/') {
                    let k = choose|k: int| 0 <= k < last.len() && last[k] == '/';
                    if k < pre.last().len() {
                        assert(pre.last()[k] == '/');
                        assert(pre[pre.len() - 1] == pre.last());
                    }
                }
            }
            assert forall|i: int| 0 <= i < split_pieces(p).len() implies !(
            #[trigger] split_pieces(p)[i]).contains('/') by {
                if i < pre.len() - 1 {
                    assert(split_pieces(p)[i] == pre[i]);
                }
            }
        } else {
            assert forall|i: int| 0 <= i < split_pieces(p).len() implies !(
            #[trigger] split_pieces(p)[i]).contains('/') by {
                if i < pre.len() {
                    assert(split_pieces(p)[i] == pre[i]);
                } else {
                    assert(split_pieces(p)[i] =~= Seq::<char>::empty());
                }
            }
        }
    }
}

proof fn lemma_fold_good(st: Seq<Seq<char>>, ps: Seq<Seq<char>>)
    requires
        all_good(st),
        forall|i: int| 0 <= i < ps.len() ==> !(#[trigger] ps[i]).contains('/'),
    ensures
        all_good(fold_pieces(st, ps)),
    decreases ps.len(),
{
    if ps.len() > 0 {
        let pre = ps.drop_last();
        assert forall|i: int| 0 <= i < pre.len() implies !(#[trigger] pre[i]).contains('/') by {
            assert(pre[i] == ps[i]);
        }
        lemma_fold_good(st, pre);
        let f = fold_pieces(st, pre);
        assert(!ps.last().contains('/')) by {
            assert(ps[ps.len() - 1] == ps.last());
        }
        if f.len() > 0 && ps.last() == seq!['.', '.'] {
            assert forall|i: int| 0 <= i < f.drop_last().len() implies good_seg(
                #[trigger] f.drop_last()[i],
            ) by {
                assert(f.drop_last()[i] == f[i]);
            }
        }
        if !(ps.last().len() == 0 || ps.last() == seq!['.'] || ps.last() == seq!['.', '.']) {
            assert forall|i: int| 0 <= i < f.push(ps.last()).len() implies good_seg(
                #[trigger] f.push(ps.last())[i],
            ) by {
                if i < f.len() {
                    assert(f.push(ps.last())[i] == f[i]);
                }
            }
        }
    }
}

/// The components of a canonical path are all proper components.
pub proof fn lemma_canon_segs_good(p: Seq<char>)
    ensures
        all_good(canon_segs(p)),
{
    lemma_split_pieces_no_slash(p);
    lemma_fold_good(Seq::empty(), split_pieces(p));
}

proof fn lemma_fold_concat(st: Seq<Seq<char>>, a: Seq<Seq<char>>, b: Seq<Seq<char>>)
    ensures
        fold_pieces(st, a + b) == fold_pieces(fold_pieces(st, a), b),
    decreases b.len(),
{
    if b.len() == 0 {
        assert(a + b =~= a);
    } else {
        lemma_fold_concat(st, a, b.drop_last());
        assert((a + b).drop_last() =~= a + b.drop_last());
        assert((a + b).last() == b.last());
    }
}

proof fn lemma_fold_good_pieces(st: Seq<Seq<char>>, segs: Seq<Seq<char>>)
    requires
        all_good(segs),
    ensures
        fold_pieces(st, segs) == st + segs,
    decreases segs.len(),
{
    if segs.len() > 0 {
        let pre = segs.drop_last();
        assert(all_good(pre)) by {
            assert forall|i: int| 0 <= i < pre.len() implies good_seg(#[trigger] pre[i]) by {
                assert(pre[i] == segs[i]);
            }
        }
        lemma_fold_good_pieces(st, pre);
        assert(good_seg(segs.last())) by {
            assert(segs[segs.len() - 1] == segs.last());
        }
        assert((st + pre).push(segs.last()) =~= st + segs);
    }
}

proof fn lemma_join_segs_split(segs: Seq<Seq<char>>)
    requires
        segs.len() > 0,
        all_good(segs),
    ensures
        split_pieces(join_segs(segs)) == segs,
        join_segs(segs).len() > 0,
        join_segs(segs)[0] == segs[0][0],
    decreases segs.len(),
{
    lemma_split_pieces_is_split_on(join_segs(segs));
    if segs.len() == 1 {
        assert(good_seg(segs[0]));
        crate::interactive::lemma_split_single(segs[0], '/');
        assert(seq![segs[0]] =~= segs);
    } else {
        let pre = segs.drop_last();
        assert(all_good(pre)) by {
            assert forall|i: int| 0 <= i < pre.len() implies good_seg(#[trigger] pre[i]) by {
                assert(pre[i] == segs[i]);
            }
        }
        lemma_join_segs_split(pre);
        assert(good_seg(segs.last())) by {
            assert(segs[segs.len() - 1] == segs.last());
        }
        crate::interactive::lemma_split_single(segs.last(), '/');
        crate::interactive::lemma_split_append(join_segs(pre), segs.last(), '/');
        lemma_split_pieces_is_split_on(join_segs(pre));
        assert(pre + seq![segs.last()] =~= segs);
        assert(pre[0] == segs[0]);
    }
}

proof fn lemma_fold_empty_piece(st: Seq<Seq<char>>)
    ensures
        fold_pieces(st, seq![Seq::<char>::empty()]) == st,
{
    let one = seq![Seq::<char>::empty()];
    assert(one.drop_last() =~= Seq::<Seq<char>>::empty());
    assert(one.last() == Seq::<char>::empty());
    assert(fold_pieces(st, one.drop_last()) == st);
    assert(fold_pieces(st, one) == step_piece(fold_pieces(st, one.drop_last()), one.last()));
    assert(step_piece(st, Seq::<char>::empty()) == st);
}

/// Rendering proper components and reading them back gives the same
/// components and the same root flag.
pub proof fn lemma_render_canon(abs: bool, segs: Seq<Seq<char>>)
    requires
        all_good(segs),
    ensures
        canon_segs(render(abs, segs)) == segs,
        is_abs(render(abs, segs)) == abs,
{
    let r = render(abs, segs);
    if segs.len() == 0 {
        assert(segs =~= Seq::<Seq<char>>::empty());
        assert(join_segs(segs) =~= Seq::<char>::empty());
        if abs {
            assert(r =~= seq!['/']);
            assert(seq!['/'].drop_last() =~= Seq::<char>::empty());
            assert(split_pieces(Seq::<char>::empty()) == seq![Seq::<char>::empty()]);
            assert(split_pieces(r) == seq![Seq::<char>::empty()].push(Seq::<char>::empty()));
            let e = Seq::<char>::empty();
            let ps = split_pieces(r);
            let one = seq![e];
            assert(ps == one.push(e));
            assert(ps.drop_last() =~= one);
            assert(ps.last() == e);
            assert(one.drop_last() =~= Seq::<Seq<char>>::empty());
            assert(one.last() == e);
            assert(fold_pieces(Seq::<Seq<char>>::empty(), Seq::<Seq<char>>::empty())
                == Seq::<Seq<char>>::empty());
            assert(fold_pieces(Seq::<Seq<char>>::empty(), one) == step_piece(
                fold_pieces(Seq::<Seq<char>>::empty(), one.drop_last()),
                e,
            ));
            assert(fold_pieces(Seq::<Seq<char>>::empty(), one) == Seq::<Seq<char>>::empty());
            assert(fold_pieces(Seq::<Seq<char>>::empty(), ps) == step_piece(
                fold_pieces(Seq::<Seq<char>>::empty(), ps.drop_last()),
                ps.last(),
            ));
            assert(canon_segs(r) == segs);
        } else {
            assert(r =~= Seq::<char>::empty());
            lemma_fold_empty_piece(Seq::<Seq<char>>::empty());
            assert(canon_segs(r) == segs);
        }
    } else {
        lemma_join_segs_split(segs);
        lemma_fold_good_pieces(Seq::empty(), segs);
        assert(Seq::<Seq<char>>::empty() + segs =~= segs);
        if abs {
            assert(r =~= Seq::<char>::empty() + seq!['/'] + join_segs(segs));
            lemma_split_pieces_is_split_on(r);
            lemma_split_pieces_is_split_on(Seq::<char>::empty());
            lemma_split_pieces_is_split_on(join_segs(segs));
            crate::interactive::lemma_split_append(Seq::<char>::empty(), join_segs(segs), '/');
            assert(split_pieces(Seq::<char>::empty()) == seq![Seq::<char>::empty()]);
            lemma_fold_concat(Seq::empty(), seq![Seq::<char>::empty()], segs);
            lemma_fold_empty_piece(Seq::<Seq<char>>::empty());
            assert(split_pieces(r) == seq![Seq::<char>::empty()] + segs);
            assert(canon_segs(r) == segs);
        } else {
            assert(r =~= join_segs(segs));
            assert(canon_segs(r) == segs);
            assert(good_seg(segs[0]));
            assert(segs[0][0] != '/') by {
                assert(segs[0].contains(segs[0][0]));
            }
        }
    }
}

/// Canonicalizing is idempotent: a canonical path is its own canonical
/// form.
pub proof fn lemma_canonical_idempotent(p: Seq<char>)
    ensures
        canonical(canonical(p)) == canonical(p),
{
    lemma_canon_segs_good(p);
    lemma_render_canon(is_abs(p), canon_segs(p));
}

/// A path accepted by the sandbox lies inside it, component by component,
/// and is already canonical.
pub proof fn lemma_sandboxed_inside(p: Seq<char>, sandbox: Seq<char>)
    requires
        stays_in_sandbox(p, sandbox),
    ensures
        starts_with_path(render(sandboxed_abs(p, sandbox), sandboxed_segs(p, sandbox)), sandbox),
        canonical(render(sandboxed_abs(p, sandbox), sandboxed_segs(p, sandbox))) == render(
            sandboxed_abs(p, sandbox),
            sandboxed_segs(p, sandbox),
        ),
{
    if is_abs(p) {
        lemma_canon_segs_good(p);
    } else {
        lemma_canon_segs_good(sandbox);
        lemma_split_pieces_no_slash(p);
        lemma_fold_good(canon_segs(sandbox), split_pieces(p));
    }
    lemma_render_canon(sandboxed_abs(p, sandbox), sandboxed_segs(p, sandbox));
}

/// Paths that can be made absolute and confined to a sandbox.
pub trait AbsolutePathExt {
    /// The path text.
    spec fn path_text(&self) -> Seq<char>;

    /// Converts a relative path to an absolute path, against the working
    /// directory `cwd`. An absolute path is returned unchanged.
    fn as_absolute(&self, cwd: &str) -> (r: String)
        ensures
            r@ == (if is_abs(self.path_text()) {
                self.path_text()
            } else {
                canonical(join_path_spec(cwd@, self.path_text()))
            }),
    ;

    /// Converts a relative path to an absolute path and checks that it is
    /// sandboxed within `sandbox`: a relative path is taken from the
    /// canonical sandbox, and the canonical result must start with it.
    fn as_sandboxed_absolute(&self, sandbox: &str) -> (r: Result<String, String>)
        ensures
            stays_in_sandbox(self.path_text(), sandbox@) ==> r == Ok::<String, String>(r->Ok_0)
                && r->Ok_0@ == render(
                sandboxed_abs(self.path_text(), sandbox@),
                sandboxed_segs(self.path_text(), sandbox@),
            ),
            !stays_in_sandbox(self.path_text(), sandbox@) ==> r is Err && r->Err_0@
                == escape_message(),
    ;
}

fn as_absolute_impl(p: &str, cwd: &str) -> (r: String)
    ensures
        r@ == (if is_abs(p@) {
            p@
        } else {
            canonical(join_path_spec(cwd@, p@))
        }),
{
    let v = chars_of(p);
    if v.len() > 0 && v[0] == '/' {
        owned(p)
    } else {
        let joined = join_path(cwd, p);
        canonicalize_path(&joined)
    }
}

fn as_sandboxed_absolute_impl(p: &str, sandbox: &str) -> (r: Result<String, String>)
    ensures
        stays_in_sandbox(p@, sandbox@) ==> r is Ok && r->Ok_0@ == render(
            sandboxed_abs(p@, sandbox@),
            sandboxed_segs(p@, sandbox@),
        ),
        !stays_in_sandbox(p@, sandbox@) ==> r is Err && r->Err_0@ == escape_message(),
{
    let vs = chars_of(sandbox);
    let sandbox_abs = vs.len() > 0 && vs[0] == '/';
    let mut sandbox_segs: Vec<Vec<char>> = Vec::new();
    assert(segs_view(sandbox_segs@) =~= Seq::<Seq<char>>::empty());
    extend_segs(&mut sandbox_segs, &vs);
    let vp = chars_of(p);
    let p_abs = vp.len() > 0 && vp[0] == '/';
    let mut segs: Vec<Vec<char>>;
    if p_abs {
        segs = Vec::new();
        assert(segs_view(segs@) =~= Seq::<Seq<char>>::empty());
    } else {
        segs = sandbox_segs.clone();
        assert(segs_view(segs@) =~= segs_view(sandbox_segs@));
    }
    extend_segs(&mut segs, &vp);
    let abs = p_abs || sandbox_abs;
    if !leads_exec(sandbox_abs, &sandbox_segs, abs, &segs) {
        let msg = owned("Path cannot escape the sandbox");
        return Err(msg);
    }
    Ok(render_exec(abs, &segs))
}

impl AbsolutePathExt for str {
    open spec fn path_text(&self) -> Seq<char> {
        self@
    }

    fn as_absolute(&self, cwd: &str) -> (r: String) {
        as_absolute_impl(self, cwd)
    }

    fn as_sandboxed_absolute(&self, sandbox: &str) -> (r: Result<String, String>) {
        as_sandboxed_absolute_impl(self, sandbox)
    }
}

impl AbsolutePathExt for String {
    open spec fn path_text(&self) -> Seq<char> {
        self@
    }

    fn as_absolute(&self, cwd: &str) -> (r: String) {
        as_absolute_impl(self.as_str(), cwd)
    }

    fn as_sandboxed_absolute(&self, sandbox: &str) -> (r: Result<String, String>) {
        as_sandboxed_absolute_impl(self.as_str(), sandbox)
    }
}

} // verus!
