//! Slash-separated paths as character sequences: joining, the last
//! component, and turning a branch name into a safe relative path.
use vstd::prelude::*;
use crate::text::{chars_of, split_chars, split_on, string_of, views};

verus! {

/// `b` appended to `a` as `PathBuf::push` does: an absolute `b` replaces
/// `a`, and a separator goes between unless `a` is empty or ends in one.
pub open spec fn join_path(a: Seq<char>, b: Seq<char>) -> Seq<char> {
    if b.len() > 0 && b[0] == '/' {
        b
    } else if a.len() == 0 {
        b
    } else if a.last() == '/' {
        a + b
    } else {
        a + seq!['/'] + b
    }
}

/// Joins two paths.
pub fn path_join(a: &str, b: &str) -> (r: String)
    ensures
        r@ == join_path(a@, b@),
{
    let av = chars_of(a);
    let bv = chars_of(b);
    let mut out: Vec<char> = Vec::new();
    if bv.len() > 0 && bv[0] == '/' {
        return string_of(&bv);
    }
    if av.len() > 0 {
        out = av;
        if out[out.len() - 1] != '/' {
            out.push('/');
        }
    }
    let ghost head = out@;
    let mut i: usize = 0;
    while i < bv.len()
        invariant
            i <= bv.len(),
            out@ == head + bv@.subrange(0, i as int),
        decreases bv.len() - i,
    {
        out.push(bv[i]);
        i = i + 1;
        assert(out@ =~= head + bv@.subrange(0, i as int));
    }
    assert(bv@.subrange(0, bv@.len() as int) =~= bv@);
    assert(out@ =~= join_path(a@, b@));
    string_of(&out)
}

/// The last named component of the pieces, skipping empty ones and `.`.
pub open spec fn last_named(segs: Seq<Seq<char>>) -> Option<Seq<char>>
    decreases segs.len(),
{
    if segs.len() == 0 {
        None
    } else if segs.last().len() == 0 || segs.last() == seq!['.'] {
        last_named(segs.drop_last())
    } else {
        Some(segs.last())
    }
}

/// The final component of a path, as `Path::file_name` gives it: none for
/// a path without one or ending in `..`.
pub open spec fn file_name_of(p: Seq<char>) -> Option<Seq<char>> {
    match last_named(split_on(p, '/')) {
        Some(n) => if n == seq!['.', '.'] { None } else { Some(n) },
        None => None,
    }
}

fn is_dot(v: &Vec<char>) -> (r: bool)
    ensures
        r == (v@ == seq!['.']),
{
    let r = v.len() == 1 && v[0] == '.';
    if v.len() == 1 {
        assert(v@ =~= seq![v@[0]]);
    }
    r
}

fn is_dot_dot(v: &Vec<char>) -> (r: bool)
    ensures
        r == (v@ == seq!['.', '.']),
{
    let r = v.len() == 2 && v[0] == '.' && v[1] == '.';
    if v.len() == 2 {
        assert(v@ =~= seq![v@[0], v@[1]]);
    }
    r
}

/// The final component of a path.
pub fn file_name(p: &str) -> (r: Option<String>)
    ensures
        r matches Some(s) ==> file_name_of(p@) == Some(s@),
        r is None ==> file_name_of(p@) is None,
{
    let pv = chars_of(p);
    let segs = split_chars(&pv, '/');
    let mut i = segs.len();
    assert(views(segs@).subrange(0, i as int) =~= views(segs@));
    while i > 0
        invariant
            i <= segs@.len(),
            last_named(split_on(p@, '/')) == last_named(views(segs@).subrange(0, i as int)),
            views(segs@) == split_on(p@, '/'),
        decreases i,
    {
        let ghost sub = views(segs@).subrange(0, i as int);
        assert(sub.drop_last() =~= views(segs@).subrange(0, i - 1));
        assert(sub.last() == segs@[i - 1]@);
        let s = &segs[i - 1];
        if s.len() > 0 && !is_dot(s) {
            if is_dot_dot(s) {
                return None;
            }
            return Some(string_of(s));
        }
        i = i - 1;
    }
    None
}

/// Characters that may stand in a path component as they are.
pub open spec fn is_safe(c: char) -> bool {
    ('a' <= c && c <= 'z') || ('A' <= c && c <= 'Z') || ('0' <= c && c <= '9') || c == '-'
        || c == '_' || c == '.'
}

/// A piece with every unsafe character replaced by `-`.
pub open spec fn clean(seg: Seq<char>) -> Seq<char> {
    seg.map_values(|c: char| if is_safe(c) { c } else { '-' })
}

/// The cleaned non-empty pieces, in order.
pub open spec fn clean_segments(segs: Seq<Seq<char>>) -> Seq<Seq<char>>
    decreases segs.len(),
{
    if segs.len() == 0 {
        Seq::empty()
    } else if segs.last().len() == 0 {
        clean_segments(segs.drop_last())
    } else {
        clean_segments(segs.drop_last()).push(clean(segs.last()))
    }
}

/// The pieces joined by `/`.
pub open spec fn join_segments(segs: Seq<Seq<char>>) -> Seq<char>
    decreases segs.len(),
{
    if segs.len() == 0 {
        Seq::empty()
    } else if segs.len() == 1 {
        segs[0]
    } else {
        join_segments(segs.drop_last()) + seq!['/'] + segs.last()
    }
}

/// The component that stands in for a name with nothing usable in it.
pub open spec fn fallback_segment() -> Seq<char> {
    seq!['b', 'r', 'a', 'n', 'c', 'h']
}

/// The relative path for a branch: its non-empty `/`-pieces, each with
/// unsafe characters replaced by `-`, or the fallback when none is left.
pub open spec fn sanitized(branch: Seq<char>) -> Seq<char> {
    let segs = clean_segments(split_on(branch, '/'));
    if segs.len() == 0 {
        fallback_segment()
    } else {
        join_segments(segs)
    }
}

fn is_safe_exec(c: char) -> (r: bool)
    ensures
        r == is_safe(c),
{
    ('a' <= c && c <= 'z') || ('A' <= c && c <= 'Z') || ('0' <= c && c <= '9') || c == '-'
        || c == '_' || c == '.'
}

/// Turns a branch name into a relative path that is safe on any file
/// system.
pub fn sanitize_branch_for_path(branch: &str) -> (r: String)
    ensures
        r@ == sanitized(branch@),
{
    let bv = chars_of(branch);
    let segs = split_chars(&bv, '/');
    let ghost all = views(segs@);
    let mut out: Vec<char> = Vec::new();
    let mut any = false;
    let mut i: usize = 0;
    assert(all.subrange(0, 0) =~= Seq::<Seq<char>>::empty());
    while i < segs.len()
        invariant
            i <= segs@.len(),
            all == views(segs@),
            any == (clean_segments(all.subrange(0, i as int)).len() > 0),
            out@ == join_segments(clean_segments(all.subrange(0, i as int))),
        decreases segs.len() - i,
    {
        let ghost sub = all.subrange(0, i + 1);
        assert(sub.drop_last() =~= all.subrange(0, i as int));
        assert(sub.last() == segs@[i as int]@);
        let seg = &segs[i];
        if seg.len() > 0 {
            let ghost before = out@;
            if any {
                out.push('/');
            }
            let ghost head = out@;
            let mut k: usize = 0;
            while k < seg.len()
                invariant
                    k <= seg@.len(),
                    out@ == head + clean(seg@).subrange(0, k as int),
                decreases seg.len() - k,
            {
                let c = seg[k];
                if is_safe_exec(c) {
                    out.push(c);
                } else {
                    out.push('-');
                }
                k = k + 1;
                assert(out@ =~= head + clean(seg@).subrange(0, k as int));
            }
            assert(clean(seg@).subrange(0, seg@.len() as int) =~= clean(seg@));
            let ghost prev = clean_segments(all.subrange(0, i as int));
            assert(clean_segments(sub) == prev.push(clean(seg@)));
            if !any {
                assert(prev.push(clean(seg@)) =~= seq![clean(seg@)]);
                assert(out@ =~= join_segments(prev.push(clean(seg@))));
            } else {
                assert(prev.push(clean(seg@)).drop_last() =~= prev);
                assert(out@ =~= join_segments(prev.push(clean(seg@))));
            }
            any = true;
        }
        i = i + 1;
    }
    assert(all.subrange(0, segs@.len() as int) =~= all);
    if !any {
        let fb = vec!['b', 'r', 'a', 'n', 'c', 'h'];
        assert(fb@ =~= fallback_segment());
        return string_of(&fb);
    }
    string_of(&out)
}

/// A relative path with no empty component: not empty, no `/` at either
/// end nor two in a row, and only safe characters between the separators.
pub open spec fn tidy_relative(p: Seq<char>) -> bool {
    &&& p.len() > 0
    &&& p[0] != '/'
    &&& p.last() != '/'
    &&& forall|i: int| 0 <= i < p.len() ==> is_safe(#[trigger] p[i]) || p[i] == '/'
    &&& forall|i: int| 0 <= i < p.len() - 1 ==> !(#[trigger] p[i] == '/' && p[i + 1] == '/')
}

proof fn lemma_clean_segments_tidy(segs: Seq<Seq<char>>)
    ensures
        forall|j: int| 0 <= j < clean_segments(segs).len() ==> #[trigger] clean_segments(segs)[j].len() > 0
            && forall|i: int| 0 <= i < clean_segments(segs)[j].len() ==> is_safe(clean_segments(segs)[j][i]),
    decreases segs.len(),
{
    if segs.len() > 0 {
        lemma_clean_segments_tidy(segs.drop_last());
        let x = segs.last();
        let c = clean(x);
        assert forall|i: int| 0 <= i < c.len() implies is_safe(c[i]) by {
            assert(c[i] == (if is_safe(x[i]) { x[i] } else { '-' }));
        }
        let prev = clean_segments(segs.drop_last());
        if x.len() > 0 {
            assert forall|j: int| 0 <= j < prev.push(c).len() implies #[trigger] prev.push(c)[j].len() > 0
                && forall|i: int| 0 <= i < prev.push(c)[j].len() ==> is_safe(prev.push(c)[j][i]) by {
                if j < prev.len() {
                    assert(prev.push(c)[j] == prev[j]);
                }
            }
        }
    }
}

proof fn lemma_join_tidy(segs: Seq<Seq<char>>)
    requires
        segs.len() > 0,
        forall|j: int| 0 <= j < segs.len() ==> #[trigger] segs[j].len() > 0
            && forall|i: int| 0 <= i < segs[j].len() ==> is_safe(segs[j][i]),
    ensures
        tidy_relative(join_segments(segs)),
    decreases segs.len(),
{
    if segs.len() > 1 {
        let dl = segs.drop_last();
        assert forall|j: int| 0 <= j < dl.len() implies #[trigger] dl[j].len() > 0
            && forall|i: int| 0 <= i < dl[j].len() ==> is_safe(dl[j][i]) by {
            assert(dl[j] == segs[j]);
        }
        lemma_join_tidy(dl);
        let a = join_segments(dl);
        let x = segs.last();
        let p = a + seq!['/'] + x;
        assert(segs[segs.len() - 1] == x);
        assert(p == join_segments(segs));
        assert forall|i: int| 0 <= i < p.len() implies is_safe(#[trigger] p[i]) || p[i] == '/' by {
            if i < a.len() {
                assert(p[i] == a[i]);
            } else if i > a.len() {
                assert(p[i] == x[i - a.len() - 1]);
            }
        }
        assert forall|i: int| 0 <= i < p.len() - 1 implies !(#[trigger] p[i] == '/' && p[i + 1] == '/') by {
            if i < a.len() - 1 {
                assert(p[i] == a[i] && p[i + 1] == a[i + 1]);
            } else if i == a.len() - 1 {
                assert(p[i] == a.last());
            } else if i == a.len() {
                assert(p[i + 1] == x[0]);
            } else {
                assert(p[i] == x[i - a.len() - 1]);
            }
        }
        assert(p.last() == x.last());
    } else {
        assert(segs[0].len() > 0);
    }
}

/// Whatever the branch name, its path is tidy: no empty component, and
/// nothing but safe characters and separators.
pub proof fn lemma_sanitized_tidy(branch: Seq<char>)
    ensures
        tidy_relative(sanitized(branch)),
{
    let segs = clean_segments(split_on(branch, '/'));
    if segs.len() == 0 {
        let f = fallback_segment();
        assert(f.len() == 6);
        assert(forall|i: int| 0 <= i < f.len() ==> is_safe(#[trigger] f[i]));
    } else {
        lemma_clean_segments_tidy(split_on(branch, '/'));
        lemma_join_tidy(segs);
    }
}

} // verus!
