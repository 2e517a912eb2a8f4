//! The filterable list projection: which items of an ordered collection a
//! filter text keeps, by case-insensitive substring match.
use vstd::prelude::*;
use crate::text::{chars_of, contains, contains_seq, lower_of, lowercase, string_of};

verus! {

/// A text passes a needle when the needle is empty or occurs in it.
pub open spec fn passes(hay: Seq<char>, needle: Seq<char>) -> bool {
    needle.len() == 0 || contains_seq(hay, needle)
}

/// The positions, in order, of the texts that pass `needle`.
pub open spec fn project_seq(hays: Seq<Seq<char>>, needle: Seq<char>) -> Seq<int>
    decreases hays.len(),
{
    if hays.len() == 0 {
        Seq::empty()
    } else {
        let p = project_seq(hays.drop_last(), needle);
        if passes(hays.last(), needle) {
            p.push(hays.len() - 1)
        } else {
            p
        }
    }
}

/// The lower-cased character views of a sequence of strings.
pub open spec fn lowered(v: Seq<String>) -> Seq<Seq<char>> {
    v.map_values(|s: String| lower_of(s@))
}

/// The positions of `texts` kept by `filter`.
pub open spec fn visible(texts: Seq<String>, filter: Seq<char>) -> Seq<int> {
    project_seq(lowered(texts), lower_of(filter))
}

/// The positions of the search texts kept by `filter`, ignoring case.
pub open spec fn visible_of(texts: Seq<Seq<char>>, filter: Seq<char>) -> Seq<int> {
    project_seq(texts.map_values(|t: Seq<char>| lower_of(t)), lower_of(filter))
}

/// The positions as integers.
pub open spec fn ints(v: Seq<usize>) -> Seq<int> {
    v.map_values(|i: usize| i as int)
}

/// The texts at the given positions.
pub open spec fn pick(hays: Seq<Seq<char>>, idx: Seq<int>) -> Seq<Seq<char>> {
    idx.map_values(|i: int| hays[i])
}

/// The projection keeps exactly the passing positions, each in range, in
/// increasing order.
pub proof fn lemma_project_order(hays: Seq<Seq<char>>, needle: Seq<char>)
    ensures
        project_seq(hays, needle).len() <= hays.len(),
        forall|k: int| 0 <= k < project_seq(hays, needle).len()
            ==> 0 <= #[trigger] project_seq(hays, needle)[k] < hays.len()
                && passes(hays[project_seq(hays, needle)[k]], needle),
        forall|a: int, b: int| 0 <= a < b < project_seq(hays, needle).len()
            ==> project_seq(hays, needle)[a] < project_seq(hays, needle)[b],
        forall|i: int| 0 <= i < hays.len() && passes(#[trigger] hays[i], needle)
            ==> project_seq(hays, needle).contains(i),
    decreases hays.len(),
{
    if hays.len() > 0 {
        let dl = hays.drop_last();
        lemma_project_order(dl, needle);
        let p = project_seq(dl, needle);
        assert forall|i: int| 0 <= i < hays.len() && passes(#[trigger] hays[i], needle)
            implies project_seq(hays, needle).contains(i) by {
            if i < hays.len() - 1 {
                assert(dl[i] == hays[i]);
                let j = choose|j: int| 0 <= j < p.len() && p[j] == i;
                assert(project_seq(hays, needle)[j] == i);
            } else {
                let r = project_seq(hays, needle);
                assert(r[r.len() - 1] == i);
            }
        }
    }
}

/// Filtering the visible items again with the same needle keeps all of
/// them, so filtering twice gives the positions that filtering once gives.
pub proof fn lemma_project_idempotent(hays: Seq<Seq<char>>, needle: Seq<char>)
    ensures
        project_seq(pick(hays, project_seq(hays, needle)), needle)
            == Seq::new(project_seq(hays, needle).len(), |k: int| k),
        project_seq(pick(hays, project_seq(hays, needle)), needle).map_values(
            |k: int| project_seq(hays, needle)[k],
        ) == project_seq(hays, needle),
    decreases hays.len(),
{
    let r = project_seq(hays, needle);
    if hays.len() > 0 {
        let dl = hays.drop_last();
        let p = project_seq(dl, needle);
        lemma_project_idempotent(dl, needle);
        lemma_project_order(dl, needle);
        assert(pick(hays, p) =~= pick(dl, p));
        if passes(hays.last(), needle) {
            assert(pick(hays, r) =~= pick(dl, p).push(hays.last()));
            assert(pick(hays, r).drop_last() =~= pick(dl, p));
            assert(project_seq(pick(hays, r), needle) =~= Seq::new(r.len(), |k: int| k));
        } else {
            assert(pick(hays, r) =~= pick(dl, p));
        }
    } else {
        assert(project_seq(pick(hays, r), needle) =~= Seq::new(r.len(), |k: int| k));
    }
    assert(project_seq(pick(hays, r), needle).map_values(|k: int| r[k]) =~= r);
}

/// Filtering the visible strings again with the same filter keeps every
/// one of them: the positions that come back, read through the first
/// result, are the positions of filtering once, in the same order.
pub proof fn lemma_filter_twice(texts: Seq<String>, filter: Seq<char>)
    ensures
        visible(visible(texts, filter).map_values(|i: int| texts[i]), filter)
            == Seq::new(visible(texts, filter).len(), |k: int| k),
        visible(visible(texts, filter).map_values(|i: int| texts[i]), filter).map_values(
            |k: int| visible(texts, filter)[k],
        ) == visible(texts, filter),
        forall|a: int, b: int| 0 <= a < b < visible(texts, filter).len()
            ==> visible(texts, filter)[a] < visible(texts, filter)[b],
{
    let hays = lowered(texts);
    let r = visible(texts, filter);
    lemma_project_order(hays, lower_of(filter));
    lemma_project_idempotent(hays, lower_of(filter));
    assert(lowered(r.map_values(|i: int| texts[i])) =~= pick(hays, r));
}

/// The positions of `hays` that pass `needle`; both are already lower-cased.
pub fn project_lowered(hays: &Vec<Vec<char>>, needle: &Vec<char>) -> (r: Vec<usize>)
    ensures
        ints(r@) == project_seq(hays@.map_values(|h: Vec<char>| h@), needle@),
{
    let ghost all = hays@.map_values(|h: Vec<char>| h@);
    let mut out: Vec<usize> = Vec::new();
    let mut i: usize = 0;
    assert(all.subrange(0, 0) =~= Seq::<Seq<char>>::empty());
    while i < hays.len()
        invariant
            i <= hays.len(),
            all == hays@.map_values(|h: Vec<char>| h@),
            ints(out@) == project_seq(all.subrange(0, i as int), needle@),
        decreases hays.len() - i,
    {
        let ghost sub = all.subrange(0, i + 1);
        assert(sub.drop_last() =~= all.subrange(0, i as int));
        assert(sub.last() == hays@[i as int]@);
        let keep = needle.len() == 0 || contains(&hays[i], needle);
        if keep {
            let ghost prev = ints(out@);
            out.push(i);
            assert(ints(out@) =~= prev.push(i as int));
        }
        i = i + 1;
    }
    assert(all.subrange(0, hays.len() as int) =~= all);
    out
}

/// The positions of `texts` that `filter` keeps, ignoring case; an empty
/// filter keeps all of them.
pub fn project(texts: &Vec<String>, filter: &str) -> (r: Vec<usize>)
    ensures
        ints(r@) == visible(texts@, filter@),
{
    let needle = chars_of(lowercase(filter).as_str());
    let mut hays: Vec<Vec<char>> = Vec::new();
    let mut i: usize = 0;
    while i < texts.len()
        invariant
            i <= texts.len(),
            hays@.map_values(|h: Vec<char>| h@) =~= lowered(texts@).subrange(0, i as int),
        decreases texts.len() - i,
    {
        let h = chars_of(lowercase(texts[i].as_str()).as_str());
        let ghost prev = hays@.map_values(|h: Vec<char>| h@);
        hays.push(h);
        assert(hays@.map_values(|h: Vec<char>| h@) =~= prev.push(lower_of(texts@[i as int]@)));
        i = i + 1;
    }
    assert(lowered(texts@).subrange(0, texts.len() as int) =~= lowered(texts@));
    project_lowered(&hays, &needle)
}

/// The positions of the search texts that `filter` keeps, ignoring case.
pub fn project_chars(texts: &Vec<Vec<char>>, filter: &Vec<char>) -> (r: Vec<usize>)
    ensures
        ints(r@) == visible_of(texts@.map_values(|t: Vec<char>| t@), filter@),
{
    let needle = chars_of(lowercase(string_of(filter).as_str()).as_str());
    let ghost all = texts@.map_values(|t: Vec<char>| t@);
    let mut hays: Vec<Vec<char>> = Vec::new();
    let mut i: usize = 0;
    while i < texts.len()
        invariant
            i <= texts.len(),
            all == texts@.map_values(|t: Vec<char>| t@),
            hays@.map_values(|h: Vec<char>| h@) =~= all.map_values(|t: Seq<char>| lower_of(t)).subrange(0, i as int),
        decreases texts.len() - i,
    {
        let h = chars_of(lowercase(string_of(&texts[i]).as_str()).as_str());
        let ghost prev = hays@.map_values(|h: Vec<char>| h@);
        hays.push(h);
        assert(hays@.map_values(|h: Vec<char>| h@) =~= prev.push(lower_of(texts@[i as int]@)));
        i = i + 1;
    }
    assert(all.map_values(|t: Seq<char>| lower_of(t)).subrange(0, texts.len() as int)
        =~= all.map_values(|t: Seq<char>| lower_of(t)));
    project_lowered(&hays, &needle)
}

} // verus!
