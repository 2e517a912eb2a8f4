//! Quick-select codes: one- and two-symbol mnemonics over a pool of keys,
//! and the chord buffer that resolves keystrokes against them.
use vstd::prelude::*;
use vstd::arithmetic::div_mod::{lemma_fundamental_div_mod, lemma_multiply_divide_lt, lemma_small_mod};
use crate::text::{chars_eq, chars_of, starts_with, string_of, push_char};

verus! {

/// The code of the item at position `i`: the `i`-th symbol while the pool
/// lasts, then two symbols taken row by row over the pool.
pub open spec fn code_at(pool: Seq<char>, i: int) -> Seq<char> {
    let k = pool.len() as int;
    if i < k {
        seq![pool[i]]
    } else {
        seq![pool[((i - k) / k) % k], pool[(i - k) % k]]
    }
}

/// The codes of the first `n` items; none at all for an empty pool.
pub open spec fn assigned(pool: Seq<char>, n: nat) -> Seq<Seq<char>> {
    if pool.len() == 0 {
        Seq::empty()
    } else {
        Seq::new(n, |i: int| code_at(pool, i))
    }
}

/// The character views of a sequence of strings.
pub open spec fn strs(v: Seq<String>) -> Seq<Seq<char>> {
    v.map_values(|s: String| s@)
}

/// Gives the first `n` items their codes over `pool`.
pub fn assign_hotkeys(n: usize, pool: &[char]) -> (r: Vec<String>)
    ensures
        strs(r@) == assigned(pool@, n as nat),
{
    let m = pool.len();
    let mut out: Vec<String> = Vec::new();
    if m == 0 {
        assert(strs(out@) =~= assigned(pool@, n as nat));
        return out;
    }
    let mut i: usize = 0;
    while i < n
        invariant
            m == pool@.len(),
            m > 0,
            i <= n,
            strs(out@) =~= Seq::new(i as nat, |k: int| code_at(pool@, k)),
        decreases n - i,
    {
        let mut code = String::new();
        if i < m {
            push_char(&mut code, pool[i]);
        } else {
            let j = i - m;
            push_char(&mut code, pool[(j / m) % m]);
            push_char(&mut code, pool[j % m]);
        }
        assert(code@ =~= code_at(pool@, i as int));
        let ghost prev = strs(out@);
        out.push(code);
        assert(strs(out@) =~= prev.push(code_at(pool@, i as int)));
        i = i + 1;
    }
    out
}

/// Any `K + K * K` items get distinct codes from a pool of `K` distinct
/// symbols.
pub proof fn lemma_codes_distinct(pool: Seq<char>, n: nat)
    requires
        pool.no_duplicates(),
        n <= pool.len() + pool.len() * pool.len(),
    ensures
        assigned(pool, n).no_duplicates(),
{
    let k = pool.len() as int;
    if k > 0 {
        let codes = assigned(pool, n);
        assert forall|a: int, b: int| 0 <= a < codes.len() && 0 <= b < codes.len() && a != b
            implies codes[a] != codes[b] by {
            if a >= k && b >= k {
                let x = a - k;
                let y = b - k;
                assert(x < k * k);
                assert(y < k * k);
                lemma_multiply_divide_lt(x, k, k);
                lemma_multiply_divide_lt(y, k, k);
                lemma_small_mod((x / k) as nat, k as nat);
                lemma_small_mod((y / k) as nat, k as nat);
                lemma_fundamental_div_mod(x, k);
                lemma_fundamental_div_mod(y, k);
                if codes[a] == codes[b] {
                    assert(codes[a][0] == codes[b][0]);
                    assert(codes[a][1] == codes[b][1]);
                    assert(x / k == y / k);
                    assert(x % k == y % k);
                    assert(x == y);
                }
            } else if a < k && b < k {
                if codes[a] == codes[b] {
                    assert(codes[a][0] == codes[b][0]);
                }
            } else {
                assert(codes[a].len() != codes[b].len());
            }
        }
    }
}

/// Symbols for repository codes; `j`, `k`, `g`, `q` and `/` stay free
/// for movement, jumps, quitting and filtering.
pub fn hotkey_pool_repos() -> (r: Vec<char>)
    ensures
        r@ == repo_pool(),
{
    let r = vec![
        'a', 's', 'd', 'f', 'h', 'l', 'w', 'e', 'r', 't', 'y', 'u', 'i', 'o', 'p', 'z', 'x', 'c',
        'v', 'b', 'n', 'm',
    ];
    assert(r@ =~= repo_pool());
    r
}

pub open spec fn repo_pool() -> Seq<char> {
    seq![
        'a', 's', 'd', 'f', 'h', 'l', 'w', 'e', 'r', 't', 'y', 'u', 'i', 'o', 'p', 'z', 'x', 'c',
        'v', 'b', 'n', 'm',
    ]
}

/// Symbols for worktree codes: as for repositories, with `n` kept for
/// creating a worktree.
pub fn hotkey_pool_worktrees() -> (r: Vec<char>)
    ensures
        r@ == worktree_pool(),
{
    let r = vec![
        'a', 's', 'd', 'f', 'h', 'l', 'w', 'e', 'r', 't', 'y', 'u', 'i', 'o', 'p', 'z', 'x', 'c',
        'v', 'b', 'm',
    ];
    assert(r@ =~= worktree_pool());
    r
}

pub open spec fn worktree_pool() -> Seq<char> {
    seq![
        'a', 's', 'd', 'f', 'h', 'l', 'w', 'e', 'r', 't', 'y', 'u', 'i', 'o', 'p', 'z', 'x', 'c',
        'v', 'b', 'm',
    ]
}

fn pool_contains(pool: &Vec<char>, c: char) -> (r: bool)
    ensures
        r == pool@.contains(c),
{
    let mut i: usize = 0;
    while i < pool.len()
        invariant
            i <= pool.len(),
            forall|k: int| 0 <= k < i ==> pool@[k] != c,
        decreases pool.len() - i,
    {
        if pool[i] == c {
            return true;
        }
        i = i + 1;
    }
    false
}

/// Whether `c` is a symbol of the repository pool.
pub fn is_repo_hotkey(c: char) -> (r: bool)
    ensures
        r == repo_pool().contains(c),
{
    pool_contains(&hotkey_pool_repos(), c)
}

/// Whether `c` is a symbol of the worktree pool.
pub fn is_worktree_hotkey(c: char) -> (r: bool)
    ensures
        r == worktree_pool().contains(c),
{
    pool_contains(&hotkey_pool_worktrees(), c)
}

/// The last position whose code is exactly `buf`, if any.
pub open spec fn exact_match(codes: Seq<Seq<char>>, buf: Seq<char>) -> Option<int>
    decreases codes.len(),
{
    if codes.len() == 0 {
        None
    } else if codes.last() == buf {
        Some(codes.len() - 1)
    } else {
        exact_match(codes.drop_last(), buf)
    }
}

pub proof fn lemma_exact_match(codes: Seq<Seq<char>>, buf: Seq<char>)
    ensures
        exact_match(codes, buf) matches Some(i) ==> 0 <= i < codes.len() && codes[i] == buf,
        exact_match(codes, buf) is None <==> forall|i: int| 0 <= i < codes.len() ==> codes[i] != buf,
    decreases codes.len(),
{
    if codes.len() > 0 {
        lemma_exact_match(codes.drop_last(), buf);
        if codes.last() != buf {
            assert forall|i: int| 0 <= i < codes.len() - 1 implies codes.drop_last()[i] == codes[i] by {}
        }
    }
}

/// Some code starts with `buf`.
pub open spec fn prefix_of_some(codes: Seq<Seq<char>>, buf: Seq<char>) -> bool {
    exists|i: int| 0 <= i < codes.len() && buf.is_prefix_of(codes[i])
}

/// The position selected by the code `buf`: the last one that has it.
pub fn resolve_hotkey_exact(buf: &Vec<char>, codes: &Vec<String>) -> (r: Option<usize>)
    ensures
        r matches Some(i) ==> exact_match(strs(codes@), buf@) == Some(i as int),
        r is None ==> exact_match(strs(codes@), buf@) is None,
{
    let mut i = codes.len();
    assert(strs(codes@).subrange(0, i as int) =~= strs(codes@));
    while i > 0
        invariant
            i <= codes@.len(),
            exact_match(strs(codes@), buf@) == exact_match(strs(codes@).subrange(0, i as int), buf@),
        decreases i,
    {
        let c = chars_of(codes[i - 1].as_str());
        let ghost sub = strs(codes@).subrange(0, i as int);
        assert(sub.drop_last() =~= strs(codes@).subrange(0, i - 1));
        if chars_eq(&c, buf) {
            return Some(i - 1);
        }
        i = i - 1;
    }
    None
}

/// Whether some code starts with `buf`.
pub fn has_prefix(buf: &Vec<char>, codes: &Vec<String>) -> (r: bool)
    ensures
        r == prefix_of_some(strs(codes@), buf@),
{
    let mut i: usize = 0;
    while i < codes.len()
        invariant
            i <= codes@.len(),
            forall|k: int| 0 <= k < i ==> !buf@.is_prefix_of(#[trigger] strs(codes@)[k]),
        decreases codes.len() - i,
    {
        let c = chars_of(codes[i].as_str());
        if starts_with(&c, buf) {
            assert(buf@.is_prefix_of(strs(codes@)[i as int]));
            return true;
        }
        i = i + 1;
    }
    false
}

/// The chord buffer after `c` is typed: a full buffer starts over.
pub open spec fn pushed(buf: Seq<char>, c: char) -> Seq<char> {
    if buf.len() >= 2 {
        seq![c]
    } else {
        buf.push(c)
    }
}

/// Appends `c` to the chord buffer, which holds at most two symbols.
pub fn push_hotkey(buf: &mut Vec<char>, c: char)
    ensures
        final(buf)@ == pushed(old(buf)@, c),
{
    if buf.len() >= 2 {
        buf.clear();
    }
    buf.push(c);
    assert(final(buf)@ =~= pushed(old(buf)@, c));
}

/// The buffer and the selection after `c` is typed against `codes`: an
/// exact code selects its item and, at two symbols, empties the buffer; a
/// buffer that no code starts with, or that has two symbols, is emptied.
pub open spec fn chord_step(buf: Seq<char>, c: char, codes: Seq<Seq<char>>) -> (Seq<char>, Option<int>) {
    let b = pushed(buf, c);
    match exact_match(codes, b) {
        Some(i) => (if b.len() >= 2 { Seq::empty() } else { b }, Some(i)),
        None => (if !prefix_of_some(codes, b) || b.len() >= 2 { Seq::empty() } else { b }, None),
    }
}

/// Feeds one code symbol to the chord buffer and returns the position it
/// selects, if any.
pub fn resolve_chord(buf: &mut Vec<char>, c: char, codes: &Vec<String>) -> (r: Option<usize>)
    ensures
        final(buf)@ == chord_step(old(buf)@, c, strs(codes@)).0,
        r matches Some(i) ==> chord_step(old(buf)@, c, strs(codes@)).1 == Some(i as int),
        r is None ==> chord_step(old(buf)@, c, strs(codes@)).1 is None,
        final(buf)@.len() <= 1,
{
    push_hotkey(buf, c);
    match resolve_hotkey_exact(buf, codes) {
        Some(i) => {
            if buf.len() >= 2 {
                buf.clear();
            }
            assert(final(buf)@ =~= chord_step(old(buf)@, c, strs(codes@)).0);
            Some(i)
        },
        None => {
            if !has_prefix(buf, codes) || buf.len() >= 2 {
                buf.clear();
            }
            assert(final(buf)@ =~= chord_step(old(buf)@, c, strs(codes@)).0);
            None
        },
    }
}

/// Renders the chord buffer for display.
pub fn chord_text(buf: &Vec<char>) -> (r: String)
    ensures
        r@ == buf@,
{
    string_of(buf)
}

} // verus!
