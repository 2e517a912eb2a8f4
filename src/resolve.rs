//! Resolution of a free-text request (a branch name or a pull-request URL)
//! into a creation plan. The facts it needs from the repository come in
//! through `Findings`; until they are there the resolver asks for them, one
//! lookup at a time, so a local branch never triggers a remote query.
use vstd::prelude::*;
use crate::hotkeys::strs;
use crate::paths::{join_path, path_join, sanitize_branch_for_path, sanitized};
use crate::text::{chars_eq, chars_of, slice_chars, starts_with, split_chars, split_on, string_of, trim, trim_chars, views};

verus! {

pub open spec fn is_digit(c: char) -> bool {
    '0' <= c && c <= '9'
}

pub open spec fn all_digits(s: Seq<char>) -> bool {
    forall|i: int| 0 <= i < s.len() ==> is_digit(#[trigger] s[i])
}

/// The number a run of decimal digits spells.
pub open spec fn digits_value(s: Seq<char>) -> nat
    decreases s.len(),
{
    if s.len() == 0 {
        0
    } else {
        digits_value(s.drop_last()) * 10 + ((s.last() as int - '0' as int) as nat)
    }
}

pub open spec fn https_prefix() -> Seq<char> {
    seq!['h', 't', 't', 'p', 's', ':', '/', '/']
}

pub open spec fn http_prefix() -> Seq<char> {
    seq!['h', 't', 't', 'p', ':', '/', '/']
}

pub open spec fn pull_word() -> Seq<char> {
    seq!['p', 'u', 'l', 'l']
}

/// The text after the `http://` or `https://` scheme, if it has one.
pub open spec fn url_tail(t: Seq<char>) -> Option<Seq<char>> {
    if https_prefix().is_prefix_of(t) {
        Some(t.subrange(8, t.len() as int))
    } else if http_prefix().is_prefix_of(t) {
        Some(t.subrange(7, t.len() as int))
    } else {
        None
    }
}

/// The pull-request number of a URL `http(s)://<host>/.../<owner>/<repo>/pull/<n>`
/// whose number fits in 64 bits.
pub open spec fn pr_number_of(t: Seq<char>) -> Option<nat> {
    match url_tail(t) {
        None => None,
        Some(rest) => {
            let segs = split_on(rest, '/');
            let n = segs.len() as int;
            if n >= 5 && segs[0].len() > 0 && segs[n - 4].len() > 0 && segs[n - 3].len() > 0
                && segs[n - 2] == pull_word() && segs[n - 1].len() > 0 && all_digits(segs[n - 1])
                && digits_value(segs[n - 1]) <= u64::MAX {
                Some(digits_value(segs[n - 1]))
            } else {
                None
            }
        },
    }
}

proof fn lemma_digits_prefix(s: Seq<char>, k: int)
    requires
        0 <= k <= s.len(),
    ensures
        digits_value(s.subrange(0, k)) <= digits_value(s),
    decreases s.len() - k,
{
    if k < s.len() {
        lemma_digits_prefix(s, k + 1);
        let t = s.subrange(0, k + 1);
        assert(t.drop_last() =~= s.subrange(0, k));
        assert(s.subrange(0, k + 1).last() == s[k]);
    } else {
        assert(s.subrange(0, k) =~= s);
    }
}

/// The value of a non-empty run of digits, if it fits in 64 bits.
fn parse_digits(s: &Vec<char>) -> (r: Option<u64>)
    ensures
        r matches Some(v) ==> all_digits(s@) && v == digits_value(s@),
        r is None ==> !all_digits(s@) || digits_value(s@) > u64::MAX,
{
    let mut v: u64 = 0;
    let mut k: usize = 0;
    assert(s@.subrange(0, 0) =~= Seq::<char>::empty());
    while k < s.len()
        invariant
            k <= s@.len(),
            all_digits(s@.subrange(0, k as int)),
            v == digits_value(s@.subrange(0, k as int)),
        decreases s.len() - k,
    {
        let c = s[k];
        let ghost t = s@.subrange(0, k + 1);
        assert(t.drop_last() =~= s@.subrange(0, k as int));
        assert(t.last() == c);
        if !('0' <= c && c <= '9') {
            return None;
        }
        let d = (c as u32 - '0' as u32) as u64;
        if v > (u64::MAX - d) / 10 {
            proof {
                lemma_digits_prefix(s@, k + 1);
                assert(digits_value(t) == v * 10 + d);
                assert(v * 10 + d > u64::MAX) by (nonlinear_arith)
                    requires
                        v > (u64::MAX - d) / 10,
                        d <= 9,
                ;
            }
            return None;
        }
        proof {
            assert(v * 10 + d <= u64::MAX) by (nonlinear_arith)
                requires
                    v <= (u64::MAX - d) / 10,
                    d <= 9,
            ;
        }
        v = v * 10 + d;
        k = k + 1;
        assert(all_digits(s@.subrange(0, k as int))) by {
            assert forall|i: int| 0 <= i < k implies is_digit(#[trigger] s@.subrange(0, k as int)[i]) by {
                if i < k - 1 {
                    assert(s@.subrange(0, k as int)[i] == s@.subrange(0, k - 1)[i]);
                }
            }
        }
    }
    assert(s@.subrange(0, s@.len() as int) =~= s@);
    Some(v)
}

/// The pull-request number of a URL, if the text is one.
pub fn pr_number(t: &Vec<char>) -> (r: Option<u64>)
    ensures
        r matches Some(v) ==> pr_number_of(t@) == Some(v as nat),
        r is None ==> pr_number_of(t@) is None,
{
    let https = vec!['h', 't', 't', 'p', 's', ':', '/', '/'];
    let http = vec!['h', 't', 't', 'p', ':', '/', '/'];
    assert(https@ =~= https_prefix());
    assert(http@ =~= http_prefix());
    let rest = if starts_with(t, &https) {
        slice_chars(t, 8, t.len())
    } else if starts_with(t, &http) {
        slice_chars(t, 7, t.len())
    } else {
        return None;
    };
    let segs = split_chars(&rest, '/');
    let n = segs.len();
    if n < 5 {
        return None;
    }
    let pull = vec!['p', 'u', 'l', 'l'];
    assert(pull@ =~= pull_word());
    let ghost sv = views(segs@);
    assert(sv[n - 2] == segs@[n - 2]@);
    assert(sv[n - 1] == segs@[n - 1]@);
    if segs[0].len() == 0 || segs[n - 4].len() == 0 || segs[n - 3].len() == 0
        || !chars_eq(&segs[n - 2], &pull) || segs[n - 1].len() == 0 {
        return None;
    }
    parse_digits(&segs[n - 1])
}

/// The decimal digits of `n`.
pub open spec fn decimal_of(n: nat) -> Seq<char>
    decreases n,
{
    if n < 10 {
        seq![digit_char(n)]
    } else {
        decimal_of(n / 10).push(digit_char(n % 10))
    }
}

pub open spec fn digit_char(d: nat) -> char {
    if d == 0 { '0' } else if d == 1 { '1' } else if d == 2 { '2' } else if d == 3 { '3' }
    else if d == 4 { '4' } else if d == 5 { '5' } else if d == 6 { '6' } else if d == 7 { '7' }
    else if d == 8 { '8' } else { '9' }
}

fn digit_char_exec(d: u64) -> (c: char)
    requires
        d < 10,
    ensures
        c == digit_char(d as nat),
{
    if d == 0 { '0' } else if d == 1 { '1' } else if d == 2 { '2' } else if d == 3 { '3' }
    else if d == 4 { '4' } else if d == 5 { '5' } else if d == 6 { '6' } else if d == 7 { '7' }
    else if d == 8 { '8' } else { '9' }
}

/// Writes `n` in decimal.
pub fn decimal(n: u64) -> (r: Vec<char>)
    ensures
        r@ == decimal_of(n as nat),
    decreases n,
{
    if n < 10 {
        let r = vec![digit_char_exec(n)];
        assert(r@ =~= decimal_of(n as nat));
        r
    } else {
        let mut r = decimal(n / 10);
        r.push(digit_char_exec(n % 10));
        r
    }
}

/// The branch that a pull request is checked out on: `pr/<n>`.
pub open spec fn pr_branch_of(n: nat) -> Seq<char> {
    seq!['p', 'r', '/'] + decimal_of(n)
}

/// What a request asks for.
#[derive(Debug, Clone, PartialEq, Eq)]
pub enum Request {
    PullRequest { number: u64 },
    Branch { name: String },
}

/// Reads a request from free text.
pub fn parse_request(text: &str) -> (r: Option<Request>)
    ensures
        trim(text@).len() == 0 <==> r is None,
        r matches Some(Request::PullRequest { number }) ==> pr_number_of(trim(text@)) == Some(number as nat),
        r matches Some(Request::Branch { name }) ==> pr_number_of(trim(text@)) is None && name@ == trim(text@),
{
    let t = trim_chars(&chars_of(text));
    if t.len() == 0 {
        return None;
    }
    match pr_number(&t) {
        Some(n) => Some(Request::PullRequest { number: n }),
        None => Some(Request::Branch { name: string_of(&t) }),
    }
}

/// A query to the repository that the resolver needs answered.
#[derive(Debug, Clone, PartialEq, Eq)]
pub enum Lookup {
    /// Does a local branch of this name exist?
    LocalBranch(String),
    /// Which configured remotes have a branch of this name?
    RemotesWithBranch(String),
    /// Which remotes are configured?
    Remotes,
}

/// The answers gathered so far.
#[derive(Debug, Clone)]
pub struct Findings {
    pub local_exists: Option<bool>,
    pub remotes: Option<Vec<String>>,
    pub chosen_remote: Option<String>,
}

/// Where the new worktree's branch comes from.
#[derive(Debug, Clone, PartialEq, Eq)]
pub enum Source {
    ExistingLocal,
    ExistingRemote(String),
    New { base: Option<String> },
    PullRequest(u64),
}

/// A concrete plan for creating a worktree.
#[derive(Debug, Clone, PartialEq, Eq)]
pub struct CreationPlan {
    pub branch: String,
    pub source: Source,
    /// Whether a fetch and tracking setup come before the worktree.
    pub tracking: bool,
    /// The remote that is fetched from, when one is.
    pub remote: Option<String>,
    pub destination: String,
}

/// The resolver's answer: a query to make, a choice to ask of the user, a
/// failure, or the plan.
#[derive(Debug, Clone)]
pub enum Resolution {
    Ask(Lookup),
    ChooseRemote(Vec<String>),
    NoRemote,
    Plan(CreationPlan),
}

/// The destination of a branch's worktree under the worktrees directory.
pub open spec fn destination_of(worktrees_dir: Seq<char>, branch: Seq<char>) -> Seq<char> {
    join_path(worktrees_dir, sanitized(branch))
}

/// An optional string as an optional character sequence.
pub open spec fn opt_view(o: Option<String>) -> Option<Seq<char>> {
    match o {
        Some(s) => Some(s@),
        None => None,
    }
}

/// A source with its strings as character sequences.
pub enum SourceView {
    ExistingLocal,
    ExistingRemote(Seq<char>),
    New(Option<Seq<char>>),
    PullRequest(u64),
}

pub open spec fn source_view(s: Source) -> SourceView {
    match s {
        Source::ExistingLocal => SourceView::ExistingLocal,
        Source::ExistingRemote(x) => SourceView::ExistingRemote(x@),
        Source::New { base } => SourceView::New(opt_view(base)),
        Source::PullRequest(n) => SourceView::PullRequest(n),
    }
}

/// `r` is a plan with these fields.
pub open spec fn planned(
    r: Resolution,
    branch: Seq<char>,
    source: SourceView,
    tracking: bool,
    remote: Option<Seq<char>>,
    destination: Seq<char>,
) -> bool {
    match r {
        Resolution::Plan(p) => p.branch@ == branch && source_view(p.source) == source
            && p.tracking == tracking && opt_view(p.remote) == remote && p.destination@
            == destination,
        _ => false,
    }
}

/// `r` offers the user these remotes to choose from.
pub open spec fn offers(r: Resolution, remotes: Seq<String>) -> bool {
    match r {
        Resolution::ChooseRemote(list) => strs(list@) == strs(remotes),
        _ => false,
    }
}

/// `r` asks whether a local branch of this name exists.
pub open spec fn asks_local(r: Resolution, name: Seq<char>) -> bool {
    match r {
        Resolution::Ask(Lookup::LocalBranch(b)) => b@ == name,
        _ => false,
    }
}

/// `r` asks which remotes have a branch of this name.
pub open spec fn asks_remotes_with(r: Resolution, name: Seq<char>) -> bool {
    match r {
        Resolution::Ask(Lookup::RemotesWithBranch(b)) => b@ == name,
        _ => false,
    }
}

/// What `resolve` answers, over the views of its inputs.
pub open spec fn resolution_ok(
    r: Resolution,
    request: Request,
    base: Option<String>,
    worktrees_dir: Seq<char>,
    findings: Findings,
) -> bool {
    match request {
        Request::PullRequest { number } => {
            let branch = pr_branch_of(number as nat);
            let dest = destination_of(worktrees_dir, branch);
            let src = SourceView::PullRequest(number);
            match opt_view(findings.chosen_remote) {
                Some(c) => planned(r, branch, src, true, Some(c), dest),
                None => match findings.remotes {
                    None => r is Ask && r->Ask_0 is Remotes,
                    Some(rs) => if rs@.len() == 0 {
                        r is NoRemote
                    } else if rs@.len() == 1 {
                        planned(r, branch, src, true, Some(rs@[0]@), dest)
                    } else {
                        offers(r, rs@)
                    },
                },
            }
        },
        Request::Branch { name } => {
            let dest = destination_of(worktrees_dir, name@);
            match findings.local_exists {
                None => asks_local(r, name@),
                Some(true) => planned(r, name@, SourceView::ExistingLocal, false, None, dest),
                Some(false) => match opt_view(findings.chosen_remote) {
                    Some(c) => planned(r, name@, SourceView::ExistingRemote(c), true, Some(c), dest),
                    None => match findings.remotes {
                        None => asks_remotes_with(r, name@),
                        Some(rs) => if rs@.len() == 0 {
                            planned(r, name@, SourceView::New(opt_view(base)), false, None, dest)
                        } else if rs@.len() == 1 {
                            planned(r, name@, SourceView::ExistingRemote(rs@[0]@), true, Some(rs@[0]@), dest)
                        } else {
                            offers(r, rs@)
                        },
                    },
                },
            }
        },
    }
}

/// A branch that exists locally is used as it is: whatever is known of the
/// remotes, the plan takes the local branch with no fetch, no tracking and
/// no remote, and the resolver asks nothing more; the first thing it asks
/// of a branch request is whether the branch exists locally.
pub proof fn lemma_local_branch_first(
    r: Resolution,
    name: String,
    base: Option<String>,
    worktrees_dir: Seq<char>,
    findings: Findings,
)
    requires
        resolution_ok(r, Request::Branch { name }, base, worktrees_dir, findings),
    ensures
        findings.local_exists == Some(true) ==> planned(
            r,
            name@,
            SourceView::ExistingLocal,
            false,
            None,
            destination_of(worktrees_dir, name@),
        ) && !(r is Ask),
        findings.local_exists is None ==> asks_local(r, name@),
{
}

fn clone_strings(v: &Vec<String>) -> (r: Vec<String>)
    ensures
        strs(r@) == strs(v@),
{
    let mut r: Vec<String> = Vec::new();
    let mut i: usize = 0;
    while i < v.len()
        invariant
            i <= v.len(),
            r@.len() == i,
            forall|k: int| 0 <= k < i ==> #[trigger] r@[k]@ == v@[k]@,
        decreases v.len() - i,
    {
        r.push(v[i].clone());
        i = i + 1;
    }
    assert(strs(r@) =~= strs(v@));
    r
}

/// Resolves a request into a plan, or says what is still needed.
///
/// A pull request always tracks the remote it is fetched from: the chosen
/// one, else the only configured one; with several the user chooses, with
/// none it fails. A branch that exists locally is used as it is, and no
/// remote is consulted. Otherwise a branch on exactly one remote (or on the
/// chosen one) is tracked from there; on several the user chooses; on none
/// the branch is new, from `base` when one is given.
pub fn resolve(request: &Request, base: &Option<String>, worktrees_dir: &str, findings: &Findings) -> (r: Resolution)
    ensures
        resolution_ok(r, *request, *base, worktrees_dir@, *findings),
{
    match request {
        Request::PullRequest { number } => {
            let mut bv = vec!['p', 'r', '/'];
            let digits = decimal(*number);
            bv.append(&mut digits.clone());
            assert(bv@ =~= pr_branch_of(*number as nat));
            let branch = string_of(&bv);
            let remote = match &findings.chosen_remote {
                Some(c) => c.clone(),
                None => match &findings.remotes {
                    None => return Resolution::Ask(Lookup::Remotes),
                    Some(rs) => {
                        if rs.len() == 0 {
                            return Resolution::NoRemote;
                        } else if rs.len() == 1 {
                            rs[0].clone()
                        } else {
                            return Resolution::ChooseRemote(clone_strings(rs));
                        }
                    },
                },
            };
            let destination = path_join(worktrees_dir, sanitize_branch_for_path(branch.as_str()).as_str());
            Resolution::Plan(CreationPlan {
                branch,
                source: Source::PullRequest(*number),
                tracking: true,
                remote: Some(remote),
                destination,
            })
        },
        Request::Branch { name } => {
            let destination = path_join(worktrees_dir, sanitize_branch_for_path(name.as_str()).as_str());
            match findings.local_exists {
                None => Resolution::Ask(Lookup::LocalBranch(name.clone())),
                Some(true) => Resolution::Plan(CreationPlan {
                    branch: name.clone(),
                    source: Source::ExistingLocal,
                    tracking: false,
                    remote: None,
                    destination,
                }),
                Some(false) => {
                    let remote = match &findings.chosen_remote {
                        Some(c) => c.clone(),
                        None => match &findings.remotes {
                            None => return Resolution::Ask(Lookup::RemotesWithBranch(name.clone())),
                            Some(rs) => {
                                if rs.len() == 0 {
                                    let b = match base {
                                        Some(x) => Some(x.clone()),
                                        None => None,
                                    };
                                    return Resolution::Plan(CreationPlan {
                                        branch: name.clone(),
                                        source: Source::New { base: b },
                                        tracking: false,
                                        remote: None,
                                        destination,
                                    });
                                } else if rs.len() == 1 {
                                    rs[0].clone()
                                } else {
                                    return Resolution::ChooseRemote(clone_strings(rs));
                                }
                            },
                        },
                    };
                    Resolution::Plan(CreationPlan {
                        branch: name.clone(),
                        source: Source::ExistingRemote(remote.clone()),
                        tracking: true,
                        remote: Some(remote),
                        destination,
                    })
                },
            }
        },
    }
}

} // verus!
