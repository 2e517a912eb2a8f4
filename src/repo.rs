//! Repositories and their worktrees: the identity of a repository, the
//! parsing of git's worktree listing, and the listing with its fallback
//! that repairs a stale anchor path.
use vstd::prelude::*;
use vstd::string::*;
use crate::paths::{file_name, file_name_of, join_path, path_join};
use crate::text::{chars_of, slice_chars, split_chars, split_on, starts_with, string_of, trim, trim_chars, trim_end, trim_end_chars, views};

verus! {

/// The BLAKE3 digest, in lowercase hex, of a string's UTF-8 bytes.
pub uninterp spec fn blake3_hex_of(s: Seq<char>) -> Seq<char>;

pub open spec fn is_lower_hex(c: char) -> bool {
    ('0' <= c && c <= '9') || ('a' <= c && c <= 'f')
}

/// Relies on `blake3::hash` over the string's UTF-8 bytes and on
/// `Hash::to_hex`, which writes the 32-byte digest as 64 lowercase hex
/// digits.
#[verifier::external_body]
fn blake3_hex(s: &str) -> (r: String)
    ensures
        r@ == blake3_hex_of(s@),
        r@.len() == 64,
        forall|i: int| 0 <= i < r@.len() ==> is_lower_hex(#[trigger] r@[i]),
{
    blake3::hash(s.as_bytes()).to_hex().to_string()
}

/// A worktree: where it is, and the branch checked out there (none for a
/// detached head).
#[derive(Debug, Clone, PartialEq, Eq)]
pub struct WorktreeEntry {
    pub path: String,
    pub branch: Option<String>,
}

/// A worktree as character sequences.
pub type EntryView = (Seq<char>, Option<Seq<char>>);

pub open spec fn opt_chars(o: Option<String>) -> Option<Seq<char>> {
    match o {
        Some(s) => Some(s@),
        None => None,
    }
}

pub open spec fn entry_view(e: WorktreeEntry) -> EntryView {
    (e.path@, opt_chars(e.branch))
}

pub open spec fn entry_views(v: Seq<WorktreeEntry>) -> Seq<EntryView> {
    v.map_values(|e: WorktreeEntry| entry_view(e))
}

/// What the parser holds between lines: the entries so far and the fields
/// of the entry being read.
pub struct PorcelainState {
    pub entries: Seq<EntryView>,
    pub path: Option<Seq<char>>,
    pub branch: Option<Seq<char>>,
}

pub open spec fn worktree_word() -> Seq<char> {
    seq!['w', 'o', 'r', 'k', 't', 'r', 'e', 'e', ' ']
}

pub open spec fn branch_word() -> Seq<char> {
    seq!['b', 'r', 'a', 'n', 'c', 'h', ' ']
}

pub open spec fn heads_prefix() -> Seq<char> {
    seq!['r', 'e', 'f', 's', '/', 'h', 'e', 'a', 'd', 's', '/']
}

/// A branch ref without its `refs/heads/` prefix.
pub open spec fn short_branch(rest: Seq<char>) -> Seq<char> {
    if heads_prefix().is_prefix_of(rest) {
        rest.subrange(11, rest.len() as int)
    } else {
        rest
    }
}

/// One line of the listing: a blank line ends the entry being read, a
/// `worktree <path>` line sets its path and a `branch <ref>` line its
/// branch; other lines change nothing.
pub open spec fn porcelain_step(st: PorcelainState, line: Seq<char>) -> PorcelainState {
    let l = trim_end(line);
    if l.len() == 0 {
        match st.path {
            Some(p) => PorcelainState { entries: st.entries.push((p, st.branch)), path: None, branch: None },
            None => st,
        }
    } else if worktree_word().is_prefix_of(l) {
        PorcelainState { path: Some(l.subrange(9, l.len() as int)), ..st }
    } else if branch_word().is_prefix_of(l) {
        PorcelainState { branch: Some(short_branch(l.subrange(7, l.len() as int))), ..st }
    } else {
        st
    }
}

pub open spec fn porcelain_run(lines: Seq<Seq<char>>) -> PorcelainState
    decreases lines.len(),
{
    if lines.len() == 0 {
        PorcelainState { entries: Seq::empty(), path: None, branch: None }
    } else {
        porcelain_step(porcelain_run(lines.drop_last()), lines.last())
    }
}

/// The worktrees that `git worktree list --porcelain` printed.
pub open spec fn porcelain_entries(s: Seq<char>) -> Seq<EntryView> {
    let st = porcelain_run(split_on(s, '\n'));
    match st.path {
        Some(p) => st.entries.push((p, st.branch)),
        None => st.entries,
    }
}

fn opt_string(o: &Option<Vec<char>>) -> (r: Option<String>)
    ensures
        opt_chars(r) == match o {
            Some(v) => Some(v@),
            None => None::<Seq<char>>,
        },
{
    match o {
        Some(v) => Some(string_of(v)),
        None => None,
    }
}

pub open spec fn opt_vec(o: Option<Vec<char>>) -> Option<Seq<char>> {
    match o {
        Some(v) => Some(v@),
        None => None,
    }
}

/// Parses the output of `git worktree list --porcelain`.
pub fn parse_worktree_porcelain(s: &str) -> (r: Vec<WorktreeEntry>)
    ensures
        entry_views(r@) == porcelain_entries(s@),
{
    let sv = chars_of(s);
    let lines = split_chars(&sv, '\n');
    let ghost all = views(lines@);
    let worktree = vec!['w', 'o', 'r', 'k', 't', 'r', 'e', 'e', ' '];
    let branch = vec!['b', 'r', 'a', 'n', 'c', 'h', ' '];
    let heads = vec!['r', 'e', 'f', 's', '/', 'h', 'e', 'a', 'd', 's', '/'];
    assert(worktree@ =~= worktree_word());
    assert(branch@ =~= branch_word());
    assert(heads@ =~= heads_prefix());
    let mut entries: Vec<WorktreeEntry> = Vec::new();
    let mut cur_path: Option<Vec<char>> = None;
    let mut cur_branch: Option<Vec<char>> = None;
    let mut i: usize = 0;
    assert(all.subrange(0, 0) =~= Seq::<Seq<char>>::empty());
    assert(entry_views(entries@) =~= Seq::<EntryView>::empty());
    while i < lines.len()
        invariant
            i <= lines@.len(),
            all == views(lines@),
            all == split_on(s@, '\n'),
            worktree@ == worktree_word(),
            branch@ == branch_word(),
            heads@ == heads_prefix(),
            porcelain_run(all.subrange(0, i as int)) == (PorcelainState {
                entries: entry_views(entries@),
                path: opt_vec(cur_path),
                branch: opt_vec(cur_branch),
            }),
        decreases lines.len() - i,
    {
        let ghost sub = all.subrange(0, i + 1);
        assert(sub.drop_last() =~= all.subrange(0, i as int));
        assert(sub.last() == lines@[i as int]@);
        let line = trim_end_chars(&lines[i]);
        if line.len() == 0 {
            match &cur_path {
                Some(p) => {
                    let e = WorktreeEntry { path: string_of(p), branch: opt_string(&cur_branch) };
                    let ghost prev = entry_views(entries@);
                    entries.push(e);
                    assert(entry_views(entries@) =~= prev.push((p@, opt_vec(cur_branch))));
                    cur_path = None;
                    cur_branch = None;
                },
                None => {},
            }
        } else if starts_with(&line, &worktree) {
            cur_path = Some(slice_chars(&line, 9, line.len()));
        } else if starts_with(&line, &branch) {
            let rest = slice_chars(&line, 7, line.len());
            if starts_with(&rest, &heads) {
                cur_branch = Some(slice_chars(&rest, 11, rest.len()));
            } else {
                cur_branch = Some(rest);
            }
        }
        i = i + 1;
    }
    assert(all.subrange(0, lines@.len() as int) =~= all);
    match &cur_path {
        Some(p) => {
            let e = WorktreeEntry { path: string_of(p), branch: opt_string(&cur_branch) };
            let ghost prev = entry_views(entries@);
            entries.push(e);
            assert(entry_views(entries@) =~= prev.push((p@, opt_vec(cur_branch))));
        },
        None => {},
    }
    entries
}

/// The label of an entry's branch: its name, or `(detached)`.
pub fn branch_label(e: &WorktreeEntry) -> (r: String)
    ensures
        e.branch matches Some(b) ==> r@ == b@,
        e.branch is None ==> r@ == "(detached)"@,
{
    match &e.branch {
        Some(b) => b.clone(),
        None => String::from_str("(detached)"),
    }
}

/// The names `git remote` printed, one per line: each line trimmed, blank
/// lines skipped.
pub open spec fn remote_names_of(lines: Seq<Seq<char>>) -> Seq<Seq<char>>
    decreases lines.len(),
{
    if lines.len() == 0 {
        Seq::empty()
    } else if trim(lines.last()).len() == 0 {
        remote_names_of(lines.drop_last())
    } else {
        remote_names_of(lines.drop_last()).push(trim(lines.last()))
    }
}

/// Reads the output of `git remote`.
pub fn parse_remote_names(out: &str) -> (r: Vec<String>)
    ensures
        crate::hotkeys::strs(r@) == remote_names_of(split_on(out@, '\n')),
{
    let lines = split_chars(&chars_of(out), '\n');
    let ghost all = views(lines@);
    let mut names: Vec<String> = Vec::new();
    let mut i: usize = 0;
    assert(all.subrange(0, 0) =~= Seq::<Seq<char>>::empty());
    while i < lines.len()
        invariant
            i <= lines@.len(),
            all == views(lines@),
            crate::hotkeys::strs(names@) == remote_names_of(all.subrange(0, i as int)),
        decreases lines.len() - i,
    {
        let ghost sub = all.subrange(0, i + 1);
        assert(sub.drop_last() =~= all.subrange(0, i as int));
        assert(sub.last() == lines@[i as int]@);
        let t = trim_chars(&lines[i]);
        if t.len() > 0 {
            let ghost prev = crate::hotkeys::strs(names@);
            names.push(string_of(&t));
            assert(crate::hotkeys::strs(names@) =~= prev.push(t@));
        }
        i = i + 1;
    }
    assert(all.subrange(0, lines@.len() as int) =~= all);
    names
}

/// A known repository: its stable id, display name, last known good
/// worktree path (the anchor, which may have gone stale) and the location
/// of its shared git directory.
#[derive(Debug, Clone, PartialEq, Eq)]
pub struct RepoRecord {
    pub id: String,
    pub name: String,
    pub anchor: String,
    pub common_dir: String,
}

/// A listing of a repository's worktrees, with the anchor to keep using.
#[derive(Debug, Clone, PartialEq, Eq)]
pub struct Listing {
    pub entries: Vec<WorktreeEntry>,
    pub anchor: String,
    /// The anchor was replaced and should be persisted.
    pub repaired: bool,
}

/// Neither the anchor nor the shared git directory gave a listing.
#[derive(Debug, Clone, Copy, PartialEq, Eq)]
pub enum ListingError {
    Unavailable,
}

/// The listing a repository gets from the listing at its anchor, when that
/// worked, or else from the one through its shared git directory: entries,
/// anchor and whether the anchor was repaired.
pub open spec fn listing_of(
    anchor: Seq<char>,
    at_anchor: Option<Seq<char>>,
    via_store: Option<Seq<char>>,
) -> Option<(Seq<EntryView>, Seq<char>, bool)> {
    match at_anchor {
        Some(t) => Some((porcelain_entries(t), anchor, false)),
        None => match via_store {
            Some(t) => {
                let es = porcelain_entries(t);
                if es.len() > 0 {
                    Some((es, es[0].0, true))
                } else {
                    Some((es, anchor, false))
                }
            },
            None => None,
        },
    }
}

pub open spec fn listing_view(l: Listing) -> (Seq<EntryView>, Seq<char>, bool) {
    (entry_views(l.entries@), l.anchor@, l.repaired)
}

/// Lists a repository's worktrees from what git printed: `at_anchor` is the
/// listing run at the anchor (none if the anchor is gone or git failed
/// there), `via_store` the one run through the shared git directory. When
/// the fallback is used and lists something, the anchor is repaired to the
/// first entry's path.
pub fn load_worktrees(repo: &RepoRecord, at_anchor: &Option<String>, via_store: &Option<String>) -> (r: Result<Listing, ListingError>)
    ensures
        r matches Ok(l) ==> listing_of(repo.anchor@, opt_chars(*at_anchor), opt_chars(*via_store)) == Some(listing_view(l)),
        r is Err ==> listing_of(repo.anchor@, opt_chars(*at_anchor), opt_chars(*via_store)) is None,
{
    match at_anchor {
        Some(t) => Ok(Listing { entries: parse_worktree_porcelain(t.as_str()), anchor: repo.anchor.clone(), repaired: false }),
        None => match via_store {
            Some(t) => {
                let entries = parse_worktree_porcelain(t.as_str());
                if entries.len() > 0 {
                    let anchor = entries[0].path.clone();
                    Ok(Listing { entries, anchor, repaired: true })
                } else {
                    Ok(Listing { entries, anchor: repo.anchor.clone(), repaired: false })
                }
            },
            None => Err(ListingError::Unavailable),
        },
    }
}

/// A stale anchor is repaired through the fallback: when the anchor gave no
/// listing and the shared git directory lists worktrees, the listing
/// succeeds, holds those worktrees, and its anchor is the first one's path,
/// marked for persisting.
pub proof fn lemma_stale_anchor_repaired(anchor: Seq<char>, via_store: Seq<char>)
    requires
        porcelain_entries(via_store).len() > 0,
    ensures
        listing_of(anchor, None, Some(via_store)) == Some(
            (porcelain_entries(via_store), porcelain_entries(via_store)[0].0, true),
        ),
{
}

/// What is known of the repository a command runs in.
#[derive(Debug, Clone, PartialEq, Eq)]
pub struct RepoContext {
    pub toplevel: String,
    pub git_common_dir: String,
    pub repo_name: String,
    pub repo_hash: String,
}

pub open spec fn repo_word() -> Seq<char> {
    seq!['r', 'e', 'p', 'o']
}

/// A repository's name: the last component of its top-level directory, or
/// `repo` when it has none.
pub open spec fn repo_name_of(toplevel: Seq<char>) -> Seq<char> {
    match file_name_of(toplevel) {
        Some(n) => n,
        None => repo_word(),
    }
}

/// The shared git directory from `git rev-parse --git-common-dir` output,
/// which may be relative to the top-level directory.
pub open spec fn common_dir_of(toplevel: Seq<char>, out: Seq<char>) -> Seq<char> {
    join_path(toplevel, trim(out))
}

/// The top-level directory from `git rev-parse --show-toplevel` output.
pub fn toplevel_from_output(out: &str) -> (r: String)
    ensures
        r@ == trim(out@),
{
    string_of(&trim_chars(&chars_of(out)))
}

/// The shared git directory from `git rev-parse --git-common-dir` output:
/// as printed when absolute, else under the top-level directory.
pub fn common_dir_from_output(toplevel: &str, out: &str) -> (r: String)
    ensures
        r@ == common_dir_of(toplevel@, out@),
{
    let t = string_of(&trim_chars(&chars_of(out)));
    path_join(toplevel, t.as_str())
}

impl RepoContext {
    /// The context of the repository with this top-level directory and this
    /// (canonical) shared git directory; its hash is the stable id.
    pub fn from_paths(toplevel: String, git_common_dir: String) -> (r: RepoContext)
        ensures
            r.toplevel@ == toplevel@,
            r.git_common_dir@ == git_common_dir@,
            r.repo_name@ == repo_name_of(toplevel@),
            r.repo_hash@ == blake3_hex_of(git_common_dir@),
    {
        let repo_name = match file_name(toplevel.as_str()) {
            Some(n) => n,
            None => {
                let v = vec!['r', 'e', 'p', 'o'];
                assert(v@ =~= repo_word());
                string_of(&v)
            },
        };
        let repo_hash = blake3_hex(git_common_dir.as_str());
        RepoContext { toplevel, git_common_dir, repo_name, repo_hash }
    }
}

/// Where a repository's settings live under the configuration root.
pub open spec fn repo_config_path_of(cfg_root: Seq<char>, hash: Seq<char>) -> Seq<char> {
    join_path(join_path(join_path(cfg_root, "repos"@), hash), "config.toml"@)
}

/// The settings file of a repository: `<root>/repos/<hash>/config.toml`.
pub fn repo_config_path(cfg_root: &str, repo: &RepoContext) -> (r: String)
    ensures
        r@ == repo_config_path_of(cfg_root@, repo.repo_hash@),
{
    let repos = String::from_str("repos");
    let file = String::from_str("config.toml");
    let a = path_join(cfg_root, repos.as_str());
    let b = path_join(a.as_str(), repo.repo_hash.as_str());
    path_join(b.as_str(), file.as_str())
}

/// The configuration root: the directory the environment names, else
/// `.config/gw` under the home directory; none when neither is known.
pub fn config_root(env_dir: Option<String>, home: Option<String>) -> (r: Option<String>)
    ensures
        env_dir matches Some(d) ==> r matches Some(x) && x@ == d@,
        env_dir is None && home is None ==> r is None,
        env_dir is None ==> (home matches Some(h) ==> (r matches Some(x) && x@ == join_path(
            join_path(h@, ".config"@),
            "gw"@,
        ))),
{
    match env_dir {
        Some(d) => Some(d),
        None => match home {
            Some(h) => {
                let dot = String::from_str(".config");
                let gw = String::from_str("gw");
                let a = path_join(h.as_str(), dot.as_str());
                Some(path_join(a.as_str(), gw.as_str()))
            },
            None => None,
        },
    }
}

} // verus!
