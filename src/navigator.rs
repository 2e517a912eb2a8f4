//! The navigator: a two-screen state machine over repositories and their
//! worktrees, driven one key event at a time. It decides; the caller does
//! the outside work that an `Action` asks for and reports back.
use vstd::prelude::*;
use crate::filter::{ints, lemma_project_order, project_chars, visible_of};
use crate::hotkeys::{
    assign_hotkeys, assigned, chord_step, hotkey_pool_repos, hotkey_pool_worktrees,
    is_repo_hotkey, is_worktree_hotkey, repo_pool, resolve_chord, worktree_pool,
};
use crate::repo::{Listing, RepoRecord, WorktreeEntry};
use crate::text::{chars_eq, chars_of};

verus! {

/// Milliseconds without a keystroke after which a partial code is dropped.
pub const CHORD_IDLE_MS: u64 = 1500;

/// Milliseconds within which a second `g` completes the jump to the top.
pub const DOUBLE_TAP_MS: u64 = 600;

#[derive(Debug, Clone, Copy, PartialEq, Eq, Structural)]
pub enum Screen {
    RepoList,
    WorktreeList,
}

#[derive(Debug, Clone, Copy, PartialEq, Eq, Structural)]
pub enum Mode {
    Normal,
    Filter,
    ConfirmDelete,
    Help,
}

#[derive(Debug, Clone, Copy, PartialEq, Eq, Structural)]
pub enum KeyCode {
    Char(char),
    Enter,
    Esc,
    Backspace,
    Other,
}

/// One key event: its code, whether Control was held, and whether it is a
/// press (releases and repeats are ignored).
#[derive(Debug, Clone, Copy, PartialEq, Eq, Structural)]
pub struct Key {
    pub code: KeyCode,
    pub ctrl: bool,
    pub press: bool,
}

/// What the status line says.
#[derive(Debug, Clone, Copy, PartialEq, Eq, Structural)]
pub enum Notice {
    Hint,
    FilterPrompt,
    FilterCancelled,
    FilterApplied,
    HelpOpen,
    ConfirmDelete,
    DeleteCancelled,
    Removed,
    NewCancelled,
    Created,
    NoSelection,
    Failed,
}

/// What the caller is to do after a key.
#[derive(Debug, Clone, Copy, PartialEq, Eq, Structural)]
pub enum Action {
    /// Nothing outside: redraw and read the next key.
    Continue,
    /// Leave with no selection.
    Exit,
    /// List the worktrees of this repository, then call `open_worktrees`.
    OpenRepo(usize),
    /// Leave with this worktree of this repository selected.
    Choose { repo: usize, entry: usize },
    /// Suspend the terminal and create a worktree for this repository.
    Create { repo: usize },
    /// Remove this worktree of this repository (already confirmed).
    Remove { repo: usize, entry: usize },
}

/// A filterable list's filter text and selected visible position.
#[derive(Debug)]
pub struct ListView {
    pub filter: Vec<char>,
    pub selected: usize,
}

/// The navigator's whole state.
#[derive(Debug)]
pub struct Navigator {
    pub screen: Screen,
    pub mode: Mode,
    pub repos: Vec<RepoRecord>,
    pub repo_view: ListView,
    /// The repository whose worktrees are shown, on the worktree screen.
    pub active: usize,
    pub entries: Vec<WorktreeEntry>,
    pub wt_view: ListView,
    pub chord: Vec<char>,
    pub chord_at: u64,
    pub tap_pending: bool,
    pub tap_at: u64,
    /// The entry awaiting confirmation of its removal.
    pub pending_delete: Option<usize>,
    pub notice: Notice,
    /// The notice to restore when help closes.
    pub saved_notice: Notice,
    /// The message of the last failure reported.
    pub failure: String,
}

/// The interface state as mathematical values.
pub struct Ui {
    pub screen: Screen,
    pub mode: Mode,
    pub repo_filter: Seq<char>,
    pub repo_sel: int,
    pub active: int,
    pub wt_filter: Seq<char>,
    pub wt_sel: int,
    pub chord: Seq<char>,
    pub chord_at: int,
    pub tap_pending: bool,
    pub tap_at: int,
    pub pending: Option<int>,
    pub notice: Notice,
    pub saved: Notice,
}

/// A repository is searched by its name and anchor.
pub open spec fn repo_text(r: RepoRecord) -> Seq<char> {
    r.name@ + seq![' '] + r.anchor@
}

/// A worktree is searched by its path and branch.
pub open spec fn entry_text(e: WorktreeEntry) -> Seq<char> {
    e.path@ + seq![' '] + match e.branch {
        Some(b) => b@,
        None => Seq::<char>::empty(),
    }
}

pub open spec fn repo_texts(rs: Seq<RepoRecord>) -> Seq<Seq<char>> {
    rs.map_values(|r: RepoRecord| repo_text(r))
}

pub open spec fn entry_texts(es: Seq<WorktreeEntry>) -> Seq<Seq<char>> {
    es.map_values(|e: WorktreeEntry| entry_text(e))
}

/// The last position of a list of `n`, or 0 when it is empty.
pub open spec fn sat_last(n: int) -> int {
    if n <= 0 {
        0
    } else {
        n - 1
    }
}

pub open spec fn min_int(a: int, b: int) -> int {
    if a <= b {
        a
    } else {
        b
    }
}

/// The state is consistent: each selection lies within its visible list,
/// the chord has at most two symbols, a removal awaits confirmation exactly
/// in `ConfirmDelete`, which only the worktree screen has, and the
/// worktree screen has a repository.
pub open spec fn ui_wf(u: Ui, rt: Seq<Seq<char>>, wt: Seq<Seq<char>>) -> bool {
    &&& 0 <= u.repo_sel <= sat_last(visible_of(rt, u.repo_filter).len() as int)
    &&& 0 <= u.wt_sel <= sat_last(visible_of(wt, u.wt_filter).len() as int)
    &&& u.chord.len() <= 2
    &&& (u.mode == Mode::ConfirmDelete <==> u.pending is Some)
    &&& (u.mode == Mode::ConfirmDelete ==> u.screen == Screen::WorktreeList)
    &&& (u.pending matches Some(p) ==> 0 <= p < wt.len())
    &&& (u.screen == Screen::WorktreeList ==> 0 <= u.active < rt.len())
}

/// Partial codes and pending taps that have waited too long are dropped.
pub open spec fn expire(u: Ui, now: int) -> Ui {
    let u1 = if u.chord.len() > 0 && now - u.chord_at > CHORD_IDLE_MS as int {
        Ui { chord: Seq::empty(), ..u }
    } else {
        u
    };
    if u1.tap_pending && now - u1.tap_at > DOUBLE_TAP_MS as int {
        Ui { tap_pending: false, ..u1 }
    } else {
        u1
    }
}

/// Both selections pulled back into their visible lists.
pub open spec fn clamp_ui(u: Ui, rt: Seq<Seq<char>>, wt: Seq<Seq<char>>) -> Ui {
    Ui {
        repo_sel: min_int(u.repo_sel, sat_last(visible_of(rt, u.repo_filter).len() as int)),
        wt_sel: min_int(u.wt_sel, sat_last(visible_of(wt, u.wt_filter).len() as int)),
        ..u
    }
}

/// Keys the help overlay reacts to: `?`, Esc and `q` close it.
pub open spec fn help_key(u: Ui, key: Key) -> (Ui, Action) {
    match key.code {
        KeyCode::Char(c) => if c == '?' || c == 'q' {
            (Ui { mode: Mode::Normal, notice: u.saved, ..u }, Action::Continue)
        } else {
            (u, Action::Continue)
        },
        KeyCode::Esc => (Ui { mode: Mode::Normal, notice: u.saved, ..u }, Action::Continue),
        _ => (u, Action::Continue),
    }
}

/// The keys that editing a filter takes for itself.
pub open spec fn filter_takes(key: Key) -> bool {
    match key.code {
        KeyCode::Esc | KeyCode::Enter | KeyCode::Backspace => true,
        KeyCode::Char(_) => !key.ctrl,
        KeyCode::Other => false,
    }
}

pub open spec fn edit_filter(f: Seq<char>, key: Key) -> Seq<char> {
    match key.code {
        KeyCode::Backspace => if f.len() > 0 { f.drop_last() } else { f },
        KeyCode::Char(c) => f.push(c),
        _ => f,
    }
}

/// Editing the filter of the current screen: Enter applies it, Esc leaves
/// it as typed and returns to normal mode, Backspace removes the last
/// character, a character is appended.
pub open spec fn filter_key(u: Ui, key: Key) -> (Ui, Action) {
    match key.code {
        KeyCode::Esc => (Ui { mode: Mode::Normal, notice: Notice::FilterCancelled, ..u }, Action::Continue),
        KeyCode::Enter => (Ui { mode: Mode::Normal, notice: Notice::FilterApplied, ..u }, Action::Continue),
        _ => if u.screen == Screen::RepoList {
            (Ui { repo_filter: edit_filter(u.repo_filter, key), ..u }, Action::Continue)
        } else {
            (Ui { wt_filter: edit_filter(u.wt_filter, key), ..u }, Action::Continue)
        },
    }
}

/// Confirming a removal: `y` removes, `n` or Esc cancels, other keys wait.
pub open spec fn confirm_key(u: Ui, key: Key) -> (Ui, Action) {
    let p = match u.pending {
        Some(p) => p,
        None => 0,
    };
    match key.code {
        KeyCode::Char(c) => if c == 'y' || c == 'Y' {
            (Ui { mode: Mode::Normal, pending: None, ..u }, Action::Remove { repo: u.active as usize, entry: p as usize })
        } else if c == 'n' || c == 'N' {
            (Ui { mode: Mode::Normal, pending: None, notice: Notice::DeleteCancelled, ..u }, Action::Continue)
        } else {
            (u, Action::Continue)
        },
        KeyCode::Esc => (Ui { mode: Mode::Normal, pending: None, notice: Notice::DeleteCancelled, ..u }, Action::Continue),
        _ => (u, Action::Continue),
    }
}

/// Movement shared by both screens on a list of `n` visible items, from
/// selection `sel`: `j` down, `k` up, `G` to the end, `gg` to the top. Any
/// of them drops the partial code; `j`, `k` and `G` also drop a pending
/// tap. Gives the new selection, chord, tap state, or none for other keys.
pub open spec fn movement(u: Ui, sel: int, n: int, c: char, now: int) -> Option<(int, bool, int)> {
    if c == 'j' {
        Some((min_int(sel + 1, sat_last(n)), false, u.tap_at))
    } else if c == 'k' {
        Some((if sel > 0 { sel - 1 } else { 0 }, false, u.tap_at))
    } else if c == 'G' {
        Some((sat_last(n), false, u.tap_at))
    } else if c == 'g' {
        if u.tap_pending {
            Some((0, false, u.tap_at))
        } else {
            Some((sel, true, now))
        }
    } else {
        None
    }
}

pub open spec fn repo_moved(u: Ui, m: (int, bool, int)) -> Ui {
    Ui { repo_sel: m.0, tap_pending: m.1, tap_at: m.2, chord: Seq::empty(), ..u }
}

pub open spec fn wt_moved(u: Ui, m: (int, bool, int)) -> Ui {
    Ui { wt_sel: m.0, tap_pending: m.1, tap_at: m.2, chord: Seq::empty(), ..u }
}

pub open spec fn help_opened(u: Ui) -> Ui {
    Ui { mode: Mode::Help, saved: u.notice, notice: Notice::HelpOpen, ..u }
}

/// Keys on the repository screen, before a pending tap is settled.
pub open spec fn repo_key_base(u: Ui, rt: Seq<Seq<char>>, key: Key, now: int) -> (Ui, Action) {
    let vis = visible_of(rt, u.repo_filter);
    let n = vis.len() as int;
    match key.code {
        KeyCode::Esc => (u, Action::Exit),
        KeyCode::Enter => if n == 0 {
            (Ui { notice: Notice::NoSelection, ..u }, Action::Continue)
        } else {
            (u, Action::OpenRepo(vis[u.repo_sel] as usize))
        },
        KeyCode::Char(c) => if c == 'q' {
            (u, Action::Exit)
        } else if c == '?' {
            (help_opened(u), Action::Continue)
        } else if c == '/' {
            (Ui { mode: Mode::Filter, repo_filter: Seq::empty(), notice: Notice::FilterPrompt, ..u }, Action::Continue)
        } else if movement(u, u.repo_sel, n, c, now) is Some {
            (repo_moved(u, movement(u, u.repo_sel, n, c, now).unwrap()), Action::Continue)
        } else if repo_pool().contains(c) {
            let (b, s) = chord_step(u.chord, c, assigned(repo_pool(), n as nat));
            (Ui { chord: b, chord_at: now, repo_sel: match s { Some(i) => i, None => u.repo_sel }, ..u }, Action::Continue)
        } else {
            (u, Action::Continue)
        },
        _ => (u, Action::Continue),
    }
}

/// Keys on the worktree screen, before a pending tap is settled.
pub open spec fn worktree_key_base(u: Ui, wt: Seq<Seq<char>>, key: Key, now: int) -> (Ui, Action) {
    let vis = visible_of(wt, u.wt_filter);
    let n = vis.len() as int;
    if key.ctrl && key.code == KeyCode::Char('d') {
        if n == 0 {
            (Ui { notice: Notice::NoSelection, ..u }, Action::Continue)
        } else {
            (Ui { mode: Mode::ConfirmDelete, pending: Some(vis[u.wt_sel]), notice: Notice::ConfirmDelete, ..u }, Action::Continue)
        }
    } else {
        match key.code {
            KeyCode::Esc => (Ui { screen: Screen::RepoList, mode: Mode::Normal, chord: Seq::empty(), tap_pending: false, notice: Notice::Hint, ..u }, Action::Continue),
            KeyCode::Enter => if n == 0 {
                (Ui { notice: Notice::NoSelection, ..u }, Action::Continue)
            } else {
                (u, Action::Choose { repo: u.active as usize, entry: vis[u.wt_sel] as usize })
            },
            KeyCode::Char(c) => if c == 'q' {
                (u, Action::Exit)
            } else if c == '?' {
                (help_opened(u), Action::Continue)
            } else if c == 'n' {
                (u, Action::Create { repo: u.active as usize })
            } else if c == '/' {
                (Ui { mode: Mode::Filter, wt_filter: Seq::empty(), notice: Notice::FilterPrompt, ..u }, Action::Continue)
            } else if movement(u, u.wt_sel, n, c, now) is Some {
                (wt_moved(u, movement(u, u.wt_sel, n, c, now).unwrap()), Action::Continue)
            } else if worktree_pool().contains(c) {
                let (b, s) = chord_step(u.chord, c, assigned(worktree_pool(), n as nat));
                (Ui { chord: b, chord_at: now, wt_sel: match s { Some(i) => i, None => u.wt_sel }, ..u }, Action::Continue)
            } else {
                (u, Action::Continue)
            },
            _ => (u, Action::Continue),
        }
    }
}

/// A pending tap survives only a `g`: any other key cancels it.
pub open spec fn settle_tap(u: Ui, key: Key) -> Ui {
    if key.code == KeyCode::Char('g') {
        u
    } else {
        Ui { tap_pending: false, ..u }
    }
}

pub open spec fn settled(r: (Ui, Action), key: Key) -> (Ui, Action) {
    (settle_tap(r.0, key), r.1)
}

/// Keys on the repository screen.
pub open spec fn repo_key(u: Ui, rt: Seq<Seq<char>>, key: Key, now: int) -> (Ui, Action) {
    settled(repo_key_base(u, rt, key, now), key)
}

/// Keys on the worktree screen.
pub open spec fn worktree_key(u: Ui, wt: Seq<Seq<char>>, key: Key, now: int) -> (Ui, Action) {
    settled(worktree_key_base(u, wt, key, now), key)
}

/// The key goes to the help overlay, the filter being edited, the removal
/// being confirmed, or the current screen, in that order; whichever takes
/// it, a key other than `g` cancels a pending tap.
pub open spec fn dispatch(u: Ui, rt: Seq<Seq<char>>, wt: Seq<Seq<char>>, key: Key, now: int) -> (Ui, Action) {
    if u.mode == Mode::Help {
        settled(help_key(u, key), key)
    } else if u.mode == Mode::Filter && filter_takes(key) {
        settled(filter_key(u, key), key)
    } else if u.mode == Mode::ConfirmDelete {
        settled(confirm_key(u, key), key)
    } else if u.screen == Screen::RepoList {
        repo_key(u, rt, key, now)
    } else {
        worktree_key(u, wt, key, now)
    }
}

/// One key event at time `now`: anything but a press is ignored; otherwise
/// stale chords expire, the key is dispatched, and both selections are
/// clamped to their visible lists.
pub open spec fn step(u: Ui, rt: Seq<Seq<char>>, wt: Seq<Seq<char>>, key: Key, now: int) -> (Ui, Action) {
    if !key.press {
        (u, Action::Continue)
    } else {
        let r = dispatch(expire(u, now), rt, wt, key, now);
        (clamp_ui(r.0, rt, wt), r.1)
    }
}

impl Navigator {
    pub open spec fn ui(&self) -> Ui {
        Ui {
            screen: self.screen,
            mode: self.mode,
            repo_filter: self.repo_view.filter@,
            repo_sel: self.repo_view.selected as int,
            active: self.active as int,
            wt_filter: self.wt_view.filter@,
            wt_sel: self.wt_view.selected as int,
            chord: self.chord@,
            chord_at: self.chord_at as int,
            tap_pending: self.tap_pending,
            tap_at: self.tap_at as int,
            pending: match self.pending_delete {
                Some(p) => Some(p as int),
                None => None,
            },
            notice: self.notice,
            saved: self.saved_notice,
        }
    }

    pub open spec fn rtexts(&self) -> Seq<Seq<char>> {
        repo_texts(self.repos@)
    }

    pub open spec fn wtexts(&self) -> Seq<Seq<char>> {
        entry_texts(self.entries@)
    }

    pub open spec fn wf(&self) -> bool {
        ui_wf(self.ui(), self.rtexts(), self.wtexts())
    }

    /// The visible repositories' positions.
    pub open spec fn repo_visible(&self) -> Seq<int> {
        visible_of(self.rtexts(), self.repo_view.filter@)
    }

    /// The visible worktrees' positions.
    pub open spec fn wt_visible(&self) -> Seq<int> {
        visible_of(self.wtexts(), self.wt_view.filter@)
    }
}


/// Every key event keeps the state consistent: in particular, whatever the
/// key did to a filter or a list, each selection ends in
/// `[0, max(0, visible - 1)]` of its screen's visible list.
pub proof fn lemma_step_wf(u: Ui, rt: Seq<Seq<char>>, wt: Seq<Seq<char>>, key: Key, now: int)
    requires
        ui_wf(u, rt, wt),
    ensures
        ui_wf(step(u, rt, wt, key, now).0, rt, wt),
{
    let e = expire(u, now);
    lemma_project_order(rt.map_values(|t: Seq<char>| crate::text::lower_of(t)), crate::text::lower_of(e.repo_filter));
    lemma_project_order(wt.map_values(|t: Seq<char>| crate::text::lower_of(t)), crate::text::lower_of(e.wt_filter));
    let rn = visible_of(rt, e.repo_filter).len() as nat;
    let wn = visible_of(wt, e.wt_filter).len() as nat;
    match key.code {
        KeyCode::Char(c) => {
            crate::hotkeys::lemma_exact_match(assigned(repo_pool(), rn), crate::hotkeys::pushed(e.chord, c));
            crate::hotkeys::lemma_exact_match(assigned(worktree_pool(), wn), crate::hotkeys::pushed(e.chord, c));
        },
        _ => {},
    }
}

fn extend_chars(v: &mut Vec<char>, w: &Vec<char>)
    ensures
        final(v)@ == old(v)@ + w@,
{
    let mut i: usize = 0;
    while i < w.len()
        invariant
            i <= w.len(),
            v@ == old(v)@ + w@.subrange(0, i as int),
        decreases w.len() - i,
    {
        v.push(w[i]);
        i = i + 1;
        assert(v@ =~= old(v)@ + w@.subrange(0, i as int));
    }
    assert(w@.subrange(0, w@.len() as int) =~= w@);
}

fn repo_text_exec(r: &RepoRecord) -> (t: Vec<char>)
    ensures
        t@ == repo_text(*r),
{
    let mut t = chars_of(r.name.as_str());
    t.push(' ');
    extend_chars(&mut t, &chars_of(r.anchor.as_str()));
    t
}

fn entry_text_exec(e: &WorktreeEntry) -> (t: Vec<char>)
    ensures
        t@ == entry_text(*e),
{
    let mut t = chars_of(e.path.as_str());
    t.push(' ');
    match &e.branch {
        Some(b) => extend_chars(&mut t, &chars_of(b.as_str())),
        None => {
            assert(t@ + Seq::<char>::empty() =~= t@);
        },
    }
    t
}

pub open spec fn tviews(v: Seq<Vec<char>>) -> Seq<Seq<char>> {
    v.map_values(|t: Vec<char>| t@)
}

fn repo_search_texts(repos: &Vec<RepoRecord>) -> (r: Vec<Vec<char>>)
    ensures
        tviews(r@) == repo_texts(repos@),
{
    let mut r: Vec<Vec<char>> = Vec::new();
    let mut i: usize = 0;
    while i < repos.len()
        invariant
            i <= repos.len(),
            tviews(r@) =~= repo_texts(repos@).subrange(0, i as int),
        decreases repos.len() - i,
    {
        let t = repo_text_exec(&repos[i]);
        let ghost prev = tviews(r@);
        r.push(t);
        assert(tviews(r@) =~= prev.push(repo_text(repos@[i as int])));
        i = i + 1;
    }
    assert(repo_texts(repos@).subrange(0, repos.len() as int) =~= repo_texts(repos@));
    r
}

fn entry_search_texts(entries: &Vec<WorktreeEntry>) -> (r: Vec<Vec<char>>)
    ensures
        tviews(r@) == entry_texts(entries@),
{
    let mut r: Vec<Vec<char>> = Vec::new();
    let mut i: usize = 0;
    while i < entries.len()
        invariant
            i <= entries.len(),
            tviews(r@) =~= entry_texts(entries@).subrange(0, i as int),
        decreases entries.len() - i,
    {
        let t = entry_text_exec(&entries[i]);
        let ghost prev = tviews(r@);
        r.push(t);
        assert(tviews(r@) =~= prev.push(entry_text(entries@[i as int])));
        i = i + 1;
    }
    assert(entry_texts(entries@).subrange(0, entries.len() as int) =~= entry_texts(entries@));
    r
}

fn sat_last_exec(n: usize) -> (r: usize)
    ensures
        r as int == sat_last(n as int),
{
    if n == 0 {
        0
    } else {
        n - 1
    }
}

fn filter_takes_exec(key: Key) -> (r: bool)
    ensures
        r == filter_takes(key),
{
    match key.code {
        KeyCode::Esc | KeyCode::Enter | KeyCode::Backspace => true,
        KeyCode::Char(_) => !key.ctrl,
        KeyCode::Other => false,
    }
}

/// The new selection, tap state and tap time of a movement key, if `c` is one.
fn movement_exec(tap_pending: bool, tap_at: u64, sel: usize, n: usize, c: char, now: u64) -> (r: Option<(usize, bool, u64)>)
    requires
        sel <= sat_last(n as int),
    ensures
        forall|u: Ui| u.tap_pending == tap_pending && u.tap_at == tap_at as int ==> (match (r, movement(u, sel as int, n as int, c, now as int)) {
            (Some(x), Some(y)) => x.0 as int == y.0 && x.1 == y.1 && x.2 as int == y.2,
            (None, None) => true,
            _ => false,
        }),
        r matches Some(x) ==> x.0 <= sat_last(n as int),
{
    if c == 'j' {
        let last = sat_last_exec(n);
        Some((if sel < last { sel + 1 } else { last }, false, tap_at))
    } else if c == 'k' {
        Some((if sel > 0 { sel - 1 } else { 0 }, false, tap_at))
    } else if c == 'G' {
        Some((sat_last_exec(n), false, tap_at))
    } else if c == 'g' {
        if tap_pending {
            Some((0, false, tap_at))
        } else {
            Some((sel, true, now))
        }
    } else {
        None
    }
}

impl Navigator {
    /// The positions of the repositories that the filter keeps.
    pub fn visible_repos(&self) -> (r: Vec<usize>)
        ensures
            ints(r@) == self.repo_visible(),
    {
        let rt = repo_search_texts(&self.repos);
        project_chars(&rt, &self.repo_view.filter)
    }

    /// The positions of the worktrees that the filter keeps.
    pub fn visible_worktrees_idx(&self) -> (r: Vec<usize>)
        ensures
            ints(r@) == self.wt_visible(),
    {
        let wt = entry_search_texts(&self.entries);
        project_chars(&wt, &self.wt_view.filter)
    }

    fn expire_chords(&mut self, now: u64)
        ensures
            final(self).ui() == expire(old(self).ui(), now as int),
            final(self).repos == old(self).repos,
            final(self).entries == old(self).entries,
            final(self).failure == old(self).failure,
    {
        if self.chord.len() > 0 && now > self.chord_at && now - self.chord_at > CHORD_IDLE_MS {
            self.chord.clear();
        }
        if self.tap_pending && now > self.tap_at && now - self.tap_at > DOUBLE_TAP_MS {
            self.tap_pending = false;
        }
        assert(final(self).ui() =~= expire(old(self).ui(), now as int));
    }

    fn handle_help_key(&mut self, key: Key) -> (a: Action)
        ensures
            (final(self).ui(), a) == help_key(old(self).ui(), key),
            final(self).repos == old(self).repos,
            final(self).entries == old(self).entries,
            final(self).failure == old(self).failure,
    {
        let close = match key.code {
            KeyCode::Char(c) => c == '?' || c == 'q',
            KeyCode::Esc => true,
            _ => false,
        };
        if close {
            self.mode = Mode::Normal;
            self.notice = self.saved_notice;
        }
        Action::Continue
    }

    fn handle_filter_mode(&mut self, key: Key) -> (a: Action)
        requires
            filter_takes(key),
        ensures
            (final(self).ui(), a) == filter_key(old(self).ui(), key),
            final(self).repos == old(self).repos,
            final(self).entries == old(self).entries,
            final(self).failure == old(self).failure,
    {
        match key.code {
            KeyCode::Esc => {
                self.mode = Mode::Normal;
                self.notice = Notice::FilterCancelled;
            },
            KeyCode::Enter => {
                self.mode = Mode::Normal;
                self.notice = Notice::FilterApplied;
            },
            KeyCode::Backspace => {
                if self.screen == Screen::RepoList {
                    self.repo_view.filter.pop();
                } else {
                    self.wt_view.filter.pop();
                }
            },
            KeyCode::Char(c) => {
                if self.screen == Screen::RepoList {
                    self.repo_view.filter.push(c);
                } else {
                    self.wt_view.filter.push(c);
                }
            },
            KeyCode::Other => {},
        }
        assert(final(self).ui() =~= filter_key(old(self).ui(), key).0);
        Action::Continue
    }

    fn handle_confirm_key(&mut self, key: Key) -> (a: Action)
        ensures
            (final(self).ui(), a) == confirm_key(old(self).ui(), key),
            final(self).repos == old(self).repos,
            final(self).entries == old(self).entries,
            final(self).failure == old(self).failure,
    {
        let p = match self.pending_delete {
            Some(p) => p,
            None => 0,
        };
        match key.code {
            KeyCode::Char(c) => {
                if c == 'y' || c == 'Y' {
                    self.mode = Mode::Normal;
                    self.pending_delete = None;
                    return Action::Remove { repo: self.active, entry: p };
                } else if c == 'n' || c == 'N' {
                    self.mode = Mode::Normal;
                    self.pending_delete = None;
                    self.notice = Notice::DeleteCancelled;
                }
            },
            KeyCode::Esc => {
                self.mode = Mode::Normal;
                self.pending_delete = None;
                self.notice = Notice::DeleteCancelled;
            },
            _ => {},
        }
        Action::Continue
    }

    fn repo_key_base_exec(&mut self, rt: &Vec<Vec<char>>, key: Key, now: u64) -> (a: Action)
        requires
            tviews(rt@) == old(self).rtexts(),
            ui_wf(old(self).ui(), old(self).rtexts(), old(self).wtexts()),
        ensures
            (final(self).ui(), a) == repo_key_base(old(self).ui(), old(self).rtexts(), key, now as int),
            final(self).repos == old(self).repos,
            final(self).entries == old(self).entries,
            final(self).failure == old(self).failure,
    {
        let vis = project_chars(rt, &self.repo_view.filter);
        let n = vis.len();
        let ghost u = self.ui();
        let ghost v = visible_of(old(self).rtexts(), u.repo_filter);
        assert(ints(vis@) == v);
        match key.code {
            KeyCode::Esc => Action::Exit,
            KeyCode::Enter => {
                if n == 0 {
                    self.notice = Notice::NoSelection;
                    Action::Continue
                } else {
                    assert(v[u.repo_sel] == vis@[u.repo_sel] as int);
                    Action::OpenRepo(vis[self.repo_view.selected])
                }
            },
            KeyCode::Char(c) => {
                if c == 'q' {
                    Action::Exit
                } else if c == '?' {
                    self.saved_notice = self.notice;
                    self.mode = Mode::Help;
                    self.notice = Notice::HelpOpen;
                    Action::Continue
                } else if c == '/' {
                    self.mode = Mode::Filter;
                    self.repo_view.filter.clear();
                    self.notice = Notice::FilterPrompt;
                    Action::Continue
                } else {
                    match movement_exec(self.tap_pending, self.tap_at, self.repo_view.selected, n, c, now) {
                        Some(m) => {
                            self.repo_view.selected = m.0;
                            self.tap_pending = m.1;
                            self.tap_at = m.2;
                            self.chord.clear();
                            assert(final(self).ui() =~= repo_key_base(u, old(self).rtexts(), key, now as int).0);
                            Action::Continue
                        },
                        None => {
                            if is_repo_hotkey(c) {
                                let pool = hotkey_pool_repos();
                                let codes = assign_hotkeys(n, pool.as_slice());
                                let sel = resolve_chord(&mut self.chord, c, &codes);
                                self.chord_at = now;
                                match sel {
                                    Some(i) => {
                                        self.repo_view.selected = i;
                                    },
                                    None => {},
                                }
                                assert(final(self).ui() =~= repo_key_base(u, old(self).rtexts(), key, now as int).0);
                            }
                            Action::Continue
                        },
                    }
                }
            },
            _ => Action::Continue,
        }
    }

    fn worktree_key_base_exec(&mut self, wt: &Vec<Vec<char>>, key: Key, now: u64) -> (a: Action)
        requires
            tviews(wt@) == old(self).wtexts(),
            ui_wf(old(self).ui(), old(self).rtexts(), old(self).wtexts()),
        ensures
            (final(self).ui(), a) == worktree_key_base(old(self).ui(), old(self).wtexts(), key, now as int),
            final(self).repos == old(self).repos,
            final(self).entries == old(self).entries,
            final(self).failure == old(self).failure,
    {
        let vis = project_chars(wt, &self.wt_view.filter);
        let n = vis.len();
        let ghost u = self.ui();
        let ghost v = visible_of(old(self).wtexts(), u.wt_filter);
        assert(ints(vis@) == v);
        if key.ctrl && key.code == KeyCode::Char('d') {
            if n == 0 {
                self.notice = Notice::NoSelection;
            } else {
                assert(v[u.wt_sel] == vis@[u.wt_sel] as int);
                self.mode = Mode::ConfirmDelete;
                self.pending_delete = Some(vis[self.wt_view.selected]);
                self.notice = Notice::ConfirmDelete;
            }
            return Action::Continue;
        }
        match key.code {
            KeyCode::Esc => {
                self.screen = Screen::RepoList;
                self.mode = Mode::Normal;
                self.chord.clear();
                self.tap_pending = false;
                self.notice = Notice::Hint;
                assert(final(self).ui() =~= worktree_key_base(u, old(self).wtexts(), key, now as int).0);
                Action::Continue
            },
            KeyCode::Enter => {
                if n == 0 {
                    self.notice = Notice::NoSelection;
                    Action::Continue
                } else {
                    assert(v[u.wt_sel] == vis@[u.wt_sel] as int);
                    Action::Choose { repo: self.active, entry: vis[self.wt_view.selected] }
                }
            },
            KeyCode::Char(c) => {
                if c == 'q' {
                    Action::Exit
                } else if c == '?' {
                    self.saved_notice = self.notice;
                    self.mode = Mode::Help;
                    self.notice = Notice::HelpOpen;
                    Action::Continue
                } else if c == 'n' {
                    Action::Create { repo: self.active }
                } else if c == '/' {
                    self.mode = Mode::Filter;
                    self.wt_view.filter.clear();
                    self.notice = Notice::FilterPrompt;
                    Action::Continue
                } else {
                    match movement_exec(self.tap_pending, self.tap_at, self.wt_view.selected, n, c, now) {
                        Some(m) => {
                            self.wt_view.selected = m.0;
                            self.tap_pending = m.1;
                            self.tap_at = m.2;
                            self.chord.clear();
                            assert(final(self).ui() =~= worktree_key_base(u, old(self).wtexts(), key, now as int).0);
                            Action::Continue
                        },
                        None => {
                            if is_worktree_hotkey(c) {
                                let pool = hotkey_pool_worktrees();
                                let codes = assign_hotkeys(n, pool.as_slice());
                                let sel = resolve_chord(&mut self.chord, c, &codes);
                                self.chord_at = now;
                                match sel {
                                    Some(i) => {
                                        self.wt_view.selected = i;
                                    },
                                    None => {},
                                }
                                assert(final(self).ui() =~= worktree_key_base(u, old(self).wtexts(), key, now as int).0);
                            }
                            Action::Continue
                        },
                    }
                }
            },
            _ => Action::Continue,
        }
    }

    /// Handles a key on the repository screen in normal mode; any key but
    /// `g` cancels a pending tap.
    pub fn handle_repo_key(&mut self, rt: &Vec<Vec<char>>, key: Key, now: u64) -> (a: Action)
        requires
            tviews(rt@) == old(self).rtexts(),
            ui_wf(old(self).ui(), old(self).rtexts(), old(self).wtexts()),
        ensures
            (final(self).ui(), a) == repo_key(old(self).ui(), old(self).rtexts(), key, now as int),
            final(self).repos == old(self).repos,
            final(self).entries == old(self).entries,
            final(self).failure == old(self).failure,
    {
        let a = self.repo_key_base_exec(rt, key, now);
        self.settle_tap(key);
        a
    }

    /// Handles a key on the worktree screen in normal mode; any key but
    /// `g` cancels a pending tap.
    pub fn handle_worktree_key(&mut self, wt: &Vec<Vec<char>>, key: Key, now: u64) -> (a: Action)
        requires
            tviews(wt@) == old(self).wtexts(),
            ui_wf(old(self).ui(), old(self).rtexts(), old(self).wtexts()),
        ensures
            (final(self).ui(), a) == worktree_key(old(self).ui(), old(self).wtexts(), key, now as int),
            final(self).repos == old(self).repos,
            final(self).entries == old(self).entries,
            final(self).failure == old(self).failure,
    {
        let a = self.worktree_key_base_exec(wt, key, now);
        self.settle_tap(key);
        a
    }

    fn settle_tap(&mut self, key: Key)
        ensures
            final(self).ui() == settle_tap(old(self).ui(), key),
            final(self).repos == old(self).repos,
            final(self).entries == old(self).entries,
            final(self).failure == old(self).failure,
    {
        let is_g = match key.code {
            KeyCode::Char(c) => c == 'g',
            _ => false,
        };
        if !is_g {
            self.tap_pending = false;
        }
    }

    fn clamp_selections(&mut self, rt: &Vec<Vec<char>>, wt: &Vec<Vec<char>>)
        requires
            tviews(rt@) == old(self).rtexts(),
            tviews(wt@) == old(self).wtexts(),
        ensures
            final(self).ui() == clamp_ui(old(self).ui(), old(self).rtexts(), old(self).wtexts()),
            final(self).repos == old(self).repos,
            final(self).entries == old(self).entries,
            final(self).failure == old(self).failure,
    {
        let rn = project_chars(rt, &self.repo_view.filter).len();
        let wn = project_chars(wt, &self.wt_view.filter).len();
        let rl = sat_last_exec(rn);
        let wl = sat_last_exec(wn);
        if self.repo_view.selected > rl {
            self.repo_view.selected = rl;
        }
        if self.wt_view.selected > wl {
            self.wt_view.selected = wl;
        }
        assert(final(self).ui() =~= clamp_ui(old(self).ui(), old(self).rtexts(), old(self).wtexts()));
    }

    /// Handles one key event at time `now` (in milliseconds of a monotonic
    /// clock) and says what the caller is to do.
    pub fn handle_key(&mut self, key: Key, now: u64) -> (a: Action)
        requires
            old(self).wf(),
        ensures
            final(self).wf(),
            (final(self).ui(), a) == step(old(self).ui(), old(self).rtexts(), old(self).wtexts(), key, now as int),
            final(self).repos == old(self).repos,
            final(self).entries == old(self).entries,
            final(self).failure == old(self).failure,
    {
        proof {
            lemma_step_wf(self.ui(), self.rtexts(), self.wtexts(), key, now as int);
        }
        if !key.press {
            return Action::Continue;
        }
        let rt = repo_search_texts(&self.repos);
        let wt = entry_search_texts(&self.entries);
        self.expire_chords(now);
        let ghost e = self.ui();
        let a = if self.mode == Mode::Help {
            let a = self.handle_help_key(key);
            self.settle_tap(key);
            a
        } else if self.mode == Mode::Filter && filter_takes_exec(key) {
            let a = self.handle_filter_mode(key);
            self.settle_tap(key);
            a
        } else if self.mode == Mode::ConfirmDelete {
            let a = self.handle_confirm_key(key);
            self.settle_tap(key);
            a
        } else if self.screen == Screen::RepoList {
            proof { lemma_expire_wf(old(self).ui(), old(self).rtexts(), old(self).wtexts(), now as int); }
            self.handle_repo_key(&rt, key, now)
        } else {
            proof { lemma_expire_wf(old(self).ui(), old(self).rtexts(), old(self).wtexts(), now as int); }
            self.handle_worktree_key(&wt, key, now)
        };
        self.clamp_selections(&rt, &wt);
        a
    }
}

proof fn lemma_expire_wf(u: Ui, rt: Seq<Seq<char>>, wt: Seq<Seq<char>>, now: int)
    requires
        ui_wf(u, rt, wt),
    ensures
        ui_wf(expire(u, now), rt, wt),
{
}

/// The `g` key, pressed with no modifier.
pub open spec fn g_key() -> Key {
    Key { code: KeyCode::Char('g'), ctrl: false, press: true }
}

/// The selection of the screen being shown.
pub open spec fn current_sel(u: Ui) -> int {
    if u.screen == Screen::RepoList {
        u.repo_sel
    } else {
        u.wt_sel
    }
}

/// Any pressed key other than `g` cancels a pending tap, whatever the mode
/// or screen, so a later `g` starts afresh.
pub proof fn lemma_other_key_cancels_tap(u: Ui, rt: Seq<Seq<char>>, wt: Seq<Seq<char>>, key: Key, now: int)
    requires
        key.press,
        key.code != KeyCode::Char('g'),
    ensures
        !step(u, rt, wt, key, now).0.tap_pending,
{
}

/// Jumping to the top takes two taps of `g` within the window: the second
/// tap selects the first item when it comes at most `DOUBLE_TAP_MS` after
/// the first; later, each tap is a first tap that moves nothing and only
/// starts a new window.
pub proof fn lemma_double_tap(u: Ui, rt: Seq<Seq<char>>, wt: Seq<Seq<char>>, t1: int, t2: int)
    requires
        ui_wf(u, rt, wt),
        u.mode == Mode::Normal,
        !u.tap_pending,
        t1 <= t2,
    ensures
        ({
            let s1 = step(u, rt, wt, g_key(), t1).0;
            let s2 = step(s1, rt, wt, g_key(), t2).0;
            &&& s1.screen == u.screen && s2.screen == u.screen
            &&& current_sel(s1) == current_sel(u)
            &&& s1.tap_pending && s1.tap_at == t1
            &&& (t2 - t1 <= DOUBLE_TAP_MS as int ==> current_sel(s2) == 0 && !s2.tap_pending)
            &&& (t2 - t1 > DOUBLE_TAP_MS as int ==> current_sel(s2) == current_sel(u)
                && s2.tap_pending && s2.tap_at == t2)
        }),
{
    let s1 = step(u, rt, wt, g_key(), t1).0;
    lemma_step_wf(u, rt, wt, g_key(), t1);
    assert(repo_pool().contains('g') == false) by {
        assert forall|i: int| 0 <= i < repo_pool().len() implies repo_pool()[i] != 'g' by {}
    }
    assert(worktree_pool().contains('g') == false) by {
        assert forall|i: int| 0 <= i < worktree_pool().len() implies worktree_pool()[i] != 'g' by {}
    }
}

/// The first position of a repository with this id.
fn position_of_id(repos: &Vec<RepoRecord>, id: &String) -> (r: Option<usize>)
    ensures
        r matches Some(p) ==> p < repos@.len() && repos@[p as int].id@ == id@
            && forall|j: int| 0 <= j < p ==> #[trigger] repos@[j].id@ != id@,
        r is None ==> forall|j: int| 0 <= j < repos@.len() ==> #[trigger] repos@[j].id@ != id@,
{
    let idv = chars_of(id.as_str());
    let mut i: usize = 0;
    while i < repos.len()
        invariant
            i <= repos@.len(),
            idv@ == id@,
            forall|j: int| 0 <= j < i ==> #[trigger] repos@[j].id@ != id@,
        decreases repos.len() - i,
    {
        let rid = chars_of(repos[i].id.as_str());
        if chars_eq(&rid, &idv) {
            return Some(i);
        }
        i = i + 1;
    }
    None
}

impl Navigator {
    /// A navigator on the repository list, with the repository whose id is
    /// `current` (the first such) selected, if it is visible.
    pub fn new(repos: Vec<RepoRecord>, current: Option<String>) -> (r: Navigator)
        ensures
            r.wf(),
            r.repos == repos,
            r.entries@.len() == 0,
            r.screen == Screen::RepoList,
            r.mode == Mode::Normal,
            r.repo_view.filter@.len() == 0,
            r.wt_view.filter@.len() == 0,
            r.wt_view.selected == 0,
            r.chord@.len() == 0,
            !r.tap_pending,
            r.pending_delete is None,
            r.notice == Notice::Hint,
            ({
                let last = sat_last(r.repo_visible().len() as int);
                match current {
                    Some(id) => (forall|p: int| 0 <= p < repos@.len() && #[trigger] repos@[p].id@ == id@
                        && (forall|j: int| 0 <= j < p ==> #[trigger] repos@[j].id@ != id@)
                        ==> r.repo_view.selected == min_int(p, last))
                        && ((forall|j: int| 0 <= j < repos@.len() ==> #[trigger] repos@[j].id@ != id@)
                        ==> r.repo_view.selected == 0),
                    None => r.repo_view.selected == 0,
                }
            }),
    {
        let pos = match &current {
            Some(id) => position_of_id(&repos, id),
            None => None,
        };
        let seed: usize = match pos {
            Some(p) => p,
            None => 0,
        };
        let mut r = Navigator {
            screen: Screen::RepoList,
            mode: Mode::Normal,
            repos,
            repo_view: ListView { filter: Vec::new(), selected: 0 },
            active: 0,
            entries: Vec::new(),
            wt_view: ListView { filter: Vec::new(), selected: 0 },
            chord: Vec::new(),
            chord_at: 0,
            tap_pending: false,
            tap_at: 0,
            pending_delete: None,
            notice: Notice::Hint,
            saved_notice: Notice::Hint,
            failure: String::new(),
        };
        let n = r.visible_repos().len();
        let last = sat_last_exec(n);
        r.repo_view.selected = if seed < last { seed } else { last };
        proof {
            match pos {
                Some(p) => {
                    assert(r.repos@[p as int].id@ == current.unwrap()@);
                    assert(r.repo_view.selected == min_int(p as int, last as int));
                },
                None => {},
            }
            lemma_project_order(r.wtexts().map_values(|t: Seq<char>| crate::text::lower_of(t)), crate::text::lower_of(r.wt_view.filter@));
        }
        r
    }
}

/// A repository record with its strings as character sequences.
pub open spec fn record_view(r: RepoRecord) -> (Seq<char>, Seq<char>, Seq<char>, Seq<char>) {
    (r.id@, r.name@, r.anchor@, r.common_dir@)
}

fn with_anchor(r: &RepoRecord, anchor: String) -> (o: RepoRecord)
    ensures
        record_view(o) == (r.id@, r.name@, anchor@, r.common_dir@),
{
    RepoRecord { id: r.id.clone(), name: r.name.clone(), anchor, common_dir: r.common_dir.clone() }
}

/// The first visible position holding a worktree at `path`.
fn visible_position_of(entries: &Vec<WorktreeEntry>, vis: &Vec<usize>, path: &Vec<char>) -> (r: Option<usize>)
    requires
        forall|k: int| 0 <= k < vis@.len() ==> #[trigger] vis@[k] < entries@.len(),
    ensures
        r matches Some(k) ==> k < vis@.len() && entries@[vis@[k as int] as int].path@ == path@
            && forall|j: int| 0 <= j < k ==> #[trigger] entries@[vis@[j] as int].path@ != path@,
        r is None ==> forall|j: int| 0 <= j < vis@.len() ==> #[trigger] entries@[vis@[j] as int].path@ != path@,
{
    let mut k: usize = 0;
    while k < vis.len()
        invariant
            k <= vis@.len(),
            forall|i: int| 0 <= i < vis@.len() ==> #[trigger] vis@[i] < entries@.len(),
            forall|j: int| 0 <= j < k ==> #[trigger] entries@[vis@[j] as int].path@ != path@,
        decreases vis.len() - k,
    {
        let p = chars_of(entries[vis[k]].path.as_str());
        if chars_eq(&p, path) {
            return Some(k);
        }
        k = k + 1;
    }
    None
}

impl Navigator {
    /// Puts a fresh listing in place for the active repository: its
    /// entries, and its (possibly repaired) anchor. Any removal awaiting
    /// confirmation is dropped and both selections are clamped.
    fn install_listing(&mut self, repo: usize, listing: Listing)
        requires
            repo < old(self).repos@.len(),
        ensures
            final(self).repos@.len() == old(self).repos@.len(),
            forall|i: int| 0 <= i < old(self).repos@.len() && i != repo ==> #[trigger] final(self).repos@[i] == old(self).repos@[i],
            record_view(final(self).repos@[repo as int]) == (
                old(self).repos@[repo as int].id@,
                old(self).repos@[repo as int].name@,
                listing.anchor@,
                old(self).repos@[repo as int].common_dir@,
            ),
            final(self).entries == listing.entries,
            final(self).active == repo,
            final(self).screen == Screen::WorktreeList,
            final(self).mode == Mode::Normal,
            final(self).pending_delete is None,
            final(self).repo_view.filter == old(self).repo_view.filter,
            final(self).wt_view.filter == old(self).wt_view.filter,
            final(self).repo_view.selected as int == min_int(old(self).repo_view.selected as int, sat_last(final(self).repo_visible().len() as int)),
            final(self).wt_view.selected as int == min_int(old(self).wt_view.selected as int, sat_last(final(self).wt_visible().len() as int)),
            final(self).chord == old(self).chord,
            final(self).chord_at == old(self).chord_at,
            final(self).tap_pending == old(self).tap_pending,
            final(self).tap_at == old(self).tap_at,
            final(self).notice == old(self).notice,
            final(self).saved_notice == old(self).saved_notice,
            final(self).failure == old(self).failure,
    {
        let updated = with_anchor(&self.repos[repo], listing.anchor);
        self.repos.set(repo, updated);
        self.entries = listing.entries;
        self.active = repo;
        self.screen = Screen::WorktreeList;
        self.mode = Mode::Normal;
        self.pending_delete = None;
        let rl = sat_last_exec(self.visible_repos().len());
        let wl = sat_last_exec(self.visible_worktrees_idx().len());
        if self.repo_view.selected > rl {
            self.repo_view.selected = rl;
        }
        if self.wt_view.selected > wl {
            self.wt_view.selected = wl;
        }
    }

    /// Enters the worktree screen of repository `repo` with the listing
    /// obtained for it: its filter, selection and chords start afresh, and
    /// the repository's anchor becomes the listing's.
    pub fn open_worktrees(&mut self, repo: usize, listing: Listing)
        requires
            old(self).wf(),
            repo < old(self).repos@.len(),
        ensures
            final(self).wf(),
            final(self).screen == Screen::WorktreeList,
            final(self).mode == Mode::Normal,
            final(self).active == repo,
            final(self).entries == listing.entries,
            final(self).repos@.len() == old(self).repos@.len(),
            forall|i: int| 0 <= i < old(self).repos@.len() && i != repo ==> #[trigger] final(self).repos@[i] == old(self).repos@[i],
            record_view(final(self).repos@[repo as int]) == (
                old(self).repos@[repo as int].id@,
                old(self).repos@[repo as int].name@,
                listing.anchor@,
                old(self).repos@[repo as int].common_dir@,
            ),
            final(self).repo_view.filter == old(self).repo_view.filter,
            final(self).repo_view.selected as int == min_int(old(self).repo_view.selected as int, sat_last(final(self).repo_visible().len() as int)),
            final(self).wt_view.filter@.len() == 0,
            final(self).wt_view.selected == 0,
            final(self).chord@.len() == 0,
            !final(self).tap_pending,
            final(self).pending_delete is None,
            final(self).notice == Notice::Hint,
    {
        self.wt_view.filter.clear();
        self.wt_view.selected = 0;
        self.chord.clear();
        self.tap_pending = false;
        self.notice = Notice::Hint;
        self.install_listing(repo, listing);
        proof {
            lemma_project_order(self.rtexts().map_values(|t: Seq<char>| crate::text::lower_of(t)), crate::text::lower_of(self.repo_view.filter@));
        }
    }

    /// Takes the listing re-read after a worktree was removed.
    pub fn worktree_removed(&mut self, listing: Listing)
        requires
            old(self).wf(),
            old(self).screen == Screen::WorktreeList,
        ensures
            final(self).wf(),
            final(self).screen == Screen::WorktreeList,
            final(self).mode == Mode::Normal,
            final(self).active == old(self).active,
            final(self).entries == listing.entries,
            final(self).wt_view.filter == old(self).wt_view.filter,
            final(self).wt_view.selected as int == min_int(old(self).wt_view.selected as int, sat_last(final(self).wt_visible().len() as int)),
            final(self).pending_delete is None,
            final(self).notice == Notice::Removed,
            final(self).repos@.len() == old(self).repos@.len(),
            forall|i: int| 0 <= i < old(self).repos@.len() && i != old(self).active ==> #[trigger] final(self).repos@[i] == old(self).repos@[i],
            record_view(final(self).repos@[old(self).active as int]) == (
                old(self).repos@[old(self).active as int].id@,
                old(self).repos@[old(self).active as int].name@,
                listing.anchor@,
                old(self).repos@[old(self).active as int].common_dir@,
            ),
            final(self).repo_view.filter == old(self).repo_view.filter,
            final(self).repo_view.selected as int == min_int(old(self).repo_view.selected as int, sat_last(final(self).repo_visible().len() as int)),
            final(self).chord == old(self).chord,
            final(self).chord_at == old(self).chord_at,
            final(self).tap_pending == old(self).tap_pending,
            final(self).tap_at == old(self).tap_at,
            final(self).saved_notice == old(self).saved_notice,
            final(self).failure == old(self).failure,
    {
        self.notice = Notice::Removed;
        let a = self.active;
        self.install_listing(a, listing);
    }

    /// Takes the listing re-read after a worktree was created at `created`,
    /// and selects that worktree when it is visible.
    pub fn worktree_created(&mut self, listing: Listing, created: &str)
        requires
            old(self).wf(),
            old(self).screen == Screen::WorktreeList,
        ensures
            final(self).wf(),
            final(self).screen == Screen::WorktreeList,
            final(self).mode == Mode::Normal,
            final(self).active == old(self).active,
            final(self).entries == listing.entries,
            final(self).wt_view.filter == old(self).wt_view.filter,
            final(self).pending_delete is None,
            final(self).notice == Notice::Created,
            final(self).repos@.len() == old(self).repos@.len(),
            forall|i: int| 0 <= i < old(self).repos@.len() && i != old(self).active ==> #[trigger] final(self).repos@[i] == old(self).repos@[i],
            record_view(final(self).repos@[old(self).active as int]) == (
                old(self).repos@[old(self).active as int].id@,
                old(self).repos@[old(self).active as int].name@,
                listing.anchor@,
                old(self).repos@[old(self).active as int].common_dir@,
            ),
            final(self).repo_view.filter == old(self).repo_view.filter,
            final(self).repo_view.selected as int == min_int(old(self).repo_view.selected as int, sat_last(final(self).repo_visible().len() as int)),
            final(self).chord == old(self).chord,
            final(self).chord_at == old(self).chord_at,
            final(self).tap_pending == old(self).tap_pending,
            final(self).tap_at == old(self).tap_at,
            final(self).saved_notice == old(self).saved_notice,
            final(self).failure == old(self).failure,
            ({
                let vis = final(self).wt_visible();
                let es = final(self).entries@;
                (forall|k: int| 0 <= k < vis.len() && #[trigger] es[vis[k]].path@ == created@
                    && (forall|j: int| 0 <= j < k ==> #[trigger] es[vis[j]].path@ != created@)
                    ==> final(self).wt_view.selected == k)
                && ((forall|j: int| 0 <= j < vis.len() ==> #[trigger] es[vis[j]].path@ != created@)
                    ==> final(self).wt_view.selected as int == min_int(old(self).wt_view.selected as int, sat_last(vis.len() as int)))
            }),
    {
        self.notice = Notice::Created;
        let a = self.active;
        self.install_listing(a, listing);
        let vis = self.visible_worktrees_idx();
        proof {
            lemma_project_order(self.wtexts().map_values(|t: Seq<char>| crate::text::lower_of(t)), crate::text::lower_of(self.wt_view.filter@));
            assert forall|k: int| 0 <= k < vis@.len() implies #[trigger] vis@[k] < self.entries@.len() by {
                assert(ints(vis@)[k] == vis@[k] as int);
            }
        }
        let target = chars_of(created);
        match visible_position_of(&self.entries, &vis, &target) {
            Some(k) => {
                self.wt_view.selected = k;
                proof {
                    assert(ints(vis@)[k as int] == vis@[k as int] as int);
                }
            },
            None => {},
        }
        proof {
            assert forall|j: int| 0 <= j < vis@.len() implies ints(vis@)[j] == vis@[j] as int by {}
        }
    }

    /// Drops a partial code or a pending tap that has waited too long; the
    /// event loop calls it on every turn, key or no key.
    pub fn tick(&mut self, now: u64)
        requires
            old(self).wf(),
        ensures
            final(self).wf(),
            final(self).ui() == expire(old(self).ui(), now as int),
            final(self).repos == old(self).repos,
            final(self).entries == old(self).entries,
            final(self).failure == old(self).failure,
    {
        self.expire_chords(now);
    }

    /// Reports a failed outside operation on the status line.
    pub fn report_failure(&mut self, message: String)
        ensures
            final(self).notice == Notice::Failed,
            final(self).failure == message,
            final(self).ui() == (Ui { notice: Notice::Failed, ..old(self).ui() }),
            final(self).repos == old(self).repos,
            final(self).entries == old(self).entries,
    {
        self.notice = Notice::Failed;
        self.failure = message;
    }

    /// Puts a notice on the status line.
    pub fn set_notice(&mut self, notice: Notice)
        ensures
            final(self).ui() == (Ui { notice, ..old(self).ui() }),
            final(self).repos == old(self).repos,
            final(self).entries == old(self).entries,
            final(self).failure == old(self).failure,
    {
        self.notice = notice;
    }
}

} // verus!
