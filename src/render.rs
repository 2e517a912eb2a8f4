//! What the terminal shows for a navigator state: the header, one row per
//! visible item with its quick-select code, the status line and the help
//! overlay. Drawing it is left to the caller.
use vstd::prelude::*;
use vstd::string::*;
use crate::filter::{ints, lemma_project_order};
use crate::hotkeys::{assign_hotkeys, assigned, hotkey_pool_repos, hotkey_pool_worktrees, repo_pool, strs, worktree_pool};
use crate::navigator::{Mode, Navigator, Notice, Screen};
use crate::repo::{branch_label, WorktreeEntry};
use crate::text::string_of;

verus! {

/// One list row: quick-select code, main text and secondary text.
#[derive(Debug)]
pub struct Row {
    pub code: String,
    pub label: String,
    pub detail: String,
}

/// Everything one redraw shows.
#[derive(Debug)]
pub struct Frame {
    pub title: String,
    /// The filter as typed, after a `/`.
    pub filter: String,
    /// The partial quick-select code.
    pub chord: String,
    pub rows: Vec<Row>,
    pub selected: usize,
    pub status: String,
    pub help: Option<String>,
}

pub open spec fn title_of(screen: Screen) -> Seq<char> {
    match screen {
        Screen::RepoList => "gw: repos"@,
        Screen::WorktreeList => "gw: worktrees"@,
    }
}

pub open spec fn hint_of(screen: Screen) -> Seq<char> {
    match screen {
        Screen::RepoList => "j/k move, gg/G top/bottom, / filter, enter select, ? help, q quit"@,
        Screen::WorktreeList => "j/k move, gg/G top/bottom, / filter, enter select, n new, ctrl+d delete, esc back, ? help, q quit"@,
    }
}

/// The status line for a notice; a removal awaiting confirmation names its
/// target, a failure gives its message.
pub open spec fn status_of(notice: Notice, screen: Screen, failure: Seq<char>, target: Seq<char>) -> Seq<char> {
    match notice {
        Notice::Hint => hint_of(screen),
        Notice::FilterPrompt => "filter: type, enter to apply"@,
        Notice::FilterCancelled => "cancelled filter"@,
        Notice::FilterApplied => "filter applied"@,
        Notice::HelpOpen => "press ?/esc/q to close help"@,
        Notice::ConfirmDelete => "delete "@ + target + " ? (y/n)"@,
        Notice::DeleteCancelled => "delete cancelled"@,
        Notice::Removed => "worktree removed"@,
        Notice::NewCancelled => "new cancelled"@,
        Notice::Created => "worktree created; enter to select"@,
        Notice::NoSelection => "nothing selected"@,
        Notice::Failed => failure,
    }
}

pub open spec fn help_of(screen: Screen) -> Seq<char> {
    match screen {
        Screen::RepoList => REPO_HELP@,
        Screen::WorktreeList => WORKTREE_HELP@,
    }
}

pub const REPO_HELP: &'static str = "Repo Picker

Keys:
- j/k: move
- gg/G: top/bottom
- /: filter
- enter: open repo's worktrees
- <code>: jump to the item with that code
- ?: help
- q/esc: quit

Tip: select a repo, then use enter to see its worktrees.
";

pub const WORKTREE_HELP: &'static str = "Worktree Picker

Keys:
- j/k: move
- gg/G: top/bottom
- /: filter
- enter: select highlighted worktree
- <code>: jump to the item with that code
- n: create a new worktree for this repo
- ctrl+d: delete highlighted worktree (confirmation; branch preserved)
- esc: back to repos
- ?: help
- q: quit

New worktree input rules (single text field):
- GitHub PR URL only (must be a URL): https://github.com/OWNER/REPO/pull/<N>
- Otherwise, treat input as a branch name.
- If branch exists locally: use it as-is (no fetch / no remote comparison).
- If branch missing locally and exists on remote: fetch it, create a local tracking branch, then create the worktree.
- If branch missing locally and not on remote: create a new branch, then create the worktree.
- Remote selection: if exactly 1 remote, use it; otherwise you will be prompted to choose a remote.
";

/// The help text of a screen.
pub fn help_text(screen: Screen) -> (r: String)
    ensures
        r@ == help_of(screen),
{
    match screen {
        Screen::RepoList => String::from_str(REPO_HELP),
        Screen::WorktreeList => String::from_str(WORKTREE_HELP),
    }
}

fn hint_text(screen: Screen) -> (r: String)
    ensures
        r@ == hint_of(screen),
{
    match screen {
        Screen::RepoList => String::from_str("j/k move, gg/G top/bottom, / filter, enter select, ? help, q quit"),
        Screen::WorktreeList => String::from_str(
            "j/k move, gg/G top/bottom, / filter, enter select, n new, ctrl+d delete, esc back, ? help, q quit",
        ),
    }
}

/// The status line text.
pub fn status_text(notice: Notice, screen: Screen, failure: &String, target: &String) -> (r: String)
    ensures
        r@ == status_of(notice, screen, failure@, target@),
{
    match notice {
        Notice::Hint => hint_text(screen),
        Notice::FilterPrompt => String::from_str("filter: type, enter to apply"),
        Notice::FilterCancelled => String::from_str("cancelled filter"),
        Notice::FilterApplied => String::from_str("filter applied"),
        Notice::HelpOpen => String::from_str("press ?/esc/q to close help"),
        Notice::ConfirmDelete => String::from_str("delete ").concat(target.as_str()).concat(" ? (y/n)"),
        Notice::DeleteCancelled => String::from_str("delete cancelled"),
        Notice::Removed => String::from_str("worktree removed"),
        Notice::NewCancelled => String::from_str("new cancelled"),
        Notice::Created => String::from_str("worktree created; enter to select"),
        Notice::NoSelection => String::from_str("nothing selected"),
        Notice::Failed => failure.clone(),
    }
}

/// The detail of a worktree row: its branch, or `(detached)`.
pub open spec fn branch_label_of(e: WorktreeEntry) -> Seq<char> {
    match e.branch {
        Some(b) => b@,
        None => "(detached)"@,
    }
}

/// The rows of the screen shown: one per visible item, in order, each with
/// the code of its position; a repository shows its name and anchor, a
/// worktree its path and branch.
pub open spec fn rows_ok(nav: Navigator, rows: Seq<Row>) -> bool {
    if nav.screen == Screen::RepoList {
        let vis = nav.repo_visible();
        let codes = assigned(repo_pool(), vis.len());
        &&& rows.len() == vis.len()
        &&& forall|k: int| 0 <= k < rows.len() ==> #[trigger] rows[k].code@ == codes[k]
            && rows[k].label@ == nav.repos@[vis[k]].name@ && rows[k].detail@ == nav.repos@[vis[k]].anchor@
    } else {
        let vis = nav.wt_visible();
        let codes = assigned(worktree_pool(), vis.len());
        &&& rows.len() == vis.len()
        &&& forall|k: int| 0 <= k < rows.len() ==> #[trigger] rows[k].code@ == codes[k]
            && rows[k].label@ == nav.entries@[vis[k]].path@
            && rows[k].detail@ == branch_label_of(nav.entries@[vis[k]])
    }
}

/// A rectangle of terminal cells.
#[derive(Debug, Clone, Copy, PartialEq, Eq, Structural)]
pub struct Area {
    pub x: u16,
    pub y: u16,
    pub width: u16,
    pub height: u16,
}

/// `a * b`, saturating at the largest `u16`.
pub open spec fn sat_mul16(a: u16, b: u16) -> int {
    if a * b > u16::MAX {
        u16::MAX as int
    } else {
        a * b
    }
}

/// `percent` of `len`, rounded down, and the offset that centres it.
pub open spec fn centred(start: u16, len: u16, percent: u16) -> (int, int) {
    let part = sat_mul16(len, percent) / 100;
    (start + (if len >= part { (len - part) / 2 } else { 0 }), part)
}

fn centred_exec(start: u16, len: u16, percent: u16) -> (r: (u16, u16))
    requires
        start + len <= u16::MAX,
    ensures
        (r.0 as int, r.1 as int) == centred(start, len, percent),
{
    assert((len as u32) * (percent as u32) <= 65535 * 65535) by (nonlinear_arith)
        requires
            len <= 65535,
            percent <= 65535,
    ;
    let prod: u32 = (len as u32) * (percent as u32);
    let capped: u32 = if prod > 65535 { 65535 } else { prod };
    let part = (capped / 100) as u16;
    let off: u16 = len.saturating_sub(part) / 2;
    (start + off, part)
}

/// The overlay area: `percent_x` of the width and `percent_y` of the height
/// of `r`, centred in it.
pub fn centered_rect(percent_x: u16, percent_y: u16, r: Area) -> (c: Area)
    requires
        r.x + r.width <= u16::MAX,
        r.y + r.height <= u16::MAX,
    ensures
        (c.x as int, c.width as int) == centred(r.x, r.width, percent_x),
        (c.y as int, c.height as int) == centred(r.y, r.height, percent_y),
{
    let (x, width) = centred_exec(r.x, r.width, percent_x);
    let (y, height) = centred_exec(r.y, r.height, percent_y);
    Area { x, y, width, height }
}

impl Navigator {
    /// The frame to draw for the current state.
    pub fn frame(&self) -> (f: Frame)
        requires
            self.wf(),
        ensures
            f.title@ == title_of(self.screen),
            f.filter@ == seq!['/'] + (if self.screen == Screen::RepoList { self.repo_view.filter@ } else { self.wt_view.filter@ }),
            f.chord@ == self.chord@,
            rows_ok(*self, f.rows@),
            f.selected == (if self.screen == Screen::RepoList { self.repo_view.selected } else { self.wt_view.selected }),
            (self.mode == Mode::Help) == f.help is Some,
            f.help matches Some(h) ==> h@ == help_of(self.screen),
            (self.notice != Notice::ConfirmDelete || self.pending_delete is None) ==> f.status@ == status_of(self.notice, self.screen, self.failure@, Seq::empty()),
            self.notice == Notice::ConfirmDelete ==> (self.pending_delete matches Some(p) ==> f.status@ == status_of(
                self.notice,
                self.screen,
                self.failure@,
                self.entries@[p as int].path@,
            )),
    {
        let title = match self.screen {
            Screen::RepoList => String::from_str("gw: repos"),
            Screen::WorktreeList => String::from_str("gw: worktrees"),
        };
        let mut fv: Vec<char> = vec!['/'];
        let src = if self.screen == Screen::RepoList { &self.repo_view.filter } else { &self.wt_view.filter };
        let mut i: usize = 0;
        while i < src.len()
            invariant
                i <= src@.len(),
                fv@ == seq!['/'] + src@.subrange(0, i as int),
            decreases src.len() - i,
        {
            fv.push(src[i]);
            i = i + 1;
            assert(fv@ =~= seq!['/'] + src@.subrange(0, i as int));
        }
        assert(src@.subrange(0, src@.len() as int) =~= src@);
        let filter = string_of(&fv);
        let chord = string_of(&self.chord);
        let mut rows: Vec<Row> = Vec::new();
        let selected;
        if self.screen == Screen::RepoList {
            let vis = self.visible_repos();
            let pool = hotkey_pool_repos();
            let codes = assign_hotkeys(vis.len(), pool.as_slice());
            assert(repo_pool().len() == 22);
            assert(strs(codes@).len() == codes@.len());
            proof {
                lemma_project_order(self.rtexts().map_values(|t: Seq<char>| crate::text::lower_of(t)), crate::text::lower_of(self.repo_view.filter@));
            }
            let mut k: usize = 0;
            while k < vis.len()
                invariant
                    k <= vis@.len(),
                    ints(vis@) == self.repo_visible(),
                    strs(codes@) == assigned(repo_pool(), vis@.len() as nat),
                    codes@.len() == vis@.len(),
                    forall|j: int| 0 <= j < vis@.len() ==> 0 <= #[trigger] self.repo_visible()[j] < self.repos@.len(),
                    rows@.len() == k,
                    forall|j: int| 0 <= j < k ==> #[trigger] rows@[j].code@ == assigned(repo_pool(), vis@.len() as nat)[j]
                        && rows@[j].label@ == self.repos@[self.repo_visible()[j]].name@
                        && rows@[j].detail@ == self.repos@[self.repo_visible()[j]].anchor@,
                decreases vis.len() - k,
            {
                assert(ints(vis@)[k as int] == vis@[k as int] as int);
                assert(strs(codes@)[k as int] == codes@[k as int]@);
                let r = &self.repos[vis[k]];
                rows.push(Row { code: codes[k].clone(), label: r.name.clone(), detail: r.anchor.clone() });
                k = k + 1;
            }
            selected = self.repo_view.selected;
        } else {
            let vis = self.visible_worktrees_idx();
            let pool = hotkey_pool_worktrees();
            let codes = assign_hotkeys(vis.len(), pool.as_slice());
            assert(worktree_pool().len() == 21);
            assert(strs(codes@).len() == codes@.len());
            proof {
                lemma_project_order(self.wtexts().map_values(|t: Seq<char>| crate::text::lower_of(t)), crate::text::lower_of(self.wt_view.filter@));
            }
            let mut k: usize = 0;
            while k < vis.len()
                invariant
                    k <= vis@.len(),
                    ints(vis@) == self.wt_visible(),
                    strs(codes@) == assigned(worktree_pool(), vis@.len() as nat),
                    codes@.len() == vis@.len(),
                    forall|j: int| 0 <= j < vis@.len() ==> 0 <= #[trigger] self.wt_visible()[j] < self.entries@.len(),
                    rows@.len() == k,
                    forall|j: int| 0 <= j < k ==> #[trigger] rows@[j].code@ == assigned(worktree_pool(), vis@.len() as nat)[j]
                        && rows@[j].label@ == self.entries@[self.wt_visible()[j]].path@
                        && rows@[j].detail@ == branch_label_of(self.entries@[self.wt_visible()[j]]),
                decreases vis.len() - k,
            {
                assert(ints(vis@)[k as int] == vis@[k as int] as int);
                assert(strs(codes@)[k as int] == codes@[k as int]@);
                let e = &self.entries[vis[k]];
                rows.push(Row { code: codes[k].clone(), label: e.path.clone(), detail: branch_label(e) });
                k = k + 1;
            }
            selected = self.wt_view.selected;
        }
        let target = match self.pending_delete {
            Some(p) => self.entries[p].path.clone(),
            None => String::new(),
        };
        let status = status_text(self.notice, self.screen, &self.failure, &target);
        let help = if self.mode == Mode::Help { Some(help_text(self.screen)) } else { None };
        Frame { title, filter, chord, rows, selected, status, help }
    }
}

} // verus!
