use gw::navigator::{Action, Key, KeyCode, Mode, Navigator, Notice, Screen};
use gw::render::{centered_rect, Area};
use gw::repo::{Listing, RepoRecord, WorktreeEntry};

fn press(code: KeyCode) -> Key {
    Key { code, ctrl: false, press: true }
}

fn ch(c: char) -> Key {
    press(KeyCode::Char(c))
}

fn repo(id: &str, name: &str) -> RepoRecord {
    RepoRecord {
        id: id.to_string(),
        name: name.to_string(),
        anchor: format!("/src/{name}"),
        common_dir: format!("/src/{name}/.git"),
    }
}

fn repos() -> Vec<RepoRecord> {
    vec![repo("1", "alpha"), repo("2", "beta"), repo("3", "gamma"), repo("4", "delta")]
}

fn listing(paths: &[&str]) -> Listing {
    Listing {
        entries: paths
            .iter()
            .map(|p| WorktreeEntry { path: p.to_string(), branch: Some(format!("b{}", p.len())) })
            .collect(),
        anchor: paths.first().map(|p| p.to_string()).unwrap_or_default(),
        repaired: false,
    }
}

#[test]
fn starts_on_current_repository() {
    let nav = Navigator::new(repos(), Some("3".to_string()));
    assert_eq!(nav.screen, Screen::RepoList);
    assert_eq!(nav.mode, Mode::Normal);
    assert_eq!(nav.repo_view.selected, 2);
    let nav = Navigator::new(repos(), Some("zzz".to_string()));
    assert_eq!(nav.repo_view.selected, 0);
}

#[test]
fn movement_clamps_at_both_ends() {
    let mut nav = Navigator::new(repos(), None);
    assert_eq!(nav.handle_key(ch('k'), 0), Action::Continue);
    assert_eq!(nav.repo_view.selected, 0);
    for t in 1..10 {
        nav.handle_key(ch('j'), t * 1000);
    }
    assert_eq!(nav.repo_view.selected, 3);
    nav.handle_key(ch('k'), 20_000);
    assert_eq!(nav.repo_view.selected, 2);
    nav.handle_key(ch('G'), 21_000);
    assert_eq!(nav.repo_view.selected, 3);
}

#[test]
fn double_tap_within_window_jumps_to_top() {
    let mut nav = Navigator::new(repos(), Some("4".to_string()));
    assert_eq!(nav.repo_view.selected, 3);
    nav.handle_key(ch('g'), 10_000);
    assert_eq!(nav.repo_view.selected, 3);
    assert!(nav.tap_pending);
    nav.handle_key(ch('g'), 10_600);
    assert_eq!(nav.repo_view.selected, 0);
    assert!(!nav.tap_pending);
}

#[test]
fn double_tap_outside_window_is_two_first_taps() {
    let mut nav = Navigator::new(repos(), Some("4".to_string()));
    nav.handle_key(ch('g'), 10_000);
    nav.handle_key(ch('g'), 10_601);
    assert_eq!(nav.repo_view.selected, 3);
    assert!(nav.tap_pending);
    assert_eq!(nav.tap_at, 10_601);
    nav.handle_key(ch('g'), 10_900);
    assert_eq!(nav.repo_view.selected, 0);
}

#[test]
fn other_keys_cancel_pending_tap() {
    let mut nav = Navigator::new(repos(), Some("4".to_string()));
    nav.handle_key(ch('g'), 0);
    nav.handle_key(ch('k'), 100);
    assert!(!nav.tap_pending);
    nav.handle_key(ch('g'), 200);
    assert_eq!(nav.repo_view.selected, 2);
}

#[test]
fn filter_typing_clamps_selection_and_esc_keeps_text() {
    let mut nav = Navigator::new(repos(), Some("4".to_string()));
    nav.handle_key(ch('/'), 0);
    assert_eq!(nav.mode, Mode::Filter);
    for c in "ALPHA".chars() {
        nav.handle_key(ch(c), 10);
    }
    assert_eq!(nav.visible_repos(), vec![0]);
    assert_eq!(nav.repo_view.selected, 0);
    nav.handle_key(press(KeyCode::Backspace), 20);
    assert_eq!(nav.repo_view.filter, vec!['A', 'L', 'P', 'H']);
    nav.handle_key(press(KeyCode::Esc), 30);
    assert_eq!(nav.mode, Mode::Normal);
    assert_eq!(nav.notice, Notice::FilterCancelled);
    assert_eq!(nav.repo_view.filter, vec!['A', 'L', 'P', 'H']);
    // A new filter starts empty.
    nav.handle_key(ch('/'), 40);
    assert!(nav.repo_view.filter.is_empty());
    nav.handle_key(ch('e'), 50);
    nav.handle_key(press(KeyCode::Enter), 60);
    assert_eq!(nav.notice, Notice::FilterApplied);
    assert_eq!(nav.visible_repos(), vec![1, 3]);
}

#[test]
fn filter_to_nothing_keeps_selection_at_zero() {
    let mut nav = Navigator::new(repos(), Some("3".to_string()));
    nav.handle_key(ch('/'), 0);
    nav.handle_key(ch('#'), 1);
    assert!(nav.visible_repos().is_empty());
    assert_eq!(nav.repo_view.selected, 0);
    nav.handle_key(press(KeyCode::Enter), 2);
    assert_eq!(nav.handle_key(press(KeyCode::Enter), 3), Action::Continue);
    assert_eq!(nav.notice, Notice::NoSelection);
}

#[test]
fn hotkeys_select_repositories() {
    let mut nav = Navigator::new(repos(), None);
    nav.handle_key(ch('d'), 0);
    assert_eq!(nav.repo_view.selected, 2);
    assert!(nav.chord.is_empty() || nav.chord == vec!['d']);
    // An idle gap drops the partial code.
    nav.handle_key(ch('x'), 5_000);
    assert!(nav.chord.is_empty());
    assert_eq!(nav.repo_view.selected, 2);
}

#[test]
fn enter_opens_and_esc_returns() {
    let mut nav = Navigator::new(repos(), Some("2".to_string()));
    assert_eq!(nav.handle_key(press(KeyCode::Enter), 0), Action::OpenRepo(1));
    nav.open_worktrees(1, listing(&["/src/beta", "/wt/one", "/wt/two"]));
    assert_eq!(nav.screen, Screen::WorktreeList);
    assert_eq!(nav.active, 1);
    assert_eq!(nav.visible_worktrees_idx(), vec![0, 1, 2]);
    nav.handle_key(ch('j'), 10);
    assert_eq!(nav.handle_key(press(KeyCode::Enter), 20), Action::Choose { repo: 1, entry: 1 });
    nav.handle_key(press(KeyCode::Esc), 30);
    assert_eq!(nav.screen, Screen::RepoList);
    assert_eq!(nav.handle_key(ch('q'), 40), Action::Exit);
}

#[test]
fn opening_a_repository_takes_the_repaired_anchor() {
    let mut nav = Navigator::new(repos(), None);
    let mut l = listing(&["/elsewhere/alpha-main"]);
    l.repaired = true;
    nav.open_worktrees(0, l);
    assert_eq!(nav.repos[0].anchor, "/elsewhere/alpha-main");
    assert_eq!(nav.repos[1], repo("2", "beta"));
}

#[test]
fn delete_needs_confirmation() {
    let mut nav = Navigator::new(repos(), None);
    nav.open_worktrees(0, listing(&["/src/alpha", "/wt/a"]));
    nav.handle_key(ch('j'), 0);
    let ctrl_d = Key { code: KeyCode::Char('d'), ctrl: true, press: true };
    assert_eq!(nav.handle_key(ctrl_d, 10), Action::Continue);
    assert_eq!(nav.mode, Mode::ConfirmDelete);
    assert_eq!(nav.pending_delete, Some(1));
    // Other keys are ignored while confirming.
    assert_eq!(nav.handle_key(ch('j'), 20), Action::Continue);
    assert_eq!(nav.mode, Mode::ConfirmDelete);
    nav.handle_key(ch('n'), 30);
    assert_eq!(nav.mode, Mode::Normal);
    assert_eq!(nav.pending_delete, None);
    assert_eq!(nav.notice, Notice::DeleteCancelled);
    nav.handle_key(ctrl_d, 40);
    assert_eq!(nav.handle_key(ch('Y'), 50), Action::Remove { repo: 0, entry: 1 });
    assert_eq!(nav.mode, Mode::Normal);
    nav.worktree_removed(listing(&["/src/alpha"]));
    assert_eq!(nav.notice, Notice::Removed);
    assert_eq!(nav.wt_view.selected, 0);
}

#[test]
fn help_toggles_and_restores_status() {
    let mut nav = Navigator::new(repos(), None);
    nav.handle_key(ch('/'), 0);
    nav.handle_key(press(KeyCode::Enter), 1);
    assert_eq!(nav.notice, Notice::FilterApplied);
    nav.handle_key(ch('?'), 2);
    assert_eq!(nav.mode, Mode::Help);
    assert!(nav.frame().help.is_some());
    assert_eq!(nav.handle_key(ch('j'), 3), Action::Continue);
    assert_eq!(nav.mode, Mode::Help);
    nav.handle_key(ch('q'), 4);
    assert_eq!(nav.mode, Mode::Normal);
    assert_eq!(nav.notice, Notice::FilterApplied);
    assert!(nav.frame().help.is_none());
}

#[test]
fn new_worktree_is_selected_after_creation() {
    let mut nav = Navigator::new(repos(), None);
    nav.open_worktrees(2, listing(&["/src/gamma"]));
    assert_eq!(nav.handle_key(ch('n'), 0), Action::Create { repo: 2 });
    nav.worktree_created(listing(&["/src/gamma", "/wt/new", "/wt/other"]), "/wt/new");
    assert_eq!(nav.wt_view.selected, 1);
    assert_eq!(nav.notice, Notice::Created);
    nav.report_failure("boom".to_string());
    assert_eq!(nav.frame().status, "boom");
}

#[test]
fn releases_are_ignored() {
    let mut nav = Navigator::new(repos(), None);
    let release = Key { code: KeyCode::Char('q'), ctrl: false, press: false };
    assert_eq!(nav.handle_key(release, 0), Action::Continue);
}

#[test]
fn frame_lists_visible_rows_with_codes() {
    let mut nav = Navigator::new(repos(), None);
    let f = nav.frame();
    assert_eq!(f.title, "gw: repos");
    assert_eq!(f.rows.len(), 4);
    assert_eq!(f.rows[0].code, "a");
    assert_eq!(f.rows[3].code, "f");
    assert_eq!(f.rows[2].label, "gamma");
    assert_eq!(f.rows[2].detail, "/src/gamma");
    assert_eq!(f.filter, "/");
    nav.open_worktrees(0, Listing {
        entries: vec![WorktreeEntry { path: "/wt/d".to_string(), branch: None }],
        anchor: "/wt/d".to_string(),
        repaired: true,
    });
    let f = nav.frame();
    assert_eq!(f.title, "gw: worktrees");
    assert_eq!(f.rows[0].detail, "(detached)");
    nav.handle_key(Key { code: KeyCode::Char('d'), ctrl: true, press: true }, 0);
    assert_eq!(nav.frame().status, "delete /wt/d ? (y/n)");
}

#[test]
fn overlay_is_centred() {
    let c = centered_rect(86, 86, Area { x: 0, y: 0, width: 100, height: 50 });
    assert_eq!(c, Area { x: 7, y: 3, width: 86, height: 43 });
    let c = centered_rect(50, 200, Area { x: 10, y: 5, width: 40, height: 10 });
    assert_eq!(c, Area { x: 20, y: 5, width: 20, height: 20 });
    let c = centered_rect(100, 100, Area { x: 0, y: 0, width: 1000, height: 1000 });
    assert_eq!(c.width, 655);
}

#[test]
fn any_other_key_between_taps_cancels_the_jump() {
    let mut nav = Navigator::new(repos(), Some("4".to_string()));
    nav.handle_key(ch('g'), 1_000);
    assert!(nav.tap_pending);
    // A quick-select symbol in between.
    nav.handle_key(ch('x'), 1_100);
    assert!(!nav.tap_pending);
    nav.handle_key(ch('g'), 1_200);
    assert_eq!(nav.repo_view.selected, 3);
    assert!(nav.tap_pending);
    // Help opened and closed in between.
    nav.handle_key(ch('?'), 1_300);
    nav.handle_key(press(KeyCode::Esc), 1_350);
    nav.handle_key(ch('g'), 1_400);
    assert_eq!(nav.repo_view.selected, 3);
    nav.handle_key(ch('g'), 1_500);
    assert_eq!(nav.repo_view.selected, 0);
}
