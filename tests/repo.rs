use gw::repo::{
    branch_label, common_dir_from_output, config_root, load_worktrees, parse_remote_names,
    parse_worktree_porcelain,
    repo_config_path, toplevel_from_output, ListingError, RepoContext, RepoRecord, WorktreeEntry,
};

const LISTING: &str = "worktree /src/app\nHEAD 1111\nbranch refs/heads/main\n\nworktree /wt/feat\nHEAD 2222\nbranch refs/heads/feat/x\n\nworktree /wt/det\nHEAD 3333\ndetached\n\n";

fn record(anchor: &str) -> RepoRecord {
    RepoRecord {
        id: "abc".to_string(),
        name: "app".to_string(),
        anchor: anchor.to_string(),
        common_dir: "/src/app/.git".to_string(),
    }
}

#[test]
fn porcelain_listing_is_parsed() {
    let es = parse_worktree_porcelain(LISTING);
    assert_eq!(
        es,
        vec![
            WorktreeEntry { path: "/src/app".to_string(), branch: Some("main".to_string()) },
            WorktreeEntry { path: "/wt/feat".to_string(), branch: Some("feat/x".to_string()) },
            WorktreeEntry { path: "/wt/det".to_string(), branch: None },
        ]
    );
    assert_eq!(branch_label(&es[2]), "(detached)");
    assert_eq!(branch_label(&es[1]), "feat/x");
}

#[test]
fn porcelain_without_trailing_blank_line_and_with_crlf() {
    let es = parse_worktree_porcelain("worktree /a\r\nbranch x\r\n\r\nworktree /b");
    assert_eq!(es.len(), 2);
    assert_eq!(es[0].path, "/a");
    assert_eq!(es[0].branch, Some("x".to_string()));
    assert_eq!(es[1].path, "/b");
    assert_eq!(es[1].branch, None);
    assert!(parse_worktree_porcelain("").is_empty());
}

#[test]
fn listing_at_a_live_anchor_keeps_it() {
    let l = load_worktrees(&record("/src/app"), &Some(LISTING.to_string()), &None).unwrap();
    assert_eq!(l.entries.len(), 3);
    assert_eq!(l.anchor, "/src/app");
    assert!(!l.repaired);
}

#[test]
fn stale_anchor_is_repaired_through_fallback() {
    let repo = record("/gone/does-not-exist");
    let l = load_worktrees(&repo, &None, &Some(LISTING.to_string())).unwrap();
    assert!(!l.entries.is_empty());
    assert_eq!(l.anchor, l.entries[0].path);
    assert_eq!(l.anchor, "/src/app");
    assert!(l.repaired);
}

#[test]
fn fallback_with_nothing_listed_keeps_anchor() {
    let l = load_worktrees(&record("/old"), &None, &Some(String::new())).unwrap();
    assert!(l.entries.is_empty());
    assert_eq!(l.anchor, "/old");
    assert!(!l.repaired);
}

#[test]
fn listing_fails_when_both_paths_fail() {
    assert_eq!(load_worktrees(&record("/old"), &None, &None), Err(ListingError::Unavailable));
}

#[test]
fn repo_identity_from_git_output() {
    let top = toplevel_from_output("/home/u/proj\n");
    assert_eq!(top, "/home/u/proj");
    assert_eq!(common_dir_from_output(&top, ".git\n"), "/home/u/proj/.git");
    assert_eq!(common_dir_from_output(&top, "/abs/common.git\n"), "/abs/common.git");
    let ctx = RepoContext::from_paths(top.clone(), "/home/u/proj/.git".to_string());
    assert_eq!(ctx.repo_name, "proj");
    assert_eq!(ctx.repo_hash.len(), 64);
    assert!(ctx.repo_hash.chars().all(|c| c.is_ascii_hexdigit() && !c.is_ascii_uppercase()));
    assert_eq!(ctx.repo_hash, blake3::hash(b"/home/u/proj/.git").to_hex().to_string());
    let other = RepoContext::from_paths("/x/proj".to_string(), "/x/proj/.git".to_string());
    assert_ne!(ctx.repo_hash, other.repo_hash);
    let root = RepoContext::from_paths("/".to_string(), "/.git".to_string());
    assert_eq!(root.repo_name, "repo");
}

#[test]
fn config_locations() {
    let ctx = RepoContext::from_paths("/p/app".to_string(), "/p/app/.git".to_string());
    let path = repo_config_path("/cfg", &ctx);
    assert_eq!(path, format!("/cfg/repos/{}/config.toml", ctx.repo_hash));
    assert_eq!(config_root(Some("/env/dir".to_string()), Some("/home/u".to_string())), Some("/env/dir".to_string()));
    assert_eq!(config_root(None, Some("/home/u".to_string())), Some("/home/u/.config/gw".to_string()));
    assert_eq!(config_root(None, None), None);
}

#[test]
fn remote_names_are_trimmed_lines() {
    assert_eq!(parse_remote_names("origin\nupstream\n"), vec!["origin", "upstream"]);
    assert_eq!(parse_remote_names("  a \r\n\n\tb"), vec!["a", "b"]);
    assert!(parse_remote_names("").is_empty());
}
