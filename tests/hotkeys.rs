use gw::hotkeys::{
    assign_hotkeys, has_prefix, hotkey_pool_repos, hotkey_pool_worktrees, is_repo_hotkey,
    is_worktree_hotkey, push_hotkey, resolve_chord, resolve_hotkey_exact,
};

#[test]
fn hotkeys_overflow_to_two_letters_cartesian() {
    let pool: Vec<char> = vec!['a', 's', 'd'];
    let codes = assign_hotkeys(3, &pool);
    assert_eq!(codes, vec!["a", "s", "d"]);

    let codes = assign_hotkeys(4, &pool);
    assert_eq!(codes, vec!["a", "s", "d", "aa"]);

    let codes = assign_hotkeys(7, &pool);
    assert_eq!(codes, vec!["a", "s", "d", "aa", "as", "ad", "sa"]);
}

#[test]
fn codes_are_distinct_up_to_pool_plus_pool_squared() {
    let pool: Vec<char> = vec!['a', 's', 'd'];
    let codes = assign_hotkeys(12, &pool);
    assert_eq!(codes.len(), 12);
    for i in 0..codes.len() {
        for j in (i + 1)..codes.len() {
            assert_ne!(codes[i], codes[j]);
        }
    }
    assert_eq!(codes[11], "dd");
}

#[test]
fn codes_repeat_beyond_the_documented_limit() {
    let pool: Vec<char> = vec!['a', 's'];
    let codes = assign_hotkeys(7, &pool);
    assert_eq!(codes, vec!["a", "s", "aa", "as", "sa", "ss", "aa"]);
}

#[test]
fn empty_pool_gives_no_codes() {
    let pool: Vec<char> = vec![];
    assert!(assign_hotkeys(5, &pool).is_empty());
    assert!(assign_hotkeys(0, &['a']).is_empty());
}

#[test]
fn pools_reserve_navigation_keys() {
    let repos = hotkey_pool_repos();
    let wts = hotkey_pool_worktrees();
    assert_eq!(repos.len(), 22);
    assert_eq!(wts.len(), 21);
    for c in ['j', 'k', 'g', 'q', '/'] {
        assert!(!is_repo_hotkey(c));
        assert!(!is_worktree_hotkey(c));
    }
    assert!(is_repo_hotkey('n'));
    assert!(!is_worktree_hotkey('n'));
    assert!(is_worktree_hotkey('m'));
}

#[test]
fn exact_and_prefix_lookup() {
    let codes = assign_hotkeys(5, &['a', 's']);
    assert_eq!(resolve_hotkey_exact(&vec!['a', 's'], &codes), Some(3));
    assert_eq!(resolve_hotkey_exact(&vec!['s', 's'], &codes), None);
    assert!(has_prefix(&vec!['s'], &codes));
    assert!(!has_prefix(&vec!['d'], &codes));
}

#[test]
fn chord_buffer_restarts_when_full() {
    let mut buf = vec!['a', 's'];
    push_hotkey(&mut buf, 'd');
    assert_eq!(buf, vec!['d']);
    push_hotkey(&mut buf, 'f');
    assert_eq!(buf, vec!['d', 'f']);
}

#[test]
fn chord_selects_single_then_double_codes() {
    let codes = assign_hotkeys(7, &['a', 's', 'd']);
    let mut buf: Vec<char> = Vec::new();
    // "s" is a code on its own and also starts "sa": it selects and waits.
    assert_eq!(resolve_chord(&mut buf, 's', &codes), Some(1));
    assert_eq!(buf, vec!['s']);
    // "sa" completes a two-symbol code; the buffer empties.
    assert_eq!(resolve_chord(&mut buf, 'a', &codes), Some(6));
    assert!(buf.is_empty());
    // "d" selects; "dd" is no code and no prefix, so it is dropped.
    assert_eq!(resolve_chord(&mut buf, 'd', &codes), Some(2));
    assert_eq!(resolve_chord(&mut buf, 'd', &codes), None);
    assert!(buf.is_empty());
}

#[test]
fn chord_without_any_match_is_discarded() {
    let codes = assign_hotkeys(2, &['a', 's', 'd']);
    let mut buf: Vec<char> = Vec::new();
    assert_eq!(resolve_chord(&mut buf, 'd', &codes), None);
    assert!(buf.is_empty());
}
