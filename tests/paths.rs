use gw::paths::{file_name, path_join, sanitize_branch_for_path};

#[test]
fn sanitize_replaces_unsafe_characters_per_segment() {
    let p = sanitize_branch_for_path("feat/my thing!");
    assert_eq!(p, "feat/my-thing-");
    let segs: Vec<&str> = p.split('/').collect();
    assert_eq!(segs.len(), 2);
    assert!(segs.iter().all(|s| !s.is_empty()));
}

#[test]
fn sanitize_empty_gives_fallback() {
    assert_eq!(sanitize_branch_for_path(""), "branch");
    assert_eq!(sanitize_branch_for_path("///"), "branch");
}

#[test]
fn sanitize_drops_empty_segments() {
    assert_eq!(sanitize_branch_for_path("/a//b/"), "a/b");
    assert_eq!(sanitize_branch_for_path("pr/7"), "pr/7");
    assert_eq!(sanitize_branch_for_path("ok_name-1.2"), "ok_name-1.2");
    assert_eq!(sanitize_branch_for_path("é/ü"), "-/-");
}

#[test]
fn join_follows_path_push() {
    assert_eq!(path_join("/wt", "a/b"), "/wt/a/b");
    assert_eq!(path_join("/wt/", "a"), "/wt/a");
    assert_eq!(path_join("", "a"), "a");
    assert_eq!(path_join("/wt", "/abs"), "/abs");
}

#[test]
fn file_name_is_last_component() {
    assert_eq!(file_name("/home/u/proj"), Some("proj".to_string()));
    assert_eq!(file_name("/home/u/proj/"), Some("proj".to_string()));
    assert_eq!(file_name("/home/u/proj/."), Some("proj".to_string()));
    assert_eq!(file_name("/"), None);
    assert_eq!(file_name("/home/.."), None);
}
