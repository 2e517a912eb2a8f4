use gw::commands::{creation_commands, local_branch_ref, removal_command};
use gw::resolve::{
    parse_request, pr_number, resolve, CreationPlan, Findings, Lookup, Request, Resolution, Source,
};

fn findings(local: Option<bool>, remotes: Option<Vec<&str>>, chosen: Option<&str>) -> Findings {
    Findings {
        local_exists: local,
        remotes: remotes.map(|v| v.iter().map(|s| s.to_string()).collect()),
        chosen_remote: chosen.map(|s| s.to_string()),
    }
}

fn plan_of(r: Resolution) -> CreationPlan {
    match r {
        Resolution::Plan(p) => p,
        other => panic!("expected a plan, got {:?}", other),
    }
}

#[test]
fn pull_request_url_becomes_pr_branch() {
    let req = parse_request("https://github.com/acme/app/pull/42").unwrap();
    assert_eq!(req, Request::PullRequest { number: 42 });
    let p = plan_of(resolve(&req, &None, "/wt", &findings(None, Some(vec!["origin"]), None)));
    assert_eq!(p.branch, "pr/42");
    assert_eq!(p.source, Source::PullRequest(42));
    assert!(p.tracking);
    assert_eq!(p.remote, Some("origin".to_string()));
    assert_eq!(p.destination, "/wt/pr/42");
}

#[test]
fn pull_request_first_asks_for_remotes() {
    let req = parse_request("  https://github.com/example/repo/pull/7 \n").unwrap();
    assert_eq!(req, Request::PullRequest { number: 7 });
    match resolve(&req, &None, "/wt", &findings(None, None, None)) {
        Resolution::Ask(Lookup::Remotes) => {}
        other => panic!("unexpected {:?}", other),
    }
    assert!(matches!(resolve(&req, &None, "/wt", &findings(None, Some(vec![]), None)), Resolution::NoRemote));
    match resolve(&req, &None, "/wt", &findings(None, Some(vec!["a", "b"]), None)) {
        Resolution::ChooseRemote(list) => assert_eq!(list, vec!["a", "b"]),
        other => panic!("unexpected {:?}", other),
    }
    let p = plan_of(resolve(&req, &None, "/wt", &findings(None, Some(vec!["a", "b"]), Some("b"))));
    assert_eq!(p.remote, Some("b".to_string()));
}

#[test]
fn non_urls_are_branch_names() {
    assert_eq!(parse_request("feat/x"), Some(Request::Branch { name: "feat/x".to_string() }));
    assert_eq!(
        parse_request("github.com/acme/app/pull/42"),
        Some(Request::Branch { name: "github.com/acme/app/pull/42".to_string() })
    );
    assert_eq!(parse_request("   \t\n"), None);
    assert_eq!(parse_request(""), None);
}

#[test]
fn pr_number_needs_the_full_pattern() {
    let c = |s: &str| s.chars().collect::<Vec<char>>();
    assert_eq!(pr_number(&c("http://host/o/r/pull/9")), Some(9));
    assert_eq!(pr_number(&c("https://host/o/r/pull/")), None);
    assert_eq!(pr_number(&c("https://host/o/r/pulls/3")), None);
    assert_eq!(pr_number(&c("https://host/o/r/pull/3x")), None);
    assert_eq!(pr_number(&c("https://host/r/pull/3")), None);
    assert_eq!(pr_number(&c("https://host/o/r/pull/99999999999999999999")), None);
    assert_eq!(pr_number(&c("https://host/o/r/pull/18446744073709551615")), Some(u64::MAX));
}

#[test]
fn local_branch_is_used_without_remote_queries() {
    let req = Request::Branch { name: "feat1".to_string() };
    match resolve(&req, &None, "/wt", &findings(None, None, None)) {
        Resolution::Ask(Lookup::LocalBranch(b)) => assert_eq!(b, "feat1"),
        other => panic!("unexpected {:?}", other),
    }
    let p = plan_of(resolve(&req, &None, "/wt", &findings(Some(true), None, None)));
    assert_eq!(p.source, Source::ExistingLocal);
    assert!(!p.tracking);
    assert_eq!(p.remote, None);
    // Even when remotes are known to have it, the local branch wins.
    let q = plan_of(resolve(&req, &None, "/wt", &findings(Some(true), Some(vec!["up"]), None)));
    assert_eq!(q, p);
}

#[test]
fn missing_branch_goes_to_remote_or_new() {
    let req = Request::Branch { name: "feat-remote".to_string() };
    match resolve(&req, &None, "/wt", &findings(Some(false), None, None)) {
        Resolution::Ask(Lookup::RemotesWithBranch(b)) => assert_eq!(b, "feat-remote"),
        other => panic!("unexpected {:?}", other),
    }
    let p = plan_of(resolve(&req, &None, "/wt", &findings(Some(false), Some(vec!["upstream"]), None)));
    assert_eq!(p.source, Source::ExistingRemote("upstream".to_string()));
    assert!(p.tracking);
    match resolve(&req, &None, "/wt", &findings(Some(false), Some(vec!["a", "b"]), None)) {
        Resolution::ChooseRemote(list) => assert_eq!(list.len(), 2),
        other => panic!("unexpected {:?}", other),
    }
    let base = Some("main".to_string());
    let n = plan_of(resolve(&req, &base, "/wt", &findings(Some(false), Some(vec![]), None)));
    assert_eq!(n.source, Source::New { base: Some("main".to_string()) });
    assert!(!n.tracking);
    assert_eq!(n.destination, "/wt/feat-remote");
}

#[test]
fn commands_follow_the_plan() {
    let req = Request::Branch { name: "feat-remote".to_string() };
    let p = plan_of(resolve(&req, &None, "/wt", &findings(Some(false), Some(vec!["upstream"]), None)));
    let cmds = creation_commands(&p);
    assert_eq!(
        cmds,
        vec![
            vec!["fetch", "upstream", "+refs/heads/feat-remote:refs/remotes/upstream/feat-remote"],
            vec!["worktree", "add", "--track", "-b", "feat-remote", "/wt/feat-remote", "upstream/feat-remote"],
        ]
    );
    let pr = parse_request("https://github.com/example/repo/pull/7").unwrap();
    let p = plan_of(resolve(&pr, &None, "/wt", &findings(None, Some(vec!["upstream"]), None)));
    assert_eq!(
        creation_commands(&p),
        vec![
            vec!["fetch", "upstream", "refs/pull/7/head"],
            vec!["worktree", "add", "-B", "pr/7", "/wt/pr/7", "FETCH_HEAD"],
        ]
    );
    let local = Request::Branch { name: "feat1".to_string() };
    let p = plan_of(resolve(&local, &None, "/wt", &findings(Some(true), None, None)));
    assert_eq!(creation_commands(&p), vec![vec!["worktree", "add", "/wt/feat1", "feat1"]]);
    let p = plan_of(resolve(&local, &None, "/wt", &findings(Some(false), Some(vec![]), None)));
    assert_eq!(creation_commands(&p), vec![vec!["worktree", "add", "-b", "feat1", "/wt/feat1"]]);
    assert_eq!(local_branch_ref("feat1"), "refs/heads/feat1");
    assert_eq!(removal_command("/wt/x", true), vec!["worktree", "remove", "--force", "/wt/x"]);
    assert_eq!(removal_command("/wt/x", false), vec!["worktree", "remove", "/wt/x"]);
}
