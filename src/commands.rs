//! The git invocations that carry out a creation plan or a removal, as
//! argument lists to run in the repository.
use vstd::prelude::*;
use vstd::string::*;
use crate::hotkeys::strs;
use crate::resolve::{decimal, decimal_of, CreationPlan, Source};
use crate::text::string_of;

verus! {

/// `git fetch` of a remote branch into its remote-tracking ref.
pub open spec fn remote_refspec(remote: Seq<char>, branch: Seq<char>) -> Seq<char> {
    "+refs/heads/"@ + branch + ":refs/remotes/"@ + remote + "/"@ + branch
}

/// The ref a pull request's head is published under.
pub open spec fn pull_ref(n: nat) -> Seq<char> {
    "refs/pull/"@ + decimal_of(n) + "/head"@
}

/// The commands for a plan: a branch that exists locally is checked out
/// as it is; a new branch is created from the base, if any; a remote branch
/// is fetched and tracked; a pull request's head is fetched and a local
/// branch created (or reset) on it.
pub open spec fn commands_of(plan: CreationPlan) -> Seq<Seq<Seq<char>>> {
    let b = plan.branch@;
    let d = plan.destination@;
    match plan.source {
        Source::ExistingLocal => seq![seq!["worktree"@, "add"@, d, b]],
        Source::New { base } => match base {
            Some(x) => seq![seq!["worktree"@, "add"@, "-b"@, b, d, x@]],
            None => seq![seq!["worktree"@, "add"@, "-b"@, b, d]],
        },
        Source::ExistingRemote(r) => seq![
            seq!["fetch"@, r@, remote_refspec(r@, b)],
            seq!["worktree"@, "add"@, "--track"@, "-b"@, b, d, r@ + "/"@ + b],
        ],
        Source::PullRequest(n) => {
            let r = match plan.remote {
                Some(x) => x@,
                None => Seq::empty(),
            };
            seq![
                seq!["fetch"@, r, pull_ref(n as nat)],
                seq!["worktree"@, "add"@, "-B"@, b, d, "FETCH_HEAD"@],
            ]
        },
    }
}

pub open spec fn commands_view(v: Seq<Vec<String>>) -> Seq<Seq<Seq<char>>> {
    v.map_values(|c: Vec<String>| strs(c@))
}

fn lit(s: &str) -> (r: String)
    ensures
        r@ == s@,
{
    String::from_str(s)
}

/// The git commands that carry out a plan, in order.
pub fn creation_commands(plan: &CreationPlan) -> (r: Vec<Vec<String>>)
    ensures
        commands_view(r@) == commands_of(*plan),
{
    let b = &plan.branch;
    let d = &plan.destination;
    let mut out: Vec<Vec<String>> = Vec::new();
    match &plan.source {
        Source::ExistingLocal => {
            let c = vec![lit("worktree"), lit("add"), d.clone(), b.clone()];
            assert(strs(c@) =~= seq!["worktree"@, "add"@, d@, b@]);
            out.push(c);
            assert(commands_view(out@) =~= commands_of(*plan));
        },
        Source::New { base } => {
            let mut c = vec![lit("worktree"), lit("add"), lit("-b"), b.clone(), d.clone()];
            match base {
                Some(x) => {
                    c.push(x.clone());
                    assert(strs(c@) =~= seq!["worktree"@, "add"@, "-b"@, b@, d@, x@]);
                },
                None => {
                    assert(strs(c@) =~= seq!["worktree"@, "add"@, "-b"@, b@, d@]);
                },
            }
            out.push(c);
            assert(commands_view(out@) =~= commands_of(*plan));
        },
        Source::ExistingRemote(r) => {
            let spec = lit("+refs/heads/").concat(b.as_str()).concat(":refs/remotes/").concat(r.as_str()).concat("/").concat(b.as_str());
            let fetch = vec![lit("fetch"), r.clone(), spec];
            assert(strs(fetch@) =~= seq!["fetch"@, r@, remote_refspec(r@, b@)]);
            let start = r.clone().concat("/").concat(b.as_str());
            let add = vec![lit("worktree"), lit("add"), lit("--track"), lit("-b"), b.clone(), d.clone(), start];
            assert(strs(add@) =~= seq!["worktree"@, "add"@, "--track"@, "-b"@, b@, d@, r@ + "/"@ + b@]);
            out.push(fetch);
            out.push(add);
            assert(commands_view(out@) =~= commands_of(*plan));
        },
        Source::PullRequest(n) => {
            let r = match &plan.remote {
                Some(x) => x.clone(),
                None => String::new(),
            };
            let ghost rv = r@;
            let num = string_of(&decimal(*n));
            let pref = lit("refs/pull/").concat(num.as_str()).concat("/head");
            let fetch = vec![lit("fetch"), r, pref];
            assert(strs(fetch@) =~= seq!["fetch"@, rv, pull_ref(*n as nat)]);
            let add = vec![lit("worktree"), lit("add"), lit("-B"), b.clone(), d.clone(), lit("FETCH_HEAD")];
            assert(strs(add@) =~= seq!["worktree"@, "add"@, "-B"@, b@, d@, "FETCH_HEAD"@]);
            out.push(fetch);
            out.push(add);
            assert(commands_view(out@) =~= commands_of(*plan));
        },
    }
    out
}

/// The ref that names a local branch.
pub fn local_branch_ref(branch: &str) -> (r: String)
    ensures
        r@ == "refs/heads/"@ + branch@,
{
    lit("refs/heads/").concat(branch)
}

/// The command that removes a worktree, forced when asked.
pub fn removal_command(target: &str, force: bool) -> (r: Vec<String>)
    ensures
        force ==> strs(r@) == seq!["worktree"@, "remove"@, "--force"@, target@],
        !force ==> strs(r@) == seq!["worktree"@, "remove"@, target@],
{
    let t = String::from_str(target);
    if force {
        let c = vec![lit("worktree"), lit("remove"), lit("--force"), t];
        assert(strs(c@) =~= seq!["worktree"@, "remove"@, "--force"@, target@]);
        c
    } else {
        let c = vec![lit("worktree"), lit("remove"), t];
        assert(strs(c@) =~= seq!["worktree"@, "remove"@, target@]);
        c
    }
}

} // verus!
