//! Deferred external-command descriptions: data, not closures. A command is
//! a fixed repository path plus a bisection subcommand's argument list; the
//! runner that executes it lives outside this core.

use vstd::prelude::*;

verus! {

/// Spec-level value of a command: the repository path and the argument list
/// handed to the version-control tool.
pub struct CmdV {
    pub repo: Seq<char>,
    pub args: Seq<Seq<char>>,
}

/// A deferred external command, bound to a repository path. Each invocation
/// by the runner is independent; the description itself never changes.
#[derive(Debug)]
pub struct GitCommand {
    pub repo: String,
    pub args: Vec<String>,
}

impl View for GitCommand {
    type V = CmdV;

    open spec fn view(&self) -> CmdV {
        CmdV { repo: self.repo@, args: self.args.deep_view() }
    }
}

/// Arguments that start a bisection between two endpoint references.
pub open spec fn start_args(bad: Seq<char>, good: Seq<char>) -> Seq<Seq<char>> {
    seq!["bisect"@, "start"@, bad, good, "--"@]
}

/// Arguments that mark the current point good.
pub open spec fn good_args() -> Seq<Seq<char>> {
    seq!["bisect"@, "good"@]
}

/// Arguments that mark the current point bad.
pub open spec fn bad_args() -> Seq<Seq<char>> {
    seq!["bisect"@, "bad"@]
}

/// Arguments that restore the repository to its pre-bisect state.
pub open spec fn reset_args() -> Seq<Seq<char>> {
    seq!["bisect"@, "reset"@]
}

/// The start command for a repository and the two endpoints.
pub open spec fn start_cmd(repo: Seq<char>, bad: Seq<char>, good: Seq<char>) -> CmdV {
    CmdV { repo: repo, args: start_args(bad, good) }
}

/// The good-judgment command for a repository.
pub open spec fn good_cmd(repo: Seq<char>) -> CmdV {
    CmdV { repo: repo, args: good_args() }
}

/// The bad-judgment command for a repository.
pub open spec fn bad_cmd(repo: Seq<char>) -> CmdV {
    CmdV { repo: repo, args: bad_args() }
}

/// The reset command for a repository.
pub open spec fn reset_cmd(repo: Seq<char>) -> CmdV {
    CmdV { repo: repo, args: reset_args() }
}

/// The four argument lists are pairwise distinct, whatever the endpoints.
pub proof fn lemma_args_distinct(bad: Seq<char>, good: Seq<char>)
    ensures
        start_args(bad, good) != good_args(),
        start_args(bad, good) != bad_args(),
        start_args(bad, good) != reset_args(),
        good_args() != bad_args(),
        good_args() != reset_args(),
        bad_args() != reset_args(),
{
    reveal_strlit("good");
    reveal_strlit("bad");
    reveal_strlit("reset");
    assert(start_args(bad, good).len() == 5);
    assert("good"@.len() == 4);
    assert("bad"@.len() == 3);
    assert("reset"@.len() == 5);
}

/// Builds the start command.
pub fn bisect_start(repo: &String, bad: &String, good: &String) -> (c: GitCommand)
    ensures
        c@ == start_cmd(repo@, bad@, good@),
{
    let mut args: Vec<String> = Vec::new();
    args.push("bisect".to_owned());
    args.push("start".to_owned());
    args.push(bad.clone());
    args.push(good.clone());
    args.push("--".to_owned());
    proof {
        assert(args.deep_view() =~= start_args(bad@, good@));
    }
    GitCommand { repo: repo.clone(), args }
}

/// Builds the good-judgment command.
pub fn bisect_good(repo: &String) -> (c: GitCommand)
    ensures
        c@ == good_cmd(repo@),
{
    let mut args: Vec<String> = Vec::new();
    args.push("bisect".to_owned());
    args.push("good".to_owned());
    proof {
        assert(args.deep_view() =~= good_args());
    }
    GitCommand { repo: repo.clone(), args }
}

/// Builds the bad-judgment command.
pub fn bisect_bad(repo: &String) -> (c: GitCommand)
    ensures
        c@ == bad_cmd(repo@),
{
    let mut args: Vec<String> = Vec::new();
    args.push("bisect".to_owned());
    args.push("bad".to_owned());
    proof {
        assert(args.deep_view() =~= bad_args());
    }
    GitCommand { repo: repo.clone(), args }
}

/// Builds the reset command.
pub fn bisect_reset(repo: &String) -> (c: GitCommand)
    ensures
        c@ == reset_cmd(repo@),
{
    let mut args: Vec<String> = Vec::new();
    args.push("bisect".to_owned());
    args.push("reset".to_owned());
    proof {
        assert(args.deep_view() =~= reset_args());
    }
    GitCommand { repo: repo.clone(), args }
}

} // verus!
