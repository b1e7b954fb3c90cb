//! The `git` invocations the batch operations make, and how their outcomes
//! are read.
use vstd::prelude::*;
use crate::text::{trim, trimmed, split_trimmed_lines, trimmed_lines, views};

verus! {

/// The three batch operations.
#[derive(Clone, Copy, PartialEq, Eq, Debug, Structural)]
pub enum Mode {
    /// Report each repository's branch and remotes.
    Info,
    /// Hard-reset each repository and remove its untracked files.
    Clean,
    /// Fetch and pull each repository.
    Pull,
}

/// One invocation of `git` on a working tree.
#[derive(Clone, PartialEq, Eq, Debug)]
pub enum GitCall {
    /// `rev-parse --abbrev-ref HEAD`: the current branch.
    CurrentBranch,
    /// `remote`: the names of the configured remotes.
    ListRemotes,
    /// `remote get-url <name>`: the URL of one remote.
    RemoteUrl(String),
    /// `reset HEAD --hard`: discard changes to tracked files.
    ResetHard,
    /// `clean -f`: remove untracked files.
    CleanUntracked,
    /// `fetch`.
    Fetch,
    /// `pull`.
    Pull,
}

/// What came of one invocation. A `git` that could not be started counts as
/// an invocation that failed with no output.
#[derive(Clone, Debug)]
pub struct CallOutcome {
    /// Whether `git` ran and exited with success.
    pub success: bool,
    /// What it printed on standard output.
    pub stdout: String,
}

/// A value looked up through `git`, or the lack of one.
#[derive(Clone, PartialEq, Eq, Debug)]
pub enum Lookup {
    Found(String),
    Unavailable,
}

impl View for Lookup {
    type V = Option<Seq<char>>;

    open spec fn view(&self) -> Option<Seq<char>> {
        match self {
            Lookup::Found(s) => Some(s@),
            Lookup::Unavailable => None,
        }
    }
}

/// Per-repository result of a batch operation.
#[derive(Clone, Copy, PartialEq, Eq, Debug, Structural)]
pub enum RepoStatus {
    Succeeded,
    Failed,
}

/// The subcommand words of a call.
pub open spec fn subcommand(call: GitCall) -> Seq<Seq<char>> {
    match call {
        GitCall::CurrentBranch => seq!["rev-parse"@, "--abbrev-ref"@, "HEAD"@],
        GitCall::ListRemotes => seq!["remote"@],
        GitCall::RemoteUrl(name) => seq!["remote"@, "get-url"@, name@],
        GitCall::ResetHard => seq!["reset"@, "HEAD"@, "--hard"@],
        GitCall::CleanUntracked => seq!["clean"@, "-f"@],
        GitCall::Fetch => seq!["fetch"@],
        GitCall::Pull => seq!["pull"@],
    }
}

/// The full argument list: the working tree named with `-C`, then the
/// subcommand.
pub open spec fn call_args(dir: Seq<char>, call: GitCall) -> Seq<Seq<char>> {
    seq!["-C"@, dir] + subcommand(call)
}

/// The two calls each operation starts with on every repository. For `Info`
/// one `RemoteUrl` call per remote follows.
pub open spec fn opening_calls(mode: Mode) -> (GitCall, GitCall) {
    match mode {
        Mode::Info => (GitCall::CurrentBranch, GitCall::ListRemotes),
        Mode::Clean => (GitCall::ResetHard, GitCall::CleanUntracked),
        Mode::Pull => (GitCall::Fetch, GitCall::Pull),
    }
}

/// What a lookup call yields: its trimmed output when it succeeded.
pub open spec fn looked_up(o: CallOutcome) -> Option<Seq<char>> {
    if o.success {
        Some(trimmed(o.stdout@))
    } else {
        None
    }
}

/// The remote names a `remote` call yields: its trimmed output lines when it
/// succeeded, none otherwise.
pub open spec fn listed_remotes(o: CallOutcome) -> Seq<Seq<char>> {
    if o.success {
        trimmed_lines(o.stdout@)
    } else {
        seq![]
    }
}

/// A clean or a pull succeeds on a repository when both of its calls did.
pub open spec fn pair_result(first_ok: bool, second_ok: bool) -> RepoStatus {
    if first_ok && second_ok {
        RepoStatus::Succeeded
    } else {
        RepoStatus::Failed
    }
}

/// The two opening calls of `mode`, in the order they run.
pub fn opening_pair(mode: Mode) -> (r: (GitCall, GitCall))
    ensures
        r == opening_calls(mode),
{
    match mode {
        Mode::Info => (GitCall::CurrentBranch, GitCall::ListRemotes),
        Mode::Clean => (GitCall::ResetHard, GitCall::CleanUntracked),
        Mode::Pull => (GitCall::Fetch, GitCall::Pull),
    }
}

fn words(w: &[&str]) -> (r: Vec<String>)
    ensures
        r@.len() == w@.len(),
        forall|i: int| 0 <= i < w@.len() ==> #[trigger] r@[i]@ == w@[i]@,
{
    let mut out: Vec<String> = Vec::new();
    let mut i: usize = 0;
    while i < w.len()
        invariant
            i <= w@.len(),
            out@.len() == i,
            forall|k: int| 0 <= k < i ==> #[trigger] out@[k]@ == w@[k]@,
        decreases w@.len() - i,
    {
        out.push(String::from_str(w[i]));
        i = i + 1;
    }
    out
}

/// The arguments to hand `git` for `call` on the working tree `dir`.
pub fn git_args(dir: &str, call: &GitCall) -> (r: Vec<String>)
    ensures
        views(r@) == call_args(dir@, *call),
{
    let mut out = words(&["-C"]);
    out.push(String::from_str(dir));
    let mut rest = match call {
        GitCall::CurrentBranch => words(&["rev-parse", "--abbrev-ref", "HEAD"]),
        GitCall::ListRemotes => words(&["remote"]),
        GitCall::RemoteUrl(name) => {
            let mut v = words(&["remote", "get-url"]);
            v.push(name.clone());
            v
        },
        GitCall::ResetHard => words(&["reset", "HEAD", "--hard"]),
        GitCall::CleanUntracked => words(&["clean", "-f"]),
        GitCall::Fetch => words(&["fetch"]),
        GitCall::Pull => words(&["pull"]),
    };
    out.append(&mut rest);
    assert(views(out@) =~= call_args(dir@, *call));
    out
}

/// The outcome of a `git` that could not be started.
pub fn not_started() -> (r: CallOutcome)
    ensures
        !r.success,
        r.stdout@ == Seq::<char>::empty(),
{
    CallOutcome { success: false, stdout: String::new() }
}

/// The value a lookup call produced: its trimmed output, or `Unavailable`
/// when the call failed.
pub fn lookup_result(o: &CallOutcome) -> (r: Lookup)
    ensures
        r@ == looked_up(*o),
{
    if o.success {
        Lookup::Found(trim(o.stdout.as_str()))
    } else {
        Lookup::Unavailable
    }
}

/// The remote names a `remote` call reported, one per output line, trimmed;
/// none when the call failed.
pub fn remote_names(o: &CallOutcome) -> (r: Vec<String>)
    ensures
        views(r@) == listed_remotes(*o),
{
    if o.success {
        split_trimmed_lines(o.stdout.as_str())
    } else {
        Vec::new()
    }
}

/// A clean or a pull succeeds on a repository only when both of its calls
/// did: a reset that worked followed by a clean that failed is a failure.
pub fn pair_status(first: &CallOutcome, second: &CallOutcome) -> (r: RepoStatus)
    ensures
        r == pair_result(first.success, second.success),
{
    if first.success && second.success {
        RepoStatus::Succeeded
    } else {
        RepoStatus::Failed
    }
}

} // verus!
