//! One repository's share of a batch, put together from the outcomes of its
//! `git` calls, and what holds of a batch as a whole.
use vstd::prelude::*;
use crate::git::{CallOutcome, Lookup, RepoStatus, listed_remotes, lookup_result, looked_up, pair_result};
use crate::locate::{ChildEntry, GitEntry, candidates, lemma_no_git_directory_no_repository, repositories};
use crate::report::{
    display_name, info_block, info_heading, info_lines, lookup_views, no_remote_line, none_found_line,
    opt_view, shown_name, title_line,
};
use crate::text::views;

verus! {

/// The URLs that `remote get-url` calls yielded.
pub open spec fn looked_up_all(outcomes: Seq<CallOutcome>) -> Seq<Option<Seq<char>>> {
    outcomes.map_values(|o: CallOutcome| looked_up(o))
}

/// The info block of repository `dir`, from the outcome of its branch
/// lookup, the remote names it reported and the outcome of the URL lookup of
/// each (`urls[i]` for `remotes[i]`). `cwd` is the current directory, by
/// which the root `.` is named.
pub fn repository_info(
    dir: &str,
    cwd: &Option<String>,
    branch: &CallOutcome,
    remotes: &Vec<String>,
    urls: &Vec<CallOutcome>,
) -> (r: Vec<String>)
    requires
        remotes.len() == urls.len(),
    ensures
        views(r@) == info_block(
            shown_name(dir@, opt_view(*cwd)),
            looked_up(*branch),
            views(remotes@),
            looked_up_all(urls@),
        ),
{
    let name = display_name(dir, cwd);
    let b = lookup_result(branch);
    let mut found: Vec<Lookup> = Vec::new();
    let mut i: usize = 0;
    while i < urls.len()
        invariant
            i <= urls.len(),
            lookup_views(found@) == looked_up_all(urls@).take(i as int),
        decreases urls.len() - i,
    {
        let l = lookup_result(&urls[i]);
        let ghost before = lookup_views(found@);
        found.push(l);
        assert(lookup_views(found@) =~= before.push(l@));
        assert(looked_up_all(urls@).take(i + 1) =~= looked_up_all(urls@).take(i as int).push(l@));
        i = i + 1;
    }
    assert(looked_up_all(urls@).take(urls.len() as int) =~= looked_up_all(urls@));
    info_lines(name.as_str(), &b, remotes, &found)
}

/// A root under which no candidate has a `.git` directory yields no
/// repository, and the info report on it is only the line saying so.
pub proof fn lemma_empty_scan_empty_report(
    root: Seq<char>,
    children: Seq<ChildEntry>,
    markers: Seq<GitEntry>,
)
    requires
        markers.len() == candidates(root, children).len(),
        forall|i: int| 0 <= i < markers.len() ==> markers[i] != GitEntry::Directory,
    ensures
        repositories(candidates(root, children), markers).len() == 0,
        info_heading(repositories(candidates(root, children), markers).len()) == seq![
            none_found_line(),
        ],
{
    lemma_no_git_directory_no_repository(candidates(root, children), markers);
}

/// A repository without remotes, or whose `remote` call failed, is shown
/// with the no-remote line in place of its remotes, never with an empty list.
pub proof fn lemma_no_remote_sentinel(
    name: Seq<char>,
    branch: Option<Seq<char>>,
    remotes_call: CallOutcome,
)
    requires
        !remotes_call.success || remotes_call.stdout@.len() == 0,
    ensures
        listed_remotes(remotes_call).len() == 0,
        info_block(name, branch, listed_remotes(remotes_call), seq![]) == seq![
            title_line(name, branch),
            no_remote_line(),
            Seq::<char>::empty(),
        ],
{
    assert(info_block(name, branch, listed_remotes(remotes_call), seq![]) =~= seq![
        title_line(name, branch),
        no_remote_line(),
        Seq::<char>::empty(),
    ]);
}

/// Where `git` cannot be run, every call fails: each clean or pull is
/// reported as failed, and each repository's info shows the unknown branch
/// and no remote.
pub proof fn lemma_unrunnable_git_reports_failure(
    name: Seq<char>,
    first: CallOutcome,
    second: CallOutcome,
)
    requires
        !first.success,
        !second.success,
    ensures
        pair_result(first.success, second.success) == RepoStatus::Failed,
        looked_up(first) == None::<Seq<char>>,
        info_block(name, looked_up(first), listed_remotes(second), seq![]) == seq![
            title_line(name, None),
            no_remote_line(),
            Seq::<char>::empty(),
        ],
{
    lemma_no_remote_sentinel(name, None, second);
}

} // verus!
