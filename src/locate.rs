//! Finding the Git working trees among a root directory and its direct
//! children. The caller lists the root and probes each candidate's `.git`
//! entry; the library decides which directories are candidates and which of
//! them are repositories.
use vstd::prelude::*;
use crate::text::views;

verus! {

/// A direct child of the root, as the directory listing reports it.
#[derive(Clone, Debug)]
pub struct ChildEntry {
    /// The child's path: the root joined with the child's name.
    pub path: String,
    /// Whether the child is itself a directory.
    pub is_dir: bool,
}

/// What stands at `<candidate>/.git`.
#[derive(Clone, Copy, PartialEq, Eq, Debug, Structural)]
pub enum GitEntry {
    /// Nothing.
    Absent,
    /// Something that is not a directory, such as the `.git` file of a
    /// linked worktree.
    NotDirectory,
    /// A directory: the candidate is a working tree root.
    Directory,
}

/// The paths of the children that are directories, in listing order.
pub open spec fn child_dirs(children: Seq<ChildEntry>) -> Seq<Seq<char>>
    decreases children.len(),
{
    if children.len() == 0 {
        seq![]
    } else {
        let last = children.last();
        child_dirs(children.drop_last()) + if last.is_dir {
            seq![last.path@]
        } else {
            seq![]
        }
    }
}

/// The directories to probe: the root first, then its child directories.
pub open spec fn candidates(root: Seq<char>, children: Seq<ChildEntry>) -> Seq<Seq<char>> {
    seq![root] + child_dirs(children)
}

/// The candidates whose `.git` entry is a directory, in order.
pub open spec fn repositories(cands: Seq<Seq<char>>, markers: Seq<GitEntry>) -> Seq<Seq<char>>
    decreases cands.len(),
{
    if cands.len() == 0 || markers.len() == 0 {
        seq![]
    } else {
        repositories(cands.drop_last(), markers.drop_last()) + if markers.last()
            == GitEntry::Directory {
            seq![cands.last()]
        } else {
            seq![]
        }
    }
}

/// `x` is the path of a listed child that is a directory.
pub open spec fn is_listed_dir(children: Seq<ChildEntry>, x: Seq<char>) -> bool {
    exists|j: int| 0 <= j < children.len() && children[j].is_dir && #[trigger] children[j].path@ == x
}

/// `x` is a candidate whose `.git` entry is a directory.
pub open spec fn is_marked_candidate(cands: Seq<Seq<char>>, markers: Seq<GitEntry>, x: Seq<char>) -> bool {
    exists|i: int| 0 <= i < cands.len() && markers[i] == GitEntry::Directory && #[trigger] cands[i] == x
}

/// Every child directory path comes from a listed child that is a directory.
proof fn lemma_child_dirs_listed(children: Seq<ChildEntry>)
    ensures
        forall|m: int|
            0 <= m < child_dirs(children).len() ==> is_listed_dir(children, #[trigger] child_dirs(children)[m]),
    decreases children.len(),
{
    if children.len() > 0 {
        let init = children.drop_last();
        lemma_child_dirs_listed(init);
        assert forall|m: int| 0 <= m < child_dirs(children).len() implies is_listed_dir(
            children,
            #[trigger] child_dirs(children)[m],
        ) by {
            if m < child_dirs(init).len() {
                assert(child_dirs(children)[m] == child_dirs(init)[m]);
                let j = choose|j: int|
                    0 <= j < init.len() && init[j].is_dir && #[trigger] init[j].path@ == child_dirs(init)[m];
                assert(children[j] == init[j]);
                assert(children[j].path@ == child_dirs(children)[m]);
            } else {
                assert(children[children.len() - 1].path@ == child_dirs(children)[m]);
            }
        }
    }
}

/// Each repository found is a candidate whose `.git` entry is a directory: a
/// candidate with nothing there, or with a `.git` file, is never reported.
pub proof fn lemma_repository_has_git_directory(cands: Seq<Seq<char>>, markers: Seq<GitEntry>)
    requires
        cands.len() == markers.len(),
    ensures
        forall|k: int|
            0 <= k < repositories(cands, markers).len() ==> is_marked_candidate(
                cands,
                markers,
                #[trigger] repositories(cands, markers)[k],
            ),
    decreases cands.len(),
{
    if cands.len() > 0 {
        let (ci, mi) = (cands.drop_last(), markers.drop_last());
        lemma_repository_has_git_directory(ci, mi);
        let r = repositories(cands, markers);
        assert forall|k: int| 0 <= k < r.len() implies is_marked_candidate(
            cands,
            markers,
            #[trigger] r[k],
        ) by {
            if k < repositories(ci, mi).len() {
                assert(r[k] == repositories(ci, mi)[k]);
                let i = choose|i: int|
                    0 <= i < ci.len() && mi[i] == GitEntry::Directory && #[trigger] ci[i] == r[k];
                assert(cands[i] == ci[i]);
            } else {
                assert(cands[cands.len() - 1] == r[k]);
            }
        }
    }
}

/// Where no candidate has a `.git` directory, no repository is found.
pub proof fn lemma_no_git_directory_no_repository(cands: Seq<Seq<char>>, markers: Seq<GitEntry>)
    requires
        cands.len() == markers.len(),
        forall|i: int| 0 <= i < markers.len() ==> markers[i] != GitEntry::Directory,
    ensures
        repositories(cands, markers).len() == 0,
{
    lemma_repository_has_git_directory(cands, markers);
    let r = repositories(cands, markers);
    if r.len() > 0 {
        assert(is_marked_candidate(cands, markers, r[0]));
    }
}

/// The search goes one level deep: each repository found is the root itself
/// or a listed child directory of it, never anything further down.
pub proof fn lemma_one_level_deep(root: Seq<char>, children: Seq<ChildEntry>, markers: Seq<GitEntry>)
    requires
        markers.len() == candidates(root, children).len(),
    ensures
        forall|k: int|
            0 <= k < repositories(candidates(root, children), markers).len() ==> {
                let found = #[trigger] repositories(candidates(root, children), markers)[k];
                found == root || is_listed_dir(children, found)
            },
{
    let cands = candidates(root, children);
    lemma_repository_has_git_directory(cands, markers);
    lemma_child_dirs_listed(children);
    assert forall|k: int| 0 <= k < repositories(cands, markers).len() implies {
        let found = #[trigger] repositories(cands, markers)[k];
        found == root || is_listed_dir(children, found)
    } by {
        let found = repositories(cands, markers)[k];
        assert(is_marked_candidate(cands, markers, found));
        let i = choose|i: int| 0 <= i < cands.len() && markers[i] == GitEntry::Directory && #[trigger] cands[i] == found;
        if i > 0 {
            assert(cands[i] == child_dirs(children)[i - 1]);
        }
    }
}

/// The directories that may be working trees: `root` itself, then each child
/// that is a directory, in the order the listing gave them.
pub fn candidate_dirs(root: &str, children: &Vec<ChildEntry>) -> (r: Vec<String>)
    ensures
        views(r@) == candidates(root@, children@),
{
    let mut out: Vec<String> = Vec::new();
    out.push(String::from_str(root));
    let mut i: usize = 0;
    while i < children.len()
        invariant
            i <= children.len(),
            views(out@) == seq![root@] + child_dirs(children@.take(i as int)),
        decreases children.len() - i,
    {
        let ghost before = views(out@);
        let child = &children[i];
        if child.is_dir {
            out.push(child.path.clone());
        }
        proof {
            assert(children@.take(i + 1).drop_last() =~= children@.take(i as int));
            assert(children@.take(i + 1).last() == children@[i as int]);
            if child.is_dir {
                assert(views(out@) =~= before.push(child.path@));
            } else {
                assert(views(out@) =~= before);
            }
            assert(views(out@) =~= seq![root@] + child_dirs(children@.take(i + 1)));
        }
        i = i + 1;
    }
    assert(children@.take(children.len() as int) =~= children@);
    out
}

/// The candidates whose `.git` entry is a directory, in order; `markers[i]`
/// is what stands at `<candidates[i]>/.git`.
pub fn select_repositories(candidates: &Vec<String>, markers: &Vec<GitEntry>) -> (r: Vec<String>)
    requires
        candidates.len() == markers.len(),
    ensures
        views(r@) == repositories(views(candidates@), markers@),
{
    let mut out: Vec<String> = Vec::new();
    let mut i: usize = 0;
    while i < candidates.len()
        invariant
            i <= candidates.len(),
            candidates.len() == markers.len(),
            views(out@) == repositories(
                views(candidates@).take(i as int),
                markers@.take(i as int),
            ),
        decreases candidates.len() - i,
    {
        let ghost before = views(out@);
        if markers[i] == GitEntry::Directory {
            out.push(candidates[i].clone());
        }
        proof {
            let cs = views(candidates@);
            assert(cs.take(i + 1).drop_last() =~= cs.take(i as int));
            assert(markers@.take(i + 1).drop_last() =~= markers@.take(i as int));
            assert(cs.take(i + 1).last() == candidates@[i as int]@);
            assert(markers@.take(i + 1).last() == markers@[i as int]);
            if markers@[i as int] == GitEntry::Directory {
                assert(views(out@) =~= before.push(candidates@[i as int]@));
            } else {
                assert(views(out@) =~= before);
            }
            assert(views(out@) =~= repositories(cs.take(i + 1), markers@.take(i + 1)));
        }
        i = i + 1;
    }
    assert(views(candidates@).take(candidates.len() as int) =~= views(candidates@));
    assert(markers@.take(markers.len() as int) =~= markers@);
    out
}

} // verus!
