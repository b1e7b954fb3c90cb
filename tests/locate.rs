use sgit::locate::{candidate_dirs, select_repositories, ChildEntry, GitEntry};

fn child(path: &str, is_dir: bool) -> ChildEntry {
    ChildEntry { path: path.to_string(), is_dir }
}

#[test]
fn candidates_are_root_then_child_directories_in_order() {
    let children = vec![child("./b", true), child("./notes.txt", false), child("./a", true)];
    assert_eq!(candidate_dirs(".", &children), vec![".", "./b", "./a"]);
}

#[test]
fn candidates_of_an_empty_root_are_the_root_alone() {
    assert_eq!(candidate_dirs("/srv/code", &vec![]), vec!["/srv/code"]);
}

#[test]
fn one_repository_among_a_plain_directory() {
    let children = vec![child("./repo", true), child("./plain", true)];
    let cands = candidate_dirs(".", &children);
    let markers = vec![GitEntry::Absent, GitEntry::Directory, GitEntry::Absent];
    let found = select_repositories(&cands, &markers);
    assert_eq!(found.len(), 1);
    assert_eq!(found, vec!["./repo"]);
}

#[test]
fn git_file_is_not_a_repository() {
    let cands = vec!["./worktree".to_string(), "./real".to_string()];
    let markers = vec![GitEntry::NotDirectory, GitEntry::Directory];
    assert_eq!(select_repositories(&cands, &markers), vec!["./real"]);
}

#[test]
fn nested_repository_is_not_found() {
    // "./outer/inner" holds a repository, but only the direct children of
    // the root are listed, and "./outer" has no `.git` of its own.
    let children = vec![child("./outer", true)];
    let cands = candidate_dirs(".", &children);
    assert_eq!(cands, vec![".", "./outer"]);
    let found = select_repositories(&cands, &vec![GitEntry::Absent, GitEntry::Absent]);
    assert!(found.is_empty());
    assert!(!found.iter().any(|d| d == "./outer/inner"));
}

#[test]
fn no_matching_directory_gives_empty_result() {
    let children = vec![child("./x", true), child("./y", true)];
    let cands = candidate_dirs(".", &children);
    let markers = vec![GitEntry::Absent, GitEntry::NotDirectory, GitEntry::Absent];
    assert!(select_repositories(&cands, &markers).is_empty());
}

#[test]
fn root_and_children_can_all_be_repositories() {
    let children = vec![child("/w/a", true), child("/w/b", true)];
    let cands = candidate_dirs("/w", &children);
    let markers = vec![GitEntry::Directory, GitEntry::Directory, GitEntry::Directory];
    assert_eq!(select_repositories(&cands, &markers), vec!["/w", "/w/a", "/w/b"]);
}
