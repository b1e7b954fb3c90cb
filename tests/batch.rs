use sgit::batch::repository_info;
use sgit::git::{not_started, pair_status, remote_names, CallOutcome, RepoStatus};
use sgit::locate::{candidate_dirs, select_repositories, ChildEntry, GitEntry};
use sgit::report::info_header;

fn ok(out: &str) -> CallOutcome {
    CallOutcome { success: true, stdout: out.to_string() }
}

#[test]
fn repository_info_from_outcomes() {
    let remotes = remote_names(&ok("origin\n"));
    let lines = repository_info(
        "./svc",
        &Some("/home/u".to_string()),
        &ok("main\n"),
        &remotes,
        &vec![ok("https://example.com/svc.git\n")],
    );
    assert_eq!(
        lines,
        vec!["svc             [main]", "  > origin: https://example.com/svc.git", ""]
    );
}

#[test]
fn root_repository_info_uses_current_directory() {
    let lines = repository_info(".", &Some("/home/u/tools".to_string()), &ok("dev\n"), &vec![], &vec![]);
    assert_eq!(lines[0], "tools           [dev]");
}

#[test]
fn zero_remotes_show_no_remote_sentinel() {
    let remotes = remote_names(&ok(""));
    let lines = repository_info("./r", &None, &ok("main\n"), &remotes, &vec![]);
    assert_eq!(lines, vec!["r               [main]", "  > <no remote>", ""]);
}

#[test]
fn missing_git_reports_every_repository_failed_or_unknown() {
    for dir in ["./a", "./b"] {
        assert_eq!(pair_status(&not_started(), &not_started()), RepoStatus::Failed);
        let remotes = remote_names(&not_started());
        let lines = repository_info(dir, &None, &not_started(), &remotes, &vec![]);
        assert_eq!(lines[1], "  > <no remote>");
        assert!(lines[0].ends_with("[<unknown>]"));
    }
}

#[test]
fn empty_root_gives_empty_report() {
    let children = vec![ChildEntry { path: "./docs".to_string(), is_dir: true }];
    let cands = candidate_dirs(".", &children);
    let found = select_repositories(&cands, &vec![GitEntry::Absent, GitEntry::Absent]);
    assert!(found.is_empty());
    assert_eq!(info_header(found.len()), vec!["当前目录下没有找到 Git 仓库"]);
}
