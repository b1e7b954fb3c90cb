use sgit::git::{Lookup, Mode, RepoStatus};
use sgit::report::{
    decimal_text, display_name, display_name_from, info_header, info_lines, progress_lines,
    verdict_lines,
};

fn some(s: &str) -> Option<String> {
    Some(s.to_string())
}

#[test]
fn child_repository_is_shown_by_its_directory_name() {
    assert_eq!(display_name("./proj", &some("/home/u/work")), "proj");
    assert_eq!(display_name("/srv/code/api", &None), "api");
}

#[test]
fn root_is_shown_by_the_current_directory_name() {
    assert_eq!(display_name(".", &some("/home/u/work")), "work");
}

#[test]
fn root_falls_back_to_the_whole_current_directory_then_to_itself() {
    assert_eq!(display_name(".", &some("/")), "/");
    assert_eq!(display_name(".", &None), ".");
}

#[test]
fn path_without_a_final_name_is_shown_whole() {
    assert_eq!(display_name("..", &None), "..");
}

#[test]
fn display_name_from_components() {
    assert_eq!(display_name_from(".", &None, &some("/a/b"), &some("b")), "b");
    assert_eq!(display_name_from(".", &None, &some("/"), &None), "/");
    assert_eq!(display_name_from(".", &some("x"), &None, &None), ".");
    assert_eq!(display_name_from("./r", &some("r"), &some("/a"), &some("a")), "r");
    assert_eq!(display_name_from("..", &None, &None, &None), "..");
}

#[test]
fn info_block_pads_the_name_and_lists_remotes() {
    let remotes = vec!["origin".to_string(), "mirror".to_string()];
    let urls = vec![Lookup::Found("git@host:a.git".to_string()), Lookup::Unavailable];
    let lines = info_lines("proj", &Lookup::Found("main".to_string()), &remotes, &urls);
    assert_eq!(
        lines,
        vec![
            "proj            [main]",
            "  > origin: git@host:a.git",
            "  > mirror: <no url>",
            "",
        ]
    );
    assert_eq!(lines[0], format!("{:<15} [{}]", "proj", "main"));
}

#[test]
fn info_block_without_remotes_shows_the_sentinel() {
    let lines = info_lines("proj", &Lookup::Unavailable, &vec![], &vec![]);
    assert_eq!(lines, vec!["proj            [<unknown>]", "  > <no remote>", ""]);
}

#[test]
fn long_names_are_not_cut() {
    let lines = info_lines("a-rather-long-repository", &Lookup::Found("dev".to_string()), &vec![], &vec![]);
    assert_eq!(lines[0], "a-rather-long-repository [dev]");
}

#[test]
fn names_are_padded_by_characters() {
    let lines = info_lines("仓库", &Lookup::Found("main".to_string()), &vec![], &vec![]);
    assert_eq!(lines[0], format!("{:<15} [{}]", "仓库", "main"));
}

#[test]
fn decimal_text_writes_numbers() {
    assert_eq!(decimal_text(0), "0");
    assert_eq!(decimal_text(7), "7");
    assert_eq!(decimal_text(10), "10");
    assert_eq!(decimal_text(1234567), "1234567");
    assert_eq!(decimal_text(usize::MAX), usize::MAX.to_string());
}

#[test]
fn info_header_counts_repositories() {
    assert_eq!(info_header(0), vec!["当前目录下没有找到 Git 仓库"]);
    assert_eq!(info_header(1), vec!["找到 1 个 Git 仓库:", ""]);
    assert_eq!(info_header(12), vec!["找到 12 个 Git 仓库:", ""]);
}

#[test]
fn progress_lines_name_the_repository() {
    assert_eq!(progress_lines(Mode::Clean, "./a"), vec!["清理仓库: ./a"]);
    assert_eq!(progress_lines(Mode::Pull, "./a"), vec!["拉取仓库: ./a"]);
    assert!(progress_lines(Mode::Info, "./a").is_empty());
}

#[test]
fn verdict_lines_report_each_outcome() {
    assert_eq!(verdict_lines(Mode::Clean, RepoStatus::Succeeded), vec!["  ✅ 成功清理", ""]);
    assert_eq!(verdict_lines(Mode::Clean, RepoStatus::Failed), vec!["  ❌ 清理失败", ""]);
    assert_eq!(verdict_lines(Mode::Pull, RepoStatus::Succeeded), vec!["  ✅ 拉取成功", ""]);
    assert_eq!(verdict_lines(Mode::Pull, RepoStatus::Failed), vec!["  ❌ 拉取失败", ""]);
    assert!(verdict_lines(Mode::Info, RepoStatus::Failed).is_empty());
}
