use repo_audit::file_path::FilePath;
use repo_audit::history::{count_revisions, parse_revision_lines};
use repo_audit::locate::{files_at, find_accepted_folder, find_main_file, join_path, DirTree};
use repo_audit::parser::escape;
use repo_audit::submission::{
    check_structure, get_commits_from_submission, get_submission_main_file,
    save_commits_to_submission, save_compilation_results_to_submission, task_one_variants,
    task_two_variants, tasks_to_check, StudentProjectSubmission,
};

fn strings(names: &[&str]) -> Vec<String> {
    names.iter().map(|s| s.to_string()).collect()
}

fn dir(name: &str, dirs: Vec<DirTree>, files: &[&str]) -> DirTree {
    DirTree { name: name.to_string(), dirs, files: strings(files) }
}

#[test]
fn nested_task_folder_is_located() {
    let repo = dir(
        "repo",
        vec![
            dir("docs", vec![], &["notes.txt"]),
            dir("Group", vec![dir("Task_1", vec![], &["main.c"])], &[]),
        ],
        &["README.md"],
    );
    let found = find_accepted_folder(&repo, &task_one_variants());
    assert_eq!(found, Some("Group/Task_1".to_string()));
}

#[test]
fn no_matching_folder_anywhere_gives_none() {
    let repo = dir(
        "repo",
        vec![dir("src", vec![dir("deep", vec![], &[])], &["a.c"])],
        &[],
    );
    assert_eq!(find_accepted_folder(&repo, &task_one_variants()), None);
}

#[test]
fn direct_match_wins_over_deeper_one() {
    let repo = dir(
        "repo",
        vec![dir("Task1", vec![dir("task1", vec![], &[])], &["main.c"])],
        &[],
    );
    let found = find_accepted_folder(&repo, &task_one_variants());
    assert_eq!(found, Some("Task1".to_string()));
}

#[test]
fn main_c_is_preferred_over_other_sources() {
    let files = strings(&["helper.c", "main.c"]);
    assert_eq!(find_main_file(&files), Some("main.c".to_string()));
}

#[test]
fn single_source_file_is_picked() {
    let files = strings(&["solution.c"]);
    assert_eq!(find_main_file(&files), Some("solution.c".to_string()));
}

#[test]
fn empty_folder_has_no_entry_file() {
    let files: Vec<String> = Vec::new();
    assert_eq!(find_main_file(&files), None);
    let no_sources = strings(&["notes.txt", "data.csv"]);
    assert_eq!(find_main_file(&no_sources), None);
}

#[test]
fn files_at_resolves_a_nested_path() {
    let repo = dir(
        "repo",
        vec![dir("Group", vec![dir("Task_1", vec![], &["helper.c", "main.c"])], &[])],
        &[],
    );
    let comps = strings(&["Group", "Task_1"]);
    assert_eq!(files_at(&repo, &comps), Some(strings(&["helper.c", "main.c"])));
    let missing = strings(&["Group", "Task_2"]);
    assert_eq!(files_at(&repo, &missing), None);
}

#[test]
fn join_path_uses_slashes() {
    assert_eq!(join_path(&strings(&["Group", "Task_1"])), "Group/Task_1".to_string());
    assert_eq!(join_path(&strings(&["Task1"])), "Task1".to_string());
    assert_eq!(join_path(&strings(&[])), "".to_string());
}

#[test]
fn check_structure_fills_both_roles() {
    let repo = dir(
        "repo",
        vec![
            dir("Task 1", vec![], &["solution.c"]),
            dir("task_2", vec![], &["helper.c", "main.c"]),
        ],
        &[],
    );
    let mut s = StudentProjectSubmission::new("bob".to_string(), false);
    s.cloned = true;
    check_structure(&mut s, &repo);
    assert_eq!(s.has_task1, Some("Task 1".to_string()));
    assert_eq!(s.has_task2, Some("task_2".to_string()));
    assert_eq!(s.task1_main, Some("solution.c".to_string()));
    assert_eq!(s.task2_main, Some("main.c".to_string()));
    assert_eq!(s.cloned, true);
    assert_eq!(s.student_folder, "bob".to_string());
}

#[test]
fn check_structure_with_one_role_missing() {
    let repo = dir("repo", vec![dir("Task2", vec![], &[])], &[]);
    let mut s = StudentProjectSubmission::new("carol".to_string(), false);
    check_structure(&mut s, &repo);
    assert_eq!(s.has_task1, None);
    assert_eq!(s.task1_main, None);
    assert_eq!(s.has_task2, Some("Task2".to_string()));
    assert_eq!(s.task2_main, None);
}

#[test]
fn revision_listing_is_parsed_line_by_line() {
    let text = "abc123\n9f8e7d\n\n42aa10\n";
    assert_eq!(parse_revision_lines(text), strings(&["abc123", "9f8e7d", "42aa10"]));
    assert_eq!(count_revisions(text), 3);
}

#[test]
fn blank_listing_has_no_revisions() {
    assert_eq!(parse_revision_lines(""), strings(&[]));
    assert_eq!(parse_revision_lines("\n\n"), strings(&[]));
    assert_eq!(count_revisions("\n"), 0);
}

#[test]
fn listing_without_trailing_newline_keeps_last_line() {
    assert_eq!(parse_revision_lines("aa\nbb"), strings(&["aa", "bb"]));
}

#[test]
fn escape_protects_shell_metacharacters() {
    assert_eq!(escape(&"Doe John".to_string()), "Doe\\ John".to_string());
    assert_eq!(escape(&"a&b|c".to_string()), "a\\&b\\|c".to_string());
    assert_eq!(escape(&"plain".to_string()), "plain".to_string());
    assert_eq!(escape(&"".to_string()), "".to_string());
}

#[test]
fn file_path_returns_wrapped_path() {
    let zip = FilePath::Zip("subs.zip".to_string());
    assert_eq!(zip.get_path(), "subs.zip".to_string());
    let folder = FilePath::Folder("subs".to_string());
    assert_eq!(folder.get_path(), "subs".to_string());
}

#[test]
fn new_submission_starts_unset() {
    let s = StudentProjectSubmission::new("dora".to_string(), true);
    assert_eq!(s.student_folder, "dora".to_string());
    assert_eq!(s.jordan, true);
    assert!(!s.cloned);
    assert!(s.git_repo.is_none());
    assert!(s.gcc_standard.is_none());
    assert!(s.total_commits.is_none());
    assert!(s.commits_task1.is_none() && s.commits_task2.is_none());
    assert!(s.has_task1.is_none() && s.has_task2.is_none());
    assert!(s.task1_main.is_none() && s.task2_main.is_none());
    assert!(s.all_commits_compile_task1.is_none() && s.all_commits_compile_task2.is_none());
    assert!(s.final_commit_compile_task1.is_none() && s.final_commit_compile_task2.is_none());
    assert!(s.successful_compiles_task1.is_none() && s.successful_compiles_task2.is_none());
}

#[test]
fn commits_are_routed_to_the_matching_role() {
    let mut s = StudentProjectSubmission::new("erin".to_string(), false);
    s.has_task1 = Some("Task1".to_string());
    s.has_task2 = Some("task 2".to_string());
    save_commits_to_submission(&mut s, "Task1", Some(strings(&["a", "b"])));
    save_commits_to_submission(&mut s, "task 2", Some(strings(&["c"])));
    assert_eq!(s.commits_task1, Some(strings(&["a", "b"])));
    assert_eq!(s.commits_task2, Some(strings(&["c"])));
    // an unrecognized task name routes nowhere
    save_commits_to_submission(&mut s, "Task3", Some(strings(&["x"])));
    assert_eq!(s.commits_task1, Some(strings(&["a", "b"])));
    assert_eq!(s.commits_task2, Some(strings(&["c"])));
    assert_eq!(get_commits_from_submission("Task1", &mut s), Some(strings(&["a", "b"])));
    assert_eq!(get_commits_from_submission("task 2", &mut s), Some(strings(&["c"])));
    assert_eq!(get_commits_from_submission("nope", &mut s), None);
}

#[test]
fn equal_role_names_route_to_the_first_role() {
    let mut s = StudentProjectSubmission::new("finn".to_string(), false);
    s.has_task1 = Some("Tasks".to_string());
    s.has_task2 = Some("Tasks".to_string());
    save_commits_to_submission(&mut s, "Tasks", Some(strings(&["z"])));
    assert_eq!(s.commits_task1, Some(strings(&["z"])));
    assert_eq!(s.commits_task2, None);
}

#[test]
fn main_file_is_routed_to_the_matching_role() {
    let mut s = StudentProjectSubmission::new("gail".to_string(), false);
    s.has_task1 = Some("Task1".to_string());
    s.task1_main = Some("main.c".to_string());
    assert_eq!(get_submission_main_file(&mut s, "Task1"), Some("main.c".to_string()));
    assert_eq!(get_submission_main_file(&mut s, "Task2"), None);
}

#[test]
fn compilation_results_are_routed_to_the_matching_role() {
    let mut s = StudentProjectSubmission::new("hugo".to_string(), false);
    s.has_task1 = Some("task_1".to_string());
    s.has_task2 = Some("Task2".to_string());
    save_compilation_results_to_submission(&mut s, "Task2", true, false, 4);
    assert_eq!(s.all_commits_compile_task2, Some(false));
    assert_eq!(s.final_commit_compile_task2, Some(true));
    assert_eq!(s.successful_compiles_task2, Some(4));
    assert!(s.all_commits_compile_task1.is_none());
}

#[test]
fn tasks_to_check_lists_present_roles() {
    let mut s = StudentProjectSubmission::new("iris".to_string(), false);
    assert_eq!(tasks_to_check(&s), strings(&[]));
    s.has_task2 = Some("Task2".to_string());
    assert_eq!(tasks_to_check(&s), strings(&["Task2"]));
    s.has_task1 = Some("Task1".to_string());
    assert_eq!(tasks_to_check(&s), strings(&["Task1", "Task2"]));
}

#[test]
fn task_variant_lists_hold_the_accepted_spellings() {
    let v1 = task_one_variants();
    assert_eq!(
        v1,
        strings(&["Task1", "task1", "1task", "1Task", "task_1", "Task_1", "Task 1", "task 1"])
    );
    let v2 = task_two_variants();
    assert_eq!(
        v2,
        strings(&["Task2", "task2", "2task", "2Task", "task_2", "Task_2", "Task 2", "task 2"])
    );
}
