//! The per-student submission record and the aggregation that routes each
//! task's outcomes into it.
//!
//! A submission owns one result slot per recognized task role.  The role a
//! matched folder name belongs to is remembered in `has_task1` / `has_task2`;
//! routing an outcome means comparing the task name against those and writing
//! the fields of whichever role matched first.

use vstd::prelude::*;
use crate::compile::TaskSummary;
use crate::locate::{
    DirTree, files_at, files_at_spec, find_main_file, join_path, join_spec, locate_components,
    locate_in, main_file_spec,
};
use crate::strutil::{clone_strings, str_eq};

verus! {

/// Everything recorded about one student's submission.  Fields start unset
/// and are populated monotonically as the pipeline stages run: structure
/// detection, history extraction, compile verification.
pub struct StudentProjectSubmission {
    pub student_folder: String,
    pub git_repo: Option<String>,
    pub cloned: bool,
    pub jordan: bool,
    pub gcc_standard: Option<String>,
    pub total_commits: Option<usize>,
    pub commits_task1: Option<Vec<String>>,
    pub commits_task2: Option<Vec<String>>,
    pub has_task1: Option<String>,
    pub has_task2: Option<String>,
    pub task1_main: Option<String>,
    pub task2_main: Option<String>,
    pub all_commits_compile_task1: Option<bool>,
    pub all_commits_compile_task2: Option<bool>,
    pub final_commit_compile_task1: Option<bool>,
    pub final_commit_compile_task2: Option<bool>,
    pub successful_compiles_task1: Option<usize>,
    pub successful_compiles_task2: Option<usize>,
}

impl StudentProjectSubmission {
    pub fn new(name: String, jordan: bool) -> (r: Self)
        ensures
            r.student_folder == name,
            r.git_repo is None,
            r.cloned == false,
            r.jordan == jordan,
            r.gcc_standard is None,
            r.total_commits is None,
            r.commits_task1 is None,
            r.commits_task2 is None,
            r.has_task1 is None,
            r.has_task2 is None,
            r.task1_main is None,
            r.task2_main is None,
            r.all_commits_compile_task1 is None,
            r.all_commits_compile_task2 is None,
            r.final_commit_compile_task1 is None,
            r.final_commit_compile_task2 is None,
            r.successful_compiles_task1 is None,
            r.successful_compiles_task2 is None,
    {
        StudentProjectSubmission {
            student_folder: name,
            git_repo: None,
            cloned: false,
            jordan: jordan,
            gcc_standard: None,
            total_commits: None,
            commits_task1: None,
            commits_task2: None,
            has_task1: None,
            has_task2: None,
            task1_main: None,
            task2_main: None,
            all_commits_compile_task1: None,
            all_commits_compile_task2: None,
            final_commit_compile_task1: None,
            final_commit_compile_task2: None,
            successful_compiles_task1: None,
            successful_compiles_task2: None,
        }
    }
}

pub open spec fn matches_role(role: Option<String>, task: Seq<char>) -> bool {
    match role {
        Some(t) => t@ == task,
        None => false,
    }
}

fn role_matches(role: &Option<String>, task: &str) -> (r: bool)
    ensures
        r == matches_role(*role, task@),
{
    match role {
        Some(t) => str_eq(t.as_str(), task),
        None => false,
    }
}

/// The revision list stored for the role the task name belongs to; the first
/// matching role wins.
pub open spec fn commits_for_spec(s: StudentProjectSubmission, task: Seq<char>) -> Option<
    Seq<Seq<char>>,
> {
    if matches_role(s.has_task1, task) {
        s.commits_task1.deep_view()
    } else if matches_role(s.has_task2, task) {
        s.commits_task2.deep_view()
    } else {
        None
    }
}

pub fn get_commits_from_submission(task: &str, submission: &mut StudentProjectSubmission) -> (r:
    Option<Vec<String>>)
    ensures
        *final(submission) == *old(submission),
        r.deep_view() == commits_for_spec(*old(submission), task@),
{
    if role_matches(&submission.has_task1, task) {
        return match &submission.commits_task1 {
            Some(v) => Some(clone_strings(v)),
            None => None,
        };
    }
    if role_matches(&submission.has_task2, task) {
        return match &submission.commits_task2 {
            Some(v) => Some(clone_strings(v)),
            None => None,
        };
    }
    None
}

/// The entry file stored for the role the task name belongs to.
pub open spec fn main_for_spec(s: StudentProjectSubmission, task: Seq<char>) -> Option<Seq<char>> {
    if matches_role(s.has_task1, task) {
        s.task1_main.deep_view()
    } else if matches_role(s.has_task2, task) {
        s.task2_main.deep_view()
    } else {
        None
    }
}

pub fn get_submission_main_file(submission: &mut StudentProjectSubmission, task: &str) -> (r:
    Option<String>)
    ensures
        *final(submission) == *old(submission),
        r.deep_view() == main_for_spec(*old(submission), task@),
{
    if role_matches(&submission.has_task1, task) {
        return match &submission.task1_main {
            Some(m) => Some(m.clone()),
            None => None,
        };
    }
    if role_matches(&submission.has_task2, task) {
        return match &submission.task2_main {
            Some(m) => Some(m.clone()),
            None => None,
        };
    }
    None
}

/// The submission with the revision list routed to the role the task name
/// belongs to; an unrecognized task name changes nothing.
pub open spec fn with_commits(
    s: StudentProjectSubmission,
    task: Seq<char>,
    commits: Option<Vec<String>>,
) -> StudentProjectSubmission {
    if matches_role(s.has_task1, task) {
        StudentProjectSubmission { commits_task1: commits, ..s }
    } else if matches_role(s.has_task2, task) {
        StudentProjectSubmission { commits_task2: commits, ..s }
    } else {
        s
    }
}

pub fn save_commits_to_submission(
    submission: &mut StudentProjectSubmission,
    task: &str,
    commits: Option<Vec<String>>,
)
    ensures
        *final(submission) == with_commits(*old(submission), task@, commits),
{
    if role_matches(&submission.has_task1, task) {
        submission.commits_task1 = commits;
        return;
    }
    if role_matches(&submission.has_task2, task) {
        submission.commits_task2 = commits;
    }
}

/// The submission with the three summary facts routed to the role the task
/// name belongs to.
pub open spec fn with_compilation(
    s: StudentProjectSubmission,
    task: Seq<char>,
    last_compile: bool,
    overall_compile: bool,
    successful_commits: usize,
) -> StudentProjectSubmission {
    if matches_role(s.has_task1, task) {
        StudentProjectSubmission {
            all_commits_compile_task1: Some(overall_compile),
            final_commit_compile_task1: Some(last_compile),
            successful_compiles_task1: Some(successful_commits),
            ..s
        }
    } else if matches_role(s.has_task2, task) {
        StudentProjectSubmission {
            all_commits_compile_task2: Some(overall_compile),
            final_commit_compile_task2: Some(last_compile),
            successful_compiles_task2: Some(successful_commits),
            ..s
        }
    } else {
        s
    }
}

pub fn save_compilation_results_to_submission(
    submission: &mut StudentProjectSubmission,
    task: &str,
    last_compile: bool,
    overall_compile: bool,
    successful_commits: usize,
)
    ensures
        *final(submission) == with_compilation(
            *old(submission),
            task@,
            last_compile,
            overall_compile,
            successful_commits,
        ),
{
    if role_matches(&submission.has_task1, task) {
        submission.all_commits_compile_task1 = Some(overall_compile);
        submission.final_commit_compile_task1 = Some(last_compile);
        submission.successful_compiles_task1 = Some(successful_commits);
        return;
    }
    if role_matches(&submission.has_task2, task) {
        submission.all_commits_compile_task2 = Some(overall_compile);
        submission.final_commit_compile_task2 = Some(last_compile);
        submission.successful_compiles_task2 = Some(successful_commits);
    }
}

/// The matched folder names of the roles this submission has, first role
/// first.
pub open spec fn tasks_spec(s: StudentProjectSubmission) -> Seq<Seq<char>> {
    (match s.has_task1 {
        Some(t) => seq![t@],
        None => Seq::empty(),
    }) + (match s.has_task2 {
        Some(t) => seq![t@],
        None => Seq::empty(),
    })
}

pub fn tasks_to_check(submission: &StudentProjectSubmission) -> (r: Vec<String>)
    ensures
        r.deep_view() == tasks_spec(*submission),
{
    let mut names: Vec<String> = Vec::new();
    match &submission.has_task1 {
        Some(t1) => {
            names.push(t1.clone());
        },
        None => {},
    }
    match &submission.has_task2 {
        Some(t2) => {
            names.push(t2.clone());
        },
        None => {},
    }
    proof {
        assert(names.deep_view() =~= tasks_spec(*submission));
    }
    names
}

/// The accepted spellings for the first task's folder.
pub open spec fn task_one_variants_spec() -> Seq<Seq<char>> {
    seq!["Task1"@, "task1"@, "1task"@, "1Task"@, "task_1"@, "Task_1"@, "Task 1"@, "task 1"@]
}

/// The accepted spellings for the second task's folder.
pub open spec fn task_two_variants_spec() -> Seq<Seq<char>> {
    seq!["Task2"@, "task2"@, "2task"@, "2Task"@, "task_2"@, "Task_2"@, "Task 2"@, "task 2"@]
}

pub fn task_one_variants() -> (r: Vec<String>)
    ensures
        r.deep_view() == task_one_variants_spec(),
{
    let mut v: Vec<String> = Vec::new();
    v.push("Task1".to_owned());
    v.push("task1".to_owned());
    v.push("1task".to_owned());
    v.push("1Task".to_owned());
    v.push("task_1".to_owned());
    v.push("Task_1".to_owned());
    v.push("Task 1".to_owned());
    v.push("task 1".to_owned());
    proof {
        assert(v.deep_view() =~= task_one_variants_spec());
    }
    v
}

pub fn task_two_variants() -> (r: Vec<String>)
    ensures
        r.deep_view() == task_two_variants_spec(),
{
    let mut v: Vec<String> = Vec::new();
    v.push("Task2".to_owned());
    v.push("task2".to_owned());
    v.push("2task".to_owned());
    v.push("2Task".to_owned());
    v.push("task_2".to_owned());
    v.push("Task_2".to_owned());
    v.push("Task 2".to_owned());
    v.push("task 2".to_owned());
    proof {
        assert(v.deep_view() =~= task_two_variants_spec());
    }
    v
}

/// The `/`-joined relative path of the first folder in the tree whose name
/// is one of the accepted spellings.
pub open spec fn located_path(tree: DirTree, accepted: Seq<Seq<char>>) -> Option<Seq<char>> {
    match locate_in(tree.dirs@, accepted) {
        Some(comps) => Some(join_spec(comps)),
        None => None,
    }
}

/// The entry file of the located task folder: nothing when no folder
/// matched, when the path does not resolve, or when the folder holds no C
/// source file.
pub open spec fn located_entry(tree: DirTree, accepted: Seq<Seq<char>>) -> Option<Seq<char>> {
    match locate_in(tree.dirs@, accepted) {
        Some(comps) => match files_at_spec(tree, comps) {
            Some(files) => main_file_spec(files),
            None => None,
        },
        None => None,
    }
}

/// Locate one task's folder and entry file in the repository tree.
fn locate_role(tree: &DirTree, accepted: &Vec<String>) -> (r: (Option<String>, Option<String>))
    ensures
        r.0.deep_view() == located_path(*tree, accepted.deep_view()),
        r.1.deep_view() == located_entry(*tree, accepted.deep_view()),
{
    match locate_components(tree, accepted) {
        Some(comps) => {
            let folder = join_path(&comps);
            let entry = match files_at(tree, &comps) {
                Some(files) => find_main_file(&files),
                None => None,
            };
            (Some(folder), entry)
        },
        None => (None, None),
    }
}

/// Detect the task folder and entry file for both roles, writing only the
/// four structure fields of the submission.
pub fn check_structure(submission: &mut StudentProjectSubmission, tree: &DirTree)
    ensures
        final(submission).has_task1.deep_view() == located_path(*tree, task_one_variants_spec()),
        final(submission).has_task2.deep_view() == located_path(*tree, task_two_variants_spec()),
        final(submission).task1_main.deep_view() == located_entry(*tree, task_one_variants_spec()),
        final(submission).task2_main.deep_view() == located_entry(*tree, task_two_variants_spec()),
        *final(submission) == (StudentProjectSubmission {
            has_task1: final(submission).has_task1,
            has_task2: final(submission).has_task2,
            task1_main: final(submission).task1_main,
            task2_main: final(submission).task2_main,
            ..*old(submission)
        }),
{
    let variants1 = task_one_variants();
    let (folder1, entry1) = locate_role(tree, &variants1);
    submission.has_task1 = folder1;
    submission.task1_main = entry1;
    let variants2 = task_two_variants();
    let (folder2, entry2) = locate_role(tree, &variants2);
    submission.has_task2 = folder2;
    submission.task2_main = entry2;
}

/// The name of the candidate standard with the given index; the preference
/// order is the one `candidate_standards` returns.
pub open spec fn standard_label(i: usize) -> Seq<char> {
    if i == 0 {
        "c99"@
    } else if i == 1 {
        "c90"@
    } else if i == 2 {
        "c89"@
    } else if i == 3 {
        "c11"@
    } else {
        "c17"@
    }
}

pub fn standard_name(i: usize) -> (r: String)
    ensures
        r@ == standard_label(i),
{
    if i == 0 {
        "c99".to_owned()
    } else if i == 1 {
        "c90".to_owned()
    } else if i == 2 {
        "c89".to_owned()
    } else if i == 3 {
        "c11".to_owned()
    } else {
        "c17".to_owned()
    }
}

/// Record one task's verification outcome on the submission.  No summary —
/// nothing was attempted — leaves every field unchanged, preserving the
/// unknown state; a summary writes the role's three result fields, and a
/// recorded standard additionally overwrites the submission's standard.
pub fn record_compilation_summary(
    submission: &mut StudentProjectSubmission,
    task: &str,
    summary: &Option<TaskSummary>,
)
    ensures
        summary is None ==> *final(submission) == *old(submission),
        (match *summary {
            Some(sm) => {
                let routed = with_compilation(
                    *old(submission),
                    task@,
                    sm.final_revision_compiles,
                    sm.all_revisions_compile,
                    sm.successful_revision_count,
                );
                match sm.recorded_standard {
                    Some(ix) => final(submission).gcc_standard matches Some(g) && g@
                        == standard_label(ix) && *final(submission) == (StudentProjectSubmission {
                        gcc_standard: final(submission).gcc_standard,
                        ..routed
                    }),
                    None => *final(submission) == routed,
                }
            },
            None => true,
        }),
{
    match summary {
        Some(sm) => {
            save_compilation_results_to_submission(
                submission,
                task,
                sm.final_revision_compiles,
                sm.all_revisions_compile,
                sm.successful_revision_count,
            );
            match sm.recorded_standard {
                Some(ix) => {
                    submission.gcc_standard = Some(standard_name(ix));
                },
                None => {},
            }
        },
        None => {},
    }
}

} // verus!
