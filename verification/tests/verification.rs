use repo_audit::compile::{
    candidate_standards, diagnostics_clean, judge_compile, make_event, oldest_first,
    run_verification, verify_task, RevisionEvent, VerifyState,
};
use repo_audit::submission::{record_compilation_summary, standard_name, StudentProjectSubmission};

fn strings(names: &[&str]) -> Vec<String> {
    names.iter().map(|s| s.to_string()).collect()
}

fn attempted(first_clean: Option<usize>) -> RevisionEvent {
    RevisionEvent::Attempted { first_clean }
}

#[test]
fn zero_revisions_concludes_nothing() {
    let entry = Some("main.c".to_string());
    let revisions: Vec<String> = Vec::new();
    let events: Vec<RevisionEvent> = Vec::new();
    assert!(verify_task(&entry, &revisions, &events).is_none());
}

#[test]
fn missing_entry_file_concludes_nothing() {
    let entry: Option<String> = None;
    let revisions = strings(&["abc123"]);
    let events = vec![attempted(Some(0))];
    assert!(verify_task(&entry, &revisions, &events).is_none());
}

#[test]
fn all_checkouts_failing_concludes_nothing() {
    let events = vec![RevisionEvent::CheckoutFailed, RevisionEvent::CheckoutFailed];
    assert!(run_verification(&events).is_none());
}

#[test]
fn unset_summary_leaves_submission_unchanged() {
    let mut s = StudentProjectSubmission::new("alice".to_string(), false);
    s.has_task1 = Some("Task1".to_string());
    record_compilation_summary(&mut s, "Task1", &None);
    assert!(s.all_commits_compile_task1.is_none());
    assert!(s.final_commit_compile_task1.is_none());
    assert!(s.successful_compiles_task1.is_none());
    assert!(s.gcc_standard.is_none());
}

#[test]
fn every_revision_clean() {
    let events = vec![attempted(Some(0)), attempted(Some(0)), attempted(Some(0))];
    let summary = run_verification(&events).unwrap();
    assert_eq!(summary.all_revisions_compile, true);
    assert_eq!(summary.final_revision_compiles, true);
    assert_eq!(summary.successful_revision_count, 3);
}

#[test]
fn only_oldest_revision_fails() {
    let events = vec![attempted(None), attempted(Some(0)), attempted(Some(0))];
    let summary = run_verification(&events).unwrap();
    assert_eq!(summary.all_revisions_compile, false);
    assert_eq!(summary.final_revision_compiles, true);
    assert_eq!(summary.successful_revision_count, 2);
}

#[test]
fn only_newest_revision_fails() {
    let events = vec![attempted(Some(0)), attempted(Some(0)), attempted(None)];
    let summary = run_verification(&events).unwrap();
    assert_eq!(summary.all_revisions_compile, false);
    assert_eq!(summary.final_revision_compiles, false);
    assert_eq!(summary.successful_revision_count, 2);
}

#[test]
fn failed_checkout_is_skipped_not_counted() {
    let events = vec![attempted(Some(0)), RevisionEvent::CheckoutFailed, attempted(Some(0))];
    let summary = run_verification(&events).unwrap();
    assert_eq!(summary.all_revisions_compile, true);
    assert_eq!(summary.final_revision_compiles, true);
    assert_eq!(summary.successful_revision_count, 2);
}

#[test]
fn verification_twice_gives_identical_results() {
    let events = vec![attempted(None), attempted(Some(2)), RevisionEvent::CheckoutFailed];
    let first = run_verification(&events).unwrap();
    let second = run_verification(&events).unwrap();
    assert_eq!(first.all_revisions_compile, second.all_revisions_compile);
    assert_eq!(first.final_revision_compiles, second.final_revision_compiles);
    assert_eq!(first.successful_revision_count, second.successful_revision_count);
    assert_eq!(first.recorded_standard, second.recorded_standard);
}

#[test]
fn standard_selection_first_clean_wins() {
    let standards = candidate_standards();
    assert_eq!(standards, vec!["c99", "c90", "c89", "c11", "c17"]);
    // a revision that compiles cleanly only under c11
    let outputs = strings(&["error", "error", "error", "", "error"]);
    let first_clean = judge_compile(&outputs);
    assert_eq!(first_clean, Some(3));
    assert_eq!(standards[3], "c11");
    assert_eq!(standard_name(3), "c11");
    let events = vec![attempted(first_clean)];
    let summary = run_verification(&events).unwrap();
    assert_eq!(summary.successful_revision_count, 1);
    assert_eq!(summary.recorded_standard, Some(3));
}

#[test]
fn diagnostics_clean_means_empty_output() {
    assert!(diagnostics_clean(""));
    assert!(!diagnostics_clean("warning: unused variable"));
}

#[test]
fn judge_compile_no_clean_standard() {
    let outputs = strings(&["e1", "e2"]);
    assert_eq!(judge_compile(&outputs), None);
    let empty: Vec<String> = Vec::new();
    assert_eq!(judge_compile(&empty), None);
}

#[test]
fn judge_compile_stops_at_first_clean() {
    let outputs = strings(&["", "", "boom"]);
    assert_eq!(judge_compile(&outputs), Some(0));
}

#[test]
fn make_event_reflects_checkout_and_judgement() {
    let outputs = strings(&["oops", ""]);
    match make_event(false, &outputs) {
        RevisionEvent::CheckoutFailed => {}
        _ => panic!("a failed checkout must skip the revision"),
    }
    match make_event(true, &outputs) {
        RevisionEvent::Attempted { first_clean } => assert_eq!(first_clean, Some(1)),
        _ => panic!("a successful checkout must judge the compile"),
    }
}

#[test]
fn oldest_first_reverses_newest_first_listing() {
    let revisions = strings(&["c3", "b2", "a1"]);
    assert_eq!(oldest_first(&revisions), strings(&["a1", "b2", "c3"]));
    let empty: Vec<String> = Vec::new();
    assert_eq!(oldest_first(&empty), empty);
}

#[test]
fn step_by_step_state_matches_folded_run() {
    let events = vec![attempted(None), attempted(Some(0)), attempted(Some(0))];
    let mut st = VerifyState::new();
    for ev in events.iter() {
        st.step(ev);
    }
    let summary = run_verification(&events).unwrap();
    assert_eq!(st.any_attempted, true);
    assert_eq!(st.overall_ok, summary.all_revisions_compile);
    assert_eq!(st.last_ok, summary.final_revision_compiles);
    assert_eq!(st.successful, summary.successful_revision_count);
    assert_eq!(st.standard, summary.recorded_standard);
}

#[test]
fn end_to_end_three_revision_scenario() {
    // submission with folder "Task1": three revisions, newest first in the
    // history listing; the oldest fails every standard, the later two
    // compile under c99.
    let mut submission = StudentProjectSubmission::new("alice".to_string(), false);
    submission.has_task1 = Some("Task1".to_string());
    submission.task1_main = Some("main.c".to_string());
    let revisions = strings(&["r3", "r2", "r1"]);
    let visiting_order = oldest_first(&revisions);
    assert_eq!(visiting_order, strings(&["r1", "r2", "r3"]));
    // per-revision diagnostics, one entry per candidate standard tried
    let oldest_outputs = strings(&["e", "e", "e", "e", "e"]);
    let clean_under_c99 = strings(&[""]);
    let events = vec![
        make_event(true, &oldest_outputs),
        make_event(true, &clean_under_c99),
        make_event(true, &clean_under_c99),
    ];
    let summary = verify_task(&submission.task1_main, &revisions, &events);
    record_compilation_summary(&mut submission, "Task1", &summary);
    assert_eq!(submission.all_commits_compile_task1, Some(false));
    assert_eq!(submission.final_commit_compile_task1, Some(true));
    assert_eq!(submission.successful_compiles_task1, Some(2));
    assert_eq!(submission.gcc_standard, Some("c99".to_string()));
    // the other role stays untouched
    assert!(submission.all_commits_compile_task2.is_none());
    assert!(submission.final_commit_compile_task2.is_none());
    assert!(submission.successful_compiles_task2.is_none());
}
