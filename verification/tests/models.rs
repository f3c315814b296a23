#![allow(dead_code)]

use git_pr::models::{
    CheckConclusionState, CheckStatusState, File, StatusCheck, StatusContextState,
};
use git_pr::palette::{Palette, ShortLabel};

fn run(name: &str, status: CheckStatusState, conclusion: Option<CheckConclusionState>) -> StatusCheck {
    StatusCheck::CheckRun {
        completed_at: String::new(),
        conclusion,
        details_url: String::new(),
        name: name.to_string(),
        started_at: String::new(),
        status,
        workflow_name: String::new(),
    }
}

fn context(name: &str, state: StatusContextState) -> StatusCheck {
    StatusCheck::StatusContext {
        context: name.to_string(),
        started_at: String::new(),
        state,
        target_url: String::new(),
    }
}

#[test]
fn only_a_completed_run_is_complete() {
    assert!(CheckStatusState::Completed.is_complete());
    assert!(!CheckStatusState::InProgress.is_complete());
    assert!(!CheckStatusState::Pending.is_complete());
    assert!(!CheckStatusState::Queued.is_complete());
    assert!(!CheckStatusState::Requested.is_complete());
    assert!(!CheckStatusState::Waiting.is_complete());
}

#[test]
fn a_status_is_complete_on_success_failure_and_error() {
    assert!(StatusContextState::Success.is_complete());
    assert!(StatusContextState::Failure.is_complete());
    assert!(StatusContextState::Error.is_complete());
    assert!(!StatusContextState::Pending.is_complete());
    assert!(!StatusContextState::Expected.is_complete());
}

#[test]
fn a_check_is_named_by_its_name_or_context() {
    assert_eq!(run("build", CheckStatusState::Queued, None).name(), "build");
    assert_eq!(context("ci/lint", StatusContextState::Pending).name(), "ci/lint");
}

#[test]
fn a_check_is_complete_as_its_status_or_state_is() {
    assert!(run("a", CheckStatusState::Completed, None).is_complete());
    assert!(!run("a", CheckStatusState::InProgress, Some(CheckConclusionState::Success)).is_complete());
    assert!(context("b", StatusContextState::Error).is_complete());
    assert!(!context("b", StatusContextState::Expected).is_complete());
}

#[test]
fn an_open_check_is_labelled_as_waiting() {
    assert_eq!(run("a", CheckStatusState::Queued, None).short_status_str(), " .. ");
    assert_eq!(
        run("a", CheckStatusState::InProgress, Some(CheckConclusionState::Failure)).short_status_str(),
        " .. "
    );
    assert_eq!(context("b", StatusContextState::Pending).short_status_str(), " .. ");
    assert_eq!(context("b", StatusContextState::Expected).short_status_str(), " .. ");
}

#[test]
fn a_completed_run_without_conclusion_is_labelled_as_waiting() {
    let check = run("a", CheckStatusState::Completed, None);
    assert!(check.is_complete());
    assert_eq!(check.short_status_str(), " .. ");
    assert_eq!(check.short_label(), ShortLabel::Waiting);
}

#[test]
fn a_completed_run_is_labelled_by_its_conclusion() {
    let label = |c: CheckConclusionState| {
        run("a", CheckStatusState::Completed, Some(c)).short_status_string()
    };
    assert_eq!(label(CheckConclusionState::ActionRequired), "Fail");
    assert_eq!(label(CheckConclusionState::Cancelled), "Pass");
    assert_eq!(label(CheckConclusionState::Failure), "Fail");
    assert_eq!(label(CheckConclusionState::Neutral), "Pass");
    assert_eq!(label(CheckConclusionState::Skipped), "Skip");
    assert_eq!(label(CheckConclusionState::Stale), "Fail");
    assert_eq!(label(CheckConclusionState::StartupFailure), "Fail");
    assert_eq!(label(CheckConclusionState::Success), " OK ");
    assert_eq!(label(CheckConclusionState::TimedOut), "Fail");
}

#[test]
fn a_final_status_is_labelled_by_its_state() {
    assert_eq!(context("b", StatusContextState::Success).short_status_str(), " OK ");
    assert_eq!(context("b", StatusContextState::Failure).short_status_str(), "Fail");
    assert_eq!(context("b", StatusContextState::Error).short_status_str(), "Fail");
}

#[test]
fn string_and_str_labels_agree() {
    let checks = vec![
        run("a", CheckStatusState::Completed, Some(CheckConclusionState::Skipped)),
        run("a", CheckStatusState::Waiting, None),
        context("b", StatusContextState::Failure),
    ];
    for check in checks.iter() {
        assert_eq!(check.short_status_string(), check.short_status_str());
        assert_eq!(check.short_status_str(), check.short_label().as_str());
    }
}

#[test]
fn coloured_label_takes_the_colour_of_the_outcome() {
    colored::control::set_override(true);
    let palette = Palette::detect();
    let shown = |c: CheckConclusionState| {
        run("a", CheckStatusState::Completed, Some(c)).short_status_string_with_color(&palette)
    };
    assert_eq!(shown(CheckConclusionState::Success), "\u{1b}[32m OK \u{1b}[0m");
    assert_eq!(shown(CheckConclusionState::Neutral), "\u{1b}[37mPass\u{1b}[0m");
    assert_eq!(shown(CheckConclusionState::Failure), "\u{1b}[31mFail\u{1b}[0m");
    assert_eq!(shown(CheckConclusionState::Skipped), "\u{1b}[33mSkip\u{1b}[0m");
    assert_eq!(
        run("a", CheckStatusState::Queued, None).short_status_string_with_color(&palette),
        " .. "
    );
}

#[test]
fn coloured_label_is_the_label_without_colour() {
    let palette = Palette::plain();
    let check = context("b", StatusContextState::Error);
    assert_eq!(check.short_status_string_with_color(&palette), "Fail");
}

#[test]
fn a_check_is_written_as_label_and_name() {
    assert_eq!(
        run("build", CheckStatusState::Completed, Some(CheckConclusionState::Success)).to_string(),
        "[ OK ] build"
    );
    assert_eq!(context("ci/lint", StatusContextState::Pending).to_string(), "[ .. ] ci/lint");
}

#[test]
fn a_file_is_written_with_a_sign_for_each_line() {
    let file = File { path: "src/main.rs".to_string(), additions: 3, deletions: 2 };
    assert_eq!(file.to_string(), "src/main.rs +++--");
}

#[test]
fn a_file_without_changes_ends_in_a_space() {
    let file = File { path: "a".to_string(), additions: 0, deletions: 0 };
    assert_eq!(file.to_string(), "a ");
}
