#![allow(dead_code)]

use git_pr::models::{
    CheckConclusionState, CheckStatusState, Commit, File, PrInfo, Repo, StatusCheck,
    StatusContextState, User,
};
use git_pr::palette::Palette;
use git_pr::rows::{build_rows, longest_file_path, Pb};

fn user(login: &str) -> User {
    User { login: login.to_string(), email: None, id: None, name: None }
}

fn commit(oid: &str) -> Commit {
    Commit {
        authored_date: String::new(),
        authors: vec![],
        committed_date: String::new(),
        message_body: String::new(),
        message_headline: String::new(),
        oid: oid.to_string(),
    }
}

fn file(path: &str, additions: usize, deletions: usize) -> File {
    File { path: path.to_string(), additions, deletions }
}

fn run(name: &str, status: CheckStatusState, conclusion: Option<CheckConclusionState>) -> StatusCheck {
    StatusCheck::CheckRun {
        completed_at: String::new(),
        conclusion,
        details_url: String::new(),
        name: name.to_string(),
        started_at: String::new(),
        status,
        workflow_name: String::new(),
    }
}

fn context(name: &str, state: StatusContextState) -> StatusCheck {
    StatusCheck::StatusContext {
        context: name.to_string(),
        started_at: String::new(),
        state,
        target_url: String::new(),
    }
}

fn record(files: Vec<File>, checks: Vec<StatusCheck>) -> PrInfo {
    PrInfo {
        last_fetched: 1_000,
        additions: 13,
        assignees: vec![],
        author: user("octocat"),
        base_ref_name: "main".to_string(),
        body: "Adds the thing.".to_string(),
        changed_files: 2,
        closed: false,
        closed_at: None,
        comments: vec![],
        commits: vec![commit("f3ed888"), commit("eb842b2")],
        created_at: "2022-12-16T19:43:15Z".to_string(),
        deletions: 1,
        files,
        head_ref_name: "feature".to_string(),
        head_ref_oid: "eb842b2".to_string(),
        head_repository: Repo { id: "R_1".to_string(), name: "thing".to_string() },
        head_repository_owner: user("octocat"),
        id: "PR_1".to_string(),
        is_cross_repository: false,
        is_draft: false,
        labels: vec![],
        latest_reviews: vec![],
        maintainer_can_modify: false,
        merge_commit: None,
        merge_state_status: "CLEAN".to_string(),
        mergeable: "MERGEABLE".to_string(),
        merged_at: None,
        merged_by: None,
        milestone: None,
        number: 7,
        potential_merge_commit: None,
        project_cards: vec![],
        reaction_groups: vec![],
        review_decision: String::new(),
        review_requests: vec![],
        reviews: vec![],
        state: "OPEN".to_string(),
        status_check_rollup: checks,
        title: "Add the thing".to_string(),
        updated_at: "2022-12-17T08:00:00Z".to_string(),
        url: "https://example.com/pull/7".to_string(),
    }
}

fn keys(rows: &Vec<Pb>) -> Vec<String> {
    rows.iter().map(|row| row.key.clone()).collect()
}

fn row<'a>(rows: &'a Vec<Pb>, key: &str) -> &'a Pb {
    rows.iter().find(|row| row.key == key).unwrap()
}

#[test]
fn new_row_says_nothing() {
    let pb = Pb::new("k");
    assert_eq!(pb.key, "k");
    assert_eq!(pb.prefix, "");
    assert_eq!(pb.message, "");
    assert_eq!(pb.template, "");
    assert_eq!(pb.tick_chars, "");
    assert_eq!(pb.indent, 0);
}

#[test]
fn new_with_pkey_labels_the_row_with_its_key() {
    let pb = Pb::new_with_pkey("state");
    assert_eq!(pb.key, "state");
    assert_eq!(pb.prefix, "state");
    assert_eq!(pb.message, "");
}

#[test]
fn new_with_pkey_and_message_sets_all_three() {
    let pb = Pb::new_with_pkey_and_message("state", "OPEN");
    assert_eq!(pb.key, "state");
    assert_eq!(pb.prefix, "state");
    assert_eq!(pb.message, "OPEN");
    assert_eq!(pb.template, "");
}

#[test]
fn with_methods_change_the_row_and_hand_it_out() {
    let mut pb = Pb::new("k");
    let a = pb.with_prefix("p");
    assert_eq!(a, pb);
    let b = pb.with_message("m");
    assert_eq!(b, pb);
    let c = pb.with_template("{msg}");
    assert_eq!(c, pb);
    let d = pb.with_tick_chars("-+");
    assert_eq!(d, pb);
    let e = pb.with_indent(3);
    assert_eq!(e, pb);
    assert_eq!(
        pb,
        Pb {
            key: "k".to_string(),
            prefix: "p".to_string(),
            message: "m".to_string(),
            template: "{msg}".to_string(),
            tick_chars: "-+".to_string(),
            indent: 3,
        }
    );
    assert_eq!(a.message, "");
}

#[test]
fn header_and_section_templates() {
    let palette = Palette::plain();
    let header = Pb::new_header("header", &palette);
    assert_eq!(header.prefix, "header");
    assert_eq!(header.template, "====> {prefix:.white.bold}{msg:.white.bold}");
    let section = Pb::new_section("files", &palette);
    assert_eq!(section.prefix, "files");
    assert_eq!(section.template, "----> {prefix:.white.bold}{msg:.white.bold}");
}

#[test]
fn header_template_carries_the_colour_of_the_mark() {
    colored::control::set_override(true);
    let palette = Palette::detect();
    let mut pb = Pb::new("k");
    let out = pb.as_header(&palette);
    assert_eq!(out.template, "\u{1b}[35m====>\u{1b}[0m {prefix:.white.bold}{msg:.white.bold}");
    let out = pb.as_section(&palette);
    assert_eq!(out.template, "\u{1b}[35m---->\u{1b}[0m {prefix:.white.bold}{msg:.white.bold}");
    assert_eq!(pb, out);
}

#[test]
fn longest_path_of_two_files() {
    let files = vec![file("x.go", 0, 0), file("longer/path.go", 0, 0)];
    assert_eq!(longest_file_path(&files), "longer/path.go".len());
    assert_eq!(longest_file_path(&files), 14);
}

#[test]
fn longest_path_without_files_is_zero() {
    assert_eq!(longest_file_path(&vec![]), 0);
}

#[test]
fn longest_path_counts_bytes() {
    let files = vec![file("\u{e9}t\u{e9}.rs", 0, 0), file("abcdef", 0, 0)];
    assert_eq!(longest_file_path(&files), 8);
}

#[test]
fn longest_path_with_a_tie() {
    let files = vec![file("ab", 0, 0), file("cd", 0, 0), file("e", 0, 0)];
    assert_eq!(longest_file_path(&files), 2);
}

#[test]
fn column_is_as_wide_as_the_longest_path() {
    let pr = record(vec![file("x.go", 1, 1), file("longer/path.go", 2, 2)], vec![]);
    let rows = build_rows(&pr, &Palette::plain());
    assert_eq!(row(&rows, "x.go").template, "  --> {prefix:14} | {msg}");
    assert_eq!(row(&rows, "longer/path.go").template, "  --> {prefix:14} | {msg}");
}

#[test]
fn rows_of_a_record_with_files_and_checks() {
    let pr = record(
        vec![file("a.go", 3, 1), file("bb.go", 10, 0)],
        vec![context("ci", StatusContextState::Pending)],
    );
    let rows = build_rows(&pr, &Palette::plain());
    assert_eq!(
        keys(&rows),
        vec![
            "header", "url", "body", "_body", "files", "a.go", "bb.go", "details", "state",
            "author", "createdAt", "updatedAt", "sha", "url", "checks", "ci",
        ]
    );
    assert_eq!(
        rows[0],
        Pb {
            key: "header".to_string(),
            prefix: "#7 - Add the thing".to_string(),
            message: String::new(),
            template: "====> {prefix:.white.bold}{msg:.white.bold}".to_string(),
            tick_chars: String::new(),
            indent: 0,
        }
    );
    assert_eq!(
        rows[1],
        Pb {
            key: "url".to_string(),
            prefix: "url".to_string(),
            message: "https://example.com/pull/7".to_string(),
            template: "> {msg}".to_string(),
            tick_chars: String::new(),
            indent: 4,
        }
    );
    assert_eq!(rows[2], Pb::new_section("body", &Palette::plain()));
    assert_eq!(
        rows[3],
        Pb {
            key: "_body".to_string(),
            prefix: String::new(),
            message: "Adds the thing.".to_string(),
            template: String::new(),
            tick_chars: String::new(),
            indent: 0,
        }
    );
    assert_eq!(rows[4], Pb::new_section("files", &Palette::plain()));
    assert_eq!(
        rows[5],
        Pb {
            key: "a.go".to_string(),
            prefix: "a.go".to_string(),
            message: "3+1-".to_string(),
            template: "  --> {prefix:5} | {msg}".to_string(),
            tick_chars: String::new(),
            indent: 0,
        }
    );
    assert_eq!(rows[6].message, "10+0-");
    assert_eq!(rows[6].template, rows[5].template);
    assert_eq!(rows[7], Pb::new_section("details", &Palette::plain()));
    assert_eq!(rows[8], Pb::new_with_pkey_and_message("state", "OPEN"));
    assert_eq!(rows[9], Pb::new_with_pkey_and_message("author", "octocat"));
    assert_eq!(rows[10], Pb::new_with_pkey_and_message("createdAt", "2022-12-16T19:43:15Z"));
    assert_eq!(rows[11], Pb::new_with_pkey_and_message("updatedAt", "2022-12-17T08:00:00Z"));
    assert_eq!(rows[12], Pb::new_with_pkey_and_message("sha", "eb842b2"));
    assert_eq!(rows[13], Pb::new_with_pkey_and_message("url", "https://example.com/pull/7"));
    assert_eq!(rows[14], Pb::new_section("checks", &Palette::plain()));
    assert_eq!(
        rows[15],
        Pb {
            key: "ci".to_string(),
            prefix: "ci".to_string(),
            message: "[ .. ]".to_string(),
            template: "{msg} {spinner} {prefix:.bold.dim}".to_string(),
            tick_chars: String::new(),
            indent: 0,
        }
    );
}

#[test]
fn a_terminal_check_has_no_spinner() {
    let pr = record(
        vec![],
        vec![
            run("build", CheckStatusState::Completed, Some(CheckConclusionState::Failure)),
            context("ci", StatusContextState::Success),
        ],
    );
    let rows = build_rows(&pr, &Palette::plain());
    assert_eq!(row(&rows, "build").message, "[Fail]");
    assert_eq!(row(&rows, "build").template, "{msg} {prefix:.bold.dim}");
    assert_eq!(row(&rows, "ci").message, "[ OK ]");
    assert_eq!(row(&rows, "ci").template, "{msg} {prefix:.bold.dim}");
}

#[test]
fn no_files_no_files_section() {
    let pr = record(vec![], vec![context("ci", StatusContextState::Pending)]);
    let rows = build_rows(&pr, &Palette::plain());
    assert_eq!(
        keys(&rows),
        vec![
            "header", "url", "body", "_body", "details", "state", "author", "createdAt",
            "updatedAt", "sha", "url", "checks", "ci",
        ]
    );
}

#[test]
fn no_checks_no_checks_section() {
    let pr = record(vec![file("a", 1, 1)], vec![]);
    let rows = build_rows(&pr, &Palette::plain());
    assert_eq!(
        keys(&rows),
        vec![
            "header", "url", "body", "_body", "files", "a", "details", "state", "author",
            "createdAt", "updatedAt", "sha", "url",
        ]
    );
}

#[test]
fn neither_files_nor_checks_leaves_eleven_rows() {
    let rows = build_rows(&record(vec![], vec![]), &Palette::plain());
    assert_eq!(rows.len(), 11);
}

#[test]
fn sha_row_is_empty_without_commits() {
    let mut pr = record(vec![], vec![]);
    pr.commits.clear();
    let rows = build_rows(&pr, &Palette::plain());
    assert_eq!(row(&rows, "sha").message, "");
    assert_eq!(row(&rows, "sha").prefix, "sha");
}

#[test]
fn same_record_gives_the_same_rows() {
    let pr = record(
        vec![file("a.go", 3, 1), file("bb.go", 10, 0)],
        vec![context("ci", StatusContextState::Pending)],
    );
    let other = record(vec![file("zzz", 0, 0)], vec![]);
    let palette = Palette::plain();
    let first = build_rows(&pr, &palette);
    let between = build_rows(&other, &palette);
    let second = build_rows(&pr.clone(), &palette);
    assert_eq!(first, second);
    assert_ne!(first, between);
}

#[test]
fn rows_do_not_depend_on_when_the_record_was_fetched() {
    let pr = record(vec![file("a.go", 3, 1)], vec![]);
    let mut later = pr.clone();
    later.last_fetched = 99_999;
    let palette = Palette::plain();
    assert_eq!(build_rows(&pr, &palette), build_rows(&later, &palette));
}

#[test]
fn coloured_rows_carry_the_escape_sequences() {
    colored::control::set_override(true);
    let palette = Palette::detect();
    let pr = record(
        vec![file("a.go", 3, 1)],
        vec![run("build", CheckStatusState::Completed, Some(CheckConclusionState::Skipped))],
    );
    let rows = build_rows(&pr, &palette);
    assert_eq!(row(&rows, "a.go").message, "3\u{1b}[32m+\u{1b}[0m1\u{1b}[31m-\u{1b}[0m");
    assert_eq!(
        row(&rows, "a.go").template,
        "  \u{1b}[35m-->\u{1b}[0m {prefix:4} \u{1b}[35m|\u{1b}[0m {msg}"
    );
    assert_eq!(row(&rows, "build").message, "[\u{1b}[33mSkip\u{1b}[0m]");
}
