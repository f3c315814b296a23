//! The pull request as the hosting service reports it: the record, its files
//! and commits, and the checks that run on its head commit.

use vstd::prelude::*;
use vstd::string::*;
use crate::palette::{Palette, ShortLabel};
use crate::text::{repeat, repeated};

verus! {

/// Where a check run stands.
#[derive(Debug, Clone, Copy, PartialEq, Eq, Structural)]
pub enum CheckStatusState {
    /// The run has been completed.
    Completed,
    /// The run is in progress.
    InProgress,
    /// The run is pending.
    Pending,
    /// The run has been queued.
    Queued,
    /// The run has been requested.
    Requested,
    /// The run is waiting.
    Waiting,
}

/// How a completed check run ended.
#[derive(Debug, Clone, Copy, PartialEq, Eq, Structural)]
pub enum CheckConclusionState {
    /// The run requires action.
    ActionRequired,
    /// The run has been cancelled.
    Cancelled,
    /// The run has failed.
    Failure,
    /// The run was neutral.
    Neutral,
    /// The run was skipped.
    Skipped,
    /// The run was marked stale by the hosting service.
    Stale,
    /// The run has failed at startup.
    StartupFailure,
    /// The run has succeeded.
    Success,
    /// The run has timed out.
    TimedOut,
}

/// The state that an outside service reports for a commit.
#[derive(Debug, Clone, Copy, PartialEq, Eq, Structural)]
pub enum StatusContextState {
    /// The status is errored.
    Error,
    /// The status is expected.
    Expected,
    /// The status is failing.
    Failure,
    /// The status is pending.
    Pending,
    /// The status is successful.
    Success,
}

/// Someone on the hosting service.
#[derive(Debug, Clone, PartialEq, Eq)]
pub struct User {
    pub login: String,
    pub email: Option<String>,
    pub id: Option<String>,
    pub name: Option<String>,
}

/// One commit of the pull request.
#[derive(Debug, Clone, PartialEq, Eq)]
pub struct Commit {
    pub authored_date: String,
    pub authors: Vec<User>,
    pub committed_date: String,
    pub message_body: String,
    pub message_headline: String,
    pub oid: String,
}

/// One changed file of the pull request.
#[derive(Debug, Clone, PartialEq, Eq)]
pub struct File {
    pub path: String,
    pub additions: usize,
    pub deletions: usize,
}

/// A repository by its id and name.
#[derive(Debug, Clone, PartialEq, Eq)]
pub struct Repo {
    pub id: String,
    pub name: String,
}

/// A commit by its id.
#[derive(Debug, Clone, PartialEq, Eq)]
pub struct Node {
    pub oid: String,
}

/// What one person said of the pull request as a whole.
#[derive(Debug, Clone, PartialEq, Eq)]
pub struct Review {
    pub id: String,
    pub author: User,
    pub author_association: String,
    pub body: String,
    pub submitted_at: String,
    pub includes_created_edit: bool,
    pub reaction_groups: Vec<String>,
    pub state: String,
}

/// One check on the head commit: a run of the hosting service's own, or a
/// status that an outside service reported.
#[derive(Debug, Clone, PartialEq, Eq)]
pub enum StatusCheck {
    CheckRun {
        completed_at: String,
        conclusion: Option<CheckConclusionState>,
        details_url: String,
        name: String,
        started_at: String,
        status: CheckStatusState,
        workflow_name: String,
    },
    StatusContext {
        context: String,
        started_at: String,
        state: StatusContextState,
        target_url: String,
    },
}

/// A label on the pull request.
#[derive(Debug, Clone, PartialEq, Eq)]
pub struct Label {
    pub id: String,
    pub name: String,
    pub description: String,
    pub color: String,
}

/// A comment on the pull request.
#[derive(Debug, Clone, PartialEq, Eq)]
pub struct Comment {
    pub id: String,
    pub author: User,
    pub author_association: String,
    pub body: String,
    pub created_at: String,
    pub includes_created_edit: bool,
    pub is_minimized: bool,
    pub minimized_reason: String,
    pub reaction_groups: Vec<String>,
    pub url: String,
    pub viewer_did_author: bool,
}

/// One snapshot of a pull request's status.
#[derive(Debug, Clone, PartialEq, Eq)]
pub struct PrInfo {
    /// When this snapshot was fetched, in milliseconds since the epoch.
    pub last_fetched: u64,
    pub additions: u32,
    pub assignees: Vec<String>,
    pub author: User,
    pub base_ref_name: String,
    pub body: String,
    pub changed_files: u32,
    pub closed: bool,
    pub closed_at: Option<String>,
    pub comments: Vec<Comment>,
    pub commits: Vec<Commit>,
    pub created_at: String,
    pub deletions: u32,
    pub files: Vec<File>,
    pub head_ref_name: String,
    pub head_ref_oid: String,
    pub head_repository: Repo,
    pub head_repository_owner: User,
    pub id: String,
    pub is_cross_repository: bool,
    pub is_draft: bool,
    pub labels: Vec<Label>,
    pub latest_reviews: Vec<Review>,
    pub maintainer_can_modify: bool,
    pub merge_commit: Option<Node>,
    pub merge_state_status: String,
    pub mergeable: String,
    pub merged_at: Option<String>,
    pub merged_by: Option<User>,
    pub milestone: Option<String>,
    pub number: u32,
    pub potential_merge_commit: Option<Node>,
    pub project_cards: Vec<String>,
    pub reaction_groups: Vec<String>,
    pub review_decision: String,
    pub review_requests: Vec<String>,
    pub reviews: Vec<Review>,
    pub state: String,
    pub status_check_rollup: Vec<StatusCheck>,
    pub title: String,
    pub updated_at: String,
    pub url: String,
}

/// A changed file as the dashboard reads it.
pub ghost struct FileView {
    pub path: Seq<char>,
    pub additions: nat,
    pub deletions: nat,
}

/// A check as the dashboard reads it.
pub ghost struct CheckView {
    pub name: Seq<char>,
    /// The outcome is final.
    pub terminal: bool,
    pub label: ShortLabel,
}

impl View for File {
    type V = FileView;

    open spec fn view(&self) -> FileView {
        FileView {
            path: self.path@,
            additions: self.additions as nat,
            deletions: self.deletions as nat,
        }
    }
}

impl FileView {
    /// The file on one line: its path, a space, a `+` for each added line and
    /// a `-` for each deleted one.
    pub open spec fn line(self) -> Seq<char> {
        self.path + " "@ + repeated("+"@, self.additions) + repeated("-"@, self.deletions)
    }
}

impl File {
    /// The file on one line: its path, a space, a `+` for each added line and
    /// a `-` for each deleted one.
    pub fn to_string(&self) -> (line: String)
        ensures
            line@ == self@.line(),
    {
        let mut line = self.path.clone();
        line.append(" ");
        let added = repeat("+", self.additions);
        line.append(added.as_str());
        let deleted = repeat("-", self.deletions);
        line.append(deleted.as_str());
        assert(line@ =~= self@.line());
        line
    }
}

impl CheckStatusState {
    /// A run is complete once it has been completed.
    pub open spec fn complete(self) -> bool {
        self == CheckStatusState::Completed
    }

    /// Whether the run has been completed.
    pub fn is_complete(&self) -> (done: bool)
        ensures
            done == self.complete(),
    {
        match self {
            CheckStatusState::Completed => true,
            _ => false,
        }
    }
}

impl CheckConclusionState {
    /// The label of a completed run with this conclusion.
    pub open spec fn label(self) -> ShortLabel {
        match self {
            CheckConclusionState::ActionRequired => ShortLabel::Fail,
            CheckConclusionState::Cancelled => ShortLabel::Pass,
            CheckConclusionState::Failure => ShortLabel::Fail,
            CheckConclusionState::Neutral => ShortLabel::Pass,
            CheckConclusionState::Skipped => ShortLabel::Skip,
            CheckConclusionState::Stale => ShortLabel::Fail,
            CheckConclusionState::StartupFailure => ShortLabel::Fail,
            CheckConclusionState::Success => ShortLabel::Okay,
            CheckConclusionState::TimedOut => ShortLabel::Fail,
        }
    }

    /// The label of a completed run with this conclusion.
    pub fn short_label(&self) -> (label: ShortLabel)
        ensures
            label == self.label(),
    {
        match self {
            CheckConclusionState::ActionRequired => ShortLabel::Fail,
            CheckConclusionState::Cancelled => ShortLabel::Pass,
            CheckConclusionState::Failure => ShortLabel::Fail,
            CheckConclusionState::Neutral => ShortLabel::Pass,
            CheckConclusionState::Skipped => ShortLabel::Skip,
            CheckConclusionState::Stale => ShortLabel::Fail,
            CheckConclusionState::StartupFailure => ShortLabel::Fail,
            CheckConclusionState::Success => ShortLabel::Okay,
            CheckConclusionState::TimedOut => ShortLabel::Fail,
        }
    }
}

impl StatusContextState {
    /// A status is complete once it is successful, failing or errored.
    pub open spec fn complete(self) -> bool {
        self == StatusContextState::Success || self == StatusContextState::Failure || self
            == StatusContextState::Error
    }

    /// The label of a status in this state.
    pub open spec fn label(self) -> ShortLabel {
        match self {
            StatusContextState::Error => ShortLabel::Fail,
            StatusContextState::Failure => ShortLabel::Fail,
            StatusContextState::Success => ShortLabel::Okay,
            StatusContextState::Expected => ShortLabel::Waiting,
            StatusContextState::Pending => ShortLabel::Waiting,
        }
    }

    /// Whether the status is successful, failing or errored.
    pub fn is_complete(&self) -> (done: bool)
        ensures
            done == self.complete(),
    {
        match self {
            StatusContextState::Success => true,
            StatusContextState::Failure => true,
            StatusContextState::Error => true,
            _ => false,
        }
    }

    /// The label of a status in this state.
    pub fn short_label(&self) -> (label: ShortLabel)
        ensures
            label == self.label(),
    {
        match self {
            StatusContextState::Error => ShortLabel::Fail,
            StatusContextState::Failure => ShortLabel::Fail,
            StatusContextState::Success => ShortLabel::Okay,
            StatusContextState::Expected => ShortLabel::Waiting,
            StatusContextState::Pending => ShortLabel::Waiting,
        }
    }
}

impl View for StatusCheck {
    type V = CheckView;

    open spec fn view(&self) -> CheckView {
        CheckView { name: self.spec_name(), terminal: self.terminal(), label: self.label() }
    }
}

impl CheckView {
    /// The check on one line: its label in square brackets, a space, its name.
    pub open spec fn line(self) -> Seq<char> {
        "["@ + self.label.text() + "] "@ + self.name
    }
}

impl StatusCheck {
    /// The name of a run, or the context of a reported status.
    pub open spec fn spec_name(&self) -> Seq<char> {
        match self {
            StatusCheck::CheckRun { name, .. } => name@,
            StatusCheck::StatusContext { context, .. } => context@,
        }
    }

    /// The outcome is final: the run is completed, or the reported status is
    /// successful, failing or errored.
    pub open spec fn terminal(&self) -> bool {
        match self {
            StatusCheck::CheckRun { status, .. } => status.complete(),
            StatusCheck::StatusContext { state, .. } => state.complete(),
        }
    }

    /// The short label: that of the conclusion or state once the outcome is
    /// final, and the waiting one before that or where a completed run has no
    /// conclusion.
    pub open spec fn label(&self) -> ShortLabel {
        if !self.terminal() {
            ShortLabel::Waiting
        } else {
            match self {
                StatusCheck::CheckRun { conclusion, .. } => match conclusion {
                    None => ShortLabel::Waiting,
                    Some(conclusion) => conclusion.label(),
                },
                StatusCheck::StatusContext { state, .. } => state.label(),
            }
        }
    }

    /// The name of a run, or the context of a reported status.
    pub fn name(&self) -> (name: String)
        ensures
            name@ == self.spec_name(),
    {
        match self {
            StatusCheck::CheckRun { name, .. } => name.clone(),
            StatusCheck::StatusContext { context, .. } => context.clone(),
        }
    }

    /// Whether the outcome is final.
    pub fn is_complete(&self) -> (done: bool)
        ensures
            done == self.terminal(),
    {
        match self {
            StatusCheck::CheckRun { status, .. } => status.is_complete(),
            StatusCheck::StatusContext { state, .. } => state.is_complete(),
        }
    }

    /// The short label of the check.
    pub fn short_label(&self) -> (label: ShortLabel)
        ensures
            label == self.label(),
    {
        if !self.is_complete() {
            return ShortLabel::Waiting;
        }
        match self {
            StatusCheck::CheckRun { conclusion, .. } => match conclusion {
                None => ShortLabel::Waiting,
                Some(conclusion) => conclusion.short_label(),
            },
            StatusCheck::StatusContext { state, .. } => state.short_label(),
        }
    }

    /// The four characters of the short label, as a string of its own.
    pub fn short_status_string(&self) -> (label: String)
        ensures
            label@ == self.label().text(),
    {
        String::from_str(self.short_status_str())
    }

    /// The four characters of the short label.
    pub fn short_status_str(&self) -> (label: &str)
        ensures
            label@ == self.label().text(),
    {
        self.short_label().as_str()
    }

    /// The short label in its colour, as `palette` has it.
    pub fn short_status_string_with_color(&self, palette: &Palette) -> (label: String)
        ensures
            label@ == palette@.label(self.label()),
    {
        palette.label(self.short_label())
    }

    /// The check on one line: its label in square brackets, a space, its name.
    pub fn to_string(&self) -> (line: String)
        ensures
            line@ == self@.line(),
    {
        let mut line = String::from_str("[");
        line.append(self.short_status_str());
        line.append("] ");
        let name = self.name();
        line.append(name.as_str());
        assert(line@ =~= self@.line());
        line
    }
}

} // verus!
