//! What the dashboard reads from a pull request's record: its head commit,
//! whether its checks are over, when it is due for a refresh, and how a fresh
//! record takes its place.

use vstd::prelude::*;
use vstd::string::*;
use crate::models::{CheckView, File, FileView, PrInfo, StatusCheck};
use crate::text::{decimal, decimal_string, join, joined, texts};

verus! {

/// The least time between two fetches of one record, in milliseconds, unless
/// the caller sets another.
pub const MIN_REFRESH_MILLIS: u64 = 15000;

/// A pull request's record as the dashboard reads it.
pub ghost struct PrView {
    pub number: nat,
    pub title: Seq<char>,
    pub url: Seq<char>,
    pub body: Seq<char>,
    pub state: Seq<char>,
    pub author: Seq<char>,
    pub created_at: Seq<char>,
    pub updated_at: Seq<char>,
    /// The id of the last commit, empty where there is none.
    pub sha: Seq<char>,
    pub files: Seq<FileView>,
    pub checks: Seq<CheckView>,
}

/// The files as the dashboard reads them.
pub open spec fn file_views(files: Seq<File>) -> Seq<FileView> {
    files.map_values(|f: File| f@)
}

/// The checks as the dashboard reads them.
pub open spec fn check_views(checks: Seq<StatusCheck>) -> Seq<CheckView> {
    checks.map_values(|c: StatusCheck| c@)
}

impl View for PrInfo {
    type V = PrView;

    open spec fn view(&self) -> PrView {
        PrView {
            number: self.number as nat,
            title: self.title@,
            url: self.url@,
            body: self.body@,
            state: self.state@,
            author: self.author.login@,
            created_at: self.created_at@,
            updated_at: self.updated_at@,
            sha: self.spec_sha(),
            files: file_views(self.files@),
            checks: check_views(self.status_check_rollup@),
        }
    }
}

impl PrView {
    /// Every check has its final outcome. A record without checks has nothing
    /// to wait for and counts as complete.
    pub open spec fn complete(self) -> bool {
        forall|i: int| 0 <= i < self.checks.len() ==> (#[trigger] self.checks[i]).terminal
    }

    /// One line for each file.
    pub open spec fn file_lines(self) -> Seq<Seq<char>> {
        self.files.map_values(|f: FileView| f.line())
    }

    /// One line for each check.
    pub open spec fn check_lines(self) -> Seq<Seq<char>> {
        self.checks.map_values(|c: CheckView| c.line())
    }

    /// The opening of the summary: title line, body and address.
    pub open spec fn summary_head(self) -> Seq<char> {
        "====> #"@ + decimal(self.number) + " \u{2014} "@ + self.title + "\n"@ + self.body + "\n> "@
            + self.url + "\n"@
    }

    /// The files of the summary, under their heading.
    pub open spec fn summary_files(self) -> Seq<char> {
        "----> Summary\n"@ + joined(self.file_lines(), "\n"@) + "\n"@
    }

    /// The details of the summary, under their heading.
    pub open spec fn summary_details(self) -> Seq<char> {
        "----> Details\nauthor        --> "@ + self.author + "\ncreated at    --> "@
            + self.created_at + "\nupdated at    --> "@ + self.updated_at
            + "\nstate         --> "@ + self.state + "\nsha           --> "@ + self.sha
            + "\nurl           --> "@ + self.url + "\n"@
    }

    /// The checks of the summary, under their heading.
    pub open spec fn summary_checks(self) -> Seq<char> {
        "----> Checks\n"@ + joined(self.check_lines(), "\n"@) + "\n"@
    }

    /// The record as a page of text.
    pub open spec fn summary(self) -> Seq<char> {
        self.summary_head() + self.summary_files() + self.summary_details()
            + self.summary_checks()
    }
}

/// The lines of `vec`, one below the other.
pub fn map_to_string(vec: Vec<String>) -> (page: String)
    ensures
        page@ == joined(texts(vec@), "\n"@),
{
    join(&vec, "\n")
}

/// The fields that are asked of the hosting service's command-line tool.
pub const JSON_FIELDS: &'static str =
    "additions,assignees,author,baseRefName,body,changedFiles,closed,closedAt,comments,commits,createdAt,deletions,files,headRefName,headRefOid,headRepository,headRepositoryOwner,id,isCrossRepository,isDraft,labels,latestReviews,maintainerCanModify,mergeCommit,mergeStateStatus,mergeable,mergedAt,mergedBy,milestone,number,potentialMergeCommit,projectCards,reactionGroups,reviewDecision,reviewRequests,reviews,state,statusCheckRollup,title,updatedAt,url";

/// The command line that lists the pull request of `branch` with all its
/// fields.
pub open spec fn list_command_text(branch: Seq<char>) -> Seq<char> {
    "gh pr list --json "@ + JSON_FIELDS@ + " -H "@ + branch
}

/// The command line that lists the pull request of `branch` with all its
/// fields.
pub fn list_command(branch: &str) -> (command: String)
    ensures
        command@ == list_command_text(branch@),
{
    let mut command = String::from_str("gh pr list --json ");
    command.append(JSON_FIELDS);
    command.append(" -H ");
    command.append(branch);
    command
}

impl PrInfo {
    /// The id of the last commit, empty where there is none.
    pub open spec fn spec_sha(&self) -> Seq<char> {
        if self.commits@.len() == 0 {
            Seq::empty()
        } else {
            self.commits@.last().oid@
        }
    }

    /// A refresh is due once at least `min_interval` milliseconds have passed
    /// since the record was fetched.
    pub open spec fn due(&self, now: u64, min_interval: u64) -> bool {
        now - self.last_fetched >= min_interval
    }

    /// The id of the last commit, empty where there is none.
    pub fn sha(&self) -> (sha: String)
        ensures
            sha@ == self.spec_sha(),
    {
        let n = self.commits.len();
        if n == 0 {
            String::new()
        } else {
            self.commits[n - 1].oid.clone()
        }
    }

    /// Whether every check has its final outcome. A record without checks is
    /// complete.
    pub fn is_complete(&self) -> (done: bool)
        ensures
            done == self@.complete(),
    {
        let mut i: usize = 0;
        while i < self.status_check_rollup.len()
            invariant
                i <= self.status_check_rollup.len(),
                forall|j: int| 0 <= j < i ==> (#[trigger] self@.checks[j]).terminal,
            decreases self.status_check_rollup.len() - i,
        {
            if !self.status_check_rollup[i].is_complete() {
                assert(!self@.checks[i as int].terminal);
                return false;
            }
            i = i + 1;
        }
        true
    }

    /// Whether the record is due for a refresh at `now`: not before
    /// `min_interval` milliseconds have passed since it was fetched.
    pub fn refresh_due(&self, now: u64, min_interval: u64) -> (due: bool)
        ensures
            due == self.due(now, min_interval),
    {
        now >= self.last_fetched && now - self.last_fetched >= min_interval
    }

    /// The record after a refresh that ended at `now`: the fetched record in
    /// place of this one, or this one where the fetch failed; either way
    /// fetched at `now`, and never earlier than this one was.
    pub open spec fn refreshed_with(self, fetched: Option<PrInfo>, now: u64) -> PrInfo {
        let stamp = if now > self.last_fetched {
            now
        } else {
            self.last_fetched
        };
        match fetched {
            Some(fresh) => PrInfo { last_fetched: stamp, ..fresh },
            None => PrInfo { last_fetched: stamp, ..self },
        }
    }

    /// Takes in the outcome of a refresh that ended at `now`. A fetched record
    /// replaces this one field by field; after a failed fetch this one stays.
    /// Either way the record counts as fetched at `now`, and never earlier
    /// than it did before.
    pub fn update(&mut self, fetched: Option<PrInfo>, now: u64)
        ensures
            *final(self) == old(self).refreshed_with(fetched, now),
            final(self).last_fetched >= old(self).last_fetched,
            final(self).last_fetched >= now,
    {
        let stamp = if now > self.last_fetched {
            now
        } else {
            self.last_fetched
        };
        match fetched {
            Some(fresh) => {
                *self = fresh;
            },
            None => {},
        }
        self.last_fetched = stamp;
    }

    fn file_lines(&self) -> (lines: Vec<String>)
        ensures
            texts(lines@) == self@.file_lines(),
    {
        let mut lines: Vec<String> = Vec::new();
        let mut i: usize = 0;
        while i < self.files.len()
            invariant
                i <= self.files.len(),
                lines@.len() == i,
                forall|j: int| 0 <= j < i ==> (#[trigger] lines@[j])@ == self.files@[j]@.line(),
            decreases self.files.len() - i,
        {
            lines.push(self.files[i].to_string());
            i = i + 1;
        }
        assert(texts(lines@) =~= self@.file_lines());
        lines
    }

    fn check_lines(&self) -> (lines: Vec<String>)
        ensures
            texts(lines@) == self@.check_lines(),
    {
        let mut lines: Vec<String> = Vec::new();
        let mut i: usize = 0;
        while i < self.status_check_rollup.len()
            invariant
                i <= self.status_check_rollup.len(),
                lines@.len() == i,
                forall|j: int|
                    0 <= j < i ==> (#[trigger] lines@[j])@ == self.status_check_rollup@[j]@.line(),
            decreases self.status_check_rollup.len() - i,
        {
            lines.push(self.status_check_rollup[i].to_string());
            i = i + 1;
        }
        assert(texts(lines@) =~= self@.check_lines());
        lines
    }

    fn summary_head(&self) -> (part: String)
        ensures
            part@ == self@.summary_head(),
    {
        let mut part = String::from_str("====> #");
        let number = decimal_string(self.number as u64);
        part.append(number.as_str());
        part.append(" \u{2014} ");
        part.append(self.title.as_str());
        part.append("\n");
        part.append(self.body.as_str());
        part.append("\n> ");
        part.append(self.url.as_str());
        part.append("\n");
        part
    }

    fn summary_details(&self) -> (part: String)
        ensures
            part@ == self@.summary_details(),
    {
        let mut part = String::from_str("----> Details\nauthor        --> ");
        part.append(self.author.login.as_str());
        part.append("\ncreated at    --> ");
        part.append(self.created_at.as_str());
        part.append("\nupdated at    --> ");
        part.append(self.updated_at.as_str());
        part.append("\nstate         --> ");
        part.append(self.state.as_str());
        part.append("\nsha           --> ");
        let sha = self.sha();
        part.append(sha.as_str());
        part.append("\nurl           --> ");
        part.append(self.url.as_str());
        part.append("\n");
        part
    }

    /// The record as a page of text: title, body and address, then the files,
    /// the details and the checks, each under its heading.
    pub fn to_string(&self) -> (page: String)
        ensures
            page@ == self@.summary(),
    {
        let mut page = self.summary_head();
        page.append("----> Summary\n");
        let files = map_to_string(self.file_lines());
        page.append(files.as_str());
        page.append("\n");
        assert(page@ =~= self@.summary_head() + self@.summary_files());
        let details = self.summary_details();
        page.append(details.as_str());
        page.append("----> Checks\n");
        let checks = map_to_string(self.check_lines());
        page.append(checks.as_str());
        page.append("\n");
        assert(page@ =~= self@.summary());
        page
    }
}

} // verus!
