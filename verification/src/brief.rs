//! The pull request in brief: the fields that the hosting service's tool
//! prints on one line, each between two separators.

use vstd::prelude::*;
use vstd::string::*;

verus! {

/// What stands before, between and behind the fields of the line.
pub const SEPARATOR: &'static str = "@@@@@@";

/// The format that is handed to the hosting service's tool: one placeholder
/// for each field, each between two separators.
pub const LINE_FORMAT: &'static str =
    "@@@@@@%I@@@@@@%i@@@@@@%U@@@@@@%S@@@@@@%pS@@@@@@%sC@@@@@@%pC@@@@@@%t@@@@@@%b@@@@@@%B@@@@@@%sB@@@@@@%H@@@@@@%sH@@@@@@%sm@@@@@@%au@@@@@@%as@@@@@@%rs@@@@@@%Mn@@@@@@%Mt@@@@@@%NC@@@@@@%Nc@@@@@@%cD@@@@@@%cr@@@@@@%ct@@@@@@%cI@@@@@@%uD@@@@@@%ur@@@@@@%ut@@@@@@%uI@@@@@@%mD@@@@@@%mr@@@@@@%mt@@@@@@%mI@@@@@@";

/// The pattern that the line is read with: one named group for each field,
/// each between two separators.
pub const LINE_PATTERN: &'static str =
    "@@@@@@(?P<number>.*)@@@@@@(?P<number_hash>.*)@@@@@@(?P<url>.*)@@@@@@(?P<state>.*)@@@@@@(?P<state_long>.*)@@@@@@(?P<pr_color>.*)@@@@@@(?P<pr_color_long>.*)@@@@@@(?P<title>.*)@@@@@@(?P<body>.*)@@@@@@(?P<base>.*)@@@@@@(?P<base_sha>.*)@@@@@@(?P<head>.*)@@@@@@(?P<head_sha>.*)@@@@@@(?P<merge_commit>.*)@@@@@@(?P<author>.*)@@@@@@(?P<assignees>.*)@@@@@@(?P<review_requests>.*)@@@@@@(?P<milestone_number>.*)@@@@@@(?P<milestone_title>.*)@@@@@@(?P<milestone_comments>.*)@@@@@@(?P<milestone_comments_pretty>.*)@@@@@@(?P<created_date>.*)@@@@@@(?P<created_rel>.*)@@@@@@(?P<created_ts>.*)@@@@@@(?P<created>.*)@@@@@@(?P<updated_date>.*)@@@@@@(?P<updated_rel>.*)@@@@@@(?P<updated_ts>.*)@@@@@@(?P<updated>.*)@@@@@@(?P<merged_date>.*)@@@@@@(?P<merged_rel>.*)@@@@@@(?P<merged_ts>.*)@@@@@@(?P<merged>.*)@@@@@@";

/// The pull request as one line of the listing tells it.
#[derive(Debug, Clone, PartialEq, Eq)]
pub struct PrInfo {
    /// pull request number
    pub number: String,
    /// pull request number prefixed with "#"
    pub number_hash: String,
    /// the URL of this pull request
    pub url: String,
    /// state ("open" or "closed")
    pub state: String,
    /// pull request state ("open", "draft", "merged", or "closed")
    pub state_long: String,
    /// set color to red or green, depending on state
    pub pr_color: String,
    /// set color according to pull request state
    pub pr_color_long: String,
    /// title
    pub title: String,
    /// body
    pub body: String,
    /// base branch
    pub base: String,
    /// base commit SHA
    pub base_sha: String,
    /// head branch
    pub head: String,
    /// head commit SHA
    pub head_sha: String,
    /// merge commit SHA
    pub merge_commit: String,
    /// login name of author
    pub author: String,
    /// comma-separated list of assignees
    pub assignees: String,
    /// comma-separated list of the people who were asked for a review
    pub review_requests: String,
    /// milestone number
    pub milestone_number: String,
    /// milestone title
    pub milestone_title: String,
    /// number of comments
    pub milestone_comments: String,
    /// number of comments wrapped in parentheses, or blank string if zero.
    pub milestone_comments_pretty: String,
    /// created date-only (no time of day)
    pub created_date: String,
    /// created date, relative
    pub created_rel: String,
    /// created date, UNIX timestamp
    pub created_ts: String,
    /// created date, ISO 8601 format
    pub created: String,
    /// updated date-only (no time of day)
    pub updated_date: String,
    /// updated date, relative
    pub updated_rel: String,
    /// updated date, UNIX timestamp
    pub updated_ts: String,
    /// updated date, ISO 8601 format
    pub updated: String,
    /// merged date-only (no time of day)
    pub merged_date: String,
    /// merged date, relative
    pub merged_rel: String,
    /// merged date, UNIX timestamp
    pub merged_ts: String,
    /// merged date, ISO 8601 format
    pub merged: String,
}

/// The names of the fields, in the order of the line.
pub open spec fn field_names() -> Seq<Seq<char>> {
    seq![
        "number"@,
        "number_hash"@,
        "url"@,
        "state"@,
        "state_long"@,
        "pr_color"@,
        "pr_color_long"@,
        "title"@,
        "body"@,
        "base"@,
        "base_sha"@,
        "head"@,
        "head_sha"@,
        "merge_commit"@,
        "author"@,
        "assignees"@,
        "review_requests"@,
        "milestone_number"@,
        "milestone_title"@,
        "milestone_comments"@,
        "milestone_comments_pretty"@,
        "created_date"@,
        "created_rel"@,
        "created_ts"@,
        "created"@,
        "updated_date"@,
        "updated_rel"@,
        "updated_ts"@,
        "updated"@,
        "merged_date"@,
        "merged_rel"@,
        "merged_ts"@,
        "merged"@,
    ]
}

impl View for PrInfo {
    type V = Seq<Seq<char>>;

    /// The values of the fields, in the order of the line.
    open spec fn view(&self) -> Seq<Seq<char>> {
        seq![
            self.number@,
            self.number_hash@,
            self.url@,
            self.state@,
            self.state_long@,
            self.pr_color@,
            self.pr_color_long@,
            self.title@,
            self.body@,
            self.base@,
            self.base_sha@,
            self.head@,
            self.head_sha@,
            self.merge_commit@,
            self.author@,
            self.assignees@,
            self.review_requests@,
            self.milestone_number@,
            self.milestone_title@,
            self.milestone_comments@,
            self.milestone_comments_pretty@,
            self.created_date@,
            self.created_rel@,
            self.created_ts@,
            self.created@,
            self.updated_date@,
            self.updated_rel@,
            self.updated_ts@,
            self.updated@,
            self.merged_date@,
            self.merged_rel@,
            self.merged_ts@,
            self.merged@,
        ]
    }
}

/// The named groups of a match, each with its name and what it matched.
pub open spec fn group_views(groups: Seq<(String, String)>) -> Seq<(Seq<char>, Seq<char>)> {
    groups.map_values(|group: (String, String)| (group.0@, group.1@))
}

/// What the first group with `name` matched, if there is such a group.
pub open spec fn lookup(groups: Seq<(Seq<char>, Seq<char>)>, name: Seq<char>) -> Option<Seq<char>>
    decreases groups.len(),
{
    if groups.len() == 0 {
        None
    } else if groups[0].0 == name {
        Some(groups[0].1)
    } else {
        lookup(groups.drop_first(), name)
    }
}

/// Every field has a group.
pub open spec fn all_found(groups: Seq<(Seq<char>, Seq<char>)>) -> bool {
    forall|i: int| 0 <= i < field_names().len() ==> lookup(groups, #[trigger] field_names()[i]) is Some
}

/// The fields as the groups of a match give them: each field is what the
/// group of its name matched, and there is no record where a field has no
/// group.
pub open spec fn record_of(groups: Seq<(Seq<char>, Seq<char>)>) -> Option<Seq<Seq<char>>> {
    if all_found(groups) {
        Some(Seq::new(field_names().len(), |i: int| lookup(groups, field_names()[i])->0))
    } else {
        None
    }
}

/// What reading `input` with `pattern` gives: nothing where the pattern does
/// not compile or matches nowhere, else the named groups that took part in
/// the first match, in the order of their names, each with what it matched.
pub uninterp spec fn captured(pattern: Seq<char>, input: Seq<char>) -> Option<
    Seq<(Seq<char>, Seq<char>)>,
>;

/// The record that a line of the listing holds: none for an empty output,
/// else what its first match with the line's pattern gives.
pub open spec fn line_record(output: Seq<char>) -> Option<Seq<Seq<char>>> {
    if output.len() == 0 {
        None
    } else {
        match captured(LINE_PATTERN@, output) {
            Some(groups) => record_of(groups),
            None => None,
        }
    }
}

/// The command line that lists the pull request of `branch` on one line.
pub open spec fn line_command_text(branch: Seq<char>) -> Seq<char> {
    "gh pr list -f '"@ + LINE_FORMAT@ + "' -h '"@ + branch + "'"@
}

/// `recap::Regex::new` on `pattern`, then `recap::from_captures` with the
/// compiled pattern on `input`, read into a map from group name to matched
/// text. Believed, not proved: the two calls give the same groups for the
/// same pattern and input, which `captured` names; nothing is claimed about
/// which input matches or what a group holds.
#[verifier::external_body]
fn capture(pattern: &str, input: &str) -> (groups: Option<Vec<(String, String)>>)
    ensures
        match groups {
            Some(found) => captured(pattern@, input@) == Some(group_views(found@)),
            None => captured(pattern@, input@) is None,
        },
{
    let re = recap::Regex::new(pattern).ok()?;
    let found: std::collections::BTreeMap<String, String> = recap::from_captures(&re, input).ok()?;
    Some(found.into_iter().collect())
}

/// What the first group with `name` matched, if there is such a group.
pub fn find_group(groups: &Vec<(String, String)>, name: &str) -> (value: Option<String>)
    ensures
        match value {
            Some(text) => lookup(group_views(groups@), name@) == Some(text@),
            None => lookup(group_views(groups@), name@) is None,
        },
{
    let wanted = String::from_str(name);
    let ghost all = group_views(groups@);
    let mut i: usize = 0;
    assert(all.skip(0) =~= all);
    while i < groups.len()
        invariant
            i <= groups.len(),
            wanted@ == name@,
            all == group_views(groups@),
            lookup(all, name@) == lookup(all.skip(i as int), name@),
        decreases groups.len() - i,
    {
        let ghost rest = all.skip(i as int);
        assert(rest[0] == all[i as int]);
        assert(rest.drop_first() =~= all.skip(i + 1));
        if groups[i].0.eq(&wanted) {
            return Some(groups[i].1.clone());
        }
        i = i + 1;
    }
    assert(all.skip(i as int).len() == 0);
    None
}

impl PrInfo {
    /// The record whose fields are what the groups of their names matched;
    /// none where a field has no group.
    pub fn from_groups(groups: &Vec<(String, String)>) -> (record: Option<PrInfo>)
        ensures
            match record {
                Some(record) => record_of(group_views(groups@)) == Some(record@),
                None => record_of(group_views(groups@)) is None,
            },
    {
        let ghost all = group_views(groups@);
        let number = match find_group(groups, "number") {
            Some(text) => text,
            None => {
                assert(lookup(all, field_names()[0]) is None);
                return None;
            },
        };
        let number_hash = match find_group(groups, "number_hash") {
            Some(text) => text,
            None => {
                assert(lookup(all, field_names()[1]) is None);
                return None;
            },
        };
        let url = match find_group(groups, "url") {
            Some(text) => text,
            None => {
                assert(lookup(all, field_names()[2]) is None);
                return None;
            },
        };
        let state = match find_group(groups, "state") {
            Some(text) => text,
            None => {
                assert(lookup(all, field_names()[3]) is None);
                return None;
            },
        };
        let state_long = match find_group(groups, "state_long") {
            Some(text) => text,
            None => {
                assert(lookup(all, field_names()[4]) is None);
                return None;
            },
        };
        let pr_color = match find_group(groups, "pr_color") {
            Some(text) => text,
            None => {
                assert(lookup(all, field_names()[5]) is None);
                return None;
            },
        };
        let pr_color_long = match find_group(groups, "pr_color_long") {
            Some(text) => text,
            None => {
                assert(lookup(all, field_names()[6]) is None);
                return None;
            },
        };
        let title = match find_group(groups, "title") {
            Some(text) => text,
            None => {
                assert(lookup(all, field_names()[7]) is None);
                return None;
            },
        };
        let body = match find_group(groups, "body") {
            Some(text) => text,
            None => {
                assert(lookup(all, field_names()[8]) is None);
                return None;
            },
        };
        let base = match find_group(groups, "base") {
            Some(text) => text,
            None => {
                assert(lookup(all, field_names()[9]) is None);
                return None;
            },
        };
        let base_sha = match find_group(groups, "base_sha") {
            Some(text) => text,
            None => {
                assert(lookup(all, field_names()[10]) is None);
                return None;
            },
        };
        let head = match find_group(groups, "head") {
            Some(text) => text,
            None => {
                assert(lookup(all, field_names()[11]) is None);
                return None;
            },
        };
        let head_sha = match find_group(groups, "head_sha") {
            Some(text) => text,
            None => {
                assert(lookup(all, field_names()[12]) is None);
                return None;
            },
        };
        let merge_commit = match find_group(groups, "merge_commit") {
            Some(text) => text,
            None => {
                assert(lookup(all, field_names()[13]) is None);
                return None;
            },
        };
        let author = match find_group(groups, "author") {
            Some(text) => text,
            None => {
                assert(lookup(all, field_names()[14]) is None);
                return None;
            },
        };
        let assignees = match find_group(groups, "assignees") {
            Some(text) => text,
            None => {
                assert(lookup(all, field_names()[15]) is None);
                return None;
            },
        };
        let review_requests = match find_group(groups, "review_requests") {
            Some(text) => text,
            None => {
                assert(lookup(all, field_names()[16]) is None);
                return None;
            },
        };
        let milestone_number = match find_group(groups, "milestone_number") {
            Some(text) => text,
            None => {
                assert(lookup(all, field_names()[17]) is None);
                return None;
            },
        };
        let milestone_title = match find_group(groups, "milestone_title") {
            Some(text) => text,
            None => {
                assert(lookup(all, field_names()[18]) is None);
                return None;
            },
        };
        let milestone_comments = match find_group(groups, "milestone_comments") {
            Some(text) => text,
            None => {
                assert(lookup(all, field_names()[19]) is None);
                return None;
            },
        };
        let milestone_comments_pretty = match find_group(groups, "milestone_comments_pretty") {
            Some(text) => text,
            None => {
                assert(lookup(all, field_names()[20]) is None);
                return None;
            },
        };
        let created_date = match find_group(groups, "created_date") {
            Some(text) => text,
            None => {
                assert(lookup(all, field_names()[21]) is None);
                return None;
            },
        };
        let created_rel = match find_group(groups, "created_rel") {
            Some(text) => text,
            None => {
                assert(lookup(all, field_names()[22]) is None);
                return None;
            },
        };
        let created_ts = match find_group(groups, "created_ts") {
            Some(text) => text,
            None => {
                assert(lookup(all, field_names()[23]) is None);
                return None;
            },
        };
        let created = match find_group(groups, "created") {
            Some(text) => text,
            None => {
                assert(lookup(all, field_names()[24]) is None);
                return None;
            },
        };
        let updated_date = match find_group(groups, "updated_date") {
            Some(text) => text,
            None => {
                assert(lookup(all, field_names()[25]) is None);
                return None;
            },
        };
        let updated_rel = match find_group(groups, "updated_rel") {
            Some(text) => text,
            None => {
                assert(lookup(all, field_names()[26]) is None);
                return None;
            },
        };
        let updated_ts = match find_group(groups, "updated_ts") {
            Some(text) => text,
            None => {
                assert(lookup(all, field_names()[27]) is None);
                return None;
            },
        };
        let updated = match find_group(groups, "updated") {
            Some(text) => text,
            None => {
                assert(lookup(all, field_names()[28]) is None);
                return None;
            },
        };
        let merged_date = match find_group(groups, "merged_date") {
            Some(text) => text,
            None => {
                assert(lookup(all, field_names()[29]) is None);
                return None;
            },
        };
        let merged_rel = match find_group(groups, "merged_rel") {
            Some(text) => text,
            None => {
                assert(lookup(all, field_names()[30]) is None);
                return None;
            },
        };
        let merged_ts = match find_group(groups, "merged_ts") {
            Some(text) => text,
            None => {
                assert(lookup(all, field_names()[31]) is None);
                return None;
            },
        };
        let merged = match find_group(groups, "merged") {
            Some(text) => text,
            None => {
                assert(lookup(all, field_names()[32]) is None);
                return None;
            },
        };
        let record = PrInfo {
            number,
            number_hash,
            url,
            state,
            state_long,
            pr_color,
            pr_color_long,
            title,
            body,
            base,
            base_sha,
            head,
            head_sha,
            merge_commit,
            author,
            assignees,
            review_requests,
            milestone_number,
            milestone_title,
            milestone_comments,
            milestone_comments_pretty,
            created_date,
            created_rel,
            created_ts,
            created,
            updated_date,
            updated_rel,
            updated_ts,
            updated,
            merged_date,
            merged_rel,
            merged_ts,
            merged,
        };
        proof {
            assert forall|i: int| 0 <= i < field_names().len() implies lookup(
                all,
                #[trigger] field_names()[i],
            ) is Some && lookup(all, field_names()[i])->0 == record@[i] by {
                assert(field_names()[0] == "number"@);
                assert(field_names()[1] == "number_hash"@);
                assert(field_names()[2] == "url"@);
                assert(field_names()[3] == "state"@);
                assert(field_names()[4] == "state_long"@);
                assert(field_names()[5] == "pr_color"@);
                assert(field_names()[6] == "pr_color_long"@);
                assert(field_names()[7] == "title"@);
                assert(field_names()[8] == "body"@);
                assert(field_names()[9] == "base"@);
                assert(field_names()[10] == "base_sha"@);
                assert(field_names()[11] == "head"@);
                assert(field_names()[12] == "head_sha"@);
                assert(field_names()[13] == "merge_commit"@);
                assert(field_names()[14] == "author"@);
                assert(field_names()[15] == "assignees"@);
                assert(field_names()[16] == "review_requests"@);
                assert(field_names()[17] == "milestone_number"@);
                assert(field_names()[18] == "milestone_title"@);
                assert(field_names()[19] == "milestone_comments"@);
                assert(field_names()[20] == "milestone_comments_pretty"@);
                assert(field_names()[21] == "created_date"@);
                assert(field_names()[22] == "created_rel"@);
                assert(field_names()[23] == "created_ts"@);
                assert(field_names()[24] == "created"@);
                assert(field_names()[25] == "updated_date"@);
                assert(field_names()[26] == "updated_rel"@);
                assert(field_names()[27] == "updated_ts"@);
                assert(field_names()[28] == "updated"@);
                assert(field_names()[29] == "merged_date"@);
                assert(field_names()[30] == "merged_rel"@);
                assert(field_names()[31] == "merged_ts"@);
                assert(field_names()[32] == "merged"@);
            }
            assert(record@ =~= Seq::new(
                field_names().len(),
                |i: int| lookup(all, field_names()[i])->0,
            ));
        }
        Some(record)
    }

    /// The text of the summary.
    pub open spec fn summary(&self) -> Seq<char> {
        "====> #"@ + self.number_hash@ + " \u{2014} "@ + self.title@ + "\n> "@ + self.url@
            + "\n----> Summary\n"@ + self.body@ + "\n----> Details\nauthor        --> "@
            + self.author@ + "\ncreated at    --> "@ + self.created_rel@
            + "\nupdated at    --> "@ + self.updated_rel@ + "\nstate         --> "@ + self.state@
            + "\nsha           --> "@ + self.head_sha@ + "\nurl           --> "@ + self.url@
            + "\n"@
    }

    /// The record as a page of text: title and address, the body, and the
    /// details under their heading.
    pub fn to_string(&self) -> (page: String)
        ensures
            page@ == self.summary(),
    {
        let mut page = String::from_str("====> #");
        page.append(self.number_hash.as_str());
        page.append(" \u{2014} ");
        page.append(self.title.as_str());
        page.append("\n> ");
        page.append(self.url.as_str());
        page.append("\n----> Summary\n");
        page.append(self.body.as_str());
        page.append("\n----> Details\nauthor        --> ");
        page.append(self.author.as_str());
        page.append("\ncreated at    --> ");
        page.append(self.created_rel.as_str());
        page.append("\nupdated at    --> ");
        page.append(self.updated_rel.as_str());
        page.append("\nstate         --> ");
        page.append(self.state.as_str());
        page.append("\nsha           --> ");
        page.append(self.head_sha.as_str());
        page.append("\nurl           --> ");
        page.append(self.url.as_str());
        page.append("\n");
        page
    }
}

/// The command line that lists the pull request of `branch` on one line.
pub fn line_command(branch: &str) -> (command: String)
    ensures
        command@ == line_command_text(branch@),
{
    let mut command = String::from_str("gh pr list -f '");
    command.append(LINE_FORMAT);
    command.append("' -h '");
    command.append(branch);
    command.append("'");
    command
}

/// Reads the record from what the listing printed: none for an empty output
/// or one that the line's pattern matches nowhere, else the fields of the
/// first match.
pub fn fetch_pr_info(output: &str) -> (record: Option<PrInfo>)
    ensures
        match record {
            Some(record) => line_record(output@) == Some(record@),
            None => line_record(output@) is None,
        },
{
    if output.is_empty() {
        return None;
    }
    match capture(LINE_PATTERN, output) {
        Some(groups) => PrInfo::from_groups(&groups),
        None => None,
    }
}

} // verus!
