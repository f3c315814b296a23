//! The command lines that are handed to the hosting service's tool, and the
//! pieces of text they are made from.

use vstd::prelude::*;
use vstd::string::*;

verus! {

/// `pattern` stands in `text` at `at`.
pub open spec fn occurs_at(text: Seq<char>, pattern: Seq<char>, at: int) -> bool {
    &&& 0 <= at
    &&& at + pattern.len() <= text.len()
    &&& text.subrange(at, at + pattern.len()) == pattern
}

/// `pattern` stands in `text` at `at` and nowhere before.
pub open spec fn first_occurs_at(text: Seq<char>, pattern: Seq<char>, at: int) -> bool {
    &&& occurs_at(text, pattern, at)
    &&& forall|k: int| 0 <= k < at ==> !occurs_at(text, pattern, k)
}

/// `pattern` stands nowhere in `text`.
pub open spec fn absent(text: Seq<char>, pattern: Seq<char>) -> bool {
    forall|k: int| !occurs_at(text, pattern, k)
}

/// The command line that creates a pull request with `title` and `body`.
pub open spec fn create_command_text(title: Seq<char>, body: Seq<char>, draft: bool) -> Seq<char> {
    "gh pr create --title='"@ + title + "' --body='"@ + body + "' "@ + (if draft {
        "--draft"@
    } else {
        ""@
    }) + " "@
}

/// The characters of `text`, one by one.
fn chars_of(text: &str) -> (chars: Vec<char>)
    ensures
        chars@ == text@,
{
    let n = text.unicode_len();
    let mut chars: Vec<char> = Vec::new();
    let mut i: usize = 0;
    while i < n
        invariant
            n == text@.len(),
            i <= n,
            chars@ == text@.take(i as int),
        decreases n - i,
    {
        chars.push(text.get_char(i));
        i = i + 1;
        assert(chars@ =~= text@.take(i as int));
    }
    assert(text@.take(n as int) =~= text@);
    chars
}

/// Whether `pattern` stands in `text` at `at`.
fn matches_at(text: &Vec<char>, pattern: &Vec<char>, at: usize) -> (found: bool)
    requires
        at + pattern@.len() <= text@.len(),
    ensures
        found == occurs_at(text@, pattern@, at as int),
{
    let n = text.len();
    let mut k: usize = 0;
    while k < pattern.len()
        invariant
            at + pattern@.len() <= text@.len() == n,
            k <= pattern@.len(),
            forall|j: int| 0 <= j < k ==> text@[at + j] == pattern@[j],
        decreases pattern.len() - k,
    {
        if text[at + k] != pattern[k] {
            proof {
                let piece = text@.subrange(at as int, at + pattern@.len());
                assert(piece[k as int] == text@[at + k]);
            }
            return false;
        }
        k = k + 1;
    }
    assert(text@.subrange(at as int, at + pattern@.len()) =~= pattern@);
    true
}

/// The first place at which `pattern` stands in `text`, if there is one.
fn find(text: &Vec<char>, pattern: &Vec<char>) -> (place: Option<usize>)
    ensures
        match place {
            Some(at) => first_occurs_at(text@, pattern@, at as int),
            None => absent(text@, pattern@),
        },
{
    if pattern.len() > text.len() {
        return None;
    }
    let last = text.len() - pattern.len();
    let mut at: usize = 0;
    while at < last
        invariant
            last == text@.len() - pattern@.len(),
            at <= last,
            forall|k: int| 0 <= k < at ==> !occurs_at(text@, pattern@, k),
        decreases last - at,
    {
        if matches_at(text, pattern, at) {
            return Some(at);
        }
        at = at + 1;
    }
    if matches_at(text, pattern, at) {
        Some(at)
    } else {
        None
    }
}

/// Splits a commit message at its first line break into the headline and
/// what follows it. A message of one line has no such parts.
pub fn split_headline(message: &str) -> (parts: Option<(String, String)>)
    ensures
        match parts {
            Some((title, body)) => {
                &&& message@ == title@ + seq!['\n'] + body@
                &&& absent(title@, seq!['\n'])
            },
            None => absent(message@, seq!['\n']),
        },
{
    let chars = chars_of(message);
    let mut line_break: Vec<char> = Vec::new();
    line_break.push('\n');
    assert(line_break@ =~= seq!['\n']);
    match find(&chars, &line_break) {
        None => None,
        Some(at) => {
            let n = message.unicode_len();
            let title = String::from_str(message.substring_char(0, at));
            let body = String::from_str(message.substring_char(at + 1, n));
            proof {
                let pattern = seq!['\n'];
                let piece = message@.subrange(at as int, at + 1);
                assert(piece[0] == message@[at as int]);
                assert(message@ =~= title@ + pattern + body@);
                assert forall|k: int| !occurs_at(title@, pattern, k) by {
                    if occurs_at(title@, pattern, k) {
                        assert(title@.subrange(k, k + 1)[0] == title@[k]);
                        assert(message@.subrange(k, k + 1) =~= pattern);
                        assert(occurs_at(message@, pattern, k));
                    }
                }
            }
            Some((title, body))
        },
    }
}

/// The command line that creates a pull request with `title` and `body`, as
/// a draft where `draft` says so.
pub fn create_command(title: &str, body: &str, draft: bool) -> (command: String)
    ensures
        command@ == create_command_text(title@, body@, draft),
{
    let draft_arg = if draft {
        "--draft"
    } else {
        ""
    };
    let mut command = String::from_str("gh pr create --title='");
    command.append(title);
    command.append("' --body='");
    command.append(body);
    command.append("' ");
    command.append(draft_arg);
    command.append(" ");
    command
}

/// The name of the repository in the address of a remote: what stands between
/// the first `/` and the first `.git`. There is none where either is missing
/// or the `.git` comes first.
pub fn remote_name(url: &str) -> (name: Option<String>)
    ensures
        match name {
            Some(name) => exists|slash: int, suffix: int|
                {
                    &&& first_occurs_at(url@, "/"@, slash)
                    &&& first_occurs_at(url@, ".git"@, suffix)
                    &&& slash + 1 <= suffix
                    &&& name@ == url@.subrange(slash + 1, suffix)
                },
            None => {
                ||| absent(url@, "/"@)
                ||| absent(url@, ".git"@)
                ||| exists|slash: int, suffix: int|
                    {
                        &&& first_occurs_at(url@, "/"@, slash)
                        &&& first_occurs_at(url@, ".git"@, suffix)
                        &&& suffix <= slash
                    }
            },
        },
{
    let chars = chars_of(url);
    let slash_chars = chars_of("/");
    let suffix_chars = chars_of(".git");
    let slash = match find(&chars, &slash_chars) {
        None => {
            return None;
        },
        Some(at) => at,
    };
    let suffix = match find(&chars, &suffix_chars) {
        None => {
            return None;
        },
        Some(at) => at,
    };
    proof {
        reveal_strlit("/");
    }
    if slash < suffix {
        Some(String::from_str(url.substring_char(slash + 1, suffix)))
    } else {
        assert(first_occurs_at(url@, "/"@, slash as int));
        assert(first_occurs_at(url@, ".git"@, suffix as int));
        None
    }
}

} // verus!
