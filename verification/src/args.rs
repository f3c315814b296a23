//! What the command line asks for.

use vstd::prelude::*;
use vstd::string::*;

verus! {

/// The options of one run.
#[derive(Debug, Clone, PartialEq, Eq)]
pub struct Args {
    /// Also open the pull request in a browser.
    pub open: bool,
    /// Create the pull request ready for review, not as a draft.
    pub no_draft: bool,
    /// Do not create the pull request if it does not exist yet.
    pub no_create: bool,
    /// Watch the output.
    pub watch: u16,
    /// The branch to watch in place of the current one.
    pub branch: Option<String>,
    /// When to colour the output.
    pub color: String,
}

impl Args {
    /// The branch to watch: the one that was asked for, else the current one,
    /// if there is one.
    pub fn branch_name(&self, current: Option<String>) -> (branch: Option<String>)
        ensures
            self.branch is Some ==> branch is Some && branch->0@ == self.branch->0@,
            self.branch is None ==> branch == current,
    {
        match &self.branch {
            Some(branch) => Some(branch.clone()),
            None => current,
        }
    }
}

} // verus!
