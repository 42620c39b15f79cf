//! The bot's version: the git branch and revision it was built from.

use vstd::prelude::*;
use vstd::string::StringExecFns;

verus! {

/// The branch and short revision the bot was built from.
#[derive(Clone, Debug)]
pub struct VersionInfo {
    pub branch: String,
    pub revision: String,
}

impl VersionInfo {
    /// "branch/revision".
    pub fn to_string(&self) -> (s: String)
        ensures
            s@ == self.branch@ + "/"@ + self.revision@,
    {
        let mut s = self.branch.clone();
        s.append("/");
        s.append(self.revision.as_str());
        s
    }
}

/// What looking up the repository's HEAD gave.
pub enum HeadLookup {
    /// HEAD is a reference with this short name.
    Named(String),
    /// HEAD is a reference without a short name.
    Unnamed,
    /// The branch is unborn or HEAD was not found.
    Missing,
    /// Another error, with its debug rendering.
    Failed(String),
}

/// The branch label: the short name of HEAD, or the error message.
pub fn show_branch(head: HeadLookup) -> (s: String)
    requires
        head is Named || head is Failed,
    ensures
        head matches HeadLookup::Named(name) ==> s@ == name@,
        head matches HeadLookup::Failed(e) ==> s@ == "An error occured: "@ + e@,
{
    match head {
        HeadLookup::Named(name) => name,
        HeadLookup::Failed(e) => {
            let mut s = String::from_str("An error occured: ");
            s.append(e.as_str());
            s
        },
        _ => {
            assert(false);
            String::new()
        },
    }
}

} // verus!
