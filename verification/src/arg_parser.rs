//! The command-line options the tool understands.  Parsing the process
//! arguments happens outside the library; the parsed values live here.

use vstd::prelude::*;

verus! {

/// The parsed command-line options.
pub struct Args {
    /// The arguments to pass to the commit command.
    pub commit_args: Option<Vec<String>>,
    /// Whether to (re)write the stored credential first.
    pub config: bool,
}

impl Args {
    pub fn new(commit_args: Option<Vec<String>>, config: bool) -> (r: Self)
        ensures
            r.commit_args.deep_view() == commit_args.deep_view(),
            r.config == config,
    {
        Args { commit_args, config }
    }

    pub fn get_commit_args(&self) -> (r: &Option<Vec<String>>)
        ensures
            r.deep_view() == self.commit_args.deep_view(),
    {
        &self.commit_args
    }
}

} // verus!
