//! The staged-changes payload.  The subprocess that talks to version
//! control lives outside the library; its plain text output is classified
//! and modelled here.

use vstd::prelude::*;
use vstd::string::StrSliceExecFns;

use crate::errors::Failure;
use crate::strutil::spec_lines;
use crate::strutil::split_lines;

verus! {

/// The mathematical model of a diff payload: the staged paths in reported
/// order, and the raw unified diff text.
pub ghost struct DiffView {
    pub files: Seq<Seq<char>>,
    pub diff: Seq<char>,
}

/// The staged file list and diff text of one invocation.
pub struct GitDiff {
    files: Vec<String>,
    diff: String,
}

impl View for GitDiff {
    type V = DiffView;

    closed spec fn view(&self) -> DiffView {
        DiffView { files: self.files.deep_view(), diff: self.diff@ }
    }
}

impl GitDiff {
    /// Classifies the diff source's output: the staged paths are the lines
    /// of the listing, and an empty listing is the `NothingStaged` failure,
    /// never an empty success.
    pub fn new(files_listing: &str, diff: String) -> (r: Result<GitDiff, Failure>)
        ensures
            match r {
                Ok(g) => files_listing@.len() > 0 && g@.files == spec_lines(files_listing@)
                    && g@.diff == diff@,
                Err(f) => files_listing@.len() == 0 && f is NothingStaged,
            },
    {
        if files_listing.unicode_len() == 0 {
            Err(Failure::NothingStaged)
        } else {
            let files = split_lines(files_listing);
            Ok(GitDiff { files, diff })
        }
    }

    /// The raw unified diff text.
    pub fn get_diff(&self) -> (r: &String)
        ensures
            r@ == self@.diff,
    {
        &self.diff
    }

    /// The staged paths, in the order the diff source reported them.
    pub fn get_files(&self) -> (r: &Vec<String>)
        ensures
            r.deep_view() == self@.files,
    {
        &self.files
    }
}

} // verus!
