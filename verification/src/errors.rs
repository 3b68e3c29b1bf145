//! The closed failure taxonomy of the tool.  Every step surfaces the first
//! failure it meets; nothing is retried.

use vstd::prelude::*;
use vstd::string::StringExecFns;

verus! {

/// Everything that can stop the pipeline, in the order the steps can meet
/// it.  `RemoteRejected` carries the response status and body so the caller
/// can report them.
#[derive(Debug)]
pub enum Failure {
    ConfigurationMissing,
    NotARepository,
    NothingStaged,
    ExecutionFailure,
    TransportFailure,
    RemoteRejected(u16, String),
    ResponseMalformed,
}

impl Failure {
    /// The single human-readable line printed for this failure.  For a
    /// remote rejection the line carries the whole response body.
    pub fn message(&self) -> (m: String)
        ensures
            match self {
                Failure::ConfigurationMissing => m@ == "No API key configured, please run `openai_rs --config`"@,
                Failure::NotARepository => m@ == "Current directory is not a git repository"@,
                Failure::NothingStaged => m@ == "No files staged for commit"@,
                Failure::ExecutionFailure => m@ == "Failed to execute git diff"@,
                Failure::TransportFailure => m@ == "Failed to reach the completions endpoint"@,
                Failure::RemoteRejected(_, body) => m@ == "Request failed: "@ + body@,
                Failure::ResponseMalformed => m@ == "Failed to parse commit message"@,
            },
    {
        match self {
            Failure::ConfigurationMissing => String::from_str(
                "No API key configured, please run `openai_rs --config`",
            ),
            Failure::NotARepository => String::from_str("Current directory is not a git repository"),
            Failure::NothingStaged => String::from_str("No files staged for commit"),
            Failure::ExecutionFailure => String::from_str("Failed to execute git diff"),
            Failure::TransportFailure => String::from_str("Failed to reach the completions endpoint"),
            Failure::RemoteRejected(_, body) => {
                let mut m = String::from_str("Request failed: ");
                m.append(body.as_str());
                m
            },
            Failure::ResponseMalformed => String::from_str("Failed to parse commit message"),
        }
    }
}

} // verus!
