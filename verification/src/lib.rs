//! Generates a commit message for the staged changes of a repository by
//! sending the staged diff to a hosted text-completion endpoint.
//!
//! The crate holds the verified core: the sparse completion-request model
//! and its wire form, the response decoding and message extraction, and the
//! orchestration state machine.  The surrounding binary performs the actual
//! subprocess and network calls and feeds their plain results in.

pub mod arg_parser;
pub mod completion;
pub mod configs;
pub mod git;
pub mod openai;
pub mod pipeline;
pub mod errors;
pub mod response;
pub mod strutil;
