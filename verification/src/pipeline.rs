//! The orchestration of one invocation: a linear state machine with no
//! cycles and no retries.  Every outside effect — the repository check, the
//! diff subprocess, the network call — happens between steps; each step
//! takes the plain outcome and decides the next state.  Any failure moves
//! the machine to the terminal `Failed` state, out of which no step leads.

use vstd::prelude::*;
use vstd::string::StrSliceExecFns;
use vstd::string::StringExecFns;

use crate::completion::CompletionBody;
use crate::completion::ReqView;
use crate::completion::Tenths;
use crate::errors::Failure;
use crate::git::GitDiff;
use crate::openai::decode_response;
use crate::response::extract_message;
use crate::response::json_shape;
use crate::response::shape_of;
use crate::response::spec_extract;
use crate::strutil::spec_take_at_most;
use crate::strutil::truncate_chars;

verus! {

/// A rendered prompt is cut to this many characters before it is sent:
/// a bounded request is preferred over full diff fidelity.
pub const PROMPT_MAX_LENGTH: usize = 8000;

/// The instruction template that precedes the diff in the prompt.
pub open spec fn prompt_template() -> Seq<char> {
    "Write an insightful but concise commit message, in a complete sentence, in present tense, for the following diff, with no preface: "@
}

/// The rendered prompt for a diff: the template, the raw diff, and the
/// whole cut to the ceiling when it runs over.
pub open spec fn spec_prompt(diff: Seq<char>) -> Seq<char> {
    spec_take_at_most(prompt_template() + diff, PROMPT_MAX_LENGTH as int)
}

/// Renders the prompt for a diff.  The flag reports that the ceiling cut
/// the prompt, so the caller can warn that the result may be less accurate;
/// a prompt over the ceiling comes back with exactly `PROMPT_MAX_LENGTH`
/// characters.
pub fn render_prompt(diff: &str) -> (r: (String, bool))
    ensures
        r.0@ == spec_prompt(diff@),
        r.1 == ((prompt_template() + diff@).len() > PROMPT_MAX_LENGTH),
        r.1 ==> r.0@.len() == PROMPT_MAX_LENGTH,
{
    let mut p = String::from_str(
        "Write an insightful but concise commit message, in a complete sentence, in present tense, for the following diff, with no preface: ",
    );
    p.append(diff);
    let len = p.as_str().unicode_len();
    if len > PROMPT_MAX_LENGTH {
        let cut = truncate_chars(p.as_str(), PROMPT_MAX_LENGTH);
        (cut, true)
    } else {
        (p, false)
    }
}

/// The fixed tuning the tool sends: the `text-davinci-003` model, the given
/// prompt as the single prompt entry, temperature 0.7, top_p 1.0, both
/// penalties 0.0, 200 tokens at most, no streaming, one choice.
pub open spec fn commit_request(prompt: Seq<char>) -> ReqView {
    ReqView {
        model: "text-davinci-003"@,
        prompt: Some(seq![prompt]),
        suffix: None,
        max_tokens: Some(200u16),
        temperature: Some(7int),
        top_p: Some(10int),
        n: Some(1u16),
        stream: Some(false),
        logprobs: None,
        echo: None,
        stop: None,
        presence_penalty: Some(0int),
        frequency_penalty: Some(0int),
        best_of: None,
        logit_bias: None,
        user: None,
    }
}

/// Builds the request the tool sends for a rendered prompt.
pub fn build_commit_request(prompt: String) -> (r: CompletionBody)
    ensures
        r@ == commit_request(prompt@),
{
    let ghost p: Seq<char> = prompt@;
    let mut items: Vec<String> = Vec::new();
    items.push(prompt);
    proof {
        assert(items.deep_view() =~= seq![p]);
    }
    let body = CompletionBody::builder(String::from_str("text-davinci-003")).prompt(
        items,
    ).temperature(Tenths::new(7)).top_p(Tenths::new(10)).frequency_penalty(
        Tenths::new(0),
    ).presence_penalty(Tenths::new(0)).max_tokens(200).stream(false).n(1).build();
    proof {
        assert(body@ =~= commit_request(p));
    }
    body
}

/// Where the machine stands; `Failed` is terminal.
#[derive(Clone, Copy, PartialEq, Eq, Structural, Debug)]
pub enum Phase {
    NotStarted,
    RepoVerified,
    DiffFetched,
    PromptBuilt,
    RequestSent,
    ResponseParsed,
    Done,
    Failed,
}

/// One invocation's state.  The driver performs the outside effects and
/// hands each outcome to the next step; it may read every field, and the
/// steps' preconditions say in which order they apply.
pub struct Pipeline {
    pub phase: Phase,
    pub failure: Option<Failure>,
    pub diff: Option<GitDiff>,
    pub prompt: Option<String>,
    pub truncated: bool,
    pub response: Option<serde_json::Value>,
    pub message: Option<String>,
}

impl Pipeline {
    /// The states are consistent with what has been gathered so far.
    pub open spec fn wf(self) -> bool {
        &&& (self.phase is Failed <==> self.failure is Some)
        &&& (self.phase is DiffFetched ==> self.diff is Some)
        &&& (self.phase is PromptBuilt ==> self.prompt is Some)
        &&& (self.phase is ResponseParsed ==> self.response is Some)
        &&& (self.phase is Done ==> self.message is Some)
    }

    pub fn new() -> (r: Self)
        ensures
            r.phase == Phase::NotStarted,
            r.wf(),
    {
        Pipeline {
            phase: Phase::NotStarted,
            failure: None,
            diff: None,
            prompt: None,
            truncated: false,
            response: None,
            message: None,
        }
    }

    /// Step 1: the driver reports whether the working directory is inside a
    /// repository work tree; anything else fails fast.
    pub fn verify_repo(&mut self, inside_work_tree: bool)
        requires
            old(self).phase == Phase::NotStarted,
            old(self).wf(),
        ensures
            final(self).wf(),
            inside_work_tree ==> final(self).phase == Phase::RepoVerified,
            !inside_work_tree ==> final(self).phase == Phase::Failed && (final(self).failure
                matches Some(f) && f is NotARepository),
    {
        if inside_work_tree {
            self.phase = Phase::RepoVerified;
        } else {
            self.phase = Phase::Failed;
            self.failure = Some(Failure::NotARepository);
        }
    }

    /// Step 2: the driver hands over the diff source's outcome.  A payload
    /// arrives only through `GitDiff::new`, which already rules zero staged
    /// files out; a failure — nothing staged included — ends the run here,
    /// before any request exists to send.
    pub fn accept_diff(&mut self, outcome: Result<GitDiff, Failure>)
        requires
            old(self).phase == Phase::RepoVerified,
            old(self).wf(),
        ensures
            final(self).wf(),
            match outcome {
                Ok(g) => final(self).phase == Phase::DiffFetched && (final(self).diff matches Some(
                    d,
                ) && d@ == g@),
                Err(f) => final(self).phase == Phase::Failed && final(self).failure == Some(f),
            },
    {
        match outcome {
            Ok(g) => {
                self.diff = Some(g);
                self.phase = Phase::DiffFetched;
            },
            Err(f) => {
                self.failure = Some(f);
                self.phase = Phase::Failed;
            },
        }
    }

    /// Step 3 and 4: renders the prompt from the fetched diff and applies
    /// the truncation policy; `truncated` tells the driver to warn.
    pub fn build_prompt(&mut self)
        requires
            old(self).phase == Phase::DiffFetched,
            old(self).wf(),
        ensures
            final(self).wf(),
            final(self).phase == Phase::PromptBuilt,
            (final(self).prompt matches Some(p) && p@ == spec_prompt(
                old(self).diff->Some_0@.diff,
            )),
            final(self).truncated == ((prompt_template() + old(self).diff->Some_0@.diff).len()
                > PROMPT_MAX_LENGTH),
    {
        let (p, cut) = match &self.diff {
            Some(d) => render_prompt(d.get_diff().as_str()),
            None => {
                proof {
                    assert(false);
                }
                (String::new(), false)
            },
        };
        self.prompt = Some(p);
        self.truncated = cut;
        self.phase = Phase::PromptBuilt;
    }

    /// Step 5: populates the request with the prompt and the fixed tuning;
    /// the machine now waits for the network outcome.  This is the only
    /// step that yields a request, and it is open only from `PromptBuilt`.
    pub fn take_request(&mut self) -> (r: CompletionBody)
        requires
            old(self).phase == Phase::PromptBuilt,
            old(self).wf(),
        ensures
            final(self).wf(),
            final(self).phase == Phase::RequestSent,
            r@ == commit_request(old(self).prompt->Some_0@),
    {
        let prompt = match &self.prompt {
            Some(p) => p.clone(),
            None => {
                proof {
                    assert(false);
                }
                String::new()
            },
        };
        self.phase = Phase::RequestSent;
        build_commit_request(prompt)
    }

    /// What `accept_response` leaves behind when a status and body arrived.
    pub open spec fn response_accepted(self, status: u16, body: String) -> bool {
        if !(200 <= status < 300) {
            self.phase == Phase::Failed && (match self.failure {
                Some(Failure::RemoteRejected(st, b)) => st == status && b@ == body@,
                _ => false,
            })
        } else {
            match json_shape(body@) {
                Some(sh) => self.phase == Phase::ResponseParsed && (match self.response {
                    Some(v) => shape_of(v) == sh,
                    None => false,
                }),
                None => self.phase == Phase::Failed && (self.failure matches Some(f)
                    && f is ResponseMalformed),
            }
        }
    }

    /// Step 6: the driver hands over the network outcome: `None` when the
    /// transport failed, else the status and full body.  Non-2xx statuses
    /// and undecodable bodies end the run.
    pub fn accept_response(&mut self, outcome: Option<(u16, String)>)
        requires
            old(self).phase == Phase::RequestSent,
            old(self).wf(),
        ensures
            final(self).wf(),
            match outcome {
                None => final(self).phase == Phase::Failed && (final(self).failure matches Some(f)
                    && f is TransportFailure),
                Some((status, body)) => final(self).response_accepted(status, body),
            },
    {
        match outcome {
            None => {
                self.failure = Some(Failure::TransportFailure);
                self.phase = Phase::Failed;
            },
            Some((status, body)) => {
                match decode_response(status, body) {
                    Ok(v) => {
                        self.response = Some(v);
                        self.phase = Phase::ResponseParsed;
                    },
                    Err(f) => {
                        self.failure = Some(f);
                        self.phase = Phase::Failed;
                    },
                }
            },
        }
    }

    /// Step 7: extracts `choices[0].text` from the parsed response, trims
    /// it, and finishes; a response of any other shape ends the run.
    pub fn extract(&mut self)
        requires
            old(self).phase == Phase::ResponseParsed,
            old(self).wf(),
        ensures
            final(self).wf(),
            match spec_extract(shape_of(old(self).response->Some_0)) {
                Some(t) => final(self).phase == Phase::Done && (final(self).message matches Some(m)
                    && m@ == t),
                None => final(self).phase == Phase::Failed && (final(self).failure matches Some(f)
                    && f is ResponseMalformed),
            },
    {
        let outcome = match &self.response {
            Some(v) => extract_message(v),
            None => {
                proof {
                    assert(false);
                }
                Err(Failure::ResponseMalformed)
            },
        };
        match outcome {
            Ok(m) => {
                self.message = Some(m);
                self.phase = Phase::Done;
            },
            Err(f) => {
                self.failure = Some(f);
                self.phase = Phase::Failed;
            },
        }
    }
}

/// Nothing staged means no request: a diff listing with no staged files is
/// classified as the `NothingStaged` failure, the machine accepting it
/// lands in the terminal `Failed` state, and only `take_request` — open
/// solely from `PromptBuilt` — ever yields a request to send.
pub proof fn lemma_nothing_staged_fails_before_send(pre: Pipeline, post: Pipeline, f: Failure)
    requires
        pre.phase == Phase::RepoVerified,
        pre.wf(),
        f is NothingStaged,
        post == (Pipeline {
            phase: Phase::Failed,
            failure: Some(f),
            ..pre
        }),
    ensures
        post.wf(),
        post.phase != Phase::PromptBuilt,
        post.phase != Phase::RequestSent,
{
}

} // verus!
