//! The completion-request model: a sparse configuration value whose wire
//! form holds exactly the keys that were explicitly set, plus the always
//! present `model` key.
//!
//! Real-valued tuning fields (temperature and the like) are carried as a
//! whole number of tenths, which covers every value the tool sends and keeps
//! the wire rendering exact.

use vstd::prelude::*;
use vstd::string::StringExecFns;

use crate::strutil::digit_char;
use crate::strutil::escape_into;
use crate::strutil::i64_dec;
use crate::strutil::spec_escape;
use crate::strutil::spec_idec;
use crate::strutil::spec_udec;
use crate::strutil::u64_dec;

verus! {

/// A real-valued tuning parameter, held as a signed count of tenths:
/// 7 tenths is rendered as `0.7`, -15 as `-1.5`.
#[derive(Clone, Copy, PartialEq, Eq, Structural, Debug)]
pub struct Tenths {
    pub tenths: i32,
}

impl View for Tenths {
    type V = int;

    open spec fn view(&self) -> int {
        self.tenths as int
    }
}

impl Tenths {
    /// The value that `tenths` tenths stand for: `Tenths::new(7)` is 0.7.
    pub fn new(tenths: i32) -> (r: Self)
        ensures
            r@ == tenths as int,
    {
        Tenths { tenths }
    }
}

/// The mathematical model of a completion request: the required model name
/// and one optional slot per tuning field, `None` while never set.
#[verifier::ext_equal]
pub ghost struct ReqView {
    pub model: Seq<char>,
    pub prompt: Option<Seq<Seq<char>>>,
    pub suffix: Option<Seq<char>>,
    pub max_tokens: Option<u16>,
    pub temperature: Option<int>,
    pub top_p: Option<int>,
    pub n: Option<u16>,
    pub stream: Option<bool>,
    pub logprobs: Option<u16>,
    pub echo: Option<bool>,
    pub stop: Option<Seq<Seq<char>>>,
    pub presence_penalty: Option<int>,
    pub frequency_penalty: Option<int>,
    pub best_of: Option<u16>,
    pub logit_bias: Option<Seq<(u32, i32)>>,
    pub user: Option<Seq<char>>,
}

/// A request with the given model and every optional field unset.
pub open spec fn empty_req(model: Seq<char>) -> ReqView {
    ReqView {
        model,
        prompt: None,
        suffix: None,
        max_tokens: None,
        temperature: None,
        top_p: None,
        n: None,
        stream: None,
        logprobs: None,
        echo: None,
        stop: None,
        presence_penalty: None,
        frequency_penalty: None,
        best_of: None,
        logit_bias: None,
        user: None,
    }
}

/// An immutable completion request; built with `CompletionBodyBuilder` or
/// grown from `new` with the fluent setters, then rendered by `wire_form`.
pub struct CompletionBody {
    model: String,
    prompt: Option<Vec<String>>,
    suffix: Option<String>,
    max_tokens: Option<u16>,
    temperature: Option<Tenths>,
    top_p: Option<Tenths>,
    n: Option<u16>,
    stream: Option<bool>,
    logprobs: Option<u16>,
    echo: Option<bool>,
    stop: Option<Vec<String>>,
    presence_penalty: Option<Tenths>,
    frequency_penalty: Option<Tenths>,
    best_of: Option<u16>,
    logit_bias: Option<Vec<(u32, i32)>>,
    user: Option<String>,
}

pub open spec fn view_strs(v: Option<Vec<String>>) -> Option<Seq<Seq<char>>> {
    match v {
        Some(x) => Some(x.deep_view()),
        None => None,
    }
}

pub open spec fn view_str(v: Option<String>) -> Option<Seq<char>> {
    match v {
        Some(x) => Some(x@),
        None => None,
    }
}

pub open spec fn view_tenths(v: Option<Tenths>) -> Option<int> {
    match v {
        Some(x) => Some(x@),
        None => None,
    }
}

pub open spec fn view_bias(v: Option<Vec<(u32, i32)>>) -> Option<Seq<(u32, i32)>> {
    match v {
        Some(x) => Some(x@),
        None => None,
    }
}

impl View for CompletionBody {
    type V = ReqView;

    closed spec fn view(&self) -> ReqView {
        ReqView {
            model: self.model@,
            prompt: view_strs(self.prompt),
            suffix: view_str(self.suffix),
            max_tokens: self.max_tokens,
            temperature: view_tenths(self.temperature),
            top_p: view_tenths(self.top_p),
            n: self.n,
            stream: self.stream,
            logprobs: self.logprobs,
            echo: self.echo,
            stop: view_strs(self.stop),
            presence_penalty: view_tenths(self.presence_penalty),
            frequency_penalty: view_tenths(self.frequency_penalty),
            best_of: self.best_of,
            logit_bias: view_bias(self.logit_bias),
            user: view_str(self.user),
        }
    }
}

impl Default for CompletionBody {
    /// The historical default request: the `davinci` model, nothing else set.
    fn default() -> (r: Self)
        ensures
            r@ == empty_req("davinci"@),
    {
        let r = CompletionBody {
            model: String::from_str("davinci"),
            prompt: None,
            suffix: None,
            max_tokens: None,
            temperature: None,
            top_p: None,
            n: None,
            stream: None,
            logprobs: None,
            echo: None,
            stop: None,
            presence_penalty: None,
            frequency_penalty: None,
            best_of: None,
            logit_bias: None,
            user: None,
        };
        proof {
            assert(r@ =~= empty_req("davinci"@));
        }
        r
    }
}

impl CompletionBody {
    /// A request with the default model and no optional field set.
    pub fn new() -> (r: Self)
        ensures
            r@ == empty_req("davinci"@),
    {
        Self::default()
    }

    /// A builder primed with the given model name.
    pub fn builder(model: String) -> (r: CompletionBodyBuilder)
        ensures
            r@ == empty_req(model@),
    {
        CompletionBodyBuilder::new(model)
    }

    pub fn model(self, model: String) -> (r: Self)
        ensures
            r@ == (ReqView { model: model@, ..self@ }),
    {
        let r = CompletionBody { model, ..self };
        proof {
            assert(r@ =~= (ReqView { model: r.model@, ..self@ }));
        }
        r
    }

    pub fn prompt(self, prompt: Vec<String>) -> (r: Self)
        ensures
            r@ == (ReqView { prompt: Some(prompt.deep_view()), ..self@ }),
    {
        let r = CompletionBody { prompt: Some(prompt), ..self };
        proof {
            assert(r@ =~= (ReqView { prompt: view_strs(r.prompt), ..self@ }));
        }
        r
    }

    pub fn suffix(self, suffix: String) -> (r: Self)
        ensures
            r@ == (ReqView { suffix: Some(suffix@), ..self@ }),
    {
        let r = CompletionBody { suffix: Some(suffix), ..self };
        proof {
            assert(r@ =~= (ReqView { suffix: view_str(r.suffix), ..self@ }));
        }
        r
    }

    pub fn max_tokens(self, max_tokens: u16) -> (r: Self)
        ensures
            r@ == (ReqView { max_tokens: Some(max_tokens), ..self@ }),
    {
        let r = CompletionBody { max_tokens: Some(max_tokens), ..self };
        proof {
            assert(r@ =~= (ReqView { max_tokens: r.max_tokens, ..self@ }));
        }
        r
    }

    pub fn temperature(self, temperature: Tenths) -> (r: Self)
        ensures
            r@ == (ReqView { temperature: Some(temperature@), ..self@ }),
    {
        let r = CompletionBody { temperature: Some(temperature), ..self };
        proof {
            assert(r@ =~= (ReqView { temperature: view_tenths(r.temperature), ..self@ }));
        }
        r
    }

    pub fn top_p(self, top_p: Tenths) -> (r: Self)
        ensures
            r@ == (ReqView { top_p: Some(top_p@), ..self@ }),
    {
        let r = CompletionBody { top_p: Some(top_p), ..self };
        proof {
            assert(r@ =~= (ReqView { top_p: view_tenths(r.top_p), ..self@ }));
        }
        r
    }

    pub fn n(self, n: u16) -> (r: Self)
        ensures
            r@ == (ReqView { n: Some(n), ..self@ }),
    {
        let r = CompletionBody { n: Some(n), ..self };
        proof {
            assert(r@ =~= (ReqView { n: r.n, ..self@ }));
        }
        r
    }

    pub fn stream(self, stream: bool) -> (r: Self)
        ensures
            r@ == (ReqView { stream: Some(stream), ..self@ }),
    {
        let r = CompletionBody { stream: Some(stream), ..self };
        proof {
            assert(r@ =~= (ReqView { stream: r.stream, ..self@ }));
        }
        r
    }

    pub fn logprobs(self, logprobs: u16) -> (r: Self)
        ensures
            r@ == (ReqView { logprobs: Some(logprobs), ..self@ }),
    {
        let r = CompletionBody { logprobs: Some(logprobs), ..self };
        proof {
            assert(r@ =~= (ReqView { logprobs: r.logprobs, ..self@ }));
        }
        r
    }

    pub fn echo(self, echo: bool) -> (r: Self)
        ensures
            r@ == (ReqView { echo: Some(echo), ..self@ }),
    {
        let r = CompletionBody { echo: Some(echo), ..self };
        proof {
            assert(r@ =~= (ReqView { echo: r.echo, ..self@ }));
        }
        r
    }

    pub fn stop(self, stop: Vec<String>) -> (r: Self)
        ensures
            r@ == (ReqView { stop: Some(stop.deep_view()), ..self@ }),
    {
        let r = CompletionBody { stop: Some(stop), ..self };
        proof {
            assert(r@ =~= (ReqView { stop: view_strs(r.stop), ..self@ }));
        }
        r
    }

    pub fn presence_penalty(self, presence_penalty: Tenths) -> (r: Self)
        ensures
            r@ == (ReqView { presence_penalty: Some(presence_penalty@), ..self@ }),
    {
        let r = CompletionBody { presence_penalty: Some(presence_penalty), ..self };
        proof {
            assert(r@ =~= (ReqView { presence_penalty: view_tenths(r.presence_penalty), ..self@ }));
        }
        r
    }

    pub fn frequency_penalty(self, frequency_penalty: Tenths) -> (r: Self)
        ensures
            r@ == (ReqView { frequency_penalty: Some(frequency_penalty@), ..self@ }),
    {
        let r = CompletionBody { frequency_penalty: Some(frequency_penalty), ..self };
        proof {
            assert(r@ =~= (ReqView {
                frequency_penalty: view_tenths(r.frequency_penalty),
                ..self@
            }));
        }
        r
    }

    pub fn best_of(self, best_of: u16) -> (r: Self)
        ensures
            r@ == (ReqView { best_of: Some(best_of), ..self@ }),
    {
        let r = CompletionBody { best_of: Some(best_of), ..self };
        proof {
            assert(r@ =~= (ReqView { best_of: r.best_of, ..self@ }));
        }
        r
    }

    pub fn logit_bias(self, logit_bias: Vec<(u32, i32)>) -> (r: Self)
        ensures
            r@ == (ReqView { logit_bias: Some(logit_bias@), ..self@ }),
    {
        let r = CompletionBody { logit_bias: Some(logit_bias), ..self };
        proof {
            assert(r@ =~= (ReqView { logit_bias: view_bias(r.logit_bias), ..self@ }));
        }
        r
    }

    pub fn user(self, user: String) -> (r: Self)
        ensures
            r@ == (ReqView { user: Some(user@), ..self@ }),
    {
        let r = CompletionBody { user: Some(user), ..self };
        proof {
            assert(r@ =~= (ReqView { user: view_str(r.user), ..self@ }));
        }
        r
    }
}

/// Accumulates the fields of a `CompletionBody`; `build` freezes them.
pub struct CompletionBodyBuilder {
    model: String,
    prompt: Option<Vec<String>>,
    suffix: Option<String>,
    max_tokens: Option<u16>,
    temperature: Option<Tenths>,
    top_p: Option<Tenths>,
    n: Option<u16>,
    stream: Option<bool>,
    logprobs: Option<u16>,
    echo: Option<bool>,
    stop: Option<Vec<String>>,
    presence_penalty: Option<Tenths>,
    frequency_penalty: Option<Tenths>,
    best_of: Option<u16>,
    logit_bias: Option<Vec<(u32, i32)>>,
    user: Option<String>,
}

impl View for CompletionBodyBuilder {
    type V = ReqView;

    closed spec fn view(&self) -> ReqView {
        ReqView {
            model: self.model@,
            prompt: view_strs(self.prompt),
            suffix: view_str(self.suffix),
            max_tokens: self.max_tokens,
            temperature: view_tenths(self.temperature),
            top_p: view_tenths(self.top_p),
            n: self.n,
            stream: self.stream,
            logprobs: self.logprobs,
            echo: self.echo,
            stop: view_strs(self.stop),
            presence_penalty: view_tenths(self.presence_penalty),
            frequency_penalty: view_tenths(self.frequency_penalty),
            best_of: self.best_of,
            logit_bias: view_bias(self.logit_bias),
            user: view_str(self.user),
        }
    }
}

impl Default for CompletionBodyBuilder {
    /// The historical builder default: the `text-davinci-003` model.
    fn default() -> (r: Self)
        ensures
            r@ == empty_req("text-davinci-003"@),
    {
        let r = CompletionBodyBuilder {
            model: String::from_str("text-davinci-003"),
            prompt: None,
            suffix: None,
            max_tokens: None,
            temperature: None,
            top_p: None,
            n: None,
            stream: None,
            logprobs: None,
            echo: None,
            stop: None,
            presence_penalty: None,
            frequency_penalty: None,
            best_of: None,
            logit_bias: None,
            user: None,
        };
        proof {
            assert(r@ =~= empty_req("text-davinci-003"@));
        }
        r
    }
}

impl CompletionBodyBuilder {
    pub fn new(model: String) -> (r: Self)
        ensures
            r@ == empty_req(model@),
    {
        let r = CompletionBodyBuilder { model, ..Self::default() };
        proof {
            assert(r@ =~= empty_req(r.model@));
        }
        r
    }

    pub fn prompt(self, prompt: Vec<String>) -> (r: Self)
        ensures
            r@ == (ReqView { prompt: Some(prompt.deep_view()), ..self@ }),
    {
        let r = CompletionBodyBuilder { prompt: Some(prompt), ..self };
        proof {
            assert(r@ =~= (ReqView { prompt: view_strs(r.prompt), ..self@ }));
        }
        r
    }

    pub fn suffix(self, suffix: String) -> (r: Self)
        ensures
            r@ == (ReqView { suffix: Some(suffix@), ..self@ }),
    {
        let r = CompletionBodyBuilder { suffix: Some(suffix), ..self };
        proof {
            assert(r@ =~= (ReqView { suffix: view_str(r.suffix), ..self@ }));
        }
        r
    }

    pub fn max_tokens(self, max_tokens: u16) -> (r: Self)
        ensures
            r@ == (ReqView { max_tokens: Some(max_tokens), ..self@ }),
    {
        let r = CompletionBodyBuilder { max_tokens: Some(max_tokens), ..self };
        proof {
            assert(r@ =~= (ReqView { max_tokens: r.max_tokens, ..self@ }));
        }
        r
    }

    pub fn temperature(self, temperature: Tenths) -> (r: Self)
        ensures
            r@ == (ReqView { temperature: Some(temperature@), ..self@ }),
    {
        let r = CompletionBodyBuilder { temperature: Some(temperature), ..self };
        proof {
            assert(r@ =~= (ReqView { temperature: view_tenths(r.temperature), ..self@ }));
        }
        r
    }

    pub fn top_p(self, top_p: Tenths) -> (r: Self)
        ensures
            r@ == (ReqView { top_p: Some(top_p@), ..self@ }),
    {
        let r = CompletionBodyBuilder { top_p: Some(top_p), ..self };
        proof {
            assert(r@ =~= (ReqView { top_p: view_tenths(r.top_p), ..self@ }));
        }
        r
    }

    pub fn n(self, n: u16) -> (r: Self)
        ensures
            r@ == (ReqView { n: Some(n), ..self@ }),
    {
        let r = CompletionBodyBuilder { n: Some(n), ..self };
        proof {
            assert(r@ =~= (ReqView { n: r.n, ..self@ }));
        }
        r
    }

    pub fn stream(self, stream: bool) -> (r: Self)
        ensures
            r@ == (ReqView { stream: Some(stream), ..self@ }),
    {
        let r = CompletionBodyBuilder { stream: Some(stream), ..self };
        proof {
            assert(r@ =~= (ReqView { stream: r.stream, ..self@ }));
        }
        r
    }

    pub fn logprobs(self, logprobs: u16) -> (r: Self)
        ensures
            r@ == (ReqView { logprobs: Some(logprobs), ..self@ }),
    {
        let r = CompletionBodyBuilder { logprobs: Some(logprobs), ..self };
        proof {
            assert(r@ =~= (ReqView { logprobs: r.logprobs, ..self@ }));
        }
        r
    }

    pub fn echo(self, echo: bool) -> (r: Self)
        ensures
            r@ == (ReqView { echo: Some(echo), ..self@ }),
    {
        let r = CompletionBodyBuilder { echo: Some(echo), ..self };
        proof {
            assert(r@ =~= (ReqView { echo: r.echo, ..self@ }));
        }
        r
    }

    pub fn stop(self, stop: Vec<String>) -> (r: Self)
        ensures
            r@ == (ReqView { stop: Some(stop.deep_view()), ..self@ }),
    {
        let r = CompletionBodyBuilder { stop: Some(stop), ..self };
        proof {
            assert(r@ =~= (ReqView { stop: view_strs(r.stop), ..self@ }));
        }
        r
    }

    pub fn presence_penalty(self, presence_penalty: Tenths) -> (r: Self)
        ensures
            r@ == (ReqView { presence_penalty: Some(presence_penalty@), ..self@ }),
    {
        let r = CompletionBodyBuilder { presence_penalty: Some(presence_penalty), ..self };
        proof {
            assert(r@ =~= (ReqView { presence_penalty: view_tenths(r.presence_penalty), ..self@ }));
        }
        r
    }

    pub fn frequency_penalty(self, frequency_penalty: Tenths) -> (r: Self)
        ensures
            r@ == (ReqView { frequency_penalty: Some(frequency_penalty@), ..self@ }),
    {
        let r = CompletionBodyBuilder { frequency_penalty: Some(frequency_penalty), ..self };
        proof {
            assert(r@ =~= (ReqView {
                frequency_penalty: view_tenths(r.frequency_penalty),
                ..self@
            }));
        }
        r
    }

    pub fn best_of(self, best_of: u16) -> (r: Self)
        ensures
            r@ == (ReqView { best_of: Some(best_of), ..self@ }),
    {
        let r = CompletionBodyBuilder { best_of: Some(best_of), ..self };
        proof {
            assert(r@ =~= (ReqView { best_of: r.best_of, ..self@ }));
        }
        r
    }

    pub fn logit_bias(self, logit_bias: Vec<(u32, i32)>) -> (r: Self)
        ensures
            r@ == (ReqView { logit_bias: Some(logit_bias@), ..self@ }),
    {
        let r = CompletionBodyBuilder { logit_bias: Some(logit_bias), ..self };
        proof {
            assert(r@ =~= (ReqView { logit_bias: view_bias(r.logit_bias), ..self@ }));
        }
        r
    }

    pub fn user(self, user: String) -> (r: Self)
        ensures
            r@ == (ReqView { user: Some(user@), ..self@ }),
    {
        let r = CompletionBodyBuilder { user: Some(user), ..self };
        proof {
            assert(r@ =~= (ReqView { user: view_str(r.user), ..self@ }));
        }
        r
    }

    /// Freezes the accumulated fields into the finished request.
    pub fn build(self) -> (r: CompletionBody)
        ensures
            r@ == self@,
    {
        let r = CompletionBody {
            model: self.model,
            prompt: self.prompt,
            suffix: self.suffix,
            max_tokens: self.max_tokens,
            temperature: self.temperature,
            top_p: self.top_p,
            n: self.n,
            stream: self.stream,
            logprobs: self.logprobs,
            echo: self.echo,
            stop: self.stop,
            presence_penalty: self.presence_penalty,
            frequency_penalty: self.frequency_penalty,
            best_of: self.best_of,
            logit_bias: self.logit_bias,
            user: self.user,
        };
        proof {
            assert(r@ =~= self@);
        }
        r
    }
}



/// A JSON string literal: the escaped text in quotes.
pub open spec fn jstr(s: Seq<char>) -> Seq<char> {
    seq!['"'] + spec_escape(s) + seq!['"']
}

/// A JSON boolean.
pub open spec fn jbool(b: bool) -> Seq<char> {
    if b {
        "true"@
    } else {
        "false"@
    }
}

/// The rendering of a tuning value held in tenths: an optional minus sign,
/// the whole part, a point, and the single tenths digit.
pub open spec fn jtenths(t: int) -> Seq<char> {
    let a = if t < 0 {
        -t
    } else {
        t
    };
    (if t < 0 {
        seq!['-']
    } else {
        Seq::<char>::empty()
    }) + spec_udec((a / 10) as nat) + seq!['.'] + seq![digit_char(a % 10)]
}

/// The comma-separated items of a JSON array of strings.
pub open spec fn jarr_items(ss: Seq<Seq<char>>) -> Seq<char>
    decreases ss.len(),
{
    if ss.len() == 0 {
        Seq::empty()
    } else if ss.len() == 1 {
        jstr(ss[0])
    } else {
        jstr(ss[0]) + seq![','] + jarr_items(ss.drop_first())
    }
}

/// A JSON array of strings.
pub open spec fn jarr(ss: Seq<Seq<char>>) -> Seq<char> {
    seq!['['] + jarr_items(ss) + seq![']']
}

/// One member of a bias object: the token identifier as a quoted decimal
/// key, then the signed bias weight.
pub open spec fn jbias_entry(p: (u32, i32)) -> Seq<char> {
    seq!['"'] + spec_udec(p.0 as nat) + seq!['"', ':'] + spec_idec(p.1 as int)
}

/// The comma-separated members of a bias object.
pub open spec fn jbias_items(ps: Seq<(u32, i32)>) -> Seq<char>
    decreases ps.len(),
{
    if ps.len() == 0 {
        Seq::empty()
    } else if ps.len() == 1 {
        jbias_entry(ps[0])
    } else {
        jbias_entry(ps[0]) + seq![','] + jbias_items(ps.drop_first())
    }
}

/// A JSON object mapping token identifiers to bias weights.
pub open spec fn jbias(ps: Seq<(u32, i32)>) -> Seq<char> {
    seq!['{'] + jbias_items(ps) + seq!['}']
}

/// The wire form up to and including the `model` member.
pub open spec fn wire_upto_model(r: ReqView) -> Seq<char> {
    "{\"model\":"@ + jstr(r.model)
}

/// The wire form up to and including the `prompt` member.
pub open spec fn wire_upto_prompt(r: ReqView) -> Seq<char> {
    wire_upto_model(r) + (match r.prompt {
        Some(p) => ",\"prompt\":"@ + jarr(p),
        None => Seq::<char>::empty(),
    })
}

/// The wire form up to and including the `suffix` member.
pub open spec fn wire_upto_suffix(r: ReqView) -> Seq<char> {
    wire_upto_prompt(r) + (match r.suffix {
        Some(s) => ",\"suffix\":"@ + jstr(s),
        None => Seq::<char>::empty(),
    })
}

/// The wire form up to and including the `max_tokens` member.
pub open spec fn wire_upto_max_tokens(r: ReqView) -> Seq<char> {
    wire_upto_suffix(r) + (match r.max_tokens {
        Some(v) => ",\"max_tokens\":"@ + spec_udec(v as nat),
        None => Seq::<char>::empty(),
    })
}

/// The wire form up to and including the `temperature` member.
pub open spec fn wire_upto_temperature(r: ReqView) -> Seq<char> {
    wire_upto_max_tokens(r) + (match r.temperature {
        Some(t) => ",\"temperature\":"@ + jtenths(t),
        None => Seq::<char>::empty(),
    })
}

/// The wire form up to and including the `top_p` member.
pub open spec fn wire_upto_top_p(r: ReqView) -> Seq<char> {
    wire_upto_temperature(r) + (match r.top_p {
        Some(t) => ",\"top_p\":"@ + jtenths(t),
        None => Seq::<char>::empty(),
    })
}

/// The wire form up to and including the `n` member.
pub open spec fn wire_upto_n(r: ReqView) -> Seq<char> {
    wire_upto_top_p(r) + (match r.n {
        Some(v) => ",\"n\":"@ + spec_udec(v as nat),
        None => Seq::<char>::empty(),
    })
}

/// The wire form up to and including the `stream` member.
pub open spec fn wire_upto_stream(r: ReqView) -> Seq<char> {
    wire_upto_n(r) + (match r.stream {
        Some(b) => ",\"stream\":"@ + jbool(b),
        None => Seq::<char>::empty(),
    })
}

/// The wire form up to and including the `logprobs` member.
pub open spec fn wire_upto_logprobs(r: ReqView) -> Seq<char> {
    wire_upto_stream(r) + (match r.logprobs {
        Some(v) => ",\"logprobs\":"@ + spec_udec(v as nat),
        None => Seq::<char>::empty(),
    })
}

/// The wire form up to and including the `echo` member.
pub open spec fn wire_upto_echo(r: ReqView) -> Seq<char> {
    wire_upto_logprobs(r) + (match r.echo {
        Some(b) => ",\"echo\":"@ + jbool(b),
        None => Seq::<char>::empty(),
    })
}

/// The wire form up to and including the `stop` member.
pub open spec fn wire_upto_stop(r: ReqView) -> Seq<char> {
    wire_upto_echo(r) + (match r.stop {
        Some(p) => ",\"stop\":"@ + jarr(p),
        None => Seq::<char>::empty(),
    })
}

/// The wire form up to and including the `presence_penalty` member.
pub open spec fn wire_upto_presence_penalty(r: ReqView) -> Seq<char> {
    wire_upto_stop(r) + (match r.presence_penalty {
        Some(t) => ",\"presence_penalty\":"@ + jtenths(t),
        None => Seq::<char>::empty(),
    })
}

/// The wire form up to and including the `frequency_penalty` member.
pub open spec fn wire_upto_frequency_penalty(r: ReqView) -> Seq<char> {
    wire_upto_presence_penalty(r) + (match r.frequency_penalty {
        Some(t) => ",\"frequency_penalty\":"@ + jtenths(t),
        None => Seq::<char>::empty(),
    })
}

/// The wire form up to and including the `best_of` member.
pub open spec fn wire_upto_best_of(r: ReqView) -> Seq<char> {
    wire_upto_frequency_penalty(r) + (match r.best_of {
        Some(v) => ",\"best_of\":"@ + spec_udec(v as nat),
        None => Seq::<char>::empty(),
    })
}

/// The wire form up to and including the `logit_bias` member.
pub open spec fn wire_upto_logit_bias(r: ReqView) -> Seq<char> {
    wire_upto_best_of(r) + (match r.logit_bias {
        Some(ps) => ",\"logit_bias\":"@ + jbias(ps),
        None => Seq::<char>::empty(),
    })
}

/// The wire form up to and including the `user` member.
pub open spec fn wire_upto_user(r: ReqView) -> Seq<char> {
    wire_upto_logit_bias(r) + (match r.user {
        Some(s) => ",\"user\":"@ + jstr(s),
        None => Seq::<char>::empty(),
    })
}

/// The exact wire form of a request: `model` first, then each set optional
/// field in declaration order, each prefixed with a comma.
pub open spec fn spec_wire(r: ReqView) -> Seq<char> {
    wire_upto_user(r) + seq!['}']
}

fn append_jstr(out: &mut String, s: &str)
    ensures
        final(out)@ == old(out)@ + jstr(s@),
{
    out.push('"');
    escape_into(out, s);
    out.push('"');
    proof {
        assert(out@ =~= old(out)@ + jstr(s@));
    }
}

fn append_u16(out: &mut String, v: u16)
    ensures
        final(out)@ == old(out)@ + spec_udec(v as nat),
{
    let d = u64_dec(v as u64);
    out.append(d.as_str());
}

fn append_bool(out: &mut String, b: bool)
    ensures
        final(out)@ == old(out)@ + jbool(b),
{
    if b {
        out.append("true");
    } else {
        out.append("false");
    }
}

fn append_tenths(out: &mut String, t: Tenths)
    ensures
        final(out)@ == old(out)@ + jtenths(t@),
{
    let v = t.tenths;
    let a: u64 = if v < 0 {
        out.push('-');
        (-(v as i64)) as u64
    } else {
        v as u64
    };
    let d = u64_dec(a / 10);
    out.append(d.as_str());
    out.push('.');
    let dig: u8 = (a % 10) as u8;
    let c: char = (dig + 48) as char;
    out.push(c);
    proof {
        assert(out@ =~= old(out)@ + jtenths(t@));
    }
}

proof fn lemma_jarr_items_snoc(ss: Seq<Seq<char>>, x: Seq<char>)
    ensures
        jarr_items(ss.push(x)) == if ss.len() == 0 {
            jstr(x)
        } else {
            jarr_items(ss) + seq![','] + jstr(x)
        },
    decreases ss.len(),
{
    if ss.len() == 0 {
        assert(ss.push(x) =~= seq![x]);
    } else {
        lemma_jarr_items_snoc(ss.drop_first(), x);
        assert(ss.push(x).drop_first() =~= ss.drop_first().push(x));
        assert(ss.push(x)[0] == ss[0]);
        assert(jarr_items(ss.push(x)) =~= jarr_items(ss) + seq![','] + jstr(x));
    }
}

fn append_jarr(out: &mut String, items: &Vec<String>)
    ensures
        final(out)@ == old(out)@ + jarr(items.deep_view()),
{
    let ghost orig: Seq<char> = out@;
    let ghost dv: Seq<Seq<char>> = items.deep_view();
    out.push('[');
    let mut i: usize = 0;
    while i < items.len()
        invariant
            i <= items.len(),
            dv == items.deep_view(),
            dv.len() == items.len(),
            out@ == orig + seq!['['] + jarr_items(dv.subrange(0, i as int)),
        decreases items.len() - i,
    {
        if i > 0 {
            out.push(',');
        }
        append_jstr(out, items[i].as_str());
        proof {
            assert(dv[i as int] == items[i as int]@);
            assert(dv.subrange(0, i as int).push(dv[i as int]) =~= dv.subrange(0, i + 1 as int));
            lemma_jarr_items_snoc(dv.subrange(0, i as int), dv[i as int]);
            assert(out@ =~= orig + seq!['['] + jarr_items(dv.subrange(0, i + 1 as int)));
        }
        i += 1;
    }
    out.push(']');
    proof {
        assert(dv.subrange(0, dv.len() as int) =~= dv);
        assert(out@ =~= orig + jarr(dv));
    }
}

proof fn lemma_jbias_items_snoc(ps: Seq<(u32, i32)>, x: (u32, i32))
    ensures
        jbias_items(ps.push(x)) == if ps.len() == 0 {
            jbias_entry(x)
        } else {
            jbias_items(ps) + seq![','] + jbias_entry(x)
        },
    decreases ps.len(),
{
    if ps.len() == 0 {
        assert(ps.push(x) =~= seq![x]);
    } else {
        lemma_jbias_items_snoc(ps.drop_first(), x);
        assert(ps.push(x).drop_first() =~= ps.drop_first().push(x));
        assert(ps.push(x)[0] == ps[0]);
        assert(jbias_items(ps.push(x)) =~= jbias_items(ps) + seq![','] + jbias_entry(x));
    }
}

fn append_jbias(out: &mut String, items: &Vec<(u32, i32)>)
    ensures
        final(out)@ == old(out)@ + jbias(items@),
{
    let ghost orig: Seq<char> = out@;
    out.push('{');
    let mut i: usize = 0;
    while i < items.len()
        invariant
            i <= items.len(),
            items@.len() == items.len(),
            out@ == orig + seq!['{'] + jbias_items(items@.subrange(0, i as int)),
        decreases items.len() - i,
    {
        if i > 0 {
            out.push(',');
        }
        let (tok, bias) = items[i];
        out.push('"');
        let d = u64_dec(tok as u64);
        out.append(d.as_str());
        out.push('"');
        out.push(':');
        let b = i64_dec(bias as i64);
        out.append(b.as_str());
        proof {
            assert(jbias_entry(items@[i as int]) =~= seq!['"'] + spec_udec(tok as nat) + seq!['"', ':'] + spec_idec(bias as int));
            assert(items@.subrange(0, i as int).push(items@[i as int]) =~= items@.subrange(
                0,
                i + 1 as int,
            ));
            lemma_jbias_items_snoc(items@.subrange(0, i as int), items@[i as int]);
            assert(out@ =~= orig + seq!['{'] + jbias_items(items@.subrange(0, i + 1 as int)));
        }
        i += 1;
    }
    out.push('}');
    proof {
        assert(items@.subrange(0, items@.len() as int) =~= items@);
        assert(out@ =~= orig + jbias(items@));
    }
}

impl CompletionBody {
    fn wire_fields_1(&self, out: &mut String)
        requires
            old(out)@ == wire_upto_model(self@),
        ensures
            final(out)@ == wire_upto_temperature(self@),
    {
        match &self.prompt {
            Some(p) => {
                let mut piece = String::from_str(",\"prompt\":");
                append_jarr(&mut piece, p);
                out.append(piece.as_str());
                proof {
                    assert(piece@ == ",\"prompt\":"@ + jarr(p.deep_view()));
                    assert(out@ == wire_upto_prompt(self@));
                }
            },
            None => {
                proof {
                    assert(out@ + Seq::<char>::empty() =~= out@);
                    assert(out@ == wire_upto_prompt(self@));
                }
            },
        }
        match &self.suffix {
            Some(s) => {
                let mut piece = String::from_str(",\"suffix\":");
                append_jstr(&mut piece, s.as_str());
                out.append(piece.as_str());
                proof {
                    assert(piece@ == ",\"suffix\":"@ + jstr(s@));
                    assert(out@ == wire_upto_suffix(self@));
                }
            },
            None => {
                proof {
                    assert(out@ + Seq::<char>::empty() =~= out@);
                    assert(out@ == wire_upto_suffix(self@));
                }
            },
        }
        match &self.max_tokens {
            Some(v) => {
                let mut piece = String::from_str(",\"max_tokens\":");
                append_u16(&mut piece, *v);
                out.append(piece.as_str());
                proof {
                    assert(piece@ == ",\"max_tokens\":"@ + spec_udec(*v as nat));
                    assert(out@ == wire_upto_max_tokens(self@));
                }
            },
            None => {
                proof {
                    assert(out@ + Seq::<char>::empty() =~= out@);
                    assert(out@ == wire_upto_max_tokens(self@));
                }
            },
        }
        match &self.temperature {
            Some(t) => {
                let mut piece = String::from_str(",\"temperature\":");
                append_tenths(&mut piece, *t);
                out.append(piece.as_str());
                proof {
                    assert(piece@ == ",\"temperature\":"@ + jtenths(t@));
                    assert(out@ == wire_upto_temperature(self@));
                }
            },
            None => {
                proof {
                    assert(out@ + Seq::<char>::empty() =~= out@);
                    assert(out@ == wire_upto_temperature(self@));
                }
            },
        }
    }

    fn wire_fields_2(&self, out: &mut String)
        requires
            old(out)@ == wire_upto_temperature(self@),
        ensures
            final(out)@ == wire_upto_logprobs(self@),
    {
        match &self.top_p {
            Some(t) => {
                let mut piece = String::from_str(",\"top_p\":");
                append_tenths(&mut piece, *t);
                out.append(piece.as_str());
                proof {
                    assert(piece@ == ",\"top_p\":"@ + jtenths(t@));
                    assert(out@ == wire_upto_top_p(self@));
                }
            },
            None => {
                proof {
                    assert(out@ + Seq::<char>::empty() =~= out@);
                    assert(out@ == wire_upto_top_p(self@));
                }
            },
        }
        match &self.n {
            Some(v) => {
                let mut piece = String::from_str(",\"n\":");
                append_u16(&mut piece, *v);
                out.append(piece.as_str());
                proof {
                    assert(piece@ == ",\"n\":"@ + spec_udec(*v as nat));
                    assert(out@ == wire_upto_n(self@));
                }
            },
            None => {
                proof {
                    assert(out@ + Seq::<char>::empty() =~= out@);
                    assert(out@ == wire_upto_n(self@));
                }
            },
        }
        match &self.stream {
            Some(b) => {
                let mut piece = String::from_str(",\"stream\":");
                append_bool(&mut piece, *b);
                out.append(piece.as_str());
                proof {
                    assert(piece@ == ",\"stream\":"@ + jbool(*b));
                    assert(out@ == wire_upto_stream(self@));
                }
            },
            None => {
                proof {
                    assert(out@ + Seq::<char>::empty() =~= out@);
                    assert(out@ == wire_upto_stream(self@));
                }
            },
        }
        match &self.logprobs {
            Some(v) => {
                let mut piece = String::from_str(",\"logprobs\":");
                append_u16(&mut piece, *v);
                out.append(piece.as_str());
                proof {
                    assert(piece@ == ",\"logprobs\":"@ + spec_udec(*v as nat));
                    assert(out@ == wire_upto_logprobs(self@));
                }
            },
            None => {
                proof {
                    assert(out@ + Seq::<char>::empty() =~= out@);
                    assert(out@ == wire_upto_logprobs(self@));
                }
            },
        }
    }

    fn wire_fields_3(&self, out: &mut String)
        requires
            old(out)@ == wire_upto_logprobs(self@),
        ensures
            final(out)@ == wire_upto_frequency_penalty(self@),
    {
        match &self.echo {
            Some(b) => {
                let mut piece = String::from_str(",\"echo\":");
                append_bool(&mut piece, *b);
                out.append(piece.as_str());
                proof {
                    assert(piece@ == ",\"echo\":"@ + jbool(*b));
                    assert(out@ == wire_upto_echo(self@));
                }
            },
            None => {
                proof {
                    assert(out@ + Seq::<char>::empty() =~= out@);
                    assert(out@ == wire_upto_echo(self@));
                }
            },
        }
        match &self.stop {
            Some(p) => {
                let mut piece = String::from_str(",\"stop\":");
                append_jarr(&mut piece, p);
                out.append(piece.as_str());
                proof {
                    assert(piece@ == ",\"stop\":"@ + jarr(p.deep_view()));
                    assert(out@ == wire_upto_stop(self@));
                }
            },
            None => {
                proof {
                    assert(out@ + Seq::<char>::empty() =~= out@);
                    assert(out@ == wire_upto_stop(self@));
                }
            },
        }
        match &self.presence_penalty {
            Some(t) => {
                let mut piece = String::from_str(",\"presence_penalty\":");
                append_tenths(&mut piece, *t);
                out.append(piece.as_str());
                proof {
                    assert(piece@ == ",\"presence_penalty\":"@ + jtenths(t@));
                    assert(out@ == wire_upto_presence_penalty(self@));
                }
            },
            None => {
                proof {
                    assert(out@ + Seq::<char>::empty() =~= out@);
                    assert(out@ == wire_upto_presence_penalty(self@));
                }
            },
        }
        match &self.frequency_penalty {
            Some(t) => {
                let mut piece = String::from_str(",\"frequency_penalty\":");
                append_tenths(&mut piece, *t);
                out.append(piece.as_str());
                proof {
                    assert(piece@ == ",\"frequency_penalty\":"@ + jtenths(t@));
                    assert(out@ == wire_upto_frequency_penalty(self@));
                }
            },
            None => {
                proof {
                    assert(out@ + Seq::<char>::empty() =~= out@);
                    assert(out@ == wire_upto_frequency_penalty(self@));
                }
            },
        }
    }

    fn wire_fields_4(&self, out: &mut String)
        requires
            old(out)@ == wire_upto_frequency_penalty(self@),
        ensures
            final(out)@ == wire_upto_user(self@),
    {
        match &self.best_of {
            Some(v) => {
                let mut piece = String::from_str(",\"best_of\":");
                append_u16(&mut piece, *v);
                out.append(piece.as_str());
                proof {
                    assert(piece@ == ",\"best_of\":"@ + spec_udec(*v as nat));
                    assert(out@ == wire_upto_best_of(self@));
                }
            },
            None => {
                proof {
                    assert(out@ + Seq::<char>::empty() =~= out@);
                    assert(out@ == wire_upto_best_of(self@));
                }
            },
        }
        match &self.logit_bias {
            Some(ps) => {
                let mut piece = String::from_str(",\"logit_bias\":");
                append_jbias(&mut piece, ps);
                out.append(piece.as_str());
                proof {
                    assert(piece@ == ",\"logit_bias\":"@ + jbias(ps@));
                    assert(out@ == wire_upto_logit_bias(self@));
                }
            },
            None => {
                proof {
                    assert(out@ + Seq::<char>::empty() =~= out@);
                    assert(out@ == wire_upto_logit_bias(self@));
                }
            },
        }
        match &self.user {
            Some(s) => {
                let mut piece = String::from_str(",\"user\":");
                append_jstr(&mut piece, s.as_str());
                out.append(piece.as_str());
                proof {
                    assert(piece@ == ",\"user\":"@ + jstr(s@));
                    assert(out@ == wire_upto_user(self@));
                }
            },
            None => {
                proof {
                    assert(out@ + Seq::<char>::empty() =~= out@);
                    assert(out@ == wire_upto_user(self@));
                }
            },
        }
    }

    /// Renders the request to its JSON wire form.
    pub fn wire_form(&self) -> (s: String)
        ensures
            s@ == spec_wire(self@),
    {
        let mut out = String::from_str("{\"model\":");
        append_jstr(&mut out, self.model.as_str());
        proof {
            assert(out@ == wire_upto_model(self@));
        }
        self.wire_fields_1(&mut out);
        self.wire_fields_2(&mut out);
        self.wire_fields_3(&mut out);
        self.wire_fields_4(&mut out);
        out.push('}');
        proof {
            assert(out@ =~= wire_upto_user(self@) + seq!['}']);
            assert(out@ == spec_wire(self@));
        }
        out
    }
}


/// One rendered object member: the quoted key, a colon, and the value.
pub open spec fn jkey(p: (Seq<char>, Seq<char>)) -> Seq<char> {
    seq!['"'] + p.0 + seq!['"', ':'] + p.1
}

/// Renders a run of members, each preceded by a comma.
pub open spec fn render_entries(ps: Seq<(Seq<char>, Seq<char>)>) -> Seq<char>
    decreases ps.len(),
{
    if ps.len() == 0 {
        Seq::empty()
    } else {
        seq![','] + jkey(ps[0]) + render_entries(ps.drop_first())
    }
}

/// Renders a whole object from its key/value members.
pub open spec fn render_obj(ps: Seq<(Seq<char>, Seq<char>)>) -> Seq<char> {
    if ps.len() == 0 {
        seq!['{', '}']
    } else {
        seq!['{'] + jkey(ps[0]) + render_entries(ps.drop_first()) + seq!['}']
    }
}

/// Whether some member of `ps` carries the key `k`.
pub open spec fn pairs_has_key(ps: Seq<(Seq<char>, Seq<char>)>, k: Seq<char>) -> bool {
    exists|i: int| 0 <= i < ps.len() && ps[i].0 == k
}

proof fn lemma_render_entries_concat(a: Seq<(Seq<char>, Seq<char>)>, b: Seq<(Seq<char>, Seq<char>)>)
    ensures
        render_entries(a + b) == render_entries(a) + render_entries(b),
    decreases a.len(),
{
    if a.len() == 0 {
        assert(a + b =~= b);
        assert(render_entries(a) + render_entries(b) =~= render_entries(b));
    } else {
        lemma_render_entries_concat(a.drop_first(), b);
        assert((a + b).drop_first() =~= a.drop_first() + b);
        assert((a + b)[0] == a[0]);
        assert(render_entries(a + b) =~= render_entries(a) + render_entries(b));
    }
}

proof fn lemma_has_key_concat(
    a: Seq<(Seq<char>, Seq<char>)>,
    b: Seq<(Seq<char>, Seq<char>)>,
    k: Seq<char>,
)
    ensures
        pairs_has_key(a + b, k) == (pairs_has_key(a, k) || pairs_has_key(b, k)),
{
    if pairs_has_key(a, k) {
        let i = choose|i: int| 0 <= i < a.len() && a[i].0 == k;
        assert((a + b)[i].0 == k);
    }
    if pairs_has_key(b, k) {
        let i = choose|i: int| 0 <= i < b.len() && b[i].0 == k;
        assert((a + b)[a.len() + i].0 == k);
    }
    if pairs_has_key(a + b, k) {
        let i = choose|i: int| 0 <= i < (a + b).len() && (a + b)[i].0 == k;
        if i < a.len() {
            assert(a[i].0 == k);
        } else {
            assert(b[i - a.len()].0 == k);
        }
    }
}

/// The key/value member that a set `prompt` field contributes.
pub open spec fn member_prompt(r: ReqView) -> Seq<(Seq<char>, Seq<char>)> {
    match r.prompt {
        Some(p) => seq![("prompt"@, jarr(p))],
        None => Seq::empty(),
    }
}

/// The key/value member that a set `suffix` field contributes.
pub open spec fn member_suffix(r: ReqView) -> Seq<(Seq<char>, Seq<char>)> {
    match r.suffix {
        Some(s) => seq![("suffix"@, jstr(s))],
        None => Seq::empty(),
    }
}

/// The key/value member that a set `max_tokens` field contributes.
pub open spec fn member_max_tokens(r: ReqView) -> Seq<(Seq<char>, Seq<char>)> {
    match r.max_tokens {
        Some(v) => seq![("max_tokens"@, spec_udec(v as nat))],
        None => Seq::empty(),
    }
}

/// The key/value member that a set `temperature` field contributes.
pub open spec fn member_temperature(r: ReqView) -> Seq<(Seq<char>, Seq<char>)> {
    match r.temperature {
        Some(t) => seq![("temperature"@, jtenths(t))],
        None => Seq::empty(),
    }
}

/// The key/value member that a set `top_p` field contributes.
pub open spec fn member_top_p(r: ReqView) -> Seq<(Seq<char>, Seq<char>)> {
    match r.top_p {
        Some(t) => seq![("top_p"@, jtenths(t))],
        None => Seq::empty(),
    }
}

/// The key/value member that a set `n` field contributes.
pub open spec fn member_n(r: ReqView) -> Seq<(Seq<char>, Seq<char>)> {
    match r.n {
        Some(v) => seq![("n"@, spec_udec(v as nat))],
        None => Seq::empty(),
    }
}

/// The key/value member that a set `stream` field contributes.
pub open spec fn member_stream(r: ReqView) -> Seq<(Seq<char>, Seq<char>)> {
    match r.stream {
        Some(b) => seq![("stream"@, jbool(b))],
        None => Seq::empty(),
    }
}

/// The key/value member that a set `logprobs` field contributes.
pub open spec fn member_logprobs(r: ReqView) -> Seq<(Seq<char>, Seq<char>)> {
    match r.logprobs {
        Some(v) => seq![("logprobs"@, spec_udec(v as nat))],
        None => Seq::empty(),
    }
}

/// The key/value member that a set `echo` field contributes.
pub open spec fn member_echo(r: ReqView) -> Seq<(Seq<char>, Seq<char>)> {
    match r.echo {
        Some(b) => seq![("echo"@, jbool(b))],
        None => Seq::empty(),
    }
}

/// The key/value member that a set `stop` field contributes.
pub open spec fn member_stop(r: ReqView) -> Seq<(Seq<char>, Seq<char>)> {
    match r.stop {
        Some(p) => seq![("stop"@, jarr(p))],
        None => Seq::empty(),
    }
}

/// The key/value member that a set `presence_penalty` field contributes.
pub open spec fn member_presence_penalty(r: ReqView) -> Seq<(Seq<char>, Seq<char>)> {
    match r.presence_penalty {
        Some(t) => seq![("presence_penalty"@, jtenths(t))],
        None => Seq::empty(),
    }
}

/// The key/value member that a set `frequency_penalty` field contributes.
pub open spec fn member_frequency_penalty(r: ReqView) -> Seq<(Seq<char>, Seq<char>)> {
    match r.frequency_penalty {
        Some(t) => seq![("frequency_penalty"@, jtenths(t))],
        None => Seq::empty(),
    }
}

/// The key/value member that a set `best_of` field contributes.
pub open spec fn member_best_of(r: ReqView) -> Seq<(Seq<char>, Seq<char>)> {
    match r.best_of {
        Some(v) => seq![("best_of"@, spec_udec(v as nat))],
        None => Seq::empty(),
    }
}

/// The key/value member that a set `logit_bias` field contributes.
pub open spec fn member_logit_bias(r: ReqView) -> Seq<(Seq<char>, Seq<char>)> {
    match r.logit_bias {
        Some(ps) => seq![("logit_bias"@, jbias(ps))],
        None => Seq::empty(),
    }
}

/// The key/value member that a set `user` field contributes.
pub open spec fn member_user(r: ReqView) -> Seq<(Seq<char>, Seq<char>)> {
    match r.user {
        Some(s) => seq![("user"@, jstr(s))],
        None => Seq::empty(),
    }
}

/// The key/value members of the wire form, in order: `model`, then one
/// member per set optional field.
pub open spec fn wire_pairs(r: ReqView) -> Seq<(Seq<char>, Seq<char>)> {
    seq![("model"@, jstr(r.model))] + tail_upto_user(r)
}


/// The members contributed by the optional fields up to `prompt`.
pub open spec fn tail_upto_prompt(r: ReqView) -> Seq<(Seq<char>, Seq<char>)> {
    member_prompt(r)
}

/// The members contributed by the optional fields up to `suffix`.
pub open spec fn tail_upto_suffix(r: ReqView) -> Seq<(Seq<char>, Seq<char>)> {
    tail_upto_prompt(r) + member_suffix(r)
}

/// The members contributed by the optional fields up to `max_tokens`.
pub open spec fn tail_upto_max_tokens(r: ReqView) -> Seq<(Seq<char>, Seq<char>)> {
    tail_upto_suffix(r) + member_max_tokens(r)
}

/// The members contributed by the optional fields up to `temperature`.
pub open spec fn tail_upto_temperature(r: ReqView) -> Seq<(Seq<char>, Seq<char>)> {
    tail_upto_max_tokens(r) + member_temperature(r)
}

/// The members contributed by the optional fields up to `top_p`.
pub open spec fn tail_upto_top_p(r: ReqView) -> Seq<(Seq<char>, Seq<char>)> {
    tail_upto_temperature(r) + member_top_p(r)
}

/// The members contributed by the optional fields up to `n`.
pub open spec fn tail_upto_n(r: ReqView) -> Seq<(Seq<char>, Seq<char>)> {
    tail_upto_top_p(r) + member_n(r)
}

/// The members contributed by the optional fields up to `stream`.
pub open spec fn tail_upto_stream(r: ReqView) -> Seq<(Seq<char>, Seq<char>)> {
    tail_upto_n(r) + member_stream(r)
}

/// The members contributed by the optional fields up to `logprobs`.
pub open spec fn tail_upto_logprobs(r: ReqView) -> Seq<(Seq<char>, Seq<char>)> {
    tail_upto_stream(r) + member_logprobs(r)
}

/// The members contributed by the optional fields up to `echo`.
pub open spec fn tail_upto_echo(r: ReqView) -> Seq<(Seq<char>, Seq<char>)> {
    tail_upto_logprobs(r) + member_echo(r)
}

/// The members contributed by the optional fields up to `stop`.
pub open spec fn tail_upto_stop(r: ReqView) -> Seq<(Seq<char>, Seq<char>)> {
    tail_upto_echo(r) + member_stop(r)
}

/// The members contributed by the optional fields up to `presence_penalty`.
pub open spec fn tail_upto_presence_penalty(r: ReqView) -> Seq<(Seq<char>, Seq<char>)> {
    tail_upto_stop(r) + member_presence_penalty(r)
}

/// The members contributed by the optional fields up to `frequency_penalty`.
pub open spec fn tail_upto_frequency_penalty(r: ReqView) -> Seq<(Seq<char>, Seq<char>)> {
    tail_upto_presence_penalty(r) + member_frequency_penalty(r)
}

/// The members contributed by the optional fields up to `best_of`.
pub open spec fn tail_upto_best_of(r: ReqView) -> Seq<(Seq<char>, Seq<char>)> {
    tail_upto_frequency_penalty(r) + member_best_of(r)
}

/// The members contributed by the optional fields up to `logit_bias`.
pub open spec fn tail_upto_logit_bias(r: ReqView) -> Seq<(Seq<char>, Seq<char>)> {
    tail_upto_best_of(r) + member_logit_bias(r)
}

/// The members contributed by the optional fields up to `user`.
pub open spec fn tail_upto_user(r: ReqView) -> Seq<(Seq<char>, Seq<char>)> {
    tail_upto_logit_bias(r) + member_user(r)
}

proof fn lemma_member_prompt(r: ReqView)
    ensures
        wire_upto_prompt(r) == wire_upto_model(r) + render_entries(member_prompt(r)),
{
    reveal_strlit(",\"prompt\":");
    reveal_strlit("prompt");
    match r.prompt {
        Some(p) => {
            let m = member_prompt(r);
            assert(m == seq![("prompt"@, jarr(p))]);
            assert(m.len() == 1);
            assert(m[0] == ("prompt"@, jarr(p)));
            assert(m.drop_first() =~= Seq::<(Seq<char>, Seq<char>)>::empty());
            assert(render_entries(m) == seq![','] + jkey(m[0]) + render_entries(m.drop_first()));
            assert(render_entries(m.drop_first()) == Seq::<char>::empty());
            assert(render_entries(m) =~= seq![','] + jkey(m[0]));
            assert(",\"prompt\":"@ + jarr(p) =~= render_entries(m));
            assert(wire_upto_prompt(r) == wire_upto_model(r) + render_entries(m));
        },
        None => {
            assert(render_entries(member_prompt(r)) =~= Seq::<char>::empty());
            assert(wire_upto_prompt(r) == wire_upto_model(r) + render_entries(member_prompt(r)));
        },
    }
}

proof fn lemma_member_suffix(r: ReqView)
    ensures
        wire_upto_suffix(r) == wire_upto_prompt(r) + render_entries(member_suffix(r)),
{
    reveal_strlit(",\"suffix\":");
    reveal_strlit("suffix");
    match r.suffix {
        Some(s) => {
            let m = member_suffix(r);
            assert(m == seq![("suffix"@, jstr(s))]);
            assert(m.len() == 1);
            assert(m[0] == ("suffix"@, jstr(s)));
            assert(m.drop_first() =~= Seq::<(Seq<char>, Seq<char>)>::empty());
            assert(render_entries(m) == seq![','] + jkey(m[0]) + render_entries(m.drop_first()));
            assert(render_entries(m.drop_first()) == Seq::<char>::empty());
            assert(render_entries(m) =~= seq![','] + jkey(m[0]));
            assert(",\"suffix\":"@ + jstr(s) =~= render_entries(m));
            assert(wire_upto_suffix(r) == wire_upto_prompt(r) + render_entries(m));
        },
        None => {
            assert(render_entries(member_suffix(r)) =~= Seq::<char>::empty());
            assert(wire_upto_suffix(r) == wire_upto_prompt(r) + render_entries(member_suffix(r)));
        },
    }
}

proof fn lemma_member_max_tokens(r: ReqView)
    ensures
        wire_upto_max_tokens(r) == wire_upto_suffix(r) + render_entries(member_max_tokens(r)),
{
    reveal_strlit(",\"max_tokens\":");
    reveal_strlit("max_tokens");
    match r.max_tokens {
        Some(v) => {
            let m = member_max_tokens(r);
            assert(m == seq![("max_tokens"@, spec_udec(v as nat))]);
            assert(m.len() == 1);
            assert(m[0] == ("max_tokens"@, spec_udec(v as nat)));
            assert(m.drop_first() =~= Seq::<(Seq<char>, Seq<char>)>::empty());
            assert(render_entries(m) == seq![','] + jkey(m[0]) + render_entries(m.drop_first()));
            assert(render_entries(m.drop_first()) == Seq::<char>::empty());
            assert(render_entries(m) =~= seq![','] + jkey(m[0]));
            assert(",\"max_tokens\":"@ + spec_udec(v as nat) =~= render_entries(m));
            assert(wire_upto_max_tokens(r) == wire_upto_suffix(r) + render_entries(m));
        },
        None => {
            assert(render_entries(member_max_tokens(r)) =~= Seq::<char>::empty());
            assert(wire_upto_max_tokens(r) == wire_upto_suffix(r) + render_entries(member_max_tokens(r)));
        },
    }
}

proof fn lemma_member_temperature(r: ReqView)
    ensures
        wire_upto_temperature(r) == wire_upto_max_tokens(r) + render_entries(member_temperature(r)),
{
    reveal_strlit(",\"temperature\":");
    reveal_strlit("temperature");
    match r.temperature {
        Some(t) => {
            let m = member_temperature(r);
            assert(m == seq![("temperature"@, jtenths(t))]);
            assert(m.len() == 1);
            assert(m[0] == ("temperature"@, jtenths(t)));
            assert(m.drop_first() =~= Seq::<(Seq<char>, Seq<char>)>::empty());
            assert(render_entries(m) == seq![','] + jkey(m[0]) + render_entries(m.drop_first()));
            assert(render_entries(m.drop_first()) == Seq::<char>::empty());
            assert(render_entries(m) =~= seq![','] + jkey(m[0]));
            assert(",\"temperature\":"@ + jtenths(t) =~= render_entries(m));
            assert(wire_upto_temperature(r) == wire_upto_max_tokens(r) + render_entries(m));
        },
        None => {
            assert(render_entries(member_temperature(r)) =~= Seq::<char>::empty());
            assert(wire_upto_temperature(r) == wire_upto_max_tokens(r) + render_entries(member_temperature(r)));
        },
    }
}

proof fn lemma_member_top_p(r: ReqView)
    ensures
        wire_upto_top_p(r) == wire_upto_temperature(r) + render_entries(member_top_p(r)),
{
    reveal_strlit(",\"top_p\":");
    reveal_strlit("top_p");
    match r.top_p {
        Some(t) => {
            let m = member_top_p(r);
            assert(m == seq![("top_p"@, jtenths(t))]);
            assert(m.len() == 1);
            assert(m[0] == ("top_p"@, jtenths(t)));
            assert(m.drop_first() =~= Seq::<(Seq<char>, Seq<char>)>::empty());
            assert(render_entries(m) == seq![','] + jkey(m[0]) + render_entries(m.drop_first()));
            assert(render_entries(m.drop_first()) == Seq::<char>::empty());
            assert(render_entries(m) =~= seq![','] + jkey(m[0]));
            assert(",\"top_p\":"@ + jtenths(t) =~= render_entries(m));
            assert(wire_upto_top_p(r) == wire_upto_temperature(r) + render_entries(m));
        },
        None => {
            assert(render_entries(member_top_p(r)) =~= Seq::<char>::empty());
            assert(wire_upto_top_p(r) == wire_upto_temperature(r) + render_entries(member_top_p(r)));
        },
    }
}

proof fn lemma_member_n(r: ReqView)
    ensures
        wire_upto_n(r) == wire_upto_top_p(r) + render_entries(member_n(r)),
{
    reveal_strlit(",\"n\":");
    reveal_strlit("n");
    match r.n {
        Some(v) => {
            let m = member_n(r);
            assert(m == seq![("n"@, spec_udec(v as nat))]);
            assert(m.len() == 1);
            assert(m[0] == ("n"@, spec_udec(v as nat)));
            assert(m.drop_first() =~= Seq::<(Seq<char>, Seq<char>)>::empty());
            assert(render_entries(m) == seq![','] + jkey(m[0]) + render_entries(m.drop_first()));
            assert(render_entries(m.drop_first()) == Seq::<char>::empty());
            assert(render_entries(m) =~= seq![','] + jkey(m[0]));
            assert(",\"n\":"@ + spec_udec(v as nat) =~= render_entries(m));
            assert(wire_upto_n(r) == wire_upto_top_p(r) + render_entries(m));
        },
        None => {
            assert(render_entries(member_n(r)) =~= Seq::<char>::empty());
            assert(wire_upto_n(r) == wire_upto_top_p(r) + render_entries(member_n(r)));
        },
    }
}

proof fn lemma_member_stream(r: ReqView)
    ensures
        wire_upto_stream(r) == wire_upto_n(r) + render_entries(member_stream(r)),
{
    reveal_strlit(",\"stream\":");
    reveal_strlit("stream");
    match r.stream {
        Some(b) => {
            let m = member_stream(r);
            assert(m == seq![("stream"@, jbool(b))]);
            assert(m.len() == 1);
            assert(m[0] == ("stream"@, jbool(b)));
            assert(m.drop_first() =~= Seq::<(Seq<char>, Seq<char>)>::empty());
            assert(render_entries(m) == seq![','] + jkey(m[0]) + render_entries(m.drop_first()));
            assert(render_entries(m.drop_first()) == Seq::<char>::empty());
            assert(render_entries(m) =~= seq![','] + jkey(m[0]));
            assert(",\"stream\":"@ + jbool(b) =~= render_entries(m));
            assert(wire_upto_stream(r) == wire_upto_n(r) + render_entries(m));
        },
        None => {
            assert(render_entries(member_stream(r)) =~= Seq::<char>::empty());
            assert(wire_upto_stream(r) == wire_upto_n(r) + render_entries(member_stream(r)));
        },
    }
}

proof fn lemma_member_logprobs(r: ReqView)
    ensures
        wire_upto_logprobs(r) == wire_upto_stream(r) + render_entries(member_logprobs(r)),
{
    reveal_strlit(",\"logprobs\":");
    reveal_strlit("logprobs");
    match r.logprobs {
        Some(v) => {
            let m = member_logprobs(r);
            assert(m == seq![("logprobs"@, spec_udec(v as nat))]);
            assert(m.len() == 1);
            assert(m[0] == ("logprobs"@, spec_udec(v as nat)));
            assert(m.drop_first() =~= Seq::<(Seq<char>, Seq<char>)>::empty());
            assert(render_entries(m) == seq![','] + jkey(m[0]) + render_entries(m.drop_first()));
            assert(render_entries(m.drop_first()) == Seq::<char>::empty());
            assert(render_entries(m) =~= seq![','] + jkey(m[0]));
            assert(",\"logprobs\":"@ + spec_udec(v as nat) =~= render_entries(m));
            assert(wire_upto_logprobs(r) == wire_upto_stream(r) + render_entries(m));
        },
        None => {
            assert(render_entries(member_logprobs(r)) =~= Seq::<char>::empty());
            assert(wire_upto_logprobs(r) == wire_upto_stream(r) + render_entries(member_logprobs(r)));
        },
    }
}

proof fn lemma_member_echo(r: ReqView)
    ensures
        wire_upto_echo(r) == wire_upto_logprobs(r) + render_entries(member_echo(r)),
{
    reveal_strlit(",\"echo\":");
    reveal_strlit("echo");
    match r.echo {
        Some(b) => {
            let m = member_echo(r);
            assert(m == seq![("echo"@, jbool(b))]);
            assert(m.len() == 1);
            assert(m[0] == ("echo"@, jbool(b)));
            assert(m.drop_first() =~= Seq::<(Seq<char>, Seq<char>)>::empty());
            assert(render_entries(m) == seq![','] + jkey(m[0]) + render_entries(m.drop_first()));
            assert(render_entries(m.drop_first()) == Seq::<char>::empty());
            assert(render_entries(m) =~= seq![','] + jkey(m[0]));
            assert(",\"echo\":"@ + jbool(b) =~= render_entries(m));
            assert(wire_upto_echo(r) == wire_upto_logprobs(r) + render_entries(m));
        },
        None => {
            assert(render_entries(member_echo(r)) =~= Seq::<char>::empty());
            assert(wire_upto_echo(r) == wire_upto_logprobs(r) + render_entries(member_echo(r)));
        },
    }
}

proof fn lemma_member_stop(r: ReqView)
    ensures
        wire_upto_stop(r) == wire_upto_echo(r) + render_entries(member_stop(r)),
{
    reveal_strlit(",\"stop\":");
    reveal_strlit("stop");
    match r.stop {
        Some(p) => {
            let m = member_stop(r);
            assert(m == seq![("stop"@, jarr(p))]);
            assert(m.len() == 1);
            assert(m[0] == ("stop"@, jarr(p)));
            assert(m.drop_first() =~= Seq::<(Seq<char>, Seq<char>)>::empty());
            assert(render_entries(m) == seq![','] + jkey(m[0]) + render_entries(m.drop_first()));
            assert(render_entries(m.drop_first()) == Seq::<char>::empty());
            assert(render_entries(m) =~= seq![','] + jkey(m[0]));
            assert(",\"stop\":"@ + jarr(p) =~= render_entries(m));
            assert(wire_upto_stop(r) == wire_upto_echo(r) + render_entries(m));
        },
        None => {
            assert(render_entries(member_stop(r)) =~= Seq::<char>::empty());
            assert(wire_upto_stop(r) == wire_upto_echo(r) + render_entries(member_stop(r)));
        },
    }
}

proof fn lemma_member_presence_penalty(r: ReqView)
    ensures
        wire_upto_presence_penalty(r) == wire_upto_stop(r) + render_entries(member_presence_penalty(r)),
{
    reveal_strlit(",\"presence_penalty\":");
    reveal_strlit("presence_penalty");
    match r.presence_penalty {
        Some(t) => {
            let m = member_presence_penalty(r);
            assert(m == seq![("presence_penalty"@, jtenths(t))]);
            assert(m.len() == 1);
            assert(m[0] == ("presence_penalty"@, jtenths(t)));
            assert(m.drop_first() =~= Seq::<(Seq<char>, Seq<char>)>::empty());
            assert(render_entries(m) == seq![','] + jkey(m[0]) + render_entries(m.drop_first()));
            assert(render_entries(m.drop_first()) == Seq::<char>::empty());
            assert(render_entries(m) =~= seq![','] + jkey(m[0]));
            assert(",\"presence_penalty\":"@ + jtenths(t) =~= render_entries(m));
            assert(wire_upto_presence_penalty(r) == wire_upto_stop(r) + render_entries(m));
        },
        None => {
            assert(render_entries(member_presence_penalty(r)) =~= Seq::<char>::empty());
            assert(wire_upto_presence_penalty(r) == wire_upto_stop(r) + render_entries(member_presence_penalty(r)));
        },
    }
}

proof fn lemma_member_frequency_penalty(r: ReqView)
    ensures
        wire_upto_frequency_penalty(r) == wire_upto_presence_penalty(r) + render_entries(member_frequency_penalty(r)),
{
    reveal_strlit(",\"frequency_penalty\":");
    reveal_strlit("frequency_penalty");
    match r.frequency_penalty {
        Some(t) => {
            let m = member_frequency_penalty(r);
            assert(m == seq![("frequency_penalty"@, jtenths(t))]);
            assert(m.len() == 1);
            assert(m[0] == ("frequency_penalty"@, jtenths(t)));
            assert(m.drop_first() =~= Seq::<(Seq<char>, Seq<char>)>::empty());
            assert(render_entries(m) == seq![','] + jkey(m[0]) + render_entries(m.drop_first()));
            assert(render_entries(m.drop_first()) == Seq::<char>::empty());
            assert(render_entries(m) =~= seq![','] + jkey(m[0]));
            assert(",\"frequency_penalty\":"@ + jtenths(t) =~= render_entries(m));
            assert(wire_upto_frequency_penalty(r) == wire_upto_presence_penalty(r) + render_entries(m));
        },
        None => {
            assert(render_entries(member_frequency_penalty(r)) =~= Seq::<char>::empty());
            assert(wire_upto_frequency_penalty(r) == wire_upto_presence_penalty(r) + render_entries(member_frequency_penalty(r)));
        },
    }
}

proof fn lemma_member_best_of(r: ReqView)
    ensures
        wire_upto_best_of(r) == wire_upto_frequency_penalty(r) + render_entries(member_best_of(r)),
{
    reveal_strlit(",\"best_of\":");
    reveal_strlit("best_of");
    match r.best_of {
        Some(v) => {
            let m = member_best_of(r);
            assert(m == seq![("best_of"@, spec_udec(v as nat))]);
            assert(m.len() == 1);
            assert(m[0] == ("best_of"@, spec_udec(v as nat)));
            assert(m.drop_first() =~= Seq::<(Seq<char>, Seq<char>)>::empty());
            assert(render_entries(m) == seq![','] + jkey(m[0]) + render_entries(m.drop_first()));
            assert(render_entries(m.drop_first()) == Seq::<char>::empty());
            assert(render_entries(m) =~= seq![','] + jkey(m[0]));
            assert(",\"best_of\":"@ + spec_udec(v as nat) =~= render_entries(m));
            assert(wire_upto_best_of(r) == wire_upto_frequency_penalty(r) + render_entries(m));
        },
        None => {
            assert(render_entries(member_best_of(r)) =~= Seq::<char>::empty());
            assert(wire_upto_best_of(r) == wire_upto_frequency_penalty(r) + render_entries(member_best_of(r)));
        },
    }
}

proof fn lemma_member_logit_bias(r: ReqView)
    ensures
        wire_upto_logit_bias(r) == wire_upto_best_of(r) + render_entries(member_logit_bias(r)),
{
    reveal_strlit(",\"logit_bias\":");
    reveal_strlit("logit_bias");
    match r.logit_bias {
        Some(ps) => {
            let m = member_logit_bias(r);
            assert(m == seq![("logit_bias"@, jbias(ps))]);
            assert(m.len() == 1);
            assert(m[0] == ("logit_bias"@, jbias(ps)));
            assert(m.drop_first() =~= Seq::<(Seq<char>, Seq<char>)>::empty());
            assert(render_entries(m) == seq![','] + jkey(m[0]) + render_entries(m.drop_first()));
            assert(render_entries(m.drop_first()) == Seq::<char>::empty());
            assert(render_entries(m) =~= seq![','] + jkey(m[0]));
            assert(",\"logit_bias\":"@ + jbias(ps) =~= render_entries(m));
            assert(wire_upto_logit_bias(r) == wire_upto_best_of(r) + render_entries(m));
        },
        None => {
            assert(render_entries(member_logit_bias(r)) =~= Seq::<char>::empty());
            assert(wire_upto_logit_bias(r) == wire_upto_best_of(r) + render_entries(member_logit_bias(r)));
        },
    }
}

proof fn lemma_member_user(r: ReqView)
    ensures
        wire_upto_user(r) == wire_upto_logit_bias(r) + render_entries(member_user(r)),
{
    reveal_strlit(",\"user\":");
    reveal_strlit("user");
    match r.user {
        Some(s) => {
            let m = member_user(r);
            assert(m == seq![("user"@, jstr(s))]);
            assert(m.len() == 1);
            assert(m[0] == ("user"@, jstr(s)));
            assert(m.drop_first() =~= Seq::<(Seq<char>, Seq<char>)>::empty());
            assert(render_entries(m) == seq![','] + jkey(m[0]) + render_entries(m.drop_first()));
            assert(render_entries(m.drop_first()) == Seq::<char>::empty());
            assert(render_entries(m) =~= seq![','] + jkey(m[0]));
            assert(",\"user\":"@ + jstr(s) =~= render_entries(m));
            assert(wire_upto_user(r) == wire_upto_logit_bias(r) + render_entries(m));
        },
        None => {
            assert(render_entries(member_user(r)) =~= Seq::<char>::empty());
            assert(wire_upto_user(r) == wire_upto_logit_bias(r) + render_entries(member_user(r)));
        },
    }
}

proof fn lemma_tail_prompt(r: ReqView)
    ensures
        wire_upto_prompt(r) == wire_upto_model(r) + render_entries(tail_upto_prompt(r)),
{
    lemma_member_prompt(r);
}

proof fn lemma_tail_suffix(r: ReqView)
    ensures
        wire_upto_suffix(r) == wire_upto_model(r) + render_entries(tail_upto_suffix(r)),
{
    lemma_tail_prompt(r);
    lemma_member_suffix(r);
    lemma_render_entries_concat(tail_upto_prompt(r), member_suffix(r));
    assert((wire_upto_model(r) + render_entries(tail_upto_prompt(r))) + render_entries(
        member_suffix(r),
    ) =~= wire_upto_model(r) + (render_entries(tail_upto_prompt(r)) + render_entries(
        member_suffix(r),
    )));
}

proof fn lemma_tail_max_tokens(r: ReqView)
    ensures
        wire_upto_max_tokens(r) == wire_upto_model(r) + render_entries(tail_upto_max_tokens(r)),
{
    lemma_tail_suffix(r);
    lemma_member_max_tokens(r);
    lemma_render_entries_concat(tail_upto_suffix(r), member_max_tokens(r));
    assert((wire_upto_model(r) + render_entries(tail_upto_suffix(r))) + render_entries(
        member_max_tokens(r),
    ) =~= wire_upto_model(r) + (render_entries(tail_upto_suffix(r)) + render_entries(
        member_max_tokens(r),
    )));
}

proof fn lemma_tail_temperature(r: ReqView)
    ensures
        wire_upto_temperature(r) == wire_upto_model(r) + render_entries(tail_upto_temperature(r)),
{
    lemma_tail_max_tokens(r);
    lemma_member_temperature(r);
    lemma_render_entries_concat(tail_upto_max_tokens(r), member_temperature(r));
    assert((wire_upto_model(r) + render_entries(tail_upto_max_tokens(r))) + render_entries(
        member_temperature(r),
    ) =~= wire_upto_model(r) + (render_entries(tail_upto_max_tokens(r)) + render_entries(
        member_temperature(r),
    )));
}

proof fn lemma_tail_top_p(r: ReqView)
    ensures
        wire_upto_top_p(r) == wire_upto_model(r) + render_entries(tail_upto_top_p(r)),
{
    lemma_tail_temperature(r);
    lemma_member_top_p(r);
    lemma_render_entries_concat(tail_upto_temperature(r), member_top_p(r));
    assert((wire_upto_model(r) + render_entries(tail_upto_temperature(r))) + render_entries(
        member_top_p(r),
    ) =~= wire_upto_model(r) + (render_entries(tail_upto_temperature(r)) + render_entries(
        member_top_p(r),
    )));
}

proof fn lemma_tail_n(r: ReqView)
    ensures
        wire_upto_n(r) == wire_upto_model(r) + render_entries(tail_upto_n(r)),
{
    lemma_tail_top_p(r);
    lemma_member_n(r);
    lemma_render_entries_concat(tail_upto_top_p(r), member_n(r));
    assert((wire_upto_model(r) + render_entries(tail_upto_top_p(r))) + render_entries(
        member_n(r),
    ) =~= wire_upto_model(r) + (render_entries(tail_upto_top_p(r)) + render_entries(
        member_n(r),
    )));
}

proof fn lemma_tail_stream(r: ReqView)
    ensures
        wire_upto_stream(r) == wire_upto_model(r) + render_entries(tail_upto_stream(r)),
{
    lemma_tail_n(r);
    lemma_member_stream(r);
    lemma_render_entries_concat(tail_upto_n(r), member_stream(r));
    assert((wire_upto_model(r) + render_entries(tail_upto_n(r))) + render_entries(
        member_stream(r),
    ) =~= wire_upto_model(r) + (render_entries(tail_upto_n(r)) + render_entries(
        member_stream(r),
    )));
}

proof fn lemma_tail_logprobs(r: ReqView)
    ensures
        wire_upto_logprobs(r) == wire_upto_model(r) + render_entries(tail_upto_logprobs(r)),
{
    lemma_tail_stream(r);
    lemma_member_logprobs(r);
    lemma_render_entries_concat(tail_upto_stream(r), member_logprobs(r));
    assert((wire_upto_model(r) + render_entries(tail_upto_stream(r))) + render_entries(
        member_logprobs(r),
    ) =~= wire_upto_model(r) + (render_entries(tail_upto_stream(r)) + render_entries(
        member_logprobs(r),
    )));
}

proof fn lemma_tail_echo(r: ReqView)
    ensures
        wire_upto_echo(r) == wire_upto_model(r) + render_entries(tail_upto_echo(r)),
{
    lemma_tail_logprobs(r);
    lemma_member_echo(r);
    lemma_render_entries_concat(tail_upto_logprobs(r), member_echo(r));
    assert((wire_upto_model(r) + render_entries(tail_upto_logprobs(r))) + render_entries(
        member_echo(r),
    ) =~= wire_upto_model(r) + (render_entries(tail_upto_logprobs(r)) + render_entries(
        member_echo(r),
    )));
}

proof fn lemma_tail_stop(r: ReqView)
    ensures
        wire_upto_stop(r) == wire_upto_model(r) + render_entries(tail_upto_stop(r)),
{
    lemma_tail_echo(r);
    lemma_member_stop(r);
    lemma_render_entries_concat(tail_upto_echo(r), member_stop(r));
    assert((wire_upto_model(r) + render_entries(tail_upto_echo(r))) + render_entries(
        member_stop(r),
    ) =~= wire_upto_model(r) + (render_entries(tail_upto_echo(r)) + render_entries(
        member_stop(r),
    )));
}

proof fn lemma_tail_presence_penalty(r: ReqView)
    ensures
        wire_upto_presence_penalty(r) == wire_upto_model(r) + render_entries(tail_upto_presence_penalty(r)),
{
    lemma_tail_stop(r);
    lemma_member_presence_penalty(r);
    lemma_render_entries_concat(tail_upto_stop(r), member_presence_penalty(r));
    assert((wire_upto_model(r) + render_entries(tail_upto_stop(r))) + render_entries(
        member_presence_penalty(r),
    ) =~= wire_upto_model(r) + (render_entries(tail_upto_stop(r)) + render_entries(
        member_presence_penalty(r),
    )));
}

proof fn lemma_tail_frequency_penalty(r: ReqView)
    ensures
        wire_upto_frequency_penalty(r) == wire_upto_model(r) + render_entries(tail_upto_frequency_penalty(r)),
{
    lemma_tail_presence_penalty(r);
    lemma_member_frequency_penalty(r);
    lemma_render_entries_concat(tail_upto_presence_penalty(r), member_frequency_penalty(r));
    assert((wire_upto_model(r) + render_entries(tail_upto_presence_penalty(r))) + render_entries(
        member_frequency_penalty(r),
    ) =~= wire_upto_model(r) + (render_entries(tail_upto_presence_penalty(r)) + render_entries(
        member_frequency_penalty(r),
    )));
}

proof fn lemma_tail_best_of(r: ReqView)
    ensures
        wire_upto_best_of(r) == wire_upto_model(r) + render_entries(tail_upto_best_of(r)),
{
    lemma_tail_frequency_penalty(r);
    lemma_member_best_of(r);
    lemma_render_entries_concat(tail_upto_frequency_penalty(r), member_best_of(r));
    assert((wire_upto_model(r) + render_entries(tail_upto_frequency_penalty(r))) + render_entries(
        member_best_of(r),
    ) =~= wire_upto_model(r) + (render_entries(tail_upto_frequency_penalty(r)) + render_entries(
        member_best_of(r),
    )));
}

proof fn lemma_tail_logit_bias(r: ReqView)
    ensures
        wire_upto_logit_bias(r) == wire_upto_model(r) + render_entries(tail_upto_logit_bias(r)),
{
    lemma_tail_best_of(r);
    lemma_member_logit_bias(r);
    lemma_render_entries_concat(tail_upto_best_of(r), member_logit_bias(r));
    assert((wire_upto_model(r) + render_entries(tail_upto_best_of(r))) + render_entries(
        member_logit_bias(r),
    ) =~= wire_upto_model(r) + (render_entries(tail_upto_best_of(r)) + render_entries(
        member_logit_bias(r),
    )));
}

proof fn lemma_tail_user(r: ReqView)
    ensures
        wire_upto_user(r) == wire_upto_model(r) + render_entries(tail_upto_user(r)),
{
    lemma_tail_logit_bias(r);
    lemma_member_user(r);
    lemma_render_entries_concat(tail_upto_logit_bias(r), member_user(r));
    assert((wire_upto_model(r) + render_entries(tail_upto_logit_bias(r))) + render_entries(
        member_user(r),
    ) =~= wire_upto_model(r) + (render_entries(tail_upto_logit_bias(r)) + render_entries(
        member_user(r),
    )));
}

/// The wire form is exactly the rendering of `wire_pairs`: a JSON object
/// whose members are the `model` key and the set optional fields, in order.
#[verifier::rlimit(60)]
#[verifier::spinoff_prover]
pub proof fn lemma_wire_is_render(r: ReqView)
    ensures
        spec_wire(r) == render_obj(wire_pairs(r)),
{
    lemma_tail_user(r);
    reveal_strlit("{\"model\":");
    reveal_strlit("model");
    let ps = wire_pairs(r);
    assert(ps.len() >= 1);
    assert(ps[0] == ("model"@, jstr(r.model)));
    assert(ps.drop_first() =~= tail_upto_user(r));
    assert(wire_upto_model(r) =~= seq!['{'] + jkey(ps[0]));
    assert(render_obj(ps) == seq!['{'] + jkey(ps[0]) + render_entries(ps.drop_first()) + seq![
        '}',
    ]);
    assert((seq!['{'] + jkey(ps[0])) + render_entries(tail_upto_user(r)) =~= seq!['{'] + jkey(
        ps[0],
    ) + render_entries(ps.drop_first()));
    assert(spec_wire(r) =~= render_obj(ps));
}

proof fn lemma_keys_prompt(r: ReqView, k: Seq<char>)
    ensures
        pairs_has_key(tail_upto_prompt(r), k) <==> ((r.prompt is Some && k == "prompt"@)),
{
    assert(pairs_has_key(member_prompt(r), k) == (r.prompt is Some && k == "prompt"@)) by {
        match r.prompt {
            Some(p) => {
                if k == "prompt"@ {
                    assert(member_prompt(r)[0].0 == k);
                }
                if pairs_has_key(member_prompt(r), k) {
                    let j = choose|j: int|
                        0 <= j < member_prompt(r).len() && member_prompt(r)[j].0 == k;
                    assert(member_prompt(r)[j].0 == "prompt"@);
                }
            },
            None => {
                assert(member_prompt(r).len() == 0);
            },
        }
    };
}

proof fn lemma_keys_suffix(r: ReqView, k: Seq<char>)
    ensures
        pairs_has_key(tail_upto_suffix(r), k) <==> ((r.prompt is Some && k == "prompt"@) || (r.suffix is Some && k == "suffix"@)),
{
    lemma_keys_prompt(r, k);
    lemma_has_key_concat(tail_upto_prompt(r), member_suffix(r), k);
    assert(pairs_has_key(member_suffix(r), k) == (r.suffix is Some && k == "suffix"@)) by {
        match r.suffix {
            Some(s) => {
                if k == "suffix"@ {
                    assert(member_suffix(r)[0].0 == k);
                }
                if pairs_has_key(member_suffix(r), k) {
                    let j = choose|j: int|
                        0 <= j < member_suffix(r).len() && member_suffix(r)[j].0 == k;
                    assert(member_suffix(r)[j].0 == "suffix"@);
                }
            },
            None => {
                assert(member_suffix(r).len() == 0);
            },
        }
    };
}

proof fn lemma_keys_max_tokens(r: ReqView, k: Seq<char>)
    ensures
        pairs_has_key(tail_upto_max_tokens(r), k) <==> ((r.prompt is Some && k == "prompt"@) || (r.suffix is Some && k == "suffix"@) || (r.max_tokens is Some && k == "max_tokens"@)),
{
    lemma_keys_suffix(r, k);
    lemma_has_key_concat(tail_upto_suffix(r), member_max_tokens(r), k);
    assert(pairs_has_key(member_max_tokens(r), k) == (r.max_tokens is Some && k == "max_tokens"@)) by {
        match r.max_tokens {
            Some(v) => {
                if k == "max_tokens"@ {
                    assert(member_max_tokens(r)[0].0 == k);
                }
                if pairs_has_key(member_max_tokens(r), k) {
                    let j = choose|j: int|
                        0 <= j < member_max_tokens(r).len() && member_max_tokens(r)[j].0 == k;
                    assert(member_max_tokens(r)[j].0 == "max_tokens"@);
                }
            },
            None => {
                assert(member_max_tokens(r).len() == 0);
            },
        }
    };
}

proof fn lemma_keys_temperature(r: ReqView, k: Seq<char>)
    ensures
        pairs_has_key(tail_upto_temperature(r), k) <==> ((r.prompt is Some && k == "prompt"@) || (r.suffix is Some && k == "suffix"@) || (r.max_tokens is Some && k == "max_tokens"@) || (r.temperature is Some && k == "temperature"@)),
{
    lemma_keys_max_tokens(r, k);
    lemma_has_key_concat(tail_upto_max_tokens(r), member_temperature(r), k);
    assert(pairs_has_key(member_temperature(r), k) == (r.temperature is Some && k == "temperature"@)) by {
        match r.temperature {
            Some(t) => {
                if k == "temperature"@ {
                    assert(member_temperature(r)[0].0 == k);
                }
                if pairs_has_key(member_temperature(r), k) {
                    let j = choose|j: int|
                        0 <= j < member_temperature(r).len() && member_temperature(r)[j].0 == k;
                    assert(member_temperature(r)[j].0 == "temperature"@);
                }
            },
            None => {
                assert(member_temperature(r).len() == 0);
            },
        }
    };
}

proof fn lemma_keys_top_p(r: ReqView, k: Seq<char>)
    ensures
        pairs_has_key(tail_upto_top_p(r), k) <==> ((r.prompt is Some && k == "prompt"@) || (r.suffix is Some && k == "suffix"@) || (r.max_tokens is Some && k == "max_tokens"@) || (r.temperature is Some && k == "temperature"@) || (r.top_p is Some && k == "top_p"@)),
{
    lemma_keys_temperature(r, k);
    lemma_has_key_concat(tail_upto_temperature(r), member_top_p(r), k);
    assert(pairs_has_key(member_top_p(r), k) == (r.top_p is Some && k == "top_p"@)) by {
        match r.top_p {
            Some(t) => {
                if k == "top_p"@ {
                    assert(member_top_p(r)[0].0 == k);
                }
                if pairs_has_key(member_top_p(r), k) {
                    let j = choose|j: int|
                        0 <= j < member_top_p(r).len() && member_top_p(r)[j].0 == k;
                    assert(member_top_p(r)[j].0 == "top_p"@);
                }
            },
            None => {
                assert(member_top_p(r).len() == 0);
            },
        }
    };
}

proof fn lemma_keys_n(r: ReqView, k: Seq<char>)
    ensures
        pairs_has_key(tail_upto_n(r), k) <==> ((r.prompt is Some && k == "prompt"@) || (r.suffix is Some && k == "suffix"@) || (r.max_tokens is Some && k == "max_tokens"@) || (r.temperature is Some && k == "temperature"@) || (r.top_p is Some && k == "top_p"@) || (r.n is Some && k == "n"@)),
{
    lemma_keys_top_p(r, k);
    lemma_has_key_concat(tail_upto_top_p(r), member_n(r), k);
    assert(pairs_has_key(member_n(r), k) == (r.n is Some && k == "n"@)) by {
        match r.n {
            Some(v) => {
                if k == "n"@ {
                    assert(member_n(r)[0].0 == k);
                }
                if pairs_has_key(member_n(r), k) {
                    let j = choose|j: int|
                        0 <= j < member_n(r).len() && member_n(r)[j].0 == k;
                    assert(member_n(r)[j].0 == "n"@);
                }
            },
            None => {
                assert(member_n(r).len() == 0);
            },
        }
    };
}

proof fn lemma_keys_stream(r: ReqView, k: Seq<char>)
    ensures
        pairs_has_key(tail_upto_stream(r), k) <==> ((r.prompt is Some && k == "prompt"@) || (r.suffix is Some && k == "suffix"@) || (r.max_tokens is Some && k == "max_tokens"@) || (r.temperature is Some && k == "temperature"@) || (r.top_p is Some && k == "top_p"@) || (r.n is Some && k == "n"@) || (r.stream is Some && k == "stream"@)),
{
    lemma_keys_n(r, k);
    lemma_has_key_concat(tail_upto_n(r), member_stream(r), k);
    assert(pairs_has_key(member_stream(r), k) == (r.stream is Some && k == "stream"@)) by {
        match r.stream {
            Some(b) => {
                if k == "stream"@ {
                    assert(member_stream(r)[0].0 == k);
                }
                if pairs_has_key(member_stream(r), k) {
                    let j = choose|j: int|
                        0 <= j < member_stream(r).len() && member_stream(r)[j].0 == k;
                    assert(member_stream(r)[j].0 == "stream"@);
                }
            },
            None => {
                assert(member_stream(r).len() == 0);
            },
        }
    };
}

proof fn lemma_keys_logprobs(r: ReqView, k: Seq<char>)
    ensures
        pairs_has_key(tail_upto_logprobs(r), k) <==> ((r.prompt is Some && k == "prompt"@) || (r.suffix is Some && k == "suffix"@) || (r.max_tokens is Some && k == "max_tokens"@) || (r.temperature is Some && k == "temperature"@) || (r.top_p is Some && k == "top_p"@) || (r.n is Some && k == "n"@) || (r.stream is Some && k == "stream"@) || (r.logprobs is Some && k == "logprobs"@)),
{
    lemma_keys_stream(r, k);
    lemma_has_key_concat(tail_upto_stream(r), member_logprobs(r), k);
    assert(pairs_has_key(member_logprobs(r), k) == (r.logprobs is Some && k == "logprobs"@)) by {
        match r.logprobs {
            Some(v) => {
                if k == "logprobs"@ {
                    assert(member_logprobs(r)[0].0 == k);
                }
                if pairs_has_key(member_logprobs(r), k) {
                    let j = choose|j: int|
                        0 <= j < member_logprobs(r).len() && member_logprobs(r)[j].0 == k;
                    assert(member_logprobs(r)[j].0 == "logprobs"@);
                }
            },
            None => {
                assert(member_logprobs(r).len() == 0);
            },
        }
    };
}

proof fn lemma_keys_echo(r: ReqView, k: Seq<char>)
    ensures
        pairs_has_key(tail_upto_echo(r), k) <==> ((r.prompt is Some && k == "prompt"@) || (r.suffix is Some && k == "suffix"@) || (r.max_tokens is Some && k == "max_tokens"@) || (r.temperature is Some && k == "temperature"@) || (r.top_p is Some && k == "top_p"@) || (r.n is Some && k == "n"@) || (r.stream is Some && k == "stream"@) || (r.logprobs is Some && k == "logprobs"@) || (r.echo is Some && k == "echo"@)),
{
    lemma_keys_logprobs(r, k);
    lemma_has_key_concat(tail_upto_logprobs(r), member_echo(r), k);
    assert(pairs_has_key(member_echo(r), k) == (r.echo is Some && k == "echo"@)) by {
        match r.echo {
            Some(b) => {
                if k == "echo"@ {
                    assert(member_echo(r)[0].0 == k);
                }
                if pairs_has_key(member_echo(r), k) {
                    let j = choose|j: int|
                        0 <= j < member_echo(r).len() && member_echo(r)[j].0 == k;
                    assert(member_echo(r)[j].0 == "echo"@);
                }
            },
            None => {
                assert(member_echo(r).len() == 0);
            },
        }
    };
}

proof fn lemma_keys_stop(r: ReqView, k: Seq<char>)
    ensures
        pairs_has_key(tail_upto_stop(r), k) <==> ((r.prompt is Some && k == "prompt"@) || (r.suffix is Some && k == "suffix"@) || (r.max_tokens is Some && k == "max_tokens"@) || (r.temperature is Some && k == "temperature"@) || (r.top_p is Some && k == "top_p"@) || (r.n is Some && k == "n"@) || (r.stream is Some && k == "stream"@) || (r.logprobs is Some && k == "logprobs"@) || (r.echo is Some && k == "echo"@) || (r.stop is Some && k == "stop"@)),
{
    lemma_keys_echo(r, k);
    lemma_has_key_concat(tail_upto_echo(r), member_stop(r), k);
    assert(pairs_has_key(member_stop(r), k) == (r.stop is Some && k == "stop"@)) by {
        match r.stop {
            Some(p) => {
                if k == "stop"@ {
                    assert(member_stop(r)[0].0 == k);
                }
                if pairs_has_key(member_stop(r), k) {
                    let j = choose|j: int|
                        0 <= j < member_stop(r).len() && member_stop(r)[j].0 == k;
                    assert(member_stop(r)[j].0 == "stop"@);
                }
            },
            None => {
                assert(member_stop(r).len() == 0);
            },
        }
    };
}

proof fn lemma_keys_presence_penalty(r: ReqView, k: Seq<char>)
    ensures
        pairs_has_key(tail_upto_presence_penalty(r), k) <==> ((r.prompt is Some && k == "prompt"@) || (r.suffix is Some && k == "suffix"@) || (r.max_tokens is Some && k == "max_tokens"@) || (r.temperature is Some && k == "temperature"@) || (r.top_p is Some && k == "top_p"@) || (r.n is Some && k == "n"@) || (r.stream is Some && k == "stream"@) || (r.logprobs is Some && k == "logprobs"@) || (r.echo is Some && k == "echo"@) || (r.stop is Some && k == "stop"@) || (r.presence_penalty is Some && k == "presence_penalty"@)),
{
    lemma_keys_stop(r, k);
    lemma_has_key_concat(tail_upto_stop(r), member_presence_penalty(r), k);
    assert(pairs_has_key(member_presence_penalty(r), k) == (r.presence_penalty is Some && k == "presence_penalty"@)) by {
        match r.presence_penalty {
            Some(t) => {
                if k == "presence_penalty"@ {
                    assert(member_presence_penalty(r)[0].0 == k);
                }
                if pairs_has_key(member_presence_penalty(r), k) {
                    let j = choose|j: int|
                        0 <= j < member_presence_penalty(r).len() && member_presence_penalty(r)[j].0 == k;
                    assert(member_presence_penalty(r)[j].0 == "presence_penalty"@);
                }
            },
            None => {
                assert(member_presence_penalty(r).len() == 0);
            },
        }
    };
}

proof fn lemma_keys_frequency_penalty(r: ReqView, k: Seq<char>)
    ensures
        pairs_has_key(tail_upto_frequency_penalty(r), k) <==> ((r.prompt is Some && k == "prompt"@) || (r.suffix is Some && k == "suffix"@) || (r.max_tokens is Some && k == "max_tokens"@) || (r.temperature is Some && k == "temperature"@) || (r.top_p is Some && k == "top_p"@) || (r.n is Some && k == "n"@) || (r.stream is Some && k == "stream"@) || (r.logprobs is Some && k == "logprobs"@) || (r.echo is Some && k == "echo"@) || (r.stop is Some && k == "stop"@) || (r.presence_penalty is Some && k == "presence_penalty"@) || (r.frequency_penalty is Some && k == "frequency_penalty"@)),
{
    lemma_keys_presence_penalty(r, k);
    lemma_has_key_concat(tail_upto_presence_penalty(r), member_frequency_penalty(r), k);
    assert(pairs_has_key(member_frequency_penalty(r), k) == (r.frequency_penalty is Some && k == "frequency_penalty"@)) by {
        match r.frequency_penalty {
            Some(t) => {
                if k == "frequency_penalty"@ {
                    assert(member_frequency_penalty(r)[0].0 == k);
                }
                if pairs_has_key(member_frequency_penalty(r), k) {
                    let j = choose|j: int|
                        0 <= j < member_frequency_penalty(r).len() && member_frequency_penalty(r)[j].0 == k;
                    assert(member_frequency_penalty(r)[j].0 == "frequency_penalty"@);
                }
            },
            None => {
                assert(member_frequency_penalty(r).len() == 0);
            },
        }
    };
}

proof fn lemma_keys_best_of(r: ReqView, k: Seq<char>)
    ensures
        pairs_has_key(tail_upto_best_of(r), k) <==> ((r.prompt is Some && k == "prompt"@) || (r.suffix is Some && k == "suffix"@) || (r.max_tokens is Some && k == "max_tokens"@) || (r.temperature is Some && k == "temperature"@) || (r.top_p is Some && k == "top_p"@) || (r.n is Some && k == "n"@) || (r.stream is Some && k == "stream"@) || (r.logprobs is Some && k == "logprobs"@) || (r.echo is Some && k == "echo"@) || (r.stop is Some && k == "stop"@) || (r.presence_penalty is Some && k == "presence_penalty"@) || (r.frequency_penalty is Some && k == "frequency_penalty"@) || (r.best_of is Some && k == "best_of"@)),
{
    lemma_keys_frequency_penalty(r, k);
    lemma_has_key_concat(tail_upto_frequency_penalty(r), member_best_of(r), k);
    assert(pairs_has_key(member_best_of(r), k) == (r.best_of is Some && k == "best_of"@)) by {
        match r.best_of {
            Some(v) => {
                if k == "best_of"@ {
                    assert(member_best_of(r)[0].0 == k);
                }
                if pairs_has_key(member_best_of(r), k) {
                    let j = choose|j: int|
                        0 <= j < member_best_of(r).len() && member_best_of(r)[j].0 == k;
                    assert(member_best_of(r)[j].0 == "best_of"@);
                }
            },
            None => {
                assert(member_best_of(r).len() == 0);
            },
        }
    };
}

proof fn lemma_keys_logit_bias(r: ReqView, k: Seq<char>)
    ensures
        pairs_has_key(tail_upto_logit_bias(r), k) <==> ((r.prompt is Some && k == "prompt"@) || (r.suffix is Some && k == "suffix"@) || (r.max_tokens is Some && k == "max_tokens"@) || (r.temperature is Some && k == "temperature"@) || (r.top_p is Some && k == "top_p"@) || (r.n is Some && k == "n"@) || (r.stream is Some && k == "stream"@) || (r.logprobs is Some && k == "logprobs"@) || (r.echo is Some && k == "echo"@) || (r.stop is Some && k == "stop"@) || (r.presence_penalty is Some && k == "presence_penalty"@) || (r.frequency_penalty is Some && k == "frequency_penalty"@) || (r.best_of is Some && k == "best_of"@) || (r.logit_bias is Some && k == "logit_bias"@)),
{
    lemma_keys_best_of(r, k);
    lemma_has_key_concat(tail_upto_best_of(r), member_logit_bias(r), k);
    assert(pairs_has_key(member_logit_bias(r), k) == (r.logit_bias is Some && k == "logit_bias"@)) by {
        match r.logit_bias {
            Some(ps) => {
                if k == "logit_bias"@ {
                    assert(member_logit_bias(r)[0].0 == k);
                }
                if pairs_has_key(member_logit_bias(r), k) {
                    let j = choose|j: int|
                        0 <= j < member_logit_bias(r).len() && member_logit_bias(r)[j].0 == k;
                    assert(member_logit_bias(r)[j].0 == "logit_bias"@);
                }
            },
            None => {
                assert(member_logit_bias(r).len() == 0);
            },
        }
    };
}

proof fn lemma_keys_user(r: ReqView, k: Seq<char>)
    ensures
        pairs_has_key(tail_upto_user(r), k) <==> ((r.prompt is Some && k == "prompt"@) || (r.suffix is Some && k == "suffix"@) || (r.max_tokens is Some && k == "max_tokens"@) || (r.temperature is Some && k == "temperature"@) || (r.top_p is Some && k == "top_p"@) || (r.n is Some && k == "n"@) || (r.stream is Some && k == "stream"@) || (r.logprobs is Some && k == "logprobs"@) || (r.echo is Some && k == "echo"@) || (r.stop is Some && k == "stop"@) || (r.presence_penalty is Some && k == "presence_penalty"@) || (r.frequency_penalty is Some && k == "frequency_penalty"@) || (r.best_of is Some && k == "best_of"@) || (r.logit_bias is Some && k == "logit_bias"@) || (r.user is Some && k == "user"@)),
{
    lemma_keys_logit_bias(r, k);
    lemma_has_key_concat(tail_upto_logit_bias(r), member_user(r), k);
    assert(pairs_has_key(member_user(r), k) == (r.user is Some && k == "user"@)) by {
        match r.user {
            Some(s) => {
                if k == "user"@ {
                    assert(member_user(r)[0].0 == k);
                }
                if pairs_has_key(member_user(r), k) {
                    let j = choose|j: int|
                        0 <= j < member_user(r).len() && member_user(r)[j].0 == k;
                    assert(member_user(r)[j].0 == "user"@);
                }
            },
            None => {
                assert(member_user(r).len() == 0);
            },
        }
    };
}

/// A key occurs among the wire members exactly when its field is set (the
/// `model` key always).
pub proof fn lemma_wire_pairs_keys(r: ReqView, k: Seq<char>)
    ensures
        pairs_has_key(wire_pairs(r), k) <==> (k == "model"@
            || (r.prompt is Some && k == "prompt"@)
            || (r.suffix is Some && k == "suffix"@)
            || (r.max_tokens is Some && k == "max_tokens"@)
            || (r.temperature is Some && k == "temperature"@)
            || (r.top_p is Some && k == "top_p"@)
            || (r.n is Some && k == "n"@)
            || (r.stream is Some && k == "stream"@)
            || (r.logprobs is Some && k == "logprobs"@)
            || (r.echo is Some && k == "echo"@)
            || (r.stop is Some && k == "stop"@)
            || (r.presence_penalty is Some && k == "presence_penalty"@)
            || (r.frequency_penalty is Some && k == "frequency_penalty"@)
            || (r.best_of is Some && k == "best_of"@)
            || (r.logit_bias is Some && k == "logit_bias"@)
            || (r.user is Some && k == "user"@)),
{
    lemma_keys_user(r, k);
    let m = seq![("model"@, jstr(r.model))];
    lemma_has_key_concat(m, tail_upto_user(r), k);
    assert(pairs_has_key(m, k) == (k == "model"@)) by {
        if k == "model"@ {
            assert(m[0].0 == k);
        }
        if pairs_has_key(m, k) {
            let j = choose|j: int| 0 <= j < m.len() && m[j].0 == k;
            assert(m[j].0 == "model"@);
        }
    };
}

/// Sparse serialization: the wire form is the rendering of a key/value
/// member list that carries the `model` key always, and the key of an
/// optional field exactly when that field was explicitly set — an unset
/// field never appears, a field set to a falsy value still does.

#[verifier::spinoff_prover]
proof fn lemma_key_prompt(r: ReqView)
    ensures
        pairs_has_key(wire_pairs(r), "prompt"@) <==> r.prompt is Some,
{
    reveal_strlit("model");
    reveal_strlit("prompt");
    reveal_strlit("suffix");
    reveal_strlit("max_tokens");
    reveal_strlit("temperature");
    reveal_strlit("top_p");
    reveal_strlit("n");
    reveal_strlit("stream");
    reveal_strlit("logprobs");
    reveal_strlit("echo");
    reveal_strlit("stop");
    reveal_strlit("presence_penalty");
    reveal_strlit("frequency_penalty");
    reveal_strlit("best_of");
    reveal_strlit("logit_bias");
    reveal_strlit("user");
    assert("model"@.len() == 5);
    assert("prompt"@.len() == 6);
    assert("suffix"@.len() == 6);
    assert("max_tokens"@.len() == 10);
    assert("temperature"@.len() == 11);
    assert("top_p"@.len() == 5);
    assert("n"@.len() == 1);
    assert("stream"@.len() == 6);
    assert("logprobs"@.len() == 8);
    assert("echo"@.len() == 4);
    assert("stop"@.len() == 4);
    assert("presence_penalty"@.len() == 16);
    assert("frequency_penalty"@.len() == 17);
    assert("best_of"@.len() == 7);
    assert("logit_bias"@.len() == 10);
    assert("user"@.len() == 4);
    assert("model"@[0] != "top_p"@[0]);
    assert("prompt"@[0] != "suffix"@[0]);
    assert("prompt"@[0] != "stream"@[0]);
    assert("suffix"@[1] != "stream"@[1]);
    assert("max_tokens"@[0] != "logit_bias"@[0]);
    assert("echo"@[0] != "stop"@[0]);
    assert("echo"@[0] != "user"@[0]);
    assert("stop"@[0] != "user"@[0]);
    lemma_wire_pairs_keys(r, "prompt"@);
}

#[verifier::spinoff_prover]
proof fn lemma_key_suffix(r: ReqView)
    ensures
        pairs_has_key(wire_pairs(r), "suffix"@) <==> r.suffix is Some,
{
    reveal_strlit("model");
    reveal_strlit("prompt");
    reveal_strlit("suffix");
    reveal_strlit("max_tokens");
    reveal_strlit("temperature");
    reveal_strlit("top_p");
    reveal_strlit("n");
    reveal_strlit("stream");
    reveal_strlit("logprobs");
    reveal_strlit("echo");
    reveal_strlit("stop");
    reveal_strlit("presence_penalty");
    reveal_strlit("frequency_penalty");
    reveal_strlit("best_of");
    reveal_strlit("logit_bias");
    reveal_strlit("user");
    assert("model"@.len() == 5);
    assert("prompt"@.len() == 6);
    assert("suffix"@.len() == 6);
    assert("max_tokens"@.len() == 10);
    assert("temperature"@.len() == 11);
    assert("top_p"@.len() == 5);
    assert("n"@.len() == 1);
    assert("stream"@.len() == 6);
    assert("logprobs"@.len() == 8);
    assert("echo"@.len() == 4);
    assert("stop"@.len() == 4);
    assert("presence_penalty"@.len() == 16);
    assert("frequency_penalty"@.len() == 17);
    assert("best_of"@.len() == 7);
    assert("logit_bias"@.len() == 10);
    assert("user"@.len() == 4);
    assert("model"@[0] != "top_p"@[0]);
    assert("prompt"@[0] != "suffix"@[0]);
    assert("prompt"@[0] != "stream"@[0]);
    assert("suffix"@[1] != "stream"@[1]);
    assert("max_tokens"@[0] != "logit_bias"@[0]);
    assert("echo"@[0] != "stop"@[0]);
    assert("echo"@[0] != "user"@[0]);
    assert("stop"@[0] != "user"@[0]);
    lemma_wire_pairs_keys(r, "suffix"@);
}

#[verifier::spinoff_prover]
proof fn lemma_key_max_tokens(r: ReqView)
    ensures
        pairs_has_key(wire_pairs(r), "max_tokens"@) <==> r.max_tokens is Some,
{
    reveal_strlit("model");
    reveal_strlit("prompt");
    reveal_strlit("suffix");
    reveal_strlit("max_tokens");
    reveal_strlit("temperature");
    reveal_strlit("top_p");
    reveal_strlit("n");
    reveal_strlit("stream");
    reveal_strlit("logprobs");
    reveal_strlit("echo");
    reveal_strlit("stop");
    reveal_strlit("presence_penalty");
    reveal_strlit("frequency_penalty");
    reveal_strlit("best_of");
    reveal_strlit("logit_bias");
    reveal_strlit("user");
    assert("model"@.len() == 5);
    assert("prompt"@.len() == 6);
    assert("suffix"@.len() == 6);
    assert("max_tokens"@.len() == 10);
    assert("temperature"@.len() == 11);
    assert("top_p"@.len() == 5);
    assert("n"@.len() == 1);
    assert("stream"@.len() == 6);
    assert("logprobs"@.len() == 8);
    assert("echo"@.len() == 4);
    assert("stop"@.len() == 4);
    assert("presence_penalty"@.len() == 16);
    assert("frequency_penalty"@.len() == 17);
    assert("best_of"@.len() == 7);
    assert("logit_bias"@.len() == 10);
    assert("user"@.len() == 4);
    assert("model"@[0] != "top_p"@[0]);
    assert("prompt"@[0] != "suffix"@[0]);
    assert("prompt"@[0] != "stream"@[0]);
    assert("suffix"@[1] != "stream"@[1]);
    assert("max_tokens"@[0] != "logit_bias"@[0]);
    assert("echo"@[0] != "stop"@[0]);
    assert("echo"@[0] != "user"@[0]);
    assert("stop"@[0] != "user"@[0]);
    lemma_wire_pairs_keys(r, "max_tokens"@);
}

#[verifier::spinoff_prover]
proof fn lemma_key_temperature(r: ReqView)
    ensures
        pairs_has_key(wire_pairs(r), "temperature"@) <==> r.temperature is Some,
{
    reveal_strlit("model");
    reveal_strlit("prompt");
    reveal_strlit("suffix");
    reveal_strlit("max_tokens");
    reveal_strlit("temperature");
    reveal_strlit("top_p");
    reveal_strlit("n");
    reveal_strlit("stream");
    reveal_strlit("logprobs");
    reveal_strlit("echo");
    reveal_strlit("stop");
    reveal_strlit("presence_penalty");
    reveal_strlit("frequency_penalty");
    reveal_strlit("best_of");
    reveal_strlit("logit_bias");
    reveal_strlit("user");
    assert("model"@.len() == 5);
    assert("prompt"@.len() == 6);
    assert("suffix"@.len() == 6);
    assert("max_tokens"@.len() == 10);
    assert("temperature"@.len() == 11);
    assert("top_p"@.len() == 5);
    assert("n"@.len() == 1);
    assert("stream"@.len() == 6);
    assert("logprobs"@.len() == 8);
    assert("echo"@.len() == 4);
    assert("stop"@.len() == 4);
    assert("presence_penalty"@.len() == 16);
    assert("frequency_penalty"@.len() == 17);
    assert("best_of"@.len() == 7);
    assert("logit_bias"@.len() == 10);
    assert("user"@.len() == 4);
    assert("model"@[0] != "top_p"@[0]);
    assert("prompt"@[0] != "suffix"@[0]);
    assert("prompt"@[0] != "stream"@[0]);
    assert("suffix"@[1] != "stream"@[1]);
    assert("max_tokens"@[0] != "logit_bias"@[0]);
    assert("echo"@[0] != "stop"@[0]);
    assert("echo"@[0] != "user"@[0]);
    assert("stop"@[0] != "user"@[0]);
    lemma_wire_pairs_keys(r, "temperature"@);
}

#[verifier::spinoff_prover]
proof fn lemma_key_top_p(r: ReqView)
    ensures
        pairs_has_key(wire_pairs(r), "top_p"@) <==> r.top_p is Some,
{
    reveal_strlit("model");
    reveal_strlit("prompt");
    reveal_strlit("suffix");
    reveal_strlit("max_tokens");
    reveal_strlit("temperature");
    reveal_strlit("top_p");
    reveal_strlit("n");
    reveal_strlit("stream");
    reveal_strlit("logprobs");
    reveal_strlit("echo");
    reveal_strlit("stop");
    reveal_strlit("presence_penalty");
    reveal_strlit("frequency_penalty");
    reveal_strlit("best_of");
    reveal_strlit("logit_bias");
    reveal_strlit("user");
    assert("model"@.len() == 5);
    assert("prompt"@.len() == 6);
    assert("suffix"@.len() == 6);
    assert("max_tokens"@.len() == 10);
    assert("temperature"@.len() == 11);
    assert("top_p"@.len() == 5);
    assert("n"@.len() == 1);
    assert("stream"@.len() == 6);
    assert("logprobs"@.len() == 8);
    assert("echo"@.len() == 4);
    assert("stop"@.len() == 4);
    assert("presence_penalty"@.len() == 16);
    assert("frequency_penalty"@.len() == 17);
    assert("best_of"@.len() == 7);
    assert("logit_bias"@.len() == 10);
    assert("user"@.len() == 4);
    assert("model"@[0] != "top_p"@[0]);
    assert("prompt"@[0] != "suffix"@[0]);
    assert("prompt"@[0] != "stream"@[0]);
    assert("suffix"@[1] != "stream"@[1]);
    assert("max_tokens"@[0] != "logit_bias"@[0]);
    assert("echo"@[0] != "stop"@[0]);
    assert("echo"@[0] != "user"@[0]);
    assert("stop"@[0] != "user"@[0]);
    lemma_wire_pairs_keys(r, "top_p"@);
}

#[verifier::spinoff_prover]
proof fn lemma_key_n(r: ReqView)
    ensures
        pairs_has_key(wire_pairs(r), "n"@) <==> r.n is Some,
{
    reveal_strlit("model");
    reveal_strlit("prompt");
    reveal_strlit("suffix");
    reveal_strlit("max_tokens");
    reveal_strlit("temperature");
    reveal_strlit("top_p");
    reveal_strlit("n");
    reveal_strlit("stream");
    reveal_strlit("logprobs");
    reveal_strlit("echo");
    reveal_strlit("stop");
    reveal_strlit("presence_penalty");
    reveal_strlit("frequency_penalty");
    reveal_strlit("best_of");
    reveal_strlit("logit_bias");
    reveal_strlit("user");
    assert("model"@.len() == 5);
    assert("prompt"@.len() == 6);
    assert("suffix"@.len() == 6);
    assert("max_tokens"@.len() == 10);
    assert("temperature"@.len() == 11);
    assert("top_p"@.len() == 5);
    assert("n"@.len() == 1);
    assert("stream"@.len() == 6);
    assert("logprobs"@.len() == 8);
    assert("echo"@.len() == 4);
    assert("stop"@.len() == 4);
    assert("presence_penalty"@.len() == 16);
    assert("frequency_penalty"@.len() == 17);
    assert("best_of"@.len() == 7);
    assert("logit_bias"@.len() == 10);
    assert("user"@.len() == 4);
    assert("model"@[0] != "top_p"@[0]);
    assert("prompt"@[0] != "suffix"@[0]);
    assert("prompt"@[0] != "stream"@[0]);
    assert("suffix"@[1] != "stream"@[1]);
    assert("max_tokens"@[0] != "logit_bias"@[0]);
    assert("echo"@[0] != "stop"@[0]);
    assert("echo"@[0] != "user"@[0]);
    assert("stop"@[0] != "user"@[0]);
    lemma_wire_pairs_keys(r, "n"@);
}

#[verifier::spinoff_prover]
proof fn lemma_key_stream(r: ReqView)
    ensures
        pairs_has_key(wire_pairs(r), "stream"@) <==> r.stream is Some,
{
    reveal_strlit("model");
    reveal_strlit("prompt");
    reveal_strlit("suffix");
    reveal_strlit("max_tokens");
    reveal_strlit("temperature");
    reveal_strlit("top_p");
    reveal_strlit("n");
    reveal_strlit("stream");
    reveal_strlit("logprobs");
    reveal_strlit("echo");
    reveal_strlit("stop");
    reveal_strlit("presence_penalty");
    reveal_strlit("frequency_penalty");
    reveal_strlit("best_of");
    reveal_strlit("logit_bias");
    reveal_strlit("user");
    assert("model"@.len() == 5);
    assert("prompt"@.len() == 6);
    assert("suffix"@.len() == 6);
    assert("max_tokens"@.len() == 10);
    assert("temperature"@.len() == 11);
    assert("top_p"@.len() == 5);
    assert("n"@.len() == 1);
    assert("stream"@.len() == 6);
    assert("logprobs"@.len() == 8);
    assert("echo"@.len() == 4);
    assert("stop"@.len() == 4);
    assert("presence_penalty"@.len() == 16);
    assert("frequency_penalty"@.len() == 17);
    assert("best_of"@.len() == 7);
    assert("logit_bias"@.len() == 10);
    assert("user"@.len() == 4);
    assert("model"@[0] != "top_p"@[0]);
    assert("prompt"@[0] != "suffix"@[0]);
    assert("prompt"@[0] != "stream"@[0]);
    assert("suffix"@[1] != "stream"@[1]);
    assert("max_tokens"@[0] != "logit_bias"@[0]);
    assert("echo"@[0] != "stop"@[0]);
    assert("echo"@[0] != "user"@[0]);
    assert("stop"@[0] != "user"@[0]);
    lemma_wire_pairs_keys(r, "stream"@);
}

#[verifier::spinoff_prover]
proof fn lemma_key_logprobs(r: ReqView)
    ensures
        pairs_has_key(wire_pairs(r), "logprobs"@) <==> r.logprobs is Some,
{
    reveal_strlit("model");
    reveal_strlit("prompt");
    reveal_strlit("suffix");
    reveal_strlit("max_tokens");
    reveal_strlit("temperature");
    reveal_strlit("top_p");
    reveal_strlit("n");
    reveal_strlit("stream");
    reveal_strlit("logprobs");
    reveal_strlit("echo");
    reveal_strlit("stop");
    reveal_strlit("presence_penalty");
    reveal_strlit("frequency_penalty");
    reveal_strlit("best_of");
    reveal_strlit("logit_bias");
    reveal_strlit("user");
    assert("model"@.len() == 5);
    assert("prompt"@.len() == 6);
    assert("suffix"@.len() == 6);
    assert("max_tokens"@.len() == 10);
    assert("temperature"@.len() == 11);
    assert("top_p"@.len() == 5);
    assert("n"@.len() == 1);
    assert("stream"@.len() == 6);
    assert("logprobs"@.len() == 8);
    assert("echo"@.len() == 4);
    assert("stop"@.len() == 4);
    assert("presence_penalty"@.len() == 16);
    assert("frequency_penalty"@.len() == 17);
    assert("best_of"@.len() == 7);
    assert("logit_bias"@.len() == 10);
    assert("user"@.len() == 4);
    assert("model"@[0] != "top_p"@[0]);
    assert("prompt"@[0] != "suffix"@[0]);
    assert("prompt"@[0] != "stream"@[0]);
    assert("suffix"@[1] != "stream"@[1]);
    assert("max_tokens"@[0] != "logit_bias"@[0]);
    assert("echo"@[0] != "stop"@[0]);
    assert("echo"@[0] != "user"@[0]);
    assert("stop"@[0] != "user"@[0]);
    lemma_wire_pairs_keys(r, "logprobs"@);
}

#[verifier::spinoff_prover]
proof fn lemma_key_echo(r: ReqView)
    ensures
        pairs_has_key(wire_pairs(r), "echo"@) <==> r.echo is Some,
{
    reveal_strlit("model");
    reveal_strlit("prompt");
    reveal_strlit("suffix");
    reveal_strlit("max_tokens");
    reveal_strlit("temperature");
    reveal_strlit("top_p");
    reveal_strlit("n");
    reveal_strlit("stream");
    reveal_strlit("logprobs");
    reveal_strlit("echo");
    reveal_strlit("stop");
    reveal_strlit("presence_penalty");
    reveal_strlit("frequency_penalty");
    reveal_strlit("best_of");
    reveal_strlit("logit_bias");
    reveal_strlit("user");
    assert("model"@.len() == 5);
    assert("prompt"@.len() == 6);
    assert("suffix"@.len() == 6);
    assert("max_tokens"@.len() == 10);
    assert("temperature"@.len() == 11);
    assert("top_p"@.len() == 5);
    assert("n"@.len() == 1);
    assert("stream"@.len() == 6);
    assert("logprobs"@.len() == 8);
    assert("echo"@.len() == 4);
    assert("stop"@.len() == 4);
    assert("presence_penalty"@.len() == 16);
    assert("frequency_penalty"@.len() == 17);
    assert("best_of"@.len() == 7);
    assert("logit_bias"@.len() == 10);
    assert("user"@.len() == 4);
    assert("model"@[0] != "top_p"@[0]);
    assert("prompt"@[0] != "suffix"@[0]);
    assert("prompt"@[0] != "stream"@[0]);
    assert("suffix"@[1] != "stream"@[1]);
    assert("max_tokens"@[0] != "logit_bias"@[0]);
    assert("echo"@[0] != "stop"@[0]);
    assert("echo"@[0] != "user"@[0]);
    assert("stop"@[0] != "user"@[0]);
    lemma_wire_pairs_keys(r, "echo"@);
}

#[verifier::spinoff_prover]
proof fn lemma_key_stop(r: ReqView)
    ensures
        pairs_has_key(wire_pairs(r), "stop"@) <==> r.stop is Some,
{
    reveal_strlit("model");
    reveal_strlit("prompt");
    reveal_strlit("suffix");
    reveal_strlit("max_tokens");
    reveal_strlit("temperature");
    reveal_strlit("top_p");
    reveal_strlit("n");
    reveal_strlit("stream");
    reveal_strlit("logprobs");
    reveal_strlit("echo");
    reveal_strlit("stop");
    reveal_strlit("presence_penalty");
    reveal_strlit("frequency_penalty");
    reveal_strlit("best_of");
    reveal_strlit("logit_bias");
    reveal_strlit("user");
    assert("model"@.len() == 5);
    assert("prompt"@.len() == 6);
    assert("suffix"@.len() == 6);
    assert("max_tokens"@.len() == 10);
    assert("temperature"@.len() == 11);
    assert("top_p"@.len() == 5);
    assert("n"@.len() == 1);
    assert("stream"@.len() == 6);
    assert("logprobs"@.len() == 8);
    assert("echo"@.len() == 4);
    assert("stop"@.len() == 4);
    assert("presence_penalty"@.len() == 16);
    assert("frequency_penalty"@.len() == 17);
    assert("best_of"@.len() == 7);
    assert("logit_bias"@.len() == 10);
    assert("user"@.len() == 4);
    assert("model"@[0] != "top_p"@[0]);
    assert("prompt"@[0] != "suffix"@[0]);
    assert("prompt"@[0] != "stream"@[0]);
    assert("suffix"@[1] != "stream"@[1]);
    assert("max_tokens"@[0] != "logit_bias"@[0]);
    assert("echo"@[0] != "stop"@[0]);
    assert("echo"@[0] != "user"@[0]);
    assert("stop"@[0] != "user"@[0]);
    lemma_wire_pairs_keys(r, "stop"@);
}

#[verifier::spinoff_prover]
proof fn lemma_key_presence_penalty(r: ReqView)
    ensures
        pairs_has_key(wire_pairs(r), "presence_penalty"@) <==> r.presence_penalty is Some,
{
    reveal_strlit("model");
    reveal_strlit("prompt");
    reveal_strlit("suffix");
    reveal_strlit("max_tokens");
    reveal_strlit("temperature");
    reveal_strlit("top_p");
    reveal_strlit("n");
    reveal_strlit("stream");
    reveal_strlit("logprobs");
    reveal_strlit("echo");
    reveal_strlit("stop");
    reveal_strlit("presence_penalty");
    reveal_strlit("frequency_penalty");
    reveal_strlit("best_of");
    reveal_strlit("logit_bias");
    reveal_strlit("user");
    assert("model"@.len() == 5);
    assert("prompt"@.len() == 6);
    assert("suffix"@.len() == 6);
    assert("max_tokens"@.len() == 10);
    assert("temperature"@.len() == 11);
    assert("top_p"@.len() == 5);
    assert("n"@.len() == 1);
    assert("stream"@.len() == 6);
    assert("logprobs"@.len() == 8);
    assert("echo"@.len() == 4);
    assert("stop"@.len() == 4);
    assert("presence_penalty"@.len() == 16);
    assert("frequency_penalty"@.len() == 17);
    assert("best_of"@.len() == 7);
    assert("logit_bias"@.len() == 10);
    assert("user"@.len() == 4);
    assert("model"@[0] != "top_p"@[0]);
    assert("prompt"@[0] != "suffix"@[0]);
    assert("prompt"@[0] != "stream"@[0]);
    assert("suffix"@[1] != "stream"@[1]);
    assert("max_tokens"@[0] != "logit_bias"@[0]);
    assert("echo"@[0] != "stop"@[0]);
    assert("echo"@[0] != "user"@[0]);
    assert("stop"@[0] != "user"@[0]);
    lemma_wire_pairs_keys(r, "presence_penalty"@);
}

#[verifier::spinoff_prover]
proof fn lemma_key_frequency_penalty(r: ReqView)
    ensures
        pairs_has_key(wire_pairs(r), "frequency_penalty"@) <==> r.frequency_penalty is Some,
{
    reveal_strlit("model");
    reveal_strlit("prompt");
    reveal_strlit("suffix");
    reveal_strlit("max_tokens");
    reveal_strlit("temperature");
    reveal_strlit("top_p");
    reveal_strlit("n");
    reveal_strlit("stream");
    reveal_strlit("logprobs");
    reveal_strlit("echo");
    reveal_strlit("stop");
    reveal_strlit("presence_penalty");
    reveal_strlit("frequency_penalty");
    reveal_strlit("best_of");
    reveal_strlit("logit_bias");
    reveal_strlit("user");
    assert("model"@.len() == 5);
    assert("prompt"@.len() == 6);
    assert("suffix"@.len() == 6);
    assert("max_tokens"@.len() == 10);
    assert("temperature"@.len() == 11);
    assert("top_p"@.len() == 5);
    assert("n"@.len() == 1);
    assert("stream"@.len() == 6);
    assert("logprobs"@.len() == 8);
    assert("echo"@.len() == 4);
    assert("stop"@.len() == 4);
    assert("presence_penalty"@.len() == 16);
    assert("frequency_penalty"@.len() == 17);
    assert("best_of"@.len() == 7);
    assert("logit_bias"@.len() == 10);
    assert("user"@.len() == 4);
    assert("model"@[0] != "top_p"@[0]);
    assert("prompt"@[0] != "suffix"@[0]);
    assert("prompt"@[0] != "stream"@[0]);
    assert("suffix"@[1] != "stream"@[1]);
    assert("max_tokens"@[0] != "logit_bias"@[0]);
    assert("echo"@[0] != "stop"@[0]);
    assert("echo"@[0] != "user"@[0]);
    assert("stop"@[0] != "user"@[0]);
    lemma_wire_pairs_keys(r, "frequency_penalty"@);
}

#[verifier::spinoff_prover]
proof fn lemma_key_best_of(r: ReqView)
    ensures
        pairs_has_key(wire_pairs(r), "best_of"@) <==> r.best_of is Some,
{
    reveal_strlit("model");
    reveal_strlit("prompt");
    reveal_strlit("suffix");
    reveal_strlit("max_tokens");
    reveal_strlit("temperature");
    reveal_strlit("top_p");
    reveal_strlit("n");
    reveal_strlit("stream");
    reveal_strlit("logprobs");
    reveal_strlit("echo");
    reveal_strlit("stop");
    reveal_strlit("presence_penalty");
    reveal_strlit("frequency_penalty");
    reveal_strlit("best_of");
    reveal_strlit("logit_bias");
    reveal_strlit("user");
    assert("model"@.len() == 5);
    assert("prompt"@.len() == 6);
    assert("suffix"@.len() == 6);
    assert("max_tokens"@.len() == 10);
    assert("temperature"@.len() == 11);
    assert("top_p"@.len() == 5);
    assert("n"@.len() == 1);
    assert("stream"@.len() == 6);
    assert("logprobs"@.len() == 8);
    assert("echo"@.len() == 4);
    assert("stop"@.len() == 4);
    assert("presence_penalty"@.len() == 16);
    assert("frequency_penalty"@.len() == 17);
    assert("best_of"@.len() == 7);
    assert("logit_bias"@.len() == 10);
    assert("user"@.len() == 4);
    assert("model"@[0] != "top_p"@[0]);
    assert("prompt"@[0] != "suffix"@[0]);
    assert("prompt"@[0] != "stream"@[0]);
    assert("suffix"@[1] != "stream"@[1]);
    assert("max_tokens"@[0] != "logit_bias"@[0]);
    assert("echo"@[0] != "stop"@[0]);
    assert("echo"@[0] != "user"@[0]);
    assert("stop"@[0] != "user"@[0]);
    lemma_wire_pairs_keys(r, "best_of"@);
}

#[verifier::spinoff_prover]
proof fn lemma_key_logit_bias(r: ReqView)
    ensures
        pairs_has_key(wire_pairs(r), "logit_bias"@) <==> r.logit_bias is Some,
{
    reveal_strlit("model");
    reveal_strlit("prompt");
    reveal_strlit("suffix");
    reveal_strlit("max_tokens");
    reveal_strlit("temperature");
    reveal_strlit("top_p");
    reveal_strlit("n");
    reveal_strlit("stream");
    reveal_strlit("logprobs");
    reveal_strlit("echo");
    reveal_strlit("stop");
    reveal_strlit("presence_penalty");
    reveal_strlit("frequency_penalty");
    reveal_strlit("best_of");
    reveal_strlit("logit_bias");
    reveal_strlit("user");
    assert("model"@.len() == 5);
    assert("prompt"@.len() == 6);
    assert("suffix"@.len() == 6);
    assert("max_tokens"@.len() == 10);
    assert("temperature"@.len() == 11);
    assert("top_p"@.len() == 5);
    assert("n"@.len() == 1);
    assert("stream"@.len() == 6);
    assert("logprobs"@.len() == 8);
    assert("echo"@.len() == 4);
    assert("stop"@.len() == 4);
    assert("presence_penalty"@.len() == 16);
    assert("frequency_penalty"@.len() == 17);
    assert("best_of"@.len() == 7);
    assert("logit_bias"@.len() == 10);
    assert("user"@.len() == 4);
    assert("model"@[0] != "top_p"@[0]);
    assert("prompt"@[0] != "suffix"@[0]);
    assert("prompt"@[0] != "stream"@[0]);
    assert("suffix"@[1] != "stream"@[1]);
    assert("max_tokens"@[0] != "logit_bias"@[0]);
    assert("echo"@[0] != "stop"@[0]);
    assert("echo"@[0] != "user"@[0]);
    assert("stop"@[0] != "user"@[0]);
    lemma_wire_pairs_keys(r, "logit_bias"@);
}

#[verifier::spinoff_prover]
proof fn lemma_key_user(r: ReqView)
    ensures
        pairs_has_key(wire_pairs(r), "user"@) <==> r.user is Some,
{
    reveal_strlit("model");
    reveal_strlit("prompt");
    reveal_strlit("suffix");
    reveal_strlit("max_tokens");
    reveal_strlit("temperature");
    reveal_strlit("top_p");
    reveal_strlit("n");
    reveal_strlit("stream");
    reveal_strlit("logprobs");
    reveal_strlit("echo");
    reveal_strlit("stop");
    reveal_strlit("presence_penalty");
    reveal_strlit("frequency_penalty");
    reveal_strlit("best_of");
    reveal_strlit("logit_bias");
    reveal_strlit("user");
    assert("model"@.len() == 5);
    assert("prompt"@.len() == 6);
    assert("suffix"@.len() == 6);
    assert("max_tokens"@.len() == 10);
    assert("temperature"@.len() == 11);
    assert("top_p"@.len() == 5);
    assert("n"@.len() == 1);
    assert("stream"@.len() == 6);
    assert("logprobs"@.len() == 8);
    assert("echo"@.len() == 4);
    assert("stop"@.len() == 4);
    assert("presence_penalty"@.len() == 16);
    assert("frequency_penalty"@.len() == 17);
    assert("best_of"@.len() == 7);
    assert("logit_bias"@.len() == 10);
    assert("user"@.len() == 4);
    assert("model"@[0] != "top_p"@[0]);
    assert("prompt"@[0] != "suffix"@[0]);
    assert("prompt"@[0] != "stream"@[0]);
    assert("suffix"@[1] != "stream"@[1]);
    assert("max_tokens"@[0] != "logit_bias"@[0]);
    assert("echo"@[0] != "stop"@[0]);
    assert("echo"@[0] != "user"@[0]);
    assert("stop"@[0] != "user"@[0]);
    lemma_wire_pairs_keys(r, "user"@);
}

#[verifier::spinoff_prover]
proof fn lemma_key_model(r: ReqView)
    ensures
        pairs_has_key(wire_pairs(r), "model"@),
{
    lemma_wire_pairs_keys(r, "model"@);
}

/// Sparse serialization: the wire form is the rendering of a key/value
/// member list that carries the `model` key always, and the key of an
/// optional field exactly when that field was explicitly set — an unset
/// field never appears, a field set to a falsy value still does.
pub proof fn lemma_sparse_serialization(r: ReqView)
    ensures
        spec_wire(r) == render_obj(wire_pairs(r)),
        pairs_has_key(wire_pairs(r), "model"@),
        pairs_has_key(wire_pairs(r), "prompt"@) <==> r.prompt is Some,
        pairs_has_key(wire_pairs(r), "suffix"@) <==> r.suffix is Some,
        pairs_has_key(wire_pairs(r), "max_tokens"@) <==> r.max_tokens is Some,
        pairs_has_key(wire_pairs(r), "temperature"@) <==> r.temperature is Some,
        pairs_has_key(wire_pairs(r), "top_p"@) <==> r.top_p is Some,
        pairs_has_key(wire_pairs(r), "n"@) <==> r.n is Some,
        pairs_has_key(wire_pairs(r), "stream"@) <==> r.stream is Some,
        pairs_has_key(wire_pairs(r), "logprobs"@) <==> r.logprobs is Some,
        pairs_has_key(wire_pairs(r), "echo"@) <==> r.echo is Some,
        pairs_has_key(wire_pairs(r), "stop"@) <==> r.stop is Some,
        pairs_has_key(wire_pairs(r), "presence_penalty"@) <==> r.presence_penalty is Some,
        pairs_has_key(wire_pairs(r), "frequency_penalty"@) <==> r.frequency_penalty is Some,
        pairs_has_key(wire_pairs(r), "best_of"@) <==> r.best_of is Some,
        pairs_has_key(wire_pairs(r), "logit_bias"@) <==> r.logit_bias is Some,
        pairs_has_key(wire_pairs(r), "user"@) <==> r.user is Some,
{
    lemma_wire_is_render(r);
    lemma_key_model(r);
    lemma_key_prompt(r);
    lemma_key_suffix(r);
    lemma_key_max_tokens(r);
    lemma_key_temperature(r);
    lemma_key_top_p(r);
    lemma_key_n(r);
    lemma_key_stream(r);
    lemma_key_logprobs(r);
    lemma_key_echo(r);
    lemma_key_stop(r);
    lemma_key_presence_penalty(r);
    lemma_key_frequency_penalty(r);
    lemma_key_best_of(r);
    lemma_key_logit_bias(r);
    lemma_key_user(r);
}

/// A request with no optional field set serializes to the object holding
/// the `model` member alone.
pub proof fn lemma_model_only_wire(m: Seq<char>)
    ensures
        spec_wire(empty_req(m)) == "{\"model\":"@ + jstr(m) + seq!['}'],
{
    let r = empty_req(m);
    assert(wire_upto_prompt(r) =~= wire_upto_model(r));
    assert(wire_upto_suffix(r) =~= wire_upto_prompt(r));
    assert(wire_upto_max_tokens(r) =~= wire_upto_suffix(r));
    assert(wire_upto_temperature(r) =~= wire_upto_max_tokens(r));
    assert(wire_upto_top_p(r) =~= wire_upto_temperature(r));
    assert(wire_upto_n(r) =~= wire_upto_top_p(r));
    assert(wire_upto_stream(r) =~= wire_upto_n(r));
    assert(wire_upto_logprobs(r) =~= wire_upto_stream(r));
    assert(wire_upto_echo(r) =~= wire_upto_logprobs(r));
    assert(wire_upto_stop(r) =~= wire_upto_echo(r));
    assert(wire_upto_presence_penalty(r) =~= wire_upto_stop(r));
    assert(wire_upto_frequency_penalty(r) =~= wire_upto_presence_penalty(r));
    assert(wire_upto_best_of(r) =~= wire_upto_frequency_penalty(r));
    assert(wire_upto_logit_bias(r) =~= wire_upto_best_of(r));
    assert(wire_upto_user(r) =~= wire_upto_logit_bias(r));
    assert(spec_wire(r) =~= "{\"model\":"@ + jstr(m) + seq!['}']);
}

/// Last write wins: applying a setter twice leaves only the second value in
/// the finished request, for the model and for every optional field.
pub proof fn lemma_setter_last_write_wins(
    r: ReqView,
    m1: Seq<char>,
    m2: Seq<char>,
    ss1: Seq<Seq<char>>,
    ss2: Seq<Seq<char>>,
    s1: Seq<char>,
    s2: Seq<char>,
    n1: u16,
    n2: u16,
    t1: int,
    t2: int,
    b1: bool,
    b2: bool,
    lb1: Seq<(u32, i32)>,
    lb2: Seq<(u32, i32)>,
)
    ensures
        (ReqView { model: m2, ..(ReqView { model: m1, ..r }) }) == (ReqView { model: m2, ..r }),
        (ReqView { prompt: Some(ss2), ..(ReqView { prompt: Some(ss1), ..r }) }) == (ReqView { prompt: Some(ss2), ..r }),
        (ReqView { suffix: Some(s2), ..(ReqView { suffix: Some(s1), ..r }) }) == (ReqView { suffix: Some(s2), ..r }),
        (ReqView { max_tokens: Some(n2), ..(ReqView { max_tokens: Some(n1), ..r }) }) == (ReqView { max_tokens: Some(n2), ..r }),
        (ReqView { temperature: Some(t2), ..(ReqView { temperature: Some(t1), ..r }) }) == (ReqView { temperature: Some(t2), ..r }),
        (ReqView { top_p: Some(t2), ..(ReqView { top_p: Some(t1), ..r }) }) == (ReqView { top_p: Some(t2), ..r }),
        (ReqView { n: Some(n2), ..(ReqView { n: Some(n1), ..r }) }) == (ReqView { n: Some(n2), ..r }),
        (ReqView { stream: Some(b2), ..(ReqView { stream: Some(b1), ..r }) }) == (ReqView { stream: Some(b2), ..r }),
        (ReqView { logprobs: Some(n2), ..(ReqView { logprobs: Some(n1), ..r }) }) == (ReqView { logprobs: Some(n2), ..r }),
        (ReqView { echo: Some(b2), ..(ReqView { echo: Some(b1), ..r }) }) == (ReqView { echo: Some(b2), ..r }),
        (ReqView { stop: Some(ss2), ..(ReqView { stop: Some(ss1), ..r }) }) == (ReqView { stop: Some(ss2), ..r }),
        (ReqView { presence_penalty: Some(t2), ..(ReqView { presence_penalty: Some(t1), ..r }) }) == (ReqView { presence_penalty: Some(t2), ..r }),
        (ReqView { frequency_penalty: Some(t2), ..(ReqView { frequency_penalty: Some(t1), ..r }) }) == (ReqView { frequency_penalty: Some(t2), ..r }),
        (ReqView { best_of: Some(n2), ..(ReqView { best_of: Some(n1), ..r }) }) == (ReqView { best_of: Some(n2), ..r }),
        (ReqView { logit_bias: Some(lb2), ..(ReqView { logit_bias: Some(lb1), ..r }) }) == (ReqView { logit_bias: Some(lb2), ..r }),
        (ReqView { user: Some(s2), ..(ReqView { user: Some(s1), ..r }) }) == (ReqView { user: Some(s2), ..r }),
{
    assert((ReqView { model: m2, ..(ReqView { model: m1, ..r }) }) =~= (ReqView { model: m2, ..r }));
    assert((ReqView { prompt: Some(ss2), ..(ReqView { prompt: Some(ss1), ..r }) }) =~= (ReqView { prompt: Some(ss2), ..r }));
    assert((ReqView { suffix: Some(s2), ..(ReqView { suffix: Some(s1), ..r }) }) =~= (ReqView { suffix: Some(s2), ..r }));
    assert((ReqView { max_tokens: Some(n2), ..(ReqView { max_tokens: Some(n1), ..r }) }) =~= (ReqView { max_tokens: Some(n2), ..r }));
    assert((ReqView { temperature: Some(t2), ..(ReqView { temperature: Some(t1), ..r }) }) =~= (ReqView { temperature: Some(t2), ..r }));
    assert((ReqView { top_p: Some(t2), ..(ReqView { top_p: Some(t1), ..r }) }) =~= (ReqView { top_p: Some(t2), ..r }));
    assert((ReqView { n: Some(n2), ..(ReqView { n: Some(n1), ..r }) }) =~= (ReqView { n: Some(n2), ..r }));
    assert((ReqView { stream: Some(b2), ..(ReqView { stream: Some(b1), ..r }) }) =~= (ReqView { stream: Some(b2), ..r }));
    assert((ReqView { logprobs: Some(n2), ..(ReqView { logprobs: Some(n1), ..r }) }) =~= (ReqView { logprobs: Some(n2), ..r }));
    assert((ReqView { echo: Some(b2), ..(ReqView { echo: Some(b1), ..r }) }) =~= (ReqView { echo: Some(b2), ..r }));
    assert((ReqView { stop: Some(ss2), ..(ReqView { stop: Some(ss1), ..r }) }) =~= (ReqView { stop: Some(ss2), ..r }));
    assert((ReqView { presence_penalty: Some(t2), ..(ReqView { presence_penalty: Some(t1), ..r }) }) =~= (ReqView { presence_penalty: Some(t2), ..r }));
    assert((ReqView { frequency_penalty: Some(t2), ..(ReqView { frequency_penalty: Some(t1), ..r }) }) =~= (ReqView { frequency_penalty: Some(t2), ..r }));
    assert((ReqView { best_of: Some(n2), ..(ReqView { best_of: Some(n1), ..r }) }) =~= (ReqView { best_of: Some(n2), ..r }));
    assert((ReqView { logit_bias: Some(lb2), ..(ReqView { logit_bias: Some(lb1), ..r }) }) =~= (ReqView { logit_bias: Some(lb2), ..r }));
    assert((ReqView { user: Some(s2), ..(ReqView { user: Some(s1), ..r }) }) =~= (ReqView { user: Some(s2), ..r }));
}

} // verus!
