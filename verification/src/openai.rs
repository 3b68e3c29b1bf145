//! The completion client: it owns the credential, names the endpoint, and
//! classifies the outcome of the one network call.  The call itself is
//! performed outside the library, which receives the plain status and body.

use vstd::prelude::*;

use crate::errors::Failure;
use crate::response::json_shape;
use crate::response::parse_value;
use crate::response::shape_of;

verus! {

/// A handle on the completion endpoint, holding the bearer credential.
pub struct OpenAi {
    api_key: String,
}

impl View for OpenAi {
    type V = Seq<char>;

    closed spec fn view(&self) -> Seq<char> {
        self.api_key@
    }
}

impl OpenAi {
    pub fn new(api_key: String) -> (r: Self)
        ensures
            r@ == api_key@,
    {
        OpenAi { api_key }
    }

    /// The bearer credential carried on the completion request.
    pub fn get_api_key(&self) -> (r: &String)
        ensures
            r@ == self@,
    {
        &self.api_key
    }
}

/// The completions endpoint the request is posted to.
pub fn completions_url() -> (r: &'static str)
    ensures
        r@ == "https://api.openai.com/v1/completions"@,
{
    "https://api.openai.com/v1/completions"
}

/// Classifies the outcome of the completion call: a non-2xx status is
/// `RemoteRejected` carrying the status and body; a 2xx status yields the
/// decoded body, or `ResponseMalformed` when the body is not JSON.
pub fn decode_response(status: u16, body: String) -> (r: Result<serde_json::Value, Failure>)
    ensures
        !(200 <= status < 300) ==> match r {
            Err(Failure::RemoteRejected(st, b)) => st == status && b@ == body@,
            _ => false,
        },
        (200 <= status < 300) ==> match json_shape(body@) {
            Some(sh) => match r {
                Ok(v) => shape_of(v) == sh,
                _ => false,
            },
            None => r matches Err(f) && f is ResponseMalformed,
        },
{
    if status < 200 || status >= 300 {
        Err(Failure::RemoteRejected(status, body))
    } else {
        match parse_value(body.as_str()) {
            Some(v) => Ok(v),
            None => Err(Failure::ResponseMalformed),
        }
    }
}

} // verus!
