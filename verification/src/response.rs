//! What goes back to the caller.

use vstd::prelude::*;
use vstd::string::StringExecFns;
use vstd::utf8::encode_utf8;
use crate::error::Error;

verus! {

/// The status of a response that has nothing to report.
pub const OK: u16 = 200;

/// The status that sends the caller to another place.
pub const SEE_OTHER: u16 = 303;

/// A byte that may stand in the value of a header: a tab, or anything from the
/// space upwards but the delete character.
pub open spec fn is_header_byte(byte: u8) -> bool {
    byte >= 32 && byte != 127 || byte == 9
}

/// Bytes that can be the value of a header.
pub open spec fn is_header_value(bytes: Seq<u8>) -> bool {
    forall|i: int| 0 <= i < bytes.len() ==> is_header_byte(#[trigger] bytes[i])
}

/// A location that can be sent as the value of a `Location` header.
pub open spec fn sendable(location: Seq<char>) -> bool {
    is_header_value(encode_utf8(location))
}

/// Whether `http` takes the string as the value of a header.
///
/// Calls `http::header::HeaderValue::from_str`, which goes through the bytes of
/// the string and fails at the first one that is below the space and not a tab,
/// or is the delete character. Trusted: that it succeeds exactly on the strings
/// without such a byte.
#[verifier::external_body]
fn header_value_accepts(value: &str) -> (accepted: bool)
    ensures
        accepted == sendable(value@),
{
    http::header::HeaderValue::from_str(value).is_ok()
}

/// A response without content: a status and, for a redirect, where to go.
#[derive(Debug)]
pub struct Response {
    status: u16,
    location: Option<String>,
    body: String,
}

/// A response as plain values.
pub struct ResponseView {
    pub status: u16,
    pub location: Option<Seq<char>>,
    pub body: Seq<char>,
}

impl View for Response {
    type V = ResponseView;

    closed spec fn view(&self) -> ResponseView {
        ResponseView {
            status: self.status,
            location: match self.location {
                Some(location) => Some(location@),
                None => None,
            },
            body: self.body@,
        }
    }
}

impl Response {
    #[verifier::type_invariant]
    spec fn wf(self) -> bool {
        self.location matches Some(location) ==> sendable(location@)
    }

    /// The status code.
    pub fn status(&self) -> (status: u16)
        ensures
            status == self@.status,
    {
        self.status
    }

    /// Where the caller is sent, if anywhere. It can always be sent as the
    /// value of a header.
    pub fn location(&self) -> (location: Option<&str>)
        ensures
            crate::address::opt_view(location) == self@.location,
            location matches Some(location) ==> sendable(location@),
    {
        proof {
            use_type_invariant(self);
        }
        match &self.location {
            Some(location) => Some(location.as_str()),
            None => None,
        }
    }

    /// The content.
    pub fn body(&self) -> (body: &str)
        ensures
            body@ == self@.body,
    {
        self.body.as_str()
    }
}

/// The answer to a request for a signed URI.
#[derive(Debug)]
pub struct SignResponse {
    pub uri: String,
}

/// How a request ended.
#[derive(Debug)]
pub enum Outcome {
    /// The caller is sent to a pre-signed URL.
    Redirect(Response),
    /// The caller is given a signed URI.
    Signed(SignResponse),
    /// The caller is given neither.
    Rejected(Error),
}

impl Outcome {
    /// The pre-signed URL or signed URI that the outcome hands to the caller.
    pub open spec fn exposed(self) -> Option<Seq<char>> {
        match self {
            Outcome::Redirect(response) => response@.location,
            Outcome::Signed(response) => Some(response.uri@),
            Outcome::Rejected(_) => None,
        }
    }
}

/// A redirect to `uri`, with status 303 and no content. It cannot be built
/// where `uri` cannot be sent as the value of a header.
pub fn redirect(uri: &str) -> (built: Result<Response, Error>)
    ensures
        match built {
            Ok(response) => {
                &&& sendable(uri@)
                &&& response@.status == SEE_OTHER
                &&& response@.location == Some(uri@)
                &&& response@.body.len() == 0
            },
            Err(Error::SignedRequestBuild { detail }) => !sendable(uri@) && detail@
                == "invalid location"@,
            Err(_) => false,
        },
{
    if header_value_accepts(uri) {
        Ok(Response { status: SEE_OTHER, location: Some(String::from_str(uri)), body: String::new() })
    } else {
        Err(Error::SignedRequestBuild { detail: String::from_str("invalid location") })
    }
}

/// The answer to a liveness probe: status 200 and no content, whatever the
/// state of storage or authorization.
pub fn healthz() -> (response: Response)
    ensures
        response@.status == OK,
        response@.location is None,
        response@.body.len() == 0,
{
    Response { status: OK, location: None, body: String::new() }
}

} // verus!
