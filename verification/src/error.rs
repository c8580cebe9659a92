//! Why a request was turned away.

use vstd::prelude::*;
use vstd::string::StringExecFns;

verus! {

/// The ways in which a request fails. Each belongs to one request; none is
/// fatal to the process.
#[derive(Debug)]
pub enum Error {
    /// The method stands for no action.
    UnsupportedMethod { method: String },
    /// No configured audience covers the bucket.
    AudienceEstimation { bucket: String },
    /// The provider said no, or a caller was required and none was there.
    AuthorizationDenied,
    /// The provider could not be asked or did not answer properly. This is
    /// never read as permission.
    AuthorizationProvider { detail: String },
    /// The signed request could not be put together, or the storage client
    /// rejected it.
    SignedRequestBuild { detail: String },
}

impl Error {
    /// The error in words.
    pub open spec fn text(self) -> Seq<char> {
        match self {
            Error::UnsupportedMethod { method } => "invalid method = "@ + method@,
            Error::AudienceEstimation { bucket } => "no audience for bucket = "@ + bucket@,
            Error::AuthorizationDenied => "access denied"@,
            Error::AuthorizationProvider { detail } => "authorization failed: "@ + detail@,
            Error::SignedRequestBuild { detail } => "error signing a request: "@ + detail@,
        }
    }

    /// The error in words, for a log line or a response detail.
    pub fn message(&self) -> (text: String)
        ensures
            text@ == self.text(),
    {
        match self {
            Error::UnsupportedMethod { method } => Self::labelled("invalid method = ", method),
            Error::AudienceEstimation { bucket } => Self::labelled(
                "no audience for bucket = ",
                bucket,
            ),
            Error::AuthorizationDenied => String::from_str("access denied"),
            Error::AuthorizationProvider { detail } => Self::labelled(
                "authorization failed: ",
                detail,
            ),
            Error::SignedRequestBuild { detail } => Self::labelled(
                "error signing a request: ",
                detail,
            ),
        }
    }

    fn labelled(label: &str, value: &String) -> (text: String)
        ensures
            text@ == label@ + value@,
    {
        let mut text = String::from_str(label);
        text.append(value.as_str());
        text
    }

    /// Whether the caller was refused, as opposed to something having failed.
    /// A log must be able to tell the two apart.
    pub open spec fn is_refusal(self) -> bool {
        self is AuthorizationDenied || self is UnsupportedMethod
    }

    /// Whether the caller was refused, as opposed to something having failed.
    pub fn refusal(&self) -> (refused: bool)
        ensures
            refused == self.is_refusal(),
    {
        match self {
            Error::AuthorizationDenied => true,
            Error::UnsupportedMethod { .. } => true,
            _ => false,
        }
    }
}

} // verus!
