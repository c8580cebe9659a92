//! What a caller asks for, and who asks.

use vstd::prelude::*;
use crate::signing::Header;

verus! {

/// The authenticated caller: an account and the audience that its credential
/// claims. It is made by authentication and only read here.
#[derive(Debug)]
pub struct Subject {
    pub label: String,
    pub audience: String,
}

/// The body of a request for a signed URI.
#[derive(Debug)]
pub struct SignPayload {
    bucket: String,
    set: Option<String>,
    object: String,
    method: String,
    headers: Vec<Header>,
}

/// A payload as plain values.
pub struct PayloadView {
    pub bucket: Seq<char>,
    pub set: Option<Seq<char>>,
    pub object: Seq<char>,
    pub method: Seq<char>,
    pub headers: Seq<Header>,
}

impl View for SignPayload {
    type V = PayloadView;

    closed spec fn view(&self) -> PayloadView {
        PayloadView {
            bucket: self.bucket@,
            set: match self.set {
                Some(set) => Some(set@),
                None => None,
            },
            object: self.object@,
            method: self.method@,
            headers: self.headers@,
        }
    }
}

impl SignPayload {
    #[verifier::type_invariant]
    spec fn wf(self) -> bool {
        self.bucket@.len() > 0 && self.object@.len() > 0
    }

    /// A payload of these parts, unless the bucket or the object is empty.
    pub fn new(
        bucket: String,
        set: Option<String>,
        object: String,
        method: String,
        headers: Vec<Header>,
    ) -> (payload: Option<Self>)
        ensures
            payload is Some <==> bucket@.len() > 0 && object@.len() > 0,
            payload matches Some(p) ==> p@ == (PayloadView {
                bucket: bucket@,
                set: match set {
                    Some(set) => Some(set@),
                    None => None,
                },
                object: object@,
                method: method@,
                headers: headers@,
            }),
    {
        if bucket.as_str().is_empty() || object.as_str().is_empty() {
            None
        } else {
            Some(SignPayload { bucket, set, object, method, headers })
        }
    }

    /// The bucket, which is not empty.
    pub fn bucket(&self) -> (bucket: &str)
        ensures
            bucket@ == self@.bucket,
            bucket@.len() > 0,
    {
        proof {
            use_type_invariant(self);
        }
        self.bucket.as_str()
    }

    /// The set, if the object belongs to one.
    pub fn set(&self) -> (set: Option<&str>)
        ensures
            crate::address::opt_view(set) == self@.set,
    {
        match &self.set {
            Some(set) => Some(set.as_str()),
            None => None,
        }
    }

    /// The object, which is not empty.
    pub fn object(&self) -> (object: &str)
        ensures
            object@ == self@.object,
            object@.len() > 0,
    {
        proof {
            use_type_invariant(self);
        }
        self.object.as_str()
    }

    /// The HTTP method that the signed request is to carry.
    pub fn method(&self) -> (method: &str)
        ensures
            method@ == self@.method,
    {
        self.method.as_str()
    }

    /// The header overrides, as the caller gave them.
    pub fn headers(&self) -> (headers: &Vec<Header>)
        ensures
            headers@ == self@.headers,
    {
        &self.headers
    }
}

/// One of the three things a caller can ask for.
#[derive(Debug)]
pub enum Request {
    /// Read an object.
    ObjectRead { bucket: String, object: String },
    /// Read an object that belongs to a set.
    SetRead { bucket: String, set: String, object: String },
    /// Have a request for an object signed.
    Sign(SignPayload),
}

impl Request {
    /// Whether a signed URI is asked for, rather than a redirect.
    pub open spec fn signs(self) -> bool {
        self is Sign
    }

    /// The bucket that the request names.
    pub open spec fn bucket(self) -> Seq<char> {
        match self {
            Request::ObjectRead { bucket, .. } => bucket@,
            Request::SetRead { bucket, .. } => bucket@,
            Request::Sign(payload) => payload@.bucket,
        }
    }

    /// The set that the object belongs to, if any.
    pub open spec fn set(self) -> Option<Seq<char>> {
        match self {
            Request::ObjectRead { .. } => None,
            Request::SetRead { set, .. } => Some(set@),
            Request::Sign(payload) => payload@.set,
        }
    }

    /// The object that the request names.
    pub open spec fn object(self) -> Seq<char> {
        match self {
            Request::ObjectRead { object, .. } => object@,
            Request::SetRead { object, .. } => object@,
            Request::Sign(payload) => payload@.object,
        }
    }

    /// The method that decides the action: reading is `GET`.
    pub open spec fn method(self) -> Seq<char> {
        match self {
            Request::Sign(payload) => payload@.method,
            _ => "GET"@,
        }
    }

    /// The header overrides; a read has none.
    pub open spec fn headers(self) -> Seq<Header> {
        match self {
            Request::Sign(payload) => payload@.headers,
            _ => Seq::empty(),
        }
    }
}

} // verus!
