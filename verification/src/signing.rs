//! Putting together the request that the storage client is asked to sign.
//!
//! Nothing here asks whether the caller may have the request signed: that is
//! decided elsewhere, and what is built here says nothing about it.

use vstd::prelude::*;
use vstd::string::StringExecFns;
use crate::error::Error;
use crate::text::str_eq;

verus! {

/// One header override.
#[derive(Debug)]
pub struct Header {
    pub name: String,
    pub value: String,
}

/// No two headers share a name. Names are told apart as written.
pub open spec fn distinct_names(headers: Seq<Header>) -> bool {
    forall|i: int, j: int|
        0 <= i < j < headers.len() ==> (#[trigger] headers[i]).name@ != (#[trigger] headers[j]).name@
}

/// Some header has this name.
pub open spec fn names(headers: Seq<Header>, name: Seq<char>) -> bool {
    exists|i: int| 0 <= i < headers.len() && (#[trigger] headers[i]).name@ == name
}

/// The mapping from header name to value that a list of headers stands for.
pub open spec fn header_map(headers: Seq<Header>) -> Map<Seq<char>, Seq<char>> {
    Map::new(
        |name: Seq<char>| names(headers, name),
        |name: Seq<char>|
            headers[choose|i: int| 0 <= i < headers.len() && (#[trigger] headers[i]).name@ == name].value@,
    )
}

/// The mapping that a caller's header overrides stand for when they are set one
/// after the other: where a name comes twice, the later value stays.
pub open spec fn overrides(headers: Seq<Header>) -> Map<Seq<char>, Seq<char>>
    decreases headers.len(),
{
    if headers.len() == 0 {
        Map::empty()
    } else {
        overrides(headers.drop_last()).insert(headers.last().name@, headers.last().value@)
    }
}

/// What the storage client is asked to sign.
#[derive(Debug)]
pub struct SignedRequestSpec {
    method: String,
    bucket: String,
    object: String,
    headers: Vec<Header>,
}

/// What the storage client is asked to sign, as plain values.
pub struct SpecView {
    pub method: Seq<char>,
    pub bucket: Seq<char>,
    pub object: Seq<char>,
    pub headers: Map<Seq<char>, Seq<char>>,
}

impl View for SignedRequestSpec {
    type V = SpecView;

    closed spec fn view(&self) -> SpecView {
        SpecView {
            method: self.method@,
            bucket: self.bucket@,
            object: self.object@,
            headers: header_map(self.headers@),
        }
    }
}

impl SignedRequestSpec {
    #[verifier::type_invariant]
    spec fn wf(self) -> bool {
        distinct_names(self.headers@)
    }

    /// The HTTP method of the request.
    pub fn method(&self) -> (method: &str)
        ensures
            method@ == self@.method,
    {
        self.method.as_str()
    }

    /// The bucket that the request goes to.
    pub fn bucket(&self) -> (bucket: &str)
        ensures
            bucket@ == self@.bucket,
    {
        self.bucket.as_str()
    }

    /// The storage key of the object.
    pub fn object(&self) -> (object: &str)
        ensures
            object@ == self@.object,
    {
        self.object.as_str()
    }

    /// The header overrides, each name once.
    pub fn headers(&self) -> (headers: &Vec<Header>)
        ensures
            distinct_names(headers@),
            header_map(headers@) == self@.headers,
    {
        proof {
            use_type_invariant(self);
        }
        &self.headers
    }
}

/// Collects the parts of a signed request.
#[derive(Debug)]
pub struct SignedRequestBuilder {
    method: Option<String>,
    bucket: Option<String>,
    object: Option<String>,
    headers: Vec<Header>,
}

/// A builder as plain values.
pub struct BuilderView {
    pub method: Option<Seq<char>>,
    pub bucket: Option<Seq<char>>,
    pub object: Option<Seq<char>>,
    pub headers: Map<Seq<char>, Seq<char>>,
}

/// What an optional string holds.
pub open spec fn held(s: Option<String>) -> Option<Seq<char>> {
    match s {
        Some(s) => Some(s@),
        None => None,
    }
}

impl View for SignedRequestBuilder {
    type V = BuilderView;

    closed spec fn view(&self) -> BuilderView {
        BuilderView {
            method: held(self.method),
            bucket: held(self.bucket),
            object: held(self.object),
            headers: header_map(self.headers@),
        }
    }
}

impl BuilderView {
    /// Method, bucket and object are all there.
    pub open spec fn complete(self) -> bool {
        self.method is Some && self.bucket is Some && self.object is Some
    }

    /// The first part that is missing, by name.
    pub open spec fn missing(self) -> Seq<char> {
        if self.method is None {
            "missing method"@
        } else if self.bucket is None {
            "missing bucket"@
        } else {
            "missing object"@
        }
    }
}

impl SignedRequestBuilder {
    #[verifier::type_invariant]
    spec fn wf(self) -> bool {
        distinct_names(self.headers@)
    }

    /// A builder that holds nothing yet.
    pub fn new() -> (builder: Self)
        ensures
            builder@ == (BuilderView {
                method: None,
                bucket: None,
                object: None,
                headers: Map::empty(),
            }),
    {
        let builder = SignedRequestBuilder {
            method: None,
            bucket: None,
            object: None,
            headers: Vec::new(),
        };
        assert(header_map(builder.headers@) =~= Map::empty());
        builder
    }

    /// Sets the HTTP method.
    pub fn method(self, value: &str) -> (builder: Self)
        ensures
            builder@ == (BuilderView { method: Some(value@), ..self@ }),
    {
        proof {
            use_type_invariant(&self);
        }
        SignedRequestBuilder {
            method: Some(String::from_str(value)),
            bucket: self.bucket,
            object: self.object,
            headers: self.headers,
        }
    }

    /// Sets the bucket.
    pub fn bucket(self, value: &str) -> (builder: Self)
        ensures
            builder@ == (BuilderView { bucket: Some(value@), ..self@ }),
    {
        proof {
            use_type_invariant(&self);
        }
        SignedRequestBuilder {
            method: self.method,
            bucket: Some(String::from_str(value)),
            object: self.object,
            headers: self.headers,
        }
    }

    /// Sets the storage key of the object.
    pub fn object(self, value: &str) -> (builder: Self)
        ensures
            builder@ == (BuilderView { object: Some(value@), ..self@ }),
    {
        proof {
            use_type_invariant(&self);
        }
        SignedRequestBuilder {
            method: self.method,
            bucket: self.bucket,
            object: Some(String::from_str(value)),
            headers: self.headers,
        }
    }

    /// Sets a header, replacing the value that the name had before, if any.
    pub fn add_header(self, name: &str, value: &str) -> (builder: Self)
        ensures
            builder@ == (BuilderView { headers: self@.headers.insert(name@, value@), ..self@ }),
    {
        proof {
            use_type_invariant(&self);
        }
        let ghost before = self.headers@;
        let mut headers = self.headers;
        let found = position(&headers, name);
        match found {
            Some(at) => {
                headers.set(at, Header { name: String::from_str(name), value: String::from_str(value) });
                proof {
                    lemma_replace(before, at as int, headers@[at as int]);
                }
            },
            None => {
                headers.push(Header { name: String::from_str(name), value: String::from_str(value) });
                proof {
                    lemma_append(before, headers@[before.len() as int]);
                }
            },
        }
        SignedRequestBuilder {
            method: self.method,
            bucket: self.bucket,
            object: self.object,
            headers,
        }
    }

    /// The request to sign, once method, bucket and object are set; else an
    /// error that names the first of them that is missing. Whether the storage
    /// client takes the request is for the client to say.
    pub fn build(self) -> (built: Result<SignedRequestSpec, Error>)
        ensures
            match built {
                Ok(spec) => self@.complete() && spec@ == (SpecView {
                    method: self@.method->0,
                    bucket: self@.bucket->0,
                    object: self@.object->0,
                    headers: self@.headers,
                }),
                Err(Error::SignedRequestBuild { detail }) => !self@.complete() && detail@
                    == self@.missing(),
                Err(_) => false,
            },
    {
        proof {
            use_type_invariant(&self);
        }
        let method = match self.method {
            Some(method) => method,
            None => {
                return Err(Error::SignedRequestBuild { detail: String::from_str("missing method") });
            },
        };
        let bucket = match self.bucket {
            Some(bucket) => bucket,
            None => {
                return Err(Error::SignedRequestBuild { detail: String::from_str("missing bucket") });
            },
        };
        let object = match self.object {
            Some(object) => object,
            None => {
                return Err(Error::SignedRequestBuild { detail: String::from_str("missing object") });
            },
        };
        Ok(SignedRequestSpec { method, bucket, object, headers: self.headers })
    }
}

/// Where the header of that name stands, if there is one.
fn position(headers: &Vec<Header>, name: &str) -> (found: Option<usize>)
    ensures
        match found {
            Some(at) => at < headers.len() && headers@[at as int].name@ == name@,
            None => !names(headers@, name@),
        },
{
    let mut i: usize = 0;
    while i < headers.len()
        invariant
            i <= headers.len(),
            forall|k: int| 0 <= k < i ==> (#[trigger] headers@[k]).name@ != name@,
        decreases headers.len() - i,
    {
        if str_eq(headers[i].name.as_str(), name) {
            return Some(i);
        }
        i += 1;
    }
    None
}

/// With distinct names, the header found under a name is the only one.
proof fn lemma_lookup(headers: Seq<Header>, at: int)
    requires
        distinct_names(headers),
        0 <= at < headers.len(),
    ensures
        header_map(headers).dom().contains(headers[at].name@),
        header_map(headers)[headers[at].name@] == headers[at].value@,
{
    let name = headers[at].name@;
    let picked = choose|i: int| 0 <= i < headers.len() && (#[trigger] headers[i]).name@ == name;
    assert(picked == at);
}

/// Replacing the header of a name sets that name in the mapping.
proof fn lemma_replace(headers: Seq<Header>, at: int, header: Header)
    requires
        distinct_names(headers),
        0 <= at < headers.len(),
        headers[at].name@ == header.name@,
    ensures
        distinct_names(headers.update(at, header)),
        header_map(headers.update(at, header)) == header_map(headers).insert(
            header.name@,
            header.value@,
        ),
{
    let after = headers.update(at, header);
    assert(distinct_names(after)) by {
        assert forall|i: int, j: int| 0 <= i < j < after.len() implies (#[trigger] after[i]).name@
            != (#[trigger] after[j]).name@ by {
            assert(after[i].name@ == headers[i].name@);
            assert(after[j].name@ == headers[j].name@);
        }
    }
    let want = header_map(headers).insert(header.name@, header.value@);
    assert forall|name: Seq<char>| header_map(after).dom().contains(name) == want.dom().contains(
        name,
    ) by {
        if names(after, name) {
            let i = choose|i: int| 0 <= i < after.len() && (#[trigger] after[i]).name@ == name;
            assert(headers[i].name@ == name);
        }
        if names(headers, name) {
            let i = choose|i: int| 0 <= i < headers.len() && (#[trigger] headers[i]).name@ == name;
            assert(after[i].name@ == name);
        }
        if name == header.name@ {
            assert(after[at].name@ == name);
        }
    }
    assert forall|name: Seq<char>| header_map(after).dom().contains(name) implies header_map(
        after,
    )[name] == want[name] by {
        let i = choose|i: int| 0 <= i < after.len() && (#[trigger] after[i]).name@ == name;
        lemma_lookup(after, i);
        if i != at {
            assert(headers[i].name@ == name);
            lemma_lookup(headers, i);
        }
    }
    assert(header_map(after) =~= want);
}

/// Appending a header of a new name adds that name to the mapping.
proof fn lemma_append(headers: Seq<Header>, header: Header)
    requires
        distinct_names(headers),
        !names(headers, header.name@),
    ensures
        distinct_names(headers.push(header)),
        header_map(headers.push(header)) == header_map(headers).insert(
            header.name@,
            header.value@,
        ),
{
    let after = headers.push(header);
    assert(distinct_names(after)) by {
        assert forall|i: int, j: int| 0 <= i < j < after.len() implies (#[trigger] after[i]).name@
            != (#[trigger] after[j]).name@ by {
            if j == headers.len() {
                assert(headers[i].name@ != header.name@);
            } else {
                assert(after[i] == headers[i]);
                assert(after[j] == headers[j]);
            }
        }
    }
    let want = header_map(headers).insert(header.name@, header.value@);
    assert forall|name: Seq<char>| header_map(after).dom().contains(name) == want.dom().contains(
        name,
    ) by {
        if names(after, name) {
            let i = choose|i: int| 0 <= i < after.len() && (#[trigger] after[i]).name@ == name;
            if i < headers.len() {
                assert(headers[i].name@ == name);
            }
        }
        if names(headers, name) {
            let i = choose|i: int| 0 <= i < headers.len() && (#[trigger] headers[i]).name@ == name;
            assert(after[i].name@ == name);
        }
        if name == header.name@ {
            assert(after[headers.len() as int].name@ == name);
        }
    }
    assert forall|name: Seq<char>| header_map(after).dom().contains(name) implies header_map(
        after,
    )[name] == want[name] by {
        let i = choose|i: int| 0 <= i < after.len() && (#[trigger] after[i]).name@ == name;
        lemma_lookup(after, i);
        if i < headers.len() {
            assert(headers[i].name@ == name);
            lemma_lookup(headers, i);
        }
    }
    assert(header_map(after) =~= want);
}

} // verus!
