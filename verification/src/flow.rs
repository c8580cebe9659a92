//! The course of one request, from its arrival to its outcome.
//!
//! A request is received, addressed, and its audience resolved. The storage
//! client is then asked for the pre-signed URL or the signed URI, and the
//! authorization provider for its decision. Both are outside work: each step
//! here says what to ask for, and the next step takes the answer. What the
//! storage client produced is kept back until the provider has allowed the
//! request, and is dropped if it has not.

use vstd::prelude::*;
use vstd::string::StringExecFns;
use crate::action::action_of;
use crate::action::parse_action;
use crate::action::Action;
use crate::address::address;
use crate::address::canonical_key;
use crate::address::resource_path;
use crate::audience::is_audience_of;
use crate::audience::uncovered;
use crate::audience::AudienceEstimator;
use crate::error::Error;
use crate::request::Request;
use crate::request::Subject;
use crate::response::redirect;
use crate::response::sendable;
use crate::response::Outcome;
use crate::response::SignResponse;
use crate::response::SEE_OTHER;
use crate::signing::overrides;
use crate::signing::BuilderView;
use crate::signing::SignedRequestBuilder;
use crate::signing::SignedRequestSpec;
use crate::signing::SpecView;

verus! {

/// Where a request stands.
#[derive(Clone, Copy, Debug, PartialEq, Eq, Structural)]
pub enum Phase {
    Received,
    Addressed,
    AudienceResolved,
    Signed,
    AuthorizationPending,
    Allowed,
    Denied,
    Failed,
}

impl Phase {
    /// Nothing follows an allowed, denied or failed request.
    pub open spec fn terminal(self) -> bool {
        self is Allowed || self is Denied || self is Failed
    }
}

/// The steps that a request can take. Only a request for a signed URI can be
/// turned away on arrival, and only it passes through `Signed`.
pub open spec fn follows(signs: bool, from: Phase, to: Phase) -> bool {
    match from {
        Phase::Received => to is Addressed || (signs && (to is Denied || to is Failed)),
        Phase::Addressed => to is AudienceResolved || to is Failed,
        Phase::AudienceResolved => to is Failed || if signs {
            to is Signed
        } else {
            to is AuthorizationPending
        },
        Phase::Signed => to is AuthorizationPending,
        Phase::AuthorizationPending => to.terminal(),
        _ => false,
    }
}

/// A trail of phases that starts at `Received` and takes one step at a time.
pub open spec fn is_path(signs: bool, trail: Seq<Phase>) -> bool {
    &&& trail.len() > 0
    &&& trail[0] is Received
    &&& forall|i: int| 0 <= i < trail.len() - 1 ==> follows(signs, #[trigger] trail[i], trail[i + 1])
}

/// A request that is allowed was waiting for the provider's decision just
/// before: no trail reaches `Allowed` any other way.
pub proof fn lemma_allowed_after_pending(signs: bool, trail: Seq<Phase>, at: int)
    requires
        is_path(signs, trail),
        0 <= at < trail.len(),
        trail[at] is Allowed,
    ensures
        at >= 1,
        trail[at - 1] is AuthorizationPending,
{
    if at >= 1 {
        assert(follows(signs, trail[at - 1], trail[at - 1 + 1]));
    }
}

/// An allowed, denied or failed request goes nowhere from there: a terminal
/// phase is the last of its trail.
pub proof fn lemma_terminal_is_last(signs: bool, trail: Seq<Phase>, at: int)
    requires
        is_path(signs, trail),
        0 <= at < trail.len(),
        trail[at].terminal(),
    ensures
        at == trail.len() - 1,
{
    if at < trail.len() - 1 {
        assert(follows(signs, trail[at], trail[at + 1]));
    }
}

/// What decides the outcome of a request that got as far as authorization.
#[derive(Debug)]
pub enum AuthorizationDecision {
    Allow,
    Deny,
    /// The bucket has no audience, so no provider could be asked.
    EstimationFailed,
    /// The provider could not be reached or did not answer properly.
    ProviderError { detail: String },
}

/// The question put to the authorization provider of `audience`: may `subject`
/// do `action` to `object`? A `subject` of `None` is an anonymous caller.
#[derive(Debug)]
pub struct Authorization {
    pub audience: String,
    pub subject: Option<Subject>,
    pub object: Vec<String>,
    pub action: Action,
}

/// What the storage client is asked to produce.
#[derive(Debug)]
pub enum StorageCall {
    /// A pre-signed URL for the object.
    Presign { method: String, bucket: String, key: String },
    /// A signed URI for the request.
    Sign(SignedRequestSpec),
}

/// A request whose audience is known and that waits for the storage client.
#[derive(Debug)]
pub struct AudienceResolved {
    signs: bool,
    bucket: String,
    history: Vec<Phase>,
    query: Authorization,
}

/// A request that holds what the storage client produced, made up as the
/// response of an allowed request, and waits for the provider's decision.
#[derive(Debug)]
pub struct AuthorizationPending {
    signs: bool,
    bucket: String,
    history: Vec<Phase>,
    held: Outcome,
}

/// A request that has its outcome.
#[derive(Debug)]
pub struct Closed {
    history: Vec<Phase>,
    outcome: Outcome,
}

/// How the first step ended.
#[derive(Debug)]
pub enum Opened {
    /// The storage client is to be asked.
    Proceed(AudienceResolved, StorageCall),
    /// The request was turned away; nothing is to be asked of anyone.
    Closed(Closed),
}

/// How the step after the storage client's answer ended.
#[derive(Debug)]
pub enum Prepared {
    /// The provider is to be asked, once.
    Proceed(AuthorizationPending, Authorization),
    /// The storage client produced nothing that can be sent; the provider is
    /// not asked.
    Closed(Closed),
}

/// What the storage client produced can go into the response: a signed URI as
/// it is, a pre-signed URL where it can be sent as a location.
pub open spec fn usable(signs: bool, artifact: Seq<char>) -> bool {
    signs || sendable(artifact)
}

/// The trail of a request that waits for the storage client.
pub open spec fn resolved_trail() -> Seq<Phase> {
    seq![Phase::Received, Phase::Addressed, Phase::AudienceResolved]
}

/// The trail of a request that waits for the provider.
pub open spec fn pending_trail(signs: bool) -> Seq<Phase> {
    if signs {
        resolved_trail() + seq![Phase::Signed, Phase::AuthorizationPending]
    } else {
        resolved_trail() + seq![Phase::AuthorizationPending]
    }
}

/// The phase in which a decision ends a request.
pub open spec fn verdict(decision: AuthorizationDecision) -> Phase {
    match decision {
        AuthorizationDecision::Allow => Phase::Allowed,
        AuthorizationDecision::Deny => Phase::Denied,
        _ => Phase::Failed,
    }
}

impl AudienceResolved {
    #[verifier::type_invariant]
    spec fn wf(self) -> bool {
        self.history@ == resolved_trail()
    }

    /// Whether a signed URI was asked for.
    pub closed spec fn signs(self) -> bool {
        self.signs
    }

    /// The bucket that the request names.
    pub closed spec fn bucket(self) -> Seq<char> {
        self.bucket@
    }

    /// The phases passed so far.
    pub closed spec fn trail(self) -> Seq<Phase> {
        self.history@
    }

    /// The question that will be put to the provider.
    pub closed spec fn query(self) -> Authorization {
        self.query
    }

    /// The phases passed so far, the last of which is `AudienceResolved`.
    pub fn history(&self) -> (history: &Vec<Phase>)
        ensures
            history@ == self.trail(),
            history@ == resolved_trail(),
    {
        proof {
            use_type_invariant(self);
        }
        &self.history
    }

    /// Takes the storage client's answer: the URL or URI, or why there is
    /// none. With an answer the provider is asked next, and the answer is kept
    /// back until it has decided. Without one, or with a pre-signed URL that
    /// cannot be sent as a location, the request fails and the provider is not
    /// asked.
    pub fn artifact(self, produced: Result<String, String>) -> (prepared: Prepared)
        ensures
            match prepared {
                Prepared::Proceed(state, query) => {
                    &&& produced matches Ok(artifact)
                    &&& usable(self.signs(), artifact@)
                    &&& query == self.query()
                    &&& state.artifact() == artifact@
                    &&& state.signs() == self.signs()
                    &&& state.bucket() == self.bucket()
                    &&& state.trail() == pending_trail(self.signs())
                    &&& is_path(self.signs(), state.trail())
                },
                Prepared::Closed(closed) => {
                    &&& closed.trail() == resolved_trail().push(Phase::Failed)
                    &&& is_path(self.signs(), closed.trail())
                    &&& closed.result() matches Outcome::Rejected(
                        Error::SignedRequestBuild { detail: reported },
                    )
                    &&& match produced {
                        Ok(artifact) => !usable(self.signs(), artifact@) && reported@
                            == "invalid location"@,
                        Err(detail) => reported == detail,
                    }
                },
            },
    {
        proof {
            use_type_invariant(&self);
        }
        let mut history = self.history;
        let held = match produced {
            Ok(artifact) => {
                if self.signs {
                    Ok(Outcome::Signed(SignResponse { uri: artifact }))
                } else {
                    match redirect(artifact.as_str()) {
                        Ok(response) => Ok(Outcome::Redirect(response)),
                        Err(unsendable) => Err(unsendable),
                    }
                }
            },
            Err(detail) => Err(Error::SignedRequestBuild { detail }),
        };
        match held {
            Ok(held) => {
                if self.signs {
                    history.push(Phase::Signed);
                }
                history.push(Phase::AuthorizationPending);
                assert(history@ =~= pending_trail(self.signs));
                let state = AuthorizationPending {
                    signs: self.signs,
                    bucket: self.bucket,
                    history,
                    held,
                };
                Prepared::Proceed(state, self.query)
            },
            Err(failed) => {
                history.push(Phase::Failed);
                Prepared::Closed(Closed { history, outcome: Outcome::Rejected(failed) })
            },
        }
    }
}

impl AuthorizationPending {
    #[verifier::type_invariant]
    spec fn wf(self) -> bool {
        &&& self.history@ == pending_trail(self.signs)
        &&& if self.signs {
            self.held is Signed
        } else {
            &&& self.held matches Outcome::Redirect(response)
            &&& response@.status == SEE_OTHER
            &&& response@.location is Some
            &&& response@.body.len() == 0
        }
    }

    /// Whether a signed URI was asked for.
    pub closed spec fn signs(self) -> bool {
        self.signs
    }

    /// The bucket that the request names.
    pub closed spec fn bucket(self) -> Seq<char> {
        self.bucket@
    }

    /// The phases passed so far.
    pub closed spec fn trail(self) -> Seq<Phase> {
        self.history@
    }

    /// What the storage client produced, kept back for now.
    pub closed spec fn artifact(self) -> Seq<char> {
        self.held.exposed()->0
    }

    /// The phases passed so far, the last of which is `AuthorizationPending`.
    pub fn history(&self) -> (history: &Vec<Phase>)
        ensures
            history@ == self.trail(),
            history@ == pending_trail(self.signs()),
    {
        proof {
            use_type_invariant(self);
        }
        &self.history
    }

    /// Takes the decision and ends the request. Only `Allow` hands out what
    /// the storage client produced: as the location of a redirect, or as the
    /// signed URI. Any other decision drops it.
    pub fn decide(self, decision: AuthorizationDecision) -> (closed: Closed)
        ensures
            closed.trail() == pending_trail(self.signs()).push(verdict(decision)),
            is_path(self.signs(), closed.trail()),
            closed.result().exposed() is Some <==> decision is Allow,
            match decision {
                AuthorizationDecision::Allow => if self.signs() {
                    closed.result() matches Outcome::Signed(response) && response.uri@
                        == self.artifact()
                } else {
                    &&& closed.result() matches Outcome::Redirect(response)
                    &&& response@.status == SEE_OTHER
                    &&& response@.location == Some(self.artifact())
                    &&& response@.body.len() == 0
                },
                AuthorizationDecision::Deny => closed.result() matches Outcome::Rejected(
                    Error::AuthorizationDenied,
                ),
                AuthorizationDecision::EstimationFailed => {
                    &&& closed.result() matches Outcome::Rejected(
                        Error::AudienceEstimation { bucket },
                    )
                    &&& bucket@ == self.bucket()
                },
                AuthorizationDecision::ProviderError { detail } => {
                    &&& closed.result() matches Outcome::Rejected(
                        Error::AuthorizationProvider { detail: reported },
                    )
                    &&& reported == detail
                },
            },
    {
        proof {
            use_type_invariant(&self);
        }
        let mut history = self.history;
        let outcome = match decision {
            AuthorizationDecision::Allow => {
                history.push(Phase::Allowed);
                self.held
            },
            AuthorizationDecision::Deny => {
                history.push(Phase::Denied);
                Outcome::Rejected(Error::AuthorizationDenied)
            },
            AuthorizationDecision::EstimationFailed => {
                history.push(Phase::Failed);
                Outcome::Rejected(Error::AudienceEstimation { bucket: self.bucket })
            },
            AuthorizationDecision::ProviderError { detail } => {
                history.push(Phase::Failed);
                Outcome::Rejected(Error::AuthorizationProvider { detail })
            },
        };
        Closed { history, outcome }
    }
}

impl Closed {
    #[verifier::type_invariant]
    spec fn wf(self) -> bool {
        &&& self.history@.len() > 0
        &&& self.history@.last().terminal()
        &&& self.history@.last() is Allowed <==> self.outcome.exposed() is Some
    }

    /// The phases that the request went through.
    pub closed spec fn trail(self) -> Seq<Phase> {
        self.history@
    }

    /// How the request ended.
    pub closed spec fn result(self) -> Outcome {
        self.outcome
    }

    /// The phase in which the request ended. A request hands out a URL or URI
    /// exactly when it ended `Allowed`.
    pub fn phase(&self) -> (phase: Phase)
        ensures
            self.trail().len() > 0,
            phase == self.trail().last(),
            phase.terminal(),
            phase is Allowed <==> self.result().exposed() is Some,
    {
        proof {
            use_type_invariant(self);
        }
        self.history[self.history.len() - 1]
    }

    /// The phases that the request went through, in order.
    pub fn history(&self) -> (history: &Vec<Phase>)
        ensures
            history@ == self.trail(),
    {
        &self.history
    }

    /// How the request ended.
    pub fn outcome(&self) -> (outcome: &Outcome)
        ensures
            *outcome == self.result(),
    {
        &self.outcome
    }

    /// How the request ended, to be sent.
    pub fn into_outcome(self) -> (outcome: Outcome)
        ensures
            outcome == self.result(),
    {
        self.outcome
    }
}

/// Takes a request in and carries it as far as it goes without outside work.
///
/// A request for a signed URI from an anonymous caller is denied at once. A
/// method that stands for no action fails the request, and so does a bucket
/// that no configured audience covers. Otherwise the request is addressed, its
/// audience is resolved, and the storage client is to be asked: for a
/// pre-signed `GET` URL of the object, or to sign the request that the payload
/// describes. The question for the provider is held ready.
pub fn open(request: Request, subject: Option<Subject>, estimator: &AudienceEstimator) -> (opened:
    Opened)
    ensures
        match opened {
            Opened::Closed(closed) => {
                &&& is_path(request.signs(), closed.trail())
                &&& if request.signs() && subject is None {
                    &&& closed.trail() == seq![Phase::Received, Phase::Denied]
                    &&& closed.result() matches Outcome::Rejected(Error::AuthorizationDenied)
                } else if action_of(request.method()) is None {
                    &&& closed.trail() == seq![Phase::Received, Phase::Failed]
                    &&& closed.result() matches Outcome::Rejected(
                        Error::UnsupportedMethod { method },
                    )
                    &&& method@ == request.method()
                } else {
                    &&& uncovered(estimator@, request.bucket())
                    &&& closed.trail() == seq![Phase::Received, Phase::Addressed, Phase::Failed]
                    &&& closed.result() matches Outcome::Rejected(
                        Error::AudienceEstimation { bucket },
                    )
                    &&& bucket@ == request.bucket()
                }
            },
            Opened::Proceed(state, call) => {
                &&& !(request.signs() && subject is None)
                &&& action_of(request.method()) matches Some(action)
                &&& state.query().action == action
                &&& state.query().subject == subject
                &&& state.query().object.deep_view() == resource_path(
                    request.bucket(),
                    request.set(),
                    request.object(),
                )
                &&& is_audience_of(estimator@, request.bucket(), state.query().audience@)
                &&& state.signs() == request.signs()
                &&& state.bucket() == request.bucket()
                &&& state.trail() == resolved_trail()
                &&& is_path(request.signs(), state.trail())
                &&& match call {
                    StorageCall::Presign { method, bucket, key } => {
                        &&& !request.signs()
                        &&& method@ == "GET"@
                        &&& bucket@ == request.bucket()
                        &&& key@ == canonical_key(request.set(), request.object())
                    },
                    StorageCall::Sign(spec) => {
                        &&& request.signs()
                        &&& spec@ == (SpecView {
                            method: request.method(),
                            bucket: request.bucket(),
                            object: canonical_key(request.set(), request.object()),
                            headers: overrides(request.headers()),
                        })
                    },
                }
            },
        },
{
    match request {
        Request::ObjectRead { bucket, object } => {
            read(bucket, None, object, subject, estimator)
        },
        Request::SetRead { bucket, set, object } => {
            read(bucket, Some(set), object, subject, estimator)
        },
        Request::Sign(payload) => {
            let ghost asked = Request::Sign(payload);
            if subject.is_none() {
                return Opened::Closed(
                    Closed {
                        history: vec![Phase::Received, Phase::Denied],
                        outcome: Outcome::Rejected(Error::AuthorizationDenied),
                    },
                );
            }
            let action = match parse_action(payload.method()) {
                Ok(action) => action,
                Err(refused) => {
                    return Opened::Closed(
                        Closed {
                            history: vec![Phase::Received, Phase::Failed],
                            outcome: Outcome::Rejected(refused),
                        },
                    );
                },
            };
            let found = address(payload.bucket(), payload.set(), payload.object());
            let audience = match estimator.estimate(payload.bucket()) {
                Ok(audience) => String::from_str(audience),
                Err(unknown) => {
                    return Opened::Closed(
                        Closed {
                            history: vec![Phase::Received, Phase::Addressed, Phase::Failed],
                            outcome: Outcome::Rejected(unknown),
                        },
                    );
                },
            };
            let headers = payload.headers();
            let mut builder = SignedRequestBuilder::new().method(payload.method()).bucket(
                payload.bucket(),
            ).object(found.key.as_str());
            let mut i: usize = 0;
            assert(headers@.take(0) =~= Seq::empty());
            while i < headers.len()
                invariant
                    i <= headers.len(),
                    builder@ == (BuilderView {
                        method: Some(payload@.method),
                        bucket: Some(payload@.bucket),
                        object: Some(found.key@),
                        headers: overrides(headers@.take(i as int)),
                    }),
                decreases headers.len() - i,
            {
                builder = builder.add_header(headers[i].name.as_str(), headers[i].value.as_str());
                assert(headers@.take(i + 1).drop_last() =~= headers@.take(i as int));
                i += 1;
            }
            assert(headers@.take(headers.len() as int) =~= headers@);
            let spec = match builder.build() {
                Ok(spec) => spec,
                Err(incomplete) => {
                    return Opened::Closed(
                        Closed {
                            history: vec![Phase::Received, Phase::Addressed, Phase::Failed],
                            outcome: Outcome::Rejected(incomplete),
                        },
                    );
                },
            };
            let state = AudienceResolved {
                signs: true,
                bucket: String::from_str(payload.bucket()),
                history: vec![Phase::Received, Phase::Addressed, Phase::AudienceResolved],
                query: Authorization { audience, subject, object: found.resource, action },
            };
            Opened::Proceed(state, StorageCall::Sign(spec))
        },
    }
}

/// The first step of a read: the object is asked for with `GET`.
fn read(
    bucket: String,
    set: Option<String>,
    object: String,
    subject: Option<Subject>,
    estimator: &AudienceEstimator,
) -> (opened: Opened)
    ensures
        match opened {
            Opened::Closed(closed) => {
                &&& uncovered(estimator@, bucket@)
                &&& closed.trail() == seq![Phase::Received, Phase::Addressed, Phase::Failed]
                &&& is_path(false, closed.trail())
                &&& closed.result() matches Outcome::Rejected(Error::AudienceEstimation { bucket: named })
                &&& named@ == bucket@
            },
            Opened::Proceed(state, call) => {
                &&& state.query().action == Action::Read
                &&& state.query().subject == subject
                &&& state.query().object.deep_view() == resource_path(
                    bucket@,
                    crate::signing::held(set),
                    object@,
                )
                &&& is_audience_of(estimator@, bucket@, state.query().audience@)
                &&& !state.signs()
                &&& state.bucket() == bucket@
                &&& state.trail() == resolved_trail()
                &&& is_path(false, state.trail())
                &&& call matches StorageCall::Presign { method, bucket: named, key }
                &&& method@ == "GET"@
                &&& named@ == bucket@
                &&& key@ == canonical_key(crate::signing::held(set), object@)
            },
        },
{
    let found = match &set {
        Some(set) => address(bucket.as_str(), Some(set.as_str()), object.as_str()),
        None => address(bucket.as_str(), None, object.as_str()),
    };
    let audience = match estimator.estimate(bucket.as_str()) {
        Ok(audience) => String::from_str(audience),
        Err(unknown) => {
            return Opened::Closed(
                Closed {
                    history: vec![Phase::Received, Phase::Addressed, Phase::Failed],
                    outcome: Outcome::Rejected(unknown),
                },
            );
        },
    };
    let call = StorageCall::Presign {
        method: String::from_str("GET"),
        bucket: String::from_str(bucket.as_str()),
        key: found.key,
    };
    let state = AudienceResolved {
        signs: false,
        bucket,
        history: vec![Phase::Received, Phase::Addressed, Phase::AudienceResolved],
        query: Authorization { audience, subject, object: found.resource, action: Action::Read },
    };
    Opened::Proceed(state, call)
}

} // verus!
