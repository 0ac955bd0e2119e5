//! The middleware that every request passes before a handler sees it.

use crate::bearer::bearer_header;
use crate::bearer::bearer_token;
use crate::bearer::extract_bearer;
use crate::error::AuthError;
use crate::base64url::base64url_bytes;
use crate::json::json_text_member;
use crate::jwk::key_with_id;
use crate::jwk::Jwk;
use crate::jwk::JwkModel;
use crate::jwk::JwkRegistry;
use crate::key_material::SigningKeyModel;
use crate::text::same_text;
use crate::token::compact_parts;
use crate::token::declared_key_id;
use crate::token::decoded;
use crate::token::expiry_for;
use crate::token::issued;
use crate::token::lemma_issued_round_trip;
use crate::token::signature_accepted;
use crate::token::TokenCodec;
use vstd::prelude::*;
use vstd::string::*;
use vstd::utf8::*;

verus! {

/// Who a verified request comes from.
#[derive(Debug)]
pub struct AuthenticatedIdentity {
    /// The subject that the verified token was issued for.
    pub subject_identifier: String,
}

/// What an `AuthenticatedIdentity` holds, as mathematical values.
pub ghost struct IdentityModel {
    pub subject_identifier: Seq<char>,
}

impl View for AuthenticatedIdentity {
    type V = IdentityModel;

    open spec fn view(&self) -> IdentityModel {
        IdentityModel { subject_identifier: self.subject_identifier@ }
    }
}

/// Whether a request with this method is a pre-flight probe, which passes without
/// credentials. The method name is matched exactly.
pub open spec fn is_preflight(method: Seq<char>) -> bool {
    method == "OPTIONS"@
}

/// How far the middleware has come with a request.
#[derive(Debug)]
pub enum AuthState<'a> {
    /// Nothing was looked at yet.
    Unauthenticated,
    /// The bearer token was taken from the `Authorization` header.
    HeaderExtracted { token: &'a str },
    /// The key that the token names was found in the registry.
    KeyResolved { token: &'a str, key: &'a Jwk },
    /// The request may proceed, with the identity that was verified, if any.
    Verified { identity: Option<AuthenticatedIdentity> },
    /// The request is refused.
    Rejected { reason: AuthError },
}

/// What a `AuthState` holds, as mathematical values.
pub ghost enum AuthStateModel {
    Unauthenticated,
    HeaderExtracted { token: Seq<char> },
    KeyResolved { token: Seq<char>, key: JwkModel },
    Verified { identity: Option<IdentityModel> },
    Rejected { reason: AuthError },
}

impl<'a> View for AuthState<'a> {
    type V = AuthStateModel;

    open spec fn view(&self) -> AuthStateModel {
        match self {
            AuthState::Unauthenticated => AuthStateModel::Unauthenticated,
            AuthState::HeaderExtracted { token } => AuthStateModel::HeaderExtracted { token: token@ },
            AuthState::KeyResolved { token, key } => AuthStateModel::KeyResolved {
                token: token@,
                key: key@,
            },
            AuthState::Verified { identity } => AuthStateModel::Verified {
                identity: match identity {
                    Some(who) => Some(who@),
                    None => None,
                },
            },
            AuthState::Rejected { reason } => AuthStateModel::Rejected { reason: *reason },
        }
    }
}

/// What the caller gets to see of the decision. Every refusal looks the same.
#[derive(Clone, Copy, Debug, PartialEq, Eq, Structural)]
pub enum Admission {
    /// The request goes on to its handler.
    Proceed,
    /// The request is answered as unauthorized, with no reason given.
    Unauthorized,
}

impl Admission {
    /// The HTTP status that shows the admission: 200 for a request that proceeds, 401
    /// for every other.
    pub open spec fn spec_status_code(self) -> u16 {
        match self {
            Admission::Proceed => 200,
            Admission::Unauthorized => 401,
        }
    }

    /// The HTTP status that shows the admission.
    pub fn status_code(self) -> (status: u16)
        ensures
            status == self.spec_status_code(),
    {
        match self {
            Admission::Proceed => 200,
            Admission::Unauthorized => 401,
        }
    }

    /// What the caller gets to see of a decision: that it proceeds, or that it is
    /// unauthorized, without the reason.
    pub fn of(decision: &Result<Option<AuthenticatedIdentity>, AuthError>) -> (shown: Admission)
        ensures
            shown == if decision is Ok {
                Admission::Proceed
            } else {
                Admission::Unauthorized
            },
    {
        match decision {
            Ok(_) => Admission::Proceed,
            Err(_) => Admission::Unauthorized,
        }
    }
}

impl AuthStateModel {
    /// Whether the request has been decided on.
    pub open spec fn is_terminal(self) -> bool {
        self is Verified || self is Rejected
    }

    /// What the caller gets to see: a verified request proceeds, anything else is
    /// unauthorized.
    pub open spec fn admission(self) -> Admission {
        if self is Verified {
            Admission::Proceed
        } else {
            Admission::Unauthorized
        }
    }

    /// The decision as a result: the identity, if any, of a verified request, the
    /// reason of a refused one. A request that is still under way counts as one
    /// without credential.
    pub open spec fn decision(self) -> Result<Option<IdentityModel>, AuthError> {
        match self {
            AuthStateModel::Verified { identity } => Ok(identity),
            AuthStateModel::Rejected { reason } => Err(reason),
            _ => Err(AuthError::MissingCredential),
        }
    }
}

/// The state that follows `state` for a request with the given method and
/// `Authorization` header value, against the keys `keys` at the instant `now`.
///
/// From `Unauthenticated`, a pre-flight probe is verified without identity, whatever
/// credential it carries; any other request goes on with its bearer token or is
/// refused for want of a credential. From `HeaderExtracted`, the key that the token
/// names is looked up: a token that names none is refused as malformed, one that names
/// a key the registry does not hold as of unknown key. From `KeyResolved`, the token
/// is verified under that key and the request is verified with the token's subject as
/// its identity, or refused for the reason the verification gave. A decided state
/// stays as it is.
pub open spec fn advanced(
    state: AuthStateModel,
    method: Seq<char>,
    authorization: Option<Seq<char>>,
    keys: Seq<JwkModel>,
    now: u64,
) -> AuthStateModel {
    match state {
        AuthStateModel::Unauthenticated => if is_preflight(method) {
            AuthStateModel::Verified { identity: None }
        } else {
            match authorization {
                None => AuthStateModel::Rejected { reason: AuthError::MissingCredential },
                Some(value) => match bearer_token(value) {
                    None => AuthStateModel::Rejected { reason: AuthError::MissingCredential },
                    Some(token) => AuthStateModel::HeaderExtracted { token },
                },
            }
        },
        AuthStateModel::HeaderExtracted { token } => match declared_key_id(token) {
            Err(reason) => AuthStateModel::Rejected { reason },
            Ok(key_id) => match key_with_id(keys, key_id) {
                None => AuthStateModel::Rejected { reason: AuthError::UnknownKey },
                Some(key) => AuthStateModel::KeyResolved { token, key },
            },
        },
        AuthStateModel::KeyResolved { token, key } => match decoded(token, key, now) {
            Ok(claims) => AuthStateModel::Verified {
                identity: Some(IdentityModel { subject_identifier: claims.subject_identifier }),
            },
            Err(reason) => AuthStateModel::Rejected { reason },
        },
        AuthStateModel::Verified { identity } => state,
        AuthStateModel::Rejected { reason } => state,
    }
}

/// The state in which a request ends up: three steps on from
/// `Unauthenticated`.
pub open spec fn settled(
    method: Seq<char>,
    authorization: Option<Seq<char>>,
    keys: Seq<JwkModel>,
    now: u64,
) -> AuthStateModel {
    let first = advanced(AuthStateModel::Unauthenticated, method, authorization, keys, now);
    let second = advanced(first, method, authorization, keys, now);
    advanced(second, method, authorization, keys, now)
}

/// The decision on a request, said in one piece.
///
/// A pre-flight probe proceeds without identity. Any other request needs a bearer
/// token in its `Authorization` header, or is refused with `MissingCredential`. The
/// token must declare a key identifier, or the request is refused with `Malformed`;
/// the registry must hold a key under exactly that identifier, or it is refused with
/// `UnknownKey`. The token must then verify under that key: the request proceeds as
/// the subject of the claims, or is refused for the reason for which the verification
/// failed.
pub open spec fn decision_for(
    method: Seq<char>,
    authorization: Option<Seq<char>>,
    keys: Seq<JwkModel>,
    now: u64,
) -> Result<Option<IdentityModel>, AuthError> {
    if is_preflight(method) {
        Ok(None)
    } else if authorization is None || bearer_token(authorization->Some_0) is None {
        Err(AuthError::MissingCredential)
    } else {
        let token = bearer_token(authorization->Some_0)->Some_0;
        match declared_key_id(token) {
            Err(reason) => Err(reason),
            Ok(key_id) => match key_with_id(keys, key_id) {
                None => Err(AuthError::UnknownKey),
                Some(key) => match decoded(token, key, now) {
                    Ok(claims) => Ok(
                        Some(IdentityModel { subject_identifier: claims.subject_identifier }),
                    ),
                    Err(reason) => Err(reason),
                },
            },
        }
    }
}

/// The state in which a request ends up holds the decision that `decision_for` gives.
pub proof fn lemma_settled_decision(
    method: Seq<char>,
    authorization: Option<Seq<char>>,
    keys: Seq<JwkModel>,
    now: u64,
)
    ensures
        settled(method, authorization, keys, now).decision() == decision_for(
            method,
            authorization,
            keys,
            now,
        ),
        settled(method, authorization, keys, now).is_terminal(),
{
}

/// A text, where there is one, taken as a sequence of characters.
pub open spec fn value_if_any(value: Option<&str>) -> Option<Seq<char>> {
    match value {
        Some(v) => Some(v@),
        None => None,
    }
}

/// A decision with the identity in it taken as mathematical values.
pub open spec fn decision_outcome(decision: Result<Option<AuthenticatedIdentity>, AuthError>) -> Result<
    Option<IdentityModel>,
    AuthError,
> {
    match decision {
        Ok(Some(who)) => Ok(Some(who@)),
        Ok(None) => Ok(None),
        Err(reason) => Err(reason),
    }
}

impl<'a> AuthState<'a> {
    /// Whether the request has been decided on.
    pub fn is_terminal(&self) -> (terminal: bool)
        ensures
            terminal == self@.is_terminal(),
    {
        match self {
            AuthState::Verified { .. } => true,
            AuthState::Rejected { .. } => true,
            _ => false,
        }
    }

    /// What the caller gets to see of the decision.
    pub fn admission(&self) -> (shown: Admission)
        ensures
            shown == self@.admission(),
    {
        match self {
            AuthState::Verified { .. } => Admission::Proceed,
            _ => Admission::Unauthorized,
        }
    }

    /// The decision as a result.
    pub fn into_decision(self) -> (decision: Result<Option<AuthenticatedIdentity>, AuthError>)
        ensures
            decision_outcome(decision) == self@.decision(),
    {
        match self {
            AuthState::Verified { identity } => Ok(identity),
            AuthState::Rejected { reason } => Err(reason),
            _ => Err(AuthError::MissingCredential),
        }
    }
}

/// The request-time middleware: it holds the registry of keys against which tokens are verified
/// and nothing that changes from request to request.
pub struct AuthorizationMiddleware {
    registry: JwkRegistry,
}

impl View for AuthorizationMiddleware {
    type V = Seq<JwkModel>;

    closed spec fn view(&self) -> Seq<JwkModel> {
        self.registry@
    }
}

impl AuthorizationMiddleware {
    /// A middleware that verifies against the keys of `registry`.
    pub fn new(registry: JwkRegistry) -> (middleware: AuthorizationMiddleware)
        ensures
            middleware@ == registry@,
    {
        AuthorizationMiddleware { registry }
    }

    /// The registry that tokens are verified against.
    pub fn registry(&self) -> (registry: &JwkRegistry)
        ensures
            registry@ == self@,
    {
        &self.registry
    }

    /// Takes a request one step on from `state`: see `advanced`.
    pub fn advance<'a>(
        &'a self,
        state: AuthState<'a>,
        method: &str,
        authorization: Option<&'a str>,
        now: u64,
    ) -> (next: AuthState<'a>)
        ensures
            next@ == advanced(state@, method@, value_if_any(authorization), self@, now),
    {
        match state {
            AuthState::Unauthenticated => {
                if same_text(method, "OPTIONS") {
                    return AuthState::Verified { identity: None };
                }
                let value = match authorization {
                    Some(value) => value,
                    None => {
                        return AuthState::Rejected { reason: AuthError::MissingCredential };
                    },
                };
                match extract_bearer(value) {
                    Some(token) => AuthState::HeaderExtracted { token },
                    None => AuthState::Rejected { reason: AuthError::MissingCredential },
                }
            },
            AuthState::HeaderExtracted { token } => {
                let key_id = match TokenCodec::peek_key_id(token) {
                    Ok(key_id) => key_id,
                    Err(reason) => { return AuthState::Rejected { reason }; },
                };
                match self.registry.lookup(key_id.as_str()) {
                    Some(key) => AuthState::KeyResolved { token, key },
                    None => AuthState::Rejected { reason: AuthError::UnknownKey },
                }
            },
            AuthState::KeyResolved { token, key } => {
                match TokenCodec::decode(token, key, now) {
                    Ok(claims) => AuthState::Verified {
                        identity: Some(
                            AuthenticatedIdentity { subject_identifier: claims.subject_identifier },
                        ),
                    },
                    Err(reason) => AuthState::Rejected { reason },
                }
            },
            AuthState::Verified { identity } => AuthState::Verified { identity },
            AuthState::Rejected { reason } => AuthState::Rejected { reason },
        }
    }

    /// Decides on a request from its method and the value of its `Authorization`
    /// header, if it has one, at the instant `now`.
    ///
    /// The decision is the one of the state in which the request ends up: `Ok` with the verified
    /// identity, or with none for a pre-flight probe, and `Err` with the reason for
    /// which the request is refused.
    pub fn from_request_parts(&self, method: &str, authorization: Option<&str>, now: u64) -> (decision: Result<
        Option<AuthenticatedIdentity>,
        AuthError,
    >)
        ensures
            decision_outcome(decision) == settled(
                method@,
                value_if_any(authorization),
                self@,
                now,
            ).decision(),
            decision_outcome(decision) == decision_for(
                method@,
                value_if_any(authorization),
                self@,
                now,
            ),
    {
        proof {
            lemma_settled_decision(method@, value_if_any(authorization), self@, now);
        }
        let first = self.advance(AuthState::Unauthenticated, method, authorization, now);
        let second = self.advance(first, method, authorization, now);
        let third = self.advance(second, method, authorization, now);
        third.into_decision()
    }

    /// What the caller gets to see of the decision on a request: whether it proceeds
    /// or is answered as unauthorized, and nothing else.
    pub fn respond(&self, method: &str, authorization: Option<&str>, now: u64) -> (shown: Admission)
        ensures
            shown == settled(method@, value_if_any(authorization), self@, now).admission(),
            shown == Admission::Proceed <==> decision_for(
                method@,
                value_if_any(authorization),
                self@,
                now,
            ) is Ok,
    {
        proof {
            lemma_settled_decision(method@, value_if_any(authorization), self@, now);
        }
        let first = self.advance(AuthState::Unauthenticated, method, authorization, now);
        let second = self.advance(first, method, authorization, now);
        let third = self.advance(second, method, authorization, now);
        third.admission()
    }
}

/// Pre-flight bypass: a pre-flight probe ends up verified with no identity attached,
/// whatever credential it carries, whatever keys are held and whenever it comes.
pub proof fn lemma_preflight_passes(
    method: Seq<char>,
    authorization: Option<Seq<char>>,
    keys: Seq<JwkModel>,
    now: u64,
)
    requires
        is_preflight(method),
    ensures
        advanced(AuthStateModel::Unauthenticated, method, authorization, keys, now) == (
        AuthStateModel::Verified { identity: None }),
        settled(method, authorization, keys, now) == (AuthStateModel::Verified { identity: None }),
        settled(method, authorization, keys, now).admission() == Admission::Proceed,
{
}

/// Unknown key: a request whose token names a key that the registry does not hold is
/// refused with `UnknownKey`. The refusal is reached in the second step, before the
/// step that verifies the token, so no signature is looked at.
pub proof fn lemma_unknown_key_is_refused(
    method: Seq<char>,
    value: Seq<char>,
    keys: Seq<JwkModel>,
    now: u64,
)
    requires
        !is_preflight(method),
        bearer_token(value) is Some,
        declared_key_id(bearer_token(value)->Some_0) is Ok,
        key_with_id(keys, declared_key_id(bearer_token(value)->Some_0)->Ok_0) is None,
    ensures
        advanced(
            advanced(AuthStateModel::Unauthenticated, method, Some(value), keys, now),
            method,
            Some(value),
            keys,
            now,
        ) == (AuthStateModel::Rejected { reason: AuthError::UnknownKey }),
        settled(method, Some(value), keys, now) == (AuthStateModel::Rejected {
            reason: AuthError::UnknownKey,
        }),
{
}

/// A request that is no pre-flight probe and carries no usable bearer credential is
/// refused with `MissingCredential`.
pub proof fn lemma_missing_credential_is_refused(
    method: Seq<char>,
    authorization: Option<Seq<char>>,
    keys: Seq<JwkModel>,
    now: u64,
)
    requires
        !is_preflight(method),
        authorization is None || bearer_token(authorization->Some_0) is None,
    ensures
        settled(method, authorization, keys, now) == (AuthStateModel::Rejected {
            reason: AuthError::MissingCredential,
        }),
        settled(method, authorization, keys, now).admission() == Admission::Unauthorized,
{
}

/// Every request ends up decided: verified or rejected.
pub proof fn lemma_settled_is_terminal(
    method: Seq<char>,
    authorization: Option<Seq<char>>,
    keys: Seq<JwkModel>,
    now: u64,
)
    ensures
        settled(method, authorization, keys, now).is_terminal(),
        advanced(settled(method, authorization, keys, now), method, authorization, keys, now)
            == settled(method, authorization, keys, now),
{
}

/// A request that is no pre-flight probe ends up verified only with an identity, and
/// only where its bearer token names a key that the registry holds and verifies under
/// that key; the identity is the subject of the token's claims.
pub proof fn lemma_verified_means_decoded(
    method: Seq<char>,
    authorization: Option<Seq<char>>,
    keys: Seq<JwkModel>,
    now: u64,
)
    requires
        !is_preflight(method),
        settled(method, authorization, keys, now) is Verified,
    ensures
        authorization is Some,
        bearer_token(authorization->Some_0) is Some,
        declared_key_id(bearer_token(authorization->Some_0)->Some_0) is Ok,
        key_with_id(keys, declared_key_id(bearer_token(authorization->Some_0)->Some_0)->Ok_0)
            is Some,
        decoded(
            bearer_token(authorization->Some_0)->Some_0,
            key_with_id(
                keys,
                declared_key_id(bearer_token(authorization->Some_0)->Some_0)->Ok_0,
            )->Some_0,
            now,
        ) is Ok,
        settled(method, authorization, keys, now) == (AuthStateModel::Verified {
            identity: Some(
                IdentityModel {
                    subject_identifier: decoded(
                        bearer_token(authorization->Some_0)->Some_0,
                        key_with_id(
                            keys,
                            declared_key_id(bearer_token(authorization->Some_0)->Some_0)->Ok_0,
                        )->Some_0,
                        now,
                    )->Ok_0.subject_identifier,
                },
            ),
        }),
{
}

/// A request whose bearer token verifies under the key it names ends up verified with
/// the subject of the token as its identity.
pub proof fn lemma_decoded_means_verified(
    method: Seq<char>,
    value: Seq<char>,
    keys: Seq<JwkModel>,
    now: u64,
)
    requires
        !is_preflight(method),
        bearer_token(value) is Some,
        declared_key_id(bearer_token(value)->Some_0) is Ok,
        key_with_id(keys, declared_key_id(bearer_token(value)->Some_0)->Ok_0) is Some,
        decoded(
            bearer_token(value)->Some_0,
            key_with_id(keys, declared_key_id(bearer_token(value)->Some_0)->Ok_0)->Some_0,
            now,
        ) is Ok,
    ensures
        settled(method, Some(value), keys, now) == (AuthStateModel::Verified {
            identity: Some(
                IdentityModel {
                    subject_identifier: decoded(
                        bearer_token(value)->Some_0,
                        key_with_id(
                            keys,
                            declared_key_id(bearer_token(value)->Some_0)->Ok_0,
                        )->Some_0,
                        now,
                    )->Ok_0.subject_identifier,
                },
            ),
        }),
{
}

/// Uniform refusal: whatever the reasons, two refused requests look the same to their
/// callers, and so does any request that is not verified.
pub proof fn lemma_refusals_look_alike(one: AuthStateModel, other: AuthStateModel)
    requires
        !(one is Verified),
        !(other is Verified),
    ensures
        one.admission() == other.admission(),
        one.admission() == Admission::Unauthorized,
{
}

/// A refusal is never for a reason that concerns the service's own key.
pub proof fn lemma_refusals_are_request_scoped(
    method: Seq<char>,
    authorization: Option<Seq<char>>,
    keys: Seq<JwkModel>,
    now: u64,
)
    requires
        settled(method, authorization, keys, now) is Rejected,
    ensures
        settled(method, authorization, keys, now)->reason.spec_is_request_scoped(),
{
}

/// What the caller gets to see of the state in which a request ends up goes by the
/// decision alone: the request proceeds exactly when the decision is `Ok`.
pub proof fn lemma_admission_follows_decision(
    method: Seq<char>,
    authorization: Option<Seq<char>>,
    keys: Seq<JwkModel>,
    now: u64,
)
    ensures
        settled(method, authorization, keys, now).admission() == Admission::Proceed <==> settled(
            method,
            authorization,
            keys,
            now,
        ).decision() is Ok,
{
}

/// End to end: a token issued for a subject, presented as bearer credential before
/// its expiry to a middleware that holds the public half of the issuing key under its
/// identifier, gets the request verified with exactly that subject as its identity.
pub proof fn lemma_issued_token_is_admitted(
    subject_identifier: Seq<char>,
    key: SigningKeyModel,
    now: u64,
    method: Seq<char>,
    keys: Seq<JwkModel>,
    later: u64,
)
    requires
        expiry_for(now) <= u64::MAX,
        issued(subject_identifier, key, now) is Ok,
        later < expiry_for(now),
        !is_preflight(method),
        key_with_id(keys, key.key_id) == Some(key.public_jwk()),
    ensures
        settled(
            method,
            Some(bearer_header(issued(subject_identifier, key, now)->Ok_0)),
            keys,
            later,
        ) == (AuthStateModel::Verified { identity: Some(IdentityModel { subject_identifier }) }),
        decision_for(
            method,
            Some(bearer_header(issued(subject_identifier, key, now)->Ok_0)),
            keys,
            later,
        ) == Ok::<Option<IdentityModel>, AuthError>(Some(IdentityModel { subject_identifier })),
{
    lemma_issued_round_trip(subject_identifier, key, now, later);
}

/// Tampering: a request whose bearer token is framed well, names a key that the
/// registry holds and declares an algorithm, but carries a signature that is not
/// accepted under that key, is refused with `SignatureInvalid`; no identity is attached.
pub proof fn lemma_unaccepted_signature_is_unauthorized(
    method: Seq<char>,
    value: Seq<char>,
    keys: Seq<JwkModel>,
    now: u64,
)
    requires
        !is_preflight(method),
        bearer_token(value) is Some,
        declared_key_id(bearer_token(value)->Some_0) is Ok,
        key_with_id(keys, declared_key_id(bearer_token(value)->Some_0)->Ok_0) is Some,
        base64url_bytes(compact_parts(bearer_token(value)->Some_0)->Some_0.payload) is Some,
        json_text_member(
            base64url_bytes(compact_parts(bearer_token(value)->Some_0)->Some_0.header)->Some_0,
            "alg"@,
        ) is Some,
        !signature_accepted(
            compact_parts(bearer_token(value)->Some_0)->Some_0,
            key_with_id(keys, declared_key_id(bearer_token(value)->Some_0)->Ok_0)->Some_0,
        ),
    ensures
        settled(method, Some(value), keys, now) == (AuthStateModel::Rejected {
            reason: AuthError::SignatureInvalid,
        }),
        settled(method, Some(value), keys, now).admission() == Admission::Unauthorized,
{
}

} // verus!
