//! Compact signed tokens: how they are framed, issued and verified.

use crate::base64url;
use crate::base64url::base64url_bytes;
use crate::base64url::base64url_text;
use crate::bearer::bearer_header;
use crate::bearer::bearer_header_value;
use crate::bearer::bearer_token;
use crate::bearer::extract_bearer;
use crate::error::AuthError;
use crate::json;
use crate::json::json_number_member;
use crate::json::json_string_literal;
use crate::json::json_text_member;
use crate::jwk::Algorithm;
use crate::jwk::Jwk;
use crate::jwk::JwkModel;
use crate::key_material::SigningKey;
use crate::key_material::SigningKeyModel;
use crate::rs256;
use crate::rs256::rs256_accepts;
use crate::rs256::rs256_signature;
use crate::text::decimal;
use crate::text::decimal_text;
use crate::text::find_ascii;
use crate::text::position_of;
use crate::text::same_text;
use vstd::prelude::*;
use vstd::string::*;
use vstd::utf8::*;

verus! {

/// Length of time, in seconds, for which an issued token stays valid: 52 weeks.
pub const VALIDITY_WINDOW_SECS: u64 = 31449600;

/// The one algorithm under which tokens are issued and accepted.
pub open spec fn pinned_algorithm() -> Algorithm {
    Algorithm::RS256
}

/// The signed payload of a token.
#[derive(Debug)]
pub struct Claims {
    /// Whom the token was issued for.
    pub subject_identifier: String,
    /// The instant, in seconds since the epoch, from which on the token is refused.
    pub expires_at: u64,
}

/// What `Claims` hold, as mathematical values.
pub ghost struct ClaimsModel {
    pub subject_identifier: Seq<char>,
    pub expires_at: u64,
}

impl View for Claims {
    type V = ClaimsModel;

    open spec fn view(&self) -> ClaimsModel {
        ClaimsModel { subject_identifier: self.subject_identifier@, expires_at: self.expires_at }
    }
}

impl Claims {
    /// The claims of a token issued at `now` for `subject_identifier`: they expire one
    /// validity window later, which is strictly after `now`.
    pub fn issued(subject_identifier: String, now: u64) -> (claims: Claims)
        requires
            expiry_for(now) <= u64::MAX,
        ensures
            claims@ == (ClaimsModel {
                subject_identifier: subject_identifier@,
                expires_at: expiry_for(now) as u64,
            }),
            claims.expires_at > now,
    {
        Claims { subject_identifier, expires_at: now + VALIDITY_WINDOW_SECS }
    }
}

/// The three segments of a compact token, and the text that its signature covers.
pub struct CompactSegments<'a> {
    /// The encoded header.
    pub header: &'a str,
    /// The encoded payload.
    pub payload: &'a str,
    /// The encoded signature.
    pub signature: &'a str,
    /// The header, a dot and the payload: what the signature is computed over.
    pub signing_input: &'a str,
}

/// What `CompactSegments` hold, as mathematical values.
pub ghost struct CompactParts {
    pub header: Seq<char>,
    pub payload: Seq<char>,
    pub signature: Seq<char>,
    pub signing_input: Seq<char>,
}

impl<'a> View for CompactSegments<'a> {
    type V = CompactParts;

    open spec fn view(&self) -> CompactParts {
        CompactParts {
            header: self.header@,
            payload: self.payload@,
            signature: self.signature@,
            signing_input: self.signing_input@,
        }
    }
}

/// The segments of `token`, if it is ASCII text with exactly two dots in it.
pub open spec fn compact_parts(token: Seq<char>) -> Option<CompactParts> {
    let first = position_of(token, '.', 0);
    let second = position_of(token, '.', first + 1);
    let third = position_of(token, '.', second + 1);
    if is_ascii_chars(token) && first < token.len() && second < token.len() && third
        == token.len() {
        Some(
            CompactParts {
                header: token.subrange(0, first),
                payload: token.subrange(first + 1, second),
                signature: token.subrange(second + 1, token.len() as int),
                signing_input: token.subrange(0, second),
            },
        )
    } else {
        None
    }
}

/// The compact token made of three segments.
pub open spec fn compact_text(header: Seq<char>, payload: Seq<char>, signature: Seq<char>) -> Seq<
    char,
> {
    header + seq!['.'] + payload + seq!['.'] + signature
}

/// Splits a compact token into its segments.
pub fn split_compact<'a>(token: &'a str) -> (segments: Option<CompactSegments<'a>>)
    ensures
        match segments {
            Some(found) => compact_parts(token@) == Some(found@),
            None => compact_parts(token@).is_none(),
        },
{
    if !token.is_ascii() {
        return None;
    }
    let length = token.unicode_len();
    let first = find_ascii(token, 46u8, 0);
    if first >= length {
        return None;
    }
    let second = find_ascii(token, 46u8, first + 1);
    if second >= length {
        return None;
    }
    let third = find_ascii(token, 46u8, second + 1);
    if third < length {
        return None;
    }
    Some(
        CompactSegments {
            header: token.substring_ascii(0, first),
            payload: token.substring_ascii(first + 1, second),
            signature: token.substring_ascii(second + 1, length),
            signing_input: token.substring_ascii(0, second),
        },
    )
}

/// The instant at which a token issued at `now` stops being accepted.
pub open spec fn expiry_for(now: u64) -> int {
    now + VALIDITY_WINDOW_SECS
}

/// The header of a token that names the key `key_id`, as JSON text.
pub open spec fn header_text(key_id: Seq<char>) -> Seq<char> {
    "{\"alg\":\"RS256\",\"kid\":"@ + json_string_literal(key_id) + ",\"typ\":\"JWT\"}"@
}

/// The payload of a token for `subject_identifier` that expires at `expires_at`, as
/// JSON text.
pub open spec fn payload_text(subject_identifier: Seq<char>, expires_at: u64) -> Seq<char> {
    "{\"sub\":"@ + json_string_literal(subject_identifier) + ",\"exp\":"@ + decimal_text(
        expires_at as nat,
    ) + "}"@
}

/// The text that the signature of a token covers: the encoded header, a dot and the
/// encoded payload.
pub open spec fn unsigned_text(
    key_id: Seq<char>,
    subject_identifier: Seq<char>,
    expires_at: u64,
) -> Seq<char> {
    base64url_text(encode_utf8(header_text(key_id))) + "."@ + base64url_text(
        encode_utf8(payload_text(subject_identifier, expires_at)),
    )
}

/// The token that `key` issues for `subject_identifier` with expiry `expires_at`;
/// `KeyMaterialFatal` where the key cannot sign.
pub open spec fn encoded(subject_identifier: Seq<char>, key: SigningKeyModel, expires_at: u64) -> Result<
    Seq<char>,
    AuthError,
> {
    let unsigned = unsigned_text(key.key_id, subject_identifier, expires_at);
    match rs256_signature(key.private_der, encode_utf8(unsigned)) {
        Some(signature) => Ok(unsigned + "."@ + base64url_text(signature)),
        None => Err(AuthError::KeyMaterialFatal),
    }
}

/// The key identifier that the header of `token` declares; `Malformed` where the token
/// is not framed as a compact token, or its header is not base64, or holds no string
/// under `kid`.
pub open spec fn declared_key_id(token: Seq<char>) -> Result<Seq<char>, AuthError> {
    match compact_parts(token) {
        None => Err(AuthError::Malformed),
        Some(parts) => match base64url_bytes(parts.header) {
            None => Err(AuthError::Malformed),
            Some(header) => match json_text_member(header, "kid"@) {
                None => Err(AuthError::Malformed),
                Some(key_id) => Ok(key_id),
            },
        },
    }
}

/// Whether the signature segment of a token is accepted under `key`: the key is meant
/// for the pinned algorithm, the segment and both key components are base64, and the
/// decoded signature is an RSA signature of the signing input under the decoded key.
pub open spec fn signature_accepted(parts: CompactParts, key: JwkModel) -> bool {
    &&& key.algorithm == pinned_algorithm()
    &&& base64url_bytes(key.modulus) is Some
    &&& base64url_bytes(key.exponent) is Some
    &&& base64url_bytes(parts.signature) is Some
    &&& rs256_accepts(
        base64url_bytes(key.modulus)->Some_0,
        base64url_bytes(key.exponent)->Some_0,
        encode_utf8(parts.signing_input),
        base64url_bytes(parts.signature)->Some_0,
    )
}

/// The verdict on a token of which these things were read: the algorithm name under
/// `alg` in its header, whether its signature was accepted, and the subject and the
/// expiry in its payload.
///
/// A header without algorithm name is `Malformed`. A name other than the pinned one,
/// or a signature that was not accepted, is `SignatureInvalid`. Then a payload without
/// subject or without expiry is `Malformed`, and an expiry that is not after `now` is
/// `Expired`. What is left are the claims.
pub open spec fn judged(
    declared_algorithm: Option<Seq<char>>,
    accepted: bool,
    subject_identifier: Option<Seq<char>>,
    expires_at: Option<u64>,
    now: u64,
) -> Result<ClaimsModel, AuthError> {
    match declared_algorithm {
        None => Err(AuthError::Malformed),
        Some(name) => if name != pinned_algorithm().spec_name() || !accepted {
            Err(AuthError::SignatureInvalid)
        } else {
            match (subject_identifier, expires_at) {
                (Some(subject), Some(expiry)) => if expiry > now {
                    Ok(ClaimsModel { subject_identifier: subject, expires_at: expiry })
                } else {
                    Err(AuthError::Expired)
                },
                _ => Err(AuthError::Malformed),
            }
        },
    }
}

/// The verdict on `token` under the candidate key `key` at the instant `now`.
///
/// A token that is not framed as a compact token, or whose header or payload segment
/// is not base64, is `Malformed`. Otherwise the verdict is `judged` on what the header
/// and the payload hold and on whether the signature is accepted.
pub open spec fn decoded(token: Seq<char>, key: JwkModel, now: u64) -> Result<
    ClaimsModel,
    AuthError,
> {
    match compact_parts(token) {
        None => Err(AuthError::Malformed),
        Some(parts) => match (base64url_bytes(parts.header), base64url_bytes(parts.payload)) {
            (Some(header), Some(payload)) => judged(
                json_text_member(header, "alg"@),
                signature_accepted(parts, key),
                json_text_member(payload, "sub"@),
                json_number_member(payload, "exp"@),
                now,
            ),
            _ => Err(AuthError::Malformed),
        },
    }
}

/// Whether `token` reads back at `now` as the token that `key` issued with `claims`:
/// the `Authorization` header made for it gives it back unchanged, it declares the
/// identifier of `key`, and it decodes under the public half of `key` to `claims`.
pub open spec fn reads_back(
    token: Seq<char>,
    claims: ClaimsModel,
    key: SigningKeyModel,
    now: u64,
) -> bool {
    &&& bearer_token(bearer_header(token)) == Some(token)
    &&& declared_key_id(token) == Ok::<Seq<char>, AuthError>(key.key_id)
    &&& decoded(token, key.public_jwk(), now) == Ok::<ClaimsModel, AuthError>(claims)
}

/// The token that is issued at `now` for `subject_identifier` under `key`: the token
/// that `key` signs for the subject with the expiry one validity window after `now`,
/// where that token reads back; `KeyMaterialFatal` where the key cannot sign or what
/// it signs does not read back, which makes the key unusable.
pub open spec fn issued(subject_identifier: Seq<char>, key: SigningKeyModel, now: u64) -> Result<
    Seq<char>,
    AuthError,
> {
    let claims = ClaimsModel { subject_identifier, expires_at: expiry_for(now) as u64 };
    match encoded(subject_identifier, key, claims.expires_at) {
        Ok(token) => if reads_back(token, claims, key, now) {
            Ok(token)
        } else {
            Err(AuthError::KeyMaterialFatal)
        },
        Err(_) => Err(AuthError::KeyMaterialFatal),
    }
}

/// A result with the text in it taken as a sequence of characters.
pub open spec fn text_outcome(outcome: Result<String, AuthError>) -> Result<Seq<char>, AuthError> {
    match outcome {
        Ok(text) => Ok(text@),
        Err(reason) => Err(reason),
    }
}

/// A result with the claims in it taken as mathematical values.
pub open spec fn claims_outcome(outcome: Result<Claims, AuthError>) -> Result<
    ClaimsModel,
    AuthError,
> {
    match outcome {
        Ok(claims) => Ok(claims@),
        Err(reason) => Err(reason),
    }
}

/// A text, where there is one, taken as a sequence of characters.
pub open spec fn text_if_any(text: Option<String>) -> Option<Seq<char>> {
    match text {
        Some(t) => Some(t@),
        None => None,
    }
}

/// Issues and verifies tokens under the pinned algorithm. It holds no state: every
/// operation is a function of its arguments.
pub struct TokenCodec;

impl TokenCodec {
    /// The text that a token's signature covers, for the given key identifier, subject
    /// and expiry.
    fn unsigned(key_id: &str, subject_identifier: &str, expires_at: u64) -> (text: String)
        ensures
            text@ == unsigned_text(key_id@, subject_identifier@, expires_at),
    {
        let mut header = String::from_str("{\"alg\":\"RS256\",\"kid\":");
        header.append(json::string_literal(key_id).as_str());
        header.append(",\"typ\":\"JWT\"}");
        let mut payload = String::from_str("{\"sub\":");
        payload.append(json::string_literal(subject_identifier).as_str());
        payload.append(",\"exp\":");
        payload.append(decimal(expires_at).as_str());
        payload.append("}");
        let mut text = base64url::encode(header.as_str().as_bytes());
        text.append(".");
        text.append(base64url::encode(payload.as_str().as_bytes()).as_str());
        text
    }

    /// Signs the token that carries `claims` with `key`, naming the key in the header.
    /// Fails with `KeyMaterialFatal` only where the key cannot sign.
    fn sign_claims(claims: &Claims, key: &SigningKey) -> (token: Result<String, AuthError>)
        ensures
            text_outcome(token) == encoded(claims@.subject_identifier, key@, claims@.expires_at),
    {
        let mut text = TokenCodec::unsigned(
            key.key_id(),
            claims.subject_identifier.as_str(),
            claims.expires_at,
        );
        match rs256::sign(key.private_der(), text.as_str().as_bytes()) {
            Some(signature) => {
                text.append(".");
                text.append(base64url::encode(signature.as_slice()).as_str());
                Ok(text)
            },
            None => Err(AuthError::KeyMaterialFatal),
        }
    }

    /// Whether `token` reads back at `now` as the token that `key` issued with
    /// `claims`: see `reads_back`.
    pub fn reads_back(token: &str, claims: &Claims, key: &SigningKey, now: u64) -> (same: bool)
        ensures
            same == reads_back(token@, claims@, key@, now),
    {
        let header = bearer_header_value(token);
        let carried = match extract_bearer(header.as_str()) {
            Some(found) => same_text(found, token),
            None => false,
        };
        if !carried {
            return false;
        }
        let names_key = match TokenCodec::peek_key_id(token) {
            Ok(key_id) => same_text(key_id.as_str(), key.key_id()),
            Err(_) => false,
        };
        if !names_key {
            return false;
        }
        let jwk = key.public_jwk();
        match TokenCodec::decode(token, &jwk, now) {
            Ok(read) => same_text(read.subject_identifier.as_str(), claims.subject_identifier.as_str())
                && read.expires_at == claims.expires_at,
            Err(_) => false,
        }
    }

    /// Issues a token at the instant `now` for `subject_identifier`: it expires one
    /// validity window later, is signed with `key` and names it in the header.
    ///
    /// Before the token is handed out it is read back: carried in an `Authorization`
    /// header, asked for its key identifier, and decoded under the public half of
    /// `key`. So every token that comes back decodes, until it expires, to the subject
    /// and the expiry it was issued with. The call fails with `KeyMaterialFatal` where
    /// the key cannot sign or the token does not read back, and only then.
    pub fn encode(subject_identifier: &str, key: &SigningKey, now: u64) -> (token: Result<
        String,
        AuthError,
    >)
        requires
            expiry_for(now) <= u64::MAX,
        ensures
            text_outcome(token) == issued(subject_identifier@, key@, now),
            token matches Ok(text) ==> {
                &&& Ok::<Seq<char>, AuthError>(text@) == encoded(
                    subject_identifier@,
                    key@,
                    expiry_for(now) as u64,
                )
                &&& bearer_token(bearer_header(text@)) == Some(text@)
                &&& declared_key_id(text@) == Ok::<Seq<char>, AuthError>(key@.key_id)
                &&& forall|later: u64|
                    later < expiry_for(now) ==> #[trigger] decoded(
                        text@,
                        key@.public_jwk(),
                        later,
                    ) == Ok::<ClaimsModel, AuthError>(
                        ClaimsModel {
                            subject_identifier: subject_identifier@,
                            expires_at: expiry_for(now) as u64,
                        },
                    )
            },
    {
        let claims = Claims::issued(String::from_str(subject_identifier), now);
        let text = match TokenCodec::sign_claims(&claims, key) {
            Ok(text) => text,
            Err(_) => { return Err(AuthError::KeyMaterialFatal); },
        };
        if !TokenCodec::reads_back(text.as_str(), &claims, key, now) {
            return Err(AuthError::KeyMaterialFatal);
        }
        proof {
            assert forall|later: u64| later < expiry_for(now) implies #[trigger] decoded(
                text@,
                key@.public_jwk(),
                later,
            ) == Ok::<ClaimsModel, AuthError>(claims@) by {
                lemma_issued_round_trip(subject_identifier@, key@, now, later);
            }
        }
        Ok(text)
    }

    /// Reads the key identifier that a token declares, without verifying anything.
    pub fn peek_key_id(token: &str) -> (key_id: Result<String, AuthError>)
        ensures
            text_outcome(key_id) == declared_key_id(token@),
    {
        let segments = match split_compact(token) {
            Some(segments) => segments,
            None => { return Err(AuthError::Malformed); },
        };
        let header = match base64url::decode(segments.header) {
            Some(header) => header,
            None => { return Err(AuthError::Malformed); },
        };
        match json::text_member(header.as_slice(), "kid") {
            Some(key_id) => Ok(key_id),
            None => Err(AuthError::Malformed),
        }
    }

    /// Whether the signature segment is accepted under `key`.
    pub fn accepts(segments: &CompactSegments<'_>, key: &Jwk) -> (accepted: bool)
        ensures
            accepted == signature_accepted(segments@, key@),
    {
        match key.algorithm {
            Algorithm::RS256 => {},
            _ => { return false; },
        }
        let modulus = match base64url::decode(key.modulus.as_str()) {
            Some(modulus) => modulus,
            None => { return false; },
        };
        let exponent = match base64url::decode(key.exponent.as_str()) {
            Some(exponent) => exponent,
            None => { return false; },
        };
        let signature = match base64url::decode(segments.signature) {
            Some(signature) => signature,
            None => { return false; },
        };
        rs256::verify(
            modulus.as_slice(),
            exponent.as_slice(),
            segments.signing_input.as_bytes(),
            signature.as_slice(),
        )
    }

    /// Gives the verdict on a token from what was read in it: see `judged`.
    pub fn judge(
        declared_algorithm: Option<String>,
        accepted: bool,
        subject_identifier: Option<String>,
        expires_at: Option<u64>,
        now: u64,
    ) -> (verdict: Result<Claims, AuthError>)
        ensures
            claims_outcome(verdict) == judged(
                text_if_any(declared_algorithm),
                accepted,
                text_if_any(subject_identifier),
                expires_at,
                now,
            ),
    {
        let name = match declared_algorithm {
            Some(name) => name,
            None => { return Err(AuthError::Malformed); },
        };
        if !same_text(name.as_str(), Algorithm::RS256.name()) || !accepted {
            return Err(AuthError::SignatureInvalid);
        }
        match (subject_identifier, expires_at) {
            (Some(subject), Some(expiry)) => {
                if expiry > now {
                    Ok(Claims { subject_identifier: subject, expires_at: expiry })
                } else {
                    Err(AuthError::Expired)
                }
            },
            _ => Err(AuthError::Malformed),
        }
    }

    /// Verifies `token` against the candidate key `key` at the instant `now` and
    /// returns its claims.
    ///
    /// The signature is only checked where the header declares the pinned algorithm.
    pub fn decode(token: &str, key: &Jwk, now: u64) -> (verdict: Result<Claims, AuthError>)
        ensures
            claims_outcome(verdict) == decoded(token@, key@, now),
    {
        let segments = match split_compact(token) {
            Some(segments) => segments,
            None => { return Err(AuthError::Malformed); },
        };
        let header = match base64url::decode(segments.header) {
            Some(header) => header,
            None => { return Err(AuthError::Malformed); },
        };
        let payload = match base64url::decode(segments.payload) {
            Some(payload) => payload,
            None => { return Err(AuthError::Malformed); },
        };
        let declared_algorithm = json::text_member(header.as_slice(), "alg");
        let pinned = match &declared_algorithm {
            Some(name) => same_text(name.as_str(), Algorithm::RS256.name()),
            None => false,
        };
        let accepted = pinned && TokenCodec::accepts(&segments, key);
        let subject_identifier = json::text_member(payload.as_slice(), "sub");
        let expires_at = json::number_member(payload.as_slice(), "exp");
        TokenCodec::judge(declared_algorithm, accepted, subject_identifier, expires_at, now)
    }
}

/// Whether `text` holds no dot.
pub open spec fn dot_free(text: Seq<char>) -> bool {
    forall|i: int| 0 <= i < text.len() ==> #[trigger] text[i] != '.'
}

/// In a text without `wanted` from `from` on, `position_of` finds nothing.
proof fn lemma_position_of_absent(text: Seq<char>, wanted: char, from: int)
    requires
        0 <= from <= text.len(),
        forall|k: int| from <= k < text.len() ==> #[trigger] text[k] != wanted,
    ensures
        position_of(text, wanted, from) == text.len(),
    decreases text.len() - from,
{
    if from < text.len() {
        lemma_position_of_absent(text, wanted, from + 1);
    }
}

/// Where `wanted` stands at `at` and nowhere between `from` and `at`, `position_of`
/// finds it at `at`.
proof fn lemma_position_of_first(text: Seq<char>, wanted: char, from: int, at: int)
    requires
        0 <= from <= at < text.len(),
        text[at] == wanted,
        forall|k: int| from <= k < at ==> #[trigger] text[k] != wanted,
    ensures
        position_of(text, wanted, from) == at,
    decreases at - from,
{
    if from < at {
        lemma_position_of_first(text, wanted, from + 1, at);
    }
}

/// Framing round trip: three segments of ASCII text without dots, joined by dots,
/// split into exactly those segments again, and the signing input is the first two
/// with the dot between them.
pub proof fn lemma_compact_round_trip(header: Seq<char>, payload: Seq<char>, signature: Seq<char>)
    requires
        is_ascii_chars(header) && dot_free(header),
        is_ascii_chars(payload) && dot_free(payload),
        is_ascii_chars(signature) && dot_free(signature),
    ensures
        compact_parts(compact_text(header, payload, signature)) == Some(
            CompactParts {
                header,
                payload,
                signature,
                signing_input: header + seq!['.'] + payload,
            },
        ),
{
    let token = compact_text(header, payload, signature);
    let first = header.len() as int;
    let second = first + 1 + payload.len();
    assert(token.len() == second + 1 + signature.len());
    assert forall|k: int| 0 <= k < token.len() implies '\0' <= #[trigger] token[k] <= '\u{7f}' by {
        if k < first {
            assert(token[k] == header[k]);
        } else if k == first {
        } else if k < second {
            assert(token[k] == payload[k - first - 1]);
        } else if k == second {
        } else {
            assert(token[k] == signature[k - second - 1]);
        }
    }
    assert forall|k: int| 0 <= k < first implies #[trigger] token[k] != '.' by {
        assert(token[k] == header[k]);
    }
    assert forall|k: int| first + 1 <= k < second implies #[trigger] token[k] != '.' by {
        assert(token[k] == payload[k - first - 1]);
    }
    assert forall|k: int| second + 1 <= k < token.len() implies #[trigger] token[k] != '.' by {
        assert(token[k] == signature[k - second - 1]);
    }
    lemma_position_of_first(token, '.', 0, first);
    lemma_position_of_first(token, '.', first + 1, second);
    lemma_position_of_absent(token, '.', second + 1);
    assert(token.subrange(0, first) =~= header);
    assert(token.subrange(first + 1, second) =~= payload);
    assert(token.subrange(second + 1, token.len() as int) =~= signature);
    assert(token.subrange(0, second) =~= header + seq!['.'] + payload);
}

/// Expiry: a token whose payload gives an expiry that is not after `now` is refused
/// as expired, even where its algorithm is the pinned one and its signature is
/// accepted.
pub proof fn lemma_expired_is_refused(
    subject_identifier: Seq<char>,
    expires_at: u64,
    now: u64,
)
    requires
        expires_at <= now,
    ensures
        judged(
            Some(pinned_algorithm().spec_name()),
            true,
            Some(subject_identifier),
            Some(expires_at),
            now,
        ) == Err::<ClaimsModel, AuthError>(AuthError::Expired),
{
}

/// Expiry, on the token itself: where everything about `token` is in order under
/// `key` but its expiry is not after `now`, the verdict is `Expired`.
pub proof fn lemma_expired_token_is_refused(token: Seq<char>, key: JwkModel, now: u64)
    requires
        compact_parts(token) is Some,
        base64url_bytes(compact_parts(token)->Some_0.header) is Some,
        base64url_bytes(compact_parts(token)->Some_0.payload) is Some,
        json_text_member(
            base64url_bytes(compact_parts(token)->Some_0.header)->Some_0,
            "alg"@,
        ) == Some(pinned_algorithm().spec_name()),
        signature_accepted(compact_parts(token)->Some_0, key),
        json_text_member(
            base64url_bytes(compact_parts(token)->Some_0.payload)->Some_0,
            "sub"@,
        ) is Some,
        json_number_member(
            base64url_bytes(compact_parts(token)->Some_0.payload)->Some_0,
            "exp"@,
        ) is Some,
        json_number_member(
            base64url_bytes(compact_parts(token)->Some_0.payload)->Some_0,
            "exp"@,
        )->Some_0 <= now,
    ensures
        decoded(token, key, now) == Err::<ClaimsModel, AuthError>(AuthError::Expired),
{
}

/// Claims that come out of a verification have not expired, were signed under the
/// pinned algorithm, and carry a signature that the candidate key accepts.
pub proof fn lemma_accepted_claims(token: Seq<char>, key: JwkModel, now: u64)
    requires
        decoded(token, key, now) is Ok,
    ensures
        decoded(token, key, now)->Ok_0.expires_at > now,
        compact_parts(token) is Some,
        signature_accepted(compact_parts(token)->Some_0, key),
        key.algorithm == pinned_algorithm(),
        base64url_bytes(compact_parts(token)->Some_0.header) is Some,
        json_text_member(
            base64url_bytes(compact_parts(token)->Some_0.header)->Some_0,
            "alg"@,
        ) == Some(pinned_algorithm().spec_name()),
{
}

/// Tampering: a token that is framed well and declares an algorithm, but whose
/// signature segment is not accepted under the candidate key, is refused with
/// `SignatureInvalid`, whatever its payload says.
pub proof fn lemma_unaccepted_signature_is_refused(token: Seq<char>, key: JwkModel, now: u64)
    requires
        compact_parts(token) is Some,
        base64url_bytes(compact_parts(token)->Some_0.header) is Some,
        base64url_bytes(compact_parts(token)->Some_0.payload) is Some,
        json_text_member(
            base64url_bytes(compact_parts(token)->Some_0.header)->Some_0,
            "alg"@,
        ) is Some,
        !signature_accepted(compact_parts(token)->Some_0, key),
    ensures
        decoded(token, key, now) == Err::<ClaimsModel, AuthError>(AuthError::SignatureInvalid),
{
}

/// Algorithm pinning: a verdict on a token that declares any algorithm but the pinned
/// one is a refusal, whether or not its signature was accepted: `SignatureInvalid`
/// where it declares another name, `Malformed` where it declares none.
pub proof fn lemma_other_algorithm_is_refused(
    declared_algorithm: Option<Seq<char>>,
    accepted: bool,
    subject_identifier: Option<Seq<char>>,
    expires_at: Option<u64>,
    now: u64,
)
    requires
        declared_algorithm != Some(pinned_algorithm().spec_name()),
    ensures
        judged(declared_algorithm, accepted, subject_identifier, expires_at, now) == Err::<
            ClaimsModel,
            AuthError,
        >(
            if declared_algorithm is Some {
                AuthError::SignatureInvalid
            } else {
                AuthError::Malformed
            },
        ),
{
}

/// Algorithm pinning, on the key: under a key that is meant for another algorithm no
/// signature is accepted.
pub proof fn lemma_other_key_algorithm_is_refused(parts: CompactParts, key: JwkModel)
    requires
        key.algorithm != pinned_algorithm(),
    ensures
        !signature_accepted(parts, key),
{
}

/// A token issued at `now` expires strictly after `now`.
pub proof fn lemma_expiry_is_in_the_future(now: u64)
    ensures
        expiry_for(now) > now,
        expiry_for(now) == now + 52 * 7 * 24 * 60 * 60,
{
}

/// A verdict that lets a token through at one instant lets it through, with the same
/// claims, at every instant before its expiry.
pub proof fn lemma_decoded_until_expiry(token: Seq<char>, key: JwkModel, now: u64, later: u64)
    requires
        decoded(token, key, now) is Ok,
        later < decoded(token, key, now)->Ok_0.expires_at,
    ensures
        decoded(token, key, later) == decoded(token, key, now),
{
}

/// Round trip: every token that is issued for a subject at `now` decodes under the
/// public half of the issuing key, at any instant before its expiry, to claims with
/// that subject and with the expiry one validity window after `now`; it declares the
/// identifier of the issuing key; and it is read back unchanged from the
/// `Authorization` header made for it.
pub proof fn lemma_issued_round_trip(
    subject_identifier: Seq<char>,
    key: SigningKeyModel,
    now: u64,
    later: u64,
)
    requires
        expiry_for(now) <= u64::MAX,
        issued(subject_identifier, key, now) is Ok,
        later < expiry_for(now),
    ensures
        decoded(issued(subject_identifier, key, now)->Ok_0, key.public_jwk(), later) == Ok::<
            ClaimsModel,
            AuthError,
        >(ClaimsModel { subject_identifier, expires_at: expiry_for(now) as u64 }),
        declared_key_id(issued(subject_identifier, key, now)->Ok_0) == Ok::<Seq<char>, AuthError>(
            key.key_id,
        ),
        bearer_token(bearer_header(issued(subject_identifier, key, now)->Ok_0)) == Some(
            issued(subject_identifier, key, now)->Ok_0,
        ),
        issued(subject_identifier, key, now) == encoded(
            subject_identifier,
            key,
            expiry_for(now) as u64,
        ),
{
    let token = issued(subject_identifier, key, now)->Ok_0;
    lemma_decoded_until_expiry(token, key.public_jwk(), now, later);
}

} // verus!
