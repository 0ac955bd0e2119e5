//! Accounts as far as authentication is concerned: credentials, the account store
//! and the decision to issue a token at login.

use crate::bearer::bearer_header;
use crate::bearer::bearer_header_value;
use crate::bearer::bearer_token;
use crate::error::AuthError;
use crate::key_material::SigningKey;
use crate::key_material::SigningKeyModel;
use crate::middleware::AuthenticatedIdentity;
use crate::text::same_text;
use crate::token::decoded;
use crate::token::expiry_for;
use crate::token::issued;
use crate::token::ClaimsModel;
use crate::token::TokenCodec;
use vstd::prelude::*;
use vstd::string::*;

verus! {

/// The credentials of an account: what a client sends to log in, and what the service
/// hands out for a new account.
#[derive(Debug)]
pub struct AccountAuthView {
    /// The card number, which is the subject that tokens are issued for.
    pub card_number: String,
    /// The secret that goes with the card number.
    pub pin: String,
}

/// What an `AccountAuthView` holds, as mathematical values.
pub ghost struct CredentialsModel {
    pub card_number: Seq<char>,
    pub pin: Seq<char>,
}

impl View for AccountAuthView {
    type V = CredentialsModel;

    open spec fn view(&self) -> CredentialsModel {
        CredentialsModel { card_number: self.card_number@, pin: self.pin@ }
    }
}

impl AccountAuthView {
    /// The credentials made of a card number and a pin.
    pub fn new(card_number: String, pin: String) -> (credentials: AccountAuthView)
        ensures
            credentials@ == (CredentialsModel { card_number: card_number@, pin: pin@ }),
    {
        AccountAuthView { card_number, pin }
    }

    /// Whether the account is the one that `identity` was verified for.
    pub fn belongs_to(&self, identity: &AuthenticatedIdentity) -> (owned: bool)
        ensures
            owned == (self@.card_number == identity@.subject_identifier),
    {
        same_text(self.card_number.as_str(), identity.subject_identifier.as_str())
    }
}

/// The pin of every account of the demonstration store.
pub open spec fn demo_pin() -> Seq<char> {
    "1111"@
}

/// The card number of every account that the demonstration store opens.
pub open spec fn demo_card_number() -> Seq<char> {
    "4000001111111111"@
}

/// An account store for demonstration: it keeps nothing, knows every card number and
/// answers with the same pin for all of them.
#[derive(Clone, Copy, Debug)]
pub struct AccountRepoImpl;

impl AccountRepoImpl {
    /// The credentials of the account with card number `card_num`.
    pub fn find(&self, card_num: String) -> (credentials: AccountAuthView)
        ensures
            credentials@ == (CredentialsModel { card_number: card_num@, pin: demo_pin() }),
    {
        AccountAuthView::new(card_num, String::from_str("1111"))
    }

    /// The credentials of a newly opened account.
    pub fn create(&self) -> (credentials: AccountAuthView)
        ensures
            credentials@ == (CredentialsModel { card_number: demo_card_number(), pin: demo_pin() }),
    {
        AccountAuthView::new(String::from_str("4000001111111111"), String::from_str("1111"))
    }
}

/// How an attempt to log in ends.
#[derive(Debug)]
pub enum LoginOutcome {
    /// The pin matched: `authorization` is the value of the `Authorization` header of
    /// the response, the word `Bearer`, a space and the token.
    Granted { authorization: String },
    /// The pin did not match.
    Denied,
    /// The pin matched but the service's key cannot sign.
    KeyFailure,
}

/// What a `LoginOutcome` holds, as mathematical values.
pub ghost enum LoginModel {
    Granted { authorization: Seq<char> },
    Denied,
    KeyFailure,
}

impl View for LoginOutcome {
    type V = LoginModel;

    open spec fn view(&self) -> LoginModel {
        match self {
            LoginOutcome::Granted { authorization } => LoginModel::Granted {
                authorization: authorization@,
            },
            LoginOutcome::Denied => LoginModel::Denied,
            LoginOutcome::KeyFailure => LoginModel::KeyFailure,
        }
    }
}

/// Stored credentials, where some were found, as mathematical values.
pub open spec fn found_if_any(stored: Option<&AccountAuthView>) -> Option<CredentialsModel> {
    match stored {
        Some(found) => Some(found@),
        None => None,
    }
}

/// How a login with the credentials `request` ends, given what the account store
/// found for the requested card number: denied where nothing was found or the pins
/// differ, else granted with the token that is issued at `now` for the requested card
/// number under `key`, or a key failure where none can be issued.
pub open spec fn login_outcome(
    stored: Option<CredentialsModel>,
    request: CredentialsModel,
    key: SigningKeyModel,
    now: u64,
) -> LoginModel {
    if stored is None || stored->Some_0.pin != request.pin {
        LoginModel::Denied
    } else {
        match issued(request.card_number, key, now) {
            Ok(token) => LoginModel::Granted { authorization: bearer_header(token) },
            Err(_) => LoginModel::KeyFailure,
        }
    }
}

/// Decides on a login at the instant `now`. `stored` is what the account store found
/// for the requested card number, and nothing where the lookup failed.
///
/// A granted login carries the `Authorization` header value of a token that was read
/// back before it was handed out: the value gives the token, and the token decodes
/// under the public half of `key`, until it expires, to the requested card number and
/// to an expiry one validity window after `now`.
pub fn login(
    stored: Option<&AccountAuthView>,
    request: &AccountAuthView,
    key: &SigningKey,
    now: u64,
) -> (outcome: LoginOutcome)
    requires
        expiry_for(now) <= u64::MAX,
    ensures
        outcome@ == login_outcome(found_if_any(stored), request@, key@, now),
        outcome matches LoginOutcome::Granted { authorization } ==> {
            &&& bearer_token(authorization@) is Some
            &&& authorization@ == bearer_header(bearer_token(authorization@)->Some_0)
            &&& forall|later: u64|
                later < expiry_for(now) ==> #[trigger] decoded(
                    bearer_token(authorization@)->Some_0,
                    key@.public_jwk(),
                    later,
                ) == Ok::<ClaimsModel, AuthError>(
                    ClaimsModel {
                        subject_identifier: request@.card_number,
                        expires_at: expiry_for(now) as u64,
                    },
                )
        },
{
    let found = match stored {
        Some(found) => found,
        None => { return LoginOutcome::Denied; },
    };
    if !same_text(found.pin.as_str(), request.pin.as_str()) {
        return LoginOutcome::Denied;
    }
    match TokenCodec::encode(request.card_number.as_str(), key, now) {
        Ok(token) => LoginOutcome::Granted { authorization: bearer_header_value(token.as_str()) },
        Err(_) => LoginOutcome::KeyFailure,
    }
}

} // verus!
