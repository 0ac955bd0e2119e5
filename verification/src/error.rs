//! The reasons for which authentication can fail.

use vstd::prelude::*;

verus! {

/// Why a credential was refused, or why the service cannot authenticate at all.
///
/// The first five reasons concern a single request. `KeyMaterialFatal` concerns the
/// service's own key and is only produced while the key is set up or used for signing.
#[derive(Clone, Copy, Debug, PartialEq, Eq, Structural)]
pub enum AuthError {
    /// No usable bearer credential accompanied the request.
    MissingCredential,
    /// The token names a key that the registry does not hold.
    UnknownKey,
    /// The token is not a well-formed compact token.
    Malformed,
    /// The token's signature does not verify under the pinned algorithm.
    SignatureInvalid,
    /// The token's expiry instant is not after the current instant.
    Expired,
    /// The service's own signing key is unusable.
    KeyMaterialFatal,
}

impl AuthError {
    /// Whether the reason is scoped to one request, as opposed to the whole service.
    pub open spec fn spec_is_request_scoped(self) -> bool {
        self != AuthError::KeyMaterialFatal
    }

    /// Whether the reason is scoped to one request, as opposed to the whole service.
    #[verifier::when_used_as_spec(spec_is_request_scoped)]
    pub fn is_request_scoped(self) -> (scoped: bool)
        ensures
            scoped == self.spec_is_request_scoped(),
    {
        match self {
            AuthError::KeyMaterialFatal => false,
            _ => true,
        }
    }
}

} // verus!
