//! The service's own RSA key pair.

use crate::error::AuthError;
use crate::jwk::rsa_signature_jwk;
use crate::jwk::Jwk;
use crate::rs256;
use crate::rs256::rsa_public_components;
use vstd::prelude::*;
use vstd::string::*;

verus! {

/// The smallest modulus, in bits, of a key that is taken into use.
pub const MIN_KEY_BITS: usize = 512;

/// The largest modulus, in bits, of a key that is taken into use.
pub const MAX_KEY_BITS: usize = 4096;

/// The modulus size, in bits, of a key generated where none is configured.
pub const DEFAULT_KEY_BITS: usize = 2048;

/// An RSA key pair together with the identifier under which its public half is
/// published. The private half is held in PKCS#8 DER form and is never handed out.
pub struct SigningKey {
    key_id: String,
    private_der: Vec<u8>,
    modulus: Vec<u8>,
    exponent: Vec<u8>,
}

/// What a `SigningKey` holds, as mathematical values.
pub ghost struct SigningKeyModel {
    pub key_id: Seq<char>,
    pub private_der: Seq<u8>,
    pub modulus: Seq<u8>,
    pub exponent: Seq<u8>,
}

/// Whether `private_der` is a private key in PKCS#8 DER form that can be taken into
/// use: it is read as an RSA key, and its modulus has at least `MIN_KEY_BITS` bits'
/// worth of bytes, without which no signature under the pinned algorithm fits, and at
/// most `MAX_KEY_BITS` bits' worth, beyond which no signature is verified.
pub open spec fn usable_key(private_der: Seq<u8>) -> bool {
    &&& rsa_public_components(private_der) is Some
    &&& MIN_KEY_BITS <= rsa_public_components(private_der)->Some_0.0.len() * 8 <= MAX_KEY_BITS
}

impl SigningKeyModel {
    /// Whether the private key is usable and the public components are its own.
    pub open spec fn consistent(self) -> bool {
        &&& usable_key(self.private_der)
        &&& rsa_public_components(self.private_der) == Some((self.modulus, self.exponent))
    }

    /// The published form of the public half.
    pub open spec fn public_jwk(self) -> crate::jwk::JwkModel {
        rsa_signature_jwk(self.key_id, self.modulus, self.exponent)
    }
}

impl View for SigningKey {
    type V = SigningKeyModel;

    closed spec fn view(&self) -> SigningKeyModel {
        SigningKeyModel {
            key_id: self.key_id@,
            private_der: self.private_der@,
            modulus: self.modulus@,
            exponent: self.exponent@,
        }
    }
}

impl SigningKey {
    #[verifier::type_invariant]
    spec fn well_formed(self) -> bool {
        self@.consistent()
    }

    /// Takes a private key in PKCS#8 DER form into use under the identifier `key_id`.
    /// Bytes that are no usable key are refused with `KeyMaterialFatal`.
    pub fn load(key_id: &str, private_der: Vec<u8>) -> (loaded: Result<SigningKey, AuthError>)
        ensures
            match loaded {
                Ok(key) => key@.key_id == key_id@ && key@.private_der == private_der@
                    && key@.consistent(),
                Err(reason) => reason == AuthError::KeyMaterialFatal,
            },
            loaded is Ok <==> usable_key(private_der@),
    {
        match rs256::public_components(private_der.as_slice()) {
            Some((modulus, exponent)) => {
                if modulus.len() < MIN_KEY_BITS / 8 || modulus.len() > MAX_KEY_BITS / 8 {
                    return Err(AuthError::KeyMaterialFatal);
                }
                Ok(SigningKey { key_id: String::from_str(key_id), private_der, modulus, exponent })
            },
            None => Err(AuthError::KeyMaterialFatal),
        }
    }

    /// The identifier under which the public half is published.
    pub fn key_id(&self) -> (key_id: &str)
        ensures
            key_id@ == self@.key_id,
    {
        self.key_id.as_str()
    }

    /// The private key in PKCS#8 DER form, for signing inside this crate only.
    pub(crate) fn private_der(&self) -> (private_der: &[u8])
        ensures
            private_der@ == self@.private_der,
    {
        self.private_der.as_slice()
    }

    /// The public half in its published form.
    pub fn public_jwk(&self) -> (jwk: Jwk)
        ensures
            jwk@ == self@.public_jwk(),
            self@.consistent(),
    {
        proof {
            use_type_invariant(self);
        }
        Jwk::rsa_signature(self.key_id.as_str(), self.modulus.as_slice(), self.exponent.as_slice())
    }
}

/// Holder of the service's key pair, set up once when the service starts.
pub struct KeyMaterial {
    signing_key: SigningKey,
}

impl View for KeyMaterial {
    type V = SigningKeyModel;

    closed spec fn view(&self) -> SigningKeyModel {
        self.signing_key@
    }
}

impl KeyMaterial {
    /// Sets the key material up from a configured private key in PKCS#8 DER form.
    /// A key that cannot be used is refused with `KeyMaterialFatal`.
    pub fn load(key_id: &str, private_der: Vec<u8>) -> (loaded: Result<KeyMaterial, AuthError>)
        ensures
            match loaded {
                Ok(material) => material@.key_id == key_id@ && material@.private_der
                    == private_der@ && material@.consistent(),
                Err(reason) => reason == AuthError::KeyMaterialFatal,
            },
            loaded is Ok <==> usable_key(private_der@),
    {
        match SigningKey::load(key_id, private_der) {
            Ok(signing_key) => Ok(KeyMaterial { signing_key }),
            Err(reason) => Err(reason),
        }
    }

    /// Sets the key material up with a freshly generated key of `bits` bits.
    ///
    /// A size outside `MIN_KEY_BITS ..= MAX_KEY_BITS` is refused with
    /// `KeyMaterialFatal` without generating anything. Within that range the outcome
    /// depends on the random number generator: whatever it yields is loaded like a
    /// configured key, so it is either usable key material under `key_id` or
    /// `KeyMaterialFatal`.
    pub fn generate(key_id: &str, bits: usize) -> (generated: Result<KeyMaterial, AuthError>)
        ensures
            match generated {
                Ok(material) => material@.key_id == key_id@ && material@.consistent()
                    && MIN_KEY_BITS <= bits <= MAX_KEY_BITS,
                Err(reason) => reason == AuthError::KeyMaterialFatal,
            },
    {
        if bits < MIN_KEY_BITS || bits > MAX_KEY_BITS {
            return Err(AuthError::KeyMaterialFatal);
        }
        match rs256::generate(bits) {
            Some(private_der) => KeyMaterial::load(key_id, private_der),
            None => Err(AuthError::KeyMaterialFatal),
        }
    }

    /// Sets the key material up from the configured private key where there is one,
    /// and with a freshly generated key of `DEFAULT_KEY_BITS` bits where there is none.
    ///
    /// With a configured key the outcome is that of `load`. Without one it is that of
    /// `generate`, which depends on the random number generator.
    pub fn generate_or_load(key_id: &str, configured: Option<Vec<u8>>) -> (outcome: Result<
        KeyMaterial,
        AuthError,
    >)
        ensures
            match outcome {
                Ok(material) => material@.key_id == key_id@ && material@.consistent() && (
                configured matches Some(private_der) ==> material@.private_der == private_der@),
                Err(reason) => reason == AuthError::KeyMaterialFatal,
            },
            configured matches Some(private_der) ==> (outcome is Ok <==> usable_key(private_der@)),
    {
        match configured {
            Some(private_der) => KeyMaterial::load(key_id, private_der),
            None => KeyMaterial::generate(key_id, DEFAULT_KEY_BITS),
        }
    }

    /// The key pair, for issuing tokens.
    pub fn signing_key(&self) -> (key: &SigningKey)
        ensures
            key@ == self@,
    {
        &self.signing_key
    }

    /// The public half of the key pair in its published form.
    pub fn public_jwk(&self) -> (jwk: Jwk)
        ensures
            jwk@ == self@.public_jwk(),
            self@.consistent(),
    {
        self.signing_key.public_jwk()
    }
}

} // verus!
