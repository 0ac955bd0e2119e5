//! RSA signatures with PKCS#1 v1.5 padding over SHA-256, and the keys they need.

use rsa::pkcs8::DecodePrivateKey;
use rsa::pkcs8::EncodePrivateKey;
use rsa::signature::SignatureEncoding;
use rsa::signature::Signer;
use rsa::signature::Verifier;
use rsa::traits::PublicKeyParts;
use vstd::prelude::*;

verus! {

/// Whether `signature` is accepted as the signature of `message` under the public key
/// with big-endian modulus `modulus` and big-endian exponent `exponent`.
pub uninterp spec fn rs256_accepts(
    modulus: Seq<u8>,
    exponent: Seq<u8>,
    message: Seq<u8>,
    signature: Seq<u8>,
) -> bool;

/// The signature of `message` under the private key that `private_der` holds in PKCS#8
/// DER form, computed without the key's precomputed values, if `private_der` is such a
/// key and signing succeeds.
pub uninterp spec fn rs256_signature(private_der: Seq<u8>, message: Seq<u8>) -> Option<Seq<u8>>;

/// The big-endian modulus and exponent of the public half of the private key that
/// `private_der` holds in PKCS#8 DER form, if `private_der` is such a key.
pub uninterp spec fn rsa_public_components(private_der: Seq<u8>) -> Option<(Seq<u8>, Seq<u8>)>;

/// Verifies a signature with the `rsa` crate.
///
/// Trusted: the result is `true` exactly when `rsa::RsaPublicKey::new` accepts the two
/// components and `rsa::pkcs1v15::VerifyingKey::<Sha256>::verify` then returns `Ok`
/// for the message and the signature; this library calls that `rs256_accepts`.
#[verifier::external_body]
pub(crate) fn verify(modulus: &[u8], exponent: &[u8], message: &[u8], signature: &[u8]) -> (accepted: bool)
    ensures
        accepted == rs256_accepts(modulus@, exponent@, message@, signature@),
{
    let n = rsa::BigUint::from_bytes_be(modulus);
    let e = rsa::BigUint::from_bytes_be(exponent);
    match (rsa::RsaPublicKey::new(n, e), rsa::pkcs1v15::Signature::try_from(signature)) {
        (Ok(key), Ok(sig)) => {
            rsa::pkcs1v15::VerifyingKey::<rsa::sha2::Sha256>::new(key).verify(message, &sig).is_ok()
        },
        _ => false,
    }
}

/// Signs a message with the `rsa` crate.
///
/// Trusted: the result is the bytes of what `rsa::pkcs1v15::SigningKey::<Sha256>::try_sign`
/// returns for the message under the key that `rsa::RsaPrivateKey::from_pkcs8_der` reads
/// from `private_der`, once `clear_precomputed` has been called on that key, and `None`
/// where reading or signing fails; this library calls that `rs256_signature`.
///
/// The values that the key precomputes from its two primes are cleared because the
/// signing that uses them only ends in reasonable time where the primes are of like
/// size, which reading a key does not ensure. Without them the signature is one
/// modular exponentiation, which ends on every key, and no random number enters it.
#[verifier::external_body]
pub(crate) fn sign(private_der: &[u8], message: &[u8]) -> (signature: Option<Vec<u8>>)
    ensures
        match signature {
            Some(s) => rs256_signature(private_der@, message@) == Some(s@),
            None => rs256_signature(private_der@, message@).is_none(),
        },
{
    let mut key = rsa::RsaPrivateKey::from_pkcs8_der(private_der).ok()?;
    key.clear_precomputed();
    let signed = rsa::pkcs1v15::SigningKey::<rsa::sha2::Sha256>::new(key).try_sign(message).ok()?;
    Some(signed.to_vec())
}

/// Reads the public half of a private key with the `rsa` crate.
///
/// Trusted: the result is the big-endian bytes (`BigUint::to_bytes_be`) of the modulus
/// and of the public exponent of the key that `rsa::RsaPrivateKey::from_pkcs8_der`
/// reads from `private_der`, and `None` where `private_der` is refused; this library
/// calls that `rsa_public_components`.
#[verifier::external_body]
pub(crate) fn public_components(private_der: &[u8]) -> (components: Option<(Vec<u8>, Vec<u8>)>)
    ensures
        match components {
            Some((n, e)) => rsa_public_components(private_der@) == Some((n@, e@)),
            None => rsa_public_components(private_der@).is_none(),
        },
{
    let key = rsa::RsaPrivateKey::from_pkcs8_der(private_der).ok()?;
    Some((key.n().to_bytes_be(), key.e().to_bytes_be()))
}

/// Generates a fresh private key of `bits` bits with the `rsa` crate and the operating
/// system's random number generator, in PKCS#8 DER form.
///
/// Trusted, and nothing is claimed of the result: it comes from
/// `rsa::RsaPrivateKey::new` and `to_pkcs8_der`, is `None` where either fails, and
/// differs from call to call. Sizes under 512 bits are left out because the prime
/// search is not defined for the smallest of them, sizes over 4096 bits because the
/// search would not end in reasonable time.
#[verifier::external_body]
pub(crate) fn generate(bits: usize) -> (private_der: Option<Vec<u8>>)
    requires
        512 <= bits <= 4096,
{
    let key = rsa::RsaPrivateKey::new(&mut rsa::rand_core::OsRng, bits).ok()?;
    Some(key.to_pkcs8_der().ok()?.as_bytes().to_vec())
}

} // verus!
