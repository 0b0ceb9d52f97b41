use vstd::prelude::*;
use crate::error::Error;
use rsa::pkcs8::ToPublicKey;
use rsa::{RsaPrivateKey, RsaPublicKey};
use std::collections::HashMap;

verus! {

#[verifier::external_type_specification]
#[verifier::external_body]
pub struct ExRsaPrivateKey(RsaPrivateKey);

/// The size of the one-use provisioning key, in bits.
pub const SECRET_KEY_BITS: usize = 2048;

/// The operator secrets that the provisioning endpoint hands to an enclave
/// it trusts: the measurements and advisories it allows, and named keys.
#[derive(Debug)]
pub struct Secrets {
    pub mr_enclaves: Vec<String>,
    pub permitted_advisories: Vec<String>,
    pub keys: HashMap<String, String>,
}

/// The bit length of a key's modulus.
pub uninterp spec fn modulus_bits(k: RsaPrivateKey) -> nat;

/// The DER form of the public half of a key, when it encodes.
pub uninterp spec fn public_der_of(k: RsaPrivateKey) -> Option<Seq<u8>>;

/// The PKCS#1 v1.5 decryption of a ciphertext under a key, when it decrypts.
pub uninterp spec fn plaintext_of(k: RsaPrivateKey, ciphertext: Seq<u8>) -> Option<Seq<u8>>;

/// Relies on rsa::RsaPrivateKey::new with the operating system's random
/// source: a fresh key of two primes whose modulus has exactly `bits` bits
/// (it draws primes again until it does). It fails only below 64 bits.
#[verifier::external_body]
fn generate_rsa_key(bits: usize) -> (r: Option<RsaPrivateKey>)
    ensures
        bits >= 64 ==> r is Some,
        r is Some ==> modulus_bits(r->0) == bits,
{
    RsaPrivateKey::new(&mut rand::rngs::OsRng, bits).ok()
}

/// Relies on rsa::pkcs8::ToPublicKey::to_public_key_der on the public half
/// of the key (`RsaPublicKey::from`, which copies the modulus and exponent
/// and never fails): the DER form, which depends on the key alone, or
/// `None` when encoding fails.
#[verifier::external_body]
fn public_key_der(k: &RsaPrivateKey) -> (r: Option<Vec<u8>>)
    ensures
        r is Some <==> public_der_of(*k) is Some,
        r is Some ==> r->0@ == public_der_of(*k)->0,
{
    RsaPublicKey::from(k).to_public_key_der().ok().map(|d| d.as_ref().to_vec())
}

/// Relies on rsa::RsaPrivateKey::decrypt with PKCS#1 v1.5 padding: the
/// plaintext, or `None` when the ciphertext does not decrypt under the key.
/// This padding uses no random blinding, so the result depends on the key
/// and the ciphertext alone.
#[verifier::external_body]
fn rsa_decrypt(k: &RsaPrivateKey, ciphertext: &[u8]) -> (r: Option<Vec<u8>>)
    ensures
        r is Some <==> plaintext_of(*k, ciphertext@) is Some,
        r is Some ==> r->0@ == plaintext_of(*k, ciphertext@)->0,
{
    k.decrypt(rsa::PaddingScheme::new_pkcs1v15_encrypt(), ciphertext).ok()
}

/// A fresh one-use key of `SECRET_KEY_BITS` bits for the secret exchange.
/// Generation of a key of that size does not fail; a failure would give
/// `KeygenError`.
pub fn new_secret_key() -> (r: Result<RsaPrivateKey, Error>)
    ensures
        r is Ok,
        modulus_bits(r->Ok_0) == SECRET_KEY_BITS,
{
    match generate_rsa_key(SECRET_KEY_BITS) {
        Some(k) => Ok(k),
        None => Err(Error::KeygenError),
    }
}

/// The DER form of the public half of `k`, which the enclave's quote binds;
/// a failed encoding gives `KeyParseError`.
pub fn encode_public_key(k: &RsaPrivateKey) -> (r: Result<Vec<u8>, Error>)
    ensures
        public_der_of(*k) is Some ==> r is Ok && r->Ok_0@ == public_der_of(*k)->0,
        public_der_of(*k) is None ==> r == Err::<Vec<u8>, Error>(Error::KeyParseError),
{
    match public_key_der(k) {
        Some(der) => Ok(der),
        None => Err(Error::KeyParseError),
    }
}

/// What the decryption of a response gave, as the exchange reports it:
/// `None` is a `DecryptError`.
pub fn decryption_outcome(plaintext: Option<Vec<u8>>) -> (r: Result<Vec<u8>, Error>)
    ensures
        plaintext is None ==> r == Err::<Vec<u8>, Error>(Error::DecryptError),
        plaintext is Some ==> r is Ok && r->Ok_0@ == plaintext->0@,
{
    match plaintext {
        Some(p) => Ok(p),
        None => Err(Error::DecryptError),
    }
}

/// Opens the provisioning endpoint's response with the one-use key: a failed
/// request (`None`) gives `FetchError`, a ciphertext that does not decrypt
/// gives `DecryptError`, else the plaintext bundle.
pub fn open_response(k: &RsaPrivateKey, response: &Option<Vec<u8>>) -> (r: Result<Vec<u8>, Error>)
    ensures
        response is None ==> r == Err::<Vec<u8>, Error>(Error::FetchError),
        response is Some && plaintext_of(*k, response->0@) is Some ==> r is Ok && r->Ok_0@
            == plaintext_of(*k, response->0@)->0,
        response is Some && plaintext_of(*k, response->0@) is None ==> r == Err::<Vec<u8>, Error>(
            Error::DecryptError,
        ),
{
    match response {
        None => Err(Error::FetchError),
        Some(ciphertext) => decryption_outcome(rsa_decrypt(k, ciphertext.as_slice())),
    }
}

} // verus!
