use enclave_attest::error::Error;
use enclave_attest::secrets::{decryption_outcome, encode_public_key, open_response};
use rsa::{PaddingScheme, PublicKey, RsaPrivateKey};

fn small_key() -> RsaPrivateKey {
    RsaPrivateKey::new(&mut rand::rngs::OsRng, 1024).unwrap()
}

fn seal(k: &RsaPrivateKey, msg: &[u8]) -> Vec<u8> {
    k.to_public_key()
        .encrypt(&mut rand::rngs::OsRng, PaddingScheme::new_pkcs1v15_encrypt(), msg)
        .unwrap()
}

#[test]
fn matching_key_opens_the_bundle() {
    let k = small_key();
    let bundle = br#"{"mrEnclaves":[],"permittedAdvisories":[],"keys":{"a":"b"}}"#;
    let ct = seal(&k, bundle);
    assert_eq!(open_response(&k, &Some(ct)), Ok(bundle.to_vec()));
}

#[test]
fn mismatched_key_gives_decrypt_error() {
    let k = small_key();
    let other = small_key();
    let ct = seal(&other, b"secret");
    assert_eq!(open_response(&k, &Some(ct)), Err(Error::DecryptError));
    assert_eq!(open_response(&k, &Some(vec![1, 2, 3])), Err(Error::DecryptError));
}

#[test]
fn failed_request_gives_fetch_error() {
    let k = small_key();
    assert_eq!(open_response(&k, &None), Err(Error::FetchError));
}

#[test]
fn decryption_outcome_maps_failure() {
    assert_eq!(decryption_outcome(None), Err(Error::DecryptError));
    assert_eq!(decryption_outcome(Some(vec![4])), Ok(vec![4]));
}

#[test]
fn public_key_is_der() {
    let k = small_key();
    let der = encode_public_key(&k).unwrap();
    assert_eq!(der[0], 0x30);
    assert!(der.len() > 100);
}
