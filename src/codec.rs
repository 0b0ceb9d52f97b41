use vstd::prelude::*;
use vstd::string::StringSliceAdditionalSpecFns;

verus! {

/// The SHA-256 digest of a byte string, as computed by the chain's hasher.
pub uninterp spec fn sha256_of(data: Seq<u8>) -> Seq<u8>;

/// Relies on solana_sdk::hash::hash: the SHA-256 digest of `data`.
#[verifier::external_body]
pub(crate) fn sha256(data: &[u8]) -> (r: [u8; 32])
    ensures
        r@ == sha256_of(data@),
{
    solana_sdk::hash::hash(data).to_bytes()
}

/// The bytes of `"global:"`, the namespace of instruction discriminators.
pub open spec fn global_namespace() -> Seq<u8> {
    seq![103u8, 108u8, 111u8, 98u8, 97u8, 108u8, 58u8]
}

/// The bytes of `"account:"`, the namespace of account discriminators.
pub open spec fn account_namespace() -> Seq<u8> {
    seq![97u8, 99u8, 99u8, 111u8, 117u8, 110u8, 116u8, 58u8]
}

/// The discriminator of a name in a namespace: the first eight bytes of the
/// digest of the namespace followed by the name.
pub open spec fn discriminator_of(namespace: Seq<u8>, name: Seq<u8>) -> Seq<u8> {
    sha256_of(namespace + name).subrange(0, 8)
}

fn namespaced_discriminator(namespace: &[u8], name: &str) -> (r: [u8; 8])
    ensures
        r@ == discriminator_of(namespace@, name.spec_bytes()),
{
    let mut preimage: Vec<u8> = Vec::new();
    let mut i: usize = 0;
    while i < namespace.len()
        invariant
            i <= namespace@.len(),
            preimage@ == namespace@.subrange(0, i as int),
        decreases namespace@.len() - i,
    {
        preimage.push(namespace[i]);
        i = i + 1;
    }
    let bytes = name.as_bytes();
    let mut j: usize = 0;
    while j < bytes.len()
        invariant
            j <= bytes@.len(),
            bytes@ == name.spec_bytes(),
            preimage@ == namespace@ + bytes@.subrange(0, j as int),
        decreases bytes@.len() - j,
    {
        preimage.push(bytes[j]);
        j = j + 1;
    }
    assert(namespace@.subrange(0, namespace@.len() as int) == namespace@);
    assert(bytes@.subrange(0, bytes@.len() as int) == bytes@);
    let digest = sha256(preimage.as_slice());
    let r: [u8; 8] = [digest[0], digest[1], digest[2], digest[3], digest[4], digest[5], digest[6], digest[7]];
    assert(r@ == digest@.subrange(0, 8));
    r
}

/// The eight-byte instruction discriminator of `name`: the first eight bytes
/// of the SHA-256 digest of `"global:"` followed by the name.
pub fn ix_discriminator(name: &str) -> (r: [u8; 8])
    ensures
        r@ == discriminator_of(global_namespace(), name.spec_bytes()),
{
    let namespace: [u8; 7] = [103, 108, 111, 98, 97, 108, 58];
    assert(namespace@ == global_namespace());
    namespaced_discriminator(namespace.as_slice(), name)
}

/// The eight-byte account discriminator of a record named `name`: the first
/// eight bytes of the SHA-256 digest of `"account:"` followed by the name.
pub fn account_discriminator(name: &str) -> (r: [u8; 8])
    ensures
        r@ == discriminator_of(account_namespace(), name.spec_bytes()),
{
    let namespace: [u8; 8] = [97, 99, 99, 111, 117, 110, 116, 58];
    assert(namespace@ == account_namespace());
    namespaced_discriminator(namespace.as_slice(), name)
}

} // verus!
