//! Decoders for the on-chain records that a verification reads. The
//! layouts here are this library's own compact stand-ins for the
//! attestation program's function, queue and quote account records, not
//! their full on-chain layouts: the Anchor account discriminator (the first
//! eight bytes of the SHA-256 digest of `"account:"` and the record's name)
//! followed by just the fields that the verification reads, at fixed
//! offsets. Account bytes must be in these layouts: the discriminator
//! alone does not tell them apart from the program's full records.

use vstd::prelude::*;
use vstd::bytes::{spec_u64_from_le_bytes, u64_from_le_bytes};
use vstd::slice::slice_subrange;
use vstd::string::StringSliceAdditionalSpecFns;
use crate::address::Address;
use crate::codec::{account_discriminator, account_namespace, discriminator_of};
use crate::error::Error;

verus! {

/// The part of a function's on-chain record that the verification needs.
///
/// Layout: the account discriminator of `"FunctionAccountData"`, the
/// attestation queue (32 bytes), the escrow (32 bytes), a flag byte that is 1
/// when a next execution time is set and 0 when not, and that time as a
/// little-endian `i64`.
#[derive(Clone, Copy, Debug, PartialEq, Eq)]
pub struct FunctionRecord {
    pub attestation_queue: Address,
    pub escrow: Address,
    pub next_execution_timestamp: Option<i64>,
}

/// The part of an attestation queue's on-chain record that the verification
/// needs. Layout: the account discriminator of `"AttestationQueueAccountData"`
/// and the queue's authority (32 bytes).
#[derive(Clone, Copy, Debug, PartialEq, Eq)]
pub struct QueueRecord {
    pub authority: Address,
}

/// The part of a verifier's quote record that the verification needs.
/// Layout: the account discriminator of `"QuoteAccountData"` and the secured
/// signer (32 bytes).
#[derive(Clone, Copy, Debug, PartialEq, Eq)]
pub struct VerifierRecord {
    pub secured_signer: Address,
}

/// The length of an encoded function record.
pub const FUNCTION_RECORD_LEN: usize = 81;

/// The length of an encoded queue or verifier record.
pub const KEY_RECORD_LEN: usize = 40;

/// The address stored at `at` in `b`.
pub open spec fn address_at(b: Seq<u8>, at: int) -> Seq<u8> {
    b.subrange(at, at + 32)
}

/// Whether `b` begins with the account discriminator `disc`.
pub open spec fn tagged(b: Seq<u8>, disc: Seq<u8>) -> bool {
    b.len() >= 8 && b.subrange(0, 8) == disc
}

pub open spec fn function_discriminator() -> Seq<u8> {
    discriminator_of(account_namespace(), "FunctionAccountData".spec_bytes())
}

pub open spec fn queue_discriminator() -> Seq<u8> {
    discriminator_of(account_namespace(), "AttestationQueueAccountData".spec_bytes())
}

pub open spec fn verifier_discriminator() -> Seq<u8> {
    discriminator_of(account_namespace(), "QuoteAccountData".spec_bytes())
}

/// Whether `b` encodes a function record.
pub open spec fn is_function_record(b: Seq<u8>) -> bool {
    b.len() >= FUNCTION_RECORD_LEN && tagged(b, function_discriminator()) && b[72] <= 1
}

/// The next execution time that an encoded function record holds, if set.
pub open spec fn due_timestamp_at(b: Seq<u8>) -> Option<i64> {
    if b[72] == 1 {
        Some(spec_u64_from_le_bytes(b.subrange(73, 81)) as i64)
    } else {
        None
    }
}

/// Whether `r` is the function record that `b` encodes.
pub open spec fn decodes_function(b: Seq<u8>, r: FunctionRecord) -> bool {
    &&& is_function_record(b)
    &&& r.attestation_queue@ == address_at(b, 8)
    &&& r.escrow@ == address_at(b, 40)
    &&& r.next_execution_timestamp == due_timestamp_at(b)
}

/// Whether `b` encodes a queue record.
pub open spec fn is_queue_record(b: Seq<u8>) -> bool {
    b.len() >= KEY_RECORD_LEN && tagged(b, queue_discriminator())
}

/// Whether `b` encodes a verifier record.
pub open spec fn is_verifier_record(b: Seq<u8>) -> bool {
    b.len() >= KEY_RECORD_LEN && tagged(b, verifier_discriminator())
}

/// The 32 bytes of `b` from `at`.
pub fn read_address(b: &[u8], at: usize) -> (r: Address)
    requires
        at + 32 <= b@.len(),
    ensures
        r@ == address_at(b@, at as int),
{
    let n: usize = b.len();
    let mut r: Address = [0u8; 32];
    let mut i: usize = 0;
    while i < 32
        invariant
            i <= 32,
            at + 32 <= b@.len(),
            n == b@.len(),
            forall|k: int| 0 <= k < i ==> r@[k] == b@[at + k],
        decreases 32 - i,
    {
        r[i] = b[at + i];
        i = i + 1;
    }
    assert(r@ =~= address_at(b@, at as int));
    r
}

fn has_tag(b: &[u8], disc: &[u8; 8]) -> (r: bool)
    ensures
        r == tagged(b@, disc@),
{
    if b.len() < 8 {
        return false;
    }
    let mut i: usize = 0;
    while i < 8
        invariant
            i <= 8,
            b@.len() >= 8,
            forall|k: int| 0 <= k < i ==> b@[k] == disc@[k],
        decreases 8 - i,
    {
        if b[i] != disc[i] {
            assert(b@.subrange(0, 8)[i as int] != disc@[i as int]);
            return false;
        }
        i = i + 1;
    }
    assert(b@.subrange(0, 8) =~= disc@);
    true
}

/// Decodes a function record from an account's bytes. A missing account
/// gives `MissingAccount`; bytes that are not a function record give
/// `AnchorParseError`.
pub fn load_function_record(raw: &Option<Vec<u8>>) -> (r: Result<FunctionRecord, Error>)
    ensures
        raw is None ==> r == Err::<FunctionRecord, Error>(Error::MissingAccount),
        raw is Some ==> match r {
            Ok(f) => decodes_function(raw->0@, f),
            Err(e) => e == Error::AnchorParseError && !is_function_record(raw->0@),
        },
{
    match raw {
        None => Err(Error::MissingAccount),
        Some(b) => {
            let disc = account_discriminator("FunctionAccountData");
            if b.len() < FUNCTION_RECORD_LEN || !has_tag(b.as_slice(), &disc) || b[72] > 1 {
                return Err(Error::AnchorParseError);
            }
            let next_execution_timestamp = if b[72] == 1 {
                Some(u64_from_le_bytes(slice_subrange(b.as_slice(), 73, 81)) as i64)
            } else {
                None
            };
            Ok(FunctionRecord {
                attestation_queue: read_address(b.as_slice(), 8),
                escrow: read_address(b.as_slice(), 40),
                next_execution_timestamp,
            })
        },
    }
}

/// Decodes a queue record from an account's bytes, with the errors of
/// `load_function_record`.
pub fn load_queue_record(raw: &Option<Vec<u8>>) -> (r: Result<QueueRecord, Error>)
    ensures
        raw is None ==> r == Err::<QueueRecord, Error>(Error::MissingAccount),
        raw is Some ==> match r {
            Ok(q) => is_queue_record(raw->0@) && q.authority@ == address_at(raw->0@, 8),
            Err(e) => e == Error::AnchorParseError && !is_queue_record(raw->0@),
        },
{
    match raw {
        None => Err(Error::MissingAccount),
        Some(b) => {
            let disc = account_discriminator("AttestationQueueAccountData");
            if b.len() < KEY_RECORD_LEN || !has_tag(b.as_slice(), &disc) {
                return Err(Error::AnchorParseError);
            }
            Ok(QueueRecord { authority: read_address(b.as_slice(), 8) })
        },
    }
}

/// Decodes a verifier's quote record from an account's bytes, with the
/// errors of `load_function_record`.
pub fn load_verifier_record(raw: &Option<Vec<u8>>) -> (r: Result<VerifierRecord, Error>)
    ensures
        raw is None ==> r == Err::<VerifierRecord, Error>(Error::MissingAccount),
        raw is Some ==> match r {
            Ok(v) => is_verifier_record(raw->0@) && v.secured_signer@ == address_at(raw->0@, 8),
            Err(e) => e == Error::AnchorParseError && !is_verifier_record(raw->0@),
        },
{
    match raw {
        None => Err(Error::MissingAccount),
        Some(b) => {
            let disc = account_discriminator("QuoteAccountData");
            if b.len() < KEY_RECORD_LEN || !has_tag(b.as_slice(), &disc) {
                return Err(Error::AnchorParseError);
            }
            Ok(VerifierRecord { secured_signer: read_address(b.as_slice(), 8) })
        },
    }
}

} // verus!
