use vstd::prelude::*;
use vstd::slice::slice_to_vec;
use crate::codec::{sha256, sha256_of};
use crate::error::Error;

verus! {

/// Whether `raw` is a well-formed SGX ECDSA quote: header, report body and
/// signature section, with nothing after it.
pub uninterp spec fn quote_parses(raw: Seq<u8>) -> bool;

/// The length of a quote's report data.
pub const REPORT_DATA_LEN: usize = 64;

/// Relies on sgx_quote::Quote::parse: it accepts a well-formed quote whole,
/// and reads the enclave measurement (32 bytes) at offset 112 and the report
/// data (64 bytes) at offset 368.
#[verifier::external_body]
fn parse_sgx_quote(raw: &[u8]) -> (r: Option<([u8; 32], Vec<u8>)>)
    ensures
        r is Some <==> quote_parses(raw@),
        r is Some ==> raw@.len() >= 432 && (r->0).0@ == raw@.subrange(112, 144) && (r->0).1@
            == raw@.subrange(368, 432),
{
    match sgx_quote::Quote::parse(raw) {
        Ok(q) => Some((q.isv_report.mrenclave.try_into().unwrap(), q.isv_report.report_data.to_vec())),
        Err(_) => None,
    }
}

/// A parsed quote: the enclave measurement, the report data that binds the
/// caller's bytes, and the quote as it was produced.
#[derive(Clone, Debug, PartialEq, Eq)]
pub struct Quote {
    pub mr_enclave: [u8; 32],
    pub report_data: Vec<u8>,
    pub raw: Vec<u8>,
}

/// The report data that binds `binding`: its SHA-256 digest followed by 32 zero bytes.
pub open spec fn binding_report_data(binding: Seq<u8>) -> Seq<u8> {
    sha256_of(binding) + Seq::new(32, |i: int| 0u8)
}

/// Whether `q` is the parse of `raw`.
pub open spec fn parses_to(raw: Seq<u8>, q: Quote) -> bool {
    &&& quote_parses(raw)
    &&& raw.len() >= 432
    &&& q.mr_enclave@ == raw.subrange(112, 144)
    &&& q.report_data@ == raw.subrange(368, 432)
    &&& q.raw@ == raw
}

impl Quote {
    /// Parses a quote; malformed bytes give `QuoteParseError`.
    pub fn parse(raw: &[u8]) -> (r: Result<Quote, Error>)
        ensures
            quote_parses(raw@) ==> r is Ok && parses_to(raw@, r->Ok_0),
            !quote_parses(raw@) ==> r == Err::<Quote, Error>(Error::QuoteParseError),
    {
        match parse_sgx_quote(raw) {
            Some((mr_enclave, report_data)) => Ok(Quote { mr_enclave, report_data, raw: slice_to_vec(raw) }),
            None => Err(Error::QuoteParseError),
        }
    }

    /// Whether this quote binds `binding`.
    pub fn binds(&self, binding: &[u8]) -> (r: bool)
        ensures
            r == (self.report_data@ == binding_report_data(binding@)),
    {
        let expected = report_data_for(binding);
        if self.report_data.len() != REPORT_DATA_LEN {
            return false;
        }
        let mut i: usize = 0;
        while i < REPORT_DATA_LEN
            invariant
                i <= REPORT_DATA_LEN,
                self.report_data@.len() == REPORT_DATA_LEN,
                expected@ == binding_report_data(binding@),
                forall|k: int| 0 <= k < i ==> self.report_data@[k] == expected@[k],
            decreases REPORT_DATA_LEN - i,
        {
            if self.report_data[i] != expected[i] {
                return false;
            }
            i = i + 1;
        }
        assert(self.report_data@ =~= expected@);
        true
    }
}

/// The report data to hand the enclave so that its quote binds `binding`.
pub fn report_data_for(binding: &[u8]) -> (r: [u8; 64])
    ensures
        r@ == binding_report_data(binding@),
{
    let digest = sha256(binding);
    let mut r: [u8; 64] = [0u8; 64];
    let mut i: usize = 0;
    while i < 32
        invariant
            i <= 32,
            forall|k: int| 0 <= k < i ==> r@[k] == digest@[k],
            forall|k: int| 32 <= k < 64 ==> r@[k] == 0u8,
        decreases 32 - i,
    {
        r[i] = digest[i];
        i = i + 1;
    }
    assert(r@ =~= binding_report_data(binding@));
    r
}

/// Takes what the enclave returned for a quote request: `None` when the
/// attestation primitive failed (`SgxError`), else the quote, which must parse
/// (`QuoteParseError`).
pub fn accept_generated(raw: &Option<Vec<u8>>) -> (r: Result<Quote, Error>)
    ensures
        raw is None ==> r == Err::<Quote, Error>(Error::SgxError),
        raw is Some && quote_parses(raw->0@) ==> r is Ok && parses_to(raw->0@, r->Ok_0),
        raw is Some && !quote_parses(raw->0@) ==> r == Err::<Quote, Error>(Error::QuoteParseError),
{
    match raw {
        None => Err(Error::SgxError),
        Some(b) => Quote::parse(b.as_slice()),
    }
}

/// A quote produced over the report data for `binding` parses to a quote
/// that binds `binding`.
pub proof fn lemma_quote_round_trip(binding: Seq<u8>, raw: Seq<u8>, q: Quote)
    requires
        raw.len() >= 432,
        raw.subrange(368, 432) == binding_report_data(binding),
        parses_to(raw, q),
    ensures
        q.report_data@ == binding_report_data(binding),
{
}

} // verus!
