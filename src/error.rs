use vstd::prelude::*;

verus! {

/// The failures of the attestation and provisioning pipelines.
#[derive(Clone, Copy, Debug, PartialEq, Eq, Structural)]
pub enum Error {
    Generic,
    SgxError,
    SgxWriteError,
    AnchorParseError,
    VerifierMissing,
    KeyParseError,
    FetchError,
    DecryptError,
    KeygenError,
    QuoteParseError,
    MissingAccount,
    MissingConfiguration,
    QuoteBindingMismatch,
}

} // verus!
