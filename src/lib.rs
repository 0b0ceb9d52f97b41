//! Client side of an enclave-attested oracle function: quote checks,
//! derivation of the verification accounts, the verification instruction,
//! the result envelope, and the quote-bound secret exchange.

pub mod error;
pub mod codec;
pub mod address;
pub mod records;
pub mod instruction;
pub mod quote;
pub mod result;
pub mod secrets;
