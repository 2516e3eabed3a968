use vstd::prelude::*;

pub mod args;
pub mod config;
pub mod encode;
pub mod extract;
pub mod flow;
pub mod http;
pub mod operator;
pub mod response;
pub mod session;

verus! {

/// Failures of the login protocol logic.
///
/// Network transport failures are reported by the unverified shell around this
/// library; the variants here cover the compute side: a gateway page whose
/// format is not recognised (the raw page is attached for diagnostics), a
/// redirect URL that does not parse, and a portal reply that is not JSON of
/// the expected shape (the raw reply is attached).
#[derive(Debug, Clone, PartialEq, Eq)]
pub enum Error {
    InvalidIndexContent(Vec<u8>),
    UrlParse,
    JsonParse(Vec<u8>),
}

} // verus!
