//! The failures the library reports.
use vstd::prelude::*;

verus! {

#[verifier::external_type_specification]
#[verifier::external_body]
pub struct ExParseError(url::ParseError);

#[verifier::external_type_specification]
#[verifier::external_body]
pub struct ExRequestError(reqwest::Error);

/// Why an operation of the library did not succeed.
#[derive(Debug)]
pub enum ResolveError {
    /// The host operating system could not be classified.
    UnsupportedOperatingSystem,
    /// The registry answered with a status outside the success range.
    FailedRequest { status_code: u16, message: String },
    /// The registry address for a package is not a valid URL.
    InvalidUrl(url::ParseError),
    /// The transport failed, or the response body could not be decoded.
    Request(reqwest::Error),
}

} // verus!
