//! Client-side logic for a vendor's electronic-component search API.
//!
//! The library builds the JSON request bodies for the two supported
//! operations (part search and manufacturer listing), decodes the vendor's
//! JSON response envelopes into typed records, and applies the vendor's
//! embedded error-list convention.  The HTTP transport itself lives outside
//! the library; callers hand response bodies in as text.

use vstd::prelude::*;

pub mod json;
pub mod model;
pub mod numbers;
pub mod request;
pub mod decode;
pub mod search;

verus! {

/// Unified failure value for every operation: at most one cause.
#[derive(Debug)]
pub enum Error {
    /// A plain human-readable description (payload missing, and the like).
    Message { message: String },
    /// The HTTP layer failed before a body was received.
    Transport { message: String },
    /// The response body could not be decoded against the expected schema;
    /// the offending text is retained verbatim for diagnosis.
    Decode { text: String },
    /// The vendor reported application-level errors inside an otherwise
    /// successful response.
    Vendor { errors: Vec<model::Error> },
}

} // verus!
