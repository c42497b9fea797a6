//! The error type shared by every conversion in this crate.
use vstd::prelude::*;

verus! {

/// Declares `serde_json::Error` so that conversion errors can carry the
/// underlying JSON codec failure verbatim.
#[verifier::external_type_specification]
#[verifier::external_body]
pub struct ExSerdeJsonError(serde_json::Error);

/// Why a conversion between a native and a wire value failed.
#[derive(Debug)]
pub enum ConversionError {
    /// The JSON encode or decode step failed: the payload bytes were not
    /// valid JSON text, or the decoded tree did not match the target shape.
    Json { source: serde_json::Error },
    /// An envelope carried a type tag this consumer does not recognize; the
    /// offending tag is carried verbatim for diagnostics.
    JsonTypeUrlUnknown { type_url: String },
    /// The native side declared a field mandatory, but the wire optional
    /// was absent.
    ValueNotPresent,
}

impl ConversionError {
    /// A short name for the error kind, for callers that want to report it.
    pub fn kind(&self) -> (r: &'static str)
        ensures
            r@ == (match self {
                ConversionError::Json { .. } => "json codec error"@,
                ConversionError::JsonTypeUrlUnknown { .. } => "unknown type url"@,
                ConversionError::ValueNotPresent => "value not present"@,
            }),
    {
        match self {
            ConversionError::Json { .. } => "json codec error",
            ConversionError::JsonTypeUrlUnknown { .. } => "unknown type url",
            ConversionError::ValueNotPresent => "value not present",
        }
    }
}

} // verus!
