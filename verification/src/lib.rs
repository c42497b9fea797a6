//! A bidirectional conversion layer between native domain values and their
//! wire-schema counterparts: scalars, timestamps, and a generic tagged
//! envelope that carries JSON-encoded payloads.
//!
//! A native type declares that it can be packed into a wire type `P` by
//! implementing [`S2ProtoPack<P>`], and that it can be reconstructed from `P`
//! by implementing [`S2ProtoUnpack<P>`]. Each implementation carries spec
//! functions that pin down exactly which results and errors its two
//! operations may produce.
use vstd::prelude::*;

pub mod convert;
pub mod laws;
pub mod result;

verus! {

use crate::result::ConversionError;

/// A native type that can be packed into the wire type `P`.
///
/// Packing consumes the native value and produces the wire value, or an
/// error when the value's content cannot be represented on the wire.
pub trait S2ProtoPack<P>: Sized {
    /// The native values on which packing is defined at all.
    spec fn pack_requires(self) -> bool;

    /// What a successfully packed wire value is, relative to the input.
    spec fn pack_ok(self, p: P) -> bool;

    /// Which errors a failed pack may report for this input.
    spec fn pack_err(self, e: ConversionError) -> bool;

    fn pack(self) -> (r: Result<P, ConversionError>)
        requires
            self.pack_requires(),
        ensures
            match r {
                Ok(p) => self.pack_ok(p),
                Err(e) => self.pack_err(e),
            },
    ;
}

/// A native type that can be reconstructed from the wire type `P`.
///
/// Unpacking consumes the wire value and produces the native value, or an
/// error when the wire value is malformed relative to what this native type
/// expects.
pub trait S2ProtoUnpack<P>: Sized {
    /// What a successfully unpacked native value is, relative to the input.
    spec fn unpack_ok(p: P, n: Self) -> bool;

    /// Which errors a failed unpack may report, and on which inputs.
    spec fn unpack_err(p: P, e: ConversionError) -> bool;

    fn unpack(value: P) -> (r: Result<Self, ConversionError>)
        ensures
            match r {
                Ok(n) => Self::unpack_ok(value, n),
                Err(e) => Self::unpack_err(value, e),
            },
    ;
}

} // verus!
