//! The conversions themselves: the JSON envelope codec, the timestamp
//! conversion, the optionality lifting, and the scalar identities.
use vstd::prelude::*;

verus! {

use crate::result::ConversionError;
use crate::{S2ProtoPack, S2ProtoUnpack};
use vstd::string::StringExecFns;

// Wire types.
//
// The wire counterpart types are generated by an upstream schema compiler
// and come from the prost-types crate; both are plain records, declared
// here so that contracts can speak of their fields directly.

/// Declares `prost_types::Any`, the generic envelope: a type tag naming the
/// payload encoding, and the opaque payload bytes themselves.
#[verifier::external_type_specification]
pub struct ExAny(prost_types::Any);

/// Declares `prost_types::Timestamp`: seconds since the Unix epoch (may be
/// negative) and a sub-second nanosecond offset.
#[verifier::external_type_specification]
pub struct ExTimestamp(prost_types::Timestamp);

// The JSON envelope codec.
//
// An untyped structured value (a JSON-like tree) is carried inside an
// envelope as JSON text, under a fixed type tag. The structured value type
// and the JSON codec come from serde_json; the tag check and the error
// discipline around them are this crate's own logic.

/// Declares `serde_json::Value`, the untyped structured value: a tree of
/// null/bool/number/string/array/mapping nodes. It is opaque here; the
/// conversions move whole trees between native and wire form.
#[verifier::external_type_specification]
#[verifier::external_body]
pub struct ExValue(serde_json::Value);

/// The JSON text that `serde_json::to_vec` produces for a structured value:
/// a function of the value alone (object keys are kept sorted).
pub uninterp spec fn json_bytes_of(v: serde_json::Value) -> Seq<u8>;

/// The structured value that `serde_json::from_slice` reads from a byte
/// sequence, or `None` where it rejects the bytes (not valid JSON text, or
/// JSON nested more deeply than the decoder's fixed recursion limit): a
/// function of the bytes alone.
pub uninterp spec fn json_value_of(b: Seq<u8>) -> Option<serde_json::Value>;

/// The type tag marking an envelope payload as a JSON-encoded structured
/// value.
pub open spec fn json_type_url() -> Seq<char> {
    "s2/json"@
}

/// Relies on `serde_json::to_vec`: serializing a structured value cannot
/// fail (its serializer never errors and a byte buffer never rejects a
/// write), and the compact JSON text it produces depends on the value
/// alone. Relies on `serde_json::from_slice` for the last clause: where
/// that text parses at all, it parses back to the same value — the
/// serializer has no depth limit while the parser does, so text from a
/// deeply nested value may not parse.
#[verifier::external_body]
fn encode_json(v: &serde_json::Value) -> (r: Result<Vec<u8>, serde_json::Error>)
    ensures
        r is Ok,
        r matches Ok(b) ==> b@ == json_bytes_of(*v) && (json_value_of(b@) matches Some(v2)
            ==> v2 == *v),
{
    serde_json::to_vec(v)
}

/// Relies on `serde_json::from_slice`: whether it accepts a byte sequence,
/// and the structured value it reads from one it accepts, depend on the
/// bytes alone.
#[verifier::external_body]
fn decode_json(b: &[u8]) -> (r: Result<serde_json::Value, serde_json::Error>)
    ensures
        match r {
            Ok(v) => json_value_of(b@) == Some(v),
            Err(_) => json_value_of(b@) is None,
        },
{
    serde_json::from_slice(b)
}

/// Relies on `str`'s `PartialEq`: two strings are equal exactly when their
/// character sequences are.
#[verifier::external_body]
fn str_eq(a: &str, b: &str) -> (r: bool)
    ensures
        r == (a@ == b@),
{
    a == b
}

impl S2ProtoPack<prost_types::Any> for serde_json::Value {
    open spec fn pack_requires(self) -> bool {
        true
    }

    open spec fn pack_ok(self, p: prost_types::Any) -> bool {
        &&& p.type_url@ == json_type_url()
        &&& p.value@ == json_bytes_of(self)
        &&& (json_value_of(p.value@) matches Some(v) ==> v == self)
    }

    open spec fn pack_err(self, e: ConversionError) -> bool {
        false
    }

    /// Packing a structured value always succeeds: every structured value
    /// has a JSON encoding.
    fn pack(self) -> (r: Result<prost_types::Any, ConversionError>) {
        match encode_json(&self) {
            Ok(b) => Ok(
                prost_types::Any { type_url: String::from_str("s2/json"), value: b },
            ),
            Err(e) => Err(ConversionError::Json { source: e }),
        }
    }
}

impl S2ProtoUnpack<prost_types::Any> for serde_json::Value {
    open spec fn unpack_ok(p: prost_types::Any, n: serde_json::Value) -> bool {
        &&& p.type_url@ == json_type_url()
        &&& json_value_of(p.value@) == Some(n)
    }

    open spec fn unpack_err(p: prost_types::Any, e: ConversionError) -> bool {
        ||| {
            &&& e matches ConversionError::JsonTypeUrlUnknown { type_url }
            &&& type_url@ == p.type_url@
            &&& p.type_url@ != json_type_url()
        }
        ||| {
            &&& e matches ConversionError::Json { .. }
            &&& p.type_url@ == json_type_url()
            &&& json_value_of(p.value@) is None
        }
    }

    fn unpack(value: prost_types::Any) -> (r: Result<serde_json::Value, ConversionError>) {
        if str_eq(value.type_url.as_str(), "s2/json") {
            match decode_json(value.value.as_slice()) {
                Ok(v) => Ok(v),
                Err(e) => Err(ConversionError::Json { source: e }),
            }
        } else {
            Err(ConversionError::JsonTypeUrlUnknown { type_url: value.type_url })
        }
    }
}

// Optionality lifting.
//
// Given a base conversion between native type N and wire type P, the four
// helpers below derive, once and for all, the conversions between the
// optional forms: `Option<N>` maps to `Option<P>` with absence kept as
// absence, and a required N maps to `Option<P>` with absence on unpack
// promoted to a `ValueNotPresent` error. Each lifted trait implementation
// is a two-line delegation to these helpers.

/// When packing an optional native value is defined.
pub open spec fn opt_pack_requires<N: S2ProtoPack<P>, P>(v: Option<N>) -> bool {
    match v {
        Option::Some(n) => n.pack_requires(),
        Option::None => true,
    }
}

/// What packing an optional native value returns: absence stays absence,
/// presence packs the inner value.
pub open spec fn opt_pack_ok<N: S2ProtoPack<P>, P>(v: Option<N>, p: Option<P>) -> bool {
    match v {
        Option::None => p is None,
        Option::Some(n) => p matches Option::Some(w) && n.pack_ok(w),
    }
}

/// Which errors packing an optional native value may report.
pub open spec fn opt_pack_err<N: S2ProtoPack<P>, P>(v: Option<N>, e: ConversionError) -> bool {
    v matches Option::Some(n) && n.pack_err(e)
}

/// What unpacking into an optional native value returns.
pub open spec fn opt_unpack_ok<N: S2ProtoUnpack<P>, P>(p: Option<P>, v: Option<N>) -> bool {
    match p {
        Option::None => v is None,
        Option::Some(w) => v matches Option::Some(n) && N::unpack_ok(w, n),
    }
}

/// Which errors unpacking into an optional native value may report.
pub open spec fn opt_unpack_err<N: S2ProtoUnpack<P>, P>(p: Option<P>, e: ConversionError) -> bool {
    p matches Option::Some(w) && N::unpack_err(w, e)
}

/// What packing a required native value into a wire optional returns:
/// always presence.
pub open spec fn req_pack_ok<N: S2ProtoPack<P>, P>(v: N, p: Option<P>) -> bool {
    p matches Option::Some(w) && v.pack_ok(w)
}

/// What unpacking a required native value from a wire optional returns:
/// the wire value must be present.
pub open spec fn req_unpack_ok<N: S2ProtoUnpack<P>, P>(p: Option<P>, n: N) -> bool {
    p matches Option::Some(w) && N::unpack_ok(w, n)
}

/// Which errors unpacking a required native value may report: absence is a
/// `ValueNotPresent` error, a present wire value fails as the base
/// conversion does.
pub open spec fn req_unpack_err<N: S2ProtoUnpack<P>, P>(p: Option<P>, e: ConversionError) -> bool {
    match p {
        Option::None => e == ConversionError::ValueNotPresent,
        Option::Some(w) => N::unpack_err(w, e),
    }
}

/// Packs an optional native value, mapping `None` to `None`.
pub fn pack_opt<N: S2ProtoPack<P>, P>(v: Option<N>) -> (r: Result<Option<P>, ConversionError>)
    requires
        opt_pack_requires(v),
    ensures
        match r {
            Ok(p) => opt_pack_ok(v, p),
            Err(e) => opt_pack_err(v, e),
        },
{
    match v {
        Option::None => Ok(Option::None),
        Option::Some(n) => match n.pack() {
            Ok(w) => Ok(Option::Some(w)),
            Err(e) => Err(e),
        },
    }
}

/// Unpacks an optional wire value, mapping `None` to `None`.
pub fn unpack_opt<N: S2ProtoUnpack<P>, P>(p: Option<P>) -> (r: Result<
    Option<N>,
    ConversionError,
>)
    ensures
        match r {
            Ok(v) => opt_unpack_ok(p, v),
            Err(e) => opt_unpack_err::<N, P>(p, e),
        },
{
    match p {
        Option::None => Ok(Option::None),
        Option::Some(w) => match N::unpack(w) {
            Ok(n) => Ok(Option::Some(n)),
            Err(e) => Err(e),
        },
    }
}

/// Packs a required native value into a wire optional: always `Some`.
pub fn pack_req<N: S2ProtoPack<P>, P>(v: N) -> (r: Result<Option<P>, ConversionError>)
    requires
        v.pack_requires(),
    ensures
        match r {
            Ok(p) => req_pack_ok(v, p),
            Err(e) => v.pack_err(e),
        },
{
    match v.pack() {
        Ok(w) => Ok(Option::Some(w)),
        Err(e) => Err(e),
    }
}

/// Unpacks a required native value from a wire optional: absence is a
/// `ValueNotPresent` error.
pub fn unpack_req<N: S2ProtoUnpack<P>, P>(p: Option<P>) -> (r: Result<N, ConversionError>)
    ensures
        match r {
            Ok(n) => req_unpack_ok(p, n),
            Err(e) => req_unpack_err::<N, P>(p, e),
        },
{
    match p {
        Option::None => Err(ConversionError::ValueNotPresent),
        Option::Some(w) => N::unpack(w),
    }
}

impl S2ProtoPack<Option<prost_types::Any>> for Option<serde_json::Value> {
    open spec fn pack_requires(self) -> bool {
        opt_pack_requires::<serde_json::Value, prost_types::Any>(self)
    }

    open spec fn pack_ok(self, p: Option<prost_types::Any>) -> bool {
        opt_pack_ok::<serde_json::Value, prost_types::Any>(self, p)
    }

    open spec fn pack_err(self, e: ConversionError) -> bool {
        opt_pack_err::<serde_json::Value, prost_types::Any>(self, e)
    }

    fn pack(self) -> (r: Result<Option<prost_types::Any>, ConversionError>) {
        pack_opt::<serde_json::Value, prost_types::Any>(self)
    }
}

impl S2ProtoUnpack<Option<prost_types::Any>> for Option<serde_json::Value> {
    open spec fn unpack_ok(p: Option<prost_types::Any>, n: Option<serde_json::Value>) -> bool {
        opt_unpack_ok::<serde_json::Value, prost_types::Any>(p, n)
    }

    open spec fn unpack_err(p: Option<prost_types::Any>, e: ConversionError) -> bool {
        opt_unpack_err::<serde_json::Value, prost_types::Any>(p, e)
    }

    fn unpack(value: Option<prost_types::Any>) -> (r: Result<
        Option<serde_json::Value>,
        ConversionError,
    >) {
        unpack_opt(value)
    }
}

impl S2ProtoPack<Option<prost_types::Any>> for serde_json::Value {
    open spec fn pack_requires(self) -> bool {
        true
    }

    open spec fn pack_ok(self, p: Option<prost_types::Any>) -> bool {
        req_pack_ok::<serde_json::Value, prost_types::Any>(self, p)
    }

    open spec fn pack_err(self, e: ConversionError) -> bool {
        false
    }

    fn pack(self) -> (r: Result<Option<prost_types::Any>, ConversionError>) {
        pack_req::<serde_json::Value, prost_types::Any>(self)
    }
}

impl S2ProtoUnpack<Option<prost_types::Any>> for serde_json::Value {
    open spec fn unpack_ok(p: Option<prost_types::Any>, n: serde_json::Value) -> bool {
        req_unpack_ok::<serde_json::Value, prost_types::Any>(p, n)
    }

    open spec fn unpack_err(p: Option<prost_types::Any>, e: ConversionError) -> bool {
        req_unpack_err::<serde_json::Value, prost_types::Any>(p, e)
    }

    fn unpack(value: Option<prost_types::Any>) -> (r: Result<
        serde_json::Value,
        ConversionError,
    >) {
        unpack_req(value)
    }
}

// Timestamp conversion.
//
// The native calendar timestamp is a UTC-anchored instant held as a day
// number relative to the Unix epoch, the second of that day, and a
// sub-second nanosecond offset. On the wire it is a single signed count of
// seconds since the epoch plus the nanosecond offset: pack recombines the
// day number and the second of the day, unpack performs the Euclidean
// decomposition.

/// A UTC-anchored instant with nanosecond precision.
#[derive(Clone, Copy, Debug, PartialEq, Eq, Structural)]
pub struct UtcDateTime {
    /// Days since 1970-01-01, negative for earlier days.
    pub days: i64,
    /// The second of the day, in `[0, 86_400)`.
    pub secs: u32,
    /// The nanosecond within the second, in `[0, 1_000_000_000)`.
    pub nanos: u32,
}

impl UtcDateTime {
    /// A valid instant: the second of the day and the nanosecond are in
    /// range, and the instant's total second count fits the wire's signed
    /// 64-bit field.
    pub open spec fn wf(self) -> bool {
        &&& self.secs < 86_400
        &&& self.nanos < 1_000_000_000
        &&& i64::MIN <= self.days as int * 86_400 + self.secs as int <= i64::MAX
    }

    /// Builds an instant from its parts, or `None` where the parts do not
    /// form a valid instant.
    pub fn new(days: i64, secs: u32, nanos: u32) -> (r: Option<UtcDateTime>)
        ensures
            match r {
                Some(t) => t == (UtcDateTime { days, secs, nanos }) && t.wf(),
                None => !(UtcDateTime { days, secs, nanos }).wf(),
            },
    {
        if secs < 86_400 && nanos < 1_000_000_000 {
            let total: i128 = days as i128 * 86_400 + secs as i128;
            if i64::MIN as i128 <= total && total <= i64::MAX as i128 {
                Some(UtcDateTime { days, secs, nanos })
            } else {
                None
            }
        } else {
            None
        }
    }
}

/// The wire nanosecond field brought into the valid range: negative values
/// become zero, values of a second or more become the last nanosecond.
pub open spec fn clamp_nanos(n: int) -> int {
    if n < 0 {
        0
    } else if n > 999_999_999 {
        999_999_999
    } else {
        n
    }
}

/// Splits a signed second count into a day number and the second of that
/// day, Euclidean style: the second of the day is never negative.
fn split_days(seconds: i64) -> (r: (i64, u32))
    ensures
        r.0 as int * 86_400 + r.1 as int == seconds as int,
        r.1 < 86_400,
{
    if seconds >= 0 {
        let s: u64 = seconds as u64;
        let q: u64 = s / 86_400;
        let b: u64 = s % 86_400;
        (q as i64, b as u32)
    } else {
        let t: u64 = (-(seconds + 1)) as u64;
        let a: u64 = t / 86_400;
        let b: u64 = t % 86_400;
        ((-(a as i64)) - 1, (86_399 - b) as u32)
    }
}

impl S2ProtoPack<prost_types::Timestamp> for UtcDateTime {
    open spec fn pack_requires(self) -> bool {
        self.wf()
    }

    open spec fn pack_ok(self, p: prost_types::Timestamp) -> bool {
        &&& p.seconds as int == self.days as int * 86_400 + self.secs as int
        &&& p.nanos as int == self.nanos as int
    }

    open spec fn pack_err(self, e: ConversionError) -> bool {
        false
    }

    fn pack(self) -> (r: Result<prost_types::Timestamp, ConversionError>) {
        let seconds: i64 = if self.days >= 0 {
            self.days * 86_400 + self.secs as i64
        } else {
            (self.days + 1) * 86_400 + (self.secs as i64 - 86_400)
        };
        Ok(prost_types::Timestamp { seconds, nanos: self.nanos as i32 })
    }
}

impl S2ProtoUnpack<prost_types::Timestamp> for UtcDateTime {
    open spec fn unpack_ok(p: prost_types::Timestamp, n: UtcDateTime) -> bool {
        &&& n.wf()
        &&& n.days as int * 86_400 + n.secs as int == p.seconds as int
        &&& n.nanos as int == clamp_nanos(p.nanos as int)
    }

    open spec fn unpack_err(p: prost_types::Timestamp, e: ConversionError) -> bool {
        false
    }

    /// Reconstructs the instant from the wire record. A nanosecond field
    /// outside `[0, 1_000_000_000)` is not an expressible instant; it is
    /// clamped into range rather than rejected, so that unpacking a
    /// timestamp never fails.
    fn unpack(value: prost_types::Timestamp) -> (r: Result<UtcDateTime, ConversionError>) {
        let (days, secs) = split_days(value.seconds);
        let nanos: u32 = if value.nanos < 0 {
            0
        } else if value.nanos > 999_999_999 {
            999_999_999
        } else {
            value.nanos as u32
        };
        Ok(UtcDateTime { days, secs, nanos })
    }
}

impl S2ProtoPack<Option<prost_types::Timestamp>> for Option<UtcDateTime> {
    open spec fn pack_requires(self) -> bool {
        opt_pack_requires::<UtcDateTime, prost_types::Timestamp>(self)
    }

    open spec fn pack_ok(self, p: Option<prost_types::Timestamp>) -> bool {
        opt_pack_ok::<UtcDateTime, prost_types::Timestamp>(self, p)
    }

    open spec fn pack_err(self, e: ConversionError) -> bool {
        opt_pack_err::<UtcDateTime, prost_types::Timestamp>(self, e)
    }

    fn pack(self) -> (r: Result<Option<prost_types::Timestamp>, ConversionError>) {
        pack_opt::<UtcDateTime, prost_types::Timestamp>(self)
    }
}

impl S2ProtoUnpack<Option<prost_types::Timestamp>> for Option<UtcDateTime> {
    open spec fn unpack_ok(p: Option<prost_types::Timestamp>, n: Option<UtcDateTime>) -> bool {
        opt_unpack_ok::<UtcDateTime, prost_types::Timestamp>(p, n)
    }

    open spec fn unpack_err(p: Option<prost_types::Timestamp>, e: ConversionError) -> bool {
        opt_unpack_err::<UtcDateTime, prost_types::Timestamp>(p, e)
    }

    fn unpack(value: Option<prost_types::Timestamp>) -> (r: Result<
        Option<UtcDateTime>,
        ConversionError,
    >) {
        unpack_opt(value)
    }
}

impl S2ProtoPack<Option<prost_types::Timestamp>> for UtcDateTime {
    open spec fn pack_requires(self) -> bool {
        self.wf()
    }

    open spec fn pack_ok(self, p: Option<prost_types::Timestamp>) -> bool {
        req_pack_ok::<UtcDateTime, prost_types::Timestamp>(self, p)
    }

    open spec fn pack_err(self, e: ConversionError) -> bool {
        false
    }

    fn pack(self) -> (r: Result<Option<prost_types::Timestamp>, ConversionError>) {
        pack_req::<UtcDateTime, prost_types::Timestamp>(self)
    }
}

impl S2ProtoUnpack<Option<prost_types::Timestamp>> for UtcDateTime {
    open spec fn unpack_ok(p: Option<prost_types::Timestamp>, n: UtcDateTime) -> bool {
        req_unpack_ok::<UtcDateTime, prost_types::Timestamp>(p, n)
    }

    open spec fn unpack_err(p: Option<prost_types::Timestamp>, e: ConversionError) -> bool {
        req_unpack_err::<UtcDateTime, prost_types::Timestamp>(p, e)
    }

    fn unpack(value: Option<prost_types::Timestamp>) -> (r: Result<
        UtcDateTime,
        ConversionError,
    >) {
        unpack_req(value)
    }
}

// Scalar identity conversions.
//
// Each primitive scalar kind, and its optional form, packs to and unpacks
// from itself unchanged, so that every scalar participates uniformly in
// composite conversions built on the two traits. These conversions never
// fail.

impl S2ProtoPack<i64> for i64 {
    open spec fn pack_requires(self) -> bool {
        true
    }

    open spec fn pack_ok(self, p: i64) -> bool {
        p == self
    }

    open spec fn pack_err(self, e: ConversionError) -> bool {
        false
    }

    fn pack(self) -> (r: Result<i64, ConversionError>) {
        Ok(self)
    }
}

impl S2ProtoUnpack<i64> for i64 {
    open spec fn unpack_ok(p: i64, n: i64) -> bool {
        n == p
    }

    open spec fn unpack_err(p: i64, e: ConversionError) -> bool {
        false
    }

    fn unpack(value: i64) -> (r: Result<i64, ConversionError>) {
        Ok(value)
    }
}


impl S2ProtoPack<Option<i64>> for Option<i64> {
    open spec fn pack_requires(self) -> bool {
        true
    }

    open spec fn pack_ok(self, p: Option<i64>) -> bool {
        p == self
    }

    open spec fn pack_err(self, e: ConversionError) -> bool {
        false
    }

    fn pack(self) -> (r: Result<Option<i64>, ConversionError>) {
        Ok(self)
    }
}

impl S2ProtoUnpack<Option<i64>> for Option<i64> {
    open spec fn unpack_ok(p: Option<i64>, n: Option<i64>) -> bool {
        n == p
    }

    open spec fn unpack_err(p: Option<i64>, e: ConversionError) -> bool {
        false
    }

    fn unpack(value: Option<i64>) -> (r: Result<Option<i64>, ConversionError>) {
        Ok(value)
    }
}

impl S2ProtoPack<u64> for u64 {
    open spec fn pack_requires(self) -> bool {
        true
    }

    open spec fn pack_ok(self, p: u64) -> bool {
        p == self
    }

    open spec fn pack_err(self, e: ConversionError) -> bool {
        false
    }

    fn pack(self) -> (r: Result<u64, ConversionError>) {
        Ok(self)
    }
}

impl S2ProtoUnpack<u64> for u64 {
    open spec fn unpack_ok(p: u64, n: u64) -> bool {
        n == p
    }

    open spec fn unpack_err(p: u64, e: ConversionError) -> bool {
        false
    }

    fn unpack(value: u64) -> (r: Result<u64, ConversionError>) {
        Ok(value)
    }
}

impl S2ProtoPack<Option<u64>> for Option<u64> {
    open spec fn pack_requires(self) -> bool {
        true
    }

    open spec fn pack_ok(self, p: Option<u64>) -> bool {
        p == self
    }

    open spec fn pack_err(self, e: ConversionError) -> bool {
        false
    }

    fn pack(self) -> (r: Result<Option<u64>, ConversionError>) {
        Ok(self)
    }
}

impl S2ProtoUnpack<Option<u64>> for Option<u64> {
    open spec fn unpack_ok(p: Option<u64>, n: Option<u64>) -> bool {
        n == p
    }

    open spec fn unpack_err(p: Option<u64>, e: ConversionError) -> bool {
        false
    }

    fn unpack(value: Option<u64>) -> (r: Result<Option<u64>, ConversionError>) {
        Ok(value)
    }
}

impl S2ProtoPack<i32> for i32 {
    open spec fn pack_requires(self) -> bool {
        true
    }

    open spec fn pack_ok(self, p: i32) -> bool {
        p == self
    }

    open spec fn pack_err(self, e: ConversionError) -> bool {
        false
    }

    fn pack(self) -> (r: Result<i32, ConversionError>) {
        Ok(self)
    }
}

impl S2ProtoUnpack<i32> for i32 {
    open spec fn unpack_ok(p: i32, n: i32) -> bool {
        n == p
    }

    open spec fn unpack_err(p: i32, e: ConversionError) -> bool {
        false
    }

    fn unpack(value: i32) -> (r: Result<i32, ConversionError>) {
        Ok(value)
    }
}

impl S2ProtoPack<Option<i32>> for Option<i32> {
    open spec fn pack_requires(self) -> bool {
        true
    }

    open spec fn pack_ok(self, p: Option<i32>) -> bool {
        p == self
    }

    open spec fn pack_err(self, e: ConversionError) -> bool {
        false
    }

    fn pack(self) -> (r: Result<Option<i32>, ConversionError>) {
        Ok(self)
    }
}

impl S2ProtoUnpack<Option<i32>> for Option<i32> {
    open spec fn unpack_ok(p: Option<i32>, n: Option<i32>) -> bool {
        n == p
    }

    open spec fn unpack_err(p: Option<i32>, e: ConversionError) -> bool {
        false
    }

    fn unpack(value: Option<i32>) -> (r: Result<Option<i32>, ConversionError>) {
        Ok(value)
    }
}

impl S2ProtoPack<u32> for u32 {
    open spec fn pack_requires(self) -> bool {
        true
    }

    open spec fn pack_ok(self, p: u32) -> bool {
        p == self
    }

    open spec fn pack_err(self, e: ConversionError) -> bool {
        false
    }

    fn pack(self) -> (r: Result<u32, ConversionError>) {
        Ok(self)
    }
}

impl S2ProtoUnpack<u32> for u32 {
    open spec fn unpack_ok(p: u32, n: u32) -> bool {
        n == p
    }

    open spec fn unpack_err(p: u32, e: ConversionError) -> bool {
        false
    }

    fn unpack(value: u32) -> (r: Result<u32, ConversionError>) {
        Ok(value)
    }
}

impl S2ProtoPack<Option<u32>> for Option<u32> {
    open spec fn pack_requires(self) -> bool {
        true
    }

    open spec fn pack_ok(self, p: Option<u32>) -> bool {
        p == self
    }

    open spec fn pack_err(self, e: ConversionError) -> bool {
        false
    }

    fn pack(self) -> (r: Result<Option<u32>, ConversionError>) {
        Ok(self)
    }
}

impl S2ProtoUnpack<Option<u32>> for Option<u32> {
    open spec fn unpack_ok(p: Option<u32>, n: Option<u32>) -> bool {
        n == p
    }

    open spec fn unpack_err(p: Option<u32>, e: ConversionError) -> bool {
        false
    }

    fn unpack(value: Option<u32>) -> (r: Result<Option<u32>, ConversionError>) {
        Ok(value)
    }
}

impl S2ProtoPack<bool> for bool {
    open spec fn pack_requires(self) -> bool {
        true
    }

    open spec fn pack_ok(self, p: bool) -> bool {
        p == self
    }

    open spec fn pack_err(self, e: ConversionError) -> bool {
        false
    }

    fn pack(self) -> (r: Result<bool, ConversionError>) {
        Ok(self)
    }
}

impl S2ProtoUnpack<bool> for bool {
    open spec fn unpack_ok(p: bool, n: bool) -> bool {
        n == p
    }

    open spec fn unpack_err(p: bool, e: ConversionError) -> bool {
        false
    }

    fn unpack(value: bool) -> (r: Result<bool, ConversionError>) {
        Ok(value)
    }
}

impl S2ProtoPack<Option<bool>> for Option<bool> {
    open spec fn pack_requires(self) -> bool {
        true
    }

    open spec fn pack_ok(self, p: Option<bool>) -> bool {
        p == self
    }

    open spec fn pack_err(self, e: ConversionError) -> bool {
        false
    }

    fn pack(self) -> (r: Result<Option<bool>, ConversionError>) {
        Ok(self)
    }
}

impl S2ProtoUnpack<Option<bool>> for Option<bool> {
    open spec fn unpack_ok(p: Option<bool>, n: Option<bool>) -> bool {
        n == p
    }

    open spec fn unpack_err(p: Option<bool>, e: ConversionError) -> bool {
        false
    }

    fn unpack(value: Option<bool>) -> (r: Result<Option<bool>, ConversionError>) {
        Ok(value)
    }
}

impl S2ProtoPack<String> for String {
    open spec fn pack_requires(self) -> bool {
        true
    }

    open spec fn pack_ok(self, p: String) -> bool {
        p == self
    }

    open spec fn pack_err(self, e: ConversionError) -> bool {
        false
    }

    fn pack(self) -> (r: Result<String, ConversionError>) {
        Ok(self)
    }
}

impl S2ProtoUnpack<String> for String {
    open spec fn unpack_ok(p: String, n: String) -> bool {
        n == p
    }

    open spec fn unpack_err(p: String, e: ConversionError) -> bool {
        false
    }

    fn unpack(value: String) -> (r: Result<String, ConversionError>) {
        Ok(value)
    }
}

impl S2ProtoPack<Option<String>> for Option<String> {
    open spec fn pack_requires(self) -> bool {
        true
    }

    open spec fn pack_ok(self, p: Option<String>) -> bool {
        p == self
    }

    open spec fn pack_err(self, e: ConversionError) -> bool {
        false
    }

    fn pack(self) -> (r: Result<Option<String>, ConversionError>) {
        Ok(self)
    }
}

impl S2ProtoUnpack<Option<String>> for Option<String> {
    open spec fn unpack_ok(p: Option<String>, n: Option<String>) -> bool {
        n == p
    }

    open spec fn unpack_err(p: Option<String>, e: ConversionError) -> bool {
        false
    }

    fn unpack(value: Option<String>) -> (r: Result<Option<String>, ConversionError>) {
        Ok(value)
    }
}


// The boxed wrapper.
//
// `Json<T>` wraps an arbitrary serializable type so that it can ride
// inside the generic envelope: packing first serializes the wrapped value
// to the untyped structured value, then delegates to the structured-value
// pack above; unpacking validates the tag, decodes the structured value,
// and deserializes it into the target type. What the structured form of a
// `T` is depends on `T`'s own serde implementations, which live outside
// this crate; the contracts therefore pin the envelope's shape, the tag
// discipline and the error kinds.

/// Relies on `serde_json::to_value`: serializes a value to the untyped
/// structured value. The result depends on `T`'s `Serialize`
/// implementation, so nothing is claimed of it.
#[verifier::external_body]
fn serialize_to_value<T: serde::Serialize>(value: T) -> (r: Result<
    serde_json::Value,
    serde_json::Error,
>) {
    serde_json::to_value(value)
}

/// Relies on `serde_json::from_value`: deserializes a structured value
/// into `T`. The result depends on `T`'s `Deserialize` implementation, so
/// nothing is claimed of it.
#[verifier::external_body]
fn deserialize_from_value<T: serde::de::DeserializeOwned>(value: serde_json::Value) -> (r: Result<
    T,
    serde_json::Error,
>) {
    serde_json::from_value(value)
}

/// Packs an arbitrary serializable value into the generic envelope, by way
/// of its structured JSON form.
pub fn pack_any<T: serde::Serialize>(value: T) -> (r: Result<prost_types::Any, ConversionError>)
    ensures
        match r {
            Ok(a) => {
                &&& a.type_url@ == json_type_url()
                &&& exists|v: serde_json::Value|
                    #[trigger] <serde_json::Value as S2ProtoPack<prost_types::Any>>::pack_ok(v, a)
            },
            Err(e) => e matches ConversionError::Json { .. },
        },
{
    match serialize_to_value(value) {
        Ok(v) => v.pack(),
        Err(e) => Err(ConversionError::Json { source: e }),
    }
}

/// Unpacks an arbitrary deserializable value from the generic envelope:
/// the tag must be the JSON tag, the payload must be valid JSON text, and
/// the structured value must match the target type's shape.
pub fn unpack_any<T: serde::de::DeserializeOwned>(value: prost_types::Any) -> (r: Result<
    T,
    ConversionError,
>)
    ensures
        r is Ok ==> value.type_url@ == json_type_url() && json_value_of(value.value@) is Some,
        r matches Err(e) ==> {
            ||| {
                &&& e matches ConversionError::JsonTypeUrlUnknown { type_url }
                &&& type_url@ == value.type_url@
                &&& value.type_url@ != json_type_url()
            }
            ||| {
                &&& e matches ConversionError::Json { .. }
                &&& value.type_url@ == json_type_url()
            }
        },
{
    match <serde_json::Value as S2ProtoUnpack<prost_types::Any>>::unpack(value) {
        Ok(v) => match deserialize_from_value::<T>(v) {
            Ok(t) => Ok(t),
            Err(e) => Err(ConversionError::Json { source: e }),
        },
        Err(e) => Err(e),
    }
}

/// Wraps an arbitrary serializable type so that it can be packed into, and
/// unpacked from, the generic envelope via its JSON form.
///
/// Its `pack` and `unpack` are inherent methods rather than trait
/// implementations: the serde bounds they need cannot stand on an
/// implementation of the two conversion traits here.
pub struct Json<T>(pub T);

impl<T: serde::Serialize + serde::de::DeserializeOwned> Json<T> {
    /// Packs the wrapped value into the generic envelope, by way of its
    /// structured JSON form.
    pub fn pack(self) -> (r: Result<prost_types::Any, ConversionError>)
        ensures
            match r {
                Ok(a) => {
                    &&& a.type_url@ == json_type_url()
                    &&& exists|v: serde_json::Value|
                        #[trigger] <serde_json::Value as S2ProtoPack<prost_types::Any>>::pack_ok(
                            v,
                            a,
                        )
                },
                Err(e) => e matches ConversionError::Json { .. },
            },
    {
        pack_any(self.0)
    }

    /// Unpacks a wrapped value from the generic envelope: the tag must be
    /// the JSON tag, the payload valid JSON text matching `T`'s shape.
    pub fn unpack(value: prost_types::Any) -> (r: Result<Json<T>, ConversionError>)
        ensures
            r is Ok ==> value.type_url@ == json_type_url() && json_value_of(value.value@)
                is Some,
            r matches Err(e) ==> {
                ||| {
                    &&& e matches ConversionError::JsonTypeUrlUnknown { type_url }
                    &&& type_url@ == value.type_url@
                    &&& value.type_url@ != json_type_url()
                }
                ||| {
                    &&& e matches ConversionError::Json { .. }
                    &&& value.type_url@ == json_type_url()
                }
            },
    {
        match unpack_any::<T>(value) {
            Ok(t) => Ok(Json(t)),
            Err(e) => Err(e),
        }
    }
}

/// Packs an optional wrapped value, mapping `None` to `None`: the
/// optionality lifting of `Json<T>`'s own pack.
pub fn pack_json_opt<T: serde::Serialize + serde::de::DeserializeOwned>(v: Option<Json<T>>) -> (r: Result<
    Option<prost_types::Any>,
    ConversionError,
>)
    ensures
        match r {
            Ok(p) => {
                &&& (v is None <==> p is None)
                &&& p matches Some(a) ==> (a.type_url@ == json_type_url() && exists|
                    w: serde_json::Value,
                |
                    #[trigger] <serde_json::Value as S2ProtoPack<prost_types::Any>>::pack_ok(
                        w,
                        a,
                    ))
            },
            Err(e) => v is Some && e matches ConversionError::Json { .. },
        },
{
    match v {
        Option::None => Ok(Option::None),
        Option::Some(j) => match pack_any(j.0) {
            Ok(a) => Ok(Option::Some(a)),
            Err(e) => Err(e),
        },
    }
}

/// Unpacks an optional wrapped value, mapping `None` to `None`: the
/// optionality lifting of `Json<T>`'s own unpack.
pub fn unpack_json_opt<T: serde::Serialize + serde::de::DeserializeOwned>(value: Option<prost_types::Any>) -> (r:
    Result<Option<Json<T>>, ConversionError>)
    ensures
        match r {
            Ok(v) => {
                &&& (v is None <==> value is None)
                &&& value matches Some(a) ==> (a.type_url@ == json_type_url() && json_value_of(
                    a.value@,
                ) is Some)
            },
            Err(e) => match value {
                Option::None => false,
                Option::Some(a) => {
                    ||| {
                        &&& e matches ConversionError::JsonTypeUrlUnknown { type_url }
                        &&& type_url@ == a.type_url@
                        &&& a.type_url@ != json_type_url()
                    }
                    ||| {
                        &&& e matches ConversionError::Json { .. }
                        &&& a.type_url@ == json_type_url()
                    }
                },
            },
        },
{
    match value {
        Option::None => Ok(Option::None),
        Option::Some(a) => match Json::<T>::unpack(a) {
            Ok(j) => Ok(Option::Some(j)),
            Err(e) => Err(e),
        },
    }
}

} // verus!
