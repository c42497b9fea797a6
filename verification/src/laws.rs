//! The conversion layer's general guarantees, stated and proved once over
//! the spec functions that the individual conversions define.
use vstd::prelude::*;

verus! {

use crate::convert::{
    json_type_url, json_value_of, opt_pack_err, opt_pack_ok, req_unpack_err, req_unpack_ok,
    UtcDateTime,
};
use crate::result::ConversionError;
use crate::{S2ProtoPack, S2ProtoUnpack};
use vstd::arithmetic::div_mod::lemma_fundamental_div_mod_converse;

/// Round trip for 64-bit signed scalars: packing a value and unpacking the
/// result gives the value back, and neither step can fail.
pub proof fn lemma_scalar_round_trip_i64(v: i64, w: i64, n: i64)
    requires
        <i64 as S2ProtoPack<i64>>::pack_ok(v, w),
        <i64 as S2ProtoUnpack<i64>>::unpack_ok(w, n),
    ensures
        n == v,
        forall|e: ConversionError| !(#[trigger] <i64 as S2ProtoPack<i64>>::pack_err(v, e)),
        forall|e: ConversionError| !(#[trigger] <i64 as S2ProtoUnpack<i64>>::unpack_err(w, e)),
{
}

/// Round trip for 64-bit unsigned scalars.
pub proof fn lemma_scalar_round_trip_u64(v: u64, w: u64, n: u64)
    requires
        <u64 as S2ProtoPack<u64>>::pack_ok(v, w),
        <u64 as S2ProtoUnpack<u64>>::unpack_ok(w, n),
    ensures
        n == v,
        forall|e: ConversionError| !(#[trigger] <u64 as S2ProtoPack<u64>>::pack_err(v, e)),
        forall|e: ConversionError| !(#[trigger] <u64 as S2ProtoUnpack<u64>>::unpack_err(w, e)),
{
}

/// Round trip for 32-bit signed scalars.
pub proof fn lemma_scalar_round_trip_i32(v: i32, w: i32, n: i32)
    requires
        <i32 as S2ProtoPack<i32>>::pack_ok(v, w),
        <i32 as S2ProtoUnpack<i32>>::unpack_ok(w, n),
    ensures
        n == v,
        forall|e: ConversionError| !(#[trigger] <i32 as S2ProtoPack<i32>>::pack_err(v, e)),
        forall|e: ConversionError| !(#[trigger] <i32 as S2ProtoUnpack<i32>>::unpack_err(w, e)),
{
}

/// Round trip for 32-bit unsigned scalars.
pub proof fn lemma_scalar_round_trip_u32(v: u32, w: u32, n: u32)
    requires
        <u32 as S2ProtoPack<u32>>::pack_ok(v, w),
        <u32 as S2ProtoUnpack<u32>>::unpack_ok(w, n),
    ensures
        n == v,
        forall|e: ConversionError| !(#[trigger] <u32 as S2ProtoPack<u32>>::pack_err(v, e)),
        forall|e: ConversionError| !(#[trigger] <u32 as S2ProtoUnpack<u32>>::unpack_err(w, e)),
{
}

/// Round trip for booleans.
pub proof fn lemma_scalar_round_trip_bool(v: bool, w: bool, n: bool)
    requires
        <bool as S2ProtoPack<bool>>::pack_ok(v, w),
        <bool as S2ProtoUnpack<bool>>::unpack_ok(w, n),
    ensures
        n == v,
        forall|e: ConversionError| !(#[trigger] <bool as S2ProtoPack<bool>>::pack_err(v, e)),
        forall|e: ConversionError| !(#[trigger] <bool as S2ProtoUnpack<bool>>::unpack_err(w, e)),
{
}

/// Round trip for text strings.
pub proof fn lemma_scalar_round_trip_string(v: String, w: String, n: String)
    requires
        <String as S2ProtoPack<String>>::pack_ok(v, w),
        <String as S2ProtoUnpack<String>>::unpack_ok(w, n),
    ensures
        n == v,
        forall|e: ConversionError| !(#[trigger] <String as S2ProtoPack<String>>::pack_err(v, e)),
        forall|e: ConversionError|
            !(#[trigger] <String as S2ProtoUnpack<String>>::unpack_err(w, e)),
{
}

/// Round trip for timestamps: for every valid instant, packing and then
/// unpacking gives back exactly the same instant, with no precision loss,
/// and neither step can fail.
pub proof fn lemma_timestamp_round_trip(
    t: UtcDateTime,
    w: prost_types::Timestamp,
    n: UtcDateTime,
)
    requires
        t.wf(),
        <UtcDateTime as S2ProtoPack<prost_types::Timestamp>>::pack_ok(t, w),
        <UtcDateTime as S2ProtoUnpack<prost_types::Timestamp>>::unpack_ok(w, n),
    ensures
        n == t,
        forall|e: ConversionError|
            !(#[trigger] <UtcDateTime as S2ProtoPack<prost_types::Timestamp>>::pack_err(t, e)),
        forall|e: ConversionError|
            !(#[trigger] <UtcDateTime as S2ProtoUnpack<prost_types::Timestamp>>::unpack_err(
                w,
                e,
            )),
{
    let x = w.seconds as int;
    lemma_fundamental_div_mod_converse(x, 86_400, t.days as int, t.secs as int);
    lemma_fundamental_div_mod_converse(x, 86_400, n.days as int, n.secs as int);
}

/// Option lifting correctness: packing an absent value gives an absent
/// wire value and packing a present value packs the inner one; for the
/// required-field variant, an absent wire value unpacks to exactly a
/// `ValueNotPresent` error, and a present one unpacks as the base
/// conversion does.
pub proof fn lemma_option_lifting<N: S2ProtoPack<P> + S2ProtoUnpack<P>, P>(
    n: N,
    w: P,
    e: ConversionError,
)
    ensures
        forall|p: Option<P>| #[trigger] opt_pack_ok::<N, P>(Option::None, p) <==> p is None,
        forall|p: Option<P>|
            #[trigger] opt_pack_ok::<N, P>(Option::Some(n), p) <==> (p matches Option::Some(q)
                && n.pack_ok(q)),
        forall|e2: ConversionError| !(#[trigger] opt_pack_err::<N, P>(Option::None, e2)),
        forall|e2: ConversionError|
            #[trigger] opt_pack_err::<N, P>(Option::Some(n), e2) <==> n.pack_err(e2),
        req_unpack_err::<N, P>(Option::None, e) <==> e == ConversionError::ValueNotPresent,
        forall|m: N|
            #[trigger] req_unpack_ok::<N, P>(Option::Some(w), m) <==> N::unpack_ok(w, m),
        forall|e2: ConversionError|
            #[trigger] req_unpack_err::<N, P>(Option::Some(w), e2) <==> N::unpack_err(w, e2),
{
}

/// Envelope tag enforcement: an envelope whose tag is not the JSON tag
/// never unpacks to a structured value, and every error it can report is
/// the unknown-tag error carrying the offending tag verbatim.
pub proof fn lemma_tag_enforcement(a: prost_types::Any, e: ConversionError)
    requires
        a.type_url@ != json_type_url(),
    ensures
        forall|v: serde_json::Value|
            !(#[trigger] <serde_json::Value as S2ProtoUnpack<prost_types::Any>>::unpack_ok(
                a,
                v,
            )),
        <serde_json::Value as S2ProtoUnpack<prost_types::Any>>::unpack_err(a, e) <==> (
        e matches ConversionError::JsonTypeUrlUnknown { type_url } && type_url@ == a.type_url@),
{
}

/// JSON round trip for structured values: packing a structured value into
/// an envelope always succeeds, and unpacking that envelope, where it
/// succeeds, gives back exactly the same value. Unpacking the packed form
/// can fail only when the encoding does not parse back at all — the JSON
/// serializer has no depth limit while the parser does, so a value nested
/// more deeply than the parser accepts is the one kind of input whose
/// envelope is rejected.
pub proof fn lemma_json_round_trip(
    v: serde_json::Value,
    a: prost_types::Any,
    n: serde_json::Value,
)
    requires
        <serde_json::Value as S2ProtoPack<prost_types::Any>>::pack_ok(v, a),
        <serde_json::Value as S2ProtoUnpack<prost_types::Any>>::unpack_ok(a, n),
    ensures
        n == v,
        forall|e: ConversionError|
            !(#[trigger] <serde_json::Value as S2ProtoPack<prost_types::Any>>::pack_err(v, e)),
{
}

/// Malformed payload rejection: with the recognized JSON tag but payload
/// bytes that are not valid JSON text, unpacking never succeeds, and every
/// error it can report is of the JSON codec kind.
pub proof fn lemma_malformed_payload(a: prost_types::Any, e: ConversionError)
    requires
        a.type_url@ == json_type_url(),
        json_value_of(a.value@) is None,
    ensures
        forall|v: serde_json::Value|
            !(#[trigger] <serde_json::Value as S2ProtoUnpack<prost_types::Any>>::unpack_ok(
                a,
                v,
            )),
        <serde_json::Value as S2ProtoUnpack<prost_types::Any>>::unpack_err(a, e) ==> (
        e matches ConversionError::Json { .. }),
{
}

} // verus!
