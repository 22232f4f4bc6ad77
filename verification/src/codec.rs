//! The pluggable binary-serialization capability the facade depends on
//! but does not implement: string values are encoded to bytes before a
//! send and decoded back after a receive.

use vstd::bytes::spec_u64_from_le_bytes;
use vstd::bytes::u64_from_le_bytes;
use vstd::prelude::*;
use vstd::slice::slice_subrange;

verus! {

/// The byte encoding of a string value, as the serialization
/// capability produces it. Left unnamed beyond this: only the trusted
/// items below say anything about it.
pub uninterp spec fn ser_bin_str(s: Seq<char>) -> Seq<u8>;

/// A payload's frame: at least the eight-byte prefix, whose
/// little-endian value is the length of the bytes that follow it.
/// Every encoding the encoder produces is framed, as its contract
/// states of each encoding it hands out.
pub open spec fn framed(data: Seq<u8>) -> bool {
    data.len() >= 8 && spec_u64_from_le_bytes(data.take(8)) == data.len() - 8
}

/// Relies on nanoserde's `SerBin` for `String`: `ser_bin` writes the
/// length of the UTF-8 bytes as eight little-endian bytes and then the
/// bytes themselves — a function of the characters alone, and framed.
#[verifier::external_body]
pub(crate) fn serialize_str(value: &String) -> (r: Vec<u8>)
    ensures
        r@ == ser_bin_str(value@),
        r@.len() >= 8,
        spec_u64_from_le_bytes(r@.take(8)) == r@.len() - 8,
{
    nanoserde::SerBin::serialize_bin(value)
}

/// Relies on nanoserde's `DeBin` for `String`: `de_bin` reads back
/// exactly what `SerBin` for `String` wrote, so on the encoding of any
/// string it succeeds with that string, and it fails — it never makes
/// a string up — on bytes that encode nothing. A length prefix that
/// points past the input is kept out by the precondition: on such
/// bytes the decoder's slice arithmetic is not defined to return.
#[verifier::external_body]
pub(crate) fn deserialize_str(data: &Vec<u8>) -> (r: Option<String>)
    requires
        data@.len() >= 8 ==> spec_u64_from_le_bytes(data@.take(8)) <= data@.len() - 8,
    ensures
        r matches Some(v) ==> (forall|s: Seq<char>| data@ == ser_bin_str(s) ==> v@ == s),
        r is None ==> (forall|s: Seq<char>| data@ != ser_bin_str(s)),
{
    match <String as nanoserde::DeBin>::deserialize_bin(data.as_slice()) {
        Ok(v) => Some(v),
        Err(_) => None,
    }
}

/// Encodes a string value to the bytes a send carries on the wire.
pub fn encode_string(value: &String) -> (r: Vec<u8>)
    ensures
        r@ == ser_bin_str(value@),
        framed(r@),
{
    serialize_str(value)
}

/// Decodes a received payload back into the string value it encodes:
/// on a framed encoding — and every encoding is framed — the original
/// value comes back, and whatever comes back re-reads as the value of
/// any encoding the payload equals. Unframed bytes, among them a
/// length prefix that points past the input, are turned away before
/// the underlying decoder ever sees them.
pub fn decode_string(data: &Vec<u8>) -> (r: Option<String>)
    ensures
        forall|s: Seq<char>|
            data@ == ser_bin_str(s) && framed(data@) ==> (r matches Some(v) && v@ == s),
        r matches Some(v) ==> (forall|s: Seq<char>| data@ == ser_bin_str(s) ==> v@ == s),
{
    if data.len() < 8 {
        return None;
    }
    let prefix = u64_from_le_bytes(slice_subrange(data.as_slice(), 0, 8));
    if prefix > (data.len() - 8) as u64 {
        return None;
    }
    deserialize_str(data)
}

} // verus!
