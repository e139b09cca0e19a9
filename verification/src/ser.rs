//! Encoders: pluggable serialization of instrument values into bytes.
//!
//! An encoder's output is a function of the value alone. That determinism is
//! what makes the publisher's deduplication by byte equality sound: an
//! unchanged value always re-encodes to the same bytes.

use vstd::prelude::*;

verus! {

/// The error an encoder reports when a value cannot be encoded.
#[derive(Clone, Copy, Debug, PartialEq, Eq, Structural)]
pub struct SerializeError;

/// A pluggable wire encoding for values of type `T`, selected at publisher
/// construction and applied uniformly to every instrument's current value.
pub trait Encoder<T> {
    type Error;

    /// The bytes this encoder produces for `value`. Encoding is deterministic:
    /// the result depends on the value alone.
    spec fn model(&self, value: T) -> Seq<u8>;

    /// Whether encoding `value` succeeds.
    spec fn encodes(&self, value: T) -> bool;

    /// Encodes `value`, returning exactly `model(value)` on success, and an
    /// encoder-specific error exactly when `value` is not encodable.
    fn encode(&self, value: &T) -> (r: Result<Vec<u8>, Self::Error>)
        ensures
            r is Ok <==> self.encodes(*value),
            r matches Ok(b) ==> b@ == self.model(*value),
    ;
}

/// The decimal digits of `n` in ASCII, most significant first.
pub open spec fn spec_decimal(n: nat) -> Seq<u8>
    decreases n,
{
    if n < 10 {
        seq![(48 + n) as u8]
    } else {
        spec_decimal(n / 10).push((48 + n % 10) as u8)
    }
}

/// The JSON encoding of a `u32`: its decimal digits.
pub open spec fn spec_json_u32(value: u32) -> Seq<u8> {
    spec_decimal(value as nat)
}

/// Relies on `serde_json::to_vec`: an unsigned integer is written as its
/// decimal digits in ASCII, and writing an integer into a byte vector cannot
/// fail.
#[verifier::external_body]
fn json_encode_u32(value: u32) -> (r: Vec<u8>)
    ensures
        r@ == spec_json_u32(value),
{
    serde_json::to_vec(&value).unwrap()
}

/// The JSON encoder: encodes a value with `serde_json`.
#[derive(Clone, Copy, Debug, PartialEq, Eq, Structural)]
pub struct JsonSerializer;

impl Encoder<u32> for JsonSerializer {
    type Error = SerializeError;

    open spec fn model(&self, value: u32) -> Seq<u8> {
        spec_json_u32(value)
    }

    open spec fn encodes(&self, value: u32) -> bool {
        true
    }

    fn encode(&self, value: &u32) -> (r: Result<Vec<u8>, SerializeError>) {
        Ok(json_encode_u32(*value))
    }
}

/// The bytes of the snapshot envelope around an encoded value: the instrument
/// is published as the object `{"value":` ... `}`.
pub open spec fn spec_frame(body: Seq<u8>) -> Seq<u8> {
    spec_frame_prefix() + body + seq![125u8]
}

/// `{"value":` in ASCII.
pub open spec fn spec_frame_prefix() -> Seq<u8> {
    seq![123u8, 34u8, 118u8, 97u8, 108u8, 117u8, 101u8, 34u8, 58u8]
}

/// The JSON `null` literal in ASCII, published as the value of an instrument
/// whose lock is poisoned.
pub open spec fn spec_null() -> Seq<u8> {
    seq![110u8, 117u8, 108u8, 108u8]
}

/// Wraps an encoded value in the snapshot envelope.
pub fn frame_value(body: Vec<u8>) -> (r: Vec<u8>)
    ensures
        r@ == spec_frame(body@),
{
    let ghost body_view = body@;
    let mut out: Vec<u8> = Vec::new();
    out.push(123);
    out.push(34);
    out.push(118);
    out.push(97);
    out.push(108);
    out.push(117);
    out.push(101);
    out.push(34);
    out.push(58);
    proof {
        assert(out@ =~= spec_frame_prefix());
    }
    let mut body = body;
    out.append(&mut body);
    out.push(125);
    proof {
        assert(out@ =~= spec_frame(body_view));
    }
    out
}

/// The JSON `null` literal as a byte vector.
pub fn null_value() -> (r: Vec<u8>)
    ensures
        r@ == spec_null(),
{
    let mut out: Vec<u8> = Vec::new();
    out.push(110);
    out.push(117);
    out.push(108);
    out.push(108);
    proof {
        assert(out@ =~= spec_null());
    }
    out
}

/// Encoding is deterministic: two outcomes that each satisfy `encode`'s
/// contract for the same unmodified value agree — both succeed or both fail,
/// and on success the bytes are identical. This is what entitles the
/// publisher to treat equal bytes as "the value did not change".
pub proof fn lemma_encoding_deterministic<T, E: Encoder<T>>(
    encoder: &E,
    value: T,
    first: Result<Vec<u8>, E::Error>,
    second: Result<Vec<u8>, E::Error>,
)
    requires
        first is Ok <==> encoder.encodes(value),
        first matches Ok(b) ==> b@ == encoder.model(value),
        second is Ok <==> encoder.encodes(value),
        second matches Ok(b) ==> b@ == encoder.model(value),
    ensures
        first is Ok <==> second is Ok,
        first is Ok && second is Ok ==> first->Ok_0@ == second->Ok_0@,
{
}

} // verus!
