//! Serialized tuples: msgpack arrays as raw bytes.
use vstd::prelude::*;

verus! {

/// The first byte of `bytes` is a msgpack array marker: `fixarray`, `array 16` or
/// `array 32`.
pub open spec fn starts_msgpack_array(bytes: Seq<u8>) -> bool {
    bytes.len() > 0 && (0x90 <= bytes[0] <= 0x9f || bytes[0] == 0xdc || bytes[0] == 0xdd)
}

/// A buffer with the contents of a tuple. It always starts with a msgpack array marker.
#[derive(Debug, PartialEq, Eq)]
pub struct TupleBuffer {
    bytes: Vec<u8>,
}

impl View for TupleBuffer {
    type V = Seq<u8>;

    closed spec fn view(&self) -> Seq<u8> {
        self.bytes@
    }
}

impl Clone for TupleBuffer {
    fn clone(&self) -> (r: Self)
        ensures
            r@ == self@,
    {
        proof {
            use_type_invariant(self);
        }
        let bytes = self.bytes.clone();
        assert(bytes@ =~= self.bytes@);
        TupleBuffer { bytes }
    }
}

impl TupleBuffer {
    #[verifier::type_invariant]
    spec fn well_formed(self) -> bool {
        starts_msgpack_array(self.bytes@)
    }

    /// Checks that `bytes` can be a tuple and wraps them. The error is the text of
    /// tarantool's own error.
    pub fn try_from_vec(bytes: Vec<u8>) -> (r: Result<TupleBuffer, String>)
        ensures
            r is Ok <==> starts_msgpack_array(bytes@),
            r matches Ok(tuple) ==> tuple@ == bytes@,
            r matches Err(text) ==> text@ == rejected_tuple_text(bytes@),
    {
        match validate_tuple(bytes) {
            Ok(bytes) => Ok(TupleBuffer { bytes }),
            Err(text) => Err(text),
        }
    }

    /// The msgpack bytes.
    pub fn as_bytes(&self) -> (r: &[u8])
        ensures
            r@ == self@,
            starts_msgpack_array(r@),
    {
        proof {
            use_type_invariant(self);
        }
        self.bytes.as_slice()
    }
}

/// The text of the error with which tarantool rejects bytes as a tuple.
pub uninterp spec fn rejected_tuple_text(bytes: Seq<u8>) -> Seq<char>;

/// `tarantool::tuple::TupleBuffer::try_from(Vec<u8>)`: it reads the first byte, accepts the
/// bytes exactly when that byte is a msgpack array marker, and keeps them as they are. What
/// follows the marker is not looked at. The text of the error is named, not spelled out.
#[verifier::external_body]
fn validate_tuple(bytes: Vec<u8>) -> (r: Result<Vec<u8>, String>)
    ensures
        r is Ok <==> starts_msgpack_array(bytes@),
        r matches Ok(kept) ==> kept@ == bytes@,
        r matches Err(text) ==> text@ == rejected_tuple_text(bytes@),
{
    match tarantool::tuple::TupleBuffer::try_from(bytes) {
        Ok(tuple) => Ok(tuple.into()),
        Err(error) => Err(error.to_string()),
    }
}

/// The text that tarantool's `Debug` implementation of a tuple buffer gives.
pub uninterp spec fn tuple_debug_text(bytes: Seq<u8>) -> Seq<char>;

/// The `Debug` implementation of `tarantool::tuple::TupleBuffer`, applied to a buffer with
/// these bytes. The result depends on the bytes alone; its form is left unsaid.
#[verifier::external_body]
pub(crate) fn debug_tuple(bytes: &[u8]) -> (r: String)
    requires
        starts_msgpack_array(bytes@),
    ensures
        r@ == tuple_debug_text(bytes@),
{
    match tarantool::tuple::TupleBuffer::try_from(bytes.to_vec()) {
        Ok(tuple) => format!("{:?}", tuple),
        Err(error) => error.to_string(),
    }
}

/// A tuple gives back the bytes that it was made of, and it is made of all bytes that start
/// with an array marker.
pub proof fn law_tuple_keeps_its_bytes(
    bytes: Vec<u8>,
    made: Result<TupleBuffer, String>,
    tuple: TupleBuffer,
    back: &[u8],
)
    requires
        call_ensures(TupleBuffer::try_from_vec, (bytes,), made),
        made == Ok::<TupleBuffer, String>(tuple),
        call_ensures(TupleBuffer::as_bytes, (&tuple,), back),
    ensures
        back@ == bytes@,
        bytes@.len() > 0,
        0x90 <= bytes@[0] <= 0x9f || bytes@[0] == 0xdc || bytes@[0] == 0xdd,
{
}

/// Bytes that do not start with an array marker are rejected.
pub proof fn law_only_arrays_are_tuples(bytes: Vec<u8>, made: Result<TupleBuffer, String>)
    requires
        call_ensures(TupleBuffer::try_from_vec, (bytes,), made),
    ensures
        made is Err <==> bytes@.len() == 0 || bytes@[0] < 0x90 || 0x9f < bytes@[0] < 0xdc
            || bytes@[0] > 0xdd,
{
}

} // verus!
