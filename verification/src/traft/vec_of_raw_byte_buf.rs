//! Lists of tuples on the wire: a sequence of byte strings.
use vstd::prelude::*;

use crate::tuple::{rejected_tuple_text, starts_msgpack_array, TupleBuffer};

verus! {

/// The bytes of tuples.
pub open spec fn raw_bytes(tuples: Seq<TupleBuffer>) -> Seq<Seq<u8>> {
    tuples.map_values(|tuple: TupleBuffer| tuple@)
}

/// Every byte string can be a tuple.
pub open spec fn all_tuples(bufs: Seq<Seq<u8>>) -> bool {
    forall|i: int| 0 <= i < bufs.len() ==> starts_msgpack_array(#[trigger] bufs[i])
}

/// The byte string at `at` is the first that cannot be a tuple.
pub open spec fn first_rejected(bufs: Seq<Seq<u8>>, at: int) -> bool {
    &&& 0 <= at < bufs.len()
    &&& !starts_msgpack_array(bufs[at])
    &&& all_tuples(bufs.take(at))
}

/// What byte strings read as: themselves where each can be a tuple, and otherwise
/// tarantool's error on the first that cannot.
pub open spec fn reads_as(bufs: Seq<Seq<u8>>, r: Result<Seq<Seq<u8>>, Seq<char>>) -> bool {
    match r {
        Ok(read) => all_tuples(bufs) && read == bufs,
        Err(text) => exists|at: int| #[trigger]
            first_rejected(bufs, at) && text == rejected_tuple_text(bufs[at]),
    }
}

/// The bytes in buffers.
pub open spec fn contents(bufs: Seq<Vec<u8>>) -> Seq<Seq<u8>> {
    bufs.map_values(|buf: Vec<u8>| buf@)
}

/// The bytes in borrowed buffers.
pub open spec fn borrowed_contents<'a>(bufs: Seq<&'a [u8]>) -> Seq<Seq<u8>> {
    bufs.map_values(|buf: &'a [u8]| buf@)
}

/// The byte strings that stand for `tuples`, in their order. How a byte string is framed on
/// the wire is up to the serializer that it is handed to.
pub fn serialize<'a>(tuples: &'a [TupleBuffer]) -> (r: Vec<&'a [u8]>)
    ensures
        borrowed_contents(r@) == raw_bytes(tuples@),
        all_tuples(raw_bytes(tuples@)),
{
    let mut seq: Vec<&'a [u8]> = Vec::new();
    let mut i: usize = 0;
    while i < tuples.len()
        invariant
            i <= tuples.len(),
            seq.len() == i,
            forall|j: int| 0 <= j < i ==> (#[trigger] seq@[j])@ == tuples@[j]@,
            forall|j: int| 0 <= j < i ==> starts_msgpack_array(#[trigger] tuples@[j]@),
        decreases tuples.len() - i,
    {
        seq.push(tuples[i].as_bytes());
        i = i + 1;
    }
    assert(borrowed_contents(seq@) =~= raw_bytes(tuples@));
    seq
}

/// The tuples that the byte strings stand for, in their order. The first byte string that
/// cannot be a tuple is reported with tarantool's text.
pub fn deserialize(bufs: Vec<Vec<u8>>) -> (r: Result<Vec<TupleBuffer>, String>)
    ensures
        r matches Ok(tuples) ==> reads_as(contents(bufs@), Ok(raw_bytes(tuples@))),
        r matches Err(text) ==> reads_as(contents(bufs@), Err(text@)),
{
    let ghost raw = contents(bufs@);
    let mut tuples: Vec<TupleBuffer> = Vec::new();
    let mut i: usize = 0;
    while i < bufs.len()
        invariant
            i <= bufs.len(),
            raw == contents(bufs@),
            tuples.len() == i,
            forall|j: int| 0 <= j < i ==> (#[trigger] tuples@[j])@ == raw[j],
            forall|j: int| 0 <= j < i ==> starts_msgpack_array(#[trigger] raw[j]),
        decreases bufs.len() - i,
    {
        let buf = bufs[i].clone();
        assert(buf@ =~= raw[i as int]);
        match TupleBuffer::try_from_vec(buf) {
            Ok(tuple) => tuples.push(tuple),
            Err(text) => {
                assert(first_rejected(raw, i as int));
                return Err(text);
            },
        }
        i = i + 1;
    }
    assert(raw_bytes(tuples@) =~= raw);
    Ok(tuples)
}

/// What is written is read back: the byte strings of tuples read as the same tuples.
pub proof fn law_serialized_tuples_are_read_back(
    tuples: Seq<TupleBuffer>,
    r: Result<Seq<Seq<u8>>, Seq<char>>,
)
    requires
        all_tuples(raw_bytes(tuples)),
        reads_as(raw_bytes(tuples), r),
    ensures
        r == Ok::<Seq<Seq<u8>>, Seq<char>>(raw_bytes(tuples)),
{
}

/// Whatever the byte strings are, they read as exactly one thing.
pub proof fn law_reading_is_determined(
    bufs: Seq<Seq<u8>>,
    r: Result<Seq<Seq<u8>>, Seq<char>>,
    s: Result<Seq<Seq<u8>>, Seq<char>>,
)
    requires
        reads_as(bufs, r),
        reads_as(bufs, s),
    ensures
        r == s,
{
    if r is Err && s is Err {
        let i: int = choose|i: int| #[trigger]
            first_rejected(bufs, i) && r->Err_0 == rejected_tuple_text(bufs[i]);
        let j: int = choose|j: int| #[trigger]
            first_rejected(bufs, j) && s->Err_0 == rejected_tuple_text(bufs[j]);
        if i < j {
            assert(bufs.take(j)[i] == bufs[i]);
        } else if j < i {
            assert(bufs.take(i)[j] == bufs[j]);
        }
    }
}

/// Each tuple is written as its own bytes, in its own place.
pub proof fn law_each_tuple_is_written_as_its_bytes<'a>(
    tuples: &'a [TupleBuffer],
    r: Vec<&'a [u8]>,
)
    requires
        call_ensures(serialize, (tuples,), r),
    ensures
        r.len() == tuples@.len(),
        forall|i: int| 0 <= i < tuples@.len() ==> (#[trigger] r@[i])@ == tuples@[i]@,
{
    assert(borrowed_contents(r@).len() == raw_bytes(tuples@).len());
    assert forall|i: int| 0 <= i < tuples@.len() implies (#[trigger] r@[i])@ == tuples@[i]@ by {
        assert(borrowed_contents(r@)[i] == raw_bytes(tuples@)[i]);
    }
}

/// Byte strings are read one by one: all of them, each as a tuple with its bytes; or, where one
/// starts with anything but an array marker, the error is tarantool's on the first such one.
pub proof fn law_byte_strings_are_read_up_to_the_first_fault(
    bufs: Vec<Vec<u8>>,
    r: Result<Vec<TupleBuffer>, String>,
)
    requires
        call_ensures(deserialize, (bufs,), r),
    ensures
        r is Ok <==> forall|i: int|
            0 <= i < bufs.len() ==> starts_msgpack_array((#[trigger] bufs@[i])@),
        r matches Ok(tuples) ==> tuples.len() == bufs.len() && forall|i: int|
            0 <= i < bufs.len() ==> (#[trigger] tuples@[i])@ == bufs@[i]@,
        r matches Err(text) ==> exists|at: int|
            {
                &&& 0 <= at < bufs.len()
                &&& !starts_msgpack_array((#[trigger] bufs@[at])@)
                &&& text@ == rejected_tuple_text(bufs@[at]@)
                &&& forall|i: int| 0 <= i < at ==> starts_msgpack_array((#[trigger] bufs@[i])@)
            },
{
    let raw = contents(bufs@);
    assert(raw.len() == bufs.len());
    assert forall|i: int| 0 <= i < bufs.len() implies #[trigger] raw[i] == bufs@[i]@ by {}
    match r {
        Ok(tuples) => {
            assert(raw_bytes(tuples@) == raw);
            assert(raw_bytes(tuples@).len() == tuples.len());
            assert forall|i: int| 0 <= i < bufs.len() implies (#[trigger] tuples@[i])@
                == bufs@[i]@ by {
                assert(raw_bytes(tuples@)[i] == raw[i]);
            }
            assert forall|i: int| 0 <= i < bufs.len() implies starts_msgpack_array(
                (#[trigger] bufs@[i])@,
            ) by {
                assert(starts_msgpack_array(raw[i]));
            }
        },
        Err(text) => {
            let at: int = choose|at: int| #[trigger]
                first_rejected(raw, at) && text@ == rejected_tuple_text(raw[at]);
            assert(raw[at] == bufs@[at]@);
            assert forall|i: int| 0 <= i < at implies starts_msgpack_array(
                (#[trigger] bufs@[i])@,
            ) by {
                assert(raw.take(at)[i] == raw[i]);
                assert(starts_msgpack_array(raw.take(at)[i]));
            }
        },
    }
}

} // verus!
