use picodata::json::{display_tuple, truncate_document, JsonDocument};
use picodata::tuple::TupleBuffer;
use serde_json::Value;

fn tuple(bytes: Vec<u8>) -> TupleBuffer {
    TupleBuffer::try_from_vec(bytes).unwrap()
}

#[test]
fn a_tuple_is_shown_as_json() {
    assert_eq!(
        display_tuple(&tuple(vec![0x93, 0x01, 0xa2, b'h', b'i', 0xc0])),
        "[1,\"hi\",null]"
    );
    // A map inside, with its keys in order.
    assert_eq!(
        display_tuple(&tuple(vec![0x91, 0x82, 0xa1, b'b', 0xc2, 0xa1, b'a', 0x90])),
        "[{\"a\":[],\"b\":false}]"
    );
}

#[test]
fn a_tuple_that_is_no_json_is_shown_with_its_debug_text() {
    // One binary item: JSON has no such value.
    assert_eq!(
        display_tuple(&tuple(vec![0x91, 0xc4, 0x01, 0xff])),
        "TupleBuffer(Array([Binary([255])]))"
    );
    // An array that ends too early.
    assert_eq!(display_tuple(&tuple(vec![0x92, 0x01])), "TupleBuffer([146, 1])");
}

#[test]
fn long_tuples_are_cut() {
    let ten = tuple(vec![0x9a, 0, 1, 2, 3, 4, 5, 6, 7, 8, 9]);
    assert_eq!(display_tuple(&ten), "[0,1,2,3,4,5,6,7,8,9]");
    let eleven = tuple(vec![0x9b, 0, 1, 2, 3, 4, 5, 6, 7, 8, 9, 10]);
    assert_eq!(display_tuple(&eleven), "[0,1,2,3,4,5,6,7,8,9,\"<TRUNCATED>\"]");
    // Arrays further down are shown whole.
    let nested = tuple(vec![0x91, 0x9b, 0, 1, 2, 3, 4, 5, 6, 7, 8, 9, 10]);
    assert_eq!(display_tuple(&nested), "[[0,1,2,3,4,5,6,7,8,9,10]]");
}

#[test]
fn documents_are_cut_at_their_thresholds() {
    let text = |s: String| JsonDocument::Text(s);
    assert_eq!(truncate_document(text("x".repeat(100))), text("x".repeat(100)));
    assert_eq!(
        truncate_document(text("x".repeat(101))),
        text(format!("{}<TRUNCATED>...", "x".repeat(100)))
    );
    // Bytes are counted, not characters.
    assert_eq!(
        truncate_document(text("\u{43f}".repeat(51))),
        text(format!("{}<TRUNCATED>...", "\u{43f}".repeat(50)))
    );
    let entries = |n: usize| -> Vec<(String, Value)> {
        (0..n).map(|i| (format!("k{i}"), Value::from(i))).collect()
    };
    assert_eq!(
        truncate_document(JsonDocument::Object(entries(10))),
        JsonDocument::Object(entries(10))
    );
    let mut cut = entries(10);
    cut.push(("<TRUNCATED>".to_string(), Value::from("<TRUNCATED>")));
    assert_eq!(
        truncate_document(JsonDocument::Object(entries(12))),
        JsonDocument::Object(cut)
    );
    assert_eq!(
        truncate_document(JsonDocument::Scalar(Value::Null)),
        JsonDocument::Scalar(Value::Null)
    );
}

#[test]
fn cutting_twice_is_cutting_once() {
    let items = |n: usize| JsonDocument::Array((0..n).map(Value::from).collect());
    let once = truncate_document(items(30));
    let twice = truncate_document(truncate_document(items(30)));
    assert_eq!(once, twice);
    if let JsonDocument::Array(shown) = once {
        assert_eq!(shown.len(), 11);
        assert_eq!(shown[10], Value::from("<TRUNCATED>"));
    } else {
        panic!("an array stays an array");
    }
}

#[test]
fn what_is_no_array_is_no_tuple() {
    assert!(TupleBuffer::try_from_vec(vec![]).is_err());
    assert_eq!(
        TupleBuffer::try_from_vec(vec![0x81, 0x01, 0x02]).unwrap_err(),
        "failed to encode tuple: invalid msgpack value (expected array, found Map([(Integer(PosInt(1)), Integer(PosInt(2)))]))"
    );
    for marker in 0..=255u8 {
        let is_array = (0x90..=0x9f).contains(&marker) || marker == 0xdc || marker == 0xdd;
        assert_eq!(TupleBuffer::try_from_vec(vec![marker]).is_ok(), is_array);
    }
    assert_eq!(tuple(vec![0x91, 7]).as_bytes(), &[0x91, 7]);
    assert_eq!(tuple(vec![0x91, 7]).clone(), tuple(vec![0x91, 7]));
}
