//! Tuples shown as JSON, with long documents cut short.
use serde::Serializer;
use vstd::prelude::*;
use vstd::string::*;
use vstd::utf8::*;

use crate::tuple::{debug_tuple, starts_msgpack_array, tuple_debug_text, TupleBuffer};

verus! {

/// A JSON value, carried through as it is.
#[verifier::external_type_specification]
#[verifier::external_body]
pub struct ExJsonValue(serde_json::Value);

/// How many bytes of a string are shown.
pub const TRUNCATION_THRESHOLD_FOR_STRING: usize = 100;

/// How many items of an array are shown.
pub const TRUNCATION_THRESHOLD_FOR_ARRAY: usize = 10;

/// How many entries of a map are shown.
pub const TRUNCATION_THRESHOLD_FOR_MAP: usize = 10;

/// A decoded document, opened one level deep: that is as far as truncation looks.
#[derive(Debug, PartialEq)]
pub enum JsonDocument {
    /// `null`, a boolean or a number.
    Scalar(serde_json::Value),
    Text(String),
    Array(Vec<serde_json::Value>),
    /// The entries, in the order in which they are shown.
    Object(Vec<(String, serde_json::Value)>),
}

/// What a [`JsonDocument`] holds.
#[verifier::ext_equal]
pub ghost enum JsonView {
    Scalar(serde_json::Value),
    Text(Seq<char>),
    Array(Seq<serde_json::Value>),
    Object(Seq<(Seq<char>, serde_json::Value)>),
}

pub open spec fn entry_view(entry: (String, serde_json::Value)) -> (Seq<char>, serde_json::Value) {
    (entry.0@, entry.1)
}

impl View for JsonDocument {
    type V = JsonView;

    open spec fn view(&self) -> JsonView {
        match self {
            JsonDocument::Scalar(value) => JsonView::Scalar(*value),
            JsonDocument::Text(text) => JsonView::Text(text@),
            JsonDocument::Array(items) => JsonView::Array(items@),
            JsonDocument::Object(entries) => JsonView::Object(
                entries@.map_values(|entry: (String, serde_json::Value)| entry_view(entry)),
            ),
        }
    }
}

/// The JSON string `text`.
pub uninterp spec fn json_string(text: Seq<char>) -> serde_json::Value;

/// `serde_json::Value::from(&str)`: the JSON string with this text.
#[verifier::external_body]
fn json_string_of(text: &str) -> (r: serde_json::Value)
    ensures
        r == json_string(text@),
{
    serde_json::Value::from(text)
}

/// The document that msgpack bytes decode to, or `None` where JSON has no such value.
pub uninterp spec fn decoded_json(bytes: Seq<u8>) -> Option<JsonView>;

/// `rmp_serde::from_slice` into a `serde_json::Value`, with the top of the value opened.
/// The result depends on the bytes alone. Bytes that start with an array marker decode to
/// an array or not at all; what the items are is left unsaid.
#[verifier::external_body]
fn decode_json(bytes: &[u8]) -> (r: Option<JsonDocument>)
    ensures
        r is Some <==> decoded_json(bytes@) is Some,
        r matches Some(document) ==> decoded_json(bytes@) == Some(document@),
        r matches Some(document) ==> starts_msgpack_array(bytes@) ==> document@ is Array,
{
    match rmp_serde::from_slice::<serde_json::Value>(bytes).ok()? {
        serde_json::Value::String(text) => Some(JsonDocument::Text(text)),
        serde_json::Value::Array(items) => Some(JsonDocument::Array(items)),
        serde_json::Value::Object(map) => Some(JsonDocument::Object(map.into_iter().collect())),
        scalar => Some(JsonDocument::Scalar(scalar)),
    }
}

/// The compact JSON text of a document, or `None` where it cannot be written.
pub uninterp spec fn json_text(document: JsonView) -> Option<Seq<char>>;

/// `serde_json::to_string` of the document; for a map, the same serializer is handed the
/// entries in their order. The result depends on the document alone; the JSON syntax is
/// left unsaid.
#[verifier::external_body]
fn render_json(document: &JsonDocument) -> (r: Option<String>)
    ensures
        r is Some <==> json_text(document@) is Some,
        r matches Some(text) ==> json_text(document@) == Some(text@),
{
    match document {
        JsonDocument::Scalar(value) => serde_json::to_string(value).ok(),
        JsonDocument::Text(text) => serde_json::to_string(text).ok(),
        JsonDocument::Array(items) => serde_json::to_string(items).ok(),
        JsonDocument::Object(entries) => {
            let mut out = Vec::new();
            let mut serializer = serde_json::Serializer::new(&mut out);
            serializer.collect_map(entries.iter().map(|entry| (&entry.0, &entry.1))).ok()?;
            String::from_utf8(out).ok()
        },
    }
}

/// Whether a string can be cut at the threshold: it is short enough to stay whole, or the
/// threshold falls between two of its characters.
pub open spec fn cuts_cleanly(text: Seq<char>) -> bool {
    encode_utf8(text).len() <= TRUNCATION_THRESHOLD_FOR_STRING || is_char_boundary(
        encode_utf8(text),
        TRUNCATION_THRESHOLD_FOR_STRING as int,
    )
}

/// The document as it is shown: a string keeps its first bytes, an array and a map their
/// first items, and a mark stands for what is left out. Values further down are shown whole.
pub open spec fn truncated(document: JsonView) -> JsonView {
    match document {
        JsonView::Scalar(value) => document,
        JsonView::Text(text) => if encode_utf8(text).len() > TRUNCATION_THRESHOLD_FOR_STRING {
            JsonView::Text(
                decode_utf8(
                    encode_utf8(text).subrange(0, TRUNCATION_THRESHOLD_FOR_STRING as int),
                ) + "<TRUNCATED>..."@,
            )
        } else {
            document
        },
        JsonView::Array(items) => if items.len() > TRUNCATION_THRESHOLD_FOR_ARRAY {
            JsonView::Array(
                items.take(TRUNCATION_THRESHOLD_FOR_ARRAY as int).push(
                    json_string("<TRUNCATED>"@),
                ),
            )
        } else {
            document
        },
        JsonView::Object(entries) => if entries.len() > TRUNCATION_THRESHOLD_FOR_MAP {
            JsonView::Object(
                entries.take(TRUNCATION_THRESHOLD_FOR_MAP as int).push(
                    ("<TRUNCATED>"@, json_string("<TRUNCATED>"@)),
                ),
            )
        } else {
            document
        },
    }
}

/// Cuts a document down to what is shown.
pub fn truncate_document(document: JsonDocument) -> (r: JsonDocument)
    requires
        document@ matches JsonView::Text(text) ==> cuts_cleanly(text),
    ensures
        r@ == truncated(document@),
{
    match document {
        JsonDocument::Scalar(value) => JsonDocument::Scalar(value),
        JsonDocument::Text(text) => {
            if text.as_str().as_bytes().len() > TRUNCATION_THRESHOLD_FOR_STRING {
                let (head, _) = text.as_str().split_at(TRUNCATION_THRESHOLD_FOR_STRING);
                proof {
                    encode_utf8_decode_utf8(head@);
                }
                let mut shown = head.to_owned();
                shown.append("<TRUNCATED>...");
                JsonDocument::Text(shown)
            } else {
                JsonDocument::Text(text)
            }
        },
        JsonDocument::Array(items) => {
            let mut shown = items;
            if shown.len() > TRUNCATION_THRESHOLD_FOR_ARRAY {
                shown.truncate(TRUNCATION_THRESHOLD_FOR_ARRAY);
                shown.push(json_string_of("<TRUNCATED>"));
            }
            JsonDocument::Array(shown)
        },
        JsonDocument::Object(entries) => {
            let ghost whole = entries@.map_values(
                |entry: (String, serde_json::Value)| entry_view(entry),
            );
            let mut shown = entries;
            if shown.len() > TRUNCATION_THRESHOLD_FOR_MAP {
                shown.truncate(TRUNCATION_THRESHOLD_FOR_MAP);
                shown.push(("<TRUNCATED>".to_owned(), json_string_of("<TRUNCATED>")));
                assert(shown@.map_values(|entry: (String, serde_json::Value)| entry_view(entry))
                    =~= whole.take(TRUNCATION_THRESHOLD_FOR_MAP as int).push(
                    ("<TRUNCATED>"@, json_string("<TRUNCATED>"@)),
                ));
            }
            JsonDocument::Object(shown)
        },
    }
}

proof fn lemma_encode_joined(head: Seq<char>, tail: Seq<char>)
    ensures
        encode_utf8(head + tail) == encode_utf8(head) + encode_utf8(tail),
    decreases head.len(),
{
    if head.len() == 0 {
        assert(head + tail =~= tail);
        assert(encode_utf8(head) + encode_utf8(tail) =~= encode_utf8(tail));
    } else {
        lemma_encode_joined(head.drop_first(), tail);
        assert((head + tail).drop_first() =~= head.drop_first() + tail);
        assert(encode_utf8(head + tail) =~= encode_utf8(head) + encode_utf8(tail));
    }
}

/// Cutting a document twice is cutting it once: the mark that stands for what is left out
/// stays where it is.
pub proof fn law_truncation_is_idempotent(document: JsonView)
    requires
        document matches JsonView::Text(text) ==> cuts_cleanly(text),
    ensures
        truncated(truncated(document)) == truncated(document),
{
    match document {
        JsonView::Scalar(_) => {},
        JsonView::Text(text) => {
            let bytes = encode_utf8(text);
            let limit: int = TRUNCATION_THRESHOLD_FOR_STRING as int;
            if bytes.len() > limit {
                let kept = bytes.subrange(0, limit);
                let mark = "<TRUNCATED>..."@;
                encode_utf8_valid_utf8(text);
                valid_utf8_split(bytes, limit);
                decode_utf8_encode_utf8(kept);
                lemma_encode_joined(decode_utf8(kept), mark);
                assert(encode_utf8(decode_utf8(kept) + mark).subrange(0, limit) =~= kept);
            }
        },
        JsonView::Array(items) => {
            assert(truncated(truncated(document)) =~= truncated(document));
        },
        JsonView::Object(entries) => {
            assert(truncated(truncated(document)) =~= truncated(document));
        },
    }
}

/// What is shown of an array or a map is bounded: one item more than the threshold, at most.
pub proof fn law_truncation_bounds_what_is_shown(document: JsonView)
    ensures
        truncated(document) matches JsonView::Array(items) ==> items.len()
            <= TRUNCATION_THRESHOLD_FOR_ARRAY + 1,
        truncated(document) matches JsonView::Object(entries) ==> entries.len()
            <= TRUNCATION_THRESHOLD_FOR_MAP + 1,
{
}

/// A tuple as shown: its truncated JSON text where it has one, tarantool's debug text
/// otherwise.
pub open spec fn tuple_text(bytes: Seq<u8>) -> Seq<char> {
    match decoded_json(bytes) {
        Some(document) => match json_text(truncated(document)) {
            Some(text) => text,
            None => tuple_debug_text(bytes),
        },
        None => tuple_debug_text(bytes),
    }
}

/// Shows a tuple.
pub fn display_tuple(tuple: &TupleBuffer) -> (r: String)
    ensures
        r@ == tuple_text(tuple@),
{
    if let Some(document) = decode_json(tuple.as_bytes()) {
        if let Some(text) = render_json(&truncate_document(document)) {
            return text;
        }
    }
    debug_tuple(tuple.as_bytes())
}

/// What is shown of a long array: its first items as they are, then the mark. A short one is
/// shown whole.
pub proof fn law_first_items_of_an_array_are_shown(
    document: JsonDocument,
    items: Vec<serde_json::Value>,
    r: JsonDocument,
)
    requires
        document == JsonDocument::Array(items),
        call_ensures(truncate_document, (document,), r),
    ensures
        r matches JsonDocument::Array(shown) && if items.len() <= TRUNCATION_THRESHOLD_FOR_ARRAY {
            shown@ == items@
        } else {
            &&& shown.len() == TRUNCATION_THRESHOLD_FOR_ARRAY + 1
            &&& forall|i: int|
                0 <= i < TRUNCATION_THRESHOLD_FOR_ARRAY ==> #[trigger] shown@[i] == items@[i]
            &&& shown@[TRUNCATION_THRESHOLD_FOR_ARRAY as int] == json_string("<TRUNCATED>"@)
        },
{
    assert(r@ is Array);
}

/// What is shown of a large map: its first entries as they are, then an entry that marks the
/// rest. A small one is shown whole.
pub proof fn law_first_entries_of_a_map_are_shown(
    document: JsonDocument,
    entries: Vec<(String, serde_json::Value)>,
    r: JsonDocument,
)
    requires
        document == JsonDocument::Object(entries),
        call_ensures(truncate_document, (document,), r),
    ensures
        r matches JsonDocument::Object(shown) && if entries.len() <= TRUNCATION_THRESHOLD_FOR_MAP {
            &&& shown.len() == entries.len()
            &&& forall|i: int|
                0 <= i < entries.len() ==> (#[trigger] shown@[i]).0@ == entries@[i].0@
                    && shown@[i].1 == entries@[i].1
        } else {
            &&& shown.len() == TRUNCATION_THRESHOLD_FOR_MAP + 1
            &&& forall|i: int|
                0 <= i < TRUNCATION_THRESHOLD_FOR_MAP ==> (#[trigger] shown@[i]).0@
                    == entries@[i].0@ && shown@[i].1 == entries@[i].1
            &&& shown@[TRUNCATION_THRESHOLD_FOR_MAP as int].0@ == "<TRUNCATED>"@
            &&& shown@[TRUNCATION_THRESHOLD_FOR_MAP as int].1 == json_string("<TRUNCATED>"@)
        },
{
    assert(r@ is Object);
    let shown = r->Object_0;
    let limit: int = TRUNCATION_THRESHOLD_FOR_MAP as int;
    let all = entries@.map_values(|entry: (String, serde_json::Value)| entry_view(entry));
    let kept = shown@.map_values(|entry: (String, serde_json::Value)| entry_view(entry));
    assert(r@ == JsonView::Object(kept));
    assert(document@ == JsonView::Object(all));
    assert(kept.len() == shown.len());
    assert(all.len() == entries.len());
    assert forall|i: int| 0 <= i < kept.len() implies (#[trigger] shown@[i]).0@ == kept[i].0
        && shown@[i].1 == kept[i].1 by {}
    assert forall|i: int| 0 <= i < all.len() implies (#[trigger] entries@[i]).0@ == all[i].0
        && entries@[i].1 == all[i].1 by {}
}

/// What is shown of a long string: as many of its first bytes as the threshold says, then the
/// mark. A short one, and what is neither string nor array nor map, is shown as it is.
pub proof fn law_first_bytes_of_a_string_are_shown(
    document: JsonDocument,
    text: String,
    scalar: serde_json::Value,
    r: JsonDocument,
)
    requires
        call_ensures(truncate_document, (document,), r),
    ensures
        document == JsonDocument::Scalar(scalar) ==> r == document,
        document == JsonDocument::Text(text) && cuts_cleanly(text@) ==> (
        r matches JsonDocument::Text(shown) && if encode_utf8(text@).len()
            <= TRUNCATION_THRESHOLD_FOR_STRING {
            shown@ == text@
        } else {
            encode_utf8(shown@) == encode_utf8(text@).take(TRUNCATION_THRESHOLD_FOR_STRING as int)
                + encode_utf8("<TRUNCATED>..."@)
        }),
{
    if document == JsonDocument::Text(text) && cuts_cleanly(text@) {
        assert(r@ is Text);
        let bytes = encode_utf8(text@);
        let limit: int = TRUNCATION_THRESHOLD_FOR_STRING as int;
        if bytes.len() > limit {
            let kept = bytes.subrange(0, limit);
            encode_utf8_valid_utf8(text@);
            valid_utf8_split(bytes, limit);
            decode_utf8_encode_utf8(kept);
            lemma_encode_joined(decode_utf8(kept), "<TRUNCATED>..."@);
            assert(bytes.take(limit) =~= kept);
        }
    } else if document == JsonDocument::Scalar(scalar) {
        assert(r@ is Scalar);
    }
}

/// A tuple is shown with the JSON text of its items, of which `shown` are all or the first with
/// the mark behind them; and where it has no such text, as tarantool shows it.
pub proof fn law_tuple_is_shown_by_its_items(
    tuple: TupleBuffer,
    items: Seq<serde_json::Value>,
    shown: Seq<serde_json::Value>,
    r: String,
)
    requires
        call_ensures(display_tuple, (&tuple,), r),
        if items.len() <= TRUNCATION_THRESHOLD_FOR_ARRAY {
            shown == items
        } else {
            &&& shown.len() == TRUNCATION_THRESHOLD_FOR_ARRAY + 1
            &&& forall|i: int| 0 <= i < TRUNCATION_THRESHOLD_FOR_ARRAY ==> shown[i] == items[i]
            &&& shown[TRUNCATION_THRESHOLD_FOR_ARRAY as int] == json_string("<TRUNCATED>"@)
        },
    ensures
        decoded_json(tuple@) is None ==> r@ == tuple_debug_text(tuple@),
        decoded_json(tuple@) == Some(JsonView::Array(items)) ==> match json_text(
            JsonView::Array(shown),
        ) {
            Some(text) => r@ == text,
            None => r@ == tuple_debug_text(tuple@),
        },
{
    if decoded_json(tuple@) == Some(JsonView::Array(items)) {
        assert(truncated(JsonView::Array(items)) =~= JsonView::Array(shown)) by {
            if items.len() > TRUNCATION_THRESHOLD_FOR_ARRAY {
                assert(items.take(TRUNCATION_THRESHOLD_FOR_ARRAY as int).push(
                    json_string("<TRUNCATED>"@),
                ) =~= shown);
            }
        }
    }
}

proof fn lemma_boundary_behind(head: Seq<char>, tail: Seq<char>)
    ensures
        is_char_boundary(encode_utf8(head + tail), encode_utf8(head).len() as int),
    decreases head.len(),
{
    let whole = head + tail;
    let bytes = encode_utf8(whole);
    encode_utf8_valid_utf8(whole);
    if head.len() > 0 {
        let first = encode_scalar(head[0] as u32);
        lemma_encode_joined(head, tail);
        encode_utf8_first_scalar(whole);
        assert(whole[0] == head[0]);
        assert(whole.drop_first() =~= head.drop_first() + tail);
        assert(pop_first_scalar(bytes) =~= encode_utf8(whole.drop_first()));
        assert(encode_utf8(head).len() == first.len() + encode_utf8(head.drop_first()).len());
        lemma_boundary_behind(head.drop_first(), tail);
    }
}

/// Wherever the threshold falls between two characters, the string can be cut there: what stands
/// before is shown, with the mark behind it.
pub proof fn law_string_is_cut_between_characters(
    head: Seq<char>,
    tail: Seq<char>,
    text: String,
    r: JsonDocument,
)
    requires
        text@ == head + tail,
        tail.len() > 0,
        encode_utf8(head).len() == TRUNCATION_THRESHOLD_FOR_STRING,
        call_ensures(truncate_document, (JsonDocument::Text(text),), r),
    ensures
        cuts_cleanly(text@),
        r matches JsonDocument::Text(shown) && shown@ == head + "<TRUNCATED>..."@,
{
    lemma_boundary_behind(head, tail);
    lemma_encode_joined(head, tail);
    encode_utf8_first_scalar(tail);
    encode_utf8_valid_utf8(tail);
    assert(encode_utf8(tail).len() > 0);
    assert(r@ is Text);
    assert(encode_utf8(text@).subrange(0, TRUNCATION_THRESHOLD_FOR_STRING as int) =~= encode_utf8(
        head,
    ));
    encode_utf8_decode_utf8(head);
}

} // verus!
