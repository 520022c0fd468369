//! Pagination cursors: the last key DynamoDB evaluated, written as JSON and then as base64.
//! This module converts key values to JSON values and back, and wraps the base64 coding;
//! the JSON text itself is written and read by the caller.

use vstd::prelude::*;
use base64::Engine;

verus! {

/// A DynamoDB attribute value of a key, as far as the cursor codec reads it.
#[derive(Debug)]
pub enum AttributeValue {
    S(String),
    N(String),
    Bool(bool),
    L(Vec<AttributeValue>),
    Null(bool),
    /// Any other kind of value (binary data, sets, maps).
    Other,
}

/// A JSON value, as far as the cursor codec reads it.
#[derive(Debug)]
pub enum JsonValue {
    Null,
    Bool(bool),
    /// A number, by its text.
    Number(String),
    String(String),
    Array(Vec<JsonValue>),
    /// An object; the codec does not read its members.
    Object,
}

/// Mathematical model of an `AttributeValue`.
pub enum AttributeValueView {
    S(Seq<char>),
    N(Seq<char>),
    Bool(bool),
    L(Seq<AttributeValueView>),
    Null(bool),
    Other,
}

/// Mathematical model of a `JsonValue`.
pub enum JsonValueView {
    Null,
    Bool(bool),
    Number(Seq<char>),
    String(Seq<char>),
    Array(Seq<JsonValueView>),
    Object,
}

pub open spec fn attribute_view(a: AttributeValue) -> AttributeValueView
    decreases a,
{
    match a {
        AttributeValue::S(s) => AttributeValueView::S(s@),
        AttributeValue::N(n) => AttributeValueView::N(n@),
        AttributeValue::Bool(b) => AttributeValueView::Bool(b),
        AttributeValue::L(l) => AttributeValueView::L(
            Seq::new(
                l@.len(),
                |i: int|
                    if 0 <= i < l@.len() {
                        attribute_view(l@[i])
                    } else {
                        AttributeValueView::Other
                    },
            ),
        ),
        AttributeValue::Null(b) => AttributeValueView::Null(b),
        AttributeValue::Other => AttributeValueView::Other,
    }
}

pub open spec fn json_view(j: JsonValue) -> JsonValueView
    decreases j,
{
    match j {
        JsonValue::Null => JsonValueView::Null,
        JsonValue::Bool(b) => JsonValueView::Bool(b),
        JsonValue::Number(n) => JsonValueView::Number(n@),
        JsonValue::String(s) => JsonValueView::String(s@),
        JsonValue::Array(l) => JsonValueView::Array(
            Seq::new(
                l@.len(),
                |i: int|
                    if 0 <= i < l@.len() {
                        json_view(l@[i])
                    } else {
                        JsonValueView::Null
                    },
            ),
        ),
        JsonValue::Object => JsonValueView::Object,
    }
}

/// The JSON value that stands for a key value: strings and numbers become JSON strings,
/// booleans stay booleans, lists become arrays of their items' values, anything else null.
pub open spec fn json_of_attribute(a: AttributeValueView) -> JsonValueView
    decreases a,
{
    match a {
        AttributeValueView::S(s) => JsonValueView::String(s),
        AttributeValueView::N(n) => JsonValueView::String(n),
        AttributeValueView::Bool(b) => JsonValueView::Bool(b),
        AttributeValueView::L(l) => JsonValueView::Array(
            Seq::new(
                l.len(),
                |i: int|
                    if 0 <= i < l.len() {
                        json_of_attribute(l[i])
                    } else {
                        JsonValueView::Null
                    },
            ),
        ),
        _ => JsonValueView::Null,
    }
}

/// The key value that a JSON value stands for: strings become strings, numbers become
/// numbers with the same text, booleans stay booleans, arrays become lists, anything else
/// the null value.
pub open spec fn attribute_of_json(j: JsonValueView) -> AttributeValueView
    decreases j,
{
    match j {
        JsonValueView::String(s) => AttributeValueView::S(s),
        JsonValueView::Number(n) => AttributeValueView::N(n),
        JsonValueView::Bool(b) => AttributeValueView::Bool(b),
        JsonValueView::Array(l) => AttributeValueView::L(
            Seq::new(
                l.len(),
                |i: int|
                    if 0 <= i < l.len() {
                        attribute_of_json(l[i])
                    } else {
                        AttributeValueView::Other
                    },
            ),
        ),
        _ => AttributeValueView::Null(true),
    }
}

/// Codec of the pagination cursors of DynamoDB queries.
pub struct DynamodbKeyCodec {}

impl DynamodbKeyCodec {
    /// The JSON value that stands for a key value.
    pub fn attribute_value_to_json(attr: &AttributeValue) -> (j: JsonValue)
        ensures
            json_view(j) == json_of_attribute(attribute_view(*attr)),
        decreases attr,
    {
        match attr {
            AttributeValue::S(s) => JsonValue::String(s.clone()),
            AttributeValue::N(n) => JsonValue::String(n.clone()),
            AttributeValue::Bool(b) => JsonValue::Bool(*b),
            AttributeValue::L(list) => {
                let mut out: Vec<JsonValue> = Vec::new();
                let mut i: usize = 0;
                while i < list.len()
                    invariant
                        *attr == AttributeValue::L(*list),
                        i <= list.len(),
                        out.len() == i,
                        forall|k: int|
                            0 <= k < i ==> json_view(#[trigger] out@[k]) == json_of_attribute(
                                attribute_view(list@[k]),
                            ),
                    decreases list.len() - i,
                {
                    proof {
                        assert(decreases_to!(*attr => (*attr)->L_0));
                        assert(decreases_to!(*list => list@));
                        assert(decreases_to!(list@ => list@[i as int]));
                    }
                    let item = Self::attribute_value_to_json(&list[i]);
                    out.push(item);
                    i = i + 1;
                }
                let j = JsonValue::Array(out);
                proof {
                    let lhs = json_view(j);
                    let rhs = json_of_attribute(attribute_view(*attr));
                    assert(lhs->Array_0 =~= rhs->Array_0);
                }
                j
            },
            _ => JsonValue::Null,
        }
    }

    /// The key value that a JSON value stands for.
    pub fn json_to_attribute_value(json: &JsonValue) -> (a: AttributeValue)
        ensures
            attribute_view(a) == attribute_of_json(json_view(*json)),
        decreases json,
    {
        match json {
            JsonValue::String(s) => AttributeValue::S(s.clone()),
            JsonValue::Number(n) => AttributeValue::N(n.clone()),
            JsonValue::Bool(b) => AttributeValue::Bool(*b),
            JsonValue::Array(list) => {
                let mut out: Vec<AttributeValue> = Vec::new();
                let mut i: usize = 0;
                while i < list.len()
                    invariant
                        *json == JsonValue::Array(*list),
                        i <= list.len(),
                        out.len() == i,
                        forall|k: int|
                            0 <= k < i ==> attribute_view(#[trigger] out@[k]) == attribute_of_json(
                                json_view(list@[k]),
                            ),
                    decreases list.len() - i,
                {
                    proof {
                        assert(decreases_to!(*json => (*json)->Array_0));
                        assert(decreases_to!(*list => list@));
                        assert(decreases_to!(list@ => list@[i as int]));
                    }
                    let item = Self::json_to_attribute_value(&list[i]);
                    out.push(item);
                    i = i + 1;
                }
                let a = AttributeValue::L(out);
                proof {
                    let lhs = attribute_view(a);
                    let rhs = attribute_of_json(json_view(*json));
                    assert(lhs->L_0 =~= rhs->L_0);
                }
                a
            },
            _ => AttributeValue::Null(true),
        }
    }
}

/// A key value made only of strings, booleans, true nulls and lists of such values.
pub open spec fn is_plain_attribute(a: AttributeValueView) -> bool
    decreases a,
{
    match a {
        AttributeValueView::S(_) => true,
        AttributeValueView::Bool(_) => true,
        AttributeValueView::Null(b) => b,
        AttributeValueView::L(l) => forall|i: int|
            0 <= i < l.len() ==> is_plain_attribute(#[trigger] l[i]),
        _ => false,
    }
}

/// A JSON value made only of nulls, booleans, strings and arrays of such values.
pub open spec fn is_plain_json(j: JsonValueView) -> bool
    decreases j,
{
    match j {
        JsonValueView::Null => true,
        JsonValueView::Bool(_) => true,
        JsonValueView::String(_) => true,
        JsonValueView::Array(l) => forall|i: int| 0 <= i < l.len() ==> is_plain_json(#[trigger] l[i]),
        _ => false,
    }
}

/// A key value made of strings, booleans, true nulls and lists comes back unchanged from
/// its JSON value.
pub proof fn lemma_attribute_json_round_trip(a: AttributeValueView)
    requires
        is_plain_attribute(a),
    ensures
        attribute_of_json(json_of_attribute(a)) == a,
    decreases a,
{
    if let AttributeValueView::L(l) = a {
        assert forall|i: int| 0 <= i < l.len() implies attribute_of_json(json_of_attribute(l[i]))
            == l[i] by {
            lemma_attribute_json_round_trip(l[i]);
        }
        assert(attribute_of_json(json_of_attribute(a))->L_0 =~= l);
    }
}

/// A JSON value made of nulls, booleans, strings and arrays comes back unchanged from the
/// key value it stands for.
pub proof fn lemma_json_attribute_round_trip(j: JsonValueView)
    requires
        is_plain_json(j),
    ensures
        json_of_attribute(attribute_of_json(j)) == j,
    decreases j,
{
    if let JsonValueView::Array(l) = j {
        assert forall|i: int| 0 <= i < l.len() implies json_of_attribute(attribute_of_json(l[i]))
            == l[i] by {
            lemma_json_attribute_round_trip(l[i]);
        }
        assert(json_of_attribute(attribute_of_json(j))->Array_0 =~= l);
    }
}

/// The JSON values of the attributes of a key, each under the attribute's name.
pub fn key_to_json(key: &Vec<(String, AttributeValue)>) -> (json: Vec<(String, JsonValue)>)
    ensures
        json.len() == key.len(),
        forall|i: int|
            0 <= i < key.len() ==> (#[trigger] json@[i]).0@ == key@[i].0@ && json_view(json@[i].1)
                == json_of_attribute(attribute_view(key@[i].1)),
{
    let mut json: Vec<(String, JsonValue)> = Vec::new();
    let mut i: usize = 0;
    while i < key.len()
        invariant
            i <= key.len(),
            json.len() == i,
            forall|k: int|
                0 <= k < i ==> (#[trigger] json@[k]).0@ == key@[k].0@ && json_view(json@[k].1)
                    == json_of_attribute(attribute_view(key@[k].1)),
        decreases key.len() - i,
    {
        let name = key[i].0.clone();
        let value = DynamodbKeyCodec::attribute_value_to_json(&key[i].1);
        json.push((name, value));
        i = i + 1;
    }
    json
}

/// The attributes of a key, from the JSON values under their names.
pub fn json_to_key(json: &Vec<(String, JsonValue)>) -> (key: Vec<(String, AttributeValue)>)
    ensures
        key.len() == json.len(),
        forall|i: int|
            0 <= i < json.len() ==> (#[trigger] key@[i]).0@ == json@[i].0@ && attribute_view(
                key@[i].1,
            ) == attribute_of_json(json_view(json@[i].1)),
{
    let mut key: Vec<(String, AttributeValue)> = Vec::new();
    let mut i: usize = 0;
    while i < json.len()
        invariant
            i <= json.len(),
            key.len() == i,
            forall|k: int|
                0 <= k < i ==> (#[trigger] key@[k]).0@ == json@[k].0@ && attribute_view(key@[k].1)
                    == attribute_of_json(json_view(json@[k].1)),
        decreases json.len() - i,
    {
        let name = json[i].0.clone();
        let value = DynamodbKeyCodec::json_to_attribute_value(&json[i].1);
        key.push((name, value));
        i = i + 1;
    }
    key
}

/// The standard base64 encoding (with padding) of the UTF-8 bytes of a text.
pub uninterp spec fn base64_standard_encoding(text: Seq<char>) -> Seq<char>;

/// The bytes that a text decodes to under the standard base64 alphabet with padding, or
/// `None` when the text is no such encoding.
pub uninterp spec fn base64_standard_decoding(text: Seq<char>) -> Option<Seq<u8>>;

pub open spec fn opt_bytes_view(bytes: Option<Vec<u8>>) -> Option<Seq<u8>> {
    match bytes {
        Some(b) => Some(b@),
        None => None,
    }
}

/// Calls `Engine::encode` of `base64::engine::general_purpose::STANDARD` on the text's
/// bytes. The result is named `base64_standard_encoding` of the text; nothing more is
/// claimed of it.
#[verifier::external_body]
fn base64_encode(text: &str) -> (encoded: String)
    ensures
        encoded@ == base64_standard_encoding(text@),
{
    base64::engine::general_purpose::STANDARD.encode(text)
}

/// Calls `Engine::decode` of `base64::engine::general_purpose::STANDARD` on the text's
/// bytes; an error becomes `None`. The result is named `base64_standard_decoding` of the
/// text; nothing more is claimed of it.
#[verifier::external_body]
fn base64_decode(text: &str) -> (decoded: Option<Vec<u8>>)
    ensures
        opt_bytes_view(decoded) == base64_standard_decoding(text@),
{
    base64::engine::general_purpose::STANDARD.decode(text).ok()
}

/// The cursor handed to clients for the JSON text of the last evaluated key: its base64
/// encoding. No key gives no cursor.
pub fn encode_cursor(json_text: Option<String>) -> (cursor: Option<String>)
    ensures
        match json_text {
            Some(t) => cursor matches Some(c) && c@ == base64_standard_encoding(t@),
            None => cursor is None,
        },
{
    match json_text {
        Some(t) => Some(base64_encode(t.as_str())),
        None => None,
    }
}

/// The JSON text of the key that a client's cursor carries. No cursor gives no key. The
/// cursor must be valid base64.
pub fn decode_cursor(cursor: Option<String>) -> (json_bytes: Option<Vec<u8>>)
    requires
        cursor matches Some(c) ==> base64_standard_decoding(c@) is Some,
    ensures
        match cursor {
            Some(c) => opt_bytes_view(json_bytes) == base64_standard_decoding(c@),
            None => json_bytes is None,
        },
{
    match cursor {
        Some(c) => base64_decode(c.as_str()),
        None => None,
    }
}

/// `decode_cursor` on any cursor: `None` when the cursor is not valid base64, else what
/// `decode_cursor` gives.
pub fn checked_decode_cursor(cursor: Option<String>) -> (r: Option<Option<Vec<u8>>>)
    ensures
        match cursor {
            Some(c) => match base64_standard_decoding(c@) {
                Some(b) => r matches Some(Some(v)) && v@ == b,
                None => r is None,
            },
            None => r == Some(Option::<Vec<u8>>::None),
        },
{
    match cursor {
        Some(c) => {
            let probe = base64_decode(c.as_str());
            if probe.is_none() {
                None
            } else {
                Some(decode_cursor(Some(c)))
            }
        },
        None => Some(decode_cursor(None)),
    }
}

} // verus!
