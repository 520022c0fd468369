use api::key_codec::{
    checked_decode_cursor, decode_cursor, encode_cursor, json_to_key, key_to_json, AttributeValue,
    DynamodbKeyCodec, JsonValue,
};

fn json_string(j: &JsonValue) -> Option<&str> {
    match j {
        JsonValue::String(s) => Some(s.as_str()),
        _ => None,
    }
}

#[test]
fn strings_and_numbers_become_json_strings() {
    let j = DynamodbKeyCodec::attribute_value_to_json(&AttributeValue::S("c1".to_string()));
    assert_eq!(json_string(&j), Some("c1"));
    let j = DynamodbKeyCodec::attribute_value_to_json(&AttributeValue::N("42".to_string()));
    assert_eq!(json_string(&j), Some("42"));
}

#[test]
fn booleans_lists_and_other_values() {
    let j = DynamodbKeyCodec::attribute_value_to_json(&AttributeValue::Bool(true));
    assert!(matches!(j, JsonValue::Bool(true)));
    let j = DynamodbKeyCodec::attribute_value_to_json(&AttributeValue::Null(true));
    assert!(matches!(j, JsonValue::Null));
    let j = DynamodbKeyCodec::attribute_value_to_json(&AttributeValue::Other);
    assert!(matches!(j, JsonValue::Null));
    let list = AttributeValue::L(vec![
        AttributeValue::S("a".to_string()),
        AttributeValue::L(vec![AttributeValue::Bool(false)]),
    ]);
    match DynamodbKeyCodec::attribute_value_to_json(&list) {
        JsonValue::Array(items) => {
            assert_eq!(items.len(), 2);
            assert_eq!(json_string(&items[0]), Some("a"));
            match &items[1] {
                JsonValue::Array(inner) => {
                    assert_eq!(inner.len(), 1);
                    assert!(matches!(inner[0], JsonValue::Bool(false)));
                }
                other => panic!("expected an array, got {other:?}"),
            }
        }
        other => panic!("expected an array, got {other:?}"),
    }
}

#[test]
fn json_values_become_attribute_values() {
    let a = DynamodbKeyCodec::json_to_attribute_value(&JsonValue::String("x".to_string()));
    assert!(matches!(a, AttributeValue::S(ref s) if s == "x"));
    let a = DynamodbKeyCodec::json_to_attribute_value(&JsonValue::Number("3.5".to_string()));
    assert!(matches!(a, AttributeValue::N(ref s) if s == "3.5"));
    let a = DynamodbKeyCodec::json_to_attribute_value(&JsonValue::Bool(false));
    assert!(matches!(a, AttributeValue::Bool(false)));
    let a = DynamodbKeyCodec::json_to_attribute_value(&JsonValue::Null);
    assert!(matches!(a, AttributeValue::Null(true)));
    let a = DynamodbKeyCodec::json_to_attribute_value(&JsonValue::Object);
    assert!(matches!(a, AttributeValue::Null(true)));
    let a = DynamodbKeyCodec::json_to_attribute_value(&JsonValue::Array(vec![
        JsonValue::String("y".to_string()),
        JsonValue::Number("1".to_string()),
    ]));
    match a {
        AttributeValue::L(items) => {
            assert_eq!(items.len(), 2);
            assert!(matches!(items[0], AttributeValue::S(ref s) if s == "y"));
            assert!(matches!(items[1], AttributeValue::N(ref s) if s == "1"));
        }
        other => panic!("expected a list, got {other:?}"),
    }
}

#[test]
fn plain_key_values_round_trip() {
    let value = AttributeValue::L(vec![
        AttributeValue::S("s".to_string()),
        AttributeValue::Bool(true),
        AttributeValue::Null(true),
        AttributeValue::L(vec![]),
    ]);
    let back = DynamodbKeyCodec::json_to_attribute_value(
        &DynamodbKeyCodec::attribute_value_to_json(&value),
    );
    assert_eq!(format!("{back:?}"), format!("{value:?}"));
}

#[test]
fn keys_convert_attribute_by_attribute() {
    let key = vec![
        ("pk".to_string(), AttributeValue::S("c1".to_string())),
        ("sk".to_string(), AttributeValue::S("q1".to_string())),
    ];
    let json = key_to_json(&key);
    assert_eq!(json.len(), 2);
    assert_eq!(json[0].0, "pk");
    assert_eq!(json_string(&json[0].1), Some("c1"));
    assert_eq!(json[1].0, "sk");
    let back = json_to_key(&json);
    assert_eq!(format!("{back:?}"), format!("{key:?}"));
}

#[test]
fn cursors_are_base64() {
    assert_eq!(
        encode_cursor(Some("{\"pk\":\"c1\"}".to_string())),
        Some("eyJwayI6ImMxIn0=".to_string())
    );
    assert_eq!(encode_cursor(None), None);
    assert_eq!(
        decode_cursor(Some("eyJwayI6ImMxIn0=".to_string())),
        Some(b"{\"pk\":\"c1\"}".to_vec())
    );
    assert_eq!(decode_cursor(None), None);
}

#[test]
fn invalid_cursors_are_caught_by_the_checked_decode() {
    assert_eq!(checked_decode_cursor(Some("not base64!".to_string())), None);
    assert_eq!(
        checked_decode_cursor(Some("eyJhIjoxfQ==".to_string())),
        Some(Some(b"{\"a\":1}".to_vec()))
    );
    assert_eq!(checked_decode_cursor(None), Some(None));
}
