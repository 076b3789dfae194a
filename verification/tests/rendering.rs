use idf_parser::document::IDF;
use idf_parser::error::IdfError;
use serde_json::{Number, Value};

fn data_of(text: &str) -> String {
    IDF::new(Ok(text.as_bytes().to_vec())).unwrap().get_data().unwrap()
}

fn parsed(text: &str) -> Value {
    serde_json::from_str(text).unwrap()
}

fn assert_round_trip(text: &str) {
    let data = data_of(text);
    assert_eq!(parsed(&data), parsed(text), "data {} of text {}", data, text);
    assert_eq!(data_of(&data), data, "data of data differs for {}", text);
}

#[test]
fn object_with_nested_array_round_trips() {
    let text = "{\"a\": 1, \"b\": [true, null, \"x\"]}";
    let data = data_of(text);

    let mut expected = serde_json::Map::new();
    expected.insert("a".to_string(), Value::Number(Number::from(1u64)));
    expected.insert(
        "b".to_string(),
        Value::Array(vec![Value::Bool(true), Value::Null, Value::String("x".to_string())]),
    );
    assert_eq!(parsed(&data), Value::Object(expected));
    assert_eq!(data, "{\"a\":1,\"b\":[true,null,\"x\"]}");
}

#[test]
fn empty_array_round_trips() {
    let data = data_of("[]");
    assert_eq!(parsed(&data), Value::Array(Vec::new()));
    assert_eq!(data, "[]");
}

#[test]
fn well_formed_texts_round_trip() {
    assert_round_trip("null");
    assert_round_trip("  [ 1 , 2 ,\n 3 ]  ");
    assert_round_trip("{\"outer\": {\"inner\": {\"deep\": [[], {}, [{}]]}}}");
    assert_round_trip("\"line\\nbreak \\\"quoted\\\" back\\\\slash \\u0000 \\u00e9 \\ud83d\\ude00\"");
    assert_round_trip("{\"\": \"\", \"k\\tk\": \"caf\u{e9}\"}");
    assert_round_trip("[0, -0, 18446744073709551615, -9223372036854775808]");
    assert_round_trip("[18446744073709551616, -9223372036854775809, 1e308, -1E-308, 5e-324]");
    assert_round_trip("[0.1, 0.2, 0.30000000000000004, 3.141592653589793, 2.2250738585072014e-308]");
    assert_round_trip("[1.7976931348623157e308, 123456789012345678901234567890.125, 1.0, 100.0e-2]");
    assert_round_trip("{\"b\": 1, \"a\": 2, \"b\": 3}");
}

#[test]
fn whitespace_is_dropped_and_keys_are_sorted() {
    assert_eq!(data_of(" { \"b\" : [ 1 , 2 ] ,\n\t\"a\" : null } "), "{\"a\":null,\"b\":[1,2]}");
}

#[test]
fn the_last_of_equal_keys_is_kept() {
    assert_eq!(data_of("{\"k\": 1, \"k\": 2}"), "{\"k\":2}");
}

#[test]
fn numbers_keep_their_kind() {
    assert_eq!(data_of("[1, -1, 1.0, 1e2, -0, 0.5]"), "[1,-1,1.0,100.0,-0.0,0.5]");
}

#[test]
fn strings_are_escaped_in_the_data() {
    assert_eq!(data_of("\"a\\u0041\\n\\u001f\\/\""), "\"aA\\n\\u001f/\"");
}

#[test]
fn repeated_calls_give_the_same_data() {
    let document =
        IDF::new(Ok(b"{\"z\": [1.5, {\"y\": null}], \"a\": \"text\"}".to_vec())).unwrap();
    let first = document.get_data().unwrap();
    let second = document.get_data().unwrap();
    let third = document.get_data().unwrap();
    assert_eq!(first, "{\"a\":\"text\",\"z\":[1.5,{\"y\":null}]}");
    assert_eq!(first, second);
    assert_eq!(second, third);
}

#[test]
fn documents_with_equal_values_have_equal_data() {
    assert_eq!(data_of("{\"a\":1,\"b\":2}"), data_of("{ \"b\": 2,\n \"a\": 1 }"));
}

#[test]
fn data_from_printed_hands_the_text_on() {
    let printed = serde_json::to_string(&Value::Bool(false));
    assert_eq!(IDF::data_from_printed(printed).unwrap(), "false");
}

#[test]
fn data_from_printed_turns_the_printer_error_into_a_serialization_error() {
    let error = serde_json::from_str::<Value>("nul").unwrap_err();
    let expected = error.to_string();
    match IDF::data_from_printed(Err(error)) {
        Err(IdfError::Serialization(message)) => {
            assert_eq!(message, expected);
            assert_eq!(message, "EOF while parsing a value at line 1 column 3");
        }
        other => panic!("expected a serialization failure, got {:?}", other),
    }
}
