use wiki::decode;
use wiki::{Error, Json};

fn text(s: &str) -> Json {
    Json::String(String::from(s))
}

fn object(members: Vec<(&str, Json)>) -> Json {
    Json::Object(members.into_iter().map(|(name, value)| (String::from(name), value)).collect())
}

#[test]
fn decode_reads_the_simple_values() {
    assert_eq!(decode("null"), Ok(Json::Null));
    assert_eq!(decode("true"), Ok(Json::Bool(true)));
    assert_eq!(decode("false"), Ok(Json::Bool(false)));
    assert_eq!(decode("\"hi\""), Ok(text("hi")));
    assert_eq!(decode("  12  "), Ok(Json::Number(Some(12))));
}

#[test]
fn decode_reads_integers_within_i64() {
    assert_eq!(decode("0"), Ok(Json::Number(Some(0))));
    assert_eq!(decode("-1"), Ok(Json::Number(Some(-1))));
    assert_eq!(decode("9223372036854775807"), Ok(Json::Number(Some(i64::MAX))));
    assert_eq!(decode("-9223372036854775808"), Ok(Json::Number(Some(i64::MIN))));
}

#[test]
fn decode_keeps_no_value_for_other_numbers() {
    assert_eq!(decode("9223372036854775808"), Ok(Json::Number(None)));
    assert_eq!(decode("18446744073709551615"), Ok(Json::Number(None)));
    assert_eq!(decode("1.5"), Ok(Json::Number(None)));
    assert_eq!(decode("1.0"), Ok(Json::Number(None)));
    assert_eq!(decode("1e3"), Ok(Json::Number(None)));
    assert_eq!(decode("-0.0"), Ok(Json::Number(None)));
}

#[test]
fn decode_reads_strings_with_escapes() {
    assert_eq!(decode("\"a\\n\\\"b\\\" \\u00e9 \\ud83e\\udd80\""), Ok(text("a\n\"b\" \u{e9} \u{1f980}")));
    assert_eq!(decode("\"\u{4e2d}\u{6587}\""), Ok(text("\u{4e2d}\u{6587}")));
}

#[test]
fn decode_reads_arrays_in_order() {
    assert_eq!(decode("[]"), Ok(Json::Array(vec![])));
    assert_eq!(
        decode("[1, \"two\", [3], null]"),
        Ok(Json::Array(vec![
            Json::Number(Some(1)),
            text("two"),
            Json::Array(vec![Json::Number(Some(3))]),
            Json::Null,
        ]))
    );
}

#[test]
fn decode_reads_objects() {
    assert_eq!(decode("{}"), Ok(object(vec![])));
    assert_eq!(
        decode("{\"a\": {\"b\": [true]}}"),
        Ok(object(vec![("a", object(vec![("b", Json::Array(vec![Json::Bool(true)]))]))]))
    );
}

#[test]
fn decoded_object_answers_for_each_of_its_names() {
    let value = decode("{\"title\": \"T\", \"pageid\": 5, \"extract\": \"E\"}").unwrap();
    assert_eq!(value.get("pageid"), Some(&Json::Number(Some(5))));
    assert_eq!(value.get("title"), Some(&text("T")));
    assert_eq!(value.get("extract"), Some(&text("E")));
    assert_eq!(value.get("other"), None);
    match value {
        Json::Object(members) => assert_eq!(members.len(), 3),
        other => panic!("not an object: {:?}", other),
    }
}

#[test]
fn decoded_object_keeps_the_last_of_a_repeated_name() {
    let value = decode("{\"k\": 1, \"k\": 2}").unwrap();
    assert_eq!(value, object(vec![("k", Json::Number(Some(2)))]));
}

#[test]
fn decode_refuses_what_is_not_json() {
    for body in ["<html>error</html>", "", "   ", "{", "[1,]", "{\"a\":}", "nul", "'a'", "{\"a\":1} x", "1 2"].iter() {
        match decode(body) {
            Err(Error::Decode(message)) => assert!(!message.is_empty()),
            other => panic!("{:?} was decoded as {:?}", body, other),
        }
    }
}

#[test]
fn decode_reports_the_decoder_s_message() {
    assert_eq!(
        decode("<html>error</html>"),
        Err(Error::Decode(String::from("expected value at line 1 column 1")))
    );
    assert_eq!(
        decode(""),
        Err(Error::Decode(String::from("EOF while parsing a value at line 1 column 0")))
    );
}
