use serde_json::Value;
use utilkit::error::{JsonError, JsonType};
use utilkit::json::{parse, value_or_parse_error, Convert, Extract};

fn doc(text: &str) -> Value {
    serde_json::from_str(text).unwrap()
}

fn sample() -> Value {
    doc(
        r#"{
            "name": "gateway",
            "ratio": 0.25,
            "count": 42,
            "offset": -7,
            "huge": 18446744073709551615,
            "edge": 9223372036854775807,
            "past_edge": 9223372036854775808,
            "on": true,
            "off": false,
            "inner": {"depth": 1, "leaf": "x"},
            "list": [1, 2, 3],
            "nothing": null,
            "": "empty key"
        }"#,
    )
}

#[test]
fn parse_reads_a_document() {
    let value = parse(r#"{"a": 1}"#).unwrap();
    assert_eq!(value, doc(r#"{"a":1}"#));
    assert_eq!(parse("17").unwrap(), doc("17"));
}

#[test]
fn parse_rejects_what_is_no_document() {
    assert_eq!(parse("{").unwrap_err(), JsonError::Parse);
    assert_eq!(parse("").unwrap_err(), JsonError::Parse);
    assert_eq!(parse("{} trailing").unwrap_err(), JsonError::Parse);
    assert_eq!(parse("{'a': 1}").unwrap_err(), JsonError::Parse);
}

#[test]
fn parser_answers_become_values_or_parse_errors() {
    let read = serde_json::from_str::<Value>(r#"{"a": [1, 2]}"#);
    assert_eq!(value_or_parse_error(read), Ok(doc(r#"{"a":[1,2]}"#)));
    let failed = serde_json::from_str::<Value>("[1, 2");
    assert_eq!(value_or_parse_error(failed), Err(JsonError::Parse));
}

#[test]
fn convert_map_of_an_object() {
    let value = doc(r#"{"depth": 1, "leaf": "x"}"#);
    let map = Convert::try_into_map(&value).unwrap();
    assert_eq!(map.len(), 2);
    assert_eq!(map.get("depth"), Some(&doc("1")));
    assert_eq!(map.get("leaf"), Some(&doc("\"x\"")));
}

#[test]
fn convert_map_of_anything_else() {
    for text in ["[1]", "\"s\"", "1", "1.5", "true", "null"] {
        assert_eq!(
            Convert::try_into_map(&doc(text)).unwrap_err(),
            JsonError::TypeMismatch(JsonType::Object)
        );
    }
}

#[test]
fn convert_str_of_a_string() {
    assert_eq!(Convert::try_into_str(&doc("\"gateway\"")), Ok("gateway"));
    assert_eq!(Convert::try_into_str(&doc("\"\"")), Ok(""));
    assert_eq!(Convert::try_into_str(&doc("\"杭州\"")), Ok("杭州"));
}

#[test]
fn convert_str_of_anything_else() {
    for text in ["{}", "[\"s\"]", "1", "1.5", "true", "null"] {
        assert_eq!(
            Convert::try_into_str(&doc(text)),
            Err(JsonError::TypeMismatch(JsonType::String))
        );
    }
}

#[test]
fn convert_f64_of_a_double() {
    let x = Convert::try_into_f64(&doc("30.29")).unwrap();
    assert_eq!(f64::from_bits(x.to_bits()), 30.29);
    let y = Convert::try_into_f64(&doc("-1e-3")).unwrap();
    assert_eq!(f64::from_bits(y.to_bits()), -0.001);
    assert_eq!(y.to_bits(), (-0.001f64).to_bits());
}

#[test]
fn convert_f64_of_an_integer() {
    let x = Convert::try_into_f64(&doc("42")).unwrap();
    assert_eq!(f64::from_bits(x.to_bits()), 42.0);
    let y = Convert::try_into_f64(&doc("-7")).unwrap();
    assert_eq!(f64::from_bits(y.to_bits()), -7.0);
    let z = Convert::try_into_f64(&doc("18446744073709551615")).unwrap();
    assert_eq!(f64::from_bits(z.to_bits()), 18446744073709551615u64 as f64);
}

#[test]
fn convert_f64_of_anything_else() {
    for text in ["{}", "[1.5]", "\"1.5\"", "true", "null"] {
        assert_eq!(
            Convert::try_into_f64(&doc(text)).unwrap_err(),
            JsonError::TypeMismatch(JsonType::Float)
        );
    }
}

#[test]
fn convert_u64_of_an_unsigned_integer() {
    assert_eq!(Convert::try_into_u64(&doc("0")), Ok(0));
    assert_eq!(Convert::try_into_u64(&doc("42")), Ok(42));
    assert_eq!(Convert::try_into_u64(&doc("18446744073709551615")), Ok(u64::MAX));
}

#[test]
fn convert_u64_of_anything_else() {
    for text in ["-1", "1.0", "1.5", "\"1\"", "true", "null", "[1]", "{}"] {
        assert_eq!(
            Convert::try_into_u64(&doc(text)),
            Err(JsonError::TypeMismatch(JsonType::U64))
        );
    }
}

#[test]
fn convert_i64_of_an_integer() {
    assert_eq!(Convert::try_into_i64(&doc("0")), Ok(0));
    assert_eq!(Convert::try_into_i64(&doc("-7")), Ok(-7));
    assert_eq!(Convert::try_into_i64(&doc("9223372036854775807")), Ok(i64::MAX));
    assert_eq!(Convert::try_into_i64(&doc("-9223372036854775808")), Ok(i64::MIN));
}

#[test]
fn convert_i64_of_anything_else() {
    for text in ["9223372036854775808", "1.0", "-1.5", "\"1\"", "true", "null", "[1]", "{}"] {
        assert_eq!(
            Convert::try_into_i64(&doc(text)),
            Err(JsonError::TypeMismatch(JsonType::I64))
        );
    }
}

#[test]
fn convert_bool_of_a_boolean() {
    assert_eq!(Convert::try_into_bool(&doc("true")), Ok(true));
    assert_eq!(Convert::try_into_bool(&doc("false")), Ok(false));
}

#[test]
fn convert_bool_of_anything_else() {
    for text in ["0", "1", "\"true\"", "null", "[true]", "{}"] {
        assert_eq!(
            Convert::try_into_bool(&doc(text)),
            Err(JsonError::TypeMismatch(JsonType::Bool))
        );
    }
}

#[test]
fn extract_returns_a_field_of_the_matching_type() {
    let value = sample();
    assert_eq!(Extract::get_str(&value, "name"), Ok("gateway"));
    assert_eq!(Extract::get_str(&value, ""), Ok("empty key"));
    assert_eq!(Extract::get_u64(&value, "count"), Ok(42));
    assert_eq!(Extract::get_u64(&value, "huge"), Ok(u64::MAX));
    assert_eq!(Extract::get_i64(&value, "offset"), Ok(-7));
    assert_eq!(Extract::get_i64(&value, "count"), Ok(42));
    assert_eq!(Extract::get_i64(&value, "edge"), Ok(i64::MAX));
    assert_eq!(Extract::get_bool(&value, "on"), Ok(true));
    assert_eq!(Extract::get_bool(&value, "off"), Ok(false));
    let ratio = Extract::get_f64(&value, "ratio").unwrap();
    assert_eq!(f64::from_bits(ratio.to_bits()), 0.25);
    let count = Extract::get_f64(&value, "count").unwrap();
    assert_eq!(f64::from_bits(count.to_bits()), 42.0);
    let inner = Extract::get_map(&value, "inner").unwrap();
    assert_eq!(inner.len(), 2);
    assert_eq!(inner.get("depth"), Some(&doc("1")));
    assert_eq!(inner.get("leaf"), Some(&doc("\"x\"")));
}

#[test]
fn extract_reports_an_absent_field_as_missing() {
    let value = sample();
    assert_eq!(Extract::get_map(&value, "absent").unwrap_err(), JsonError::MissingField);
    assert_eq!(Extract::get_str(&value, "absent"), Err(JsonError::MissingField));
    assert_eq!(Extract::get_f64(&value, "absent").unwrap_err(), JsonError::MissingField);
    assert_eq!(Extract::get_u64(&value, "absent"), Err(JsonError::MissingField));
    assert_eq!(Extract::get_i64(&value, "absent"), Err(JsonError::MissingField));
    assert_eq!(Extract::get_bool(&value, "absent"), Err(JsonError::MissingField));
}

#[test]
fn extract_is_exact_about_the_key() {
    let value = sample();
    assert_eq!(Extract::get_str(&value, "Name"), Err(JsonError::MissingField));
    assert_eq!(Extract::get_str(&value, "name "), Err(JsonError::MissingField));
    assert_eq!(Extract::get_u64(&value, "depth"), Err(JsonError::MissingField));
}

#[test]
fn extract_reports_a_field_of_another_type_as_mismatch() {
    let value = sample();
    assert_eq!(
        Extract::get_map(&value, "name").unwrap_err(),
        JsonError::TypeMismatch(JsonType::Object)
    );
    assert_eq!(
        Extract::get_map(&value, "list").unwrap_err(),
        JsonError::TypeMismatch(JsonType::Object)
    );
    assert_eq!(
        Extract::get_str(&value, "count"),
        Err(JsonError::TypeMismatch(JsonType::String))
    );
    assert_eq!(
        Extract::get_str(&value, "nothing"),
        Err(JsonError::TypeMismatch(JsonType::String))
    );
    assert_eq!(
        Extract::get_f64(&value, "name").unwrap_err(),
        JsonError::TypeMismatch(JsonType::Float)
    );
    assert_eq!(
        Extract::get_u64(&value, "offset"),
        Err(JsonError::TypeMismatch(JsonType::U64))
    );
    assert_eq!(
        Extract::get_u64(&value, "ratio"),
        Err(JsonError::TypeMismatch(JsonType::U64))
    );
    assert_eq!(
        Extract::get_i64(&value, "past_edge"),
        Err(JsonError::TypeMismatch(JsonType::I64))
    );
    assert_eq!(
        Extract::get_i64(&value, "ratio"),
        Err(JsonError::TypeMismatch(JsonType::I64))
    );
    assert_eq!(
        Extract::get_bool(&value, "count"),
        Err(JsonError::TypeMismatch(JsonType::Bool))
    );
}

#[test]
fn extract_from_what_is_no_object_finds_nothing() {
    for text in ["[{\"name\": 1}]", "\"name\"", "1", "true", "null"] {
        let value = doc(text);
        assert_eq!(Extract::get_str(&value, "name"), Err(JsonError::MissingField));
        assert_eq!(Extract::get_u64(&value, "0"), Err(JsonError::MissingField));
    }
}

#[test]
fn extract_does_not_change_the_value() {
    let value = sample();
    let before = value.clone();
    let _ = Extract::get_str(&value, "name");
    let _ = Extract::get_u64(&value, "absent");
    let _ = Extract::get_bool(&value, "count");
    assert_eq!(value, before);
}

#[test]
fn messages_tell_the_failures_apart() {
    assert_eq!(JsonError::MissingField.message(), "缺失必要字段.");
    assert_eq!(JsonError::TypeMismatch(JsonType::Object).message(), "字段类型错误,应为对象.");
    assert_eq!(JsonError::TypeMismatch(JsonType::String).message(), "字段类型错误, 应为字符串.");
    assert_eq!(JsonError::TypeMismatch(JsonType::Float).message(), "字段类型错误, 应为浮点数.");
    assert_eq!(JsonError::TypeMismatch(JsonType::U64).message(), "字段类型错误, 应为无符号整数.");
    assert_eq!(JsonError::TypeMismatch(JsonType::I64).message(), "字段类型错误, 应为有符号整数.");
    assert_eq!(JsonError::TypeMismatch(JsonType::Bool).message(), "字段类型错误, 应为布尔值.");
    assert_eq!(JsonError::Parse.message(), "JSON 格式错误.");
}
