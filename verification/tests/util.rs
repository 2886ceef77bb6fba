use x_api_client::models::common::ReplySettings;
use x_api_client::models::media::MediaType;
use x_api_client::models::space::SpaceState;
use x_api_client::models::tweet::ReferenceType;
use x_api_client::models::user::VerifiedType;
use x_api_client::util::serde_helpers::{
    bool_from_text, deserialize_flexible_bool, deserialize_flexible_id,
    deserialize_flexible_number, deserialize_null_as_empty_vec,
    deserialize_optional_flexible_bool, deserialize_optional_flexible_id,
    deserialize_optional_flexible_number, deserialize_optional_string, FlexNumber, FlexValue,
};
use x_api_client::util::number::{parse_u64, ParsedNumber};
use x_api_client::util::text::{
    concat2, concat3, contains_char, i64_to_decimal, is_blank, is_whitespace, same_text,
    starts_with, u64_to_decimal,
};

fn number(value: &serde_json::Number) -> FlexValue {
    FlexValue::Number(FlexNumber {
        text: value.to_string(),
        as_i64: value.as_i64(),
        as_u64: value.as_u64(),
    })
}

fn flex(json: &str) -> FlexValue {
    match serde_json::from_str::<serde_json::Value>(json).unwrap() {
        serde_json::Value::Null => FlexValue::Null,
        serde_json::Value::Bool(b) => FlexValue::Bool(b),
        serde_json::Value::Number(n) => number(&n),
        serde_json::Value::String(s) => FlexValue::Text(s),
        other => FlexValue::Other(format!("{:?}", other)),
    }
}

fn field(json: &str, name: &str) -> FlexValue {
    let object = serde_json::from_str::<serde_json::Value>(json).unwrap();
    match object.get(name).unwrap().clone() {
        serde_json::Value::Null => FlexValue::Null,
        serde_json::Value::Bool(b) => FlexValue::Bool(b),
        serde_json::Value::Number(n) => number(&n),
        serde_json::Value::String(s) => FlexValue::Text(s),
        other => FlexValue::Other(format!("{:?}", other)),
    }
}

#[test]
fn test_flexible_id_string() {
    let json = r#"{"id": "1234567890"}"#;
    let result = deserialize_flexible_id(field(json, "id")).unwrap();
    assert_eq!(result, "1234567890");
}

#[test]
fn test_flexible_id_number() {
    let json = r#"{"id": 1234567890}"#;
    let result = deserialize_flexible_id(field(json, "id")).unwrap();
    assert_eq!(result, "1234567890");
}

#[test]
fn test_flexible_bool_from_bool() {
    let json = r#"{"flag": true}"#;
    let result = deserialize_flexible_bool(field(json, "flag")).unwrap();
    assert!(result);
}

#[test]
fn test_flexible_bool_from_string() {
    let json = r#"{"flag": "true"}"#;
    let result = deserialize_flexible_bool(field(json, "flag")).unwrap();
    assert!(result);

    let json = r#"{"flag": "false"}"#;
    let result = deserialize_flexible_bool(field(json, "flag")).unwrap();
    assert!(!result);
}

#[test]
fn test_optional_string_empty() {
    let text = |json: &str| match field(json, "value") {
        FlexValue::Text(s) => Some(s),
        _ => None,
    };

    let json = r#"{"value": ""}"#;
    let result = deserialize_optional_string(text(json));
    assert!(result.is_none());

    let json = r#"{"value": "   "}"#;
    let result = deserialize_optional_string(text(json));
    assert!(result.is_none());

    let json = r#"{"value": "actual value"}"#;
    let result = deserialize_optional_string(text(json));
    assert_eq!(result, Some("actual value".to_string()));
}

#[test]
fn test_flexible_number_string() {
    let json = r#"{"count": "42"}"#;
    let result = deserialize_flexible_number(field(json, "count")).unwrap();
    assert_eq!(result, 42);
}

#[test]
fn test_flexible_number_actual() {
    let json = r#"{"count": 42}"#;
    let result = deserialize_flexible_number(field(json, "count")).unwrap();
    assert_eq!(result, 42);
}

#[test]
fn test_null_as_empty_vec() {
    let items = |json: &str| {
        let object = serde_json::from_str::<serde_json::Value>(json).unwrap();
        object.get("items").unwrap().as_array().map(|list| {
            list.iter()
                .map(|item| item.as_str().unwrap().to_string())
                .collect::<Vec<String>>()
        })
    };

    let json = r#"{"items": null}"#;
    let result = deserialize_null_as_empty_vec(items(json));
    assert_eq!(result.len(), 0);

    let json = r#"{"items": ["a", "b"]}"#;
    let result = deserialize_null_as_empty_vec(items(json));
    assert_eq!(result.len(), 2);
}

#[test]
fn decimal_text_matches_the_standard_library() {
    for n in [0u64, 1, 9, 10, 11, 99, 100, 101, 280, 281, 65_535, u64::MAX - 1, u64::MAX] {
        assert_eq!(u64_to_decimal(n), n.to_string());
    }
    for n in [0i64, 1, -1, 42, -42, i64::MAX, i64::MIN, i64::MIN + 1] {
        assert_eq!(i64_to_decimal(n), n.to_string());
    }
}

#[test]
fn prefix_and_equality_match_the_standard_library() {
    let texts = ["", "a", "ab", "abc", "b", "/2/tweets", "/2/tweets/", "é", "éa", "e"];
    for a in texts {
        for b in texts {
            assert_eq!(starts_with(a, b), a.starts_with(b), "{:?} {:?}", a, b);
            assert_eq!(same_text(a, b), a == b);
        }
        assert_eq!(contains_char(a, 'a'), a.contains('a'));
        assert_eq!(contains_char(a, 'é'), a.contains('é'));
    }
    assert_eq!(concat2("ab", "cd"), "abcd");
    assert_eq!(concat3("a", "", "é"), "aé");
}

#[test]
fn whitespace_matches_the_standard_library() {
    for code in 0..=0x10FFFFu32 {
        if let Some(c) = char::from_u32(code) {
            assert_eq!(is_whitespace(c), c.is_whitespace(), "U+{:04X}", code);
        }
    }
    for text in ["", " ", "\t\n", " a ", "\u{3000}", "\u{200B}", "x"] {
        assert_eq!(is_blank(text), text.trim().is_empty(), "{:?}", text);
    }
}

#[test]
fn number_parsing_matches_the_standard_library() {
    let texts = [
        "",
        "0",
        "7",
        "+7",
        "+",
        "-",
        "-7",
        "++7",
        "007",
        "12a",
        "a12",
        " 12",
        "12 ",
        "1.5",
        "18446744073709551615",
        "18446744073709551616",
        "18446744073709551620",
        "99999999999999999999",
        "99999999999999999999x",
        "9x9999999999999999999999",
        "+18446744073709551615",
        "０",
        "١٢",
    ];
    for text in texts {
        let expected = match text.parse::<u64>() {
            Ok(v) => ParsedNumber::Value(v),
            Err(e) => match e.to_string().as_str() {
                "cannot parse integer from empty string" => ParsedNumber::Empty,
                "invalid digit found in string" => ParsedNumber::InvalidDigit,
                "number too large to fit in target type" => ParsedNumber::TooLarge,
                other => panic!("unexpected error {}", other),
            },
        };
        assert_eq!(parse_u64(text), expected, "{:?}", text);
    }
}

#[test]
fn flexible_id_reads_strings_and_numbers() {
    assert_eq!(deserialize_flexible_id(flex("\"123456789\"")), Ok("123456789".to_string()));
    assert_eq!(deserialize_flexible_id(flex("123456789")), Ok("123456789".to_string()));
    assert_eq!(deserialize_flexible_id(flex("-5")), Ok("-5".to_string()));
    assert_eq!(
        deserialize_flexible_id(flex("true")),
        Err("expected string or number for ID, got Bool(true)".to_string())
    );
    assert_eq!(
        deserialize_flexible_id(flex("null")),
        Err("expected string or number for ID, got Null".to_string())
    );
    assert_eq!(
        deserialize_flexible_id(flex("[1]")),
        Err("expected string or number for ID, got Array [Number(1)]".to_string())
    );
}

#[test]
fn optional_flexible_id_reads_null_and_missing() {
    assert_eq!(deserialize_optional_flexible_id(None), Ok(None));
    assert_eq!(deserialize_optional_flexible_id(Some(flex("null"))), Ok(None));
    assert_eq!(
        deserialize_optional_flexible_id(Some(flex("\"9\""))),
        Ok(Some("9".to_string()))
    );
    assert_eq!(deserialize_optional_flexible_id(Some(flex("9"))), Ok(Some("9".to_string())));
    assert_eq!(
        deserialize_optional_flexible_id(Some(flex("false"))),
        Err("expected string, number, or null for ID, got Some(Bool(false))".to_string())
    );
}

#[test]
fn flexible_bool_reads_booleans_strings_and_numbers() {
    assert_eq!(deserialize_flexible_bool(flex("true")), Ok(true));
    assert_eq!(deserialize_flexible_bool(flex("false")), Ok(false));
    for text in ["true", "True", "TRUE", "1"] {
        assert_eq!(deserialize_flexible_bool(FlexValue::Text(text.to_string())), Ok(true));
        assert_eq!(bool_from_text(text), Some(true));
    }
    for text in ["false", "False", "FALSE", "0", ""] {
        assert_eq!(deserialize_flexible_bool(FlexValue::Text(text.to_string())), Ok(false));
        assert_eq!(bool_from_text(text), Some(false));
    }
    assert_eq!(
        deserialize_flexible_bool(flex("\"yes\"")),
        Err("invalid boolean string: yes".to_string())
    );
    assert_eq!(bool_from_text("tRUE"), None);
    assert_eq!(deserialize_flexible_bool(flex("1")), Ok(true));
    assert_eq!(deserialize_flexible_bool(flex("0")), Ok(false));
    assert_eq!(deserialize_flexible_bool(flex("-3")), Ok(true));
    // A number that is no signed 64-bit integer counts as zero.
    assert_eq!(deserialize_flexible_bool(flex("1.5")), Ok(false));
    assert_eq!(deserialize_flexible_bool(flex("18446744073709551615")), Ok(false));
    assert_eq!(
        deserialize_flexible_bool(flex("null")),
        Err("expected boolean or string, got Null".to_string())
    );
}

#[test]
fn optional_flexible_bool_reads_null_and_missing() {
    assert_eq!(deserialize_optional_flexible_bool(None), Ok(None));
    assert_eq!(deserialize_optional_flexible_bool(Some(flex("null"))), Ok(None));
    assert_eq!(deserialize_optional_flexible_bool(Some(flex("true"))), Ok(Some(true)));
    assert_eq!(deserialize_optional_flexible_bool(Some(flex("\"0\""))), Ok(Some(false)));
    assert_eq!(deserialize_optional_flexible_bool(Some(flex("2"))), Ok(Some(true)));
    assert_eq!(
        deserialize_optional_flexible_bool(Some(flex("\"no\""))),
        Err("invalid boolean string: no".to_string())
    );
    assert_eq!(
        deserialize_optional_flexible_bool(Some(flex("{}"))),
        Err("expected boolean, string, or null, got Some(Object {})".to_string())
    );
}

#[test]
fn optional_string_takes_blank_for_none() {
    assert_eq!(deserialize_optional_string(None), None);
    assert_eq!(deserialize_optional_string(Some("".to_string())), None);
    assert_eq!(deserialize_optional_string(Some("  \t".to_string())), None);
    assert_eq!(
        deserialize_optional_string(Some(" x ".to_string())),
        Some(" x ".to_string())
    );
}

#[test]
fn flexible_number_reads_numbers_and_strings() {
    assert_eq!(deserialize_flexible_number(flex("42")), Ok(42));
    assert_eq!(deserialize_flexible_number(flex("\"42\"")), Ok(42));
    assert_eq!(
        deserialize_flexible_number(flex("18446744073709551615")),
        Ok(u64::MAX)
    );
    assert_eq!(
        deserialize_flexible_number(flex("-1")),
        Err("number out of u64 range".to_string())
    );
    assert_eq!(
        deserialize_flexible_number(flex("1.5")),
        Err("number out of u64 range".to_string())
    );
    assert_eq!(
        deserialize_flexible_number(flex("\"\"")),
        Err("failed to parse number: cannot parse integer from empty string".to_string())
    );
    assert_eq!(
        deserialize_flexible_number(flex("\"4 2\"")),
        Err("failed to parse number: invalid digit found in string".to_string())
    );
    assert_eq!(
        deserialize_flexible_number(flex("\"18446744073709551616\"")),
        Err("failed to parse number: number too large to fit in target type".to_string())
    );
    assert_eq!(
        deserialize_flexible_number(flex("true")),
        Err("expected number or string, got Bool(true)".to_string())
    );
}

#[test]
fn optional_flexible_number_reads_null_blank_and_missing() {
    assert_eq!(deserialize_optional_flexible_number(None), Ok(None));
    assert_eq!(deserialize_optional_flexible_number(Some(flex("null"))), Ok(None));
    assert_eq!(deserialize_optional_flexible_number(Some(flex("\"\""))), Ok(None));
    assert_eq!(deserialize_optional_flexible_number(Some(flex("\"  \""))), Ok(None));
    assert_eq!(deserialize_optional_flexible_number(Some(flex("7"))), Ok(Some(7)));
    assert_eq!(deserialize_optional_flexible_number(Some(flex("\"7\""))), Ok(Some(7)));
    assert_eq!(deserialize_optional_flexible_number(Some(flex("-7"))), Ok(None));
    assert_eq!(
        deserialize_optional_flexible_number(Some(flex("\" 7\""))),
        Err("failed to parse number: invalid digit found in string".to_string())
    );
    assert_eq!(
        deserialize_optional_flexible_number(Some(flex("[]"))),
        Err("expected number, string, or null, got Some(Array [])".to_string())
    );
}

#[test]
fn null_list_is_the_empty_list() {
    assert_eq!(deserialize_null_as_empty_vec::<u32>(None), Vec::<u32>::new());
    assert_eq!(deserialize_null_as_empty_vec(Some(vec![1, 2, 3])), vec![1, 2, 3]);
}

#[test]
fn shown_values_match_the_debug_text_of_json_values() {
    for json in ["null", "true", "false", "12", "-3", "1.5", "\"plain\""] {
        let value = serde_json::from_str::<serde_json::Value>(json).unwrap();
        assert_eq!(flex(json).shown(), format!("{:?}", value), "{}", json);
    }
}

#[test]
fn wire_names_follow_the_api() {
    assert_eq!(ReplySettings::Everyone.wire_name(), "everyone");
    assert_eq!(ReplySettings::MentionedUsers.wire_name(), "mentioned_users");
    assert_eq!(ReplySettings::Following.wire_name(), "following");
    assert_eq!(MediaType::Photo.wire_name(), "photo");
    assert_eq!(MediaType::Video.wire_name(), "video");
    assert_eq!(MediaType::AnimatedGif.wire_name(), "animated_gif");
    assert_eq!(SpaceState::Live.wire_name(), "Live");
    assert_eq!(SpaceState::Scheduled.wire_name(), "Scheduled");
    assert_eq!(SpaceState::Ended.wire_name(), "Ended");
    assert_eq!(ReferenceType::Retweeted.wire_name(), "retweeted");
    assert_eq!(ReferenceType::Quoted.wire_name(), "quoted");
    assert_eq!(ReferenceType::RepliedTo.wire_name(), "replied_to");
    assert_eq!(VerifiedType::Blue.wire_name(), "blue");
    assert_eq!(VerifiedType::Government.wire_name(), "government");
    assert_eq!(VerifiedType::Business.wire_name(), "business");
    assert_eq!(VerifiedType::Unverified.wire_name(), "none");
}
