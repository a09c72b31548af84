use codex_wui::json::{decode, encode, value_as_object_text, Json};

#[test]
fn decode_reads_an_object() {
    let value = decode("{\"type\":\"error\",\"message\":\"boom\"}").unwrap();
    assert_eq!(value.str_at("type"), Some("error"));
    assert_eq!(value.str_at("message"), Some("boom"));
    assert_eq!(value.str_at("missing"), None);
}

#[test]
fn decode_rejects_plain_text() {
    assert!(decode("not json").is_none());
}

#[test]
fn encode_quotes_a_string() {
    assert_eq!(encode(&Json::text("a\"b")), "\"a\\\"b\"");
}

#[test]
fn object_text_of_string_null_and_object() {
    assert_eq!(value_as_object_text(&Json::text("plain")), "plain");
    assert_eq!(value_as_object_text(&Json::Null), "");
    let value = decode("{\"b\":1,\"a\":[true,1.5]}").unwrap();
    assert_eq!(
        value_as_object_text(&value),
        "{\n  \"a\": [\n    true,\n    1.5\n  ],\n  \"b\": 1\n}"
    );
}

#[test]
fn values_are_told_apart() {
    let value = decode(r#"{"n":null,"b":true,"i":-12,"f":2.5,"big":18446744073709551615,"a":[1,"x"],"s":"t"}"#)
        .unwrap();
    assert!(value.get("n").unwrap().is_null());
    assert!(!value.get("b").unwrap().is_null());
    assert_eq!(value.get("b").unwrap().as_bool(), Some(true));
    assert_eq!(value.get("s").unwrap().as_bool(), None);
    assert_eq!(value.get("i").unwrap().as_i64(), Some(-12));
    assert_eq!(value.get("f").unwrap().as_i64(), None);
    assert_eq!(value.get("big").unwrap().as_i64(), None);
    assert_eq!(value.get("s").unwrap().as_i64(), None);
    assert_eq!(value.get("a").unwrap().as_array().unwrap().len(), 2);
    assert!(value.get("s").unwrap().as_array().is_none());
    assert_eq!(value.get("s").unwrap().as_str(), Some("t"));
    assert_eq!(value.get("i").unwrap().as_str(), None);
    assert!(value.get("missing").is_none());
    assert!(value.get("a").unwrap().get("0").is_none());
    assert_eq!(value.str_or("s", "fallback"), "t");
    assert_eq!(value.str_or("i", "fallback"), "fallback");
    assert_eq!(value.str_or_empty("missing"), "");
}

#[test]
fn numbers_keep_their_text() {
    assert_eq!(encode(&decode("[1, -2, 2.50, 1e3, 18446744073709551615]").unwrap()), "[1,-2,2.5,1000.0,18446744073709551615]");
    assert_eq!(encode(&Json::from_i64(i64::MIN)), "-9223372036854775808");
    assert_eq!(Json::from_i64(42).as_i64(), Some(42));
    assert_eq!(encode(&decode("0.1").unwrap()), "0.1");
    assert_eq!(encode(&decode("123456789.12345678").unwrap()), "123456789.12345678");
}

#[test]
fn later_member_of_a_key_counts() {
    let value = decode(r#"{"k":"first","k":"second"}"#).unwrap();
    assert_eq!(value.str_at("k"), Some("second"));
    let built = codex_wui::json::object_of({
        let mut members = codex_wui::json::no_members();
        codex_wui::json::push_member(&mut members, "k", Json::text("first"));
        codex_wui::json::push_member(&mut members, "k", Json::text("second"));
        members
    });
    assert_eq!(built.str_at("k"), Some("second"));
    assert_eq!(encode(&built), r#"{"k":"second"}"#);
}

#[test]
fn bytes_are_decoded_like_text() {
    let value = codex_wui::json::decode_bytes(br#"{"a":[true,null]}"#).unwrap();
    assert_eq!(encode(&value), r#"{"a":[true,null]}"#);
    assert!(codex_wui::json::decode_bytes(&[0xff, 0xfe]).is_none());
    assert!(codex_wui::json::decode_bytes(b"").is_none());
}
