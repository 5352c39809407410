use image_api::json::{json_object_of_string, json_string};
use image_api::object_id::ObjectId;
use image_api::reply::{
    error_fmt, message_reply, string_reply, ContentType, STATUS_BAD_REQUEST, STATUS_CREATED,
    STATUS_OK,
};

#[test]
fn json_string_escapes_like_serde_json() {
    assert_eq!(json_string("plain"), "\"plain\"");
    assert_eq!(json_string("a\"b\\c"), "\"a\\\"b\\\\c\"");
    assert_eq!(json_string("l1\nl2\tx\r\u{8}\u{c}"), "\"l1\\nl2\\tx\\r\\b\\f\"");
    assert_eq!(json_string("\u{1}\u{1f}"), "\"\\u0001\\u001f\"");
    assert_eq!(json_string("é/\u{7f}"), "\"é/\u{7f}\"");
}

#[test]
fn json_object_of_one_string_entry() {
    assert_eq!(json_object_of_string("message", "hi"), "{\"message\":\"hi\"}");
    assert_eq!(json_object_of_string("k\"", "v\n"), "{\"k\\\"\":\"v\\n\"}");
}

#[test]
fn error_fmt_sends_message_object_as_bytes() {
    let r = error_fmt(STATUS_BAD_REQUEST, "Image id not found");
    assert_eq!(r.status, 400);
    assert_eq!(r.content_type, ContentType::OctetStream);
    assert_eq!(r.body, b"{\"message\":\"Image id not found\"}".to_vec());
}

#[test]
fn message_and_string_replies() {
    let r = message_reply(STATUS_OK, "Image successfully loaded");
    assert_eq!(r.status, 200);
    assert_eq!(r.content_type, ContentType::ApplicationJson);
    assert_eq!(String::from_utf8(r.body).unwrap(), "{\"message\":\"Image successfully loaded\"}");
    let s = string_reply(STATUS_CREATED, "user successfully loaded");
    assert_eq!(s.status, 201);
    assert_eq!(String::from_utf8(s.body).unwrap(), "\"user successfully loaded\"");
}

#[test]
fn content_type_header_values() {
    assert_eq!(ContentType::ApplicationJson.as_str(), "application/json");
    assert_eq!(ContentType::OctetStream.as_str(), "application/octet-stream");
    assert_eq!(ContentType::ApplicationPdf.as_str(), "application/pdf");
    assert_eq!(ContentType::ImagePng.as_str(), "image/png");
}

#[test]
fn object_id_parses_24_hex_digits() {
    let id = ObjectId::parse_str("606e530d13fe601b17aefbe3").unwrap();
    assert_eq!(id.bytes, [0x60, 0x6e, 0x53, 0x0d, 0x13, 0xfe, 0x60, 0x1b, 0x17, 0xae, 0xfb, 0xe3]);
    let upper = ObjectId::parse_str("606E530D13FE601B17AEFBE3").unwrap();
    assert_eq!(upper.bytes, id.bytes);
}

#[test]
fn object_id_rejects_other_text() {
    assert!(ObjectId::parse_str("606e530d13fe601b17aefbe").is_none());
    assert!(ObjectId::parse_str("606e530d13fe601b17aefbe300").is_none());
    assert!(ObjectId::parse_str("606e530d13fe601b17aefbgz").is_none());
    assert!(ObjectId::parse_str("").is_none());
    assert!(ObjectId::parse_str("ééééééééééééé").is_none());
}

#[test]
fn object_id_from_bytes_and_fresh_ids() {
    let id = ObjectId::from_bytes([7; 12]);
    assert_eq!(id.bytes, [7; 12]);
    let a = ObjectId::new();
    let b = ObjectId::new();
    assert_ne!(a.bytes, b.bytes);
}

#[test]
fn error_body_reads_back_as_the_message() {
    for message in ["Image id not found", "say \"hi\"", "back\\slash", "tab\tand\u{1}", "ünïcode"] {
        let r = error_fmt(STATUS_BAD_REQUEST, message);
        let v: serde_json::Value = serde_json::from_slice(&r.body).unwrap();
        let expected: serde_json::Value =
            serde_json::Value::Object(serde_json::Map::from_iter([(
                "message".to_string(),
                serde_json::Value::String(message.to_string()),
            )]));
        assert_eq!(v, expected);
    }
}
