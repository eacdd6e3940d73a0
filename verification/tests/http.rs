use serde_json::Value;
use storyboard::http::{decode, decode_read, reply_member, Status};
use storyboard::json::text_member;

fn status(code: u16) -> Status {
    Status::from_u16(code).unwrap()
}

#[test]
fn status_codes_have_three_digits() {
    assert!(Status::from_u16(99).is_none());
    assert!(Status::from_u16(1000).is_none());
    assert!(Status::from_u16(0).is_none());
    assert!(Status::from_u16(100).is_some());
    assert!(Status::from_u16(999).is_some());
}

#[test]
fn success_is_two_hundred_to_two_hundred_ninety_nine() {
    for code in 100..=999u16 {
        assert_eq!(status(code).is_success(), (200..=299).contains(&code));
    }
}

#[test]
fn status_lines_have_code_and_reason() {
    assert_eq!(status(404).line(), "404 Not Found");
    assert_eq!(status(200).line(), "200 OK");
    assert_eq!(status(799).line(), "799 <unknown status code>");
}

#[test]
fn good_replies_come_to_their_value() {
    let value = decode(status(200), " {\"b\": [1, 2.5], \"a\": null} ").unwrap();
    assert_eq!(value.to_string(), "{\"a\":null,\"b\":[1,2.5]}");
}

#[test]
fn text_that_is_no_json_is_kept_raw() {
    let value = decode(status(201), "plain \"text\"").unwrap();
    assert_eq!(value.to_string(), "{\"raw\":\"plain \\\"text\\\"\"}");
    assert_eq!(text_member(&value, "raw"), Some("plain \"text\""));
}

#[test]
fn bad_replies_are_quoted() {
    assert_eq!(
        decode(status(500), "{\"detail\": \"no\"}").unwrap_err(),
        "http 500 Internal Server Error: {\"detail\":\"no\"}"
    );
    assert_eq!(
        decode(status(302), "moved").unwrap_err(),
        "http 302 Found: {\"raw\":\"moved\"}"
    );
}

#[test]
fn values_that_were_read_count_as_the_reply() {
    let value = decode_read(status(200), "ignored", Some(Value::from(3u64))).unwrap();
    assert_eq!(value, Value::from(3u64));
    let value = decode_read(status(200), "kept", None).unwrap();
    assert_eq!(text_member(&value, "raw"), Some("kept"));
}

#[test]
fn members_must_be_strings() {
    let reply = decode(status(200), "{\"url\": \"u\", \"n\": 1}");
    assert_eq!(reply_member(&reply, "url", "gone"), Ok("u".to_string()));
    assert_eq!(reply_member(&reply, "n", "gone"), Err("gone".to_string()));
    assert_eq!(reply_member(&reply, "other", "gone"), Err("gone".to_string()));
    let list = decode(status(200), "[\"url\"]");
    assert_eq!(reply_member(&list, "url", "gone"), Err("gone".to_string()));
    let failed = decode(status(400), "{}");
    assert_eq!(
        reply_member(&failed, "url", "gone"),
        Err("http 400 Bad Request: {}".to_string())
    );
}
