use bilibili_msg_history::format_message;
use bilibili_msg_history::json::{find_field, Member, Scalar};
use bilibili_msg_history::models::message::{ImageMessage, Message, ShareMessage, TextMessage};
use bilibili_msg_history::payload::{FormatError, PayloadKind, PayloadVariant};

fn envelope_with(msg_type: u8, content: &str) -> Message {
    Message {
        sender_uid: 1,
        receiver_id: 2,
        receiver_type: 1,
        msg_type,
        msg_seqno: 10,
        content: String::from(content),
        timestamp: 0,
    }
}

fn member(name: &str, value: Scalar) -> Member {
    Member { name: String::from(name), value }
}

fn text(value: &str) -> Scalar {
    Scalar::Text(String::from(value))
}

#[test]
fn text_message_reads_as_its_text() {
    let m = envelope_with(1, "{\"content\":\"hi\"}");
    assert_eq!(format_message(&m), Ok(String::from("hi")));
}

#[test]
fn text_message_keeps_its_text_unmodified() {
    let m = envelope_with(1, "{\"content\":\"  [a]\\n\\\"b\\\" 你好 \"}");
    assert_eq!(format_message(&m), Ok(String::from("  [a]\n\"b\" 你好 ")));
}

#[test]
fn text_message_ignores_other_members() {
    let m = envelope_with(1, "{\"extra\":[1,{\"a\":null}],\"content\":\"hi\",\"n\":-1.5}");
    assert_eq!(format_message(&m), Ok(String::from("hi")));
}

#[test]
fn text_message_with_broken_content() {
    let m = envelope_with(1, "{\"content\":");
    assert_eq!(format_message(&m), Err(FormatError::Malformed(PayloadKind::PlainText)));
}

#[test]
fn text_message_without_its_member() {
    let m = envelope_with(1, "{\"text\":\"hi\"}");
    assert_eq!(format_message(&m), Err(FormatError::Malformed(PayloadKind::PlainText)));
}

#[test]
fn text_message_with_a_number_for_text() {
    let m = envelope_with(1, "{\"content\":5}");
    assert_eq!(format_message(&m), Err(FormatError::Malformed(PayloadKind::PlainText)));
}

#[test]
fn text_message_with_null_for_text() {
    let m = envelope_with(1, "{\"content\":null}");
    assert_eq!(format_message(&m), Err(FormatError::Malformed(PayloadKind::PlainText)));
}

#[test]
fn content_that_is_no_object() {
    assert_eq!(
        format_message(&envelope_with(1, "\"hi\"")),
        Err(FormatError::Malformed(PayloadKind::PlainText))
    );
    assert_eq!(
        format_message(&envelope_with(1, "[\"hi\"]")),
        Err(FormatError::Malformed(PayloadKind::PlainText))
    );
    assert_eq!(
        format_message(&envelope_with(1, "")),
        Err(FormatError::Malformed(PayloadKind::PlainText))
    );
    assert_eq!(
        format_message(&envelope_with(1, "{\"content\":\"hi\"} x")),
        Err(FormatError::Malformed(PayloadKind::PlainText))
    );
}

#[test]
fn original_image() {
    let m = envelope_with(
        2,
        "{\"original\":1,\"url\":\"https://i0.example/a.png\",\"imageType\":\"png\",\"height\":600,\"width\":800}",
    );
    assert_eq!(format_message(&m), Ok(String::from("[图片][原图] https://i0.example/a.png")));
}

#[test]
fn transcoded_image() {
    let m = envelope_with(
        2,
        "{\"original\":0,\"url\":\"https://i0.example/a.png\",\"imageType\":\"png\",\"height\":600,\"width\":800}",
    );
    assert_eq!(format_message(&m), Ok(String::from("[图片][非原图] https://i0.example/a.png")));
}

#[test]
fn image_with_another_resolution_flag() {
    let m = envelope_with(
        2,
        "{\"original\":2,\"url\":\"u\",\"imageType\":\"jpeg\",\"height\":1,\"width\":1}",
    );
    assert_eq!(format_message(&m), Ok(String::from("[图片][非原图] u")));
}

#[test]
fn image_without_a_member() {
    let m = envelope_with(2, "{\"original\":1,\"url\":\"u\",\"height\":1,\"width\":1}");
    assert_eq!(format_message(&m), Err(FormatError::Malformed(PayloadKind::Image)));
}

#[test]
fn image_with_a_flag_out_of_range() {
    let m = envelope_with(
        2,
        "{\"original\":256,\"url\":\"u\",\"imageType\":\"jpeg\",\"height\":1,\"width\":1}",
    );
    assert_eq!(format_message(&m), Err(FormatError::Malformed(PayloadKind::Image)));
}

#[test]
fn image_with_a_size_out_of_range() {
    let m = envelope_with(
        2,
        "{\"original\":1,\"url\":\"u\",\"imageType\":\"jpeg\",\"height\":4294967296,\"width\":1}",
    );
    assert_eq!(format_message(&m), Err(FormatError::Malformed(PayloadKind::Image)));
    let m = envelope_with(
        2,
        "{\"original\":1,\"url\":\"u\",\"imageType\":\"jpeg\",\"height\":4294967295,\"width\":4294967295}",
    );
    assert_eq!(format_message(&m), Ok(String::from("[图片][原图] u")));
}

#[test]
fn image_with_a_negative_or_fractional_size() {
    let m = envelope_with(
        2,
        "{\"original\":1,\"url\":\"u\",\"imageType\":\"jpeg\",\"height\":-1,\"width\":1}",
    );
    assert_eq!(format_message(&m), Err(FormatError::Malformed(PayloadKind::Image)));
    let m = envelope_with(
        2,
        "{\"original\":1,\"url\":\"u\",\"imageType\":\"jpeg\",\"height\":1.0,\"width\":1}",
    );
    assert_eq!(format_message(&m), Err(FormatError::Malformed(PayloadKind::Image)));
}

#[test]
fn share_with_a_content_code() {
    let m = envelope_with(
        7,
        "{\"author\":\"a\",\"headline\":\"h\",\"source\":6,\"thumb\":\"t\",\"title\":\"A title\",\"url\":\"u\",\"bvid\":\"BV1xx411c7mD\"}",
    );
    assert_eq!(format_message(&m), Ok(String::from("【A title】BV1xx411c7mD")));
}

#[test]
fn share_without_a_content_code() {
    let m = envelope_with(
        7,
        "{\"author\":\"a\",\"source\":6,\"thumb\":\"t\",\"title\":\"A title\"}",
    );
    assert_eq!(format_message(&m), Ok(String::from("【A title】无番号")));
}

#[test]
fn share_with_null_for_its_optional_members() {
    let m = envelope_with(
        7,
        "{\"author\":\"a\",\"headline\":null,\"source\":0,\"thumb\":\"t\",\"title\":\"T\",\"url\":null,\"bvid\":null}",
    );
    assert_eq!(format_message(&m), Ok(String::from("【T】无番号")));
}

#[test]
fn share_with_a_number_for_its_content_code() {
    let m = envelope_with(
        7,
        "{\"author\":\"a\",\"source\":6,\"thumb\":\"t\",\"title\":\"T\",\"bvid\":12}",
    );
    assert_eq!(format_message(&m), Err(FormatError::Malformed(PayloadKind::Share)));
}

#[test]
fn share_without_a_title() {
    let m = envelope_with(7, "{\"author\":\"a\",\"source\":6,\"thumb\":\"t\"}");
    assert_eq!(format_message(&m), Err(FormatError::Malformed(PayloadKind::Share)));
}

#[test]
fn share_of_the_unsupported_kind() {
    let m = envelope_with(
        7,
        "{\"author\":\"a\",\"source\":5,\"thumb\":\"t\",\"title\":\"T\",\"bvid\":\"BV1\"}",
    );
    assert_eq!(format_message(&m), Err(FormatError::UnsupportedShare));
}

#[test]
fn unrecognized_message_always_has_a_text() {
    assert_eq!(format_message(&envelope_with(0, "")), Ok(String::from("[其他消息]")));
    assert_eq!(format_message(&envelope_with(3, "not json")), Ok(String::from("[其他消息]")));
    assert_eq!(
        format_message(&envelope_with(255, "{\"content\":\"hi\"}")),
        Ok(String::from("[其他消息]"))
    );
}

#[test]
fn formatting_twice_gives_the_same_text() {
    let m = envelope_with(
        2,
        "{\"original\":1,\"url\":\"u\",\"imageType\":\"jpeg\",\"height\":1,\"width\":1}",
    );
    assert_eq!(format_message(&m), format_message(&m));
    let broken = envelope_with(7, "{}");
    assert_eq!(format_message(&broken), format_message(&broken));
    let payload = PayloadVariant::Share(ShareMessage {
        author: String::from("a"),
        headline: None,
        source: 1,
        thumb: String::from("t"),
        title: String::from("T"),
        url: None,
        bvid: Some(String::from("BV9")),
    });
    let first = payload.render();
    let second = payload.render();
    assert_eq!(first, second);
    assert_eq!(first, Ok(String::from("【T】BV9")));
}

#[test]
fn kinds_of_message_types() {
    assert_eq!(PayloadKind::of(1), PayloadKind::PlainText);
    assert_eq!(PayloadKind::of(2), PayloadKind::Image);
    assert_eq!(PayloadKind::of(7), PayloadKind::Share);
    assert_eq!(PayloadKind::of(0), PayloadKind::Unrecognized);
    assert_eq!(PayloadKind::of(5), PayloadKind::Unrecognized);
    assert_eq!(PayloadKind::of(255), PayloadKind::Unrecognized);
}

#[test]
fn decode_gives_the_payload() {
    assert_eq!(
        PayloadVariant::decode(1, "{\"content\":\"hi\"}"),
        Ok(PayloadVariant::PlainText(TextMessage { content: String::from("hi") }))
    );
    assert_eq!(
        PayloadVariant::decode(
            2,
            "{\"width\":800,\"height\":600,\"imageType\":\"png\",\"url\":\"u\",\"original\":1}"
        ),
        Ok(PayloadVariant::Image(ImageMessage {
            original: 1,
            url: String::from("u"),
            image_type: String::from("png"),
            height: 600,
            width: 800,
        }))
    );
    assert_eq!(PayloadVariant::decode(9, "{"), Ok(PayloadVariant::Unrecognized));
    assert_eq!(
        PayloadVariant::decode(2, "{\"content\":\"hi\"}"),
        Err(FormatError::Malformed(PayloadKind::Image))
    );
}

#[test]
fn payload_from_given_members() {
    let members = vec![
        member("author", text("a")),
        member("headline", Scalar::Null),
        member("source", Scalar::Unsigned(3)),
        member("thumb", text("t")),
        member("title", text("T")),
        member("bvid", text("BV")),
        member("other", Scalar::Other),
    ];
    assert_eq!(
        PayloadVariant::from_members(PayloadKind::Share, &members),
        Some(PayloadVariant::Share(ShareMessage {
            author: String::from("a"),
            headline: None,
            source: 3,
            thumb: String::from("t"),
            title: String::from("T"),
            url: None,
            bvid: Some(String::from("BV")),
        }))
    );
    assert_eq!(PayloadVariant::from_members(PayloadKind::PlainText, &members), None);
    assert_eq!(PayloadVariant::from_members(PayloadKind::Image, &members), None);
    assert_eq!(
        PayloadVariant::from_members(PayloadKind::Unrecognized, &members),
        Some(PayloadVariant::Unrecognized)
    );
}

#[test]
fn payload_from_members_of_the_wrong_type() {
    let members = vec![member("content", Scalar::Unsigned(1))];
    assert_eq!(PayloadVariant::from_members(PayloadKind::PlainText, &members), None);
    let members = vec![member("content", Scalar::Other)];
    assert_eq!(PayloadVariant::from_members(PayloadKind::PlainText, &members), None);
    let members = vec![
        member("author", text("a")),
        member("source", Scalar::Unsigned(256)),
        member("thumb", text("t")),
        member("title", text("T")),
    ];
    assert_eq!(PayloadVariant::from_members(PayloadKind::Share, &members), None);
}

#[test]
fn first_member_of_a_name_counts() {
    let members = vec![
        member("a", Scalar::Null),
        member("content", text("first")),
        member("content", text("second")),
    ];
    assert_eq!(find_field(&members, "content"), Some(&text("first")));
    assert_eq!(find_field(&members, "a"), Some(&Scalar::Null));
    assert_eq!(find_field(&members, "b"), None);
    assert_eq!(find_field(&Vec::new(), "content"), None);
    assert_eq!(
        PayloadVariant::from_members(PayloadKind::PlainText, &members),
        Some(PayloadVariant::PlainText(TextMessage { content: String::from("first") }))
    );
}

#[test]
fn payloads_render_by_themselves() {
    let t = TextMessage { content: String::from("plain") };
    assert_eq!(t.to_string(), "plain");
    assert_eq!(String::from(t), "plain");
    let i = ImageMessage {
        original: 1,
        url: String::from("u"),
        image_type: String::from("gif"),
        height: 2,
        width: 3,
    };
    assert_eq!(i.to_string(), "[图片][原图] u");
    assert_eq!(String::from(i), "[图片][原图] u");
    let s = ShareMessage {
        author: String::new(),
        headline: None,
        source: 4,
        thumb: String::new(),
        title: String::from("标题"),
        url: None,
        bvid: None,
    };
    assert!(s.is_supported());
    assert_eq!(s.to_string(), "【标题】无番号");
    assert_eq!(PayloadVariant::Unrecognized.render(), Ok(String::from("[其他消息]")));
    let unsupported = ShareMessage {
        author: String::new(),
        headline: None,
        source: 5,
        thumb: String::new(),
        title: String::from("T"),
        url: None,
        bvid: None,
    };
    assert!(!unsupported.is_supported());
    assert_eq!(PayloadVariant::Share(unsupported).render(), Err(FormatError::UnsupportedShare));
}
