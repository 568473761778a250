use blockcell::json::JsonValue;
use blockcell::message::{build_message, MessageSegment, OneBotMessage};
use blockcell::outbound::{outbound_request, parse_chat_id, request_for_chat};

#[test]
fn test_one_bot_message_from_text() {
    let msg = OneBotMessage::from_text("hello");
    assert_eq!(msg.to_plain_text(), "hello");
}

#[test]
fn test_one_bot_message_from_segments() {
    let msg = OneBotMessage::from_segments(vec![MessageSegment::text("hello "), MessageSegment::at("12345")]);
    assert_eq!(msg.to_plain_text(), "hello [@12345]");
}

#[test]
fn test_message_segment_text() {
    let seg = MessageSegment::text("hello");
    assert_eq!(seg.to_plain_text(), Some("hello".to_string()));
}

#[test]
fn test_message_segment_image() {
    let seg = MessageSegment::image("test.jpg");
    assert_eq!(seg.to_plain_text(), Some("[image]".to_string()));
}

#[test]
fn test_message_segment_at() {
    let seg = MessageSegment::at("12345");
    assert_eq!(seg.to_plain_text(), Some("[@12345]".to_string()));
}

#[test]
fn test_message_segment_at_all() {
    let seg = MessageSegment::at_all();
    assert_eq!(seg.to_plain_text(), Some("[@all]".to_string()));
}

#[test]
fn message_test_build_message_text_only() {
    let msg = build_message("hello world", &[]);
    assert_eq!(msg.to_plain_text(), "hello world");
}

#[test]
fn test_build_message_with_image() {
    let msg = build_message("look at this", &["photo.jpg".to_string()]);
    let text = msg.to_plain_text();
    assert!(text.contains("look at this"));
    assert!(text.contains("[image]"));
}

#[test]
fn test_get_media_urls_from_text() {
    let msg = OneBotMessage::from_text("hello");
    assert!(msg.get_media_urls().is_empty());
    assert!(!msg.has_media());
}

#[test]
fn test_get_media_urls_from_image() {
    let seg = MessageSegment::Image {
        file: "test.jpg".to_string(),
        url: Some("http://example.com/test.jpg".to_string()),
        summary: None,
        sub_type: None,
        file_size: None,
        cache: None,
        proxy: None,
        timeout: None,
    };
    let msg = OneBotMessage::from_segments(vec![seg]);
    let media = msg.get_media_urls();
    assert_eq!(media.len(), 1);
    assert_eq!(media[0], ("http://example.com/test.jpg".to_string(), "image".to_string()));
    assert!(msg.has_media());
}

#[test]
fn test_get_media_urls_multiple() {
    let msg = OneBotMessage::from_segments(vec![
        MessageSegment::text("check this out"),
        MessageSegment::image("photo1.jpg"),
        MessageSegment::image("photo2.jpg"),
        MessageSegment::record("voice.mp3"),
    ]);
    let media = msg.get_media_urls();
    assert_eq!(media.len(), 3);
    assert_eq!(media[0].1, "image");
    assert_eq!(media[1].1, "image");
    assert_eq!(media[2].1, "voice");
    assert!(msg.has_media());
}

#[test]
fn test_is_media() {
    assert!(MessageSegment::image("test.jpg").is_media());
    assert!(MessageSegment::record("test.mp3").is_media());
    assert!(MessageSegment::video("test.mp4").is_media());
    assert!(MessageSegment::file("test.pdf", None).is_media());
    assert!(!MessageSegment::text("hello").is_media());
    assert!(!MessageSegment::at("12345").is_media());
}

#[test]
fn test_get_media_url_with_url() {
    let seg = MessageSegment::image_with_url("file.jpg", "http://example.com/file.jpg");
    let (url, media_type) = seg.get_media_url().unwrap();
    assert_eq!(url, "http://example.com/file.jpg");
    assert_eq!(media_type, "image");
}

#[test]
fn test_get_media_url_without_url() {
    let seg = MessageSegment::image("local_file.jpg");
    let (url, media_type) = seg.get_media_url().unwrap();
    assert_eq!(url, "local_file.jpg");
    assert_eq!(media_type, "image");
}

#[test]
fn outbound_test_build_message_text_only() {
    let msg = build_message("hello", &[]);
    assert_eq!(msg.to_plain_text(), "hello");
}

#[test]
fn test_parse_chat_id() {
    assert_eq!(parse_chat_id("group:123456"), ("group", "123456".to_string()));
    assert_eq!(parse_chat_id("user:789012"), ("private", "789012".to_string()));
    assert_eq!(parse_chat_id("plain_id"), ("private", "plain_id".to_string()));
}

#[test]
fn built_message_lists_one_media_url_per_path() {
    let paths = vec![
        "a.PNG".to_string(),
        "dir/b.mp3".to_string(),
        "c.mkv".to_string(),
        "docs\\d.pdf".to_string(),
    ];
    let msg = build_message("", &paths);
    let media = msg.get_media_urls();
    assert_eq!(media.len(), 4);
    for (i, p) in paths.iter().enumerate() {
        assert_eq!(&media[i].0, p);
    }
    assert_eq!(media[0].1, "image");
    assert_eq!(media[1].1, "voice");
    assert_eq!(media[2].1, "video");
    assert_eq!(media[3].1, "file");
    assert_eq!(msg.to_plain_text(), "[image][voice][video][file:d.pdf]");
}

#[test]
fn mentions_of_the_bot() {
    let msg = OneBotMessage::from_segments(vec![
        MessageSegment::at("42"),
        MessageSegment::text(" hi "),
        MessageSegment::at_all(),
    ]);
    assert!(msg.is_at_me("42"));
    assert!(!msg.is_at_me("43"));
    assert!(msg.is_at_all());
    assert_eq!(msg.to_plain_text_without_at("42"), "hi [@all]");
    // A bot that is not mentioned: only the trimming differs.
    assert_eq!(msg.to_plain_text_without_at("43"), msg.to_plain_text().trim());
    assert_eq!(OneBotMessage::from_text(" x ").to_plain_text_without_at("1"), " x ");
}

#[test]
fn outbound_requests() {
    let message = JsonValue::Str("hello".to_string());
    let q = request_for_chat("group:99", &message);
    assert_eq!(q.action, "send_group_msg");
    assert_eq!(q.params.get_str("group_id"), Some("99".to_string()));
    let q = request_for_chat("123", &message);
    assert_eq!(q.action, "send_private_msg");
    assert_eq!(q.params.get_str("user_id"), Some("123".to_string()));
    assert!(outbound_request("channel", "1", &message).is_none());
}
