use blockcell::channel::{ChannelStart, NapCatChannel};
use blockcell::config::NapCatConfig;
use blockcell::event::{MessageEvent, MessageSentEvent, OneBotSender};
use blockcell::message::{MessageSegment, OneBotMessage};

fn sender(role: Option<&str>) -> OneBotSender {
    OneBotSender {
        user_id: "987654321".to_string(),
        nickname: "Test User".to_string(),
        card: None,
        sex: None,
        age: None,
        level: None,
        role: role.map(|r| r.to_string()),
        title: None,
    }
}

fn event(message_type: &str, sub_type: &str, group_id: Option<&str>, message: OneBotMessage, raw: &str, role: Option<&str>) -> MessageEvent {
    MessageEvent {
        time: 1700000000,
        self_id: 123456789,
        post_type: "message".to_string(),
        message_type: message_type.to_string(),
        sub_type: sub_type.to_string(),
        user_id: "987654321".to_string(),
        target_id: None,
        group_id: group_id.map(|g| g.to_string()),
        message_id: 12345,
        message_seq: 12345,
        real_id: 12345,
        message,
        raw_message: raw.to_string(),
        font: 0,
        sender: sender(role),
    }
}

#[test]
fn test_message_event_is_group() {
    let event = event("group", "normal", Some("111111111"), OneBotMessage::from_text("hello"), "hello", Some("member"));
    assert!(event.is_group());
    assert!(!event.is_private());
    assert_eq!(event.get_text(), "hello");
}

#[test]
fn test_message_event_is_private() {
    let event = event("private", "friend", None, OneBotMessage::from_text("hello"), "hello", None);
    assert!(event.is_private());
    assert!(!event.is_group());
}

#[test]
fn test_message_event_get_media_urls() {
    let event = event(
        "private",
        "friend",
        None,
        OneBotMessage::from_segments(vec![MessageSegment::text("look at this"), MessageSegment::image("photo.jpg")]),
        "look at this [image]",
        None,
    );
    assert!(event.has_media());
    let media = event.get_media_urls();
    assert_eq!(media.len(), 1);
    assert_eq!(media[0].1, "image");
}

#[test]
fn test_message_event_no_media() {
    let event = event("private", "friend", None, OneBotMessage::from_text("hello"), "hello", None);
    assert!(!event.has_media());
    assert!(event.get_media_urls().is_empty());
}

#[test]
fn message_event_mentions_use_the_bot_number() {
    let event = event(
        "group",
        "normal",
        Some("1"),
        OneBotMessage::from_segments(vec![MessageSegment::at("123456789"), MessageSegment::text(" ping")]),
        "",
        None,
    );
    assert!(event.is_at_me());
    assert!(!event.is_at_all());
    assert_eq!(event.get_text_without_at(), "ping");
    assert_eq!(event.get_text(), "[@123456789] ping");
}

#[test]
fn message_sent_event_kinds() {
    let sent = MessageSentEvent {
        time: 1,
        self_id: 2,
        post_type: "message_sent".to_string(),
        message_type: "group".to_string(),
        sub_type: "normal".to_string(),
        user_id: None,
        group_id: Some("9".to_string()),
        message_id: 3,
        message_seq: 0,
        real_id: 0,
        message: OneBotMessage::from_text("done"),
        raw_message: String::new(),
        font: 0,
        sender: sender(None),
    };
    assert!(sent.is_group());
    assert!(!sent.is_private());
    assert_eq!(sent.get_text(), "done");
}

#[test]
fn test_channel_new() {
    let config = NapCatConfig::default();
    let channel = NapCatChannel::new(config);
    assert_eq!(channel.get_mode(), "ws-client");
}

#[test]
fn test_channel_mode_from_config() {
    let mut config = NapCatConfig::default();
    config.mode = "ws-server".to_string();
    let channel = NapCatChannel::new(config);
    assert_eq!(channel.get_mode(), "ws-server");
}

#[test]
fn test_backward_compatible_client_mode() {
    let mut config = NapCatConfig::default();
    config.mode = "client".to_string();
    let channel = NapCatChannel::new(config);
    assert_eq!(channel.get_mode(), "client");
}

#[test]
fn test_backward_compatible_server_mode() {
    let mut config = NapCatConfig::default();
    config.mode = "server".to_string();
    let channel = NapCatChannel::new(config);
    assert_eq!(channel.get_mode(), "server");
}

#[test]
fn channel_start_plans() {
    let mut config = NapCatConfig::default();
    assert_eq!(NapCatChannel::new(config.clone()).start_plan(), ChannelStart::Disabled);
    config.enabled = true;
    assert_eq!(
        NapCatChannel::new(config.clone()).start_plan(),
        ChannelStart::MissingWsUrl { unknown_mode: false }
    );
    config.ws_url = "ws://127.0.0.1:3001".to_string();
    assert_eq!(
        NapCatChannel::new(config.clone()).start_plan(),
        ChannelStart::RunClient { unknown_mode: false }
    );
    config.mode = "server".to_string();
    assert_eq!(NapCatChannel::new(config.clone()).start_plan(), ChannelStart::RunServer);
    config.mode = "weird".to_string();
    assert_eq!(
        NapCatChannel::new(config.clone()).start_plan(),
        ChannelStart::RunClient { unknown_mode: true }
    );
}
