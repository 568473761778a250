use blockcell::json::JsonValue;
use blockcell::types::{
    ApiRequest, ApiResponse, MessageType, MetaEventType, NoticeType, PostType, StreamChunkData,
};

#[test]
fn test_api_request_send_private_msg() {
    let req = ApiRequest::send_private_msg("123456", &JsonValue::Str("hello".to_string()), None, Some("req1"));
    assert_eq!(req.action, "send_private_msg");
    assert_eq!(req.echo, Some("req1".to_string()));
}

#[test]
fn test_api_request_send_group_msg() {
    let req = ApiRequest::send_group_msg("654321", &JsonValue::Str("world".to_string()), None, None);
    assert_eq!(req.action, "send_group_msg");
    assert!(req.echo.is_none());
}

#[test]
fn test_api_response_is_success() {
    let resp = ApiResponse {
        status: "ok".to_string(),
        retcode: 0,
        data: JsonValue::Object(vec![("message_id".to_string(), JsonValue::Number("123".to_string()))]),
        message: String::new(),
        wording: String::new(),
        echo: None,
    };
    assert!(resp.is_success());
    let fail_resp = ApiResponse {
        status: "failed".to_string(),
        retcode: 1400,
        data: JsonValue::Null,
        message: "bad request".to_string(),
        wording: String::new(),
        echo: None,
    };
    assert!(!fail_resp.is_success());
}

#[test]
fn test_api_response_error_message() {
    let resp = ApiResponse {
        status: "failed".to_string(),
        retcode: 1400,
        data: JsonValue::Null,
        message: "bad request".to_string(),
        wording: "Invalid parameter".to_string(),
        echo: None,
    };
    assert_eq!(resp.error_message(), "Invalid parameter");
    let resp_no_wording = ApiResponse {
        status: "failed".to_string(),
        retcode: 1400,
        data: JsonValue::Null,
        message: "bad request".to_string(),
        wording: String::new(),
        echo: None,
    };
    assert_eq!(resp_no_wording.error_message(), "bad request");
}

#[test]
fn test_post_type_parse() {
    assert_eq!(PostType::parse("message"), PostType::Message);
    assert_eq!(PostType::parse("notice"), PostType::Notice);
    assert_eq!(PostType::parse("request"), PostType::Request);
    assert_eq!(PostType::parse("meta_event"), PostType::MetaEvent);
    assert_eq!(PostType::parse("unknown"), PostType::Message);
}

#[test]
fn test_message_type_parse() {
    assert_eq!(MessageType::parse("private"), MessageType::Private);
    assert_eq!(MessageType::parse("group"), MessageType::Group);
    assert_eq!(MessageType::parse("unknown"), MessageType::Private);
}

#[test]
fn notice_and_meta_types_parse() {
    assert_eq!(NoticeType::parse("group_ban"), NoticeType::GroupBan);
    assert_eq!(NoticeType::parse("notify"), NoticeType::Notify);
    assert_eq!(NoticeType::parse("essence"), NoticeType::Other);
    assert_eq!(MetaEventType::parse("heartbeat"), MetaEventType::Heartbeat);
    assert_eq!(MetaEventType::parse("x"), MetaEventType::Lifecycle);
}

#[test]
fn error_message_falls_back() {
    let resp = ApiResponse {
        status: "failed".to_string(),
        retcode: 100,
        data: JsonValue::Null,
        message: String::new(),
        wording: String::new(),
        echo: None,
    };
    assert_eq!(resp.error_message(), "unknown error");
    let retcode_nonzero = ApiResponse {
        status: "ok".to_string(),
        retcode: 1,
        data: JsonValue::Null,
        message: String::new(),
        wording: String::new(),
        echo: None,
    };
    assert!(!retcode_nonzero.is_success());
}

#[test]
fn request_parameters() {
    let q = ApiRequest::get_image(Some("abc.image"), None, None);
    assert_eq!(q.action, "get_image");
    assert_eq!(q.params.get_str("file"), Some("abc.image".to_string()));
    assert_eq!(q.params.get_str("file_id"), None);
    let q = ApiRequest::get_record(Some("v.amr"), None, "mp3", Some("e"));
    assert_eq!(q.params.get_str("out_format"), Some("mp3".to_string()));
    assert_eq!(q.echo, Some("e".to_string()));
    let q = ApiRequest::get_login_info(None);
    assert!(matches!(q.params, JsonValue::Object(ref v) if v.is_empty()));
}

#[test]
fn chunk_decoding() {
    let c = StreamChunkData {
        stream_id: "s".to_string(),
        chunk_data: "aGk=".to_string(),
        chunk_index: 0,
        total_chunks: 1,
        file_size: None,
    };
    assert_eq!(c.decode_data().unwrap(), b"hi".to_vec());
}
