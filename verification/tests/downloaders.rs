use blockcell::base64_data::Base64DataDownloader;
use blockcell::config::NapCatConfig;
use blockcell::direct_http::{
    after_failed_attempt, exhausted_retries_error, parse_content_length, reachable_status,
    retry_delay_schedule, DirectHttpDownloader, RetryStep,
};
use blockcell::downloader::{
    no_download_error, raw_download_route, DownloaderKind, DownloaderManager, RawDownloadRoute,
    UnifiedDownloadRequest,
};
use blockcell::error::Error;
use blockcell::local_file::{expand_workspace_path, local_file_path, LocalFileDownloader};
use blockcell::media_types::{DownloadConfig, DownloadStrategy, MediaType, UrlDetectionResult, UrlType};
use blockcell::napcat_stream::{download_dir_name_for, file_name_for_url, NapCatStreamDownloader};

#[test]
fn test_decode_base64_url() {
    let url = "base64://SGVsbG8gV29ybGQ=";
    let (data, mime_type) = Base64DataDownloader::decode_data_url(url).unwrap();
    assert_eq!(data, b"Hello World");
    assert!(mime_type.is_none());
}

#[test]
fn test_decode_data_uri() {
    let url = "data:text/plain;base64,SGVsbG8gV29ybGQ=";
    let (data, mime_type) = Base64DataDownloader::decode_data_url(url).unwrap();
    assert_eq!(data, b"Hello World");
    assert_eq!(mime_type, Some("text/plain".to_string()));
}

#[test]
fn test_decode_data_uri_image() {
    let url = "data:image/png;base64,iVBORw0KGgoAAAANSUhEUgAAAAEAAAABCAYAAAAfFcSJAAAADUlEQVR42mNk+M9QDwADhgGAWjR9awAAAABJRU5ErkJggg==";
    let (data, mime_type) = Base64DataDownloader::decode_data_url(url).unwrap();
    assert!(!data.is_empty());
    assert_eq!(mime_type, Some("image/png".to_string()));
}

#[test]
fn test_suggest_extension() {
    assert_eq!(Base64DataDownloader::suggest_extension(Some("image/png")), Some("png"));
    assert_eq!(Base64DataDownloader::suggest_extension(Some("image/jpeg")), Some("jpg"));
    assert_eq!(Base64DataDownloader::suggest_extension(Some("audio/mpeg")), Some("mp3"));
    assert_eq!(Base64DataDownloader::suggest_extension(Some("video/mp4")), Some("mp4"));
    assert_eq!(Base64DataDownloader::suggest_extension(Some("application/unknown")), None);
    assert_eq!(Base64DataDownloader::suggest_extension(None), None);
}

#[test]
fn base64_data_test_can_handle() {
    let downloader = Base64DataDownloader::new();
    let detection = UrlDetectionResult::simple(UrlType::Base64Data, DownloadStrategy::DecodeBase64);
    assert!(downloader.can_handle("base64://data", &detection));
    assert!(downloader.can_handle("data:image/png;base64,abc", &detection));
    assert!(!downloader.can_handle("http://example.com/file.jpg", &detection));
}

#[test]
fn decode_percent_encoded_data_uri() {
    let (data, mime) = Base64DataDownloader::decode_data_url("data:text/plain,a%20b%zzc").unwrap();
    assert_eq!(data, b"a b%zzc");
    assert_eq!(mime, Some("text/plain".to_string()));
    assert_eq!(Base64DataDownloader::simple_url_decode("%41%4a+"), b"AJ+".to_vec());
    assert_eq!(Base64DataDownloader::simple_url_decode("%4"), b"%4".to_vec());
    assert_eq!(Base64DataDownloader::simple_url_decode("%+1"), b"%+1".to_vec());
    assert_eq!(Base64DataDownloader::simple_url_decode("a%20b%zz%%41"), b"a b%zz%%41".to_vec());
}

#[test]
fn decode_errors() {
    match Base64DataDownloader::decode_data_url("data:text/plain") {
        Err(Error::Channel(m)) => assert_eq!(m, "Invalid data URI: missing comma"),
        other => panic!("unexpected {:?}", other),
    }
    match Base64DataDownloader::decode_data_url("http://x") {
        Err(Error::Channel(m)) => assert_eq!(m, "Not a base64 data URL: http://x"),
        other => panic!("unexpected {:?}", other),
    }
    assert!(matches!(
        Base64DataDownloader::decode_data_url("base64://***"),
        Err(Error::Channel(_))
    ));
}

#[test]
fn base64_file_names() {
    assert_eq!(
        Base64DataDownloader::file_name_for(&None, &Some("IMAGE/PNG".to_string()), "20240101_000000"),
        "media_20240101_000000.png"
    );
    assert_eq!(
        Base64DataDownloader::file_name_for(&Some(String::new()), &None, "t"),
        "media_t.bin"
    );
    assert_eq!(
        Base64DataDownloader::file_name_for(&Some("a.txt".to_string()), &None, "t"),
        "a.txt"
    );
}

#[test]
fn test_extract_path() {
    assert_eq!(LocalFileDownloader::extract_path("file:///tmp/test.txt").unwrap(), "/tmp/test.txt");
    assert_eq!(
        LocalFileDownloader::extract_path("file://relative/path.txt").unwrap(),
        "/relative/path.txt"
    );
    assert_eq!(LocalFileDownloader::extract_path("file:test.txt").unwrap(), "test.txt");
    assert!(LocalFileDownloader::extract_path("http://example.com").is_err());
}

#[test]
fn local_file_test_can_handle() {
    let downloader = LocalFileDownloader::new();
    let detection = UrlDetectionResult::simple(UrlType::LocalPath, DownloadStrategy::ReadLocalFile);
    assert!(downloader.can_handle("file:///tmp/test.txt", &detection));
    assert!(downloader.can_handle("file://relative/path.txt", &detection));
    assert!(!downloader.can_handle("http://example.com/file.txt", &detection));
}

#[test]
fn test_expand_workspace_path() {
    let home = dirs::home_dir().map(|h| h.to_string_lossy().into_owned());
    let expanded = expand_workspace_path("~/Downloads", home.as_deref());
    if home.is_some() {
        assert!(!expanded.starts_with('~'));
    }
    let not_expanded = expand_workspace_path("/tmp/downloads", home.as_deref());
    assert_eq!(not_expanded, "/tmp/downloads");
}

#[test]
fn workspace_expansion_with_known_home() {
    assert_eq!(expand_workspace_path("~/ws", Some("/home/u")), "/home/u/ws");
    assert_eq!(expand_workspace_path("~/ws", None), "~/ws");
    assert_eq!(local_file_path("file:///tmp/a.txt"), "//tmp/a.txt");
    assert_eq!(local_file_path("/tmp/a.txt"), "/tmp/a.txt");
}

#[test]
fn local_file_destination_names() {
    assert_eq!(LocalFileDownloader::destination_dir_name("2024-01-02", "user:42"), "2024-01-02_42");
    assert_eq!(LocalFileDownloader::destination_dir_name("2024-01-02", "group:7"), "2024-01-02_7");
    assert_eq!(LocalFileDownloader::file_name_for(&None, Some("a.png")), "a.png");
    assert_eq!(LocalFileDownloader::file_name_for(&None, None), "file");
}

#[test]
fn test_napcat_stream_downloader_can_handle() {
    let config = NapCatConfig::default();
    let downloader = NapCatStreamDownloader::new(config);
    let detection = UrlDetectionResult::simple(UrlType::NapCatProxy, DownloadStrategy::NapCatStream);
    assert!(downloader.can_handle("http://example.com/file.jpg", &detection));
    let detection = UrlDetectionResult::simple(UrlType::Base64Data, DownloadStrategy::DecodeBase64);
    assert!(!downloader.can_handle("base64://data", &detection));
    let detection = UrlDetectionResult::simple(UrlType::LocalPath, DownloadStrategy::ReadLocalFile);
    assert!(!downloader.can_handle("file:///tmp/file.jpg", &detection));
}

#[test]
fn napcat_download_names() {
    assert_eq!(download_dir_name_for("2026-03-23", "group:1083997779"), "2026-03-23_GROUP_1083997779");
    assert_eq!(download_dir_name_for("2026-03-23", "user:123456"), "2026-03-23_USER_123456");
    assert_eq!(download_dir_name_for("2026-03-23", "other"), "2026-03-23_other");
    assert_eq!(file_name_for_url(&None, "https://a.com/x/pic.jpg?s=1", "t"), "pic.jpg");
    assert_eq!(file_name_for_url(&None, "https://a.com/x/noext", "t"), "media_t");
}

#[test]
fn test_direct_http_downloader_new() {
    let downloader = DirectHttpDownloader::new();
    assert_eq!(downloader.name(), "direct_http");
}

#[test]
fn test_direct_http_downloader_can_handle() {
    let downloader = DirectHttpDownloader::new();
    let detection = UrlDetectionResult::simple(UrlType::ExternalHttp, DownloadStrategy::DirectHttp);
    assert!(downloader.can_handle("http://example.com/file.jpg", &detection));
    assert!(downloader.can_handle("https://example.com/file.jpg", &detection));
    assert!(!downloader.can_handle("base64://data", &detection));
    assert!(!downloader.can_handle("file:///tmp/file.jpg", &detection));
    let detection = UrlDetectionResult::simple(UrlType::NapCatProxy, DownloadStrategy::NapCatStream);
    assert!(downloader.can_handle("http://example.com/file.jpg", &detection));
}

#[test]
fn retry_schedule_doubles_up_to_five_seconds() {
    assert_eq!(retry_delay_schedule(3, 500), vec![500, 1000]);
    assert_eq!(retry_delay_schedule(6, 1500), vec![1500, 3000, 5000, 5000, 5000]);
    assert!(retry_delay_schedule(1, 500).is_empty());
    assert!(retry_delay_schedule(0, 500).is_empty());
    assert_eq!(
        after_failed_attempt(0, 3, 500),
        RetryStep::Retry { wait_ms: 500, next_delay_ms: 1000 }
    );
    assert_eq!(
        after_failed_attempt(1, 3, 4000),
        RetryStep::Retry { wait_ms: 4000, next_delay_ms: 5000 }
    );
    assert_eq!(after_failed_attempt(2, 3, 1000), RetryStep::GiveUp);
}

#[test]
fn retry_errors() {
    match exhausted_retries_error(None, 0) {
        Error::Channel(m) => assert_eq!(m, "All 0 download attempts failed"),
        other => panic!("unexpected {:?}", other),
    }
    match exhausted_retries_error(Some(Error::Channel("boom".to_string())), 3) {
        Error::Channel(m) => assert_eq!(m, "boom"),
        other => panic!("unexpected {:?}", other),
    }
}

#[test]
fn http_status_and_content_length() {
    assert!(reachable_status(200));
    assert!(reachable_status(204));
    assert!(reachable_status(302));
    assert!(!reachable_status(301));
    assert!(!reachable_status(404));
    assert_eq!(parse_content_length("1024"), Some(1024));
    assert_eq!(parse_content_length("+7"), Some(7));
    assert_eq!(parse_content_length(""), None);
    assert_eq!(parse_content_length("+"), None);
    assert_eq!(parse_content_length("-1"), None);
    assert_eq!(parse_content_length("12a"), None);
    assert_eq!(parse_content_length("18446744073709551615"), Some(u64::MAX));
    assert_eq!(parse_content_length("18446744073709551616"), None);
    assert_eq!(DirectHttpDownloader::user_agent(Some("1.2.3")), "blockcell/1.2.3");
    assert_eq!(DirectHttpDownloader::user_agent(None), "blockcell/unknown");
    assert_eq!(DirectHttpDownloader::with_timeout(5).timeout_secs, 5);
}

#[test]
fn test_unified_download_request_new() {
    let config = NapCatConfig::default();
    let request = UnifiedDownloadRequest::new(
        "https://example.com/image.jpg",
        MediaType::Image,
        config.clone(),
        "/workspace",
        "user:123",
    );
    assert_eq!(request.source, "https://example.com/image.jpg");
    assert_eq!(request.media_type, MediaType::Image);
    assert_eq!(request.workspace, "/workspace");
    assert_eq!(request.chat_id, "user:123");
    assert!(request.filename.is_none());
}

#[test]
fn test_unified_download_request_with_filename() {
    let config = NapCatConfig::default();
    let request = UnifiedDownloadRequest::new(
        "https://example.com/image.jpg",
        MediaType::Image,
        config,
        "/workspace",
        "user:123",
    )
    .with_filename("photo.jpg");
    assert_eq!(request.filename, Some("photo.jpg".to_string()));
}

#[test]
fn test_downloader_manager_new() {
    let config = NapCatConfig::default();
    let manager = DownloaderManager::new(&config);
    assert!(!manager.downloaders().is_empty());
}

#[test]
fn downloader_test_download_config_default() {
    let config = DownloadConfig::default();
    assert_eq!(config.max_retries, 3);
    assert_eq!(config.timeout_secs, 120);
}

#[test]
fn manager_plan_tries_strategies_in_order() {
    let config = NapCatConfig::default();
    let manager = DownloaderManager::new(&config);
    let names: Vec<&str> = manager.downloaders().iter().map(|d| d.name()).collect();
    assert_eq!(names, vec!["base64_data", "local_file", "napcat_stream", "direct_http"]);
    // An external URL: direct HTTP first, then NapCat stream (both NapCat
    // strategies) and direct HTTP again as the NapCat stream fallback.
    let plan = manager.download_plan("https://example.com/a.jpg", &config);
    assert_eq!(
        plan,
        vec![
            (DownloadStrategy::DirectHttp, 3),
            (DownloadStrategy::NapCatStream, 2),
            (DownloadStrategy::NapCatStream, 3),
            (DownloadStrategy::NapCatRegular, 2),
        ]
    );
    let plan = manager.download_plan("base64://aGk=", &config);
    assert_eq!(plan, vec![(DownloadStrategy::DecodeBase64, 0)]);
    assert!(manager.can_download("file:///tmp/x", &config));
    assert!(manager.can_download("abc123", &config));
    assert!(!manager.can_download("gchat.qpic.cn/x", &config));
    assert_eq!(DownloaderManager::strategies(DownloadStrategy::NapCatRegular), vec![
        DownloadStrategy::NapCatRegular,
        DownloadStrategy::NapCatStream,
        DownloadStrategy::DirectHttp
    ]);
    assert_eq!(manager.download_config().max_retries, 3);
    match no_download_error(None) {
        Error::Channel(m) => assert_eq!(m, "No suitable downloader found for URL"),
        other => panic!("unexpected {:?}", other),
    }
    let kind = DownloaderKind::DirectHttp(DirectHttpDownloader::new());
    assert_eq!(kind.name(), "direct_http");
}

#[test]
fn raw_download_routes() {
    let config = NapCatConfig::default();
    assert!(matches!(raw_download_route("https://gchat.qpic.cn/x", &config), RawDownloadRoute::DirectHttp));
    assert!(matches!(raw_download_route("https://example.com/x", &config), RawDownloadRoute::DirectHttp));
    match raw_download_route("http://h:3000/files/a", &config) {
        RawDownloadRoute::NapCatStream(Error::Channel(m)) => {
            assert_eq!(m, "Cannot download URL: http://h:3000/files/a (type: napcat_proxy)")
        }
        other => panic!("unexpected {:?}", other),
    }
    match raw_download_route("base64://aGk=", &config) {
        RawDownloadRoute::Refuse(Error::Channel(m)) => {
            assert_eq!(m, "Cannot download URL: base64://aGk= (type: base64_data)")
        }
        other => panic!("unexpected {:?}", other),
    }
    assert!(matches!(raw_download_route("fileid", &config), RawDownloadRoute::NapCatStream(_)));
}
