use blockcell::config::NapCatConfig;
use blockcell::downloader::UnifiedDownloadResult;
use blockcell::json::JsonValue;
use blockcell::media::{
    direct_download_task, download_task_after_query, record_download, build_enhanced_content, build_media_metadata, downloaded_entry, media_url_from_response,
    plan_segment, segment_plans, should_auto_download, DownloadedMedia, SegmentPlan,
};
use blockcell::media_types::{DownloadStrategy, MediaType};
use blockcell::message::MessageSegment;
use blockcell::types::{ApiRequest, ApiResponse};

#[test]
fn test_should_auto_download() {
    let config = NapCatConfig {
        auto_download_media: true,
        max_auto_download_size: 1024 * 1024,
        ..Default::default()
    };
    assert!(should_auto_download(&config, 100));
    assert!(should_auto_download(&config, 1024 * 1024));
    assert!(!should_auto_download(&config, 1024 * 1024 + 1));
}

#[test]
fn test_should_auto_download_disabled() {
    let config = NapCatConfig {
        auto_download_media: false,
        max_auto_download_size: 1024 * 1024,
        ..Default::default()
    };
    assert!(!should_auto_download(&config, 100));
}

fn media(path: &str, kind: &str, name: Option<&str>) -> DownloadedMedia {
    DownloadedMedia {
        local_path: path.to_string(),
        url: format!("http://x/{}", path),
        media_type: kind.to_string(),
        filename: name.map(|n| n.to_string()),
        size: 10,
    }
}

#[test]
fn enhanced_content_lists_downloads() {
    assert_eq!(build_enhanced_content("hi", &[], "user:1"), "hi");
    let downloaded = vec![
        media("/d/a.jpg", "image", None),
        media("/d/b.pdf", "file", Some("b.pdf")),
        media("/d/c.jpg", "image", None),
        media("/d/x", "file", None),
    ];
    let content = build_enhanced_content("hello", &downloaded, "user:1");
    let expected_head = "hello\n\n已下载的媒体文件：\n\n图片 (2 个)：\n- /d/a.jpg\n- /d/c.jpg\n\n文件 (2 个)：\n- b.pdf [PDF文档] (路径: /d/b.pdf)\n- 未知文件 [其他文件] (路径: /d/x)\n\n---\n";
    assert!(content.starts_with(expected_head), "{}", content);
    assert!(content.contains("【重要提示 - 媒体文件处理规则】"));
    assert!(content.ends_with("请使用相应的工具处理。\n"));
    let no_text = build_enhanced_content("", &downloaded[..1], "user:1");
    assert!(no_text.starts_with("已下载的媒体文件：\n\n图片 (1 个)：\n- /d/a.jpg\n\n---\n"));
}

#[test]
fn metadata_describes_each_download() {
    let downloaded = vec![media("/d/b.pdf", "file", Some("b.pdf")), media("/d/a.png", "image", None)];
    let meta = build_media_metadata(&downloaded);
    match &meta {
        JsonValue::Object(entries) => {
            assert_eq!(entries[0].0, "downloaded_media");
            assert_eq!(entries[1].0, "media_paths");
            match &entries[1].1 {
                JsonValue::Array(paths) => {
                    assert_eq!(paths.len(), 2);
                    assert!(matches!(&paths[0], JsonValue::Str(p) if p == "/d/b.pdf"));
                }
                other => panic!("unexpected {:?}", other),
            }
            match &entries[0].1 {
                JsonValue::Array(items) => {
                    assert_eq!(items[0].get_str("file_type"), Some("PDF文档".to_string()));
                    assert_eq!(items[1].get_str("file_type"), Some("其他文件".to_string()));
                    assert_eq!(items[0].get_str("type"), Some("file".to_string()));
                }
                other => panic!("unexpected {:?}", other),
            }
        }
        other => panic!("unexpected {:?}", other),
    }
}

#[test]
fn segment_plans_follow_segment_kinds() {
    let config = NapCatConfig { auto_download_media: true, ..Default::default() };
    let segments = vec![
        MessageSegment::text("hi"),
        MessageSegment::Image {
            file: "abc.image".to_string(),
            url: None,
            summary: None,
            sub_type: None,
            file_size: Some(2048),
            cache: None,
            proxy: None,
            timeout: None,
        },
        MessageSegment::record("v.amr"),
        MessageSegment::File {
            file: "f1".to_string(),
            file_id: Some("fid".to_string()),
            url: None,
            name: Some("report.pdf".to_string()),
            size: Some(99),
            busid: None,
        },
    ];
    let plans = segment_plans(&config, &segments, "user:42");
    assert_eq!(plans.len(), 4);
    assert!(matches!(plans[0], SegmentPlan::Skip));
    match &plans[1] {
        SegmentPlan::QueryMediaUrl { request, media_type, size } => {
            assert_eq!(request.action, "get_image");
            assert_eq!(request.params.get_str("file"), Some("abc.image".to_string()));
            assert_eq!(*media_type, MediaType::Image);
            assert_eq!(*size, 2048);
        }
        other => panic!("unexpected {:?}", other),
    }
    match &plans[2] {
        SegmentPlan::QueryMediaUrl { request, media_type, size } => {
            assert_eq!(request.action, "get_record");
            assert_eq!(request.params.get_str("out_format"), Some("mp3".to_string()));
            assert_eq!(*media_type, MediaType::Voice);
            assert_eq!(*size, 0);
        }
        other => panic!("unexpected {:?}", other),
    }
    match &plans[3] {
        SegmentPlan::QueryPrivateFileUrl { request, filename, size } => {
            assert_eq!(request.action, "get_private_file_url");
            assert_eq!(request.params.get_str("file_id"), Some("fid".to_string()));
            assert_eq!(request.params.get_str("user_id"), Some("42".to_string()));
            assert_eq!(filename, "report.pdf");
            assert_eq!(*size, 99);
        }
        other => panic!("unexpected {:?}", other),
    }
    let group = plan_segment(&segments[3], "group:7");
    match group {
        SegmentPlan::DownloadFile { url, filename, .. } => {
            assert_eq!(url, "f1");
            assert_eq!(filename, "report.pdf");
        }
        other => panic!("unexpected {:?}", other),
    }
    let off = NapCatConfig::default();
    assert!(segment_plans(&off, &segments, "user:42").is_empty());
}

#[test]
fn media_url_answers() {
    let ok = ApiResponse {
        status: "ok".to_string(),
        retcode: 0,
        data: JsonValue::Object(vec![
            ("url".to_string(), JsonValue::Str("http://h/f.jpg".to_string())),
            ("file_name".to_string(), JsonValue::Str("f.jpg".to_string())),
        ]),
        message: String::new(),
        wording: String::new(),
        echo: None,
    };
    assert_eq!(
        media_url_from_response(&ok),
        Some(("http://h/f.jpg".to_string(), Some("f.jpg".to_string())))
    );
    let failed = ApiResponse { status: "failed".to_string(), retcode: 1, ..ok_clone(&ok) };
    assert_eq!(media_url_from_response(&failed), None);
    let no_url = ApiResponse { data: JsonValue::Object(vec![]), ..ok_clone(&ok) };
    assert_eq!(media_url_from_response(&no_url), None);
}

fn ok_clone(r: &ApiResponse) -> ApiResponse {
    ApiResponse {
        status: r.status.clone(),
        retcode: r.retcode,
        data: r.data.deep_clone(),
        message: r.message.clone(),
        wording: r.wording.clone(),
        echo: r.echo.clone(),
    }
}

#[test]
fn downloaded_records() {
    let result = UnifiedDownloadResult {
        local_path: "/d/a.jpg".to_string(),
        source_url: "http://h/a.jpg".to_string(),
        actual_url: "http://h/a.jpg".to_string(),
        media_type: MediaType::Image,
        filename: "a.jpg".to_string(),
        size: 5,
        strategy_used: DownloadStrategy::DirectHttp,
        duration_ms: 1,
    };
    let m = DownloadedMedia::from_result(result);
    assert_eq!(m.media_type, "image");
    assert_eq!(m.filename, Some("a.jpg".to_string()));
    let e = downloaded_entry("/p".to_string(), "u".to_string(), MediaType::File, None, 3);
    assert_eq!(e.media_type, "file");
    assert_eq!(e.size, 3);
}

fn saved(path: &str, name: &str) -> UnifiedDownloadResult {
    UnifiedDownloadResult {
        local_path: path.to_string(),
        source_url: "http://h/x".to_string(),
        actual_url: "http://h/x".to_string(),
        media_type: MediaType::File,
        filename: name.to_string(),
        size: 9,
        strategy_used: DownloadStrategy::DirectHttp,
        duration_ms: 1,
    }
}

#[test]
fn queried_media_is_downloaded_within_the_limit_only() {
    let config = NapCatConfig { auto_download_media: true, max_auto_download_size: 100, ..Default::default() };
    let plan = |size: usize| SegmentPlan::QueryMediaUrl {
        request: ApiRequest::get_image(Some("f.jpg"), None, None),
        media_type: MediaType::Image,
        size,
    };
    assert!(download_task_after_query(&config, &plan(10), None).is_none());
    assert!(download_task_after_query(&config, &plan(101), Some(("http://h/i".to_string(), None))).is_none());
    let t = download_task_after_query(&config, &plan(100), Some(("http://h/i".to_string(), None))).unwrap();
    assert_eq!(t.url, "http://h/i");
    assert_eq!(t.filename, "");
    assert_eq!(t.media_type, MediaType::Image);
    let mut got: Vec<DownloadedMedia> = Vec::new();
    record_download(&mut got, t, Ok::<_, String>(saved("/d/1.jpg", "1.jpg")));
    assert_eq!(got.len(), 1);
    assert_eq!(got[0].filename, None);
    assert_eq!(got[0].media_type, "image");
    assert_eq!(got[0].size, 100);
    let t = download_task_after_query(&config, &plan(5), Some(("http://h/j".to_string(), Some("j.png".to_string())))).unwrap();
    assert_eq!(t.filename, "j.png");
    record_download(&mut got, t, Err::<UnifiedDownloadResult, _>("failed".to_string()));
    assert_eq!(got.len(), 1);
}

#[test]
fn files_record_the_saved_name() {
    let config = NapCatConfig { auto_download_media: true, max_auto_download_size: 1, ..Default::default() };
    let private = SegmentPlan::QueryPrivateFileUrl {
        request: ApiRequest::get_private_file_url("fid", Some("42"), None),
        filename: "report.pdf".to_string(),
        size: 5000,
    };
    assert!(direct_download_task(&private).is_none());
    let t = download_task_after_query(&config, &private, Some(("http://h/p".to_string(), Some("x".to_string())))).unwrap();
    assert_eq!(t.filename, "report.pdf");
    let mut got: Vec<DownloadedMedia> = Vec::new();
    record_download(&mut got, t, Ok::<_, String>(saved("/d/report_1.pdf", "report_1.pdf")));
    assert_eq!(got[0].filename, Some("report_1.pdf".to_string()));
    assert_eq!(got[0].url, "http://h/p");
    assert_eq!(got[0].size, 5000);
    let direct = SegmentPlan::DownloadFile { url: "http://h/g".to_string(), filename: "g.zip".to_string(), size: 7 };
    assert!(download_task_after_query(&config, &direct, Some(("http://h/z".to_string(), None))).is_none());
    let t = direct_download_task(&direct).unwrap();
    assert_eq!(t.url, "http://h/g");
    assert_eq!(t.media_type, MediaType::File);
    record_download(&mut got, t, Ok::<_, String>(saved("/d/g.zip", "g.zip")));
    assert_eq!(got[1].local_path, "/d/g.zip");
    assert_eq!(got[1].filename, Some("g.zip".to_string()));
}
