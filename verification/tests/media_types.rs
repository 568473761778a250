use blockcell::media_types::{
    strategy_fallback_order, DownloadConfig, DownloadStrategy, FileType, MediaType, NapCatMediaApi,
    UrlDetectionResult, UrlType,
};

#[test]
fn test_url_type_as_str() {
    assert_eq!(UrlType::NapCatProxy.as_str(), "napcat_proxy");
    assert_eq!(UrlType::QqImageCdn.as_str(), "qq_image_cdn");
    assert_eq!(UrlType::Unknown.as_str(), "unknown");
}

#[test]
fn test_media_type_parse() {
    assert_eq!(MediaType::parse("image"), Some(MediaType::Image));
    assert_eq!(MediaType::parse("VOICE"), Some(MediaType::Voice));
    assert_eq!(MediaType::parse("unknown"), None);
}

#[test]
fn test_media_type_from_extension() {
    assert_eq!(MediaType::from_extension("jpg"), MediaType::Image);
    assert_eq!(MediaType::from_extension("mp3"), MediaType::Voice);
    assert_eq!(MediaType::from_extension("mp4"), MediaType::Video);
    assert_eq!(MediaType::from_extension("pdf"), MediaType::File);
}

#[test]
fn test_detect_media_type() {
    assert_eq!(MediaType::from_extension("jpg"), MediaType::Image);
    assert_eq!(MediaType::from_extension("mp3"), MediaType::Voice);
    assert_eq!(MediaType::from_extension("mp4"), MediaType::Video);
    assert_eq!(MediaType::from_extension("pdf"), MediaType::File);
}

#[test]
fn test_file_type_from_extension() {
    assert_eq!(FileType::from_extension("pdf"), FileType::Pdf);
    assert_eq!(FileType::from_extension("doc"), FileType::Word);
    assert_eq!(FileType::from_extension("docx"), FileType::Word);
    assert_eq!(FileType::from_extension("xls"), FileType::Excel);
    assert_eq!(FileType::from_extension("xlsx"), FileType::Excel);
    assert_eq!(FileType::from_extension("ppt"), FileType::PowerPoint);
    assert_eq!(FileType::from_extension("pptx"), FileType::PowerPoint);
    assert_eq!(FileType::from_extension("txt"), FileType::Text);
    assert_eq!(FileType::from_extension("md"), FileType::Text);
    assert_eq!(FileType::from_extension("zip"), FileType::Archive);
    assert_eq!(FileType::from_extension("rs"), FileType::Code);
    assert_eq!(FileType::from_extension("py"), FileType::Code);
    assert_eq!(FileType::from_extension("jpg"), FileType::Image);
    assert_eq!(FileType::from_extension("png"), FileType::Image);
    assert_eq!(FileType::from_extension("mp3"), FileType::Audio);
    assert_eq!(FileType::from_extension("mp4"), FileType::Video);
    assert_eq!(FileType::from_extension("unknown"), FileType::Other);
}

#[test]
fn test_file_type_from_filename() {
    assert_eq!(FileType::from_filename("document.pdf"), FileType::Pdf);
    assert_eq!(FileType::from_filename("report.docx"), FileType::Word);
    assert_eq!(
        FileType::from_filename("KioCafe VQM QR Code Scanning Requirement_V20260302.pdf"),
        FileType::Pdf
    );
    assert_eq!(FileType::from_filename("archive.tar.gz"), FileType::Archive);
    assert_eq!(FileType::from_filename("no_extension"), FileType::Other);
}

#[test]
fn test_file_type_description() {
    assert_eq!(FileType::Pdf.description(), "PDF文档");
    assert_eq!(FileType::Word.description(), "Word文档");
    assert_eq!(FileType::Image.description(), "图片");
    assert_eq!(FileType::Video.description(), "视频文件");
}

#[test]
fn types_test_download_config_default() {
    let config = DownloadConfig::default();
    assert_eq!(config.max_retries, 3);
    assert_eq!(config.timeout_secs, 120);
    assert_eq!(config.max_file_size, 100 * 1024 * 1024);
}

#[test]
fn test_url_detection_result_simple() {
    let result = UrlDetectionResult::simple(UrlType::ExternalHttp, DownloadStrategy::DirectHttp);
    assert_eq!(result.url_type, UrlType::ExternalHttp);
    assert_eq!(result.strategy, DownloadStrategy::DirectHttp);
    assert!(!result.needs_napcat_api);
    assert!(result.napcat_api.is_none());
}

#[test]
fn test_url_detection_result_with_api() {
    let result = UrlDetectionResult::with_api(
        UrlType::QqImageCdn,
        DownloadStrategy::NapCatStream,
        NapCatMediaApi::GetImage,
    );
    assert_eq!(result.url_type, UrlType::QqImageCdn);
    assert!(result.needs_napcat_api);
    assert_eq!(result.napcat_api, Some(NapCatMediaApi::GetImage));
}

#[test]
fn media_type_names_parse_back_in_any_case() {
    for m in [MediaType::Image, MediaType::Voice, MediaType::Video, MediaType::File] {
        assert_eq!(MediaType::parse(m.as_str()), Some(m));
        assert_eq!(MediaType::parse(&m.as_str().to_uppercase()), Some(m));
    }
    assert_eq!(MediaType::parse("Photo"), Some(MediaType::Image));
    assert_eq!(MediaType::parse("record"), Some(MediaType::Voice));
}

#[test]
fn common_extensions_are_recognised() {
    for m in [MediaType::Image, MediaType::Voice, MediaType::Video] {
        for e in m.common_extensions() {
            assert_eq!(MediaType::from_extension(e), m);
        }
    }
    assert!(MediaType::File.common_extensions().is_empty());
    assert_eq!(MediaType::from_extension("JPEG"), MediaType::Image);
}

#[test]
fn file_type_extension_ignores_case() {
    assert_eq!(FileType::from_extension("PDF"), FileType::Pdf);
    assert_eq!(FileType::from_filename("Photo.JPG"), FileType::Image);
}

#[test]
fn strategy_names_and_api_actions() {
    assert_eq!(DownloadStrategy::DirectHttp.as_str(), "direct_http");
    assert_eq!(DownloadStrategy::NapCatStream.as_str(), "napcat_stream");
    assert_eq!(NapCatMediaApi::GetImage.as_action(), "get_image");
    assert_eq!(NapCatMediaApi::GetFile.as_action(), "get_file");
    assert_eq!(
        strategy_fallback_order(),
        [
            DownloadStrategy::NapCatStream,
            DownloadStrategy::NapCatRegular,
            DownloadStrategy::DirectHttp
        ]
    );
}

#[test]
fn ascii_case_is_ignored() {
    assert_eq!(FileType::from_extension("PDF"), FileType::from_extension("pdf"));
    assert_eq!(FileType::from_extension("Mp4"), FileType::Video);
    assert_eq!(FileType::from_extension("ts"), FileType::Code);
    assert_eq!(FileType::from_filename("REPORT.PDF"), FileType::Pdf);
    assert_eq!(MediaType::from_extension("JPG"), MediaType::Image);
    assert_eq!(MediaType::from_extension("FLAC"), MediaType::Voice);
    assert_eq!(MediaType::parse("VIDEO"), Some(MediaType::Video));
    assert_eq!(MediaType::parse("Photo"), Some(MediaType::Image));
}
