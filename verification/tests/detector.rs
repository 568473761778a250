use blockcell::config::NapCatConfig;
use blockcell::detector::{
    detect_url_type, extract_domain, extract_filename_from_url, is_qq_file_cdn, is_qq_image_cdn,
    is_valid_download_url,
};
use blockcell::media_types::{DownloadStrategy, NapCatMediaApi, UrlType};

fn test_config() -> NapCatConfig {
    NapCatConfig {
        ..Default::default()
    }
}

#[test]
fn test_detect_base64_url() {
    let config = test_config();
    let result = detect_url_type("base64://aGVsbG8gd29ybGQ=", &config);
    assert_eq!(result.url_type, UrlType::Base64Data);
    assert_eq!(result.strategy, DownloadStrategy::DecodeBase64);
}

#[test]
fn test_detect_local_file_url() {
    let config = test_config();
    let result = detect_url_type("file:///tmp/test.jpg", &config);
    assert_eq!(result.url_type, UrlType::LocalPath);
    assert_eq!(result.strategy, DownloadStrategy::ReadLocalFile);
}

#[test]
fn test_detect_data_uri() {
    let config = test_config();
    let result = detect_url_type("data:image/png;base64,iVBORw0KGgo=", &config);
    assert_eq!(result.url_type, UrlType::Base64Data);
    assert_eq!(result.strategy, DownloadStrategy::DecodeBase64);
}

#[test]
fn test_detect_qq_image_cdn() {
    let config = test_config();
    let result = detect_url_type("https://gchat.qpic.cn/gchatpic_new/123456/0", &config);
    assert_eq!(result.url_type, UrlType::QqImageCdn);
    assert_eq!(result.strategy, DownloadStrategy::DirectHttp);
    assert!(!result.needs_napcat_api);
}

#[test]
fn test_detect_qq_file_cdn() {
    let config = test_config();
    let result = detect_url_type("https://tjc-download.ftn.qq.com/file", &config);
    assert_eq!(result.url_type, UrlType::QqFileCdn);
    assert_eq!(result.strategy, DownloadStrategy::DirectHttp);
}

#[test]
fn test_detect_napcat_proxy_url() {
    let config = test_config();
    let result = detect_url_type("http://127.0.0.1:3000/files/abc123", &config);
    assert_eq!(result.url_type, UrlType::NapCatProxy);
    assert_eq!(result.strategy, DownloadStrategy::NapCatStream);
}

#[test]
fn test_detect_external_url() {
    let config = test_config();
    let result = detect_url_type("https://example.com/image.jpg", &config);
    assert_eq!(result.url_type, UrlType::ExternalHttp);
    assert_eq!(result.strategy, DownloadStrategy::DirectHttp);
}

#[test]
fn test_extract_domain() {
    assert_eq!(extract_domain("https://example.com/path"), "example.com");
    assert_eq!(extract_domain("http://localhost:3000/api"), "localhost");
    assert_eq!(
        extract_domain("https://gchat.qpic.cn:443/path"),
        "gchat.qpic.cn"
    );
}

#[test]
fn test_extract_filename_from_url() {
    assert_eq!(
        extract_filename_from_url("https://example.com/path/to/file.jpg?param=value"),
        Some("file.jpg".to_string())
    );
    assert_eq!(
        extract_filename_from_url("https://example.com/image.png"),
        Some("image.png".to_string())
    );
    assert_eq!(extract_filename_from_url("base64://data"), None);
    assert_eq!(
        extract_filename_from_url("file:///tmp/test.pdf"),
        Some("test.pdf".to_string())
    );
}

#[test]
fn test_is_valid_download_url() {
    assert!(is_valid_download_url("https://example.com/file.jpg"));
    assert!(is_valid_download_url("base64://data"));
    assert!(is_valid_download_url("file:///tmp/file.txt"));
    assert!(is_valid_download_url("file_id_123"));
    assert!(!is_valid_download_url(""));
    assert!(!is_valid_download_url("   "));
}

#[test]
fn test_is_qq_image_cdn() {
    assert!(is_qq_image_cdn("gchat.qpic.cn"));
    assert!(is_qq_image_cdn("multimedia.nt.qq.com.cn"));
    assert!(is_qq_image_cdn("sub.gchat.qpic.cn"));
    assert!(!is_qq_image_cdn("example.com"));
}

#[test]
fn test_is_qq_file_cdn() {
    assert!(is_qq_file_cdn("tjc-download.ftn.qq.com"));
    assert!(is_qq_file_cdn("ftn.qq.com"));
    assert!(!is_qq_file_cdn("example.com"));
}

#[test]
fn detect_unknown_source_needs_get_file() {
    let config = test_config();
    let result = detect_url_type("abc123def", &config);
    assert_eq!(result.url_type, UrlType::Unknown);
    assert_eq!(result.strategy, DownloadStrategy::NapCatStream);
    assert!(result.needs_napcat_api);
    assert_eq!(result.napcat_api, Some(NapCatMediaApi::GetFile));
}

#[test]
fn detect_qq_cdn_is_never_napcat_stream() {
    let config = test_config();
    for url in [
        "https://multimedia.nt.qq.com.cn/download?appid=1",
        "http://c2cpicdw.qpic.cn/offpic/1",
        "https://download.ftn.qq.com/ftn_handler/x",
    ] {
        let r = detect_url_type(url, &config);
        assert_eq!(r.strategy, DownloadStrategy::DirectHttp);
        assert!(!r.needs_napcat_api);
    }
}

#[test]
fn valid_download_url_rejects_spaces_in_file_ids() {
    assert!(!is_valid_download_url("file id"));
    assert!(is_valid_download_url("dir/file-1.jpg"));
    assert!(!is_valid_download_url("abc?x=1"));
}

#[test]
fn filename_without_extension_is_none() {
    assert_eq!(extract_filename_from_url("https://example.com/path/noext"), None);
    assert_eq!(extract_filename_from_url("https://example.com/"), None);
}

#[test]
fn domains_are_stable() {
    for url in ["https://example.com:8080/a/b", "http://h", "example.org/x", "https://https://x/y"] {
        let d = extract_domain(url);
        assert!(!d.contains('/') && !d.contains(':'));
        assert_eq!(extract_domain(&d), d);
    }
}
