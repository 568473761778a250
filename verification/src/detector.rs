//! URL classification for media download: which kind of source a URL is and
//! which strategy downloads it.
use vstd::prelude::*;

use crate::config::NapCatConfig;
use crate::media_types::{DownloadStrategy, NapCatMediaApi, UrlDetectionResult, UrlType};
use crate::text::{
    after_last, all_ascii, alphanumeric_of, before_first, chars_of, contains, contains_seq, has_prefix,
    is_alphanumeric, is_ascii_alnum, first_pos, lemma_first_pos, prefix_before, strip_prefix, suffix_after, trim, trimmed, starts_with,
};

verus! {

pub open spec fn simple_result(t: UrlType, s: DownloadStrategy) -> UrlDetectionResult {
    UrlDetectionResult { url_type: t, strategy: s, needs_napcat_api: false, napcat_api: None }
}

pub open spec fn is_http(u: Seq<char>) -> bool {
    has_prefix(u, "http://"@) || has_prefix(u, "https://"@)
}

/// The URL without its `https://` or `http://` scheme.
pub open spec fn without_http_scheme(u: Seq<char>) -> Seq<char> {
    if has_prefix(u, "https://"@) {
        u.skip(8)
    } else if has_prefix(u, "http://"@) {
        u.skip(7)
    } else {
        u
    }
}

/// The host of a URL: after the scheme, before the first '/', without port.
pub open spec fn domain_of(u: Seq<char>) -> Seq<char> {
    before_first(before_first(without_http_scheme(u), '/'), ':')
}

proof fn lemma_before_first(s: Seq<char>, c: char)
    ensures
        !before_first(s, c).contains(c),
        !s.contains(c) ==> before_first(s, c) == s,
        forall|d: char| !s.contains(d) ==> !before_first(s, c).contains(d),
{
    lemma_first_pos(s, c);
    let b = before_first(s, c);
    assert forall|d: char| !s.contains(d) implies !b.contains(d) by {
        if b.contains(d) {
            let j = choose|j: int| 0 <= j < b.len() && b[j] == d;
            assert(s[j] == d);
        }
    }
    if !s.contains(c) {
        if first_pos(s, c) < s.len() {
            assert(s[first_pos(s, c)] == c);
        }
        assert(b =~= s);
    }
    if b.contains(c) {
        let j = choose|j: int| 0 <= j < b.len() && b[j] == c;
        assert(s[j] == c);
    }
}

/// A URL's domain holds neither '/' nor ':', and taking the domain of a
/// domain gives it back.
pub proof fn law_domain_is_idempotent(u: Seq<char>)
    ensures
        !domain_of(u).contains('/'),
        !domain_of(u).contains(':'),
        domain_of(domain_of(u)) == domain_of(u),
{
    reveal_strlit("https://");
    reveal_strlit("http://");
    let a = before_first(without_http_scheme(u), '/');
    lemma_before_first(without_http_scheme(u), '/');
    lemma_before_first(a, ':');
    let d = domain_of(u);
    assert(!has_prefix(d, "https://"@)) by {
        if has_prefix(d, "https://"@) {
            assert(d.subrange(0, 8)[5] == ':');
            assert(d[5] == ':');
        }
    }
    assert(!has_prefix(d, "http://"@)) by {
        if has_prefix(d, "http://"@) {
            assert(d.subrange(0, 7)[4] == ':');
            assert(d[4] == ':');
        }
    }
    assert(without_http_scheme(d) == d);
    lemma_before_first(d, '/');
    lemma_before_first(d, ':');
}

/// A NapCat proxy URL: an HTTP(S) URL with a NapCat file path.
pub open spec fn is_napcat_proxy(u: Seq<char>) -> bool {
    (contains_seq(u, "/files/"@) || contains_seq(u, "/download/"@) || contains_seq(
        u,
        "/file/"@,
    )) && is_http(u)
}

pub open spec fn is_qq_image_domain(d: Seq<char>) -> bool {
    contains_seq(d, "gchat.qpic.cn"@) || contains_seq(d, "multimedia.nt.qq.com.cn"@)
        || contains_seq(d, "c2cpicdw.qpic.cn"@) || contains_seq(d, "gxh.photo.qq.com"@)
}

pub open spec fn is_qq_file_domain(d: Seq<char>) -> bool {
    contains_seq(d, "tjc-download.ftn.qq.com"@) || contains_seq(d, "ftn.qq.com"@)
        || contains_seq(d, "download.ftn.qq.com"@)
}

/// The classification of a URL, tried in this order.
pub open spec fn detection_of(u: Seq<char>) -> UrlDetectionResult {
    if has_prefix(u, "base64://"@) {
        simple_result(UrlType::Base64Data, DownloadStrategy::DecodeBase64)
    } else if has_prefix(u, "file:///"@) || has_prefix(u, "file://"@) {
        simple_result(UrlType::LocalPath, DownloadStrategy::ReadLocalFile)
    } else if has_prefix(u, "data:"@) {
        simple_result(UrlType::Base64Data, DownloadStrategy::DecodeBase64)
    } else if is_napcat_proxy(u) {
        simple_result(UrlType::NapCatProxy, DownloadStrategy::NapCatStream)
    } else if is_qq_image_domain(domain_of(u)) {
        simple_result(UrlType::QqImageCdn, DownloadStrategy::DirectHttp)
    } else if is_qq_file_domain(domain_of(u)) {
        simple_result(UrlType::QqFileCdn, DownloadStrategy::DirectHttp)
    } else if is_http(u) {
        simple_result(UrlType::ExternalHttp, DownloadStrategy::DirectHttp)
    } else {
        UrlDetectionResult {
            url_type: UrlType::Unknown,
            strategy: DownloadStrategy::NapCatStream,
            needs_napcat_api: true,
            napcat_api: Some(NapCatMediaApi::GetFile),
        }
    }
}

/// A character allowed in a file identifier.
pub open spec fn is_file_id_char(c: char) -> bool {
    alphanumeric_of(c) || c == '_' || c == '-' || c == '.' || c == '/'
}

/// A URL that looks downloadable.
pub open spec fn valid_download_url(u: Seq<char>) -> bool {
    if trim(u).len() == 0 {
        false
    } else if has_prefix(u, "base64://"@) || has_prefix(u, "data:"@) {
        true
    } else if has_prefix(u, "file://"@) {
        true
    } else if is_http(u) {
        true
    } else {
        !contains_seq(u, " "@) && forall|i: int| 0 <= i < u.len() ==> is_file_id_char(u[i])
    }
}

/// An ASCII character allowed in a file identifier: an ASCII letter or
/// digit, '_', '-', '.' or '/'.
pub open spec fn is_ascii_file_id_char(c: char) -> bool {
    is_ascii_alnum(c) || c == '_' || c == '-' || c == '.' || c == '/'
}

/// `valid_download_url` for an ASCII text, where a file identifier may hold
/// ASCII letters and digits.
pub open spec fn ascii_download_url(u: Seq<char>) -> bool {
    if trim(u).len() == 0 {
        false
    } else if has_prefix(u, "base64://"@) || has_prefix(u, "data:"@) {
        true
    } else if has_prefix(u, "file://"@) {
        true
    } else if is_http(u) {
        true
    } else {
        !contains_seq(u, " "@) && forall|i: int| 0 <= i < u.len() ==> is_ascii_file_id_char(u[i])
    }
}

/// The file name a URL carries.
pub open spec fn filename_of_url(u: Seq<char>) -> Option<Seq<char>> {
    if has_prefix(u, "base64://"@) {
        None
    } else if has_prefix(u, "file://"@) {
        Some(after_last(u.skip(7), '/'))
    } else {
        let seg = after_last(before_first(u, '?'), '/');
        if seg.len() > 0 && seg.contains('.') {
            Some(seg)
        } else {
            None
        }
    }
}

/// Classify a URL and suggest a download strategy.
///
/// QQ CDN URLs are always downloaded directly over HTTP; only an unknown
/// source (a possible file id) needs a NapCat API call first.
pub fn detect_url_type(url: &str, config: &NapCatConfig) -> (r: UrlDetectionResult)
    ensures
        r == detection_of(url@),
{
    if starts_with(url, "base64://") {
        return UrlDetectionResult::simple(UrlType::Base64Data, DownloadStrategy::DecodeBase64);
    }
    if starts_with(url, "file:///") || starts_with(url, "file://") {
        return UrlDetectionResult::simple(UrlType::LocalPath, DownloadStrategy::ReadLocalFile);
    }
    if starts_with(url, "data:") {
        return UrlDetectionResult::simple(UrlType::Base64Data, DownloadStrategy::DecodeBase64);
    }
    let domain = extract_domain(url);
    if is_napcat_proxy_url(url, config) {
        return UrlDetectionResult::simple(UrlType::NapCatProxy, DownloadStrategy::NapCatStream);
    }
    if is_qq_image_cdn(domain.as_str()) {
        return UrlDetectionResult::simple(UrlType::QqImageCdn, DownloadStrategy::DirectHttp);
    }
    if is_qq_file_cdn(domain.as_str()) {
        return UrlDetectionResult::simple(UrlType::QqFileCdn, DownloadStrategy::DirectHttp);
    }
    if starts_with(url, "http://") || starts_with(url, "https://") {
        return UrlDetectionResult::simple(UrlType::ExternalHttp, DownloadStrategy::DirectHttp);
    }
    UrlDetectionResult::with_api(
        UrlType::Unknown,
        DownloadStrategy::NapCatStream,
        NapCatMediaApi::GetFile,
    )
}

/// The domain of a URL, without scheme, path and port.
pub fn extract_domain(url: &str) -> (r: String)
    ensures
        r@ == domain_of(url@),
{
    proof {
        reveal_strlit("https://");
        reveal_strlit("http://");
    }
    let rest = match strip_prefix(url, "https://") {
        Some(r) => r,
        None => match strip_prefix(url, "http://") {
            Some(r) => r,
            None => crate::text::owned(url),
        },
    };
    let host = prefix_before(rest.as_str(), '/');
    prefix_before(host.as_str(), ':')
}

/// A URL with a common NapCat file path that is an HTTP(S) URL.
fn is_napcat_proxy_url(url: &str, _config: &NapCatConfig) -> (r: bool)
    ensures
        r == is_napcat_proxy(url@),
{
    (contains(url, "/files/") || contains(url, "/download/") || contains(url, "/file/")) && (
    starts_with(url, "http://") || starts_with(url, "https://"))
}

/// The domain belongs to the QQ image CDN.
pub fn is_qq_image_cdn(domain: &str) -> (r: bool)
    ensures
        r == is_qq_image_domain(domain@),
{
    contains(domain, "gchat.qpic.cn") || contains(domain, "multimedia.nt.qq.com.cn") || contains(
        domain,
        "c2cpicdw.qpic.cn",
    ) || contains(domain, "gxh.photo.qq.com")
}

/// The domain belongs to the QQ file CDN.
pub fn is_qq_file_cdn(domain: &str) -> (r: bool)
    ensures
        r == is_qq_file_domain(domain@),
{
    contains(domain, "tjc-download.ftn.qq.com") || contains(domain, "ftn.qq.com") || contains(
        domain,
        "download.ftn.qq.com",
    )
}

/// The URL looks like a valid download source: embedded data, a local file,
/// an HTTP(S) URL, or a file identifier.
#[verifier::loop_isolation(false)]
pub fn is_valid_download_url(url: &str) -> (r: bool)
    ensures
        r == valid_download_url(url@),
        all_ascii(url@) ==> r == ascii_download_url(url@),
{
    let t = trimmed(url);
    if t.as_str().unicode_len() == 0 {
        return false;
    }
    if starts_with(url, "base64://") || starts_with(url, "data:") {
        return true;
    }
    if starts_with(url, "file://") {
        return true;
    }
    if starts_with(url, "http://") || starts_with(url, "https://") {
        return true;
    }
    if contains(url, " ") {
        return false;
    }
    let v = chars_of(url);
    let mut i: usize = 0;
    while i < v.len()
        invariant
            i <= v.len(),
            v@ == url@,
            forall|j: int| 0 <= j < i ==> is_file_id_char(v@[j]),
            all_ascii(url@) ==> forall|j: int| 0 <= j < i ==> is_ascii_file_id_char(v@[j]),
        decreases v.len() - i,
    {
        let c = v[i];
        if !(is_alphanumeric(c) || c == '_' || c == '-' || c == '.' || c == '/') {
            assert(!is_file_id_char(url@[i as int]));
            assert(all_ascii(url@) ==> !is_ascii_file_id_char(url@[i as int])) by {
                if all_ascii(url@) {
                    assert((url@[i as int] as u32) < 128);
                }
            }
            return false;
        }
        assert(all_ascii(url@) ==> is_ascii_file_id_char(c)) by {
            if all_ascii(url@) {
                assert((url@[i as int] as u32) < 128);
            }
        }
        i += 1;
    }
    true
}

/// The file name a URL carries, if any: the last path segment of a
/// `file://` URL, or of another URL (query removed) when it holds a '.'.
pub fn extract_filename_from_url(url: &str) -> (r: Option<String>)
    ensures
        r is Some <==> filename_of_url(url@) is Some,
        r matches Some(f) ==> f@ == filename_of_url(url@)->0,
{
    proof {
        reveal_strlit("file://");
    }
    if starts_with(url, "base64://") {
        return None;
    }
    if let Some(path) = strip_prefix(url, "file://") {
        let name = suffix_after(path.as_str(), '/');
        return Some(name);
    }
    let no_query = prefix_before(url, '?');
    let seg = suffix_after(no_query.as_str(), '/');
    let sv = chars_of(seg.as_str());
    if sv.len() > 0 && crate::text::vec_first_pos(&sv, '.') < sv.len() {
        proof {
            crate::text::lemma_first_pos(sv@, '.');
        }
        Some(seg)
    } else {
        proof {
            crate::text::lemma_first_pos(sv@, '.');
            if sv@.len() > 0 {
                assert(!sv@.contains('.'));
            }
        }
        None
    }
}

/// QQ CDN addresses are always fetched directly over HTTP, and only a
/// source of unknown kind (a possible file id) needs a NapCat API call
/// first, which is then `get_file`.
pub proof fn law_detection_strategy(u: Seq<char>)
    ensures
        (detection_of(u).url_type == UrlType::QqImageCdn || detection_of(u).url_type
            == UrlType::QqFileCdn) ==> detection_of(u).strategy == DownloadStrategy::DirectHttp,
        detection_of(u).needs_napcat_api <==> detection_of(u).url_type == UrlType::Unknown,
        detection_of(u).needs_napcat_api <==> detection_of(u).napcat_api == Some(
            NapCatMediaApi::GetFile,
        ),
{
}

/// An HTTP(S) URL is never treated as a NapCat file id: it needs no NapCat
/// API call, and unless its path is a NapCat file path ("/files/",
/// "/download/", "/file/") or its domain is a QQ CDN, it is an external
/// HTTP URL fetched directly.
pub proof fn law_http_urls_are_fetched(u: Seq<char>)
    requires
        has_prefix(u, "http://"@) || has_prefix(u, "https://"@),
    ensures
        detection_of(u).url_type != UrlType::Unknown,
        !detection_of(u).needs_napcat_api,
        detection_of(u).napcat_api is None,
        !contains_seq(u, "/files/"@) && !contains_seq(u, "/download/"@) && !contains_seq(
            u,
            "/file/"@,
        ) && !is_qq_image_domain(domain_of(u)) && !is_qq_file_domain(domain_of(u)) ==> {
            &&& detection_of(u).url_type == UrlType::ExternalHttp
            &&& detection_of(u).strategy == DownloadStrategy::DirectHttp
        },
{
    reveal_strlit("http://");
    reveal_strlit("https://");
    reveal_strlit("base64://");
    reveal_strlit("file:///");
    reveal_strlit("file://");
    reveal_strlit("data:");
    assert(u.subrange(0, 7)[0] == 'h');
    assert(u[0] == 'h');
    assert(!has_prefix(u, "base64://"@)) by {
        if has_prefix(u, "base64://"@) {
            assert(u.subrange(0, 9)[0] == 'b');
        }
    }
    assert(!has_prefix(u, "file:///"@)) by {
        if has_prefix(u, "file:///"@) {
            assert(u.subrange(0, 8)[0] == 'f');
        }
    }
    assert(!has_prefix(u, "file://"@)) by {
        if has_prefix(u, "file://"@) {
            assert(u.subrange(0, 7)[0] == 'f');
        }
    }
    assert(!has_prefix(u, "data:"@)) by {
        if has_prefix(u, "data:"@) {
            assert(u.subrange(0, 5)[0] == 'd');
        }
    }
}

/// Embedded data and local files are never fetched over the network:
/// "base64://" URLs and "data:" URIs are decoded, "file://" URLs are read
/// from disk, none of them through a NapCat API call.
pub proof fn law_local_sources_are_not_fetched(u: Seq<char>)
    ensures
        has_prefix(u, "base64://"@) || has_prefix(u, "data:"@) ==> {
            &&& detection_of(u).url_type == UrlType::Base64Data
            &&& detection_of(u).strategy == DownloadStrategy::DecodeBase64
            &&& !detection_of(u).needs_napcat_api
        },
        has_prefix(u, "file://"@) ==> {
            &&& detection_of(u).url_type == UrlType::LocalPath
            &&& detection_of(u).strategy == DownloadStrategy::ReadLocalFile
            &&& !detection_of(u).needs_napcat_api
        },
{
    reveal_strlit("base64://");
    reveal_strlit("file:///");
    reveal_strlit("file://");
    reveal_strlit("data:");
    if has_prefix(u, "data:"@) {
        assert(u.subrange(0, 5)[0] == 'd');
        assert(!has_prefix(u, "base64://"@)) by {
            if has_prefix(u, "base64://"@) {
                assert(u.subrange(0, 9)[0] == 'b');
            }
        }
        assert(!has_prefix(u, "file://"@)) by {
            if has_prefix(u, "file://"@) {
                assert(u.subrange(0, 7)[0] == 'f');
            }
        }
        assert(!has_prefix(u, "file:///"@)) by {
            if has_prefix(u, "file:///"@) {
                assert(u.subrange(0, 8)[0] == 'f');
            }
        }
    }
    if has_prefix(u, "file://"@) {
        assert(u.subrange(0, 7)[0] == 'f');
        assert(!has_prefix(u, "base64://"@)) by {
            if has_prefix(u, "base64://"@) {
                assert(u.subrange(0, 9)[0] == 'b');
            }
        }
    }
}

} // verus!
