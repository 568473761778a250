//! Download requests and results, the set of downloaders, and the order in
//! which the download manager tries them.
use vstd::prelude::*;

use crate::base64_data::Base64DataDownloader;
use crate::config::NapCatConfig;
use crate::detector::{
    detect_url_type, detection_of, domain_of, is_http, is_qq_file_domain, is_qq_image_domain,
    simple_result,
};
use crate::direct_http::{direct_http_handles, DirectHttpDownloader};
use crate::error::Error;
use crate::json::JsonValue;
use crate::local_file::LocalFileDownloader;
use crate::media_types::{
    url_type_name, DownloadConfig, DownloadStrategy, MediaType, UrlDetectionResult, UrlType,
    strategy_fallback_order,
};
use crate::napcat_stream::NapCatStreamDownloader;
use crate::text::{has_prefix, owned, push_str};

verus! {

/// A request to download one media item.
#[derive(Debug)]
pub struct UnifiedDownloadRequest {
    /// URL or file identifier to download.
    pub source: String,
    /// Media type.
    pub media_type: MediaType,
    /// Optional file name.
    pub filename: Option<String>,
    /// Channel settings.
    pub config: NapCatConfig,
    /// Workspace directory.
    pub workspace: String,
    /// Chat the download belongs to.
    pub chat_id: String,
    /// The message segment's data, when there is one.
    pub segment_data: Option<JsonValue>,
}

impl UnifiedDownloadRequest {
    /// A request without file name and segment data.
    pub fn new(
        source: &str,
        media_type: MediaType,
        config: NapCatConfig,
        workspace: &str,
        chat_id: &str,
    ) -> (r: UnifiedDownloadRequest)
        ensures
            r.source@ == source@,
            r.media_type == media_type,
            r.filename is None,
            r.config == config,
            r.workspace@ == workspace@,
            r.chat_id@ == chat_id@,
            r.segment_data is None,
    {
        UnifiedDownloadRequest {
            source: owned(source),
            media_type,
            filename: None,
            config,
            workspace: owned(workspace),
            chat_id: owned(chat_id),
            segment_data: None,
        }
    }

    /// The same request with a file name.
    pub fn with_filename(self, filename: &str) -> (r: UnifiedDownloadRequest)
        ensures
            r.filename matches Some(f) && f@ == filename@,
            r.source == self.source,
            r.media_type == self.media_type,
            r.config == self.config,
            r.workspace == self.workspace,
            r.chat_id == self.chat_id,
            r.segment_data == self.segment_data,
    {
        let mut r = self;
        r.filename = Some(owned(filename));
        r
    }

    /// The same request with segment data.
    pub fn with_segment_data(self, data: JsonValue) -> (r: UnifiedDownloadRequest)
        ensures
            r.segment_data == Some(data),
            r.source == self.source,
            r.media_type == self.media_type,
            r.filename == self.filename,
            r.config == self.config,
            r.workspace == self.workspace,
            r.chat_id == self.chat_id,
    {
        let mut r = self;
        r.segment_data = Some(data);
        r
    }
}

/// The outcome of a successful download.
#[derive(Debug, Clone)]
pub struct UnifiedDownloadResult {
    /// Local file path.
    pub local_path: String,
    /// URL the download was asked for.
    pub source_url: String,
    /// URL the data actually came from.
    pub actual_url: String,
    /// Media type.
    pub media_type: MediaType,
    /// File name.
    pub filename: String,
    /// File size in bytes.
    pub size: usize,
    /// Strategy that downloaded it.
    pub strategy_used: DownloadStrategy,
    /// Download duration in milliseconds.
    pub duration_ms: u64,
}

/// One of the downloaders the manager holds.
#[derive(Debug, Clone)]
pub enum DownloaderKind {
    Base64Data(Base64DataDownloader),
    LocalFile(LocalFileDownloader),
    NapCatStream(NapCatStreamDownloader),
    DirectHttp(DirectHttpDownloader),
}

/// The downloader takes the URL under the detection result.
pub open spec fn kind_handles(k: DownloaderKind, u: Seq<char>, d: UrlDetectionResult) -> bool {
    match k {
        DownloaderKind::Base64Data(_) => d.strategy == DownloadStrategy::DecodeBase64 && (
        has_prefix(u, "base64://"@) || has_prefix(u, "data:"@)),
        DownloaderKind::LocalFile(_) => d.strategy == DownloadStrategy::ReadLocalFile && (
        has_prefix(u, "file://"@) || has_prefix(u, "file:"@)),
        DownloaderKind::NapCatStream(_) => (d.strategy == DownloadStrategy::NapCatStream
            || d.strategy == DownloadStrategy::NapCatRegular) && !has_prefix(u, "base64://"@)
            && !has_prefix(u, "file://"@),
        DownloaderKind::DirectHttp(_) => direct_http_handles(u, d.strategy),
    }
}

/// The name a downloader logs under.
pub open spec fn kind_name(k: DownloaderKind) -> Seq<char> {
    match k {
        DownloaderKind::Base64Data(_) => "base64_data"@,
        DownloaderKind::LocalFile(_) => "local_file"@,
        DownloaderKind::NapCatStream(_) => "napcat_stream"@,
        DownloaderKind::DirectHttp(_) => "direct_http"@,
    }
}

impl DownloaderKind {
    /// This downloader takes the URL (see `kind_handles`).
    pub fn can_handle(&self, url: &str, detection: &UrlDetectionResult) -> (r: bool)
        ensures
            r == kind_handles(*self, url@, *detection),
    {
        match self {
            DownloaderKind::Base64Data(d) => d.can_handle(url, detection),
            DownloaderKind::LocalFile(d) => d.can_handle(url, detection),
            DownloaderKind::NapCatStream(d) => d.can_handle(url, detection),
            DownloaderKind::DirectHttp(d) => d.can_handle(url, detection),
        }
    }

    /// Name of this downloader.
    pub fn name(&self) -> (r: &'static str)
        ensures
            r@ == kind_name(*self),
    {
        match self {
            DownloaderKind::Base64Data(d) => d.name(),
            DownloaderKind::LocalFile(d) => d.name(),
            DownloaderKind::NapCatStream(d) => d.name(),
            DownloaderKind::DirectHttp(d) => d.name(),
        }
    }
}

/// The fallback strategy, unless it is the primary one.
pub open spec fn unless_primary(s: DownloadStrategy, primary: DownloadStrategy) -> Seq<
    DownloadStrategy,
> {
    if s != primary {
        seq![s]
    } else {
        Seq::empty()
    }
}

/// The strategies a download tries: the detected one first, then those of
/// the fallback order (NapCat stream, NapCat regular, direct HTTP) that
/// differ from it.
pub open spec fn strategies_for(primary: DownloadStrategy) -> Seq<DownloadStrategy> {
    seq![primary] + unless_primary(DownloadStrategy::NapCatStream, primary) + unless_primary(
        DownloadStrategy::NapCatRegular,
        primary,
    ) + unless_primary(DownloadStrategy::DirectHttp, primary)
}

/// The (strategy, downloader index) pairs for one strategy: the downloaders
/// among the first `n` that take the URL under it, in order.
pub open spec fn attempts_upto(
    kinds: Seq<DownloaderKind>,
    u: Seq<char>,
    t: UrlType,
    s: DownloadStrategy,
    n: nat,
) -> Seq<(DownloadStrategy, usize)>
    decreases n,
{
    if n == 0 {
        Seq::empty()
    } else {
        attempts_upto(kinds, u, t, s, (n - 1) as nat) + if kind_handles(
            kinds[n - 1],
            u,
            simple_result(t, s),
        ) {
            seq![(s, (n - 1) as usize)]
        } else {
            Seq::empty()
        }
    }
}

/// The attempts for the first `m` strategies, strategy by strategy.
pub open spec fn plan_upto(
    kinds: Seq<DownloaderKind>,
    u: Seq<char>,
    t: UrlType,
    strategies: Seq<DownloadStrategy>,
    m: nat,
) -> Seq<(DownloadStrategy, usize)>
    decreases m,
{
    if m == 0 {
        Seq::empty()
    } else {
        plan_upto(kinds, u, t, strategies, (m - 1) as nat) + attempts_upto(
            kinds,
            u,
            t,
            strategies[m - 1],
            kinds.len(),
        )
    }
}

/// Every download attempt for a URL, in the order they are made.
pub open spec fn download_plan(kinds: Seq<DownloaderKind>, u: Seq<char>) -> Seq<
    (DownloadStrategy, usize),
> {
    let d = detection_of(u);
    let strategies = strategies_for(d.strategy);
    plan_upto(kinds, u, d.url_type, strategies, strategies.len())
}

/// Some downloader takes the URL under its detected strategy.
pub open spec fn any_handles(kinds: Seq<DownloaderKind>, u: Seq<char>) -> bool {
    exists|i: int| 0 <= i < kinds.len() && kind_handles(#[trigger] kinds[i], u, detection_of(u))
}

/// The error a download ends in when no attempt succeeded: the last
/// attempt's error, or "No suitable downloader found for URL" when no
/// downloader took the URL.
pub fn no_download_error(last_error: Option<Error>) -> (r: Error)
    ensures
        match last_error {
            Some(e) => r == e,
            None => r matches Error::Channel(m) && m@ == "No suitable downloader found for URL"@,
        },
{
    match last_error {
        Some(e) => e,
        None => Error::Channel(owned("No suitable downloader found for URL")),
    }
}

/// The standard downloaders, in the order they are asked: Base64 decoding,
/// local files, NapCat's stream API, direct HTTP.
pub open spec fn default_downloaders(config: NapCatConfig) -> Seq<DownloaderKind> {
    seq![
        DownloaderKind::Base64Data(Base64DataDownloader),
        DownloaderKind::LocalFile(LocalFileDownloader),
        DownloaderKind::NapCatStream(NapCatStreamDownloader { config }),
        DownloaderKind::DirectHttp(DirectHttpDownloader { timeout_secs: 120 }),
    ]
}

/// Every source the detector classifies is taken by one of the standard
/// downloaders under its detected strategy, except a QQ CDN address written
/// without its http(s):// scheme (direct HTTP, its strategy, takes only
/// HTTP URLs).
pub proof fn law_detected_source_has_downloader(config: NapCatConfig, u: Seq<char>)
    requires
        is_http(u) || !(is_qq_image_domain(domain_of(u)) || is_qq_file_domain(domain_of(u))),
    ensures
        any_handles(default_downloaders(config), u),
{
    let kinds = default_downloaders(config);
    let d = detection_of(u);
    reveal_strlit("file:///");
    reveal_strlit("file://");
    reveal_strlit("file:");
    if has_prefix(u, "base64://"@) || (!has_prefix(u, "file:///"@) && !has_prefix(u, "file://"@)
        && has_prefix(u, "data:"@)) {
        assert(kind_handles(kinds[0], u, d));
    } else if has_prefix(u, "file:///"@) || has_prefix(u, "file://"@) {
        if has_prefix(u, "file:///"@) {
            assert(u.subrange(0, 7) =~= u.subrange(0, 8).subrange(0, 7));
            assert("file:///"@.subrange(0, 7) =~= "file://"@);
        }
        assert(has_prefix(u, "file://"@));
        assert(d.strategy == DownloadStrategy::ReadLocalFile);
        assert(kind_handles(kinds[1], u, d));
    } else if d.strategy == DownloadStrategy::DirectHttp {
        assert(kind_handles(kinds[3], u, d));
    } else {
        assert(kind_handles(kinds[2], u, d));
    }
}

/// The download tries the detected strategy first, then each other
/// strategy of the fallback order once: no strategy twice, none left out.
pub proof fn law_strategies_cover_fallbacks(primary: DownloadStrategy)
    ensures
        strategies_for(primary)[0] == primary,
        forall|a: int, b: int| 0 <= a < b < strategies_for(primary).len() ==> strategies_for(primary)[a]
            != strategies_for(primary)[b],
        strategies_for(primary).contains(DownloadStrategy::NapCatStream),
        strategies_for(primary).contains(DownloadStrategy::NapCatRegular),
        strategies_for(primary).contains(DownloadStrategy::DirectHttp),
{
    let s = strategies_for(primary);
    assert(s[0] == primary);
    if primary != DownloadStrategy::NapCatStream {
        assert(s[1] == DownloadStrategy::NapCatStream);
    }
    assert(s.contains(DownloadStrategy::NapCatStream)) by {
        if primary == DownloadStrategy::NapCatStream {
            assert(s[0] == DownloadStrategy::NapCatStream);
        } else {
            assert(s[1] == DownloadStrategy::NapCatStream);
        }
    }
    assert(s.contains(DownloadStrategy::NapCatRegular)) by {
        if primary == DownloadStrategy::NapCatRegular {
            assert(s[0] == DownloadStrategy::NapCatRegular);
        } else if primary == DownloadStrategy::NapCatStream {
            assert(s[1] == DownloadStrategy::NapCatRegular);
        } else {
            assert(s[2] == DownloadStrategy::NapCatRegular);
        }
    }
    assert(s.contains(DownloadStrategy::DirectHttp)) by {
        if primary == DownloadStrategy::DirectHttp {
            assert(s[0] == DownloadStrategy::DirectHttp);
        } else {
            assert(s[s.len() - 1] == DownloadStrategy::DirectHttp);
        }
    }
}

/// The downloaders and the retry settings of media downloads.
pub struct DownloaderManager {
    downloaders: Vec<DownloaderKind>,
    download_config: DownloadConfig,
}

impl DownloaderManager {
    /// The downloaders in the order they are asked.
    pub closed spec fn kinds(&self) -> Seq<DownloaderKind> {
        self.downloaders@
    }

    /// The retry settings.
    pub closed spec fn settings(&self) -> DownloadConfig {
        self.download_config
    }

    /// A manager with the default download settings.
    pub fn new(config: &NapCatConfig) -> (r: DownloaderManager)
        ensures
            r.kinds() == default_downloaders(*config),
            r.settings() == (DownloadConfig {
                max_retries: 3,
                initial_retry_delay_ms: 500,
                max_retry_delay_ms: 5000,
                timeout_secs: 120,
                max_file_size: 104857600,
            }),
    {
        Self::with_download_config(config, DownloadConfig::default())
    }

    /// A manager with the given download settings: a Base64 decoder, a local
    /// file reader, a NapCat stream downloader and a direct HTTP downloader,
    /// asked in this order.
    pub fn with_download_config(config: &NapCatConfig, download_config: DownloadConfig) -> (r:
        DownloaderManager)
        ensures
            r.kinds() == default_downloaders(*config),
            r.settings() == download_config,
    {
        let mut downloaders: Vec<DownloaderKind> = Vec::new();
        downloaders.push(DownloaderKind::Base64Data(Base64DataDownloader::new()));
        downloaders.push(DownloaderKind::LocalFile(LocalFileDownloader::new()));
        downloaders.push(
            DownloaderKind::NapCatStream(NapCatStreamDownloader::new(config.copied())),
        );
        downloaders.push(DownloaderKind::DirectHttp(DirectHttpDownloader::new()));
        let r = DownloaderManager { downloaders, download_config };
        assert(r.kinds() =~= default_downloaders(*config));
        r
    }

    /// The downloaders, in the order they are asked.
    pub fn downloaders(&self) -> (r: &[DownloaderKind])
        ensures
            r@ == self.kinds(),
    {
        self.downloaders.as_slice()
    }

    /// The strategies a download of the URL tries (see `strategies_for`).
    pub fn strategies(primary: DownloadStrategy) -> (r: Vec<DownloadStrategy>)
        ensures
            r@ == strategies_for(primary),
    {
        let order = strategy_fallback_order();
        let mut r: Vec<DownloadStrategy> = Vec::new();
        r.push(primary);
        let ghost r0 = r@;
        if order[0] != primary {
            r.push(order[0]);
        }
        assert(r@ =~= r0 + unless_primary(DownloadStrategy::NapCatStream, primary));
        let ghost r1 = r@;
        if order[1] != primary {
            r.push(order[1]);
        }
        assert(r@ =~= r1 + unless_primary(DownloadStrategy::NapCatRegular, primary));
        let ghost r2 = r@;
        if order[2] != primary {
            r.push(order[2]);
        }
        assert(r@ =~= r2 + unless_primary(DownloadStrategy::DirectHttp, primary));
        r
    }

    /// Every attempt a download of the URL makes, as (strategy, downloader
    /// index) pairs in order (see `download_plan`): for each strategy, each
    /// downloader that takes the URL under it. The download stops at the
    /// first attempt that succeeds; when none does, it fails with
    /// `no_download_error` of the last attempt's error.
    pub fn download_plan(&self, source: &str, config: &NapCatConfig) -> (r: Vec<
        (DownloadStrategy, usize),
    >)
        ensures
            r@ == download_plan(self.kinds(), source@),
    {
        let detection = detect_url_type(source, config);
        let strategies = Self::strategies(detection.strategy);
        let mut plan: Vec<(DownloadStrategy, usize)> = Vec::new();
        let mut si: usize = 0;
        while si < strategies.len()
            invariant
                0 <= si <= strategies.len(),
                detection == detection_of(source@),
                strategies@ == strategies_for(detection.strategy),
                plan@ == plan_upto(
                    self.kinds(),
                    source@,
                    detection.url_type,
                    strategies@,
                    si as nat,
                ),
            decreases strategies.len() - si,
        {
            let strategy = strategies[si];
            let probe = UrlDetectionResult::simple(detection.url_type, strategy);
            let ghost before = plan@;
            let mut k: usize = 0;
            while k < self.downloaders.len()
                invariant
                    0 <= k <= self.downloaders.len(),
                    probe == simple_result(detection.url_type, strategy),
                    plan@ == before + attempts_upto(
                        self.kinds(),
                        source@,
                        detection.url_type,
                        strategy,
                        k as nat,
                    ),
                decreases self.downloaders.len() - k,
            {
                let ghost prev = plan@;
                if self.downloaders[k].can_handle(source, &probe) {
                    plan.push((strategy, k));
                }
                proof {
                    let t = attempts_upto(
                        self.kinds(),
                        source@,
                        detection.url_type,
                        strategy,
                        k as nat,
                    );
                    if kind_handles(self.kinds()[k as int], source@, probe) {
                        assert(plan@ =~= before + (t + seq![(strategy, k)]));
                    } else {
                        assert(plan@ =~= before + (t + Seq::<(DownloadStrategy, usize)>::empty()));
                    }
                }
                k += 1;
            }
            si += 1;
        }
        plan
    }

    /// A downloader takes the URL under its detected strategy.
    pub fn can_download(&self, url: &str, config: &NapCatConfig) -> (r: bool)
        ensures
            r == any_handles(self.kinds(), url@),
    {
        let detection = detect_url_type(url, config);
        let mut k: usize = 0;
        while k < self.downloaders.len()
            invariant
                0 <= k <= self.downloaders.len(),
                detection == detection_of(url@),
                forall|i: int| 0 <= i < k ==> !kind_handles(#[trigger] self.kinds()[i], url@, detection),
            decreases self.downloaders.len() - k,
        {
            if self.downloaders[k].can_handle(url, &detection) {
                assert(kind_handles(self.kinds()[k as int], url@, detection_of(url@)));
                return true;
            }
            k += 1;
        }
        false
    }

    /// The download settings.
    pub fn download_config(&self) -> (r: &DownloadConfig)
        ensures
            *r == self.settings(),
    {
        &self.download_config
    }
}

/// How raw data of a URL are fetched.
#[derive(Debug)]
pub enum RawDownloadRoute {
    /// Fetch over HTTP; its result is the result.
    DirectHttp,
    /// Fetch through NapCat's stream API; when that fails, fail with the
    /// error.
    NapCatStream(Error),
    /// Nothing fetches it: fail with the error.
    Refuse(Error),
}

/// The error when raw data of a URL cannot be fetched.
pub open spec fn cannot_download_text(u: Seq<char>, t: UrlType) -> Seq<char> {
    "Cannot download URL: "@ + u + " (type: "@ + url_type_name(t) + ")"@
}

/// The route raw data of a URL take: QQ CDN and external HTTP URLs (and
/// any URL whose detected strategy is direct HTTP) are fetched over HTTP;
/// NapCat proxy URLs and unknown sources go through NapCat's stream API;
/// anything else, and a failed stream, ends in the "Cannot download" error.
pub open spec fn raw_route_is(r: RawDownloadRoute, u: Seq<char>) -> bool {
    let d = detection_of(u);
    if d.url_type == UrlType::QqImageCdn || d.url_type == UrlType::QqFileCdn
        || d.url_type == UrlType::ExternalHttp || d.strategy == DownloadStrategy::DirectHttp {
        r is DirectHttp
    } else if d.url_type == UrlType::NapCatProxy || d.url_type == UrlType::Unknown {
        r matches RawDownloadRoute::NapCatStream(Error::Channel(m)) && m@ == cannot_download_text(
            u,
            d.url_type,
        )
    } else {
        r matches RawDownloadRoute::Refuse(Error::Channel(m)) && m@ == cannot_download_text(
            u,
            d.url_type,
        )
    }
}

/// The route (see `raw_route_is`) raw data of a URL take.
pub fn raw_download_route(url: &str, config: &NapCatConfig) -> (r: RawDownloadRoute)
    ensures
        raw_route_is(r, url@),
{
    let detection = detect_url_type(url, config);
    if detection.url_type == UrlType::QqImageCdn || detection.url_type == UrlType::QqFileCdn {
        return RawDownloadRoute::DirectHttp;
    }
    let mut m = owned("Cannot download URL: ");
    push_str(&mut m, url);
    push_str(&mut m, " (type: ");
    push_str(&mut m, detection.url_type.as_str());
    push_str(&mut m, ")");
    if detection.url_type == UrlType::NapCatProxy {
        return RawDownloadRoute::NapCatStream(Error::Channel(m));
    }
    if detection.url_type == UrlType::ExternalHttp || detection.strategy
        == DownloadStrategy::DirectHttp {
        return RawDownloadRoute::DirectHttp;
    }
    if detection.url_type == UrlType::Unknown {
        return RawDownloadRoute::NapCatStream(Error::Channel(m));
    }
    RawDownloadRoute::Refuse(Error::Channel(m))
}

} // verus!
