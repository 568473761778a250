//! Downloads through NapCat's `download_file_stream` API, and where
//! downloaded data are saved.
use vstd::prelude::*;

use crate::config::NapCatConfig;
use crate::detector::filename_of_url;
use crate::media_types::{DownloadStrategy, UrlDetectionResult};
use crate::text::{has_prefix, owned, push_str, starts_with, strip_prefix};
use crate::types::{opt_i32_entry, opt_strs_entry, request_view, ApiRequest};
use crate::json::Json;

verus! {

/// Downloader through NapCat's streaming API.
#[derive(Debug, Clone)]
pub struct NapCatStreamDownloader {
    pub config: NapCatConfig,
}

/// The directory (below the download directory) that data of a chat are
/// saved in: `<date>_GROUP_<id>`, `<date>_USER_<id>`, or `<date>_<chat id>`.
pub open spec fn download_dir_name(date: Seq<char>, chat_id: Seq<char>) -> Seq<char> {
    if has_prefix(chat_id, "group:"@) {
        date + "_GROUP_"@ + chat_id.skip(6)
    } else if has_prefix(chat_id, "user:"@) {
        date + "_USER_"@ + chat_id.skip(5)
    } else {
        date + "_"@ + chat_id
    }
}

/// The name data downloaded from a URL are saved under: the requested name
/// when it is not empty, else the URL's file name, else `media_<timestamp>`.
pub open spec fn url_file_name(
    requested: Option<Seq<char>>,
    url: Seq<char>,
    timestamp: Seq<char>,
) -> Seq<char> {
    match requested {
        Some(n) if n.len() > 0 => n,
        _ => match filename_of_url(url) {
            Some(f) => f,
            None => "media_"@ + timestamp,
        },
    }
}

impl NapCatStreamDownloader {
    /// A stream downloader with the channel settings.
    pub fn new(config: NapCatConfig) -> (r: NapCatStreamDownloader)
        ensures
            r.config == config,
    {
        NapCatStreamDownloader { config }
    }

    /// This downloader handles the URL: a NapCat strategy, and neither a
    /// `base64://` nor a `file://` URL.
    pub fn can_handle(&self, url: &str, detection: &UrlDetectionResult) -> (r: bool)
        ensures
            r == ((detection.strategy == DownloadStrategy::NapCatStream || detection.strategy
                == DownloadStrategy::NapCatRegular) && !has_prefix(url@, "base64://"@)
                && !has_prefix(url@, "file://"@)),
    {
        (detection.strategy == DownloadStrategy::NapCatStream || detection.strategy
            == DownloadStrategy::NapCatRegular) && !starts_with(url, "base64://") && !starts_with(
            url,
            "file://",
        )
    }

    /// Name of this downloader.
    pub fn name(&self) -> (r: &'static str)
        ensures
            r@ == "napcat_stream"@,
    {
        "napcat_stream"
    }
}

/// The request that streams a URL's content: `download_file_stream` with
/// three download threads.
pub fn stream_request(url: &str) -> (r: ApiRequest)
    ensures
        r@ == request_view(
            "download_file_stream"@,
            seq![("url"@, Json::Str(url@))] + opt_i32_entry("thread_count"@, Some(3i32))
                + opt_strs_entry("headers"@, None),
            None,
        ),
{
    ApiRequest::download_file_stream(url, Some(3), None, None)
}

/// The directory name (see `download_dir_name`) for data of a chat.
pub fn download_dir_name_for(date: &str, chat_id: &str) -> (r: String)
    ensures
        r@ == download_dir_name(date@, chat_id@),
{
    proof {
        reveal_strlit("group:");
        reveal_strlit("user:");
    }
    let mut r = owned(date);
    if let Some(id) = strip_prefix(chat_id, "group:") {
        push_str(&mut r, "_GROUP_");
        push_str(&mut r, id.as_str());
    } else if let Some(id) = strip_prefix(chat_id, "user:") {
        push_str(&mut r, "_USER_");
        push_str(&mut r, id.as_str());
    } else {
        push_str(&mut r, "_");
        push_str(&mut r, chat_id);
    }
    r
}

/// The name (see `url_file_name`) data downloaded from a URL are saved under.
pub fn file_name_for_url(requested: &Option<String>, url: &str, timestamp: &str) -> (r: String)
    ensures
        r@ == url_file_name(crate::json::opt_str(*requested), url@, timestamp@),
{
    if let Some(n) = requested {
        if n.as_str().unicode_len() > 0 {
            return n.clone();
        }
    }
    match crate::detector::extract_filename_from_url(url) {
        Some(f) => f,
        None => {
            let mut r = owned("media_");
            push_str(&mut r, timestamp);
            r
        },
    }
}

} // verus!
