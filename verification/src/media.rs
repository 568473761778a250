//! Automatic media download for incoming messages: which segments are
//! downloaded and how, what the download records, and how the message
//! content and metadata describe the downloaded files.
use vstd::prelude::*;

use crate::config::NapCatConfig;
use crate::downloader::UnifiedDownloadResult;
use crate::json::{json_int, json_str_field, opt_str, Json, JsonValue};
use crate::media_types::{file_type_description, file_type_of_ext, media_type_name, FileType, MediaType};
use crate::message::MessageSegment;
use crate::text::{after_last, contains_seq, has_prefix, occurs_at, lowercase_of, nat_text, nat_to_text, owned, push_str, str_eq, strip_prefix};
use crate::types::{request_view, ApiRequest, ApiRequestView, ApiResponse, response_succeeded};

verus! {

/// A downloaded media file.
#[derive(Debug, Clone)]
pub struct DownloadedMedia {
    /// Local file path.
    pub local_path: String,
    /// URL the download was asked for.
    pub url: String,
    /// Media type: "image", "voice", "video" or "file".
    pub media_type: String,
    /// File name as sent, when known.
    pub filename: Option<String>,
    /// File size in bytes.
    pub size: usize,
}

impl DownloadedMedia {
    /// The record of a download result.
    pub fn from_result(result: UnifiedDownloadResult) -> (r: DownloadedMedia)
        ensures
            r.local_path == result.local_path,
            r.url == result.source_url,
            r.media_type@ == media_type_name(result.media_type),
            r.filename == Some(result.filename),
            r.size == result.size,
    {
        DownloadedMedia {
            local_path: result.local_path,
            url: result.source_url,
            media_type: owned(result.media_type.as_str()),
            filename: Some(result.filename),
            size: result.size,
        }
    }
}

/// The record of a media file that was downloaded to `local_path`.
pub fn downloaded_entry(
    local_path: String,
    url: String,
    media_type: MediaType,
    filename: Option<String>,
    size: usize,
) -> (r: DownloadedMedia)
    ensures
        r.local_path == local_path,
        r.url == url,
        r.media_type@ == media_type_name(media_type),
        r.filename == filename,
        r.size == size,
{
    DownloadedMedia { local_path, url, media_type: owned(media_type.as_str()), filename, size }
}

/// Media of this size is downloaded automatically: automatic download is on
/// and the size is within the configured limit.
pub open spec fn auto_download_allowed(config: NapCatConfig, size: usize) -> bool {
    config.auto_download_media && size <= config.max_auto_download_size as usize
}

/// Whether media of this size is downloaded automatically (see
/// `auto_download_allowed`).
pub fn should_auto_download(config: &NapCatConfig, size: usize) -> (r: bool)
    ensures
        r == auto_download_allowed(*config, size),
{
    if !config.auto_download_media {
        return false;
    }
    size <= config.max_auto_download_size as usize
}

/// The size is within the automatic download limit.
pub fn within_download_limit(config: &NapCatConfig, size: usize) -> (r: bool)
    ensures
        r == (size <= config.max_auto_download_size as usize),
{
    size <= config.max_auto_download_size as usize
}

/// What automatic download does with one message segment.
#[derive(Debug)]
pub enum SegmentPlan {
    /// Nothing.
    Skip,
    /// Ask NapCat for the media URL with `request`; download what it
    /// answers when `size` is within the limit, recording the size.
    QueryMediaUrl { request: ApiRequest, media_type: MediaType, size: usize },
    /// Ask NapCat for a private file's URL with `request`, then download
    /// it under `filename`, recording `size`.
    QueryPrivateFileUrl { request: ApiRequest, filename: String, size: usize },
    /// Download the file at `url` under `filename`, recording `size`.
    DownloadFile { url: String, filename: String, size: usize },
}

/// A size a segment reports (0 when absent).
pub open spec fn reported_size(o: Option<i64>) -> usize {
    match o {
        Some(n) => n as usize,
        None => 0,
    }
}

/// The request for an image's URL.
pub open spec fn image_request(file: Seq<char>) -> ApiRequestView {
    request_view("get_image"@, seq![("file"@, Json::Str(file))], None)
}

/// The request for a voice message's URL, as MP3.
pub open spec fn record_request(file: Seq<char>) -> ApiRequestView {
    request_view(
        "get_record"@,
        seq![("out_format"@, Json::Str("mp3"@)), ("file"@, Json::Str(file))],
        None,
    )
}

/// The request for a video's URL.
pub open spec fn video_request(file: Seq<char>) -> ApiRequestView {
    request_view("get_video"@, seq![("file"@, Json::Str(file))], None)
}

/// The request for a private file's URL.
pub open spec fn private_file_request(file_id: Seq<char>, user_id: Seq<char>) -> ApiRequestView {
    request_view(
        "get_private_file_url"@,
        seq![("file_id"@, Json::Str(file_id)), ("user_id"@, Json::Str(user_id))],
        None,
    )
}

/// The name a file is saved under: its name when not empty, else its file
/// field.
pub open spec fn sent_file_name(file: Seq<char>, name: Option<String>) -> Seq<char> {
    match name {
        Some(n) if n@.len() > 0 => n@,
        _ => file,
    }
}

/// The plan for a segment in a chat: images, voice messages and videos ask
/// NapCat for their URL; a file in a private chat (`user:<id>`) asks for the
/// private file URL by its file id (else its file field); a file elsewhere
/// is downloaded from its URL (else its file field) unless that is empty;
/// any other segment is skipped.
pub open spec fn plan_fits(p: SegmentPlan, s: MessageSegment, chat_id: Seq<char>) -> bool {
    match s {
        MessageSegment::Image { file, file_size, .. } => p matches SegmentPlan::QueryMediaUrl {
            request,
            media_type,
            size,
        } && request@ == image_request(file@) && media_type == MediaType::Image && size
            == reported_size(file_size),
        MessageSegment::Record { file, file_size, .. } => p matches SegmentPlan::QueryMediaUrl {
            request,
            media_type,
            size,
        } && request@ == record_request(file@) && media_type == MediaType::Voice && size
            == reported_size(file_size),
        MessageSegment::Video { file, file_size, .. } => p matches SegmentPlan::QueryMediaUrl {
            request,
            media_type,
            size,
        } && request@ == video_request(file@) && media_type == MediaType::Video && size
            == reported_size(file_size),
        MessageSegment::File { file, file_id, url, name, size, .. } => if has_prefix(
            chat_id,
            "user:"@,
        ) {
            let fid = match file_id {
                Some(f) => f@,
                None => file@,
            };
            p matches SegmentPlan::QueryPrivateFileUrl { request, filename, size: sz }
                && request@ == private_file_request(fid, chat_id.skip(5)) && filename@
                == sent_file_name(file@, name) && sz == reported_size(size)
        } else {
            let u = match url {
                Some(x) => x@,
                None => file@,
            };
            if u.len() == 0 {
                p is Skip
            } else {
                p matches SegmentPlan::DownloadFile { url: du, filename, size: sz } && du@ == u
                    && filename@ == sent_file_name(file@, name) && sz == reported_size(size)
            }
        },
        _ => p is Skip,
    }
}

fn reported_size_of(o: &Option<i64>) -> (r: usize)
    ensures
        r == reported_size(*o),
{
    match o {
        Some(n) => *n as usize,
        None => 0,
    }
}

fn sent_file_name_of(file: &String, name: &Option<String>) -> (r: String)
    ensures
        r@ == sent_file_name(file@, *name),
{
    match name {
        Some(n) => {
            if n.as_str().unicode_len() > 0 {
                return n.clone();
            }
        },
        None => {},
    }
    file.clone()
}

/// The plan (see `plan_fits`) for one segment received in a chat.
pub fn plan_segment(segment: &MessageSegment, chat_id: &str) -> (r: SegmentPlan)
    ensures
        plan_fits(r, *segment, chat_id@),
{
    match segment {
        MessageSegment::Image { file, file_size, .. } => {
            let request = ApiRequest::get_image(Some(file.as_str()), None, None);
            assert(request@ == image_request(file@)) by {
                assert(Seq::empty() + seq![("file"@, Json::Str(file@))] + Seq::<(Seq<char>, Json)>::empty()
                    =~= seq![("file"@, Json::Str(file@))]);
            }
            SegmentPlan::QueryMediaUrl {
                request,
                media_type: MediaType::Image,
                size: reported_size_of(file_size),
            }
        },
        MessageSegment::Record { file, file_size, .. } => {
            let request = ApiRequest::get_record(Some(file.as_str()), None, "mp3", None);
            assert(request@ == record_request(file@)) by {
                assert(seq![("out_format"@, Json::Str("mp3"@))] + seq![("file"@, Json::Str(file@))]
                    + Seq::<(Seq<char>, Json)>::empty() =~= seq![
                    ("out_format"@, Json::Str("mp3"@)),
                    ("file"@, Json::Str(file@)),
                ]);
            }
            SegmentPlan::QueryMediaUrl {
                request,
                media_type: MediaType::Voice,
                size: reported_size_of(file_size),
            }
        },
        MessageSegment::Video { file, file_size, .. } => {
            let request = ApiRequest::get_video(file.as_str(), None);
            SegmentPlan::QueryMediaUrl {
                request,
                media_type: MediaType::Video,
                size: reported_size_of(file_size),
            }
        },
        MessageSegment::File { file, file_id, url, name, size, .. } => {
            proof {
                reveal_strlit("user:");
            }
            let filename = sent_file_name_of(file, name);
            match strip_prefix(chat_id, "user:") {
                Some(user_id) => {
                    let fid = match file_id {
                        Some(f) => f.as_str(),
                        None => file.as_str(),
                    };
                    let request = ApiRequest::get_private_file_url(
                        fid,
                        Some(user_id.as_str()),
                        None,
                    );
                    assert(request@ == private_file_request(fid@, chat_id@.skip(5))) by {
                        assert(seq![("file_id"@, Json::Str(fid@))] + seq![
                            ("user_id"@, Json::Str(user_id@)),
                        ] =~= seq![
                            ("file_id"@, Json::Str(fid@)),
                            ("user_id"@, Json::Str(user_id@)),
                        ]);
                    }
                    SegmentPlan::QueryPrivateFileUrl {
                        request,
                        filename,
                        size: reported_size_of(size),
                    }
                },
                None => {
                    let u = match url {
                        Some(x) => x.clone(),
                        None => file.clone(),
                    };
                    if u.as_str().unicode_len() == 0 {
                        SegmentPlan::Skip
                    } else {
                        SegmentPlan::DownloadFile { url: u, filename, size: reported_size_of(size) }
                    }
                },
            }
        },
        _ => SegmentPlan::Skip,
    }
}

/// The plans for the segments of a message received in a chat: none when
/// automatic download is off, else one per segment (see `plan_fits`).
pub fn segment_plans(config: &NapCatConfig, segments: &[MessageSegment], chat_id: &str) -> (r: Vec<
    SegmentPlan,
>)
    ensures
        !config.auto_download_media ==> r@.len() == 0,
        config.auto_download_media ==> r@.len() == segments@.len() && forall|i: int|
            0 <= i < segments@.len() ==> plan_fits(#[trigger] r@[i], segments@[i], chat_id@),
{
    let mut plans: Vec<SegmentPlan> = Vec::new();
    if !config.auto_download_media {
        return plans;
    }
    let mut i: usize = 0;
    while i < segments.len()
        invariant
            i <= segments@.len(),
            plans@.len() == i,
            forall|j: int| 0 <= j < i ==> plan_fits(#[trigger] plans@[j], segments@[j], chat_id@),
        decreases segments.len() - i,
    {
        plans.push(plan_segment(&segments[i], chat_id));
        i += 1;
    }
    plans
}

/// A download that automatic download asks for.
#[derive(Debug)]
pub struct MediaDownloadTask {
    /// URL to download.
    pub url: String,
    /// Media type it is downloaded as.
    pub media_type: MediaType,
    /// File name to save it under ("" lets the downloader choose).
    pub filename: String,
    /// The record takes the name the file was saved under (else
    /// `recorded_name`).
    pub record_saved_name: bool,
    /// The name recorded when the saved name is not.
    pub recorded_name: Option<String>,
    /// Size recorded.
    pub size: usize,
}

/// The download a plan asks for without a query first: a file at a known
/// URL, downloaded as a file under its sent name; nothing for other plans.
pub open spec fn direct_task_fits(r: Option<MediaDownloadTask>, p: SegmentPlan) -> bool {
    match p {
        SegmentPlan::DownloadFile { url, filename, size } => r matches Some(t) && t.url == url
            && t.media_type == MediaType::File && t.filename == filename && t.record_saved_name
            && t.size == size,
        _ => r is None,
    }
}

/// The download a plan asks for once its URL query was answered (`None`:
/// the query failed): for media, the answered URL under the answered name
/// ("" without one), only when the size is within the automatic download
/// limit, recording the answered name; for a private file, the answered URL
/// under the file's sent name, recording the saved name; nothing when the
/// query failed or the plan makes no query.
pub open spec fn queried_task_fits(
    r: Option<MediaDownloadTask>,
    config: NapCatConfig,
    p: SegmentPlan,
    answer: Option<(String, Option<String>)>,
) -> bool {
    match (p, answer) {
        (SegmentPlan::QueryMediaUrl { media_type, size, .. }, Some((url, name))) => if size
            <= config.max_auto_download_size as usize {
            r matches Some(t) && t.url == url && t.media_type == media_type && t.filename@ == (
            match name {
                Some(n) => n@,
                None => Seq::empty(),
            }) && !t.record_saved_name && t.recorded_name == name && t.size == size
        } else {
            r is None
        },
        (SegmentPlan::QueryPrivateFileUrl { filename, size, .. }, Some((url, _))) => r matches Some(
            t,
        ) && t.url == url && t.media_type == MediaType::File && t.filename == filename
            && t.record_saved_name && t.size == size,
        _ => r is None,
    }
}

/// The record of a finished download: where it was saved, the task's URL,
/// media type and size, and the saved or the recorded name.
pub open spec fn record_fits(d: DownloadedMedia, t: MediaDownloadTask, res: UnifiedDownloadResult) -> bool {
    &&& d.local_path == res.local_path
    &&& d.url == t.url
    &&& d.media_type@ == media_type_name(t.media_type)
    &&& d.filename == if t.record_saved_name {
        Some(res.filename)
    } else {
        t.recorded_name
    }
    &&& d.size == t.size
}

/// The download a plan asks for without a query first (see
/// `direct_task_fits`).
pub fn direct_download_task(plan: &SegmentPlan) -> (r: Option<MediaDownloadTask>)
    ensures
        direct_task_fits(r, *plan),
{
    match plan {
        SegmentPlan::DownloadFile { url, filename, size } => Some(
            MediaDownloadTask {
                url: url.clone(),
                media_type: MediaType::File,
                filename: filename.clone(),
                record_saved_name: true,
                recorded_name: None,
                size: *size,
            },
        ),
        _ => None,
    }
}

/// The download a plan asks for once its URL query was answered (see
/// `queried_task_fits`).
pub fn download_task_after_query(
    config: &NapCatConfig,
    plan: &SegmentPlan,
    answer: Option<(String, Option<String>)>,
) -> (r: Option<MediaDownloadTask>)
    ensures
        queried_task_fits(r, *config, *plan, answer),
{
    match (plan, answer) {
        (SegmentPlan::QueryMediaUrl { media_type, size, .. }, Some((url, name))) => {
            if !within_download_limit(config, *size) {
                return None;
            }
            let filename = match &name {
                Some(n) => n.clone(),
                None => String::new(),
            };
            Some(
                MediaDownloadTask {
                    url,
                    media_type: *media_type,
                    filename,
                    record_saved_name: false,
                    recorded_name: name,
                    size: *size,
                },
            )
        },
        (SegmentPlan::QueryPrivateFileUrl { filename, size, .. }, Some((url, _))) => Some(
            MediaDownloadTask {
                url,
                media_type: MediaType::File,
                filename: filename.clone(),
                record_saved_name: true,
                recorded_name: None,
                size: *size,
            },
        ),
        _ => None,
    }
}

/// Records a finished download: a success adds its record (see
/// `record_fits`) after the others; a failure records nothing.
pub fn record_download<E>(
    downloaded: &mut Vec<DownloadedMedia>,
    task: MediaDownloadTask,
    outcome: Result<UnifiedDownloadResult, E>,
)
    ensures
        match outcome {
            Ok(res) => {
                &&& final(downloaded)@.len() == old(downloaded)@.len() + 1
                &&& final(downloaded)@.take(old(downloaded)@.len() as int) == old(downloaded)@
                &&& record_fits(final(downloaded)@.last(), task, res)
            },
            Err(_) => final(downloaded)@ == old(downloaded)@,
        },
{
    match outcome {
        Ok(res) => {
            let filename = if task.record_saved_name {
                Some(res.filename)
            } else {
                task.recorded_name
            };
            let entry = downloaded_entry(res.local_path, task.url, task.media_type, filename, task.size);
            downloaded.push(entry);
            assert(downloaded@.take(old(downloaded)@.len() as int) =~= old(downloaded)@);
        },
        Err(_) => {},
    }
}

/// What a media URL query answers: on success, the `url` string of the
/// response data, with its `file_name` string when present; nothing on a
/// failed response or without a `url` string.
pub open spec fn media_url_answer(resp: ApiResponse) -> Option<(Seq<char>, Option<Seq<char>>)> {
    if !response_succeeded(&resp) {
        None
    } else {
        match json_str_field(resp.data@, "url"@) {
            Some(u) => Some((u, json_str_field(resp.data@, "file_name"@))),
            None => None,
        }
    }
}

/// The media URL and file name a query's response gives (see
/// `media_url_answer`).
pub fn media_url_from_response(resp: &ApiResponse) -> (r: Option<(String, Option<String>)>)
    ensures
        match media_url_answer(*resp) {
            Some((u, f)) => r matches Some((a, b)) && a@ == u && opt_str(b) == f,
            None => r is None,
        },
{
    if !resp.is_success() {
        return None;
    }
    let url = resp.data.get_str("url");
    let filename = resp.data.get_str("file_name");
    match url {
        Some(u) => Some((u, filename)),
        None => None,
    }
}

/// The file type of a file name: by what follows its last '.'.
pub open spec fn file_type_of_name(n: Seq<char>) -> FileType {
    file_type_of_ext(lowercase_of(after_last(n, '.')))
}

/// The name a downloaded file is shown under: its name, else "未知文件".
pub open spec fn shown_name(m: DownloadedMedia) -> Seq<char> {
    match m.filename {
        Some(n) => n@,
        None => "未知文件"@,
    }
}

/// The line that lists a downloaded file of the given kind.
pub open spec fn media_line(m: DownloadedMedia, kind: Seq<char>) -> Seq<char> {
    if kind == "file"@ {
        "- "@ + shown_name(m) + " ["@ + file_type_description(file_type_of_name(shown_name(m)))
            + "] (路径: "@ + m.local_path@ + ")\n"@
    } else {
        "- "@ + m.local_path@ + "\n"@
    }
}

/// The lines for the files of a kind among the first `n`.
pub open spec fn kind_lines(ms: Seq<DownloadedMedia>, kind: Seq<char>, n: nat) -> Seq<char>
    decreases n,
{
    if n == 0 {
        Seq::empty()
    } else {
        kind_lines(ms, kind, (n - 1) as nat) + if ms[n - 1].media_type@ == kind {
            media_line(ms[n - 1], kind)
        } else {
            Seq::empty()
        }
    }
}

/// How many of the first `n` files are of a kind.
pub open spec fn kind_count(ms: Seq<DownloadedMedia>, kind: Seq<char>, n: nat) -> nat
    decreases n,
{
    if n == 0 {
        0
    } else {
        kind_count(ms, kind, (n - 1) as nat) + if ms[n - 1].media_type@ == kind {
            1nat
        } else {
            0nat
        }
    }
}

/// The section that lists the files of a kind: a title with their number,
/// one line each, and an empty line; nothing when there is none.
pub open spec fn media_section(title: Seq<char>, ms: Seq<DownloadedMedia>, kind: Seq<char>) -> Seq<
    char,
> {
    let c = kind_count(ms, kind, ms.len());
    if c == 0 {
        Seq::empty()
    } else {
        title + " ("@ + nat_text(c) + " 个)：\n"@ + kind_lines(ms, kind, ms.len()) + "\n"@
    }
}

/// The notice that closes the list of downloaded files.
pub open spec fn media_notice() -> Seq<char> {
    "\n【重要提示 - 媒体文件处理规则】\n"@ + "以上文件是用户刚刚发送到聊天中的媒体，已在聊天中展示。\n"@
        + "⚠️ 除非用户明确要求你「发送」「转发」「传给某人」这些文件，否则：\n"@
        + "  - 不要使用任何 napcat 发送工具（如 send_image、upload_file 等）\n"@
        + "  - 不要将文件路径放入任何发送消息的工具参数中\n"@
        + "  - 只需用文字回复用户即可，不要重复发送已有媒体\n"@
        + "用户如果需要你处理这些文件（如分析、识别、转写等），请使用相应的工具处理。\n"@
}

/// The message content with the downloaded files listed: unchanged when
/// nothing was downloaded; else the content (followed by an empty line),
/// the images, voice messages, videos and files, and the notice.
pub open spec fn enhanced_content(content: Seq<char>, ms: Seq<DownloadedMedia>) -> Seq<char> {
    if ms.len() == 0 {
        content
    } else {
        (if content.len() == 0 {
            Seq::empty()
        } else {
            content + "\n\n"@
        }) + "已下载的媒体文件：\n\n"@ + media_section("图片"@, ms, "image"@) + media_section(
            "语音消息"@,
            ms,
            "voice"@,
        ) + media_section("视频"@, ms, "video"@) + media_section("文件"@, ms, "file"@) + "---\n"@
            + media_notice()
    }
}

fn media_line_of(m: &DownloadedMedia, kind: &str) -> (r: String)
    ensures
        r@ == media_line(*m, kind@),
{
    let mut line = owned("- ");
    if str_eq(kind, "file") {
        let name: &str = match &m.filename {
            Some(n) => n.as_str(),
            None => "未知文件",
        };
        let file_type = FileType::from_filename(name);
        push_str(&mut line, name);
        push_str(&mut line, " [");
        push_str(&mut line, file_type.description());
        push_str(&mut line, "] (路径: ");
        push_str(&mut line, m.local_path.as_str());
        push_str(&mut line, ")\n");
    } else {
        push_str(&mut line, m.local_path.as_str());
        push_str(&mut line, "\n");
    }
    line
}

fn push_section(content: &mut String, title: &str, ms: &[DownloadedMedia], kind: &str)
    ensures
        final(content)@ == old(content)@ + media_section(title@, ms@, kind@),
{
    let mut lines = String::new();
    let mut count: usize = 0;
    let mut i: usize = 0;
    while i < ms.len()
        invariant
            i <= ms@.len(),
            count <= i,
            count == kind_count(ms@, kind@, i as nat),
            lines@ == kind_lines(ms@, kind@, i as nat),
        decreases ms.len() - i,
    {
        if str_eq(ms[i].media_type.as_str(), kind) {
            let line = media_line_of(&ms[i], kind);
            push_str(&mut lines, line.as_str());
            count += 1;
        } else {
            assert(lines@ =~= lines@ + Seq::<char>::empty());
        }
        i += 1;
    }
    if count > 0 {
        push_str(content, title);
        push_str(content, " (");
        let n = nat_to_text(count as u128);
        push_str(content, n.as_str());
        push_str(content, " 个)：\n");
        push_str(content, lines.as_str());
        push_str(content, "\n");
    } else {
        assert(content@ =~= content@ + Seq::<char>::empty());
    }
}

/// The message content with the downloaded files listed (see
/// `enhanced_content`).
pub fn build_enhanced_content(message_content: &str, downloaded: &[DownloadedMedia], _chat_id: &str) -> (r:
    String)
    ensures
        r@ == enhanced_content(message_content@, downloaded@),
{
    if downloaded.len() == 0 {
        return owned(message_content);
    }
    let mut content = String::new();
    if message_content.unicode_len() > 0 {
        push_str(&mut content, message_content);
        push_str(&mut content, "\n\n");
    }
    push_str(&mut content, "已下载的媒体文件：\n\n");
    push_section(&mut content, "图片", downloaded, "image");
    push_section(&mut content, "语音消息", downloaded, "voice");
    push_section(&mut content, "视频", downloaded, "video");
    push_section(&mut content, "文件", downloaded, "file");
    push_str(&mut content, "---\n");
    push_str(&mut content, "\n【重要提示 - 媒体文件处理规则】\n");
    push_str(&mut content, "以上文件是用户刚刚发送到聊天中的媒体，已在聊天中展示。\n");
    push_str(&mut content, "⚠️ 除非用户明确要求你「发送」「转发」「传给某人」这些文件，否则：\n");
    push_str(&mut content, "  - 不要使用任何 napcat 发送工具（如 send_image、upload_file 等）\n");
    push_str(&mut content, "  - 不要将文件路径放入任何发送消息的工具参数中\n");
    push_str(&mut content, "  - 只需用文字回复用户即可，不要重复发送已有媒体\n");
    push_str(&mut content, "用户如果需要你处理这些文件（如分析、识别、转写等），请使用相应的工具处理。\n");
    content
}

/// The metadata entry of a downloaded file.
pub open spec fn media_entry_json(m: DownloadedMedia) -> Json {
    Json::Object(
        seq![
            ("local_path"@, Json::Str(m.local_path@)),
            ("url"@, Json::Str(m.url@)),
            ("type"@, Json::Str(m.media_type@)),
            ("file_type"@, Json::Str(file_type_description(file_type_of_name(shown_name(m))))),
            ("filename"@, match m.filename {
                Some(f) => Json::Str(f@),
                None => Json::Null,
            }),
            ("size"@, json_int(m.size as int)),
        ],
    )
}

/// The metadata of downloaded files: an entry per file under
/// `downloaded_media`, and their paths under `media_paths`.
pub open spec fn media_metadata(ms: Seq<DownloadedMedia>) -> Json {
    Json::Object(
        seq![
            ("downloaded_media"@, Json::Array(ms.map_values(|m: DownloadedMedia| media_entry_json(m)))),
            ("media_paths"@, Json::Array(ms.map_values(|m: DownloadedMedia| Json::Str(m.local_path@)))),
        ],
    )
}

fn media_entry_of(m: &DownloadedMedia) -> (r: JsonValue)
    ensures
        r@ == media_entry_json(*m),
{
    let name: &str = match &m.filename {
        Some(n) => n.as_str(),
        None => "未知文件",
    };
    let file_type = FileType::from_filename(name);
    let mut es: Vec<(String, JsonValue)> = Vec::new();
    es.push((owned("local_path"), JsonValue::string(m.local_path.as_str())));
    es.push((owned("url"), JsonValue::string(m.url.as_str())));
    es.push((owned("type"), JsonValue::string(m.media_type.as_str())));
    es.push((owned("file_type"), JsonValue::string(file_type.description())));
    es.push((owned("filename"), JsonValue::opt_string(&m.filename)));
    es.push((owned("size"), JsonValue::uint(m.size as u64)));
    let r = JsonValue::object(es);
    assert(r@ =~= media_entry_json(*m)) by {
        if let Json::Object(o) = r@ {
            if let Json::Object(p) = media_entry_json(*m) {
                assert(o =~= p);
            }
        }
    }
    r
}

/// The metadata of downloaded files (see `media_metadata`).
pub fn build_media_metadata(downloaded: &[DownloadedMedia]) -> (r: JsonValue)
    ensures
        r@ == media_metadata(downloaded@),
{
    let mut entries: Vec<JsonValue> = Vec::new();
    let mut paths: Vec<JsonValue> = Vec::new();
    let mut i: usize = 0;
    while i < downloaded.len()
        invariant
            i <= downloaded@.len(),
            entries@.len() == i,
            paths@.len() == i,
            forall|j: int| 0 <= j < i ==> (#[trigger] entries@[j])@ == media_entry_json(downloaded@[j]),
            forall|j: int| 0 <= j < i ==> (#[trigger] paths@[j])@ == Json::Str(downloaded@[j].local_path@),
        decreases downloaded.len() - i,
    {
        entries.push(media_entry_of(&downloaded[i]));
        paths.push(JsonValue::string(downloaded[i].local_path.as_str()));
        i += 1;
    }
    let ghost ev = entries@;
    let ghost pv = paths@;
    let e = JsonValue::array(entries);
    let p = JsonValue::array(paths);
    assert(ev.map_values(|j: JsonValue| j@) =~= downloaded@.map_values(
        |m: DownloadedMedia| media_entry_json(m),
    ));
    assert(pv.map_values(|j: JsonValue| j@) =~= downloaded@.map_values(
        |m: DownloadedMedia| Json::Str(m.local_path@),
    ));
    let mut es: Vec<(String, JsonValue)> = Vec::new();
    es.push((owned("downloaded_media"), e));
    es.push((owned("media_paths"), p));
    let r = JsonValue::object(es);
    assert(r@ =~= media_metadata(downloaded@)) by {
        if let Json::Object(o) = r@ {
            if let Json::Object(q) = media_metadata(downloaded@) {
                assert(o =~= q);
            }
        }
    }
    r
}

/// Whatever is downloaded automatically, anything smaller is too; nothing
/// is when automatic download is off.
pub proof fn law_auto_download_monotone(config: NapCatConfig, size: usize, smaller: usize)
    ensures
        auto_download_allowed(config, size) && smaller <= size ==> auto_download_allowed(
            config,
            smaller,
        ),
        !config.auto_download_media ==> !auto_download_allowed(config, size),
{
}

proof fn lemma_contains_within(a: Seq<char>, x: Seq<char>, b: Seq<char>, p: Seq<char>)
    requires
        contains_seq(x, p),
    ensures
        contains_seq(a + x + b, p),
{
    let i = choose|i: int| occurs_at(x, p, i);
    let s = a + x + b;
    assert(s.subrange(a.len() + i, a.len() + i + p.len()) =~= x.subrange(i, i + p.len()));
    assert(occurs_at(s, p, a.len() + i));
}

proof fn lemma_contains_whole(x: Seq<char>)
    ensures
        contains_seq(x, x),
{
    assert(x.subrange(0, x.len() as int) =~= x);
    assert(occurs_at(x, x, 0));
}

proof fn lemma_kind_lines_contain(ms: Seq<DownloadedMedia>, kind: Seq<char>, n: nat, i: int)
    requires
        0 <= i < n <= ms.len(),
        ms[i].media_type@ == kind,
    ensures
        contains_seq(kind_lines(ms, kind, n), media_line(ms[i], kind)),
        kind_count(ms, kind, n) > 0,
    decreases n,
{
    let prev = kind_lines(ms, kind, (n - 1) as nat);
    let last = if ms[n - 1].media_type@ == kind {
        media_line(ms[n - 1], kind)
    } else {
        Seq::empty()
    };
    if i < n - 1 {
        lemma_kind_lines_contain(ms, kind, (n - 1) as nat, i);
        lemma_contains_within(Seq::empty(), prev, last, media_line(ms[i], kind));
        assert(Seq::<char>::empty() + prev + last =~= kind_lines(ms, kind, n));
    } else {
        lemma_contains_whole(last);
        lemma_contains_within(prev, last, Seq::empty(), last);
        assert(prev + last + Seq::<char>::empty() =~= kind_lines(ms, kind, n));
    }
}

/// The title of the section that lists the files of a kind.
pub open spec fn section_title(kind: Seq<char>) -> Seq<char> {
    if kind == "image"@ {
        "图片"@
    } else if kind == "voice"@ {
        "语音消息"@
    } else if kind == "video"@ {
        "视频"@
    } else {
        "文件"@
    }
}

/// What a file of a kind and its section contribute to the listing: the
/// section's title with the number of files of that kind, and the file's
/// line.
proof fn lemma_section_contains(ms: Seq<DownloadedMedia>, kind: Seq<char>, i: int)
    requires
        0 <= i < ms.len(),
        ms[i].media_type@ == kind,
    ensures
        contains_seq(
            media_section(section_title(kind), ms, kind),
            section_title(kind) + " ("@ + nat_text(kind_count(ms, kind, ms.len())) + " 个)：\n"@,
        ),
        contains_seq(media_section(section_title(kind), ms, kind), media_line(ms[i], kind)),
{
    lemma_kind_lines_contain(ms, kind, ms.len(), i);
    let head = section_title(kind) + " ("@ + nat_text(kind_count(ms, kind, ms.len())) + " 个)：\n"@;
    let lines = kind_lines(ms, kind, ms.len());
    let sec = media_section(section_title(kind), ms, kind);
    assert(sec =~= Seq::<char>::empty() + head + (lines + "\n"@));
    lemma_contains_whole(head);
    lemma_contains_within(Seq::empty(), head, lines + "\n"@, head);
    assert(sec =~= head + lines + "\n"@);
    lemma_contains_within(head, lines, "\n"@, media_line(ms[i], kind));
}

/// Every downloaded image, voice message, video and file is listed in the
/// enhanced content, under a section titled with the number of files of
/// its kind: an image, voice message or video by the line "- <path>", a
/// file by the line "- <name> [<type>] (路径: <path>)" (its name, or
/// "未知文件" without one).
pub proof fn law_downloads_listed(content: Seq<char>, ms: Seq<DownloadedMedia>, i: int)
    requires
        0 <= i < ms.len(),
    ensures
        ({
            let k = ms[i].media_type@;
            k == "image"@ || k == "voice"@ || k == "video"@ ==> {
                &&& contains_seq(enhanced_content(content, ms), "- "@ + ms[i].local_path@ + "\n"@)
                &&& contains_seq(
                    enhanced_content(content, ms),
                    section_title(k) + " ("@ + nat_text(kind_count(ms, k, ms.len())) + " 个)：\n"@,
                )
            }
        }),
        ms[i].media_type@ == "file"@ ==> {
            &&& contains_seq(
                enhanced_content(content, ms),
                "- "@ + (match ms[i].filename {
                    Some(n) => n@,
                    None => "未知文件"@,
                }) + " ["@ + file_type_description(
                    file_type_of_name(
                        match ms[i].filename {
                            Some(n) => n@,
                            None => "未知文件"@,
                        },
                    ),
                ) + "] (路径: "@ + ms[i].local_path@ + ")\n"@,
            )
            &&& contains_seq(
                enhanced_content(content, ms),
                "文件"@ + " ("@ + nat_text(kind_count(ms, "file"@, ms.len())) + " 个)：\n"@,
            )
        },
{
    reveal_strlit("image");
    reveal_strlit("voice");
    reveal_strlit("video");
    reveal_strlit("file");
    assert("image"@[0] == 'i' && "voice"@[0] == 'v' && "video"@[0] == 'v' && "file"@[0] == 'f');
    assert("voice"@[1] == 'o' && "video"@[1] == 'i');
    let k = ms[i].media_type@;
    let pre = if content.len() == 0 {
        Seq::<char>::empty()
    } else {
        content + "\n\n"@
    };
    let h = "已下载的媒体文件：\n\n"@;
    let si = media_section("图片"@, ms, "image"@);
    let sv = media_section("语音消息"@, ms, "voice"@);
    let sd = media_section("视频"@, ms, "video"@);
    let sf = media_section("文件"@, ms, "file"@);
    let t = "---\n"@ + media_notice();
    let e = enhanced_content(content, ms);
    assert(e =~= pre + h + si + sv + sd + sf + t);
    if k == "image"@ || k == "voice"@ || k == "video"@ || k == "file"@ {
        lemma_section_contains(ms, k, i);
        let head = section_title(k) + " ("@ + nat_text(kind_count(ms, k, ms.len())) + " 个)：\n"@;
        let line = media_line(ms[i], k);
        let (a, x, b) = if k == "image"@ {
            (pre + h, si, sv + sd + sf + t)
        } else if k == "voice"@ {
            (pre + h + si, sv, sd + sf + t)
        } else if k == "video"@ {
            (pre + h + si + sv, sd, sf + t)
        } else {
            (pre + h + si + sv + sd, sf, t)
        };
        assert(x == media_section(section_title(k), ms, k));
        assert(e =~= a + x + b);
        lemma_contains_within(a, x, b, head);
        lemma_contains_within(a, x, b, line);
        if k == "file"@ {
            assert(section_title(k) == "文件"@);
            let nm = match ms[i].filename {
                Some(n) => n@,
                None => "未知文件"@,
            };
            assert(shown_name(ms[i]) == nm);
            assert(line == "- "@ + nm + " ["@ + file_type_description(file_type_of_name(nm))
                + "] (路径: "@ + ms[i].local_path@ + ")\n"@);
        }
    }
}

/// Without downloads the content is left as it is; with downloads it keeps
/// the content at its start and ends with the notice on handling media.
pub proof fn law_enhanced_content_keeps_message(content: Seq<char>, ms: Seq<DownloadedMedia>)
    ensures
        ms.len() == 0 ==> enhanced_content(content, ms) == content,
        ms.len() > 0 ==> enhanced_content(content, ms).take(content.len() as int) == content,
        ms.len() > 0 ==> has_prefix(
            enhanced_content(content, ms).skip(
                enhanced_content(content, ms).len() - media_notice().len(),
            ),
            media_notice(),
        ),
{
    if ms.len() > 0 {
        let e = enhanced_content(content, ms);
        let pre = if content.len() == 0 {
            Seq::<char>::empty()
        } else {
            content + "\n\n"@
        };
        let rest = "已下载的媒体文件：\n\n"@ + media_section("图片"@, ms, "image"@) + media_section(
            "语音消息"@,
            ms,
            "voice"@,
        ) + media_section("视频"@, ms, "video"@) + media_section("文件"@, ms, "file"@) + "---\n"@;
        assert(e =~= pre + rest + media_notice());
        assert(e.take(content.len() as int) =~= content);
        assert(e.skip(e.len() - media_notice().len()).subrange(0, media_notice().len() as int)
            =~= media_notice());
    }
}

} // verus!
