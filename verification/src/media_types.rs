//! Types of the unified media download architecture: URL kinds, media
//! kinds, download strategies, file kinds, detection results and download
//! settings.
use vstd::prelude::*;

use crate::text::{after_last, all_ascii, ascii_lower_seq, ascii_upper_seq, in_list, lemma_ascii_case, lowercase_of, str_eq, suffix_after, to_lowercase, views};

verus! {

/// Classification of a URL source.
#[derive(Debug, Clone, Copy, PartialEq, Eq, Structural)]
pub enum UrlType {
    /// NapCat proxy URL (http://napcat-host:port/files/...).
    NapCatProxy,
    /// QQ official image CDN.
    QqImageCdn,
    /// QQ official file CDN.
    QqFileCdn,
    /// Regular external URL, downloadable directly over HTTP.
    ExternalHttp,
    /// Embedded Base64 data (base64://... or data:...).
    Base64Data,
    /// Local file path (file://...).
    LocalPath,
    /// Unrecognized URL.
    Unknown,
}

pub open spec fn url_type_name(t: UrlType) -> Seq<char> {
    match t {
        UrlType::NapCatProxy => "napcat_proxy"@,
        UrlType::QqImageCdn => "qq_image_cdn"@,
        UrlType::QqFileCdn => "qq_file_cdn"@,
        UrlType::ExternalHttp => "external_http"@,
        UrlType::Base64Data => "base64_data"@,
        UrlType::LocalPath => "local_path"@,
        UrlType::Unknown => "unknown"@,
    }
}

impl UrlType {
    /// Human-readable name of this URL type.
    pub fn as_str(&self) -> (r: &'static str)
        ensures
            r@ == url_type_name(*self),
    {
        match self {
            UrlType::NapCatProxy => "napcat_proxy",
            UrlType::QqImageCdn => "qq_image_cdn",
            UrlType::QqFileCdn => "qq_file_cdn",
            UrlType::ExternalHttp => "external_http",
            UrlType::Base64Data => "base64_data",
            UrlType::LocalPath => "local_path",
            UrlType::Unknown => "unknown",
        }
    }
}

/// NapCat media APIs.
#[derive(Debug, Clone, Copy, PartialEq, Eq, Structural)]
pub enum NapCatMediaApi {
    GetImage,
    GetRecord,
    GetVideo,
    GetFile,
    DownloadFile,
    DownloadFileStream,
}

pub open spec fn media_api_action(a: NapCatMediaApi) -> Seq<char> {
    match a {
        NapCatMediaApi::GetImage => "get_image"@,
        NapCatMediaApi::GetRecord => "get_record"@,
        NapCatMediaApi::GetVideo => "get_video"@,
        NapCatMediaApi::GetFile => "get_file"@,
        NapCatMediaApi::DownloadFile => "download_file"@,
        NapCatMediaApi::DownloadFileStream => "download_file_stream"@,
    }
}

impl NapCatMediaApi {
    /// The API action name.
    pub fn as_action(&self) -> (r: &'static str)
        ensures
            r@ == media_api_action(*self),
    {
        match self {
            NapCatMediaApi::GetImage => "get_image",
            NapCatMediaApi::GetRecord => "get_record",
            NapCatMediaApi::GetVideo => "get_video",
            NapCatMediaApi::GetFile => "get_file",
            NapCatMediaApi::DownloadFile => "download_file",
            NapCatMediaApi::DownloadFileStream => "download_file_stream",
        }
    }
}

/// Strategies for downloading media.
#[derive(Debug, Clone, Copy, PartialEq, Eq, Structural)]
pub enum DownloadStrategy {
    /// NapCat streaming download (download_file_stream API).
    NapCatStream,
    /// NapCat regular download (download_file API).
    NapCatRegular,
    /// Direct HTTP download.
    DirectHttp,
    /// Decode Base64 data.
    DecodeBase64,
    /// Read a local file.
    ReadLocalFile,
}

pub open spec fn strategy_name(s: DownloadStrategy) -> Seq<char> {
    match s {
        DownloadStrategy::NapCatStream => "napcat_stream"@,
        DownloadStrategy::NapCatRegular => "napcat_regular"@,
        DownloadStrategy::DirectHttp => "direct_http"@,
        DownloadStrategy::DecodeBase64 => "decode_base64"@,
        DownloadStrategy::ReadLocalFile => "read_local_file"@,
    }
}

impl DownloadStrategy {
    /// Human-readable name of this strategy.
    pub fn as_str(&self) -> (r: &'static str)
        ensures
            r@ == strategy_name(*self),
    {
        match self {
            DownloadStrategy::NapCatStream => "napcat_stream",
            DownloadStrategy::NapCatRegular => "napcat_regular",
            DownloadStrategy::DirectHttp => "direct_http",
            DownloadStrategy::DecodeBase64 => "decode_base64",
            DownloadStrategy::ReadLocalFile => "read_local_file",
        }
    }
}

/// Kind of media content.
#[derive(Debug, Clone, Copy, PartialEq, Eq, Structural)]
pub enum MediaType {
    Image,
    Voice,
    Video,
    File,
}

pub open spec fn media_type_name(m: MediaType) -> Seq<char> {
    match m {
        MediaType::Image => "image"@,
        MediaType::Voice => "voice"@,
        MediaType::Video => "video"@,
        MediaType::File => "file"@,
    }
}

/// The media type a lower-case name stands for.
pub open spec fn media_type_named(n: Seq<char>) -> Option<MediaType> {
    if n == "image"@ || n == "img"@ || n == "picture"@ || n == "photo"@ {
        Some(MediaType::Image)
    } else if n == "voice"@ || n == "audio"@ || n == "record"@ {
        Some(MediaType::Voice)
    } else if n == "video"@ {
        Some(MediaType::Video)
    } else if n == "file"@ {
        Some(MediaType::File)
    } else {
        None
    }
}

pub open spec fn image_extensions() -> Seq<Seq<char>> {
    seq!["jpg"@, "jpeg"@, "png"@, "gif"@, "webp"@, "bmp"@, "svg"@]
}

pub open spec fn voice_extensions() -> Seq<Seq<char>> {
    seq!["mp3"@, "wav"@, "ogg"@, "amr"@, "flac"@, "aac"@, "m4a"@]
}

pub open spec fn video_extensions() -> Seq<Seq<char>> {
    seq!["mp4"@, "mov"@, "avi"@, "mkv"@, "flv"@, "webm"@]
}

pub open spec fn media_extensions(m: MediaType) -> Seq<Seq<char>> {
    match m {
        MediaType::Image => image_extensions(),
        MediaType::Voice => voice_extensions(),
        MediaType::Video => video_extensions(),
        MediaType::File => Seq::empty(),
    }
}

/// The media type of a lower-case extension.
pub open spec fn media_type_of_ext(e: Seq<char>) -> MediaType {
    if image_extensions().contains(e) {
        MediaType::Image
    } else if voice_extensions().contains(e) {
        MediaType::Voice
    } else if video_extensions().contains(e) {
        MediaType::Video
    } else {
        MediaType::File
    }
}

impl MediaType {
    /// Human-readable name of this media type.
    pub fn as_str(&self) -> (r: &'static str)
        ensures
            r@ == media_type_name(*self),
    {
        match self {
            MediaType::Image => "image",
            MediaType::Voice => "voice",
            MediaType::Video => "video",
            MediaType::File => "file",
        }
    }

    /// The media type named by an already lower-cased name.
    pub fn from_lowercase_name(name: &str) -> (r: Option<MediaType>)
        ensures
            r == media_type_named(name@),
    {
        if str_eq(name, "image") || str_eq(name, "img") || str_eq(name, "picture") || str_eq(
            name,
            "photo",
        ) {
            Some(MediaType::Image)
        } else if str_eq(name, "voice") || str_eq(name, "audio") || str_eq(name, "record") {
            Some(MediaType::Voice)
        } else if str_eq(name, "video") {
            Some(MediaType::Video)
        } else if str_eq(name, "file") {
            Some(MediaType::File)
        } else {
            None
        }
    }

    /// Parse a media type name, ignoring case.
    pub fn parse(s: &str) -> (r: Option<MediaType>)
        ensures
            r == media_type_named(lowercase_of(s@)),
            all_ascii(s@) ==> r == media_type_named(ascii_lower_seq(s@)),
    {
        let lowered = to_lowercase(s);
        Self::from_lowercase_name(lowered.as_str())
    }

    /// Common file extensions of this media type.
    pub fn common_extensions(&self) -> (r: &'static [&'static str])
        ensures
            views(r@) == media_extensions(*self),
    {
        let r: &'static [&'static str] = match self {
            MediaType::Image => &["jpg", "jpeg", "png", "gif", "webp", "bmp", "svg"],
            MediaType::Voice => &["mp3", "wav", "ogg", "amr", "flac", "aac", "m4a"],
            MediaType::Video => &["mp4", "mov", "avi", "mkv", "flv", "webm"],
            MediaType::File => &[],
        };
        assert(views(r@) =~= media_extensions(*self));
        r
    }

    /// The media type of an already lower-cased extension.
    pub fn from_lowercase_extension(ext: &str) -> (r: MediaType)
        ensures
            r == media_type_of_ext(ext@),
    {
        if in_list(ext, MediaType::Image.common_extensions()) {
            MediaType::Image
        } else if in_list(ext, MediaType::Voice.common_extensions()) {
            MediaType::Voice
        } else if in_list(ext, MediaType::Video.common_extensions()) {
            MediaType::Video
        } else {
            MediaType::File
        }
    }

    /// Guess the media type from a file extension, ignoring case.
    pub fn from_extension(ext: &str) -> (r: MediaType)
        ensures
            r == media_type_of_ext(lowercase_of(ext@)),
            all_ascii(ext@) ==> r == media_type_of_ext(ascii_lower_seq(ext@)),
    {
        let lowered = to_lowercase(ext);
        Self::from_lowercase_extension(lowered.as_str())
    }
}

/// Detailed file type of a downloaded file.
#[derive(Debug, Clone, Copy, PartialEq, Eq, Structural)]
pub enum FileType {
    Pdf,
    Word,
    Excel,
    PowerPoint,
    Text,
    Archive,
    Code,
    Image,
    Audio,
    Video,
    Other,
}

pub open spec fn file_type_description(t: FileType) -> Seq<char> {
    match t {
        FileType::Pdf => "PDF文档"@,
        FileType::Word => "Word文档"@,
        FileType::Excel => "Excel表格"@,
        FileType::PowerPoint => "PowerPoint演示文稿"@,
        FileType::Text => "文本文件"@,
        FileType::Archive => "压缩文件"@,
        FileType::Code => "代码文件"@,
        FileType::Image => "图片"@,
        FileType::Audio => "音频文件"@,
        FileType::Video => "视频文件"@,
        FileType::Other => "其他文件"@,
    }
}

pub open spec fn word_extensions() -> Seq<Seq<char>> {
    seq!["doc"@, "docx"@, "rtf"@, "odt"@]
}

pub open spec fn excel_extensions() -> Seq<Seq<char>> {
    seq!["xls"@, "xlsx"@, "csv"@, "ods"@]
}

pub open spec fn powerpoint_extensions() -> Seq<Seq<char>> {
    seq!["ppt"@, "pptx"@, "odp"@]
}

pub open spec fn text_extensions() -> Seq<Seq<char>> {
    seq![
        "txt"@,
        "md"@,
        "markdown"@,
        "log"@,
        "json"@,
        "yaml"@,
        "yml"@,
        "toml"@,
        "ini"@,
        "cfg"@,
        "conf"@,
    ]
}

pub open spec fn archive_extensions() -> Seq<Seq<char>> {
    seq!["zip"@, "rar"@, "7z"@, "tar"@, "gz"@, "bz2"@, "xz"@, "tgz"@]
}

pub open spec fn code_extensions() -> Seq<Seq<char>> {
    seq![
        "rs"@,
        "py"@,
        "js"@,
        "ts"@,
        "jsx"@,
        "tsx"@,
        "java"@,
        "c"@,
        "cpp"@,
        "h"@,
        "hpp"@,
        "cs"@,
        "go"@,
        "rb"@,
        "php"@,
        "swift"@,
        "kt"@,
        "scala"@,
        "lua"@,
        "sh"@,
        "bat"@,
        "ps1"@,
        "sql"@,
        "html"@,
        "css"@,
        "scss"@,
        "less"@,
        "vue"@,
        "svelte"@,
    ]
}

pub open spec fn image_file_extensions() -> Seq<Seq<char>> {
    seq![
        "jpg"@,
        "jpeg"@,
        "png"@,
        "gif"@,
        "webp"@,
        "bmp"@,
        "svg"@,
        "ico"@,
        "tiff"@,
        "tif"@,
        "heic"@,
        "heif"@,
    ]
}

pub open spec fn audio_file_extensions() -> Seq<Seq<char>> {
    seq!["mp3"@, "wav"@, "ogg"@, "flac"@, "aac"@, "m4a"@, "wma"@, "opus"@, "amr"@]
}

pub open spec fn video_file_extensions() -> Seq<Seq<char>> {
    seq!["mp4"@, "mov"@, "avi"@, "mkv"@, "flv"@, "webm"@, "wmv"@, "m4v"@, "3gp"@, "ts"@]
}

/// The file type of a lower-case extension; the lists are tried in this order.
pub open spec fn file_type_of_ext(e: Seq<char>) -> FileType {
    if e == "pdf"@ {
        FileType::Pdf
    } else if word_extensions().contains(e) {
        FileType::Word
    } else if excel_extensions().contains(e) {
        FileType::Excel
    } else if powerpoint_extensions().contains(e) {
        FileType::PowerPoint
    } else if text_extensions().contains(e) {
        FileType::Text
    } else if archive_extensions().contains(e) {
        FileType::Archive
    } else if code_extensions().contains(e) {
        FileType::Code
    } else if image_file_extensions().contains(e) {
        FileType::Image
    } else if audio_file_extensions().contains(e) {
        FileType::Audio
    } else if video_file_extensions().contains(e) {
        FileType::Video
    } else {
        FileType::Other
    }
}

impl FileType {
    /// Human-readable description of this file type.
    pub fn description(&self) -> (r: &'static str)
        ensures
            r@ == file_type_description(*self),
    {
        match self {
            FileType::Pdf => "PDF文档",
            FileType::Word => "Word文档",
            FileType::Excel => "Excel表格",
            FileType::PowerPoint => "PowerPoint演示文稿",
            FileType::Text => "文本文件",
            FileType::Archive => "压缩文件",
            FileType::Code => "代码文件",
            FileType::Image => "图片",
            FileType::Audio => "音频文件",
            FileType::Video => "视频文件",
            FileType::Other => "其他文件",
        }
    }

    /// The file type of an already lower-cased extension.
    pub fn from_lowercase_extension(e: &str) -> (r: FileType)
        ensures
            r == file_type_of_ext(e@),
    {
        if str_eq(e, "pdf") {
            return FileType::Pdf;
        }
        let l: &[&str] = &["doc", "docx", "rtf", "odt"];
        assert(views(l@) =~= word_extensions());
        if in_list(e, l) {
            return FileType::Word;
        }
        let l: &[&str] = &["xls", "xlsx", "csv", "ods"];
        assert(views(l@) =~= excel_extensions());
        if in_list(e, l) {
            return FileType::Excel;
        }
        let l: &[&str] = &["ppt", "pptx", "odp"];
        assert(views(l@) =~= powerpoint_extensions());
        if in_list(e, l) {
            return FileType::PowerPoint;
        }
        let l: &[&str] = &[
            "txt",
            "md",
            "markdown",
            "log",
            "json",
            "yaml",
            "yml",
            "toml",
            "ini",
            "cfg",
            "conf",
        ];
        assert(views(l@) =~= text_extensions());
        if in_list(e, l) {
            return FileType::Text;
        }
        let l: &[&str] = &["zip", "rar", "7z", "tar", "gz", "bz2", "xz", "tgz"];
        assert(views(l@) =~= archive_extensions());
        if in_list(e, l) {
            return FileType::Archive;
        }
        let l: &[&str] = &[
            "rs",
            "py",
            "js",
            "ts",
            "jsx",
            "tsx",
            "java",
            "c",
            "cpp",
            "h",
            "hpp",
            "cs",
            "go",
            "rb",
            "php",
            "swift",
            "kt",
            "scala",
            "lua",
            "sh",
            "bat",
            "ps1",
            "sql",
            "html",
            "css",
            "scss",
            "less",
            "vue",
            "svelte",
        ];
        assert(views(l@) =~= code_extensions());
        if in_list(e, l) {
            return FileType::Code;
        }
        let l: &[&str] = &[
            "jpg",
            "jpeg",
            "png",
            "gif",
            "webp",
            "bmp",
            "svg",
            "ico",
            "tiff",
            "tif",
            "heic",
            "heif",
        ];
        assert(views(l@) =~= image_file_extensions());
        if in_list(e, l) {
            return FileType::Image;
        }
        let l: &[&str] = &["mp3", "wav", "ogg", "flac", "aac", "m4a", "wma", "opus", "amr"];
        assert(views(l@) =~= audio_file_extensions());
        if in_list(e, l) {
            return FileType::Audio;
        }
        let l: &[&str] = &["mp4", "mov", "avi", "mkv", "flv", "webm", "wmv", "m4v", "3gp", "ts"];
        assert(views(l@) =~= video_file_extensions());
        if in_list(e, l) {
            return FileType::Video;
        }
        FileType::Other
    }

    /// Detect the file type from a file extension, ignoring case.
    pub fn from_extension(ext: &str) -> (r: FileType)
        ensures
            r == file_type_of_ext(lowercase_of(ext@)),
            all_ascii(ext@) ==> r == file_type_of_ext(ascii_lower_seq(ext@)),
    {
        let lowered = to_lowercase(ext);
        Self::from_lowercase_extension(lowered.as_str())
    }

    /// Detect the file type from a file name: the extension is what follows
    /// the last '.' (the whole name when there is none).
    pub fn from_filename(filename: &str) -> (r: FileType)
        ensures
            r == file_type_of_ext(lowercase_of(after_last(filename@, '.'))),
            all_ascii(after_last(filename@, '.')) ==> r == file_type_of_ext(
                ascii_lower_seq(after_last(filename@, '.')),
            ),
    {
        let ext = suffix_after(filename, '.');
        Self::from_extension(ext.as_str())
    }
}

/// Result of URL type detection.
#[derive(Debug, Clone, Copy, PartialEq, Eq, Structural)]
pub struct UrlDetectionResult {
    /// Detected URL type.
    pub url_type: UrlType,
    /// Suggested download strategy.
    pub strategy: DownloadStrategy,
    /// Whether a NapCat API call is needed first to get the actual URL.
    pub needs_napcat_api: bool,
    /// Which NapCat API to call if needed.
    pub napcat_api: Option<NapCatMediaApi>,
}

impl UrlDetectionResult {
    /// A detection result without API requirement.
    pub fn simple(url_type: UrlType, strategy: DownloadStrategy) -> (r: UrlDetectionResult)
        ensures
            r == (UrlDetectionResult {
                url_type,
                strategy,
                needs_napcat_api: false,
                napcat_api: None,
            }),
    {
        UrlDetectionResult { url_type, strategy, needs_napcat_api: false, napcat_api: None }
    }

    /// A detection result that requires a NapCat API call.
    pub fn with_api(url_type: UrlType, strategy: DownloadStrategy, api: NapCatMediaApi) -> (r:
        UrlDetectionResult)
        ensures
            r == (UrlDetectionResult {
                url_type,
                strategy,
                needs_napcat_api: true,
                napcat_api: Some(api),
            }),
    {
        UrlDetectionResult { url_type, strategy, needs_napcat_api: true, napcat_api: Some(api) }
    }
}

/// Retry and timeout settings for downloads.
#[derive(Debug, Clone, Copy, PartialEq, Eq, Structural)]
pub struct DownloadConfig {
    /// Maximum number of retry attempts.
    pub max_retries: u32,
    /// Initial retry delay in milliseconds.
    pub initial_retry_delay_ms: u64,
    /// Maximum retry delay in milliseconds.
    pub max_retry_delay_ms: u64,
    /// Download timeout in seconds.
    pub timeout_secs: u64,
    /// Maximum file size in bytes.
    pub max_file_size: usize,
}

impl Default for DownloadConfig {
    fn default() -> (r: DownloadConfig)
        ensures
            r == (DownloadConfig {
                max_retries: 3,
                initial_retry_delay_ms: 500,
                max_retry_delay_ms: 5000,
                timeout_secs: 120,
                max_file_size: 104857600,
            }),
    {
        DownloadConfig {
            max_retries: 3,
            initial_retry_delay_ms: 500,
            max_retry_delay_ms: 5000,
            timeout_secs: 120,
            max_file_size: 100 * 1024 * 1024,
        }
    }
}

/// Strategy fallback order when the primary strategy fails.
pub fn strategy_fallback_order() -> (r: [DownloadStrategy; 3])
    ensures
        r@ == seq![
            DownloadStrategy::NapCatStream,
            DownloadStrategy::NapCatRegular,
            DownloadStrategy::DirectHttp,
        ],
{
    let r = [DownloadStrategy::NapCatStream, DownloadStrategy::NapCatRegular, DownloadStrategy::DirectHttp];
    assert(r@ =~= seq![
        DownloadStrategy::NapCatStream,
        DownloadStrategy::NapCatRegular,
        DownloadStrategy::DirectHttp,
    ]);
    r
}

/// Parsing a media type's name, in lower or upper case, gives that media
/// type back: the name is ASCII, so `parse` reads it through its ASCII
/// lower-case form.
pub proof fn law_media_type_name_parses_back(m: MediaType)
    ensures
        all_ascii(media_type_name(m)),
        media_type_named(ascii_lower_seq(media_type_name(m))) == Some(m),
        all_ascii(ascii_upper_seq(media_type_name(m))),
        media_type_named(ascii_lower_seq(ascii_upper_seq(media_type_name(m)))) == Some(m),
{
    reveal_strlit("image");
    assert("image"@.len() == 5 && "image"@[0] == 'i' && "image"@[1] == 'm' && "image"@[2] == 'a');
    reveal_strlit("voice");
    assert("voice"@.len() == 5 && "voice"@[0] == 'v' && "voice"@[1] == 'o' && "voice"@[2] == 'i');
    reveal_strlit("video");
    assert("video"@.len() == 5 && "video"@[0] == 'v' && "video"@[1] == 'i' && "video"@[2] == 'd');
    reveal_strlit("file");
    assert("file"@.len() == 4 && "file"@[0] == 'f' && "file"@[1] == 'i' && "file"@[2] == 'l');
    reveal_strlit("img");
    assert("img"@.len() == 3 && "img"@[0] == 'i' && "img"@[1] == 'm' && "img"@[2] == 'g');
    reveal_strlit("picture");
    assert("picture"@.len() == 7 && "picture"@[0] == 'p' && "picture"@[1] == 'i' && "picture"@[2] == 'c');
    reveal_strlit("photo");
    assert("photo"@.len() == 5 && "photo"@[0] == 'p' && "photo"@[1] == 'h' && "photo"@[2] == 'o');
    reveal_strlit("audio");
    assert("audio"@.len() == 5 && "audio"@[0] == 'a' && "audio"@[1] == 'u' && "audio"@[2] == 'd');
    reveal_strlit("record");
    assert("record"@.len() == 6 && "record"@[0] == 'r' && "record"@[1] == 'e' && "record"@[2] == 'c');
    let n = media_type_name(m);
    assert(ascii_lower_seq(n) =~= n);
    lemma_ascii_case(n);
}

/// Every common extension of a media type is recognised as that media type,
/// in lower and in upper case.
pub proof fn law_common_extensions_recognised(m: MediaType, i: int)
    requires
        0 <= i < media_extensions(m).len(),
    ensures
        media_type_of_ext(media_extensions(m)[i]) == m,
        all_ascii(media_extensions(m)[i]),
        media_type_of_ext(ascii_lower_seq(media_extensions(m)[i])) == m,
        all_ascii(ascii_upper_seq(media_extensions(m)[i])),
        media_type_of_ext(ascii_lower_seq(ascii_upper_seq(media_extensions(m)[i]))) == m,
{
    reveal_strlit("jpg");
    assert("jpg"@.len() == 3 && "jpg"@[0] == 'j' && "jpg"@[1] == 'p' && "jpg"@[2] == 'g');
    reveal_strlit("jpeg");
    assert("jpeg"@.len() == 4 && "jpeg"@[0] == 'j' && "jpeg"@[1] == 'p' && "jpeg"@[2] == 'e');
    reveal_strlit("png");
    assert("png"@.len() == 3 && "png"@[0] == 'p' && "png"@[1] == 'n' && "png"@[2] == 'g');
    reveal_strlit("gif");
    assert("gif"@.len() == 3 && "gif"@[0] == 'g' && "gif"@[1] == 'i' && "gif"@[2] == 'f');
    reveal_strlit("webp");
    assert("webp"@.len() == 4 && "webp"@[0] == 'w' && "webp"@[1] == 'e' && "webp"@[2] == 'b' && "webp"@[3] == 'p');
    reveal_strlit("bmp");
    assert("bmp"@.len() == 3 && "bmp"@[0] == 'b' && "bmp"@[1] == 'm' && "bmp"@[2] == 'p');
    reveal_strlit("svg");
    assert("svg"@.len() == 3 && "svg"@[0] == 's' && "svg"@[1] == 'v' && "svg"@[2] == 'g');
    reveal_strlit("mp3");
    assert("mp3"@.len() == 3 && "mp3"@[0] == 'm' && "mp3"@[1] == 'p' && "mp3"@[2] == '3');
    reveal_strlit("wav");
    assert("wav"@.len() == 3 && "wav"@[0] == 'w' && "wav"@[1] == 'a' && "wav"@[2] == 'v');
    reveal_strlit("ogg");
    assert("ogg"@.len() == 3 && "ogg"@[0] == 'o' && "ogg"@[1] == 'g' && "ogg"@[2] == 'g');
    reveal_strlit("amr");
    assert("amr"@.len() == 3 && "amr"@[0] == 'a' && "amr"@[1] == 'm' && "amr"@[2] == 'r');
    reveal_strlit("flac");
    assert("flac"@.len() == 4 && "flac"@[0] == 'f' && "flac"@[1] == 'l' && "flac"@[2] == 'a');
    reveal_strlit("aac");
    assert("aac"@.len() == 3 && "aac"@[0] == 'a' && "aac"@[1] == 'a' && "aac"@[2] == 'c');
    reveal_strlit("m4a");
    assert("m4a"@.len() == 3 && "m4a"@[0] == 'm' && "m4a"@[1] == '4' && "m4a"@[2] == 'a');
    reveal_strlit("mp4");
    assert("mp4"@.len() == 3 && "mp4"@[0] == 'm' && "mp4"@[1] == 'p' && "mp4"@[2] == '4');
    reveal_strlit("mov");
    assert("mov"@.len() == 3 && "mov"@[0] == 'm' && "mov"@[1] == 'o' && "mov"@[2] == 'v');
    reveal_strlit("avi");
    assert("avi"@.len() == 3 && "avi"@[0] == 'a' && "avi"@[1] == 'v' && "avi"@[2] == 'i');
    reveal_strlit("mkv");
    assert("mkv"@.len() == 3 && "mkv"@[0] == 'm' && "mkv"@[1] == 'k' && "mkv"@[2] == 'v');
    reveal_strlit("flv");
    assert("flv"@.len() == 3 && "flv"@[0] == 'f' && "flv"@[1] == 'l' && "flv"@[2] == 'v');
    reveal_strlit("webm");
    assert("webm"@.len() == 4 && "webm"@[0] == 'w' && "webm"@[1] == 'e' && "webm"@[2] == 'b' && "webm"@[3] == 'm');
    let e = media_extensions(m)[i];
    match m {
        MediaType::Image => {
            assert(image_extensions().contains(e));
        },
        MediaType::Voice => {
            assert(voice_extensions().contains(e));
            assert(!image_extensions().contains(e));
        },
        MediaType::Video => {
            assert(video_extensions().contains(e));
            assert(!image_extensions().contains(e));
            assert(!voice_extensions().contains(e));
        },
        MediaType::File => {},
    }
    assert(all_ascii(e) && ascii_lower_seq(e) =~= e);
    lemma_ascii_case(e);
}

/// `MediaType::parse`, `MediaType::from_extension` and
/// `FileType::from_extension` ignore the letter case of ASCII text: the text,
/// its lower-case form and its upper-case form (all ASCII) give the same
/// result.
pub proof fn law_ascii_case_ignored(s: Seq<char>)
    requires
        all_ascii(s),
    ensures
        all_ascii(ascii_lower_seq(s)),
        all_ascii(ascii_upper_seq(s)),
        media_type_named(ascii_lower_seq(ascii_lower_seq(s))) == media_type_named(ascii_lower_seq(s)),
        media_type_named(ascii_lower_seq(ascii_upper_seq(s))) == media_type_named(ascii_lower_seq(s)),
        media_type_of_ext(ascii_lower_seq(ascii_lower_seq(s))) == media_type_of_ext(ascii_lower_seq(s)),
        media_type_of_ext(ascii_lower_seq(ascii_upper_seq(s))) == media_type_of_ext(ascii_lower_seq(s)),
        file_type_of_ext(ascii_lower_seq(ascii_lower_seq(s))) == file_type_of_ext(ascii_lower_seq(s)),
        file_type_of_ext(ascii_lower_seq(ascii_upper_seq(s))) == file_type_of_ext(ascii_lower_seq(s)),
{
    lemma_ascii_case(s);
}

} // verus!
