//! OneBot 11 messages: message segments (text, image, at, reply, ...) and
//! messages made of plain text or of segments.
use vstd::prelude::*;

use crate::json::{opt_json, opt_str, Json, JsonValue};
use crate::text::{
    after_last, after_last_either, lowercase_of, owned, push_str, str_eq, suffix_after,
    suffix_after_either, to_lowercase, trim, trimmed, views, in_list,
};

verus! {

/// One segment of a OneBot 11 message.
#[derive(Debug)]
pub enum MessageSegment {
    /// Plain text.
    Text { text: String },
    /// QQ emoji.
    Face {
        id: String,
        raw: Option<JsonValue>,
        result_id: Option<String>,
        chain_count: Option<i32>,
    },
    /// Mall emoji (sticker store).
    Mface {
        emoji_id: String,
        emoji_package_id: String,
        key: Option<String>,
        summary: Option<String>,
    },
    /// Image.
    Image {
        file: String,
        url: Option<String>,
        summary: Option<String>,
        sub_type: Option<i32>,
        file_size: Option<i64>,
        cache: Option<bool>,
        proxy: Option<bool>,
        timeout: Option<i64>,
    },
    /// Voice/audio.
    Record {
        file: String,
        url: Option<String>,
        file_size: Option<i64>,
        path: Option<String>,
        cache: Option<bool>,
        proxy: Option<bool>,
        timeout: Option<i64>,
    },
    /// Video.
    Video {
        file: String,
        url: Option<String>,
        file_size: Option<i64>,
        thumb: Option<String>,
        cache: Option<bool>,
        proxy: Option<bool>,
        timeout: Option<i64>,
    },
    /// @someone.
    At { qq: String, name: Option<String> },
    /// @all members.
    AtAll,
    /// Rock-paper-scissors magic emoji.
    Rps { result_value: String },
    /// Dice magic emoji.
    Dice { result_value: String },
    /// Poke.
    Poke { poke_type: String, id: String },
    /// Music share.
    Music {
        music_type: String,
        id: String,
        url: Option<String>,
        audio: Option<String>,
        title: Option<String>,
        content: Option<String>,
        image: Option<String>,
    },
    /// Link share.
    Share { url: String, title: String, content: Option<String>, image: Option<String> },
    /// Reply to a message.
    Reply {
        id: String,
        text: Option<String>,
        qq: Option<String>,
        time: Option<i64>,
        seq: Option<i64>,
    },
    /// Forward message (combined).
    Forward { id: String },
    /// Custom forward node.
    Node {
        id: String,
        user_id: Option<String>,
        nickname: Option<String>,
        content: Option<JsonValue>,
    },
    /// XML message.
    Xml { data: String },
    /// JSON message.
    Json { data: String },
    /// Card message.
    Card { data: String },
    /// File.
    File {
        file: String,
        file_id: Option<String>,
        url: Option<String>,
        name: Option<String>,
        size: Option<i64>,
        busid: Option<i64>,
    },
    /// Segment of an unknown type.
    Unknown,
}

/// The mathematical model of a message segment.
pub enum Segment {
    Text { text: Seq<char> },
    Face {
        id: Seq<char>,
        raw: Option<Json>,
        result_id: Option<Seq<char>>,
        chain_count: Option<i32>,
    },
    Mface {
        emoji_id: Seq<char>,
        emoji_package_id: Seq<char>,
        key: Option<Seq<char>>,
        summary: Option<Seq<char>>,
    },
    Image {
        file: Seq<char>,
        url: Option<Seq<char>>,
        summary: Option<Seq<char>>,
        sub_type: Option<i32>,
        file_size: Option<i64>,
        cache: Option<bool>,
        proxy: Option<bool>,
        timeout: Option<i64>,
    },
    Record {
        file: Seq<char>,
        url: Option<Seq<char>>,
        file_size: Option<i64>,
        path: Option<Seq<char>>,
        cache: Option<bool>,
        proxy: Option<bool>,
        timeout: Option<i64>,
    },
    Video {
        file: Seq<char>,
        url: Option<Seq<char>>,
        file_size: Option<i64>,
        thumb: Option<Seq<char>>,
        cache: Option<bool>,
        proxy: Option<bool>,
        timeout: Option<i64>,
    },
    At { qq: Seq<char>, name: Option<Seq<char>> },
    AtAll,
    Rps { result_value: Seq<char> },
    Dice { result_value: Seq<char> },
    Poke { poke_type: Seq<char>, id: Seq<char> },
    Music {
        music_type: Seq<char>,
        id: Seq<char>,
        url: Option<Seq<char>>,
        audio: Option<Seq<char>>,
        title: Option<Seq<char>>,
        content: Option<Seq<char>>,
        image: Option<Seq<char>>,
    },
    Share {
        url: Seq<char>,
        title: Seq<char>,
        content: Option<Seq<char>>,
        image: Option<Seq<char>>,
    },
    Reply {
        id: Seq<char>,
        text: Option<Seq<char>>,
        qq: Option<Seq<char>>,
        time: Option<i64>,
        seq: Option<i64>,
    },
    Forward { id: Seq<char> },
    Node {
        id: Seq<char>,
        user_id: Option<Seq<char>>,
        nickname: Option<Seq<char>>,
        content: Option<Json>,
    },
    Xml { data: Seq<char> },
    JsonData { data: Seq<char> },
    Card { data: Seq<char> },
    File {
        file: Seq<char>,
        file_id: Option<Seq<char>>,
        url: Option<Seq<char>>,
        name: Option<Seq<char>>,
        size: Option<i64>,
        busid: Option<i64>,
    },
    Unknown,
}

impl View for MessageSegment {
    type V = Segment;

    open spec fn view(&self) -> Segment {
        match self {
            MessageSegment::Text { text } => Segment::Text { text: text@ },
            MessageSegment::Face { id, raw, result_id, chain_count } => Segment::Face {
                id: id@,
                raw: opt_json(*raw),
                result_id: opt_str(*result_id),
                chain_count: *chain_count,
            },
            MessageSegment::Mface { emoji_id, emoji_package_id, key, summary } => Segment::Mface {
                emoji_id: emoji_id@,
                emoji_package_id: emoji_package_id@,
                key: opt_str(*key),
                summary: opt_str(*summary),
            },
            MessageSegment::Image {
                file,
                url,
                summary,
                sub_type,
                file_size,
                cache,
                proxy,
                timeout,
            } => Segment::Image {
                file: file@,
                url: opt_str(*url),
                summary: opt_str(*summary),
                sub_type: *sub_type,
                file_size: *file_size,
                cache: *cache,
                proxy: *proxy,
                timeout: *timeout,
            },
            MessageSegment::Record { file, url, file_size, path, cache, proxy, timeout } =>
            Segment::Record {
                file: file@,
                url: opt_str(*url),
                file_size: *file_size,
                path: opt_str(*path),
                cache: *cache,
                proxy: *proxy,
                timeout: *timeout,
            },
            MessageSegment::Video { file, url, file_size, thumb, cache, proxy, timeout } =>
            Segment::Video {
                file: file@,
                url: opt_str(*url),
                file_size: *file_size,
                thumb: opt_str(*thumb),
                cache: *cache,
                proxy: *proxy,
                timeout: *timeout,
            },
            MessageSegment::At { qq, name } => Segment::At { qq: qq@, name: opt_str(*name) },
            MessageSegment::AtAll => Segment::AtAll,
            MessageSegment::Rps { result_value } => Segment::Rps { result_value: result_value@ },
            MessageSegment::Dice { result_value } => Segment::Dice {
                result_value: result_value@,
            },
            MessageSegment::Poke { poke_type, id } => Segment::Poke {
                poke_type: poke_type@,
                id: id@,
            },
            MessageSegment::Music { music_type, id, url, audio, title, content, image } =>
            Segment::Music {
                music_type: music_type@,
                id: id@,
                url: opt_str(*url),
                audio: opt_str(*audio),
                title: opt_str(*title),
                content: opt_str(*content),
                image: opt_str(*image),
            },
            MessageSegment::Share { url, title, content, image } => Segment::Share {
                url: url@,
                title: title@,
                content: opt_str(*content),
                image: opt_str(*image),
            },
            MessageSegment::Reply { id, text, qq, time, seq } => Segment::Reply {
                id: id@,
                text: opt_str(*text),
                qq: opt_str(*qq),
                time: *time,
                seq: *seq,
            },
            MessageSegment::Forward { id } => Segment::Forward { id: id@ },
            MessageSegment::Node { id, user_id, nickname, content } => Segment::Node {
                id: id@,
                user_id: opt_str(*user_id),
                nickname: opt_str(*nickname),
                content: opt_json(*content),
            },
            MessageSegment::Xml { data } => Segment::Xml { data: data@ },
            MessageSegment::Json { data } => Segment::JsonData { data: data@ },
            MessageSegment::Card { data } => Segment::Card { data: data@ },
            MessageSegment::File { file, file_id, url, name, size, busid } => Segment::File {
                file: file@,
                file_id: opt_str(*file_id),
                url: opt_str(*url),
                name: opt_str(*name),
                size: *size,
                busid: *busid,
            },
            MessageSegment::Unknown => Segment::Unknown,
        }
    }
}

/// `o.unwrap_or_default()` for an optional text.
pub open spec fn text_or_empty(o: Option<Seq<char>>) -> Seq<char> {
    match o {
        Some(t) => t,
        None => Seq::empty(),
    }
}

/// The plain-text rendering of a segment; segments of an unknown type have none.
pub open spec fn segment_text(s: Segment) -> Option<Seq<char>> {
    match s {
        Segment::Text { text } => Some(text),
        Segment::At { qq, .. } => Some("[@"@ + qq + "]"@),
        Segment::AtAll => Some("[@all]"@),
        Segment::Image { .. } => Some("[image]"@),
        Segment::Record { .. } => Some("[voice]"@),
        Segment::Video { .. } => Some("[video]"@),
        Segment::Face { id, .. } => Some("[face:"@ + id + "]"@),
        Segment::Mface { emoji_id, summary, .. } => Some(
            "[mface:"@ + (match summary {
                Some(s) => s,
                None => "emoji:"@ + emoji_id,
            }) + "]"@,
        ),
        Segment::Reply { .. } => Some("[reply]"@),
        Segment::File { name, .. } => Some("[file:"@ + text_or_empty(name) + "]"@),
        Segment::Music { title, .. } => Some("[music:"@ + text_or_empty(title) + "]"@),
        Segment::Share { title, .. } => Some("[share:"@ + title + "]"@),
        Segment::Poke { .. } => Some("[poke]"@),
        Segment::Dice { .. } => Some("[dice]"@),
        Segment::Rps { .. } => Some("[rps]"@),
        Segment::Forward { .. } => Some("[forward]"@),
        Segment::Node { .. } => Some("[node]"@),
        Segment::Xml { .. } => Some("[xml]"@),
        Segment::JsonData { .. } => Some("[json]"@),
        Segment::Card { .. } => Some("[card]"@),
        Segment::Unknown => None,
    }
}

/// The rendering of a segment when @mentions of `bot` are left out.
pub open spec fn visible_text(s: Segment, bot: Option<Seq<char>>) -> Option<Seq<char>> {
    match (s, bot) {
        (Segment::At { qq, .. }, Some(b)) => if qq == b {
            None
        } else {
            segment_text(s)
        },
        _ => segment_text(s),
    }
}

/// The renderings of the segments, joined; @mentions of `bot` (when given)
/// are left out.
pub open spec fn joined_text(segs: Seq<Segment>, bot: Option<Seq<char>>) -> Seq<char>
    decreases segs.len(),
{
    if segs.len() == 0 {
        Seq::empty()
    } else {
        joined_text(segs.drop_last(), bot) + text_or_empty(visible_text(segs.last(), bot))
    }
}

/// A segment that carries media (image, voice, video or file).
pub open spec fn is_media_segment(s: Segment) -> bool {
    s is Image || s is Record || s is Video || s is File
}

/// `o.unwrap_or(d)` for an optional text.
pub open spec fn text_or(o: Option<Seq<char>>, d: Seq<char>) -> Seq<char> {
    match o {
        Some(t) => t,
        None => d,
    }
}

/// The media URL (the URL when given, else the file) and media kind of a
/// media segment.
pub open spec fn segment_media(s: Segment) -> Option<(Seq<char>, Seq<char>)> {
    match s {
        Segment::Image { file, url, .. } => Some((text_or(url, file), "image"@)),
        Segment::Record { file, url, .. } => Some((text_or(url, file), "voice"@)),
        Segment::Video { file, url, .. } => Some((text_or(url, file), "video"@)),
        Segment::File { file, url, .. } => Some((text_or(url, file), "file"@)),
        _ => None,
    }
}

/// The media entries of the segments, in order.
pub open spec fn media_entries(segs: Seq<Segment>) -> Seq<(Seq<char>, Seq<char>)>
    decreases segs.len(),
{
    if segs.len() == 0 {
        Seq::empty()
    } else {
        media_entries(segs.drop_last()) + match segment_media(segs.last()) {
            Some(e) => seq![e],
            None => Seq::empty(),
        }
    }
}

/// The models of a list of segments.
pub open spec fn segments_view(v: Seq<MessageSegment>) -> Seq<Segment> {
    v.map_values(|s: MessageSegment| s@)
}

/// The model of a list of text pairs.
pub open spec fn pairs_view(v: Seq<(String, String)>) -> Seq<(Seq<char>, Seq<char>)> {
    v.map_values(|p: (String, String)| (p.0@, p.1@))
}

fn clone_opt(o: &Option<String>) -> (r: Option<String>)
    ensures
        opt_str(r) == opt_str(*o),
{
    match o {
        Some(s) => Some(s.clone()),
        None => None,
    }
}

fn opt_or_empty(o: &Option<String>) -> (r: String)
    ensures
        r@ == text_or_empty(opt_str(*o)),
{
    match o {
        Some(s) => s.clone(),
        None => String::new(),
    }
}

fn bracketed(head: &str, body: &str) -> (r: String)
    ensures
        r@ == head@ + body@ + "]"@,
{
    let mut r = owned(head);
    push_str(&mut r, body);
    push_str(&mut r, "]");
    r
}

impl MessageSegment {
    /// The plain-text rendering of this segment.
    pub fn to_plain_text(&self) -> (r: Option<String>)
        ensures
            opt_str(r) == segment_text(self@),
    {
        match self {
            MessageSegment::Text { text } => Some(text.clone()),
            MessageSegment::At { qq, .. } => Some(bracketed("[@", qq.as_str())),
            MessageSegment::AtAll => Some(owned("[@all]")),
            MessageSegment::Image { .. } => Some(owned("[image]")),
            MessageSegment::Record { .. } => Some(owned("[voice]")),
            MessageSegment::Video { .. } => Some(owned("[video]")),
            MessageSegment::Face { id, .. } => Some(bracketed("[face:", id.as_str())),
            MessageSegment::Mface { emoji_id, summary, .. } => {
                let desc = match summary {
                    Some(s) => s.clone(),
                    None => {
                        let mut d = owned("emoji:");
                        push_str(&mut d, emoji_id.as_str());
                        d
                    },
                };
                Some(bracketed("[mface:", desc.as_str()))
            },
            MessageSegment::Reply { .. } => Some(owned("[reply]")),
            MessageSegment::File { name, .. } => {
                let n = opt_or_empty(name);
                Some(bracketed("[file:", n.as_str()))
            },
            MessageSegment::Music { title, .. } => {
                let t = opt_or_empty(title);
                Some(bracketed("[music:", t.as_str()))
            },
            MessageSegment::Share { title, .. } => Some(bracketed("[share:", title.as_str())),
            MessageSegment::Poke { .. } => Some(owned("[poke]")),
            MessageSegment::Dice { .. } => Some(owned("[dice]")),
            MessageSegment::Rps { .. } => Some(owned("[rps]")),
            MessageSegment::Forward { .. } => Some(owned("[forward]")),
            MessageSegment::Node { .. } => Some(owned("[node]")),
            MessageSegment::Xml { .. } => Some(owned("[xml]")),
            MessageSegment::Json { .. } => Some(owned("[json]")),
            MessageSegment::Card { .. } => Some(owned("[card]")),
            MessageSegment::Unknown => None,
        }
    }

    /// The segment carries media (image, voice, video or file).
    pub fn is_media(&self) -> (r: bool)
        ensures
            r == is_media_segment(self@),
    {
        match self {
            MessageSegment::Image { .. } | MessageSegment::Record { .. } | MessageSegment::Video {
                ..
            } | MessageSegment::File { .. } => true,
            _ => false,
        }
    }

    /// The media URL and media kind ("image", "voice", "video", "file") of a
    /// media segment; the URL is preferred to the file when present.
    pub fn get_media_url(&self) -> (r: Option<(String, String)>)
        ensures
            r is Some <==> segment_media(self@) is Some,
            r matches Some(p) ==> segment_media(self@) == Some((p.0@, p.1@)),
    {
        match self {
            MessageSegment::Image { file, url, .. } => {
                let u = match url {
                    Some(u) => u.clone(),
                    None => file.clone(),
                };
                Some((u, owned("image")))
            },
            MessageSegment::Record { file, url, .. } => {
                let u = match url {
                    Some(u) => u.clone(),
                    None => file.clone(),
                };
                Some((u, owned("voice")))
            },
            MessageSegment::Video { file, url, .. } => {
                let u = match url {
                    Some(u) => u.clone(),
                    None => file.clone(),
                };
                Some((u, owned("video")))
            },
            MessageSegment::File { file, url, .. } => {
                let u = match url {
                    Some(u) => u.clone(),
                    None => file.clone(),
                };
                Some((u, owned("file")))
            },
            _ => None,
        }
    }

    /// A text segment.
    pub fn text(text: &str) -> (r: MessageSegment)
        ensures
            r@ == (Segment::Text { text: text@ }),
    {
        MessageSegment::Text { text: owned(text) }
    }

    /// An image segment.
    pub fn image(file: &str) -> (r: MessageSegment)
        ensures
            r@ == (Segment::Image {
                file: file@,
                url: None,
                summary: None,
                sub_type: None,
                file_size: None,
                cache: None,
                proxy: None,
                timeout: None,
            }),
    {
        MessageSegment::Image {
            file: owned(file),
            url: None,
            summary: None,
            sub_type: None,
            file_size: None,
            cache: None,
            proxy: None,
            timeout: None,
        }
    }

    /// An image segment with a URL.
    pub fn image_with_url(file: &str, url: &str) -> (r: MessageSegment)
        ensures
            r@ == (Segment::Image {
                file: file@,
                url: Some(url@),
                summary: None,
                sub_type: None,
                file_size: None,
                cache: None,
                proxy: None,
                timeout: None,
            }),
    {
        MessageSegment::Image {
            file: owned(file),
            url: Some(owned(url)),
            summary: None,
            sub_type: None,
            file_size: None,
            cache: None,
            proxy: None,
            timeout: None,
        }
    }

    /// An @ segment.
    pub fn at(qq: &str) -> (r: MessageSegment)
        ensures
            r@ == (Segment::At { qq: qq@, name: None }),
    {
        MessageSegment::At { qq: owned(qq), name: None }
    }

    /// An @all segment.
    pub fn at_all() -> (r: MessageSegment)
        ensures
            r@ == Segment::AtAll,
    {
        MessageSegment::AtAll
    }

    /// A reply segment.
    pub fn reply(id: &str) -> (r: MessageSegment)
        ensures
            r@ == (Segment::Reply { id: id@, text: None, qq: None, time: None, seq: None }),
    {
        MessageSegment::Reply { id: owned(id), text: None, qq: None, time: None, seq: None }
    }

    /// A voice segment.
    pub fn record(file: &str) -> (r: MessageSegment)
        ensures
            r@ == (Segment::Record {
                file: file@,
                url: None,
                file_size: None,
                path: None,
                cache: None,
                proxy: None,
                timeout: None,
            }),
    {
        MessageSegment::Record {
            file: owned(file),
            url: None,
            file_size: None,
            path: None,
            cache: None,
            proxy: None,
            timeout: None,
        }
    }

    /// A video segment.
    pub fn video(file: &str) -> (r: MessageSegment)
        ensures
            r@ == (Segment::Video {
                file: file@,
                url: None,
                file_size: None,
                thumb: None,
                cache: None,
                proxy: None,
                timeout: None,
            }),
    {
        MessageSegment::Video {
            file: owned(file),
            url: None,
            file_size: None,
            thumb: None,
            cache: None,
            proxy: None,
            timeout: None,
        }
    }

    /// A file segment.
    pub fn file(file: &str, name: Option<&str>) -> (r: MessageSegment)
        ensures
            r@ == (Segment::File {
                file: file@,
                file_id: None,
                url: None,
                name: crate::json::opt_slice(name),
                size: None,
                busid: None,
            }),
    {
        let n = match name {
            Some(s) => Some(owned(s)),
            None => None,
        };
        MessageSegment::File { file: owned(file), file_id: None, url: None, name: n, size: None, busid: None }
    }
}

/// A OneBot message: plain text or a list of segments.
#[derive(Debug)]
pub enum OneBotMessage {
    /// Plain text message.
    Text(String),
    /// Message segment array.
    Segments(Vec<MessageSegment>),
}

/// The model of a message.
pub enum Message {
    Text(Seq<char>),
    Segments(Seq<Segment>),
}

impl View for OneBotMessage {
    type V = Message;

    open spec fn view(&self) -> Message {
        match self {
            OneBotMessage::Text(s) => Message::Text(s@),
            OneBotMessage::Segments(v) => Message::Segments(segments_view(v@)),
        }
    }
}

/// The plain-text rendering of a message.
pub open spec fn message_text(m: Message) -> Seq<char> {
    match m {
        Message::Text(s) => s,
        Message::Segments(segs) => joined_text(segs, None),
    }
}

/// The plain-text rendering of a message without @mentions of `bot`; the
/// rendering of a segment message is trimmed.
pub open spec fn message_text_without_at(m: Message, bot: Seq<char>) -> Seq<char> {
    match m {
        Message::Text(s) => s,
        Message::Segments(segs) => trim(joined_text(segs, Some(bot))),
    }
}

/// The media entries of a message.
pub open spec fn message_media(m: Message) -> Seq<(Seq<char>, Seq<char>)> {
    match m {
        Message::Text(_) => Seq::empty(),
        Message::Segments(segs) => media_entries(segs),
    }
}

/// Some segment carries media.
pub open spec fn any_media(segs: Seq<Segment>) -> bool {
    exists|i: int| 0 <= i < segs.len() && is_media_segment(#[trigger] segs[i])
}

/// Some segment @mentions `bot`.
pub open spec fn any_at(segs: Seq<Segment>, bot: Seq<char>) -> bool {
    exists|i: int| 0 <= i < segs.len() && is_at_of(#[trigger] segs[i], bot)
}

/// The message holds a media segment.
pub open spec fn message_has_media(m: Message) -> bool {
    match m {
        Message::Text(_) => false,
        Message::Segments(segs) => any_media(segs),
    }
}

/// The segment @mentions `bot`.
pub open spec fn is_at_of(s: Segment, bot: Seq<char>) -> bool {
    s matches Segment::At { qq, .. } && qq == bot
}

/// The message @mentions `bot`.
pub open spec fn message_at(m: Message, bot: Seq<char>) -> bool {
    match m {
        Message::Text(_) => false,
        Message::Segments(segs) => any_at(segs, bot),
    }
}

/// The message @mentions everybody.
pub open spec fn message_at_all(m: Message) -> bool {
    match m {
        Message::Text(_) => false,
        Message::Segments(segs) => exists|i: int| 0 <= i < segs.len() && segs[i] is AtAll,
    }
}

/// Joins the renderings of `segs`, leaving out @mentions of `bot` when given.
fn join_segments(segs: &Vec<MessageSegment>, bot: Option<&str>) -> (r: String)
    ensures
        r@ == joined_text(segments_view(segs@), crate::json::opt_slice(bot)),
{
    let ghost sv = segments_view(segs@);
    let ghost b = crate::json::opt_slice(bot);
    let mut out = String::new();
    let mut i: usize = 0;
    while i < segs.len()
        invariant
            i <= segs@.len(),
            sv == segments_view(segs@),
            b == crate::json::opt_slice(bot),
            out@ == joined_text(sv.take(i as int), b),
        decreases segs.len() - i,
    {
        let seg = &segs[i];
        assert(sv.take(i + 1).drop_last() =~= sv.take(i as int));
        assert(sv.take(i + 1).last() == seg@);
        let skip = match (seg, bot) {
            (MessageSegment::At { qq, .. }, Some(bq)) => str_eq(qq.as_str(), bq),
            _ => false,
        };
        if !skip {
            match seg.to_plain_text() {
                Some(t) => push_str(&mut out, t.as_str()),
                None => {},
            }
        }
        assert(out@ == joined_text(sv.take(i + 1), b));
        i += 1;
    }
    assert(sv.take(segs@.len() as int) =~= sv);
    out
}

impl OneBotMessage {
    /// A plain text message.
    pub fn from_text(text: &str) -> (r: OneBotMessage)
        ensures
            r@ == Message::Text(text@),
    {
        OneBotMessage::Text(owned(text))
    }

    /// A message made of segments.
    pub fn from_segments(segments: Vec<MessageSegment>) -> (r: OneBotMessage)
        ensures
            r@ == Message::Segments(segments_view(segments@)),
    {
        OneBotMessage::Segments(segments)
    }

    /// The plain-text rendering: the text itself, or the renderings of the
    /// segments joined (segments of unknown type contribute nothing).
    pub fn to_plain_text(&self) -> (r: String)
        ensures
            r@ == message_text(self@),
    {
        match self {
            OneBotMessage::Text(s) => s.clone(),
            OneBotMessage::Segments(segs) => join_segments(segs, None),
        }
    }

    /// The plain-text rendering without @mentions of `bot_qq`, trimmed for a
    /// segment message.
    pub fn to_plain_text_without_at(&self, bot_qq: &str) -> (r: String)
        ensures
            r@ == message_text_without_at(self@, bot_qq@),
    {
        match self {
            OneBotMessage::Text(s) => s.clone(),
            OneBotMessage::Segments(segs) => {
                let joined = join_segments(segs, Some(bot_qq));
                trimmed(joined.as_str())
            },
        }
    }

    /// The (url, media kind) pairs of the media segments, in order.
    pub fn get_media_urls(&self) -> (r: Vec<(String, String)>)
        ensures
            pairs_view(r@) == message_media(self@),
    {
        match self {
            OneBotMessage::Text(_) => {
                let r: Vec<(String, String)> = Vec::new();
                assert(pairs_view(r@) =~= Seq::<(Seq<char>, Seq<char>)>::empty());
                r
            },
            OneBotMessage::Segments(segs) => {
                let ghost sv = segments_view(segs@);
                let mut out: Vec<(String, String)> = Vec::new();
                let mut i: usize = 0;
                while i < segs.len()
                    invariant
                        i <= segs@.len(),
                        sv == segments_view(segs@),
                        pairs_view(out@) == media_entries(sv.take(i as int)),
                    decreases segs.len() - i,
                {
                    assert(sv.take(i + 1).drop_last() =~= sv.take(i as int));
                    assert(sv.take(i + 1).last() == segs@[i as int]@);
                    let ghost before = out@;
                    match segs[i].get_media_url() {
                        Some(p) => {
                            out.push(p);
                            assert(pairs_view(out@) =~= pairs_view(before) + seq![(p.0@, p.1@)]);
                        },
                        None => {},
                    }
                    i += 1;
                }
                assert(sv.take(segs@.len() as int) =~= sv);
                out
            },
        }
    }

    /// The message holds a media segment.
    #[verifier::loop_isolation(false)]
    pub fn has_media(&self) -> (r: bool)
        ensures
            r == message_has_media(self@),
    {
        match self {
            OneBotMessage::Text(_) => false,
            OneBotMessage::Segments(segs) => {
                let mut i: usize = 0;
                while i < segs.len()
                    invariant
                        i <= segs@.len(),
                        forall|j: int| 0 <= j < i ==> !is_media_segment(segments_view(segs@)[j]),
                    decreases segs.len() - i,
                {
                    if segs[i].is_media() {
                        assert(is_media_segment(segments_view(segs@)[i as int]));
                        let ghost sv = segments_view(segs@);
                        let ghost k = i as int;
                        assert(0 <= k < sv.len() && is_media_segment(sv[k]));
                        assert(any_media(sv));
                        return true;
                    }
                    i += 1;
                }
                false
            },
        }
    }

    /// The message @mentions `bot_qq`.
    #[verifier::loop_isolation(false)]
    pub fn is_at_me(&self, bot_qq: &str) -> (r: bool)
        ensures
            r == message_at(self@, bot_qq@),
    {
        match self {
            OneBotMessage::Text(_) => false,
            OneBotMessage::Segments(segs) => {
                let ghost sv = segments_view(segs@);
                let mut i: usize = 0;
                while i < segs.len()
                    invariant
                        i <= segs@.len(),
                        sv == segments_view(segs@),
                        forall|j: int|
                            0 <= j < i ==> !is_at_of(sv[j], bot_qq@),
                    decreases segs.len() - i,
                {
                    assert(sv[i as int] == segs@[i as int]@);
                    match &segs[i] {
                        MessageSegment::At { qq, .. } => {
                            if str_eq(qq.as_str(), bot_qq) {
                                assert(is_at_of(sv[i as int], bot_qq@));
                                let ghost k = i as int;
                                assert(0 <= k < sv.len() && is_at_of(sv[k], bot_qq@));
                                assert(any_at(sv, bot_qq@));
                                return true;
                            }
                        },
                        _ => {},
                    }
                    i += 1;
                }
                false
            },
        }
    }

    /// The message @mentions everybody.
    #[verifier::loop_isolation(false)]
    pub fn is_at_all(&self) -> (r: bool)
        ensures
            r == message_at_all(self@),
    {
        match self {
            OneBotMessage::Text(_) => false,
            OneBotMessage::Segments(segs) => {
                let ghost sv = segments_view(segs@);
                let mut i: usize = 0;
                while i < segs.len()
                    invariant
                        i <= segs@.len(),
                        sv == segments_view(segs@),
                        forall|j: int| 0 <= j < i ==> !(sv[j] is AtAll),
                    decreases segs.len() - i,
                {
                    assert(sv[i as int] == segs@[i as int]@);
                    if let MessageSegment::AtAll = &segs[i] {
                        assert(sv[i as int] is AtAll);
                        return true;
                    }
                    i += 1;
                }
                false
            },
        }
    }

    /// The segments of the message; none for a text message.
    pub fn as_segments(&self) -> (r: &[MessageSegment])
        ensures
            segments_view(r@) == (match self@ {
                Message::Text(_) => Seq::empty(),
                Message::Segments(segs) => segs,
            }),
    {
        match self {
            OneBotMessage::Text(_) => {
                let r: &[MessageSegment] = &[];
                assert(segments_view(r@) =~= Seq::<Segment>::empty());
                r
            },
            OneBotMessage::Segments(segs) => segs.as_slice(),
        }
    }
}

impl Default for OneBotMessage {
    fn default() -> (r: OneBotMessage)
        ensures
            r@ == Message::Text(Seq::empty()),
    {
        OneBotMessage::Text(String::new())
    }
}

pub open spec fn message_image_exts() -> Seq<Seq<char>> {
    seq!["jpg"@, "jpeg"@, "png"@, "gif"@, "webp"@, "bmp"@]
}

pub open spec fn message_record_exts() -> Seq<Seq<char>> {
    seq!["mp3"@, "wav"@, "ogg"@, "amr"@, "flac"@, "aac"@]
}

pub open spec fn message_video_exts() -> Seq<Seq<char>> {
    seq!["mp4"@, "mov"@, "avi"@, "mkv"@, "flv"@]
}

/// The segment that carries the media file at `path`, chosen by the lower-case
/// form of its extension (what follows the last '.').
pub open spec fn segment_for_path(path: Seq<char>) -> Segment {
    let ext = lowercase_of(after_last(path, '.'));
    if message_image_exts().contains(ext) {
        Segment::Image {
            file: path,
            url: None,
            summary: None,
            sub_type: None,
            file_size: None,
            cache: None,
            proxy: None,
            timeout: None,
        }
    } else if message_record_exts().contains(ext) {
        Segment::Record {
            file: path,
            url: None,
            file_size: None,
            path: None,
            cache: None,
            proxy: None,
            timeout: None,
        }
    } else if message_video_exts().contains(ext) {
        Segment::Video {
            file: path,
            url: None,
            file_size: None,
            thumb: None,
            cache: None,
            proxy: None,
            timeout: None,
        }
    } else {
        Segment::File {
            file: path,
            file_id: None,
            url: None,
            name: Some(after_last_either(path, '/', '\\')),
            size: None,
            busid: None,
        }
    }
}

/// The segments for media paths, one per path.
pub open spec fn path_segments(paths: Seq<Seq<char>>) -> Seq<Segment> {
    paths.map_values(|p: Seq<char>| segment_for_path(p))
}

/// The message `build_message` makes of a text and media paths.
pub open spec fn built_message(text: Seq<char>, paths: Seq<Seq<char>>) -> Message {
    if paths.len() == 0 {
        Message::Text(text)
    } else {
        Message::Segments(
            (if text.len() == 0 {
                Seq::empty()
            } else {
                seq![Segment::Text { text }]
            }) + path_segments(paths),
        )
    }
}

/// The segment for one media path.
fn segment_for(path: &str) -> (r: MessageSegment)
    ensures
        r@ == segment_for_path(path@),
{
    let last = suffix_after(path, '.');
    let ext = to_lowercase(last.as_str());
    let l: &[&str] = &["jpg", "jpeg", "png", "gif", "webp", "bmp"];
    assert(views(l@) =~= message_image_exts());
    if in_list(ext.as_str(), l) {
        return MessageSegment::image(path);
    }
    let l: &[&str] = &["mp3", "wav", "ogg", "amr", "flac", "aac"];
    assert(views(l@) =~= message_record_exts());
    if in_list(ext.as_str(), l) {
        return MessageSegment::record(path);
    }
    let l: &[&str] = &["mp4", "mov", "avi", "mkv", "flv"];
    assert(views(l@) =~= message_video_exts());
    if in_list(ext.as_str(), l) {
        return MessageSegment::video(path);
    }
    let filename = suffix_after_either(path, '/', '\\');
    MessageSegment::file(path, Some(filename.as_str()))
}

/// A message of a text and media paths: the text alone when there is no
/// media; otherwise a text segment (unless the text is empty) followed by one
/// segment per path, chosen by the path's extension.
pub fn build_message(text: &str, media_paths: &[String]) -> (r: OneBotMessage)
    ensures
        r@ == built_message(text@, media_paths@.map_values(|p: String| p@)),
{
    let ghost paths = media_paths@.map_values(|p: String| p@);
    if media_paths.len() == 0 {
        return OneBotMessage::from_text(text);
    }
    let mut segments: Vec<MessageSegment> = Vec::new();
    let tv = crate::text::chars_of(text);
    if tv.len() != 0 {
        segments.push(MessageSegment::text(text));
    }
    let ghost head = segments_view(segments@);
    let mut i: usize = 0;
    while i < media_paths.len()
        invariant
            i <= media_paths@.len(),
            paths == media_paths@.map_values(|p: String| p@),
            segments_view(segments@) == head + paths.take(i as int).map_values(
                |p: Seq<char>| segment_for_path(p),
            ),
        decreases media_paths.len() - i,
    {
        let seg = segment_for(media_paths[i].as_str());
        let ghost before = segments@;
        segments.push(seg);
        assert(segments_view(segments@) =~= segments_view(before) + seq![seg@]);
        assert(paths.take(i + 1).map_values(|p: Seq<char>| segment_for_path(p)) =~= paths.take(
            i as int,
        ).map_values(|p: Seq<char>| segment_for_path(p)) + seq![segment_for_path(paths[i as int])]);
        i += 1;
    }
    assert(paths.take(media_paths@.len() as int) =~= paths);
    let ghost expected = built_message(text@, paths);
    let r = OneBotMessage::from_segments(segments);
    assert(head =~= (if text@.len() == 0 {
        Seq::<Segment>::empty()
    } else {
        seq![Segment::Text { text: text@ }]
    }));
    r
}

proof fn lemma_media_entries_nonempty(segs: Seq<Segment>)
    ensures
        any_media(segs) <==> media_entries(segs).len() > 0,
    decreases segs.len(),
{
    if segs.len() > 0 {
        let p = segs.drop_last();
        lemma_media_entries_nonempty(p);
        if any_media(p) {
            let i = choose|i: int| 0 <= i < p.len() && is_media_segment(#[trigger] p[i]);
            assert(segs[i] == p[i]);
        }
        if any_media(segs) {
            let i = choose|i: int| 0 <= i < segs.len() && is_media_segment(#[trigger] segs[i]);
            if i < segs.len() - 1 {
                assert(p[i] == segs[i]);
            }
        }
        if is_media_segment(segs.last()) {
            assert(is_media_segment(segs[segs.len() - 1]));
        }
    }
}

/// A message has media exactly when it lists media URLs.
pub proof fn law_has_media_iff_media_urls(m: Message)
    ensures
        message_has_media(m) <==> message_media(m).len() > 0,
{
    if let Message::Segments(segs) = m {
        lemma_media_entries_nonempty(segs);
    }
}

proof fn lemma_unmentioned_bot_text(segs: Seq<Segment>, bot: Seq<char>)
    requires
        !any_at(segs, bot),
    ensures
        joined_text(segs, Some(bot)) == joined_text(segs, None),
    decreases segs.len(),
{
    if segs.len() > 0 {
        let p = segs.drop_last();
        assert(!any_at(p, bot)) by {
            if any_at(p, bot) {
                let i = choose|i: int| 0 <= i < p.len() && is_at_of(#[trigger] p[i], bot);
                assert(segs[i] == p[i]);
            }
        }
        lemma_unmentioned_bot_text(p, bot);
        assert(!is_at_of(segs[segs.len() - 1], bot));
    }
}

/// Leaving out mentions of a bot that the message does not mention changes
/// nothing but the trimming of a segment message's text.
pub proof fn law_text_without_unmentioned_bot(m: Message, bot: Seq<char>)
    requires
        !message_at(m, bot),
    ensures
        message_text_without_at(m, bot) == (match m {
            Message::Text(s) => s,
            Message::Segments(_) => trim(message_text(m)),
        }),
{
    if let Message::Segments(segs) = m {
        lemma_unmentioned_bot_text(segs, bot);
    }
}

proof fn lemma_media_entries_append(a: Seq<Segment>, b: Seq<Segment>)
    ensures
        media_entries(a + b) == media_entries(a) + media_entries(b),
    decreases b.len(),
{
    if b.len() == 0 {
        assert(a + b =~= a);
        assert(media_entries(a) + media_entries(b) =~= media_entries(a));
    } else {
        lemma_media_entries_append(a, b.drop_last());
        assert((a + b).drop_last() =~= a + b.drop_last());
        assert((a + b).last() == b.last());
        assert(media_entries(a) + media_entries(b) =~= media_entries(a) + media_entries(
            b.drop_last(),
        ) + match segment_media(b.last()) {
            Some(e) => seq![e],
            None => Seq::<(Seq<char>, Seq<char>)>::empty(),
        });
    }
}

proof fn lemma_path_segments_media(paths: Seq<Seq<char>>)
    ensures
        media_entries(path_segments(paths)).len() == paths.len(),
        forall|i: int| 0 <= i < paths.len() ==> (#[trigger] media_entries(path_segments(paths))[i]).0 == paths[i],
    decreases paths.len(),
{
    let segs = path_segments(paths);
    if paths.len() > 0 {
        let q = paths.drop_last();
        lemma_path_segments_media(q);
        assert(segs.drop_last() =~= path_segments(q));
        let last = segment_for_path(paths.last());
        assert(segs.last() == last);
        assert(segment_media(last) is Some && segment_media(last).unwrap().0 == paths.last());
    }
}

/// A message built from a text and media paths lists one media URL per
/// path, in order: the path itself.
pub proof fn law_built_message_media(text: Seq<char>, paths: Seq<Seq<char>>)
    ensures
        message_media(built_message(text, paths)).len() == paths.len(),
        forall|i: int| 0 <= i < paths.len() ==> (#[trigger] message_media(built_message(text, paths))[i]).0 == paths[i],
{
    if paths.len() > 0 {
        let head: Seq<Segment> = if text.len() == 0 {
            Seq::empty()
        } else {
            seq![Segment::Text { text }]
        };
        let tail = path_segments(paths);
        lemma_media_entries_append(head, tail);
        lemma_path_segments_media(paths);
        assert(media_entries(head) =~= Seq::<(Seq<char>, Seq<char>)>::empty()) by {
            if text.len() > 0 {
                assert(head.drop_last() =~= Seq::<Segment>::empty());
                assert(media_entries(head.drop_last()) =~= Seq::<(Seq<char>, Seq<char>)>::empty());
                assert(head.last() == (Segment::Text { text }));
                assert(segment_media(head.last()) is None);
            }
        }
        assert(media_entries(head + tail) =~= media_entries(tail));
    }
}

/// The media URL and kind a media segment lists: its URL when it carries
/// one, its file only when it does not; no entry for other segments.
pub proof fn law_segment_media_prefers_url(s: Segment)
    ensures
        s matches Segment::Image { file, url, .. } ==> segment_media(s) == Some(
            (
                match url {
                    Some(u) => u,
                    None => file,
                },
                "image"@,
            ),
        ),
        s matches Segment::Record { file, url, .. } ==> segment_media(s) == Some(
            (
                match url {
                    Some(u) => u,
                    None => file,
                },
                "voice"@,
            ),
        ),
        s matches Segment::Video { file, url, .. } ==> segment_media(s) == Some(
            (
                match url {
                    Some(u) => u,
                    None => file,
                },
                "video"@,
            ),
        ),
        s matches Segment::File { file, url, .. } ==> segment_media(s) == Some(
            (
                match url {
                    Some(u) => u,
                    None => file,
                },
                "file"@,
            ),
        ),
        !(s is Image || s is Record || s is Video || s is File) ==> segment_media(s) is None,
{
}

proof fn lemma_media_entries_contain(segs: Seq<Segment>, i: int)
    requires
        0 <= i < segs.len(),
        segment_media(segs[i]) is Some,
    ensures
        media_entries(segs).contains(segment_media(segs[i])->0),
    decreases segs.len(),
{
    let p = segs.drop_last();
    if i < segs.len() - 1 {
        assert(p[i] == segs[i]);
        lemma_media_entries_contain(p, i);
        let e = segment_media(segs[i])->0;
        let j = choose|j: int| 0 <= j < media_entries(p).len() && media_entries(p)[j] == e;
        assert(media_entries(segs)[j] == e);
    } else {
        let e = segment_media(segs[i])->0;
        assert(media_entries(segs)[media_entries(p).len() as int] == e);
    }
}

/// Every media segment of a message that carries a URL has that URL listed
/// among the message's media, with the segment's kind.
pub proof fn law_media_urls_listed(segs: Seq<Segment>, i: int)
    requires
        0 <= i < segs.len(),
    ensures
        segs[i] matches Segment::Image { url: Some(u), .. } ==> message_media(
            Message::Segments(segs),
        ).contains((u, "image"@)),
        segs[i] matches Segment::Record { url: Some(u), .. } ==> message_media(
            Message::Segments(segs),
        ).contains((u, "voice"@)),
        segs[i] matches Segment::Video { url: Some(u), .. } ==> message_media(
            Message::Segments(segs),
        ).contains((u, "video"@)),
        segs[i] matches Segment::File { url: Some(u), .. } ==> message_media(
            Message::Segments(segs),
        ).contains((u, "file"@)),
{
    if segment_media(segs[i]) is Some {
        lemma_media_entries_contain(segs, i);
    }
}

} // verus!
