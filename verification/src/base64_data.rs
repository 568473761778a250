//! Embedded media data: `base64://<data>` URLs and `data:` URIs (RFC 2397).
use vstd::prelude::*;

use crate::codec::{base64_standard_decode, decode_base64, decode_error_text};
use crate::error::Error;
use crate::media_types::{DownloadStrategy, UrlDetectionResult};
use crate::text::{
    before_first, chars_of, first_pos, has_prefix, lowercase_of, owned, push_str,
    split_on, split_pieces, starts_with, str_eq, string_of_range, to_lowercase, vec_first_pos,
};

verus! {

/// Downloader for embedded Base64 data.
#[derive(Debug, Clone, Copy)]
pub struct Base64DataDownloader;

/// Low byte of a character (`c as u8`).
pub open spec fn low_byte(c: char) -> u8 {
    ((c as u32) % 256) as u8
}

/// Value of a hexadecimal digit.
pub open spec fn hex_value(c: char) -> Option<u8> {
    if '0' <= c && c <= '9' {
        Some(((c as u32) - ('0' as u32)) as u8)
    } else if 'a' <= c && c <= 'f' {
        Some(((c as u32) - ('a' as u32) + 10) as u8)
    } else if 'A' <= c && c <= 'F' {
        Some(((c as u32) - ('A' as u32) + 10) as u8)
    } else {
        None
    }
}

/// The byte two hex digits write; `None` unless both are hex digits.
pub open spec fn hex_pair(a: char, b: char) -> Option<u8> {
    match (hex_value(a), hex_value(b)) {
        (Some(x), Some(y)) => Some((x * 16 + y) as u8),
        _ => None,
    }
}

/// Percent-decoding of `s`: `%XY` with a valid two-character hex code (see
/// `hex_pair`) becomes that byte; any other `%` is kept with the (at most
/// two) characters after it; every kept character contributes its low byte.
pub open spec fn url_decoded(s: Seq<char>) -> Seq<u8>
    decreases s.len(),
{
    if s.len() == 0 {
        Seq::empty()
    } else if s[0] == '%' {
        let n: int = if s.len() >= 3 {
            2
        } else {
            s.len() - 1
        };
        if n == 2 && (s[1] as u32) < 128 && (s[2] as u32) < 128 && hex_pair(s[1], s[2]) is Some {
            seq![hex_pair(s[1], s[2])->0] + url_decoded(s.skip(3))
        } else {
            seq![low_byte('%')] + s.subrange(1, 1 + n).map_values(|c: char| low_byte(c))
                + url_decoded(s.skip(1 + n))
        }
    } else {
        seq![low_byte(s[0])] + url_decoded(s.drop_first())
    }
}

/// The body of a data URI: what follows "data:" (all of it without that prefix).
pub open spec fn data_uri_body(u: Seq<char>) -> Seq<char> {
    if has_prefix(u, "data:"@) {
        u.skip(5)
    } else {
        u
    }
}

/// The metadata of a data URI body: what comes before the first ','.
pub open spec fn data_uri_metadata(b: Seq<char>) -> Seq<char> {
    b.take(first_pos(b, ','))
}

/// The payload of a data URI body: what follows the first ','.
pub open spec fn data_uri_payload(b: Seq<char>) -> Seq<char> {
    b.skip(first_pos(b, ',') + 1)
}

/// The payload of a data URI body is Base64 encoded: one ';' piece of the
/// metadata is "base64".
pub open spec fn data_uri_is_base64(b: Seq<char>) -> bool {
    split_on(data_uri_metadata(b), ';').contains("base64"@)
}

/// Bytes and media type that a data URL decodes to; `None` when it does not
/// decode (no comma in a data URI, invalid Base64, not a data URL).
pub open spec fn data_url_decoded(u: Seq<char>) -> Option<(Seq<u8>, Option<Seq<char>>)> {
    if has_prefix(u, "data:"@) {
        let b = data_uri_body(u);
        if first_pos(b, ',') >= b.len() {
            None
        } else {
            let media = Some(before_first(data_uri_metadata(b), ';'));
            if data_uri_is_base64(b) {
                match base64_standard_decode(data_uri_payload(b)) {
                    Some(bytes) => Some((bytes, media)),
                    None => None,
                }
            } else {
                Some((url_decoded(data_uri_payload(b)), media))
            }
        }
    } else if has_prefix(u, "base64://"@) {
        match base64_standard_decode(u.skip(9)) {
            Some(bytes) => Some((bytes, None)),
            None => None,
        }
    } else {
        None
    }
}

/// The file extension for a lower-case MIME type.
pub open spec fn extension_for_mime(m: Seq<char>) -> Option<Seq<char>> {
    if m == "image/png"@ {
        Some("png"@)
    } else if m == "image/jpeg"@ || m == "image/jpg"@ {
        Some("jpg"@)
    } else if m == "image/gif"@ {
        Some("gif"@)
    } else if m == "image/webp"@ {
        Some("webp"@)
    } else if m == "image/svg+xml"@ {
        Some("svg"@)
    } else if m == "audio/mpeg"@ || m == "audio/mp3"@ {
        Some("mp3"@)
    } else if m == "audio/wav"@ || m == "audio/wave"@ {
        Some("wav"@)
    } else if m == "audio/ogg"@ {
        Some("ogg"@)
    } else if m == "audio/aac"@ {
        Some("aac"@)
    } else if m == "video/mp4"@ {
        Some("mp4"@)
    } else if m == "video/webm"@ {
        Some("webm"@)
    } else if m == "video/quicktime"@ {
        Some("mov"@)
    } else {
        None
    }
}

/// The extension suggested for an optional MIME type, ignoring case.
pub open spec fn suggested_extension(mime: Option<Seq<char>>) -> Option<Seq<char>> {
    match mime {
        Some(m) => extension_for_mime(lowercase_of(m)),
        None => None,
    }
}

/// The name a decoded file is saved under: the requested name when it is
/// not empty, else `media_<timestamp>.<ext>` with the extension suggested by
/// the MIME type ("bin" when there is none).
pub open spec fn embedded_file_name(
    requested: Option<Seq<char>>,
    mime: Option<Seq<char>>,
    timestamp: Seq<char>,
) -> Seq<char> {
    match requested {
        Some(n) if n.len() > 0 => n,
        _ => "media_"@ + timestamp + "."@ + match suggested_extension(mime) {
            Some(e) => e,
            None => "bin"@,
        },
    }
}

fn hex_digit(c: char) -> (r: Option<u8>)
    ensures
        r == hex_value(c),
{
    let u = c as u32;
    if '0' <= c && c <= '9' {
        Some((u - ('0' as u32)) as u8)
    } else if 'a' <= c && c <= 'f' {
        Some((u - ('a' as u32) + 10) as u8)
    } else if 'A' <= c && c <= 'F' {
        Some((u - ('A' as u32) + 10) as u8)
    } else {
        None
    }
}

fn byte_of(c: char) -> (r: u8)
    ensures
        r == low_byte(c),
{
    ((c as u32) % 256) as u8
}

impl Base64DataDownloader {
    /// A Base64 data downloader.
    pub fn new() -> (r: Base64DataDownloader) {
        Base64DataDownloader
    }

    /// Decode a `data:` URI or a `base64://` URL into its bytes and, for a
    /// data URI, its media type.
    pub fn decode_data_url(url: &str) -> (r: Result<(Vec<u8>, Option<String>), Error>)
        ensures
            r is Ok <==> data_url_decoded(url@) is Some,
            r matches Ok(p) ==> data_url_decoded(url@) == Some((p.0@, crate::json::opt_str(p.1))),
            r matches Err(e) ==> e is Channel,
            !has_prefix(url@, "data:"@) && !has_prefix(url@, "base64://"@) ==> (r matches Err(
                Error::Channel(m),
            ) && m@ == "Not a base64 data URL: "@ + url@),
            has_prefix(url@, "data:"@) && first_pos(data_uri_body(url@), ',') >= data_uri_body(
                url@,
            ).len() ==> (r matches Err(Error::Channel(m)) && m@ == "Invalid data URI: missing comma"@),
            (has_prefix(url@, "base64://"@) || (has_prefix(url@, "data:"@) && first_pos(
                data_uri_body(url@),
                ',',
            ) < data_uri_body(url@).len())) && r is Err ==> (r matches Err(Error::Channel(m))
                && has_prefix(m@, "Base64 decode failed: "@)),
    {
        proof {
            reveal_strlit("base64://");
            reveal_strlit("data:");
        }
        if starts_with(url, "data:") {
            assert(!has_prefix(url@, "base64://"@)) by {
                assert(url@.subrange(0, 5)[0] == 'd');
                if has_prefix(url@, "base64://"@) {
                    assert(url@.subrange(0, 9)[0] == 'b');
                }
            }
            return Self::decode_data_uri(url);
        }
        if starts_with(url, "base64://") {
            let v = chars_of(url);
            let data = string_of_range(&v, 9, v.len());
            assert(data@ =~= url@.skip(9));
            return match decode_base64(data.as_str()) {
                Ok(bytes) => Ok((bytes, None)),
                Err(e) => {
                    let mut m = owned("Base64 decode failed: ");
                    let ghost p = m@;
                    let t = decode_error_text(&e);
                    push_str(&mut m, t.as_str());
                    assert(m@.subrange(0, p.len() as int) =~= p);
                    Err(Error::Channel(m))
                },
            };
        }
        let mut m = owned("Not a base64 data URL: ");
        push_str(&mut m, url);
        Err(Error::Channel(m))
    }

    /// Decode a data URI (`data:[<mediatype>][;base64],<data>`).
    pub fn decode_data_uri(url: &str) -> (r: Result<(Vec<u8>, Option<String>), Error>)
        requires
            has_prefix(url@, "data:"@),
        ensures
            r is Ok <==> data_url_decoded(url@) is Some,
            r matches Ok(p) ==> data_url_decoded(url@) == Some((p.0@, crate::json::opt_str(p.1))),
            r matches Err(e) ==> e is Channel,
            first_pos(data_uri_body(url@), ',') >= data_uri_body(url@).len() ==> (r matches Err(
                Error::Channel(m),
            ) && m@ == "Invalid data URI: missing comma"@),
            first_pos(data_uri_body(url@), ',') < data_uri_body(url@).len() && r is Err ==> (
            r matches Err(Error::Channel(m)) && has_prefix(m@, "Base64 decode failed: "@)),
    {
        proof {
            reveal_strlit("data:");
        }
        let uv = chars_of(url);
        let body = string_of_range(&uv, 5, uv.len());
        assert(body@ =~= data_uri_body(url@));
        let bv = chars_of(body.as_str());
        let comma = vec_first_pos(&bv, ',');
        proof {
            crate::text::lemma_first_pos(bv@, ',');
        }
        if comma >= bv.len() {
            return Err(Error::Channel(owned("Invalid data URI: missing comma")));
        }
        let metadata = string_of_range(&bv, 0, comma);
        let data = string_of_range(&bv, comma + 1, bv.len());
        assert(metadata@ =~= data_uri_metadata(body@));
        assert(data@ =~= data_uri_payload(body@));
        let parts = split_pieces(metadata.as_str(), ';');
        proof {
            crate::text::lemma_split_on_first(metadata@, ';');
            assert(parts@[0]@ == parts@.map_values(|p: String| p@)[0]);
        }
        let media_type = Some(parts[0].clone());
        let mut is_base64 = false;
        let mut i: usize = 0;
        while i < parts.len()
            invariant
                i <= parts@.len(),
                parts@.map_values(|p: String| p@) == split_on(metadata@, ';'),
                is_base64 == (exists|j: int| 0 <= j < i && parts@[j]@ == "base64"@),
            decreases parts.len() - i,
        {
            if str_eq(parts[i].as_str(), "base64") {
                is_base64 = true;
            }
            i += 1;
        }
        proof {
            let pv = parts@.map_values(|p: String| p@);
            if is_base64 {
                let j = choose|j: int| 0 <= j < parts@.len() && parts@[j]@ == "base64"@;
                assert(pv[j] == "base64"@);
            } else {
                assert forall|j: int| 0 <= j < pv.len() implies pv[j] != "base64"@ by {
                    assert(pv[j] == parts@[j]@);
                }
            }
        }
        if is_base64 {
            match decode_base64(data.as_str()) {
                Ok(bytes) => Ok((bytes, media_type)),
                Err(e) => {
                    let mut m = owned("Base64 decode failed: ");
                    let ghost p = m@;
                    let t = decode_error_text(&e);
                    push_str(&mut m, t.as_str());
                    assert(m@.subrange(0, p.len() as int) =~= p);
                    Err(Error::Channel(m))
                },
            }
        } else {
            let bytes = Self::simple_url_decode(data.as_str());
            Ok((bytes, media_type))
        }
    }

    /// Percent-decoding of the payload of a data URI that is not Base64.
    pub fn simple_url_decode(s: &str) -> (r: Vec<u8>)
        ensures
            r@ == url_decoded(s@),
    {
        let v = chars_of(s);
        let mut out: Vec<u8> = Vec::new();
        let mut i: usize = 0;
        assert(v@.skip(0) =~= v@);
        assert(out@ + url_decoded(v@) =~= url_decoded(v@));
        while i < v.len()
            invariant
                i <= v.len(),
                v@ == s@,
                out@ + url_decoded(v@.skip(i as int)) == url_decoded(v@),
            decreases v.len() - i,
        {
            let ghost rest = v@.skip(i as int);
            let ghost before = out@;
            let c = v[i];
            if c == '%' {
                let n: usize = if v.len() - i >= 3 {
                    2
                } else {
                    v.len() - i - 1
                };
                let mut decoded = false;
                if n == 2 && (v[i + 1] as u32) < 128 && (v[i + 2] as u32) < 128 {
                    let a = v[i + 1];
                    let b = v[i + 2];
                    let byte = match (hex_digit(a), hex_digit(b)) {
                        (Some(x), Some(y)) => Some(x * 16 + y),
                        _ => None,
                    };
                    assert(rest[1] == a && rest[2] == b);
                    assert(byte == hex_pair(a, b));
                    if let Some(bt) = byte {
                        out.push(bt);
                        assert(rest.skip(3) =~= v@.skip(i + 3));
                        assert(out@ + url_decoded(v@.skip(i + 3)) =~= before + url_decoded(rest));
                        i = i + 3;
                        decoded = true;
                    }
                }
                if !decoded {
                    out.push(byte_of('%'));
                    let mut k: usize = 0;
                    while k < n
                        invariant
                            k <= n,
                            i + 1 + n <= v.len(),
                            out@ == before + seq![low_byte('%')] + v@.subrange(
                                i + 1,
                                i + 1 + k,
                            ).map_values(|c: char| low_byte(c)),
                        decreases n - k,
                    {
                        out.push(byte_of(v[i + 1 + k]));
                        assert(v@.subrange(i + 1, i + 1 + k + 1).map_values(|c: char| low_byte(c))
                            =~= v@.subrange(i + 1, i + 1 + k).map_values(|c: char| low_byte(c))
                            .push(low_byte(v@[i + 1 + k])));
                        k += 1;
                    }
                    assert(rest.subrange(1, 1 + n as int) =~= v@.subrange(i + 1, i + 1 + n));
                    assert(rest.skip(1 + n as int) =~= v@.skip(i + 1 + n));
                    assert(out@ + url_decoded(v@.skip(i + 1 + n)) =~= before + url_decoded(
                        rest,
                    ));
                    i = i + 1 + n;
                }
            } else {
                out.push(byte_of(c));
                assert(rest.drop_first() =~= v@.skip(i + 1));
                assert(out@ + url_decoded(v@.skip(i + 1)) =~= before + url_decoded(rest));
                i = i + 1;
            }
        }
        assert(v@.skip(i as int) =~= Seq::<char>::empty());
        out
    }

    /// The file extension for a MIME type, ignoring case.
    pub fn suggest_extension(mime_type: Option<&str>) -> (r: Option<&'static str>)
        ensures
            crate::json::opt_slice(r) == suggested_extension(crate::json::opt_slice(mime_type)),
    {
        match mime_type {
            Some(mime) => {
                let m = to_lowercase(mime);
                Self::extension_for_lowercase_mime(m.as_str())
            },
            None => None,
        }
    }

    /// The file extension for an already lower-cased MIME type.
    pub fn extension_for_lowercase_mime(m: &str) -> (r: Option<&'static str>)
        ensures
            crate::json::opt_slice(r) == extension_for_mime(m@),
    {
        if str_eq(m, "image/png") {
            Some("png")
        } else if str_eq(m, "image/jpeg") || str_eq(m, "image/jpg") {
            Some("jpg")
        } else if str_eq(m, "image/gif") {
            Some("gif")
        } else if str_eq(m, "image/webp") {
            Some("webp")
        } else if str_eq(m, "image/svg+xml") {
            Some("svg")
        } else if str_eq(m, "audio/mpeg") || str_eq(m, "audio/mp3") {
            Some("mp3")
        } else if str_eq(m, "audio/wav") || str_eq(m, "audio/wave") {
            Some("wav")
        } else if str_eq(m, "audio/ogg") {
            Some("ogg")
        } else if str_eq(m, "audio/aac") {
            Some("aac")
        } else if str_eq(m, "video/mp4") {
            Some("mp4")
        } else if str_eq(m, "video/webm") {
            Some("webm")
        } else if str_eq(m, "video/quicktime") {
            Some("mov")
        } else {
            None
        }
    }

    /// This downloader handles the URL: the strategy is Base64 decoding and
    /// the URL is a `base64://` URL or a `data:` URI.
    pub fn can_handle(&self, url: &str, detection: &UrlDetectionResult) -> (r: bool)
        ensures
            r == (detection.strategy == DownloadStrategy::DecodeBase64 && (has_prefix(
                url@,
                "base64://"@,
            ) || has_prefix(url@, "data:"@))),
    {
        detection.strategy == DownloadStrategy::DecodeBase64 && (starts_with(url, "base64://")
            || starts_with(url, "data:"))
    }

    /// Name of this downloader.
    pub fn name(&self) -> (r: &'static str)
        ensures
            r@ == "base64_data"@,
    {
        "base64_data"
    }

    /// The name the decoded data is saved under: the requested name when it
    /// is not empty, else `media_<timestamp>.<ext>` (see `embedded_file_name`).
    pub fn file_name_for(requested: &Option<String>, mime: &Option<String>, timestamp: &str) -> (r:
        String)
        ensures
            r@ == embedded_file_name(
                crate::json::opt_str(*requested),
                crate::json::opt_str(*mime),
                timestamp@,
            ),
    {
        if let Some(n) = requested {
            if n.as_str().unicode_len() > 0 {
                return n.clone();
            }
        }
        let ext = match mime {
            Some(m) => Self::suggest_extension(Some(m.as_str())),
            None => None,
        };
        let ext = match ext {
            Some(e) => e,
            None => "bin",
        };
        let mut r = owned("media_");
        push_str(&mut r, timestamp);
        push_str(&mut r, ".");
        push_str(&mut r, ext);
        r
    }
}

impl Default for Base64DataDownloader {
    fn default() -> (r: Base64DataDownloader) {
        Base64DataDownloader
    }
}

/// Percent-decoding leaves text without '%' as it is: each character
/// becomes its low byte.
pub proof fn law_url_decoding_keeps_plain_text(s: Seq<char>)
    requires
        !s.contains('%'),
    ensures
        url_decoded(s) == s.map_values(|c: char| low_byte(c)),
    decreases s.len(),
{
    if s.len() > 0 {
        assert(s[0] != '%') by {
            assert(s.contains(s[0]));
        }
        let t = s.drop_first();
        assert(!t.contains('%')) by {
            if t.contains('%') {
                let i = choose|i: int| 0 <= i < t.len() && t[i] == '%';
                assert(s[i + 1] == '%');
            }
        }
        law_url_decoding_keeps_plain_text(t);
        assert(url_decoded(s) =~= s.map_values(|c: char| low_byte(c)));
    }
}

/// `p` stands in `m` at position `i` as a whole ';'-separated piece.
pub open spec fn piece_at(m: Seq<char>, p: Seq<char>, i: int) -> bool {
    &&& 0 <= i
    &&& i + p.len() <= m.len()
    &&& m.subrange(i, i + p.len()) == p
    &&& (i == 0 || m[i - 1] == ';')
    &&& (i + p.len() == m.len() || m[i + p.len()] == ';')
}

proof fn lemma_piece_in_split(m: Seq<char>, p: Seq<char>, i: int)
    requires
        piece_at(m, p, i),
        !p.contains(';'),
    ensures
        split_on(m, ';').contains(p),
    decreases m.len(),
{
    crate::text::lemma_first_pos(m, ';');
    let f = first_pos(m, ';');
    assert forall|j: int| i <= j < i + p.len() implies #[trigger] m[j] != ';' by {
        assert(m.subrange(i, i + p.len())[j - i] == p[j - i]);
        if m[j] == ';' {
            assert(p.contains(';'));
        }
    }
    if f >= m.len() {
        if i > 0 {
            assert(m[i - 1] != ';');
        }
        if i + p.len() < m.len() {
            assert(m[i + p.len()] != ';');
        }
        assert(m =~= p);
        assert(split_on(m, ';')[0] == m);
    } else if i == 0 {
        assert(f == p.len()) by {
            if f < p.len() {
                assert(m[f] != ';');
            }
            if f > p.len() {
                assert(p.len() < m.len());
                assert(m[p.len() as int] != ';');
            }
        }
        assert(m.take(f) =~= p);
        assert(split_on(m, ';')[0] == m.take(f));
    } else {
        assert(f <= i - 1) by {
            if f > i - 1 {
                assert(m[i - 1] != ';');
            }
        }
        let m2 = m.skip(f + 1);
        let i2 = i - f - 1;
        assert(m2.subrange(i2, i2 + p.len()) =~= m.subrange(i, i + p.len()));
        if i2 > 0 {
            assert(m2[i2 - 1] == m[i - 1]);
        }
        if i2 + p.len() < m2.len() {
            assert(m2[i2 + p.len()] == m[i + p.len()]);
        }
        lemma_piece_in_split(m2, p, i2);
        let k = choose|k: int| 0 <= k < split_on(m2, ';').len() && split_on(m2, ';')[k] == p;
        assert(split_on(m, ';') == seq![m.take(f)] + split_on(m2, ';'));
        assert(split_on(m, ';')[k + 1] == p);
    }
}

/// A data URI whose metadata (between "data:" and the first ',') has
/// "base64" as one of its ';'-separated pieces, in any position, is Base64:
/// it decodes to the standard Base64 decoding of the text after that ','
/// (nothing when that text is not valid Base64), with the metadata's first
/// piece as its media type.
pub proof fn law_base64_piece_decodes(u: Seq<char>, i: int)
    requires
        has_prefix(u, "data:"@),
        first_pos(u.skip(5), ',') < u.skip(5).len(),
        piece_at(u.skip(5).take(first_pos(u.skip(5), ',')), "base64"@, i),
    ensures
        data_url_decoded(u) == match base64_standard_decode(
            u.skip(5).skip(first_pos(u.skip(5), ',') + 1),
        ) {
            Some(bytes) => Some(
                (bytes, Some(before_first(u.skip(5).take(first_pos(u.skip(5), ',')), ';'))),
            ),
            None => None,
        },
{
    reveal_strlit("base64");
    let b = u.skip(5);
    assert(b == data_uri_body(u));
    let m = data_uri_metadata(b);
    assert(!"base64"@.contains(';')) by {
        if "base64"@.contains(';') {
            let j = choose|j: int| 0 <= j < 6 && "base64"@[j] == ';';
        }
    }
    lemma_piece_in_split(m, "base64"@, i);
    assert(data_uri_is_base64(b));
}

} // verus!
