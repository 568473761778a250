//! Local files named by `file://` URLs, and where downloads are placed in the
//! workspace.
use vstd::prelude::*;

use crate::error::Error;
use crate::media_types::{DownloadStrategy, UrlDetectionResult};
use crate::text::{
    chars_of, has_prefix, owned, push_str, starts_with, strip_prefix, string_of_range,
};

verus! {

/// Downloader (copier) for local files.
#[derive(Debug, Clone, Copy)]
pub struct LocalFileDownloader;

/// The path a file URL names: `file:///p` and `file://p` name `/p`,
/// `file:p` names `p`; `None` for other URLs.
pub open spec fn file_url_path(u: Seq<char>) -> Option<Seq<char>> {
    if has_prefix(u, "file:///"@) {
        Some(seq!['/'] + u.skip(8))
    } else if has_prefix(u, "file://"@) {
        Some(seq!['/'] + u.skip(7))
    } else if has_prefix(u, "file:"@) {
        Some(u.skip(5))
    } else {
        None
    }
}

/// A chat id without its "user:" or "group:" prefix.
pub open spec fn chat_id_number(c: Seq<char>) -> Seq<char> {
    if has_prefix(c, "user:"@) {
        c.skip(5)
    } else if has_prefix(c, "group:"@) {
        c.skip(6)
    } else {
        c
    }
}

/// Workspace path with a leading '~' replaced by the home directory (when
/// it is known).
pub open spec fn expanded_workspace(w: Seq<char>, home: Option<Seq<char>>) -> Seq<char> {
    if w.len() > 0 && w[0] == '~' && home is Some {
        home->0 + w.skip(1)
    } else {
        w
    }
}

/// The path part of a (possibly `file://`) local path: without its first six
/// characters when it starts with "file://".
pub open spec fn local_path_of(p: Seq<char>) -> Seq<char> {
    if has_prefix(p, "file://"@) {
        p.skip(6)
    } else {
        p
    }
}

impl LocalFileDownloader {
    /// A local file downloader.
    pub fn new() -> (r: LocalFileDownloader) {
        LocalFileDownloader
    }

    /// The file path a `file:` URL names.
    pub fn extract_path(url: &str) -> (r: Result<String, Error>)
        ensures
            r is Ok <==> file_url_path(url@) is Some,
            r matches Ok(p) ==> Some(p@) == file_url_path(url@),
            r matches Err(e) ==> (e matches Error::Channel(m) && m@ == "Not a file URL: "@ + url@),
    {
        proof {
            reveal_strlit("file:///");
            reveal_strlit("file://");
            reveal_strlit("file:");
        }
        if let Some(path) = strip_prefix(url, "file:///") {
            let mut r = owned("/");
            push_str(&mut r, path.as_str());
            proof {
                reveal_strlit("/");
            }
            Ok(r)
        } else if let Some(path) = strip_prefix(url, "file://") {
            let mut r = owned("/");
            push_str(&mut r, path.as_str());
            proof {
                reveal_strlit("/");
            }
            Ok(r)
        } else if let Some(path) = strip_prefix(url, "file:") {
            Ok(path)
        } else {
            let mut m = owned("Not a file URL: ");
            push_str(&mut m, url);
            Err(Error::Channel(m))
        }
    }

    /// This downloader handles the URL: the strategy is reading a local file
    /// and the URL starts with "file://" or "file:".
    pub fn can_handle(&self, url: &str, detection: &UrlDetectionResult) -> (r: bool)
        ensures
            r == (detection.strategy == DownloadStrategy::ReadLocalFile && (has_prefix(
                url@,
                "file://"@,
            ) || has_prefix(url@, "file:"@))),
    {
        detection.strategy == DownloadStrategy::ReadLocalFile && (starts_with(url, "file://")
            || starts_with(url, "file:"))
    }

    /// Name of this downloader.
    pub fn name(&self) -> (r: &'static str)
        ensures
            r@ == "local_file"@,
    {
        "local_file"
    }

    /// The directory (below the download directory) a copied file goes to:
    /// `<date>_<chat id without user:/group:>`.
    pub fn destination_dir_name(date: &str, chat_id: &str) -> (r: String)
        ensures
            r@ == date@ + "_"@ + chat_id_number(chat_id@),
    {
        let id = chat_id_number_of(chat_id);
        let mut r = owned(date);
        push_str(&mut r, "_");
        push_str(&mut r, id.as_str());
        r
    }

    /// The name a copied file gets: the requested name when it is not empty,
    /// else the source's own file name, else "file".
    pub fn file_name_for(requested: &Option<String>, source_name: Option<&str>) -> (r: String)
        ensures
            r@ == (match crate::json::opt_str(*requested) {
                Some(n) if n.len() > 0 => n,
                _ => match source_name {
                    Some(s) => s@,
                    None => "file"@,
                },
            }),
    {
        if let Some(n) = requested {
            if n.as_str().unicode_len() > 0 {
                return n.clone();
            }
        }
        match source_name {
            Some(s) => owned(s),
            None => owned("file"),
        }
    }
}

impl Default for LocalFileDownloader {
    fn default() -> (r: LocalFileDownloader) {
        LocalFileDownloader
    }
}

/// A chat id without its "user:" or "group:" prefix.
pub fn chat_id_number_of(chat_id: &str) -> (r: String)
    ensures
        r@ == chat_id_number(chat_id@),
{
    proof {
        reveal_strlit("user:");
        reveal_strlit("group:");
    }
    if let Some(id) = strip_prefix(chat_id, "user:") {
        id
    } else if let Some(id) = strip_prefix(chat_id, "group:") {
        id
    } else {
        owned(chat_id)
    }
}

/// Replace a leading '~' of the workspace path by the home directory, when
/// the home directory is known.
pub fn expand_workspace_path(workspace: &str, home: Option<&str>) -> (r: String)
    ensures
        r@ == expanded_workspace(workspace@, crate::json::opt_slice(home)),
{
    let v = chars_of(workspace);
    if v.len() > 0 && v[0] == '~' {
        if let Some(h) = home {
            let mut r = owned(h);
            let rest = string_of_range(&v, 1, v.len());
            push_str(&mut r, rest.as_str());
            assert(rest@ =~= workspace@.skip(1));
            return r;
        }
    }
    owned(workspace)
}

/// The file-system path of a local path or `file://` URL: a `file://` URL
/// loses its first six characters, keeping one '/' of the scheme.
pub fn local_file_path(path: &str) -> (r: String)
    ensures
        r@ == local_path_of(path@),
{
    proof {
        reveal_strlit("file://");
    }
    if starts_with(path, "file://") {
        let v = chars_of(path);
        string_of_range(&v, 6, v.len())
    } else {
        owned(path)
    }
}

} // verus!
