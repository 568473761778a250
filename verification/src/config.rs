//! Settings of the NapCatQQ channel that the channel's logic reads.
use vstd::prelude::*;

use crate::text::owned;

verus! {

/// NapCatQQ channel settings.
#[derive(Debug, Clone)]
pub struct NapCatConfig {
    /// Whether the channel runs at all.
    pub enabled: bool,
    /// Connection mode: "ws-client" (or "client") or "ws-server" (or "server").
    pub mode: String,
    /// WebSocket URL of the NapCatQQ server (ws-client mode).
    pub ws_url: String,
    /// Host the WebSocket server binds to (ws-server mode).
    pub server_host: String,
    /// Port the WebSocket server binds to (ws-server mode).
    pub server_port: u16,
    /// Access token shared with NapCatQQ.
    pub access_token: String,
    /// Whether media in incoming messages are downloaded automatically.
    pub auto_download_media: bool,
    /// Largest media size, in bytes, that is downloaded automatically.
    pub max_auto_download_size: u64,
    /// Directory, below the workspace, that receives downloads.
    pub media_download_dir: String,
}

impl Default for NapCatConfig {
    fn default() -> (r: NapCatConfig)
        ensures
            !r.enabled,
            r.mode@ == "ws-client"@,
            r.ws_url@ == Seq::<char>::empty(),
            r.server_host@ == "0.0.0.0"@,
            r.server_port == 8080,
            r.access_token@ == Seq::<char>::empty(),
            !r.auto_download_media,
            r.max_auto_download_size == 10485760,
            r.media_download_dir@ == "downloads"@,
    {
        NapCatConfig {
            enabled: false,
            mode: owned("ws-client"),
            ws_url: String::new(),
            server_host: owned("0.0.0.0"),
            server_port: 8080,
            access_token: String::new(),
            auto_download_media: false,
            max_auto_download_size: 10485760,
            media_download_dir: owned("downloads"),
        }
    }
}

impl NapCatConfig {
    /// A copy of these settings.
    pub fn copied(&self) -> (r: NapCatConfig)
        ensures
            r == *self,
    {
        NapCatConfig {
            enabled: self.enabled,
            mode: self.mode.clone(),
            ws_url: self.ws_url.clone(),
            server_host: self.server_host.clone(),
            server_port: self.server_port,
            access_token: self.access_token.clone(),
            auto_download_media: self.auto_download_media,
            max_auto_download_size: self.max_auto_download_size,
            media_download_dir: self.media_download_dir.clone(),
        }
    }
}

} // verus!
