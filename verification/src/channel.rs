//! The NapCatQQ channel: which connection mode it starts in.
use vstd::prelude::*;

use crate::config::NapCatConfig;
use crate::text::str_eq;

verus! {

/// How the channel starts.
#[derive(Debug, Clone, Copy, PartialEq, Eq, Structural)]
pub enum ChannelStart {
    /// The channel is disabled: nothing runs.
    Disabled,
    /// Client mode lacks the server URL: nothing runs. `unknown_mode` says
    /// client mode was chosen for an unknown mode.
    MissingWsUrl { unknown_mode: bool },
    /// Connect to NapCatQQ as a WebSocket client.
    RunClient { unknown_mode: bool },
    /// Accept NapCatQQ's connections as a WebSocket server.
    RunServer,
}

/// The mode names a client ("ws-client" or the older "client").
pub open spec fn client_mode(m: Seq<char>) -> bool {
    m == "ws-client"@ || m == "client"@
}

/// The mode names a server ("ws-server" or the older "server").
pub open spec fn server_mode(m: Seq<char>) -> bool {
    m == "ws-server"@ || m == "server"@
}

/// How a channel with these settings starts: not at all when disabled; as
/// a server in server mode; else as a client (an unknown mode falls back to
/// client mode), which needs a server URL.
pub open spec fn channel_start(c: NapCatConfig) -> ChannelStart {
    if !c.enabled {
        ChannelStart::Disabled
    } else if server_mode(c.mode@) {
        ChannelStart::RunServer
    } else {
        let unknown = !client_mode(c.mode@);
        if c.ws_url@.len() == 0 {
            ChannelStart::MissingWsUrl { unknown_mode: unknown }
        } else {
            ChannelStart::RunClient { unknown_mode: unknown }
        }
    }
}

/// The NapCatQQ channel with its settings.
#[derive(Debug)]
pub struct NapCatChannel {
    pub config: NapCatConfig,
}

impl NapCatChannel {
    /// A channel with these settings.
    pub fn new(config: NapCatConfig) -> (r: NapCatChannel)
        ensures
            r.config == config,
    {
        NapCatChannel { config }
    }

    /// The configured connection mode.
    pub fn get_mode(&self) -> (r: String)
        ensures
            r == self.config.mode,
    {
        self.config.mode.clone()
    }

    /// How the channel starts (see `channel_start`).
    pub fn start_plan(&self) -> (r: ChannelStart)
        ensures
            r == channel_start(self.config),
    {
        if !self.config.enabled {
            return ChannelStart::Disabled;
        }
        proof {
            reveal_strlit("ws-client");
            reveal_strlit("client");
            reveal_strlit("ws-server");
            reveal_strlit("server");
        }
        let mode = self.config.mode.as_str();
        let client = str_eq(mode, "ws-client") || str_eq(mode, "client");
        let server = str_eq(mode, "ws-server") || str_eq(mode, "server");
        if server {
            return ChannelStart::RunServer;
        }
        let unknown_mode = !client;
        if self.config.ws_url.as_str().unicode_len() == 0 {
            ChannelStart::MissingWsUrl { unknown_mode }
        } else {
            ChannelStart::RunClient { unknown_mode }
        }
    }
}

} // verus!
