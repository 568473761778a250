//! Verified core of the BlockCell NapCatQQ channel, media pipeline, skill
//! dispatch, slash commands and vector-index bookkeeping.
use vstd::prelude::*;

pub mod base64_data;
pub mod channel;
pub mod codec;
pub mod config;
pub mod detector;
pub mod direct_http;
pub mod downloader;
pub mod error;
pub mod event;
pub mod json;
pub mod local_file;
pub mod media;
pub mod media_types;
pub mod message;
pub mod napcat_stream;
pub mod outbound;
pub mod retcode;
pub mod skill_dispatch;
pub mod slash_commands;
pub mod stream_assembly;
pub mod text;
pub mod types;
pub mod vector_index;

verus! {
} // verus!
