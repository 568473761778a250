//! OneBot 11 events received from NapCatQQ: message, notice, request and
//! meta events, and what the channel asks of a message event.
use vstd::prelude::*;

use crate::json::JsonValue;
use crate::message::{
    message_at, message_at_all, message_has_media, message_media, message_text,
    message_text_without_at, pairs_view, OneBotMessage,
};
use crate::text::{int_text, int_to_text, str_eq};

verus! {

/// A OneBot event of any kind.
#[derive(Debug)]
pub struct OneBotEvent {
    /// Event timestamp (Unix seconds).
    pub time: i64,
    /// Bot QQ number.
    pub self_id: i64,
    /// Event type.
    pub post_type: String,
    /// The event's other fields.
    pub data: JsonValue,
}

/// A message received by the bot.
#[derive(Debug)]
pub struct MessageEvent {
    /// Event timestamp (Unix seconds).
    pub time: i64,
    /// Bot QQ number.
    pub self_id: i64,
    /// Event type.
    pub post_type: String,
    /// Message type: "private" or "group".
    pub message_type: String,
    /// Sub type.
    pub sub_type: String,
    /// Sender QQ number.
    pub user_id: String,
    /// Target QQ number (private messages).
    pub target_id: Option<String>,
    /// Group number (group messages).
    pub group_id: Option<String>,
    /// Message identifier.
    pub message_id: i64,
    /// Message sequence number.
    pub message_seq: i64,
    /// Real message identifier.
    pub real_id: i64,
    /// Message content.
    pub message: OneBotMessage,
    /// Raw message text.
    pub raw_message: String,
    /// Font (usually 0).
    pub font: i32,
    /// Sender information.
    pub sender: OneBotSender,
}

impl MessageEvent {
    /// The message's plain text.
    pub fn get_text(&self) -> (r: String)
        ensures
            r@ == message_text(self.message@),
    {
        self.message.to_plain_text()
    }

    /// The message's plain text without mentions of the bot (its QQ number
    /// in decimal).
    pub fn get_text_without_at(&self) -> (r: String)
        ensures
            r@ == message_text_without_at(self.message@, int_text(self.self_id as int)),
    {
        let me = int_to_text(self.self_id as i128);
        self.message.to_plain_text_without_at(me.as_str())
    }

    /// A group message.
    pub fn is_group(&self) -> (r: bool)
        ensures
            r == (self.message_type@ == "group"@),
    {
        str_eq(self.message_type.as_str(), "group")
    }

    /// A private message.
    pub fn is_private(&self) -> (r: bool)
        ensures
            r == (self.message_type@ == "private"@),
    {
        str_eq(self.message_type.as_str(), "private")
    }

    /// The (url, media type) pairs of the message's media.
    pub fn get_media_urls(&self) -> (r: Vec<(String, String)>)
        ensures
            pairs_view(r@) == message_media(self.message@),
    {
        self.message.get_media_urls()
    }

    /// The message carries media.
    pub fn has_media(&self) -> (r: bool)
        ensures
            r == message_has_media(self.message@),
    {
        self.message.has_media()
    }

    /// The message mentions the bot.
    pub fn is_at_me(&self) -> (r: bool)
        ensures
            r == message_at(self.message@, int_text(self.self_id as int)),
    {
        let me = int_to_text(self.self_id as i128);
        self.message.is_at_me(me.as_str())
    }

    /// The message mentions everyone.
    pub fn is_at_all(&self) -> (r: bool)
        ensures
            r == message_at_all(self.message@),
    {
        self.message.is_at_all()
    }
}

/// The sender of a message.
#[derive(Debug)]
pub struct OneBotSender {
    /// Sender QQ number.
    pub user_id: String,
    /// Nickname.
    pub nickname: String,
    /// Group card (display name in the group).
    pub card: Option<String>,
    /// Gender: "male", "female", "unknown".
    pub sex: Option<String>,
    /// Age.
    pub age: Option<i32>,
    /// Level.
    pub level: Option<String>,
    /// Group role: "owner", "admin", "member".
    pub role: Option<String>,
    /// Special title in the group.
    pub title: Option<String>,
}

/// A private message event.
#[derive(Debug)]
pub struct PrivateMessageEvent {
    /// The message event.
    pub base: MessageEvent,
    /// Sub type: "friend", "group", "other".
    pub sub_type: String,
    /// Group of a temporary session.
    pub temp_source: Option<String>,
}

/// A group message event.
#[derive(Debug)]
pub struct GroupMessageEvent {
    /// The message event.
    pub base: MessageEvent,
    /// Group number.
    pub group_id: String,
    /// Group name.
    pub group_name: Option<String>,
    /// Anonymous sender, when anonymous.
    pub anonymous: Option<AnonymousInfo>,
}

/// An anonymous sender.
#[derive(Debug)]
pub struct AnonymousInfo {
    /// Anonymous identifier.
    pub id: i64,
    /// Anonymous name.
    pub name: String,
    /// Anonymous flag.
    pub flag: String,
}

/// A notice event.
#[derive(Debug)]
pub struct NoticeEvent {
    /// Event timestamp (Unix seconds).
    pub time: i64,
    /// Bot QQ number.
    pub self_id: i64,
    /// Event type.
    pub post_type: String,
    /// Notice type.
    pub notice_type: String,
    /// The notice's other fields.
    pub data: JsonValue,
}

/// A group message was recalled.
#[derive(Debug)]
pub struct GroupRecallEvent {
    /// Event timestamp (Unix seconds).
    pub time: i64,
    /// Bot QQ number.
    pub self_id: i64,
    /// Event type.
    pub post_type: String,
    /// Notice type: "group_recall".
    pub notice_type: String,
    /// Group number.
    pub group_id: String,
    /// Author of the recalled message.
    pub user_id: String,
    /// Who recalled it.
    pub operator_id: String,
    /// The recalled message.
    pub message_id: i64,
}

/// A friend's message was recalled.
#[derive(Debug)]
pub struct FriendRecallEvent {
    /// Event timestamp (Unix seconds).
    pub time: i64,
    /// Bot QQ number.
    pub self_id: i64,
    /// Event type.
    pub post_type: String,
    /// Notice type: "friend_recall".
    pub notice_type: String,
    /// Author of the recalled message.
    pub user_id: String,
    /// The recalled message.
    pub message_id: i64,
}

/// A member joined a group.
#[derive(Debug)]
pub struct GroupIncreaseEvent {
    /// Event timestamp (Unix seconds).
    pub time: i64,
    /// Bot QQ number.
    pub self_id: i64,
    /// Event type.
    pub post_type: String,
    /// Notice type: "group_increase".
    pub notice_type: String,
    /// Group number.
    pub group_id: String,
    /// Who joined.
    pub user_id: String,
    /// Who invited or approved.
    pub operator_id: String,
    /// Sub type: "approve" or "invite".
    pub sub_type: String,
}

/// A member left a group.
#[derive(Debug)]
pub struct GroupDecreaseEvent {
    /// Event timestamp (Unix seconds).
    pub time: i64,
    /// Bot QQ number.
    pub self_id: i64,
    /// Event type.
    pub post_type: String,
    /// Notice type: "group_decrease".
    pub notice_type: String,
    /// Group number.
    pub group_id: String,
    /// Who left or was removed.
    pub user_id: String,
    /// Who removed them.
    pub operator_id: String,
    /// Sub type: "leave", "kick", "kick_me".
    pub sub_type: String,
}

/// A group admin was set or unset.
#[derive(Debug)]
pub struct GroupAdminEvent {
    /// Event timestamp (Unix seconds).
    pub time: i64,
    /// Bot QQ number.
    pub self_id: i64,
    /// Event type.
    pub post_type: String,
    /// Notice type: "group_admin".
    pub notice_type: String,
    /// Group number.
    pub group_id: String,
    /// Whose admin status changed.
    pub user_id: String,
    /// Sub type: "set" or "unset".
    pub sub_type: String,
}

/// A member was muted or unmuted.
#[derive(Debug)]
pub struct GroupBanEvent {
    /// Event timestamp (Unix seconds).
    pub time: i64,
    /// Bot QQ number.
    pub self_id: i64,
    /// Event type.
    pub post_type: String,
    /// Notice type: "group_ban".
    pub notice_type: String,
    /// Group number.
    pub group_id: String,
    /// Who was muted.
    pub user_id: String,
    /// Who muted them.
    pub operator_id: String,
    /// Duration in seconds (0: unmuted).
    pub duration: i64,
    /// Sub type: "ban" or "lift_ban".
    pub sub_type: String,
}

/// A file was uploaded to a group.
#[derive(Debug)]
pub struct GroupUploadEvent {
    /// Event timestamp (Unix seconds).
    pub time: i64,
    /// Bot QQ number.
    pub self_id: i64,
    /// Event type.
    pub post_type: String,
    /// Notice type: "group_upload".
    pub notice_type: String,
    /// Group number.
    pub group_id: String,
    /// Who uploaded.
    pub user_id: String,
    /// File information.
    pub file: JsonValue,
}

/// Someone was poked.
#[derive(Debug)]
pub struct PokeEvent {
    /// Event timestamp (Unix seconds).
    pub time: i64,
    /// Bot QQ number.
    pub self_id: i64,
    /// Event type.
    pub post_type: String,
    /// Notice type: "notify".
    pub notice_type: String,
    /// Sub type: "poke".
    pub sub_type: String,
    /// Who poked.
    pub user_id: String,
    /// Who was poked.
    pub target_id: String,
    /// Group number (group poke).
    pub group_id: Option<String>,
}

/// A friend was added.
#[derive(Debug)]
pub struct FriendAddEvent {
    /// Event timestamp (Unix seconds).
    pub time: i64,
    /// Bot QQ number.
    pub self_id: i64,
    /// Event type.
    pub post_type: String,
    /// Notice type: "friend_add".
    pub notice_type: String,
    /// The new friend.
    pub user_id: String,
}

/// A member's group card changed.
#[derive(Debug)]
pub struct GroupCardEvent {
    /// Event timestamp (Unix seconds).
    pub time: i64,
    /// Bot QQ number.
    pub self_id: i64,
    /// Event type.
    pub post_type: String,
    /// Notice type: "group_card".
    pub notice_type: String,
    /// Group number.
    pub group_id: String,
    /// Whose card changed.
    pub user_id: String,
    /// New card.
    pub card_new: String,
    /// Old card.
    pub card_old: String,
}

/// A message was set or unset as essence.
#[derive(Debug)]
pub struct EssenceEvent {
    /// Event timestamp (Unix seconds).
    pub time: i64,
    /// Bot QQ number.
    pub self_id: i64,
    /// Event type.
    pub post_type: String,
    /// Notice type: "essence".
    pub notice_type: String,
    /// Group number.
    pub group_id: String,
    /// The message.
    pub message_id: i64,
    /// Author of the message.
    pub sender_id: String,
    /// Who set or unset it.
    pub operator_id: String,
    /// Sub type: "add" or "delete".
    pub sub_type: String,
}

/// A meta event.
#[derive(Debug)]
pub struct MetaEvent {
    /// Event timestamp (Unix seconds).
    pub time: i64,
    /// Bot QQ number.
    pub self_id: i64,
    /// Event type.
    pub post_type: String,
    /// Meta event type: "lifecycle", "heartbeat".
    pub meta_event_type: String,
    /// The event's other fields.
    pub data: JsonValue,
}

/// A lifecycle event.
#[derive(Debug)]
pub struct LifecycleEvent {
    /// Event timestamp (Unix seconds).
    pub time: i64,
    /// Bot QQ number.
    pub self_id: i64,
    /// Event type.
    pub post_type: String,
    /// Meta event type: "lifecycle".
    pub meta_event_type: String,
    /// Sub type: "enable", "disable", "connect".
    pub sub_type: String,
}

/// A heartbeat.
#[derive(Debug)]
pub struct HeartbeatEvent {
    /// Event timestamp (Unix seconds).
    pub time: i64,
    /// Bot QQ number.
    pub self_id: i64,
    /// Event type.
    pub post_type: String,
    /// Meta event type: "heartbeat".
    pub meta_event_type: String,
    /// Bot status.
    pub status: JsonValue,
    /// Heartbeat interval in milliseconds.
    pub interval: i64,
}

/// A request (friend request or group invitation).
#[derive(Debug)]
pub struct RequestEvent {
    /// Event timestamp (Unix seconds).
    pub time: i64,
    /// Bot QQ number.
    pub self_id: i64,
    /// Event type.
    pub post_type: String,
    /// Request type: "friend" or "group".
    pub request_type: String,
    /// Requester.
    pub user_id: String,
    /// Requester's message.
    pub comment: String,
    /// Flag to answer the request with.
    pub flag: String,
    /// Group number (group requests).
    pub group_id: Option<String>,
}

/// A friend request.
#[derive(Debug)]
pub struct FriendRequestEvent {
    /// Event timestamp (Unix seconds).
    pub time: i64,
    /// Bot QQ number.
    pub self_id: i64,
    /// Event type.
    pub post_type: String,
    /// Request type: "friend".
    pub request_type: String,
    /// Requester.
    pub user_id: String,
    /// Requester's message.
    pub comment: String,
    /// Flag to answer the request with.
    pub flag: String,
}

/// A request to join a group, or an invitation.
#[derive(Debug)]
pub struct GroupRequestEvent {
    /// Event timestamp (Unix seconds).
    pub time: i64,
    /// Bot QQ number.
    pub self_id: i64,
    /// Event type.
    pub post_type: String,
    /// Request type: "group".
    pub request_type: String,
    /// Sub type: "add" or "invite".
    pub sub_type: String,
    /// Group number.
    pub group_id: String,
    /// Requester.
    pub user_id: String,
    /// Requester's message.
    pub comment: String,
    /// Flag to answer the request with.
    pub flag: String,
    /// Who invited (invitations).
    pub invitor_id: Option<String>,
}

/// A message the bot sent.
#[derive(Debug)]
pub struct MessageSentEvent {
    /// Event timestamp (Unix seconds).
    pub time: i64,
    /// Bot QQ number.
    pub self_id: i64,
    /// Event type.
    pub post_type: String,
    /// Message type: "private" or "group".
    pub message_type: String,
    /// Sub type.
    pub sub_type: String,
    /// Target user (private messages).
    pub user_id: Option<String>,
    /// Target group (group messages).
    pub group_id: Option<String>,
    /// Message identifier.
    pub message_id: i64,
    /// Message sequence number.
    pub message_seq: i64,
    /// Real message identifier.
    pub real_id: i64,
    /// Message content.
    pub message: OneBotMessage,
    /// Raw message text.
    pub raw_message: String,
    /// Font (usually 0).
    pub font: i32,
    /// Sender (the bot).
    pub sender: OneBotSender,
}

impl MessageSentEvent {
    /// Sent to a group.
    pub fn is_group(&self) -> (r: bool)
        ensures
            r == (self.message_type@ == "group"@),
    {
        str_eq(self.message_type.as_str(), "group")
    }

    /// Sent to a private chat.
    pub fn is_private(&self) -> (r: bool)
        ensures
            r == (self.message_type@ == "private"@),
    {
        str_eq(self.message_type.as_str(), "private")
    }

    /// The message's plain text.
    pub fn get_text(&self) -> (r: String)
        ensures
            r@ == message_text(self.message@),
    {
        self.message.to_plain_text()
    }
}

} // verus!
