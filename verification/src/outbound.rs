//! Outgoing messages: which chat a chat id names, and the request that
//! sends a message there.
use vstd::prelude::*;

use crate::json::{Json, JsonValue};
use crate::text::{has_prefix, owned, str_eq, strip_prefix};
use crate::types::{request_view, ApiRequest};

verus! {

/// The target a chat id names: `group:<id>` a group, `user:<id>` a user,
/// anything else a user with that id.
pub open spec fn chat_target(chat_id: Seq<char>) -> (Seq<char>, Seq<char>) {
    if has_prefix(chat_id, "group:"@) {
        ("group"@, chat_id.skip(6))
    } else if has_prefix(chat_id, "user:"@) {
        ("private"@, chat_id.skip(5))
    } else {
        ("private"@, chat_id)
    }
}

/// The target type ("group" or "private") and id a chat id names (see
/// `chat_target`).
pub fn parse_chat_id(chat_id: &str) -> (r: (&'static str, String))
    ensures
        (r.0@, r.1@) == chat_target(chat_id@),
{
    proof {
        reveal_strlit("group:");
        reveal_strlit("user:");
    }
    if let Some(group_id) = strip_prefix(chat_id, "group:") {
        ("group", group_id)
    } else if let Some(user_id) = strip_prefix(chat_id, "user:") {
        ("private", user_id)
    } else {
        ("private", owned(chat_id))
    }
}

/// The request that sends a message (its JSON form) to a target: a group
/// message for "group", a private message for "private", nothing for any
/// other target type.
pub fn outbound_request(target_type: &str, target_id: &str, message_json: &JsonValue) -> (r: Option<ApiRequest>)
    ensures
        target_type@ == "group"@ ==> (r matches Some(q) && q@ == request_view(
            "send_group_msg"@,
            seq![("group_id"@, Json::Str(target_id@)), ("message"@, message_json@)],
            None,
        )),
        target_type@ == "private"@ ==> (r matches Some(q) && q@ == request_view(
            "send_private_msg"@,
            seq![("user_id"@, Json::Str(target_id@)), ("message"@, message_json@)],
            None,
        )),
        target_type@ != "group"@ && target_type@ != "private"@ ==> r is None,
{
    proof {
        reveal_strlit("group");
        reveal_strlit("private");
        assert("group"@.len() != "private"@.len());
    }
    if str_eq(target_type, "group") {
        let q = ApiRequest::send_group_msg(target_id, message_json, None, None);
        assert(seq![("group_id"@, Json::Str(target_id@)), ("message"@, message_json@)]
            + Seq::<(Seq<char>, Json)>::empty() =~= seq![
            ("group_id"@, Json::Str(target_id@)),
            ("message"@, message_json@),
        ]);
        Some(q)
    } else if str_eq(target_type, "private") {
        let q = ApiRequest::send_private_msg(target_id, message_json, None, None);
        assert(seq![("user_id"@, Json::Str(target_id@)), ("message"@, message_json@)]
            + Seq::<(Seq<char>, Json)>::empty() =~= seq![
            ("user_id"@, Json::Str(target_id@)),
            ("message"@, message_json@),
        ]);
        Some(q)
    } else {
        None
    }
}

/// The request that sends a message (its JSON form) to the chat a chat id
/// names (see `chat_target`).
pub fn request_for_chat(chat_id: &str, message_json: &JsonValue) -> (r: ApiRequest)
    ensures
        r@ == (if chat_target(chat_id@).0 == "group"@ {
            request_view(
                "send_group_msg"@,
                seq![("group_id"@, Json::Str(chat_target(chat_id@).1)), ("message"@, message_json@)],
                None,
            )
        } else {
            request_view(
                "send_private_msg"@,
                seq![("user_id"@, Json::Str(chat_target(chat_id@).1)), ("message"@, message_json@)],
                None,
            )
        }),
{
    let (target_type, target_id) = parse_chat_id(chat_id);
    proof {
        reveal_strlit("group");
        reveal_strlit("private");
    }
    match outbound_request(target_type, target_id.as_str(), message_json) {
        Some(q) => q,
        None => {
            assert(false);
            ApiRequest::send_private_msg(target_id.as_str(), message_json, None, None)
        },
    }
}

/// A chat id made of `group:` or `user:` and an id names that group or
/// user: the prefix is taken off again.
pub proof fn law_chat_id_prefix_round_trip(id: Seq<char>)
    ensures
        chat_target("group:"@ + id) == ("group"@, id),
        chat_target("user:"@ + id) == ("private"@, id),
{
    reveal_strlit("group:");
    reveal_strlit("user:");
    let g = "group:"@ + id;
    let u = "user:"@ + id;
    assert(g.subrange(0, 6) =~= "group:"@);
    assert(g.skip(6) =~= id);
    assert(u.subrange(0, 5) =~= "user:"@);
    assert(u.skip(5) =~= id);
    assert(!has_prefix(u, "group:"@)) by {
        if has_prefix(u, "group:"@) {
            assert(u[0] == "group:"@[0]);
        }
    }
}

} // verus!
