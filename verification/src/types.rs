//! OneBot 11 protocol types: API requests and responses, response data,
//! stream chunks and event kinds.
use vstd::prelude::*;

use crate::codec::{base64_standard_decode, decode_base64};
use crate::json::{
    entries_view, entry, entry_bool, entry_int, entry_str, json_int, opt_slice, opt_str, Json,
    JsonValue,
};
use crate::text::{owned, str_eq};

verus! {

/// An API request of OneBot 11.
#[derive(Debug)]
pub struct ApiRequest {
    /// Action name (e.g. "send_private_msg").
    pub action: String,
    /// Request parameters (an object).
    pub params: JsonValue,
    /// Request identifier for matching responses.
    pub echo: Option<String>,
}

/// The model of an API request.
pub struct ApiRequestView {
    pub action: Seq<char>,
    pub params: Json,
    pub echo: Option<Seq<char>>,
}

impl View for ApiRequest {
    type V = ApiRequestView;

    open spec fn view(&self) -> ApiRequestView {
        ApiRequestView { action: self.action@, params: self.params@, echo: opt_str(self.echo) }
    }
}

/// The model of a request with an action, parameter entries and echo.
pub open spec fn request_view(
    action: Seq<char>,
    entries: Seq<(Seq<char>, Json)>,
    echo: Option<&str>,
) -> ApiRequestView {
    ApiRequestView { action, params: Json::Object(entries), echo: opt_slice(echo) }
}

/// A boolean parameter entry, present only when given.
pub open spec fn opt_bool_entry(k: Seq<char>, o: Option<bool>) -> Seq<(Seq<char>, Json)> {
    match o {
        Some(b) => seq![(k, Json::Bool(b))],
        None => Seq::empty(),
    }
}

/// A string parameter entry, present only when given.
pub open spec fn opt_str_entry(k: Seq<char>, o: Option<&str>) -> Seq<(Seq<char>, Json)> {
    match o {
        Some(s) => seq![(k, Json::Str(s@))],
        None => Seq::empty(),
    }
}

/// An integer parameter entry, present only when given.
pub open spec fn opt_i32_entry(k: Seq<char>, o: Option<i32>) -> Seq<(Seq<char>, Json)> {
    match o {
        Some(i) => seq![(k, json_int(i as int))],
        None => Seq::empty(),
    }
}

/// A string-array parameter entry, present only when given.
pub open spec fn opt_strs_entry(k: Seq<char>, o: Option<&[&str]>) -> Seq<(Seq<char>, Json)> {
    match o {
        Some(l) => seq![(k, Json::Array(l@.map_values(|s: &str| Json::Str(s@))))],
        None => Seq::empty(),
    }
}

fn push_entry(es: &mut Vec<(String, JsonValue)>, e: (String, JsonValue))
    ensures
        entries_view(final(es)@) == entries_view(old(es)@).push((e.0@, e.1@)),
{
    let ghost before = es@;
    es.push(e);
    assert(entries_view(es@) =~= entries_view(before).push((e.0@, e.1@)));
}

fn push_opt_bool(es: &mut Vec<(String, JsonValue)>, k: &str, o: Option<bool>)
    ensures
        entries_view(final(es)@) == entries_view(old(es)@) + opt_bool_entry(k@, o),
{
    match o {
        Some(b) => push_entry(es, entry_bool(k, b)),
        None => {},
    }
    assert(entries_view(es@) =~= entries_view(old(es)@) + opt_bool_entry(k@, o));
}

fn push_opt_str(es: &mut Vec<(String, JsonValue)>, k: &str, o: Option<&str>)
    ensures
        entries_view(final(es)@) == entries_view(old(es)@) + opt_str_entry(k@, o),
{
    match o {
        Some(s) => push_entry(es, entry_str(k, s)),
        None => {},
    }
    assert(entries_view(es@) =~= entries_view(old(es)@) + opt_str_entry(k@, o));
}

fn push_opt_i32(es: &mut Vec<(String, JsonValue)>, k: &str, o: Option<i32>)
    ensures
        entries_view(final(es)@) == entries_view(old(es)@) + opt_i32_entry(k@, o),
{
    match o {
        Some(i) => push_entry(es, entry_int(k, i as i64)),
        None => {},
    }
    assert(entries_view(es@) =~= entries_view(old(es)@) + opt_i32_entry(k@, o));
}

fn push_opt_strs(es: &mut Vec<(String, JsonValue)>, k: &str, o: Option<&[&str]>)
    ensures
        entries_view(final(es)@) == entries_view(old(es)@) + opt_strs_entry(k@, o),
{
    match o {
        Some(l) => push_entry(es, entry(k, JsonValue::strings(l))),
        None => {},
    }
    assert(entries_view(es@) =~= entries_view(old(es)@) + opt_strs_entry(k@, o));
}

fn make_request(action: &str, es: Vec<(String, JsonValue)>, echo: Option<&str>) -> (r: ApiRequest)
    ensures
        r@ == request_view(action@, entries_view(es@), echo),
{
    let e = match echo {
        Some(s) => Some(owned(s)),
        None => None,
    };
    ApiRequest { action: owned(action), params: JsonValue::object(es), echo: e }
}

impl ApiRequest {
    /// A send private message request.
    pub fn send_private_msg(user_id: &str, message: &JsonValue, auto_escape: Option<bool>, echo: Option<&str>) -> (r: ApiRequest)
        ensures
            r@ == request_view("send_private_msg"@, seq![("user_id"@, Json::Str(user_id@)), ("message"@, message@)] + opt_bool_entry("auto_escape"@, auto_escape), echo),
    {
        let mut es: Vec<(String, JsonValue)> = Vec::new();
        push_entry(&mut es, entry_str("user_id", user_id));
        push_entry(&mut es, entry("message", message.deep_clone()));
        push_opt_bool(&mut es, "auto_escape", auto_escape);
        assert(entries_view(es@) =~= seq![("user_id"@, Json::Str(user_id@)), ("message"@, message@)] + opt_bool_entry("auto_escape"@, auto_escape));
        make_request("send_private_msg", es, echo)
    }

    /// A send group message request.
    pub fn send_group_msg(group_id: &str, message: &JsonValue, auto_escape: Option<bool>, echo: Option<&str>) -> (r: ApiRequest)
        ensures
            r@ == request_view("send_group_msg"@, seq![("group_id"@, Json::Str(group_id@)), ("message"@, message@)] + opt_bool_entry("auto_escape"@, auto_escape), echo),
    {
        let mut es: Vec<(String, JsonValue)> = Vec::new();
        push_entry(&mut es, entry_str("group_id", group_id));
        push_entry(&mut es, entry("message", message.deep_clone()));
        push_opt_bool(&mut es, "auto_escape", auto_escape);
        assert(entries_view(es@) =~= seq![("group_id"@, Json::Str(group_id@)), ("message"@, message@)] + opt_bool_entry("auto_escape"@, auto_escape));
        make_request("send_group_msg", es, echo)
    }

    /// A get login info request.
    pub fn get_login_info(echo: Option<&str>) -> (r: ApiRequest)
        ensures
            r@ == request_view("get_login_info"@, Seq::empty(), echo),
    {
        let es: Vec<(String, JsonValue)> = Vec::new();
        assert(entries_view(es@) =~= Seq::empty());
        make_request("get_login_info", es, echo)
    }

    /// A get group list request.
    pub fn get_group_list(echo: Option<&str>) -> (r: ApiRequest)
        ensures
            r@ == request_view("get_group_list"@, Seq::empty(), echo),
    {
        let es: Vec<(String, JsonValue)> = Vec::new();
        assert(entries_view(es@) =~= Seq::empty());
        make_request("get_group_list", es, echo)
    }

    /// A get friend list request.
    pub fn get_friend_list(echo: Option<&str>) -> (r: ApiRequest)
        ensures
            r@ == request_view("get_friend_list"@, Seq::empty(), echo),
    {
        let es: Vec<(String, JsonValue)> = Vec::new();
        assert(entries_view(es@) =~= Seq::empty());
        make_request("get_friend_list", es, echo)
    }

    /// A delete (recall) message request.
    pub fn delete_msg(message_id: i64, echo: Option<&str>) -> (r: ApiRequest)
        ensures
            r@ == request_view("delete_msg"@, seq![("message_id"@, json_int(message_id as int))], echo),
    {
        let mut es: Vec<(String, JsonValue)> = Vec::new();
        push_entry(&mut es, entry_int("message_id", message_id));
        assert(entries_view(es@) =~= seq![("message_id"@, json_int(message_id as int))]);
        make_request("delete_msg", es, echo)
    }

    /// A get message request.
    pub fn get_msg(message_id: i64, echo: Option<&str>) -> (r: ApiRequest)
        ensures
            r@ == request_view("get_msg"@, seq![("message_id"@, json_int(message_id as int))], echo),
    {
        let mut es: Vec<(String, JsonValue)> = Vec::new();
        push_entry(&mut es, entry_int("message_id", message_id));
        assert(entries_view(es@) =~= seq![("message_id"@, json_int(message_id as int))]);
        make_request("get_msg", es, echo)
    }

    /// A set group kick request.
    pub fn set_group_kick(group_id: &str, user_id: &str, reject_add_request: Option<bool>, echo: Option<&str>) -> (r: ApiRequest)
        ensures
            r@ == request_view("set_group_kick"@, seq![("group_id"@, Json::Str(group_id@)), ("user_id"@, Json::Str(user_id@))] + opt_bool_entry("reject_add_request"@, reject_add_request), echo),
    {
        let mut es: Vec<(String, JsonValue)> = Vec::new();
        push_entry(&mut es, entry_str("group_id", group_id));
        push_entry(&mut es, entry_str("user_id", user_id));
        push_opt_bool(&mut es, "reject_add_request", reject_add_request);
        assert(entries_view(es@) =~= seq![("group_id"@, Json::Str(group_id@)), ("user_id"@, Json::Str(user_id@))] + opt_bool_entry("reject_add_request"@, reject_add_request));
        make_request("set_group_kick", es, echo)
    }

    /// A set group ban request.
    pub fn set_group_ban(group_id: &str, user_id: &str, duration: u32, echo: Option<&str>) -> (r: ApiRequest)
        ensures
            r@ == request_view("set_group_ban"@, seq![("group_id"@, Json::Str(group_id@)), ("user_id"@, Json::Str(user_id@)), ("duration"@, json_int(duration as int))], echo),
    {
        let mut es: Vec<(String, JsonValue)> = Vec::new();
        push_entry(&mut es, entry_str("group_id", group_id));
        push_entry(&mut es, entry_str("user_id", user_id));
        push_entry(&mut es, entry_int("duration", duration as i64));
        assert(entries_view(es@) =~= seq![("group_id"@, Json::Str(group_id@)), ("user_id"@, Json::Str(user_id@)), ("duration"@, json_int(duration as int))]);
        make_request("set_group_ban", es, echo)
    }

    /// A set group admin request.
    pub fn set_group_admin(group_id: &str, user_id: &str, enable: bool, echo: Option<&str>) -> (r: ApiRequest)
        ensures
            r@ == request_view("set_group_admin"@, seq![("group_id"@, Json::Str(group_id@)), ("user_id"@, Json::Str(user_id@)), ("enable"@, Json::Bool(enable))], echo),
    {
        let mut es: Vec<(String, JsonValue)> = Vec::new();
        push_entry(&mut es, entry_str("group_id", group_id));
        push_entry(&mut es, entry_str("user_id", user_id));
        push_entry(&mut es, entry_bool("enable", enable));
        assert(entries_view(es@) =~= seq![("group_id"@, Json::Str(group_id@)), ("user_id"@, Json::Str(user_id@)), ("enable"@, Json::Bool(enable))]);
        make_request("set_group_admin", es, echo)
    }

    /// A set group card request.
    pub fn set_group_card(group_id: &str, user_id: &str, card: &str, echo: Option<&str>) -> (r: ApiRequest)
        ensures
            r@ == request_view("set_group_card"@, seq![("group_id"@, Json::Str(group_id@)), ("user_id"@, Json::Str(user_id@)), ("card"@, Json::Str(card@))], echo),
    {
        let mut es: Vec<(String, JsonValue)> = Vec::new();
        push_entry(&mut es, entry_str("group_id", group_id));
        push_entry(&mut es, entry_str("user_id", user_id));
        push_entry(&mut es, entry_str("card", card));
        assert(entries_view(es@) =~= seq![("group_id"@, Json::Str(group_id@)), ("user_id"@, Json::Str(user_id@)), ("card"@, Json::Str(card@))]);
        make_request("set_group_card", es, echo)
    }

    /// A set group name request.
    pub fn set_group_name(group_id: &str, group_name: &str, echo: Option<&str>) -> (r: ApiRequest)
        ensures
            r@ == request_view("set_group_name"@, seq![("group_id"@, Json::Str(group_id@)), ("group_name"@, Json::Str(group_name@))], echo),
    {
        let mut es: Vec<(String, JsonValue)> = Vec::new();
        push_entry(&mut es, entry_str("group_id", group_id));
        push_entry(&mut es, entry_str("group_name", group_name));
        assert(entries_view(es@) =~= seq![("group_id"@, Json::Str(group_id@)), ("group_name"@, Json::Str(group_name@))]);
        make_request("set_group_name", es, echo)
    }

    /// A get group member info request.
    pub fn get_group_member_info(group_id: &str, user_id: &str, no_cache: bool, echo: Option<&str>) -> (r: ApiRequest)
        ensures
            r@ == request_view("get_group_member_info"@, seq![("group_id"@, Json::Str(group_id@)), ("user_id"@, Json::Str(user_id@)), ("no_cache"@, Json::Bool(no_cache))], echo),
    {
        let mut es: Vec<(String, JsonValue)> = Vec::new();
        push_entry(&mut es, entry_str("group_id", group_id));
        push_entry(&mut es, entry_str("user_id", user_id));
        push_entry(&mut es, entry_bool("no_cache", no_cache));
        assert(entries_view(es@) =~= seq![("group_id"@, Json::Str(group_id@)), ("user_id"@, Json::Str(user_id@)), ("no_cache"@, Json::Bool(no_cache))]);
        make_request("get_group_member_info", es, echo)
    }

    /// A get group member list request.
    pub fn get_group_member_list(group_id: &str, echo: Option<&str>) -> (r: ApiRequest)
        ensures
            r@ == request_view("get_group_member_list"@, seq![("group_id"@, Json::Str(group_id@))], echo),
    {
        let mut es: Vec<(String, JsonValue)> = Vec::new();
        push_entry(&mut es, entry_str("group_id", group_id));
        assert(entries_view(es@) =~= seq![("group_id"@, Json::Str(group_id@))]);
        make_request("get_group_member_list", es, echo)
    }

    /// A get group info request.
    pub fn get_group_info(group_id: &str, no_cache: bool, echo: Option<&str>) -> (r: ApiRequest)
        ensures
            r@ == request_view("get_group_info"@, seq![("group_id"@, Json::Str(group_id@)), ("no_cache"@, Json::Bool(no_cache))], echo),
    {
        let mut es: Vec<(String, JsonValue)> = Vec::new();
        push_entry(&mut es, entry_str("group_id", group_id));
        push_entry(&mut es, entry_bool("no_cache", no_cache));
        assert(entries_view(es@) =~= seq![("group_id"@, Json::Str(group_id@)), ("no_cache"@, Json::Bool(no_cache))]);
        make_request("get_group_info", es, echo)
    }

    /// A set group whole ban request.
    pub fn set_group_whole_ban(group_id: &str, enable: bool, echo: Option<&str>) -> (r: ApiRequest)
        ensures
            r@ == request_view("set_group_whole_ban"@, seq![("group_id"@, Json::Str(group_id@)), ("enable"@, Json::Bool(enable))], echo),
    {
        let mut es: Vec<(String, JsonValue)> = Vec::new();
        push_entry(&mut es, entry_str("group_id", group_id));
        push_entry(&mut es, entry_bool("enable", enable));
        assert(entries_view(es@) =~= seq![("group_id"@, Json::Str(group_id@)), ("enable"@, Json::Bool(enable))]);
        make_request("set_group_whole_ban", es, echo)
    }

    /// A set group leave request.
    pub fn set_group_leave(group_id: &str, is_dismiss: bool, echo: Option<&str>) -> (r: ApiRequest)
        ensures
            r@ == request_view("set_group_leave"@, seq![("group_id"@, Json::Str(group_id@)), ("is_dismiss"@, Json::Bool(is_dismiss))], echo),
    {
        let mut es: Vec<(String, JsonValue)> = Vec::new();
        push_entry(&mut es, entry_str("group_id", group_id));
        push_entry(&mut es, entry_bool("is_dismiss", is_dismiss));
        assert(entries_view(es@) =~= seq![("group_id"@, Json::Str(group_id@)), ("is_dismiss"@, Json::Bool(is_dismiss))]);
        make_request("set_group_leave", es, echo)
    }

    /// A set group special title request.
    pub fn set_group_special_title(group_id: &str, user_id: &str, special_title: &str, echo: Option<&str>) -> (r: ApiRequest)
        ensures
            r@ == request_view("set_group_special_title"@, seq![("group_id"@, Json::Str(group_id@)), ("user_id"@, Json::Str(user_id@)), ("special_title"@, Json::Str(special_title@))], echo),
    {
        let mut es: Vec<(String, JsonValue)> = Vec::new();
        push_entry(&mut es, entry_str("group_id", group_id));
        push_entry(&mut es, entry_str("user_id", user_id));
        push_entry(&mut es, entry_str("special_title", special_title));
        assert(entries_view(es@) =~= seq![("group_id"@, Json::Str(group_id@)), ("user_id"@, Json::Str(user_id@)), ("special_title"@, Json::Str(special_title@))]);
        make_request("set_group_special_title", es, echo)
    }

    /// A get stranger info request.
    pub fn get_stranger_info(user_id: &str, no_cache: bool, echo: Option<&str>) -> (r: ApiRequest)
        ensures
            r@ == request_view("get_stranger_info"@, seq![("user_id"@, Json::Str(user_id@)), ("no_cache"@, Json::Bool(no_cache))], echo),
    {
        let mut es: Vec<(String, JsonValue)> = Vec::new();
        push_entry(&mut es, entry_str("user_id", user_id));
        push_entry(&mut es, entry_bool("no_cache", no_cache));
        assert(entries_view(es@) =~= seq![("user_id"@, Json::Str(user_id@)), ("no_cache"@, Json::Bool(no_cache))]);
        make_request("get_stranger_info", es, echo)
    }

    /// A send like request.
    pub fn send_like(user_id: &str, times: u32, echo: Option<&str>) -> (r: ApiRequest)
        ensures
            r@ == request_view("send_like"@, seq![("user_id"@, Json::Str(user_id@)), ("times"@, json_int(times as int))], echo),
    {
        let mut es: Vec<(String, JsonValue)> = Vec::new();
        push_entry(&mut es, entry_str("user_id", user_id));
        push_entry(&mut es, entry_int("times", times as i64));
        assert(entries_view(es@) =~= seq![("user_id"@, Json::Str(user_id@)), ("times"@, json_int(times as int))]);
        make_request("send_like", es, echo)
    }

    /// A set friend remark request.
    pub fn set_friend_remark(user_id: &str, remark: &str, echo: Option<&str>) -> (r: ApiRequest)
        ensures
            r@ == request_view("set_friend_remark"@, seq![("user_id"@, Json::Str(user_id@)), ("remark"@, Json::Str(remark@))], echo),
    {
        let mut es: Vec<(String, JsonValue)> = Vec::new();
        push_entry(&mut es, entry_str("user_id", user_id));
        push_entry(&mut es, entry_str("remark", remark));
        assert(entries_view(es@) =~= seq![("user_id"@, Json::Str(user_id@)), ("remark"@, Json::Str(remark@))]);
        make_request("set_friend_remark", es, echo)
    }

    /// A delete friend request.
    pub fn delete_friend(user_id: &str, echo: Option<&str>) -> (r: ApiRequest)
        ensures
            r@ == request_view("delete_friend"@, seq![("user_id"@, Json::Str(user_id@))], echo),
    {
        let mut es: Vec<(String, JsonValue)> = Vec::new();
        push_entry(&mut es, entry_str("user_id", user_id));
        assert(entries_view(es@) =~= seq![("user_id"@, Json::Str(user_id@))]);
        make_request("delete_friend", es, echo)
    }

    /// An upload file request (group).
    pub fn upload_group_file(group_id: &str, file: &str, name: Option<&str>, echo: Option<&str>) -> (r: ApiRequest)
        ensures
            r@ == request_view("upload_file"@, seq![("group_id"@, Json::Str(group_id@)), ("file"@, Json::Str(file@))] + opt_str_entry("name"@, name), echo),
    {
        let mut es: Vec<(String, JsonValue)> = Vec::new();
        push_entry(&mut es, entry_str("group_id", group_id));
        push_entry(&mut es, entry_str("file", file));
        push_opt_str(&mut es, "name", name);
        assert(entries_view(es@) =~= seq![("group_id"@, Json::Str(group_id@)), ("file"@, Json::Str(file@))] + opt_str_entry("name"@, name));
        make_request("upload_file", es, echo)
    }

    /// An upload file request (private).
    pub fn upload_private_file(user_id: &str, file: &str, name: Option<&str>, echo: Option<&str>) -> (r: ApiRequest)
        ensures
            r@ == request_view("upload_file"@, seq![("user_id"@, Json::Str(user_id@)), ("file"@, Json::Str(file@))] + opt_str_entry("name"@, name), echo),
    {
        let mut es: Vec<(String, JsonValue)> = Vec::new();
        push_entry(&mut es, entry_str("user_id", user_id));
        push_entry(&mut es, entry_str("file", file));
        push_opt_str(&mut es, "name", name);
        assert(entries_view(es@) =~= seq![("user_id"@, Json::Str(user_id@)), ("file"@, Json::Str(file@))] + opt_str_entry("name"@, name));
        make_request("upload_file", es, echo)
    }

    /// A get file request; `file` is a path, URL or file id.
    pub fn get_file(file: &str, echo: Option<&str>) -> (r: ApiRequest)
        ensures
            r@ == request_view("get_file"@, seq![("file"@, Json::Str(file@))], echo),
    {
        let mut es: Vec<(String, JsonValue)> = Vec::new();
        push_entry(&mut es, entry_str("file", file));
        assert(entries_view(es@) =~= seq![("file"@, Json::Str(file@))]);
        make_request("get_file", es, echo)
    }

    /// A delete file request.
    pub fn delete_file(group_id: &str, file_id: &str, busid: Option<i32>, echo: Option<&str>) -> (r: ApiRequest)
        ensures
            r@ == request_view("delete_file"@, seq![("group_id"@, Json::Str(group_id@)), ("file_id"@, Json::Str(file_id@))] + opt_i32_entry("busid"@, busid), echo),
    {
        let mut es: Vec<(String, JsonValue)> = Vec::new();
        push_entry(&mut es, entry_str("group_id", group_id));
        push_entry(&mut es, entry_str("file_id", file_id));
        push_opt_i32(&mut es, "busid", busid);
        assert(entries_view(es@) =~= seq![("group_id"@, Json::Str(group_id@)), ("file_id"@, Json::Str(file_id@))] + opt_i32_entry("busid"@, busid));
        make_request("delete_file", es, echo)
    }

    /// A get group file system info request.
    pub fn get_group_file_system_info(group_id: &str, echo: Option<&str>) -> (r: ApiRequest)
        ensures
            r@ == request_view("get_group_file_system_info"@, seq![("group_id"@, Json::Str(group_id@))], echo),
    {
        let mut es: Vec<(String, JsonValue)> = Vec::new();
        push_entry(&mut es, entry_str("group_id", group_id));
        assert(entries_view(es@) =~= seq![("group_id"@, Json::Str(group_id@))]);
        make_request("get_group_file_system_info", es, echo)
    }

    /// A get group files by folder request.
    pub fn get_group_files_by_folder(group_id: &str, folder_id: &str, echo: Option<&str>) -> (r: ApiRequest)
        ensures
            r@ == request_view("get_group_files_by_folder"@, seq![("group_id"@, Json::Str(group_id@)), ("folder_id"@, Json::Str(folder_id@))], echo),
    {
        let mut es: Vec<(String, JsonValue)> = Vec::new();
        push_entry(&mut es, entry_str("group_id", group_id));
        push_entry(&mut es, entry_str("folder_id", folder_id));
        assert(entries_view(es@) =~= seq![("group_id"@, Json::Str(group_id@)), ("folder_id"@, Json::Str(folder_id@))]);
        make_request("get_group_files_by_folder", es, echo)
    }

    /// A get status request.
    pub fn get_status(echo: Option<&str>) -> (r: ApiRequest)
        ensures
            r@ == request_view("get_status"@, Seq::empty(), echo),
    {
        let es: Vec<(String, JsonValue)> = Vec::new();
        assert(entries_view(es@) =~= Seq::empty());
        make_request("get_status", es, echo)
    }

    /// A get version info request.
    pub fn get_version_info(echo: Option<&str>) -> (r: ApiRequest)
        ensures
            r@ == request_view("get_version_info"@, Seq::empty(), echo),
    {
        let es: Vec<(String, JsonValue)> = Vec::new();
        assert(entries_view(es@) =~= Seq::empty());
        make_request("get_version_info", es, echo)
    }

    /// A set QQ profile request; only the given fields are sent.
    pub fn set_qq_profile(nickname: Option<&str>, personal_note: Option<&str>, sex: Option<&str>, echo: Option<&str>) -> (r: ApiRequest)
        ensures
            r@ == request_view("set_qq_profile"@, Seq::empty() + opt_str_entry("nickname"@, nickname) + opt_str_entry("personal_note"@, personal_note) + opt_str_entry("sex"@, sex), echo),
    {
        let mut es: Vec<(String, JsonValue)> = Vec::new();
        push_opt_str(&mut es, "nickname", nickname);
        push_opt_str(&mut es, "personal_note", personal_note);
        push_opt_str(&mut es, "sex", sex);
        assert(entries_view(es@) =~= Seq::empty() + opt_str_entry("nickname"@, nickname) + opt_str_entry("personal_note"@, personal_note) + opt_str_entry("sex"@, sex));
        make_request("set_qq_profile", es, echo)
    }

    /// A get cookies request.
    pub fn get_cookies(domain: &str, echo: Option<&str>) -> (r: ApiRequest)
        ensures
            r@ == request_view("get_cookies"@, seq![("domain"@, Json::Str(domain@))], echo),
    {
        let mut es: Vec<(String, JsonValue)> = Vec::new();
        push_entry(&mut es, entry_str("domain", domain));
        assert(entries_view(es@) =~= seq![("domain"@, Json::Str(domain@))]);
        make_request("get_cookies", es, echo)
    }

    /// A get CSRF token request.
    pub fn get_csrf_token(echo: Option<&str>) -> (r: ApiRequest)
        ensures
            r@ == request_view("get_csrf_token"@, Seq::empty(), echo),
    {
        let es: Vec<(String, JsonValue)> = Vec::new();
        assert(entries_view(es@) =~= Seq::empty());
        make_request("get_csrf_token", es, echo)
    }

    /// A set friend add request.
    pub fn set_friend_add_request(flag: &str, approve: bool, remark: Option<&str>, echo: Option<&str>) -> (r: ApiRequest)
        ensures
            r@ == request_view("set_friend_add_request"@, seq![("flag"@, Json::Str(flag@)), ("approve"@, Json::Bool(approve))] + opt_str_entry("remark"@, remark), echo),
    {
        let mut es: Vec<(String, JsonValue)> = Vec::new();
        push_entry(&mut es, entry_str("flag", flag));
        push_entry(&mut es, entry_bool("approve", approve));
        push_opt_str(&mut es, "remark", remark);
        assert(entries_view(es@) =~= seq![("flag"@, Json::Str(flag@)), ("approve"@, Json::Bool(approve))] + opt_str_entry("remark"@, remark));
        make_request("set_friend_add_request", es, echo)
    }

    /// A set group add request.
    pub fn set_group_add_request(flag: &str, sub_type: &str, approve: bool, reason: Option<&str>, echo: Option<&str>) -> (r: ApiRequest)
        ensures
            r@ == request_view("set_group_add_request"@, seq![("flag"@, Json::Str(flag@)), ("sub_type"@, Json::Str(sub_type@)), ("approve"@, Json::Bool(approve))] + opt_str_entry("reason"@, reason), echo),
    {
        let mut es: Vec<(String, JsonValue)> = Vec::new();
        push_entry(&mut es, entry_str("flag", flag));
        push_entry(&mut es, entry_str("sub_type", sub_type));
        push_entry(&mut es, entry_bool("approve", approve));
        push_opt_str(&mut es, "reason", reason);
        assert(entries_view(es@) =~= seq![("flag"@, Json::Str(flag@)), ("sub_type"@, Json::Str(sub_type@)), ("approve"@, Json::Bool(approve))] + opt_str_entry("reason"@, reason));
        make_request("set_group_add_request", es, echo)
    }

    /// A get forward message request.
    pub fn get_forward_msg(message_id: &str, echo: Option<&str>) -> (r: ApiRequest)
        ensures
            r@ == request_view("get_forward_msg"@, seq![("message_id"@, Json::Str(message_id@))], echo),
    {
        let mut es: Vec<(String, JsonValue)> = Vec::new();
        push_entry(&mut es, entry_str("message_id", message_id));
        assert(entries_view(es@) =~= seq![("message_id"@, Json::Str(message_id@))]);
        make_request("get_forward_msg", es, echo)
    }

    /// A set message emoji like (reaction) request.
    pub fn set_msg_emoji_like(message_id: i64, emoji_id: &str, set: Option<bool>, echo: Option<&str>) -> (r: ApiRequest)
        ensures
            r@ == request_view("set_msg_emoji_like"@, seq![("message_id"@, json_int(message_id as int)), ("emoji_id"@, Json::Str(emoji_id@))] + opt_bool_entry("set"@, set), echo),
    {
        let mut es: Vec<(String, JsonValue)> = Vec::new();
        push_entry(&mut es, entry_int("message_id", message_id));
        push_entry(&mut es, entry_str("emoji_id", emoji_id));
        push_opt_bool(&mut es, "set", set);
        assert(entries_view(es@) =~= seq![("message_id"@, json_int(message_id as int)), ("emoji_id"@, Json::Str(emoji_id@))] + opt_bool_entry("set"@, set));
        make_request("set_msg_emoji_like", es, echo)
    }

    /// A mark message as read request.
    pub fn mark_msg_as_read(message_id: i64, echo: Option<&str>) -> (r: ApiRequest)
        ensures
            r@ == request_view("mark_msg_as_read"@, seq![("message_id"@, json_int(message_id as int))], echo),
    {
        let mut es: Vec<(String, JsonValue)> = Vec::new();
        push_entry(&mut es, entry_int("message_id", message_id));
        assert(entries_view(es@) =~= seq![("message_id"@, json_int(message_id as int))]);
        make_request("mark_msg_as_read", es, echo)
    }

    /// A set essence message request.
    pub fn set_essence_msg(message_id: i64, echo: Option<&str>) -> (r: ApiRequest)
        ensures
            r@ == request_view("set_essence_msg"@, seq![("message_id"@, json_int(message_id as int))], echo),
    {
        let mut es: Vec<(String, JsonValue)> = Vec::new();
        push_entry(&mut es, entry_int("message_id", message_id));
        assert(entries_view(es@) =~= seq![("message_id"@, json_int(message_id as int))]);
        make_request("set_essence_msg", es, echo)
    }

    /// A delete essence message request.
    pub fn delete_essence_msg(message_id: i64, echo: Option<&str>) -> (r: ApiRequest)
        ensures
            r@ == request_view("delete_essence_msg"@, seq![("message_id"@, json_int(message_id as int))], echo),
    {
        let mut es: Vec<(String, JsonValue)> = Vec::new();
        push_entry(&mut es, entry_int("message_id", message_id));
        assert(entries_view(es@) =~= seq![("message_id"@, json_int(message_id as int))]);
        make_request("delete_essence_msg", es, echo)
    }

    /// A get essence message list request.
    pub fn get_essence_msg_list(group_id: &str, echo: Option<&str>) -> (r: ApiRequest)
        ensures
            r@ == request_view("get_essence_msg_list"@, seq![("group_id"@, Json::Str(group_id@))], echo),
    {
        let mut es: Vec<(String, JsonValue)> = Vec::new();
        push_entry(&mut es, entry_str("group_id", group_id));
        assert(entries_view(es@) =~= seq![("group_id"@, Json::Str(group_id@))]);
        make_request("get_essence_msg_list", es, echo)
    }

    /// A get group at-all remain request.
    pub fn get_group_at_all_remain(group_id: &str, echo: Option<&str>) -> (r: ApiRequest)
        ensures
            r@ == request_view("get_group_at_all_remain"@, seq![("group_id"@, Json::Str(group_id@))], echo),
    {
        let mut es: Vec<(String, JsonValue)> = Vec::new();
        push_entry(&mut es, entry_str("group_id", group_id));
        assert(entries_view(es@) =~= seq![("group_id"@, Json::Str(group_id@))]);
        make_request("get_group_at_all_remain", es, echo)
    }

    /// A set group portrait (avatar) request.
    pub fn set_group_portrait(group_id: &str, file: &str, echo: Option<&str>) -> (r: ApiRequest)
        ensures
            r@ == request_view("set_group_portrait"@, seq![("group_id"@, Json::Str(group_id@)), ("file"@, Json::Str(file@))], echo),
    {
        let mut es: Vec<(String, JsonValue)> = Vec::new();
        push_entry(&mut es, entry_str("group_id", group_id));
        push_entry(&mut es, entry_str("file", file));
        assert(entries_view(es@) =~= seq![("group_id"@, Json::Str(group_id@)), ("file"@, Json::Str(file@))]);
        make_request("set_group_portrait", es, echo)
    }

    /// A get image request; `file` and `file_id` are sent when given.
    pub fn get_image(file: Option<&str>, file_id: Option<&str>, echo: Option<&str>) -> (r: ApiRequest)
        ensures
            r@ == request_view("get_image"@, Seq::empty() + opt_str_entry("file"@, file) + opt_str_entry("file_id"@, file_id), echo),
    {
        let mut es: Vec<(String, JsonValue)> = Vec::new();
        push_opt_str(&mut es, "file", file);
        push_opt_str(&mut es, "file_id", file_id);
        assert(entries_view(es@) =~= Seq::empty() + opt_str_entry("file"@, file) + opt_str_entry("file_id"@, file_id));
        make_request("get_image", es, echo)
    }

    /// A get record (voice) request; `out_format` is required.
    pub fn get_record(file: Option<&str>, file_id: Option<&str>, out_format: &str, echo: Option<&str>) -> (r: ApiRequest)
        ensures
            r@ == request_view("get_record"@, seq![("out_format"@, Json::Str(out_format@))] + opt_str_entry("file"@, file) + opt_str_entry("file_id"@, file_id), echo),
    {
        let mut es: Vec<(String, JsonValue)> = Vec::new();
        push_entry(&mut es, entry_str("out_format", out_format));
        push_opt_str(&mut es, "file", file);
        push_opt_str(&mut es, "file_id", file_id);
        assert(entries_view(es@) =~= seq![("out_format"@, Json::Str(out_format@))] + opt_str_entry("file"@, file) + opt_str_entry("file_id"@, file_id));
        make_request("get_record", es, echo)
    }

    /// A get video request.
    pub fn get_video(file: &str, echo: Option<&str>) -> (r: ApiRequest)
        ensures
            r@ == request_view("get_video"@, seq![("file"@, Json::Str(file@))], echo),
    {
        let mut es: Vec<(String, JsonValue)> = Vec::new();
        push_entry(&mut es, entry_str("file", file));
        assert(entries_view(es@) =~= seq![("file"@, Json::Str(file@))]);
        make_request("get_video", es, echo)
    }

    /// A get private file URL request.
    pub fn get_private_file_url(file_id: &str, user_id: Option<&str>, echo: Option<&str>) -> (r: ApiRequest)
        ensures
            r@ == request_view("get_private_file_url"@, seq![("file_id"@, Json::Str(file_id@))] + opt_str_entry("user_id"@, user_id), echo),
    {
        let mut es: Vec<(String, JsonValue)> = Vec::new();
        push_entry(&mut es, entry_str("file_id", file_id));
        push_opt_str(&mut es, "user_id", user_id);
        assert(entries_view(es@) =~= seq![("file_id"@, Json::Str(file_id@))] + opt_str_entry("user_id"@, user_id));
        make_request("get_private_file_url", es, echo)
    }

    /// A download file request.
    pub fn download_file(url: &str, thread_count: Option<i32>, headers: Option<&[&str]>, echo: Option<&str>) -> (r: ApiRequest)
        ensures
            r@ == request_view("download_file"@, seq![("url"@, Json::Str(url@))] + opt_i32_entry("thread_count"@, thread_count) + opt_strs_entry("headers"@, headers), echo),
    {
        let mut es: Vec<(String, JsonValue)> = Vec::new();
        push_entry(&mut es, entry_str("url", url));
        push_opt_i32(&mut es, "thread_count", thread_count);
        push_opt_strs(&mut es, "headers", headers);
        assert(entries_view(es@) =~= seq![("url"@, Json::Str(url@))] + opt_i32_entry("thread_count"@, thread_count) + opt_strs_entry("headers"@, headers));
        make_request("download_file", es, echo)
    }

    /// A download file stream request; the file comes back in chunks.
    pub fn download_file_stream(url: &str, thread_count: Option<i32>, headers: Option<&[&str]>, echo: Option<&str>) -> (r: ApiRequest)
        ensures
            r@ == request_view("download_file_stream"@, seq![("url"@, Json::Str(url@))] + opt_i32_entry("thread_count"@, thread_count) + opt_strs_entry("headers"@, headers), echo),
    {
        let mut es: Vec<(String, JsonValue)> = Vec::new();
        push_entry(&mut es, entry_str("url", url));
        push_opt_i32(&mut es, "thread_count", thread_count);
        push_opt_strs(&mut es, "headers", headers);
        assert(entries_view(es@) =~= seq![("url"@, Json::Str(url@))] + opt_i32_entry("thread_count"@, thread_count) + opt_strs_entry("headers"@, headers));
        make_request("download_file_stream", es, echo)
    }

    /// A can send image check request.
    pub fn can_send_image(echo: Option<&str>) -> (r: ApiRequest)
        ensures
            r@ == request_view("can_send_image"@, Seq::empty(), echo),
    {
        let es: Vec<(String, JsonValue)> = Vec::new();
        assert(entries_view(es@) =~= Seq::empty());
        make_request("can_send_image", es, echo)
    }

    /// A can send record check request.
    pub fn can_send_record(echo: Option<&str>) -> (r: ApiRequest)
        ensures
            r@ == request_view("can_send_record"@, Seq::empty(), echo),
    {
        let es: Vec<(String, JsonValue)> = Vec::new();
        assert(entries_view(es@) =~= Seq::empty());
        make_request("can_send_record", es, echo)
    }
}

/// An API response of OneBot 11.
#[derive(Debug)]
pub struct ApiResponse {
    /// Status: "ok" or "failed".
    pub status: String,
    /// Return code.
    pub retcode: i32,
    /// Response data.
    pub data: JsonValue,
    /// Error message.
    pub message: String,
    /// Human-readable error description.
    pub wording: String,
    /// Request identifier (echo).
    pub echo: Option<String>,
}

/// The response reports success.
pub open spec fn response_succeeded(r: &ApiResponse) -> bool {
    r.status@ == "ok"@ && r.retcode == 0
}

/// The error message of a response: the wording, else the message, else
/// "unknown error".
pub open spec fn response_error_message(r: &ApiResponse) -> Seq<char> {
    if r.wording@.len() > 0 {
        r.wording@
    } else if r.message@.len() > 0 {
        r.message@
    } else {
        "unknown error"@
    }
}

impl ApiResponse {
    /// The response reports success: status "ok" and return code 0.
    pub fn is_success(&self) -> (r: bool)
        ensures
            r == response_succeeded(self),
    {
        str_eq(self.status.as_str(), "ok") && self.retcode == 0
    }

    /// The error message: the wording, else the message, else "unknown error".
    pub fn error_message(&self) -> (r: &str)
        ensures
            r@ == response_error_message(self),
    {
        if self.wording.as_str().unicode_len() != 0 {
            self.wording.as_str()
        } else if self.message.as_str().unicode_len() != 0 {
            self.message.as_str()
        } else {
            "unknown error"
        }
    }
}

/// Data of a send-message response.
#[derive(Debug, Clone)]
pub struct SendMessageData {
    /// Message ID.
    pub message_id: i64,
    /// Resource ID (media messages).
    pub res_id: Option<String>,
    /// Forward ID (merged messages).
    pub forward_id: Option<String>,
}

/// Data of a login-info response.
#[derive(Debug, Clone)]
pub struct LoginInfoData {
    /// Bot QQ number.
    pub user_id: String,
    /// Bot nickname.
    pub nickname: String,
}

/// Data of a group-info response.
#[derive(Debug, Clone)]
pub struct GroupInfoData {
    pub group_id: String,
    pub group_name: String,
    pub member_count: i32,
    pub max_member_count: i32,
}

/// Data of a friend-info response.
#[derive(Debug, Clone)]
pub struct FriendInfoData {
    pub user_id: String,
    pub nickname: String,
    pub remark: Option<String>,
}

/// One chunk of a `download_file_stream` response: Base64-encoded data.
#[derive(Debug, Clone)]
pub struct StreamChunkData {
    /// Identifier of the stream session.
    pub stream_id: String,
    /// Base64-encoded chunk data.
    pub chunk_data: String,
    /// Index of this chunk (from 0).
    pub chunk_index: i32,
    /// Number of chunks.
    pub total_chunks: i32,
    /// Size of the whole file in bytes.
    pub file_size: Option<i64>,
}

impl StreamChunkData {
    /// The chunk's bytes, decoded from standard Base64.
    pub fn decode_data(&self) -> (r: Result<Vec<u8>, base64::DecodeError>)
        ensures
            r is Ok <==> base64_standard_decode(self.chunk_data@) is Some,
            r matches Ok(v) ==> Some(v@) == base64_standard_decode(self.chunk_data@),
    {
        decode_base64(self.chunk_data.as_str())
    }
}

/// Kind of an event (`post_type`).
#[derive(Debug, Clone, Copy, PartialEq, Eq, Structural)]
pub enum PostType {
    Message,
    Notice,
    Request,
    MetaEvent,
}

pub open spec fn post_type_of(s: Seq<char>) -> PostType {
    if s == "message"@ {
        PostType::Message
    } else if s == "notice"@ {
        PostType::Notice
    } else if s == "request"@ {
        PostType::Request
    } else if s == "meta_event"@ {
        PostType::MetaEvent
    } else {
        PostType::Message
    }
}

impl PostType {
    /// The post type of a name; unknown names are message events.
    pub fn parse(s: &str) -> (r: PostType)
        ensures
            r == post_type_of(s@),
    {
        if str_eq(s, "message") {
            PostType::Message
        } else if str_eq(s, "notice") {
            PostType::Notice
        } else if str_eq(s, "request") {
            PostType::Request
        } else if str_eq(s, "meta_event") {
            PostType::MetaEvent
        } else {
            PostType::Message
        }
    }
}

/// Kind of a message.
#[derive(Debug, Clone, Copy, PartialEq, Eq, Structural)]
pub enum MessageType {
    Private,
    Group,
}

pub open spec fn message_type_of(s: Seq<char>) -> MessageType {
    if s == "private"@ {
        MessageType::Private
    } else if s == "group"@ {
        MessageType::Group
    } else {
        MessageType::Private
    }
}

impl MessageType {
    /// The message type of a name; unknown names are private messages.
    pub fn parse(s: &str) -> (r: MessageType)
        ensures
            r == message_type_of(s@),
    {
        if str_eq(s, "private") {
            MessageType::Private
        } else if str_eq(s, "group") {
            MessageType::Group
        } else {
            MessageType::Private
        }
    }
}

/// Kind of a notice.
#[derive(Debug, Clone, Copy, PartialEq, Eq, Structural)]
pub enum NoticeType {
    GroupUpload,
    GroupAdmin,
    GroupDecrease,
    GroupIncrease,
    GroupBan,
    FriendAdd,
    GroupRecall,
    FriendRecall,
    Notify,
    Other,
}

pub open spec fn notice_type_of(s: Seq<char>) -> NoticeType {
    if s == "group_upload"@ {
        NoticeType::GroupUpload
    } else if s == "group_admin"@ {
        NoticeType::GroupAdmin
    } else if s == "group_decrease"@ {
        NoticeType::GroupDecrease
    } else if s == "group_increase"@ {
        NoticeType::GroupIncrease
    } else if s == "group_ban"@ {
        NoticeType::GroupBan
    } else if s == "friend_add"@ {
        NoticeType::FriendAdd
    } else if s == "group_recall"@ {
        NoticeType::GroupRecall
    } else if s == "friend_recall"@ {
        NoticeType::FriendRecall
    } else if s == "notify"@ {
        NoticeType::Notify
    } else {
        NoticeType::Other
    }
}

impl NoticeType {
    /// The notice type of a name; unknown names are `Other`.
    pub fn parse(s: &str) -> (r: NoticeType)
        ensures
            r == notice_type_of(s@),
    {
        if str_eq(s, "group_upload") {
            NoticeType::GroupUpload
        } else if str_eq(s, "group_admin") {
            NoticeType::GroupAdmin
        } else if str_eq(s, "group_decrease") {
            NoticeType::GroupDecrease
        } else if str_eq(s, "group_increase") {
            NoticeType::GroupIncrease
        } else if str_eq(s, "group_ban") {
            NoticeType::GroupBan
        } else if str_eq(s, "friend_add") {
            NoticeType::FriendAdd
        } else if str_eq(s, "group_recall") {
            NoticeType::GroupRecall
        } else if str_eq(s, "friend_recall") {
            NoticeType::FriendRecall
        } else if str_eq(s, "notify") {
            NoticeType::Notify
        } else {
            NoticeType::Other
        }
    }
}

/// Kind of a meta event.
#[derive(Debug, Clone, Copy, PartialEq, Eq, Structural)]
pub enum MetaEventType {
    Lifecycle,
    Heartbeat,
}

pub open spec fn meta_event_type_of(s: Seq<char>) -> MetaEventType {
    if s == "lifecycle"@ {
        MetaEventType::Lifecycle
    } else if s == "heartbeat"@ {
        MetaEventType::Heartbeat
    } else {
        MetaEventType::Lifecycle
    }
}

impl MetaEventType {
    /// The meta event type of a name; unknown names are lifecycle events.
    pub fn parse(s: &str) -> (r: MetaEventType)
        ensures
            r == meta_event_type_of(s@),
    {
        if str_eq(s, "lifecycle") {
            MetaEventType::Lifecycle
        } else if str_eq(s, "heartbeat") {
            MetaEventType::Heartbeat
        } else {
            MetaEventType::Lifecycle
        }
    }
}

} // verus!
