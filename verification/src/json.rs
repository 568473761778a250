//! JSON values as the library holds them (request parameters, response data,
//! metadata), with their mathematical model.
//!
//! Numbers are kept in their decimal text form, objects as the ordered list of
//! their entries.
use vstd::prelude::*;

use crate::text::{int_text, int_to_text, owned, str_eq};

verus! {

/// A JSON value.
#[derive(Debug)]
pub enum JsonValue {
    Null,
    Bool(bool),
    /// A number, in its decimal text form.
    Number(String),
    Str(String),
    Array(Vec<JsonValue>),
    /// An object: its entries, keys distinct.
    Object(Vec<(String, JsonValue)>),
}

/// The mathematical model of a JSON value.
pub enum Json {
    Null,
    Bool(bool),
    Number(Seq<char>),
    Str(Seq<char>),
    Array(Seq<Json>),
    Object(Seq<(Seq<char>, Json)>),
}

impl View for JsonValue {
    type V = Json;

    open spec fn view(&self) -> Json
        decreases self,
    {
        match self {
            JsonValue::Null => Json::Null,
            JsonValue::Bool(b) => Json::Bool(*b),
            JsonValue::Number(n) => Json::Number(n@),
            JsonValue::Str(s) => Json::Str(s@),
            JsonValue::Array(v) => Json::Array(
                Seq::new(
                    v@.len(),
                    |i: int|
                        {
                            if 0 <= i < v@.len() {
                                v@[i].view()
                            } else {
                                Json::Null
                            }
                        },
                ),
            ),
            JsonValue::Object(v) => Json::Object(
                Seq::new(
                    v@.len(),
                    |i: int|
                        (
                            if 0 <= i < v@.len() {
                                v@[i].0@
                            } else {
                                Seq::empty()
                            },
                            if 0 <= i < v@.len() {
                                v@[i].1.view()
                            } else {
                                Json::Null
                            },
                        ),
                ),
            ),
        }
    }
}

/// The model of a list of object entries.
pub open spec fn entries_view(v: Seq<(String, JsonValue)>) -> Seq<(Seq<char>, Json)> {
    v.map_values(|e: (String, JsonValue)| (e.0@, e.1@))
}

/// A JSON integer.
pub open spec fn json_int(i: int) -> Json {
    Json::Number(int_text(i))
}

/// The optional model of an optional string.
pub open spec fn opt_str(o: Option<String>) -> Option<Seq<char>> {
    match o {
        Some(s) => Some(s@),
        None => None,
    }
}

/// The optional model of an optional string slice.
pub open spec fn opt_slice(o: Option<&str>) -> Option<Seq<char>> {
    match o {
        Some(s) => Some(s@),
        None => None,
    }
}

/// The optional model of an optional JSON value.
pub open spec fn opt_json(o: Option<JsonValue>) -> Option<Json> {
    match o {
        Some(j) => Some(j@),
        None => None,
    }
}

/// Position of the first entry with key `k` (`es.len()` when none).
pub open spec fn key_pos(es: Seq<(Seq<char>, Json)>, k: Seq<char>) -> int
    decreases es.len(),
{
    if es.len() == 0 {
        0
    } else if es[0].0 == k {
        0
    } else {
        1 + key_pos(es.drop_first(), k)
    }
}

/// The value under key `k` of an object (`Value::get`).
pub open spec fn json_get(j: Json, k: Seq<char>) -> Option<Json> {
    match j {
        Json::Object(es) => if key_pos(es, k) < es.len() {
            Some(es[key_pos(es, k)].1)
        } else {
            None
        },
        _ => None,
    }
}

/// The string under key `k` of an object, if that value is a string
/// (`v.get(k).and_then(Value::as_str)`).
pub open spec fn json_str_field(j: Json, k: Seq<char>) -> Option<Seq<char>> {
    match json_get(j, k) {
        Some(Json::Str(s)) => Some(s),
        _ => None,
    }
}

pub proof fn lemma_key_pos(es: Seq<(Seq<char>, Json)>, k: Seq<char>)
    ensures
        0 <= key_pos(es, k) <= es.len(),
        key_pos(es, k) < es.len() ==> es[key_pos(es, k)].0 == k,
        forall|j: int| 0 <= j < key_pos(es, k) ==> es[j].0 != k,
    decreases es.len(),
{
    if es.len() > 0 && es[0].0 != k {
        lemma_key_pos(es.drop_first(), k);
        assert forall|j: int| 0 <= j < key_pos(es, k) implies es[j].0 != k by {
            if j > 0 {
                assert(es[j] == es.drop_first()[j - 1]);
            }
        }
    }
}

pub proof fn lemma_key_pos_unique(es: Seq<(Seq<char>, Json)>, k: Seq<char>, p: int)
    requires
        0 <= p <= es.len(),
        p < es.len() ==> es[p].0 == k,
        forall|j: int| 0 <= j < p ==> es[j].0 != k,
    ensures
        key_pos(es, k) == p,
{
    lemma_key_pos(es, k);
}

impl JsonValue {
    /// A JSON string.
    pub fn string(s: &str) -> (r: JsonValue)
        ensures
            r@ == Json::Str(s@),
    {
        JsonValue::Str(owned(s))
    }

    /// A JSON integer.
    pub fn integer(i: i64) -> (r: JsonValue)
        ensures
            r@ == json_int(i as int),
    {
        JsonValue::Number(int_to_text(i as i128))
    }

    /// A JSON integer from an unsigned number.
    pub fn uint(u: u64) -> (r: JsonValue)
        ensures
            r@ == json_int(u as int),
    {
        JsonValue::Number(int_to_text(u as i128))
    }

    /// A JSON string or `null`.
    pub fn opt_string(s: &Option<String>) -> (r: JsonValue)
        ensures
            r@ == (match s {
                Some(t) => Json::Str(t@),
                None => Json::Null,
            }),
    {
        match s {
            Some(t) => JsonValue::string(t.as_str()),
            None => JsonValue::Null,
        }
    }

    /// An array of strings.
    pub fn strings(v: &[&str]) -> (r: JsonValue)
        ensures
            r@ == Json::Array(v@.map_values(|s: &str| Json::Str(s@))),
    {
        let mut out: Vec<JsonValue> = Vec::new();
        let mut i: usize = 0;
        while i < v.len()
            invariant
                i <= v@.len(),
                out@.len() == i,
                forall|j: int| 0 <= j < i ==> out@[j]@ == Json::Str(v@[j]@),
            decreases v.len() - i,
        {
            out.push(JsonValue::string(v[i]));
            i += 1;
        }
        let r = JsonValue::Array(out);
        assert(r@ =~= Json::Array(v@.map_values(|s: &str| Json::Str(s@)))) by {
            if let Json::Array(a) = r@ {
                assert(a =~= v@.map_values(|s: &str| Json::Str(s@)));
            }
        }
        r
    }

    /// An array of owned strings.
    pub fn owned_strings(v: &Vec<String>) -> (r: JsonValue)
        ensures
            r@ == Json::Array(v@.map_values(|s: String| Json::Str(s@))),
    {
        let mut out: Vec<JsonValue> = Vec::new();
        let mut i: usize = 0;
        while i < v.len()
            invariant
                i <= v@.len(),
                out@.len() == i,
                forall|j: int| 0 <= j < i ==> out@[j]@ == Json::Str(v@[j]@),
            decreases v.len() - i,
        {
            out.push(JsonValue::string(v[i].as_str()));
            i += 1;
        }
        let r = JsonValue::Array(out);
        assert(r@ =~= Json::Array(v@.map_values(|s: String| Json::Str(s@)))) by {
            if let Json::Array(a) = r@ {
                assert(a =~= v@.map_values(|s: String| Json::Str(s@)));
            }
        }
        r
    }

    /// An object with the given entries.
    pub fn object(entries: Vec<(String, JsonValue)>) -> (r: JsonValue)
        ensures
            r@ == Json::Object(entries_view(entries@)),
    {
        let ghost es = entries@;
        let r = JsonValue::Object(entries);
        assert(r@ =~= Json::Object(entries_view(es))) by {
            if let Json::Object(o) = r@ {
                assert(o =~= entries_view(es));
            }
        }
        r
    }

    /// An array with the given items.
    pub fn array(items: Vec<JsonValue>) -> (r: JsonValue)
        ensures
            r@ == Json::Array(items@.map_values(|j: JsonValue| j@)),
    {
        let ghost is = items@;
        let r = JsonValue::Array(items);
        assert(r@ =~= Json::Array(is.map_values(|j: JsonValue| j@))) by {
            if let Json::Array(o) = r@ {
                assert(o =~= is.map_values(|j: JsonValue| j@));
            }
        }
        r
    }

    /// A copy of this value.
    #[verifier::loop_isolation(false)]
    pub fn deep_clone(&self) -> (r: JsonValue)
        ensures
            r@ == self@,
        decreases self,
    {
        match self {
            JsonValue::Null => JsonValue::Null,
            JsonValue::Bool(b) => JsonValue::Bool(*b),
            JsonValue::Number(n) => JsonValue::Number(n.clone()),
            JsonValue::Str(s) => JsonValue::Str(s.clone()),
            JsonValue::Array(v) => {
                let mut out: Vec<JsonValue> = Vec::new();
                let mut i: usize = 0;
                while i < v.len()
                    invariant
                        i <= v@.len(),
                        out@.len() == i,
                        forall|j: int| 0 <= j < i ==> out@[j]@ == v@[j]@,
                    decreases v.len() - i,
                {
                    assert(decreases_to!(*self => *v));
                    assert(decreases_to!(*v => v@));
                    assert(decreases_to!(v@ => v@[i as int]));
                    out.push(v[i].deep_clone());
                    i += 1;
                }
                let r = JsonValue::Array(out);
                assert(r@ =~= self@) by {
                    if let Json::Array(a) = r@ {
                        if let Json::Array(b) = self@ {
                            assert(a =~= b);
                        }
                    }
                }
                r
            },
            JsonValue::Object(v) => {
                let mut out: Vec<(String, JsonValue)> = Vec::new();
                let mut i: usize = 0;
                while i < v.len()
                    invariant
                        i <= v@.len(),
                        out@.len() == i,
                        forall|j: int| 0 <= j < i ==> out@[j].0@ == v@[j].0@ && out@[j].1@ == v@[j].1@,
                    decreases v.len() - i,
                {
                    assert(decreases_to!(*self => *v));
                    assert(decreases_to!(*v => v@));
                    assert(decreases_to!(v@ => v@[i as int]));
                    assert(decreases_to!(v@[i as int] => v@[i as int].1));
                    let k = v[i].0.clone();
                    let c = v[i].1.deep_clone();
                    out.push((k, c));
                    i += 1;
                }
                let r = JsonValue::Object(out);
                assert(r@ =~= self@) by {
                    if let Json::Object(a) = r@ {
                        if let Json::Object(b) = self@ {
                            assert(a =~= b);
                        }
                    }
                }
                r
            },
        }
    }

    /// The value under key `k`, when this is an object (`Value::get`).
    pub fn get(&self, k: &str) -> (r: Option<&JsonValue>)
        ensures
            match r {
                Some(v) => json_get(self@, k@) == Some(v@),
                None => json_get(self@, k@) is None,
            },
    {
        match self {
            JsonValue::Object(v) => {
                let ghost es = entries_view(v@);
                assert(self@ == Json::Object(es)) by {
                    if let Json::Object(o) = self@ {
                        assert(o =~= es);
                    }
                }
                let mut i: usize = 0;
                while i < v.len()
                    invariant
                        i <= v@.len(),
                        es == entries_view(v@),
                        self@ == Json::Object(es),
                        forall|j: int| 0 <= j < i ==> es[j].0 != k@,
                    decreases v.len() - i,
                {
                    if str_eq(v[i].0.as_str(), k) {
                        proof {
                            lemma_key_pos_unique(es, k@, i as int);
                            assert(es[i as int].1 == v@[i as int].1@);
                        }
                        return Some(&v[i].1);
                    }
                    i += 1;
                }
                proof {
                    lemma_key_pos_unique(es, k@, i as int);
                }
                None
            },
            _ => None,
        }
    }

    /// The string under key `k`, when this is an object holding a string
    /// there (`self.get(k).and_then(Value::as_str)`).
    pub fn get_str(&self, k: &str) -> (r: Option<String>)
        ensures
            opt_str(r) == json_str_field(self@, k@),
    {
        match self {
            JsonValue::Object(v) => {
                let ghost es = entries_view(v@);
                assert(self@ == Json::Object(es)) by {
                    if let Json::Object(o) = self@ {
                        assert(o =~= es);
                    }
                }
                let mut i: usize = 0;
                while i < v.len()
                    invariant
                        i <= v@.len(),
                        es == entries_view(v@),
                        self@ == Json::Object(es),
                        forall|j: int| 0 <= j < i ==> es[j].0 != k@,
                    decreases v.len() - i,
                {
                    if str_eq(v[i].0.as_str(), k) {
                        proof {
                            lemma_key_pos_unique(es, k@, i as int);
                            assert(es[i as int].1 == v@[i as int].1@);
                        }
                        return match &v[i].1 {
                            JsonValue::Str(s) => Some(s.clone()),
                            _ => None,
                        };
                    }
                    i += 1;
                }
                proof {
                    lemma_key_pos_unique(es, k@, i as int);
                }
                None
            },
            _ => None,
        }
    }
}

/// An object entry holding a string.
pub fn entry_str(k: &str, v: &str) -> (r: (String, JsonValue))
    ensures
        r.0@ == k@,
        r.1@ == Json::Str(v@),
{
    (owned(k), JsonValue::string(v))
}

/// An object entry holding an integer.
pub fn entry_int(k: &str, v: i64) -> (r: (String, JsonValue))
    ensures
        r.0@ == k@,
        r.1@ == json_int(v as int),
{
    (owned(k), JsonValue::integer(v))
}

/// An object entry holding a boolean.
pub fn entry_bool(k: &str, v: bool) -> (r: (String, JsonValue))
    ensures
        r.0@ == k@,
        r.1@ == Json::Bool(v),
{
    (owned(k), JsonValue::Bool(v))
}

/// An object entry holding a value.
pub fn entry(k: &str, v: JsonValue) -> (r: (String, JsonValue))
    ensures
        r.0@ == k@,
        r.1@ == v@,
{
    (owned(k), v)
}

/// `serde_json`'s JSON value.
#[verifier::external_type_specification]
#[verifier::external_body]
pub struct ExSerdeValue(serde_json::Value);

/// The compact JSON text `serde_json` writes for a value
/// (`serde_json::Value::to_string`; object keys in `serde_json`'s map order).
pub uninterp spec fn compact_json_text(j: Json) -> Seq<char>;

/// The value as a `serde_json::Value`, one for one: a number text becomes
/// a `serde_json` number (a string when `serde_json` does not read it as a
/// number). Nothing is stated of the result.
#[verifier::external_body]
fn serde_value(v: &JsonValue) -> serde_json::Value {
    match v {
        JsonValue::Null => serde_json::Value::Null,
        JsonValue::Bool(b) => serde_json::Value::Bool(*b),
        JsonValue::Number(n) => match serde_json::from_str::<serde_json::Number>(n) {
            Ok(num) => serde_json::Value::Number(num),
            Err(_) => serde_json::Value::String(n.clone()),
        },
        JsonValue::Str(t) => serde_json::Value::String(t.clone()),
        JsonValue::Array(a) => serde_json::Value::Array(a.iter().map(serde_value).collect()),
        JsonValue::Object(es) => serde_json::Value::Object(
            es.iter().map(|e| (e.0.clone(), serde_value(&e.1))).collect(),
        ),
    }
}

/// `serde_json::Value::to_string` of the value: its compact JSON text, named
/// by `compact_json_text`.
#[verifier::external_body]
pub(crate) fn json_text(v: &JsonValue) -> (r: String)
    ensures
        r@ == compact_json_text(v@),
{
    serde_value(v).to_string()
}

} // verus!
