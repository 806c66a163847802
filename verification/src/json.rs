//! JSON values: what a rule compares with, what Kick sends, and what the service answers.

use vstd::prelude::*;

use crate::text::str_eq;

verus! {

/// A JSON value. Of the numbers only those are told apart that an `i64` holds.
#[derive(Debug)]
pub enum Json {
    Null,
    Bool(bool),
    Int(i64),
    /// A number that no `i64` holds: a fraction, or one out of range.
    Number,
    Str(String),
    Array(Vec<Json>),
    /// The members, each under its name.
    Object(Vec<(String, Json)>),
}

/// What a JSON value is.
pub enum JsonView {
    Null,
    Bool(bool),
    Int(i64),
    Number,
    Str(Seq<char>),
    Array(Seq<JsonView>),
    Object(Seq<(Seq<char>, JsonView)>),
}

impl Json {
    /// What this value is.
    pub open spec fn model(self) -> JsonView
        decreases self,
    {
        match self {
            Json::Null => JsonView::Null,
            Json::Bool(b) => JsonView::Bool(b),
            Json::Int(n) => JsonView::Int(n),
            Json::Number => JsonView::Number,
            Json::Str(s) => JsonView::Str(s@),
            Json::Array(a) => JsonView::Array(
                Seq::new(
                    a@.len(),
                    |i: int|
                        if 0 <= i < a@.len() {
                            a@[i].model()
                        } else {
                            JsonView::Null
                        },
                ),
            ),
            Json::Object(o) => JsonView::Object(
                Seq::new(
                    o@.len(),
                    |i: int|
                        if 0 <= i < o@.len() {
                            (o@[i].0@, o@[i].1.model())
                        } else {
                            (seq![], JsonView::Null)
                        },
                ),
            ),
        }
    }
}

impl View for Json {
    type V = JsonView;

    open spec fn view(&self) -> JsonView {
        self.model()
    }
}

/// The member named `key`, the first where there are several.
pub open spec fn member(members: Seq<(Seq<char>, JsonView)>, key: Seq<char>) -> Option<JsonView>
    decreases members.len(),
{
    if members.len() == 0 {
        None
    } else if members[0].0 == key {
        Some(members[0].1)
    } else {
        member(members.skip(1), key)
    }
}

impl JsonView {
    /// The member named `key` of an object.
    pub open spec fn get(self, key: Seq<char>) -> Option<JsonView> {
        match self {
            JsonView::Object(m) => member(m, key),
            _ => None,
        }
    }

    /// The text of a string.
    pub open spec fn str(self) -> Option<Seq<char>> {
        match self {
            JsonView::Str(s) => Some(s),
            _ => None,
        }
    }

    /// The number that an `i64` holds.
    pub open spec fn i64(self) -> Option<i64> {
        match self {
            JsonView::Int(n) => Some(n),
            _ => None,
        }
    }

    /// The truth value.
    pub open spec fn bool(self) -> Option<bool> {
        match self {
            JsonView::Bool(b) => Some(b),
            _ => None,
        }
    }

    /// The elements of an array.
    pub open spec fn array(self) -> Option<Seq<JsonView>> {
        match self {
            JsonView::Array(a) => Some(a),
            _ => None,
        }
    }

    /// The text of the member named `key`.
    pub open spec fn str_at(self, key: Seq<char>) -> Option<Seq<char>> {
        match self.get(key) {
            Some(v) => v.str(),
            None => None,
        }
    }

    /// The number at the member named `key`.
    pub open spec fn i64_at(self, key: Seq<char>) -> Option<i64> {
        match self.get(key) {
            Some(v) => v.i64(),
            None => None,
        }
    }

    /// The truth value at the member named `key`.
    pub open spec fn bool_at(self, key: Seq<char>) -> Option<bool> {
        match self.get(key) {
            Some(v) => v.bool(),
            None => None,
        }
    }

    /// The elements of the array at the member named `key`.
    pub open spec fn array_at(self, key: Seq<char>) -> Option<Seq<JsonView>> {
        match self.get(key) {
            Some(v) => v.array(),
            None => None,
        }
    }
}

/// What each value of a list is.
pub open spec fn jsons(list: Seq<Json>) -> Seq<JsonView> {
    list.map_values(|v: Json| v@)
}

/// The text that a borrowed string holds, where there is one.
pub open spec fn text_opt(s: Option<&str>) -> Option<Seq<char>> {
    match s {
        Some(t) => Some(t@),
        None => None,
    }
}

/// The text that a string holds, where there is one.
pub open spec fn string_opt(s: Option<String>) -> Option<Seq<char>> {
    match s {
        Some(t) => Some(t@),
        None => None,
    }
}

impl Json {
    /// The member named `key` of an object.
    pub fn get(&self, key: &str) -> (r: Option<&Json>)
        ensures
            match r {
                Some(v) => self@.get(key@) == Some(v@),
                None => self@.get(key@) is None,
            },
    {
        match self {
            Json::Object(members) => {
                let ghost all = self@->Object_0;
                let mut i: usize = 0;
                assert(all.skip(0) =~= all);
                while i < members.len()
                    invariant
                        i <= members.len(),
                        self@ == JsonView::Object(all),
                        all.len() == members.len(),
                        forall|j: int|
                            0 <= j < members.len() ==> #[trigger] all[j] == (
                                members@[j].0@,
                                members@[j].1@,
                            ),
                        member(all, key@) == member(all.skip(i as int), key@),
                    decreases members.len() - i,
                {
                    assert(all.skip(i as int)[0] == all[i as int]);
                    if str_eq(members[i].0.as_str(), key) {
                        return Some(&members[i].1);
                    }
                    assert(all.skip(i as int).skip(1) =~= all.skip(i + 1));
                    i = i + 1;
                }
                None
            },
            _ => None,
        }
    }

    /// The text of a string.
    pub fn as_str(&self) -> (r: Option<&str>)
        ensures
            text_opt(r) == self@.str(),
    {
        match self {
            Json::Str(s) => Some(s.as_str()),
            _ => None,
        }
    }

    /// The number that an `i64` holds.
    pub fn as_i64(&self) -> (r: Option<i64>)
        ensures
            r == self@.i64(),
    {
        match self {
            Json::Int(n) => Some(*n),
            _ => None,
        }
    }

    /// The truth value.
    pub fn as_bool(&self) -> (r: Option<bool>)
        ensures
            r == self@.bool(),
    {
        match self {
            Json::Bool(b) => Some(*b),
            _ => None,
        }
    }

    /// The elements of an array.
    pub fn as_array(&self) -> (r: Option<&Vec<Json>>)
        ensures
            match r {
                Some(a) => self@.array() == Some(jsons(a@)),
                None => self@.array() is None,
            },
    {
        match self {
            Json::Array(a) => {
                assert(self@->Array_0 =~= jsons(a@));
                Some(a)
            },
            _ => None,
        }
    }

    /// The text of the member named `key`.
    pub fn str_at(&self, key: &str) -> (r: Option<&str>)
        ensures
            text_opt(r) == self@.str_at(key@),
    {
        match self.get(key) {
            Some(v) => v.as_str(),
            None => None,
        }
    }

    /// The number at the member named `key`.
    pub fn i64_at(&self, key: &str) -> (r: Option<i64>)
        ensures
            r == self@.i64_at(key@),
    {
        match self.get(key) {
            Some(v) => v.as_i64(),
            None => None,
        }
    }

    /// The truth value at the member named `key`.
    pub fn bool_at(&self, key: &str) -> (r: Option<bool>)
        ensures
            r == self@.bool_at(key@),
    {
        match self.get(key) {
            Some(v) => v.as_bool(),
            None => None,
        }
    }

    /// The elements of the array at the member named `key`.
    pub fn array_at(&self, key: &str) -> (r: Option<&Vec<Json>>)
        ensures
            match r {
                Some(a) => self@.array_at(key@) == Some(jsons(a@)),
                None => self@.array_at(key@) is None,
            },
    {
        match self.get(key) {
            Some(v) => v.as_array(),
            None => None,
        }
    }
}

impl JsonView {
    /// The object with a member more.
    pub open spec fn with(self, key: Seq<char>, value: JsonView) -> JsonView {
        match self {
            JsonView::Object(m) => JsonView::Object(m.push((key, value))),
            _ => self,
        }
    }

    /// The array with an element more.
    pub open spec fn and(self, value: JsonView) -> JsonView {
        match self {
            JsonView::Array(a) => JsonView::Array(a.push(value)),
            _ => self,
        }
    }
}

/// The empty object.
pub open spec fn object_view() -> JsonView {
    JsonView::Object(seq![])
}

/// The empty array.
pub open spec fn array_view() -> JsonView {
    JsonView::Array(seq![])
}

/// A string, or null.
pub open spec fn text_or_null(s: Option<Seq<char>>) -> JsonView {
    match s {
        Some(t) => JsonView::Str(t),
        None => JsonView::Null,
    }
}

impl Json {
    /// The empty object.
    pub fn object() -> (r: Json)
        ensures
            r@ == object_view(),
    {
        let r = Json::Object(Vec::new());
        assert(r@->Object_0 =~= seq![]);
        r
    }

    /// The empty array.
    pub fn list() -> (r: Json)
        ensures
            r@ == array_view(),
    {
        let r = Json::Array(Vec::new());
        assert(r@->Array_0 =~= seq![]);
        r
    }

    /// The string.
    pub fn text(s: &str) -> (r: Json)
        ensures
            r@ == JsonView::Str(s@),
    {
        Json::Str(s.to_owned())
    }

    /// The string, or null.
    pub fn text_or_null(s: &Option<String>) -> (r: Json)
        ensures
            r@ == text_or_null(string_opt(*s)),
    {
        match s {
            Some(t) => Json::text(t.as_str()),
            None => Json::Null,
        }
    }

    /// The object with a member more.
    pub fn with(self, key: &str, value: Json) -> (r: Json)
        ensures
            r@ == self@.with(key@, value@),
    {
        let ghost before = self@;
        match self {
            Json::Object(mut o) => {
                o.push((key.to_owned(), value));
                let r = Json::Object(o);
                assert(r@->Object_0 =~= before->Object_0.push((key@, value@)));
                r
            },
            other => other,
        }
    }

    /// The array with an element more.
    pub fn and(self, value: Json) -> (r: Json)
        ensures
            r@ == self@.and(value@),
    {
        let ghost before = self@;
        match self {
            Json::Array(mut a) => {
                a.push(value);
                let r = Json::Array(a);
                assert(r@->Array_0 =~= before->Array_0.push(value@));
                r
            },
            other => other,
        }
    }
}

/// The JSON values of `serde_json`.
#[verifier::external_type_specification]
#[verifier::external_body]
pub struct ExSerdeValue(serde_json::Value);

/// What a value of `serde_json` holds.
pub uninterp spec fn content(v: serde_json::Value) -> JsonView;

/// The JSON value that a text writes, or the message that says why it writes none.
pub uninterp spec fn json_text(text: Seq<char>) -> Result<JsonView, Seq<char>>;

/// The JSON value that bytes write, or the message that says why they write none.
pub uninterp spec fn json_bytes(bytes: Seq<u8>) -> Result<JsonView, Seq<char>>;

/// `serde_json::Value`, variant by variant: the value that holds the same. A number becomes what
/// `serde_json::Number::as_i64` gives of it; the members of an object keep their order.
#[verifier::external_body]
fn from_serde(v: serde_json::Value) -> (r: Json)
    ensures
        r@ == content(v),
{
    match v {
        serde_json::Value::Null => Json::Null,
        serde_json::Value::Bool(b) => Json::Bool(b),
        serde_json::Value::Number(n) => n.as_i64().map_or(Json::Number, Json::Int),
        serde_json::Value::String(s) => Json::Str(s),
        serde_json::Value::Array(a) => Json::Array(a.into_iter().map(from_serde).collect()),
        serde_json::Value::Object(o) => {
            Json::Object(o.into_iter().map(|(k, x)| (k, from_serde(x))).collect())
        },
    }
}

/// `serde_json::from_str`: the value that `text` writes, or the error's message.
#[verifier::external_body]
fn read_text(text: &str) -> (r: Result<serde_json::Value, String>)
    ensures
        match r {
            Ok(v) => json_text(text@) == Ok::<JsonView, Seq<char>>(content(v)),
            Err(e) => json_text(text@) == Err::<JsonView, Seq<char>>(e@),
        },
{
    serde_json::from_str(text).map_err(|e| e.to_string())
}

/// `serde_json::from_slice`: the value that `bytes` write, or the error's message.
#[verifier::external_body]
fn read_bytes(bytes: &[u8]) -> (r: Result<serde_json::Value, String>)
    ensures
        match r {
            Ok(v) => json_bytes(bytes@) == Ok::<JsonView, Seq<char>>(content(v)),
            Err(e) => json_bytes(bytes@) == Err::<JsonView, Seq<char>>(e@),
        },
{
    serde_json::from_slice(bytes).map_err(|e| e.to_string())
}

/// What a reading gave: the value, or the message.
pub open spec fn reading(r: Result<Json, String>) -> Result<JsonView, Seq<char>> {
    match r {
        Ok(v) => Ok(v@),
        Err(e) => Err(e@),
    }
}

/// The JSON value that `text` writes.
pub fn parse_text(text: &str) -> (r: Result<Json, String>)
    ensures
        reading(r) == json_text(text@),
{
    match read_text(text) {
        Ok(v) => Ok(from_serde(v)),
        Err(e) => Err(e),
    }
}

/// The JSON value that `bytes` write.
pub fn parse_bytes(bytes: &[u8]) -> (r: Result<Json, String>)
    ensures
        reading(r) == json_bytes(bytes@),
{
    match read_bytes(bytes) {
        Ok(v) => Ok(from_serde(v)),
        Err(e) => Err(e),
    }
}

proof fn lemma_member_push(
    members: Seq<(Seq<char>, JsonView)>,
    key: Seq<char>,
    value: JsonView,
    asked: Seq<char>,
)
    ensures
        member(members.push((key, value)), asked) == (if member(members, asked) is Some {
            member(members, asked)
        } else if key == asked {
            Some(value)
        } else {
            None
        }),
    decreases members.len(),
{
    let more = members.push((key, value));
    if members.len() == 0 {
        assert(member(more.skip(1), asked) is None);
    } else {
        lemma_member_push(members.skip(1), key, value, asked);
        assert(more.skip(1) =~= members.skip(1).push((key, value)));
    }
}

/// An object with a member more has what it had, and the new member under its name where it had
/// none of that name.
pub proof fn law_an_added_member_is_found(v: JsonView, key: Seq<char>, value: JsonView, asked: Seq<char>)
    requires
        v is Object,
    ensures
        v.with(key, value).get(asked) == (if v.get(asked) is Some {
            v.get(asked)
        } else if key == asked {
            Some(value)
        } else {
            None
        }),
        object_view().get(asked) is None,
{
    lemma_member_push(v->Object_0, key, value, asked);
}

} // verus!
