//! JSON documents as a tree of plain values, with the lookups that the payload
//! shapes are recognised by and the compact text form that is sent out.

use vstd::prelude::*;
use vstd::string::*;
use crate::text::str_eq;

verus! {

/// A JSON value as mathematics: the model that every contract on JSON speaks
/// of. A number is its decimal text; an object is the sequence of its
/// members, each a key and a value.
pub enum Json {
    Null,
    Bool(bool),
    Number(Seq<char>),
    Text(Seq<char>),
    Array(Seq<Json>),
    Object(Seq<(Seq<char>, Json)>),
}

/// One JSON value. A number is held as its decimal text.
#[derive(Debug, PartialEq, Eq)]
pub enum JsonValue {
    Null,
    Bool(bool),
    Number(String),
    Text(String),
    Array(Vec<JsonValue>),
    Object(Vec<Member>),
}

/// One `key: value` pair of a JSON object.
#[derive(Debug, PartialEq, Eq)]
pub struct Member {
    pub key: String,
    pub value: JsonValue,
}

/// The models of the values of `items`, in order.
pub open spec fn items_view(items: Seq<JsonValue>) -> Seq<Json>
    decreases items,
{
    Seq::new(
        items.len(),
        |i: int|
            if 0 <= i < items.len() {
                items[i]@
            } else {
                Json::Null
            },
    )
}

/// The models of the members of `fields`, in order.
pub open spec fn members_view(fields: Seq<Member>) -> Seq<(Seq<char>, Json)>
    decreases fields,
{
    Seq::new(
        fields.len(),
        |i: int|
            if 0 <= i < fields.len() {
                (fields[i].key@, fields[i].value@)
            } else {
                (Seq::empty(), Json::Null)
            },
    )
}

impl View for JsonValue {
    type V = Json;

    open spec fn view(&self) -> Json
        decreases self,
    {
        match self {
            JsonValue::Null => Json::Null,
            JsonValue::Bool(b) => Json::Bool(*b),
            JsonValue::Number(n) => Json::Number(n@),
            JsonValue::Text(s) => Json::Text(s@),
            JsonValue::Array(items) => Json::Array(items_view(items@)),
            JsonValue::Object(fields) => Json::Object(members_view(fields@)),
        }
    }
}

/// The outside JSON crate's value tree, as its parser hands it out.
#[verifier::external_type_specification]
#[verifier::external_body]
pub struct ExValue(serde_json::Value);

/// The outside JSON crate's error.
#[verifier::external_type_specification]
#[verifier::external_body]
pub struct ExError(serde_json::Error);

/// The value that the text `text` parses to as one JSON document; `None` where
/// it is not one.
pub uninterp spec fn json_document(text: Seq<char>) -> Option<Json>;

/// The JSON string literal for characters of which at least one has to be
/// escaped: the quoted and escaped form.
pub uninterp spec fn escaped_literal(s: Seq<char>) -> Seq<char>;

/// Whether a character stands for itself in a JSON string literal: it is not
/// below U+0020, no quotation mark and no backslash.
pub open spec fn stands_for_itself(c: char) -> bool {
    c as u32 >= 0x20 && c != '"' && c != '\\'
}

/// Whether every character of `s` stands for itself in a JSON string literal.
pub open spec fn is_plain(s: Seq<char>) -> bool {
    forall|i: int| 0 <= i < s.len() ==> stands_for_itself(#[trigger] s[i])
}

/// The JSON string literal for the characters `s`: the characters between
/// quotation marks where each stands for itself, and the quoted and escaped
/// form where one does not.
pub open spec fn json_string_literal(s: Seq<char>) -> Seq<char> {
    if is_plain(s) {
        seq!['"'] + s + seq!['"']
    } else {
        escaped_literal(s)
    }
}

/// Moves a tree of `serde_json::Value` into a `JsonValue`, variant by variant;
/// a number becomes the text that `serde_json::Number` displays as, and an
/// object's members keep the order in which `serde_json::Map` hands them out.
/// Nothing is claimed of the result here.
#[verifier::external_body]
fn from_value(v: serde_json::Value) -> JsonValue {
    match v {
        serde_json::Value::Null => JsonValue::Null,
        serde_json::Value::Bool(b) => JsonValue::Bool(b),
        serde_json::Value::Number(n) => JsonValue::Number(n.to_string()),
        serde_json::Value::String(s) => JsonValue::Text(s),
        serde_json::Value::Array(a) => JsonValue::Array(a.into_iter().map(from_value).collect()),
        serde_json::Value::Object(m) => JsonValue::Object(
            m.into_iter().map(|(key, value)| Member { key, value: from_value(value) }).collect(),
        ),
    }
}

/// `serde_json::from_str` at the type `serde_json::Value`. The outcome depends
/// on the text alone: the contract gives it the name `json_document` and
/// claims nothing else of it.
#[verifier::external_body]
fn parse_value(text: &str) -> (parsed: Result<JsonValue, serde_json::Error>)
    ensures
        parsed matches Ok(v) ==> json_document(text@) == Some(v@),
        parsed is Err ==> json_document(text@) is None,
{
    let v: serde_json::Value = serde_json::from_str(text)?;
    Ok(from_value(v))
}

/// `serde_json::to_string` on a string slice. It writes into memory, and
/// serialising a string raises no error of its own, so the call succeeds. The
/// text that comes back depends on the characters alone. It escapes the
/// characters below U+0020, the quotation mark and the backslash and nothing
/// else: where the string holds none of these, the text is the string between
/// quotation marks; where it holds one, the text is named `escaped_literal`.
#[verifier::external_body]
fn quote(s: &str) -> (quoted: Result<String, serde_json::Error>)
    ensures
        quoted is Ok,
        is_plain(s@) ==> quoted->Ok_0@ == seq!['"'] + s@ + seq!['"'],
        !is_plain(s@) ==> quoted->Ok_0@ == escaped_literal(s@),
{
    serde_json::to_string(s)
}

/// A comma before every item but the first.
pub open spec fn separator(index: int) -> Seq<char> {
    if index > 0 {
        ","@
    } else {
        Seq::empty()
    }
}

/// The compact text of the first `n` values of `items`, separated by commas.
pub open spec fn rendered_items(items: Seq<Json>, n: nat) -> Seq<char>
    decreases items, n,
{
    if n == 0 || n > items.len() {
        Seq::empty()
    } else {
        rendered_items(items, (n - 1) as nat) + separator(n - 1) + rendered(items[n - 1])
    }
}

/// The compact text of the first `n` members of `fields`, separated by commas.
pub open spec fn rendered_members(fields: Seq<(Seq<char>, Json)>, n: nat) -> Seq<char>
    decreases fields, n,
{
    if n == 0 || n > fields.len() {
        Seq::empty()
    } else {
        rendered_members(fields, (n - 1) as nat) + separator(n - 1) + json_string_literal(
            fields[n - 1].0,
        ) + ":"@ + rendered(fields[n - 1].1)
    }
}

/// The compact JSON text of a value: no white space, members and items in
/// the order in which the value holds them.
pub open spec fn rendered(v: Json) -> Seq<char>
    decreases v,
{
    match v {
        Json::Null => "null"@,
        Json::Bool(b) => if b {
            "true"@
        } else {
            "false"@
        },
        Json::Number(n) => n,
        Json::Text(s) => json_string_literal(s),
        Json::Array(items) => "["@ + rendered_items(items, items.len()) + "]"@,
        Json::Object(fields) => "{"@ + rendered_members(fields, fields.len()) + "}"@,
    }
}

/// The value of the first member of `fields` whose key is `key`.
pub open spec fn lookup(fields: Seq<(Seq<char>, Json)>, key: Seq<char>) -> Option<Json>
    decreases fields.len(),
{
    if fields.len() == 0 {
        None
    } else if fields[0].0 == key {
        Some(fields[0].1)
    } else {
        lookup(fields.drop_first(), key)
    }
}

/// Whether every value of `items` is a string.
pub open spec fn all_text(items: Seq<Json>) -> bool {
    forall|i: int| 0 <= i < items.len() ==> (#[trigger] items[i]).text() is Some
}

/// The characters of each value of `items`, in order.
pub open spec fn texts_of(items: Seq<Json>) -> Seq<Seq<char>> {
    Seq::new(items.len(), |i: int| items[i].text().unwrap())
}

/// The view of each value of `list`, in order.
pub open spec fn views_of<T: View>(list: Seq<T>) -> Seq<T::V> {
    list.map_values(|t: T| t@)
}

/// A member after the members of `fields` has its model after their models.
pub proof fn lemma_members_push(fields: Seq<Member>, m: Member)
    ensures
        members_view(fields.push(m)) == members_view(fields).push((m.key@, m.value@)),
{
    assert(members_view(fields.push(m)) =~= members_view(fields).push((m.key@, m.value@)));
}

/// A value after the values of `items` has its model after their models.
pub proof fn lemma_items_push(items: Seq<JsonValue>, v: JsonValue)
    ensures
        items_view(items.push(v)) == items_view(items).push(v@),
{
    assert(items_view(items.push(v)) =~= items_view(items).push(v@));
}

/// Puts the member `key: value` behind the members of `fields`.
pub fn push_member(fields: &mut Vec<Member>, key: &str, value: JsonValue)
    ensures
        members_view(final(fields)@) == members_view(old(fields)@).push((key@, value@)),
{
    let m = Member { key: String::from_str(key), value };
    proof {
        lemma_members_push(fields@, m);
    }
    fields.push(m);
}

/// Puts the member `key` with the string `value` behind the members of
/// `fields`.
pub fn push_text(fields: &mut Vec<Member>, key: &str, value: &str)
    ensures
        members_view(final(fields)@) == members_view(old(fields)@).push(
            (key@, Json::Text(value@)),
        ),
{
    push_member(fields, key, JsonValue::Text(String::from_str(value)));
}

/// Puts the member `key` with the truth value `value` behind the members of
/// `fields`.
pub fn push_bool(fields: &mut Vec<Member>, key: &str, value: bool)
    ensures
        members_view(final(fields)@) == members_view(old(fields)@).push((key@, Json::Bool(value))),
{
    push_member(fields, key, JsonValue::Bool(value));
}

/// Puts `value` behind the values of `items`.
pub fn push_item(items: &mut Vec<JsonValue>, value: JsonValue)
    ensures
        items_view(final(items)@) == items_view(old(items)@).push(value@),
{
    proof {
        lemma_items_push(items@, value);
    }
    items.push(value);
}

impl Json {
    /// The member `key` of an object; `None` for any other value and for an
    /// object without that key.
    pub open spec fn member(self, key: Seq<char>) -> Option<Json> {
        match self {
            Json::Object(fields) => lookup(fields, key),
            _ => None,
        }
    }

    /// The characters of a string value; `None` for any other value.
    pub open spec fn text(self) -> Option<Seq<char>> {
        match self {
            Json::Text(s) => Some(s),
            _ => None,
        }
    }

    /// The string held under `key` of an object.
    pub open spec fn text_member(self, key: Seq<char>) -> Option<Seq<char>> {
        match self.member(key) {
            Some(v) => v.text(),
            None => None,
        }
    }

    /// The strings of an array that holds nothing but strings; `None` for any
    /// other value.
    pub open spec fn text_list(self) -> Option<Seq<Seq<char>>> {
        match self {
            Json::Array(items) => if all_text(items) {
                Some(texts_of(items))
            } else {
                None
            },
            _ => None,
        }
    }

    /// The list of strings held under `key` of an object.
    pub open spec fn text_list_member(self, key: Seq<char>) -> Option<Seq<Seq<char>>> {
        match self.member(key) {
            Some(v) => v.text_list(),
            None => None,
        }
    }
}

/// The JSON string literal for `s`.
pub fn string_literal(s: &str) -> (quoted: String)
    ensures
        quoted@ == json_string_literal(s@),
{
    match quote(s) {
        Ok(t) => t,
        Err(_) => String::new(),
    }
}

impl JsonValue {
    /// Parses one JSON document.
    pub fn parse(text: &str) -> (parsed: Option<JsonValue>)
        ensures
            parsed is Some <==> json_document(text@) is Some,
            parsed matches Some(v) ==> json_document(text@) == Some(v@),
    {
        match parse_value(text) {
            Ok(v) => Some(v),
            Err(_) => None,
        }
    }

    /// Writes the value as compact JSON text.
    pub fn to_text(&self) -> (out: String)
        ensures
            out@ == rendered(self@),
        decreases *self,
    {
        match self {
            JsonValue::Null => String::from_str("null"),
            JsonValue::Bool(b) => if *b {
                String::from_str("true")
            } else {
                String::from_str("false")
            },
            JsonValue::Number(n) => n.clone(),
            JsonValue::Text(s) => string_literal(s.as_str()),
            JsonValue::Array(items) => {
                let mut out = String::from_str("[");
                let mut i: usize = 0;
                while i < items.len()
                    invariant
                        i <= items.len(),
                        out@ == "["@ + rendered_items(items_view(items@), i as nat),
                        decreases_to!(*self => *items),
                    decreases items.len() - i,
                {
                    if i > 0 {
                        out.append(",");
                    }
                    let item = items[i].to_text();
                    out.append(item.as_str());
                    i = i + 1;
                }
                out.append("]");
                out
            },
            JsonValue::Object(fields) => {
                let mut out = String::from_str("{");
                let mut i: usize = 0;
                while i < fields.len()
                    invariant
                        i <= fields.len(),
                        out@ == "{"@ + rendered_members(members_view(fields@), i as nat),
                        decreases_to!(*self => *fields),
                    decreases fields.len() - i,
                {
                    if i > 0 {
                        out.append(",");
                    }
                    let key = string_literal(fields[i].key.as_str());
                    out.append(key.as_str());
                    out.append(":");
                    let value = fields[i].value.to_text();
                    out.append(value.as_str());
                    i = i + 1;
                }
                out.append("}");
                out
            },
        }
    }

    /// Looks up the member `key` of an object.
    pub fn get(&self, key: &str) -> (found: Option<&JsonValue>)
        ensures
            found is Some <==> self@.member(key@) is Some,
            found matches Some(v) ==> self@.member(key@) == Some(v@),
    {
        match self {
            JsonValue::Object(fields) => {
                let mut i: usize = 0;
                assert(members_view(fields@).skip(0) =~= members_view(fields@));
                while i < fields.len()
                    invariant
                        i <= fields.len(),
                        self@.member(key@) == lookup(members_view(fields@).skip(i as int), key@),
                    decreases fields.len() - i,
                {
                    let ghost rest = members_view(fields@).skip(i as int);
                    assert(rest.drop_first() =~= members_view(fields@).skip(i as int + 1));
                    assert(rest[0] == (fields@[i as int].key@, fields@[i as int].value@));
                    if str_eq(fields[i].key.as_str(), key) {
                        return Some(&fields[i].value);
                    }
                    i = i + 1;
                }
                None
            },
            _ => None,
        }
    }

    /// The string slice of a string value.
    pub fn as_text(&self) -> (found: Option<&str>)
        ensures
            found is Some <==> self@.text() is Some,
            found matches Some(s) ==> self@.text() == Some(s@),
    {
        match self {
            JsonValue::Text(s) => Some(s.as_str()),
            _ => None,
        }
    }

    /// Looks up the string held under `key` of an object.
    pub fn get_text(&self, key: &str) -> (found: Option<&str>)
        ensures
            found is Some <==> self@.text_member(key@) is Some,
            found matches Some(s) ==> self@.text_member(key@) == Some(s@),
    {
        match self.get(key) {
            Some(v) => v.as_text(),
            None => None,
        }
    }

    /// The strings of an array of strings.
    pub fn as_text_list(&self) -> (found: Option<Vec<String>>)
        ensures
            found is Some <==> self@.text_list() is Some,
            found matches Some(list) ==> Some(views_of(list@)) == self@.text_list(),
    {
        match self {
            JsonValue::Array(items) => {
                let mut list: Vec<String> = Vec::new();
                let mut i: usize = 0;
                while i < items.len()
                    invariant
                        i <= items.len(),
                        list@.len() == i,
                        self@ == Json::Array(items_view(items@)),
                        forall|j: int|
                            0 <= j < i ==> (#[trigger] items_view(items@)[j]).text() == Some(
                                list@[j]@,
                            ),
                    decreases items.len() - i,
                {
                    match items[i].as_text() {
                        Some(s) => {
                            list.push(String::from_str(s));
                        },
                        None => {
                            assert(items_view(items@)[i as int].text() is None);
                            return None;
                        },
                    }
                    i = i + 1;
                }
                assert(views_of(list@) =~= texts_of(items_view(items@)));
                Some(list)
            },
            _ => None,
        }
    }

    /// Looks up the list of strings held under `key` of an object.
    pub fn get_text_list(&self, key: &str) -> (found: Option<Vec<String>>)
        ensures
            found is Some <==> self@.text_list_member(key@) is Some,
            found matches Some(list) ==> Some(views_of(list@)) == self@.text_list_member(key@),
    {
        match self.get(key) {
            Some(v) => v.as_text_list(),
            None => None,
        }
    }
}

} // verus!
