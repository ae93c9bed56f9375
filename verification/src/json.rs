//! JSON documents, as `serde_json` holds them.
//!
//! A `serde_json::Value` is opaque to the verifier. What it holds is given by
//! [`json_of`], as a [`Json`] tree, and every function of `serde_json` that
//! the crate calls is stated over that tree. None of those statements is
//! proved here: each is marked as trusted, with the function it stands for.
//!
//! `serde_json` is used with its default features: an object keeps its
//! members by name, and writes them in the order of their names. The order
//! in which members were added is therefore no part of a document.

use serde_json::Value;
use vstd::prelude::*;

verus! {

/// A JSON number: an integer, or a binary64 number given by its bit pattern.
pub enum JsonNumber {
    Integer(int),
    Float(u64),
}

/// The content of a JSON document.
pub enum Json {
    Null,
    Bool(bool),
    Number(JsonNumber),
    Text(Seq<char>),
    Array(Seq<Json>),
    /// The members of an object, by name.
    Object(Map<Seq<char>, Json>),
}

impl Json {
    /// Whether this is an object with a member called `name`.
    pub open spec fn has_field(self, name: Seq<char>) -> bool {
        self is Object && self->Object_0.contains_key(name)
    }

    /// The member called `name` of an object that has one.
    pub open spec fn field(self, name: Seq<char>) -> Json
        recommends
            self.has_field(name),
    {
        self->Object_0[name]
    }

    /// Whether this is an object whose member `name` is a string.
    pub open spec fn has_text_field(self, name: Seq<char>) -> bool {
        self.has_field(name) && self.field(name) is Text
    }

    /// The string held by the member `name`.
    pub open spec fn text_field(self, name: Seq<char>) -> Seq<char>
        recommends
            self.has_text_field(name),
    {
        self.field(name)->Text_0
    }
}

/// Trusted: `serde_json::Value`, carried through without looking inside.
#[verifier::external_type_specification]
#[verifier::external_body]
pub struct ExValue(serde_json::Value);

/// Trusted: `serde_json::Error`, carried through without looking inside.
#[verifier::external_type_specification]
#[verifier::external_body]
pub struct ExJsonError(serde_json::Error);

/// Trusted name: the document that a `serde_json::Value` holds.
pub uninterp spec fn json_of(v: Value) -> Json;

/// Trusted name: the document that `serde_json::from_slice` reads from a
/// text, or `None` where it rejects the text.
pub uninterp spec fn parsed_json(text: Seq<u8>) -> Option<Json>;

/// Trusted name: the text that `serde_json::to_vec` writes for a document, or
/// `None` where it fails.
pub uninterp spec fn json_text(doc: Json) -> Option<Seq<u8>>;

/// The documents held by a sequence of values, in order.
pub open spec fn json_seq(values: Seq<Value>) -> Seq<Json> {
    values.map_values(|v: Value| json_of(v))
}

/// The object that a list of members with distinct names describes.
pub open spec fn members_object(members: Seq<(String, Value)>) -> Map<Seq<char>, Json>
    decreases members.len(),
{
    if members.len() == 0 {
        Map::empty()
    } else {
        members_object(members.drop_last()).insert(members.last().0@, json_of(members.last().1))
    }
}

/// Whether no name occurs twice in a list of members.
pub open spec fn distinct_names(members: Seq<(String, Value)>) -> bool {
    forall|i: int, j: int|
        0 <= i < j < members.len() ==> (#[trigger] members[i]).0@ != (#[trigger] members[j]).0@
}

/// Whether `listing` holds each member of `object` once, under its name.
pub open spec fn lists_object(listing: Seq<(&String, &Value)>, object: Map<Seq<char>, Json>) -> bool {
    &&& forall|i: int|
        0 <= i < listing.len() ==> object.contains_key((#[trigger] listing[i]).0@) && object[listing[i].0@]
            == json_of(*listing[i].1)
    &&& forall|i: int, j: int|
        0 <= i < j < listing.len() ==> (#[trigger] listing[i]).0@ != (#[trigger] listing[j]).0@
    &&& forall|name: Seq<char>| #[trigger]
        object.contains_key(name) ==> exists|i: int|
            0 <= i < listing.len() && (#[trigger] listing[i]).0@ == name
}

/// Trusted: `serde_json::from_slice` at the type `Value`. The result is a
/// function of the text alone: the value holds `parsed_json` of the text, and
/// the call fails exactly where `parsed_json` has no document.
#[verifier::external_body]
pub(crate) fn parse(text: &[u8]) -> (res: Result<Value, serde_json::Error>)
    ensures
        match res {
            Ok(v) => parsed_json(text@) == Some(json_of(v)),
            Err(_) => parsed_json(text@) is None,
        },
{
    serde_json::from_slice::<Value>(text)
}

/// Trusted: `serde_json::to_vec` on a `Value`. The bytes are a function of
/// the document alone: they are `json_text` of it, and the call fails exactly
/// where `json_text` has no text.
#[verifier::external_body]
pub(crate) fn print(v: &Value) -> (res: Result<Vec<u8>, serde_json::Error>)
    ensures
        match res {
            Ok(bytes) => json_text(json_of(*v)) == Some(bytes@),
            Err(_) => json_text(json_of(*v)) is None,
        },
{
    serde_json::to_vec(v)
}

/// Trusted: `Value::get` with a string index. It finds the member of that
/// name in an object, and nothing in any other value.
#[verifier::external_body]
pub(crate) fn get_field<'a>(v: &'a Value, name: &str) -> (res: Option<&'a Value>)
    ensures
        res is Some <==> json_of(*v).has_field(name@),
        res matches Some(member) ==> json_of(*member) == json_of(*v).field(name@),
{
    v.get(name)
}

/// Trusted: `Value::as_str`. It hands out the string of a string value, and
/// nothing for any other value.
#[verifier::external_body]
pub(crate) fn get_text<'a>(v: &'a Value) -> (res: Option<&'a str>)
    ensures
        match res {
            Some(s) => json_of(*v) == Json::Text(s@),
            None => !(json_of(*v) is Text),
        },
{
    v.as_str()
}

/// Trusted: `Value::as_array`. It hands out the elements of an array, in
/// order, and nothing for any other value.
#[verifier::external_body]
pub(crate) fn get_items<'a>(v: &'a Value) -> (res: Option<&'a Vec<Value>>)
    ensures
        match res {
            Some(items) => json_of(*v) == Json::Array(json_seq(items@)),
            None => !(json_of(*v) is Array),
        },
{
    v.as_array()
}

/// Trusted: `Value::as_object` and `Map::iter`. For an object the list holds
/// every member once, with its name; the order of the list is left open.
/// Any other value gives nothing.
#[verifier::external_body]
pub(crate) fn get_members<'a>(v: &'a Value) -> (res: Option<Vec<(&'a String, &'a Value)>>)
    ensures
        match res {
            Some(listing) => json_of(*v) is Object && lists_object(listing@, json_of(*v)->Object_0),
            None => !(json_of(*v) is Object),
        },
{
    v.as_object().map(|members| members.iter().collect())
}

/// Trusted: `Value::is_null`.
#[verifier::external_body]
pub(crate) fn is_null(v: &Value) -> (res: bool)
    ensures
        res == (json_of(*v) is Null),
{
    v.is_null()
}

/// Trusted: `Value::from` on a `String`, which makes a string value.
#[verifier::external_body]
pub(crate) fn text_value(s: String) -> (res: Value)
    ensures
        json_of(res) == Json::Text(s@),
{
    Value::from(s)
}

/// Trusted: `Value::from` on a `u32`, which makes an integer number.
#[verifier::external_body]
pub(crate) fn number_value(n: u32) -> (res: Value)
    ensures
        json_of(res) == Json::Number(JsonNumber::Integer(n as int)),
{
    Value::from(n)
}

/// Trusted: `Value::from` on a `Vec<Value>`, which makes an array of the
/// elements in their order.
#[verifier::external_body]
pub(crate) fn array_value(items: Vec<Value>) -> (res: Value)
    ensures
        json_of(res) == Json::Array(json_seq(items@)),
{
    Value::from(items)
}

/// Trusted: collecting members into a `serde_json::Map` and wrapping it with
/// `Value::from`. Names that occur twice are left out by `requires`, since the
/// map keeps one of two such members without saying which.
#[verifier::external_body]
pub(crate) fn object_value(members: Vec<(String, Value)>) -> (res: Value)
    requires
        distinct_names(members@),
    ensures
        json_of(res) == Json::Object(members_object(members@)),
{
    Value::from(members.into_iter().collect::<serde_json::Map<String, Value>>())
}

/// An object with one member more, where there is a value for it.
pub open spec fn with_member(object: Map<Seq<char>, Json>, name: Seq<char>, value: Option<Json>) -> Map<
    Seq<char>,
    Json,
> {
    match value {
        Some(doc) => object.insert(name, doc),
        None => object,
    }
}

/// The document of a value that may be absent.
pub open spec fn json_of_option(value: Option<Value>) -> Option<Json> {
    match value {
        Some(v) => Some(json_of(v)),
        None => None,
    }
}

/// The names of the object that a list of members describes are the names in the list.
pub proof fn lemma_members_object_names(members: Seq<(String, Value)>)
    ensures
        forall|name: Seq<char>| #[trigger]
            members_object(members).contains_key(name) <==> exists|i: int|
                0 <= i < members.len() && (#[trigger] members[i]).0@ == name,
    decreases members.len(),
{
    if members.len() > 0 {
        let front = members.drop_last();
        lemma_members_object_names(front);
        assert forall|name: Seq<char>| #[trigger]
            members_object(members).contains_key(name) implies exists|i: int|
            0 <= i < members.len() && (#[trigger] members[i]).0@ == name by {
            if name == members.last().0@ {
                assert(members[members.len() - 1].0@ == name);
            } else {
                assert(members_object(front).contains_key(name));
                let i = choose|i: int| 0 <= i < front.len() && (#[trigger] front[i]).0@ == name;
                assert(members[i].0@ == name);
            }
        }
        assert forall|name: Seq<char>|
            (exists|i: int|
                0 <= i < members.len() && (#[trigger] members[i]).0@ == name) implies #[trigger] members_object(
            members,
        ).contains_key(name) by {
            let i = choose|i: int| 0 <= i < members.len() && (#[trigger] members[i]).0@ == name;
            if i < members.len() - 1 {
                assert(front[i].0@ == name);
            }
        }
    }
}

/// Adds a member under a name that the list does not hold yet, where there
/// is a value for it.
pub(crate) fn push_member(members: &mut Vec<(String, Value)>, name: &str, value: Option<Value>)
    requires
        distinct_names(old(members)@),
        !members_object(old(members)@).contains_key(name@),
    ensures
        distinct_names(final(members)@),
        members_object(final(members)@) == with_member(
            members_object(old(members)@),
            name@,
            json_of_option(value),
        ),
{
    if let Some(v) = value {
        let ghost before = members@;
        members.push((name.to_owned(), v));
        proof {
            lemma_members_object_names(before);
            assert(members@.drop_last() =~= before);
            assert forall|i: int, j: int| 0 <= i < j < members@.len() implies (#[trigger] members@[i]).0@
                != (#[trigger] members@[j]).0@ by {
                if j == before.len() {
                    assert(before[i].0@ == members@[i].0@);
                } else {
                    assert(before[i].0@ != before[j].0@);
                }
            }
        }
    }
}

/// The string held by the member `name` of an object, where there is one.
pub(crate) fn get_text_field<'a>(v: &'a Value, name: &str) -> (res: Option<&'a str>)
    ensures
        res is Some <==> json_of(*v).has_text_field(name@),
        res matches Some(s) ==> s@ == json_of(*v).text_field(name@),
{
    match get_field(v, name) {
        Some(member) => get_text(member),
        None => None,
    }
}

/// Trusted: `Clone` for `serde_json::Value`. The copy holds the same document.
pub assume_specification[ <serde_json::Value as Clone>::clone ](v: &Value) -> (res: Value)
    ensures
        json_of(res) == json_of(*v),
;

} // verus!
