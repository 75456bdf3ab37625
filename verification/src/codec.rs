//! Reading the members of a JSON object as the fields of a record, and
//! writing fields as JSON values. Every record of the fleet is kept in the
//! key/value server as one JSON object.

use crate::ident::{hyphenated_text, uuid_of_text, Uuid};
use crate::json::{
    clone_members, lemma_object_view, lookup, member, members_view, parsed_json, Json, JsonNumber,
    JsonView, NumberView,
};
use vstd::prelude::*;

verus! {

pub type Members = Seq<(Seq<char>, JsonView)>;

/// Why a text could not be read as a record.
#[derive(Debug, PartialEq)]
pub enum DecodeError {
    /// The text is not JSON; the message is the one that the JSON reader gave.
    Syntax(String),
    /// The text is JSON, but not an object with the fields of the record.
    Shape,
}

/// What reading a text as a record gives, where `shape` says which JSON
/// values are such a record.
pub open spec fn decoding<V>(text: Seq<char>, shape: spec_fn(JsonView) -> Option<V>) -> Result<
    V,
    Option<Seq<char>>,
> {
    match parsed_json(text) {
        Err(message) => Err(Some(message)),
        Ok(value) => match shape(value) {
            Some(record) => Ok(record),
            None => Err(None),
        },
    }
}

impl DecodeError {
    /// The message of a syntax error; `None` for a value of the wrong shape.
    pub open spec fn message(self) -> Option<Seq<char>> {
        match self {
            DecodeError::Syntax(message) => Some(message@),
            DecodeError::Shape => None,
        }
    }

    /// A line of text that says what went wrong.
    pub open spec fn described(self) -> Seq<char> {
        match self {
            DecodeError::Syntax(message) => message@,
            DecodeError::Shape => "not a record of the expected shape"@,
        }
    }

    /// A line of text that says what went wrong.
    pub fn describe(&self) -> (text: String)
        ensures
            text@ == self.described(),
    {
        match self {
            DecodeError::Syntax(message) => message.clone(),
            DecodeError::Shape => String::from_str("not a record of the expected shape"),
        }
    }
}

/// A field that must hold a string.
pub open spec fn field_text(members: Members, name: Seq<char>) -> Option<Seq<char>> {
    match member(members, name) {
        Some(JsonView::Text(text)) => Some(text),
        _ => None,
    }
}

/// A field that must hold `true` or `false`.
pub open spec fn field_bool(members: Members, name: Seq<char>) -> Option<bool> {
    match member(members, name) {
        Some(JsonView::Bool(b)) => Some(b),
        _ => None,
    }
}

/// A field that must hold a whole number from 0 to 2^64 - 1.
pub open spec fn field_u64(members: Members, name: Seq<char>) -> Option<u64> {
    match member(members, name) {
        Some(JsonView::Number(NumberView::Unsigned(n))) => Some(n),
        _ => None,
    }
}

/// A field that may be left out or null, and else must hold a whole number.
pub open spec fn field_opt_u64(members: Members, name: Seq<char>) -> Option<Option<u64>> {
    match member(members, name) {
        None => Some(None),
        Some(JsonView::Null) => Some(None),
        Some(JsonView::Number(NumberView::Unsigned(n))) => Some(Some(n)),
        _ => None,
    }
}

/// A field that must hold the text of an identifier.
pub open spec fn field_uuid(members: Members, name: Seq<char>) -> Option<Uuid> {
    match member(members, name) {
        Some(JsonView::Text(text)) => uuid_of_text(text),
        _ => None,
    }
}

/// A field that may be left out or null, and else must hold the text of an identifier.
pub open spec fn field_opt_uuid(members: Members, name: Seq<char>) -> Option<Option<Uuid>> {
    match member(members, name) {
        None => Some(None),
        Some(JsonView::Null) => Some(None),
        Some(JsonView::Text(text)) => match uuid_of_text(text) {
            Some(id) => Some(Some(id)),
            None => None,
        },
        _ => None,
    }
}

/// A field that must hold an object.
pub open spec fn field_object(members: Members, name: Seq<char>) -> Option<Members> {
    match member(members, name) {
        Some(JsonView::Object(inner)) => Some(inner),
        _ => None,
    }
}

/// A field that holds any value; one that is left out or null counts as absent.
pub open spec fn field_opt_json(members: Members, name: Seq<char>) -> Option<JsonView> {
    match member(members, name) {
        None => None,
        Some(JsonView::Null) => None,
        Some(value) => Some(value),
    }
}

/// How an identifier is written as a JSON value.
pub open spec fn uuid_json(id: Uuid) -> JsonView {
    JsonView::Text(hyphenated_text(id.value))
}

/// How an identifier that may be absent is written.
pub open spec fn opt_uuid_json(id: Option<Uuid>) -> JsonView {
    match id {
        Some(id) => uuid_json(id),
        None => JsonView::Null,
    }
}

/// How a whole number is written.
pub open spec fn u64_json(n: u64) -> JsonView {
    JsonView::Number(NumberView::Unsigned(n))
}

/// How a whole number that may be absent is written.
pub open spec fn opt_u64_json(n: Option<u64>) -> JsonView {
    match n {
        Some(n) => u64_json(n),
        None => JsonView::Null,
    }
}

/// How a value that may be absent is written.
pub open spec fn opt_json(value: Option<JsonView>) -> JsonView {
    match value {
        Some(value) => value,
        None => JsonView::Null,
    }
}

pub fn get_text(members: &Vec<(String, Json)>, name: &str) -> (r: Option<String>)
    ensures
        r is Some == field_text(members_view(members@), name@) is Some,
        r matches Some(text) ==> Some(text@) == field_text(members_view(members@), name@),
{
    match lookup(members, name) {
        Some(Json::Text(text)) => Some(text.clone()),
        _ => None,
    }
}

pub fn get_bool(members: &Vec<(String, Json)>, name: &str) -> (r: Option<bool>)
    ensures
        r == field_bool(members_view(members@), name@),
{
    match lookup(members, name) {
        Some(Json::Bool(b)) => Some(*b),
        _ => None,
    }
}

pub fn get_u64(members: &Vec<(String, Json)>, name: &str) -> (r: Option<u64>)
    ensures
        r == field_u64(members_view(members@), name@),
{
    match lookup(members, name) {
        Some(Json::Number(JsonNumber::Unsigned(n))) => Some(*n),
        _ => None,
    }
}

pub fn get_opt_u64(members: &Vec<(String, Json)>, name: &str) -> (r: Option<Option<u64>>)
    ensures
        r == field_opt_u64(members_view(members@), name@),
{
    match lookup(members, name) {
        None => Some(None),
        Some(Json::Null) => Some(None),
        Some(Json::Number(JsonNumber::Unsigned(n))) => Some(Some(*n)),
        _ => None,
    }
}

pub fn get_uuid(members: &Vec<(String, Json)>, name: &str) -> (r: Option<Uuid>)
    ensures
        r == field_uuid(members_view(members@), name@),
{
    match lookup(members, name) {
        Some(Json::Text(text)) => Uuid::parse_str(text.as_str()),
        _ => None,
    }
}

pub fn get_opt_uuid(members: &Vec<(String, Json)>, name: &str) -> (r: Option<Option<Uuid>>)
    ensures
        r == field_opt_uuid(members_view(members@), name@),
{
    match lookup(members, name) {
        None => Some(None),
        Some(Json::Null) => Some(None),
        Some(Json::Text(text)) => match Uuid::parse_str(text.as_str()) {
            Some(id) => Some(Some(id)),
            None => None,
        },
        _ => None,
    }
}

pub fn get_object(members: &Vec<(String, Json)>, name: &str) -> (r: Option<Vec<(String, Json)>>)
    ensures
        r is Some == field_object(members_view(members@), name@) is Some,
        r matches Some(inner) ==> Some(members_view(inner@)) == field_object(
            members_view(members@),
            name@,
        ),
{
    match lookup(members, name) {
        Some(Json::Object(inner)) => {
            proof {
                lemma_object_view(*inner);
            }
            Some(clone_members(inner))
        },
        _ => None,
    }
}

pub fn get_opt_json(members: &Vec<(String, Json)>, name: &str) -> (r: Option<Json>)
    ensures
        r is Some == field_opt_json(members_view(members@), name@) is Some,
        r matches Some(value) ==> Some(value@) == field_opt_json(members_view(members@), name@),
{
    match lookup(members, name) {
        None => None,
        Some(Json::Null) => None,
        Some(value) => Some(value.clone()),
    }
}

pub fn put_uuid(id: Uuid) -> (r: Json)
    ensures
        r@ == uuid_json(id),
{
    Json::Text(id.hyphenated())
}

pub fn put_opt_uuid(id: Option<Uuid>) -> (r: Json)
    ensures
        r@ == opt_uuid_json(id),
{
    match id {
        Some(id) => put_uuid(id),
        None => Json::Null,
    }
}

pub fn put_u64(n: u64) -> (r: Json)
    ensures
        r@ == u64_json(n),
{
    Json::Number(JsonNumber::Unsigned(n))
}

pub fn put_opt_u64(n: Option<u64>) -> (r: Json)
    ensures
        r@ == opt_u64_json(n),
{
    match n {
        Some(n) => put_u64(n),
        None => Json::Null,
    }
}

pub fn put_text(text: &String) -> (r: Json)
    ensures
        r@ == JsonView::Text(text@),
{
    Json::Text(text.clone())
}

pub fn put_object(members: &Vec<(String, Json)>) -> (r: Json)
    ensures
        r@ == JsonView::Object(members_view(members@)),
{
    let copy = clone_members(members);
    proof {
        lemma_object_view(copy);
    }
    Json::Object(copy)
}

pub fn put_opt_json(value: &Option<Json>) -> (r: Json)
    ensures
        r@ == opt_json(
            match value {
                Some(v) => Some(v@),
                None => None,
            },
        ),
{
    match value {
        Some(v) => v.clone(),
        None => Json::Null,
    }
}

/// Adds a member to a list that is being written.
pub fn push_member(members: &mut Vec<(String, Json)>, name: &str, value: Json)
    ensures
        members_view(final(members)@) == members_view(old(members)@).push((name@, value@)),
{
    let owned = String::from_str(name);
    members.push((owned, value));
    proof {
        assert(members_view(members@) =~= members_view(old(members)@).push((name@, value@)));
    }
}

} // verus!
