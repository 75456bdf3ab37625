//! JSON values as this library holds them, and their written form.

use vstd::prelude::*;

verus! {

/// A JSON number: a whole number that fits 64 bits, or the written form of
/// any other number.
#[derive(Debug, PartialEq)]
pub enum JsonNumber {
    Unsigned(u64),
    Negative(i64),
    Decimal(String),
}

/// A JSON value. The members of an object stand in a list; where a name
/// occurs twice, the later member is the one that counts.
#[derive(Debug, PartialEq)]
pub enum Json {
    Null,
    Bool(bool),
    Number(JsonNumber),
    Text(String),
    Array(Vec<Json>),
    Object(Vec<(String, Json)>),
}

/// The mathematical value of a [`JsonNumber`].
pub enum NumberView {
    Unsigned(u64),
    Negative(i64),
    Decimal(Seq<char>),
}

/// The mathematical value of a [`Json`].
pub enum JsonView {
    Null,
    Bool(bool),
    Number(NumberView),
    Text(Seq<char>),
    Array(Seq<JsonView>),
    Object(Seq<(Seq<char>, JsonView)>),
}

impl View for JsonNumber {
    type V = NumberView;

    open spec fn view(&self) -> NumberView {
        match self {
            JsonNumber::Unsigned(n) => NumberView::Unsigned(*n),
            JsonNumber::Negative(n) => NumberView::Negative(*n),
            JsonNumber::Decimal(text) => NumberView::Decimal(text@),
        }
    }
}

impl View for Json {
    type V = JsonView;

    open spec fn view(&self) -> JsonView
        decreases self,
    {
        match self {
            Json::Null => JsonView::Null,
            Json::Bool(b) => JsonView::Bool(*b),
            Json::Number(n) => JsonView::Number(n@),
            Json::Text(text) => JsonView::Text(text@),
            Json::Array(items) => JsonView::Array(
                Seq::new(
                    items@.len(),
                    |i: int|
                        if 0 <= i < items@.len() {
                            items[i].view()
                        } else {
                            JsonView::Null
                        },
                ),
            ),
            Json::Object(members) => JsonView::Object(
                Seq::new(
                    members@.len(),
                    |i: int|
                        if 0 <= i < members@.len() {
                            (members[i].0@, members[i].1.view())
                        } else {
                            (Seq::empty(), JsonView::Null)
                        },
                ),
            ),
        }
    }
}

/// The members of an object, each by its name and the value of its content.
pub open spec fn members_view(members: Seq<(String, Json)>) -> Seq<(Seq<char>, JsonView)> {
    Seq::new(members.len(), |i: int| (members[i].0@, members[i].1@))
}

/// The contents of an array, each by its value.
pub open spec fn items_view(items: Seq<Json>) -> Seq<JsonView> {
    Seq::new(items.len(), |i: int| items[i]@)
}

/// The member that counts under `name`: the last one that bears it.
pub open spec fn member(members: Seq<(Seq<char>, JsonView)>, name: Seq<char>) -> Option<JsonView>
    decreases members.len(),
{
    if members.len() == 0 {
        None
    } else if members.last().0 == name {
        Some(members.last().1)
    } else {
        member(members.drop_last(), name)
    }
}

/// Looking a name up in a list that ends with one more member.
pub proof fn lemma_member_push(
    members: Seq<(Seq<char>, JsonView)>,
    name: Seq<char>,
    value: JsonView,
    wanted: Seq<char>,
)
    ensures
        member(members.push((name, value)), wanted) == if name == wanted {
            Some(value)
        } else {
            member(members, wanted)
        },
{
    let longer = members.push((name, value));
    assert(longer.last() == (name, value));
    assert(longer.drop_last() =~= members);
}

/// An object is seen as the list of its members.
pub proof fn lemma_object_view(members: Vec<(String, Json)>)
    ensures
        Json::Object(members)@ == JsonView::Object(members_view(members@)),
{
    let seen = Json::Object(members)@;
    reveal_with_fuel(<Json as View>::view, 2);
    assert(seen->Object_0.len() == members@.len());
    assert forall|i: int| 0 <= i < members@.len() implies seen->Object_0[i] == members_view(
        members@,
    )[i] by {}
    assert(seen->Object_0 =~= members_view(members@));
}

/// An array is seen as the list of its items.
pub proof fn lemma_array_view(items: Vec<Json>)
    ensures
        Json::Array(items)@ == JsonView::Array(items_view(items@)),
{
    let seen = Json::Array(items)@;
    reveal_with_fuel(<Json as View>::view, 2);
    assert(seen->Array_0.len() == items@.len());
    assert forall|i: int| 0 <= i < items@.len() implies seen->Array_0[i] == items_view(
        items@,
    )[i] by {}
    assert(seen->Array_0 =~= items_view(items@));
}

impl Clone for JsonNumber {
    fn clone(&self) -> (copy: Self)
        ensures
            copy@ == self@,
    {
        match self {
            JsonNumber::Unsigned(n) => JsonNumber::Unsigned(*n),
            JsonNumber::Negative(n) => JsonNumber::Negative(*n),
            JsonNumber::Decimal(text) => JsonNumber::Decimal(text.clone()),
        }
    }
}

impl Clone for Json {
    fn clone(&self) -> (copy: Self)
        ensures
            copy@ == self@,
        decreases self,
    {
        match self {
            Json::Null => Json::Null,
            Json::Bool(b) => Json::Bool(*b),
            Json::Number(n) => Json::Number(n.clone()),
            Json::Text(text) => Json::Text(text.clone()),
            Json::Array(items) => {
                let copies = clone_items(items);
                proof {
                    lemma_array_view(*items);
                    lemma_array_view(copies);
                }
                Json::Array(copies)
            },
            Json::Object(members) => {
                let copies = clone_members(members);
                proof {
                    lemma_object_view(*members);
                    lemma_object_view(copies);
                }
                Json::Object(copies)
            },
        }
    }
}

/// Copies a list of values.
pub fn clone_items(items: &Vec<Json>) -> (copies: Vec<Json>)
    ensures
        items_view(copies@) == items_view(items@),
    decreases items,
{
    let mut copies: Vec<Json> = Vec::new();
    let mut i: usize = 0;
    while i < items.len()
        invariant
            i <= items.len(),
            copies.len() == i,
            forall|k: int| 0 <= k < i ==> (#[trigger] copies[k])@ == items[k]@,
        decreases items.len() - i,
    {
        let item = items[i].clone();
        copies.push(item);
        i += 1;
    }
    proof {
        assert(items_view(copies@) =~= items_view(items@));
    }
    copies
}

/// Copies a list of members.
pub fn clone_members(members: &Vec<(String, Json)>) -> (copies: Vec<(String, Json)>)
    ensures
        members_view(copies@) == members_view(members@),
    decreases members,
{
    let mut copies: Vec<(String, Json)> = Vec::new();
    let mut i: usize = 0;
    while i < members.len()
        invariant
            i <= members.len(),
            copies.len() == i,
            forall|k: int|
                0 <= k < i ==> (#[trigger] copies[k]).0@ == members[k].0@ && copies[k].1@
                    == members[k].1@,
        decreases members.len() - i,
    {
        let name = members[i].0.clone();
        let content = members[i].1.clone();
        copies.push((name, content));
        i += 1;
    }
    proof {
        assert(members_view(copies@) =~= members_view(members@));
    }
    copies
}

/// Finds the member that counts under `name`.
pub fn lookup<'a>(members: &'a Vec<(String, Json)>, name: &str) -> (found: Option<&'a Json>)
    ensures
        found is Some == member(members_view(members@), name@) is Some,
        found matches Some(content) ==> Some(content@) == member(members_view(members@), name@),
{
    let wanted = String::from_str(name);
    let ghost all = members_view(members@);
    let mut i: usize = members.len();
    proof {
        assert(all.subrange(0, i as int) =~= all);
    }
    while i > 0
        invariant
            i <= members.len(),
            wanted@ == name@,
            all == members_view(members@),
            member(all, name@) == member(all.subrange(0, i as int), name@),
        decreases i,
    {
        proof {
            let upto = all.subrange(0, i as int);
            assert(upto.last() == all[i - 1]);
            assert(upto.drop_last() =~= all.subrange(0, i - 1));
        }
        i -= 1;
        if members[i].0 == wanted {
            return Some(&members[i].1);
        }
    }
    proof {
        assert(all.subrange(0, 0).len() == 0);
    }
    None
}

/// `serde_json::Value`, the form in which the JSON crate holds a value.
#[verifier::external_type_specification]
#[verifier::external_body]
pub struct ExValue(serde_json::Value);

/// `serde_json::Number`, the form in which the JSON crate holds a number.
#[verifier::external_type_specification]
#[verifier::external_body]
pub struct ExNumber(serde_json::Number);

/// The text that `serde_json::to_string` writes for a value.
pub uninterp spec fn json_text(value: JsonView) -> Seq<char>;

/// What `serde_json::from_str` makes of a text: the value it reads, or the
/// message of the error it reports.
pub uninterp spec fn parsed_json(text: Seq<char>) -> Result<JsonView, Seq<char>>;

/// The outcome of reading a text, by the value of what was read.
pub open spec fn reading_view(r: Result<Json, String>) -> Result<JsonView, Seq<char>> {
    match r {
        Ok(value) => Ok(value@),
        Err(message) => Err(message@),
    }
}

/// Takes a `serde_json::Number` apart with `as_u64` and `as_i64`; a number
/// that is neither is kept as the text that the crate displays for it.
#[verifier::external_body]
fn number_from(n: &serde_json::Number) -> JsonNumber {
    match (n.as_u64(), n.as_i64()) {
        (Some(u), _) => JsonNumber::Unsigned(u),
        (_, Some(i)) => JsonNumber::Negative(i),
        _ => JsonNumber::Decimal(n.to_string()),
    }
}

/// Copies a `serde_json::Value` into a [`Json`], member by member and item by item.
#[verifier::external_body]
fn json_from(value: &serde_json::Value) -> Json {
    match value {
        serde_json::Value::Null => Json::Null,
        serde_json::Value::Bool(b) => Json::Bool(*b),
        serde_json::Value::Number(n) => Json::Number(number_from(n)),
        serde_json::Value::String(s) => Json::Text(s.clone()),
        serde_json::Value::Array(a) => Json::Array(a.iter().map(json_from).collect()),
        serde_json::Value::Object(o) => Json::Object(
            o.iter().map(|(k, v)| (k.clone(), json_from(v))).collect(),
        ),
    }
}

/// Makes the `serde_json::Value` of a number: `From` for the whole numbers,
/// the crate's own `FromStr` for a text; a text that it cannot read becomes null.
#[verifier::external_body]
fn number_into(n: &JsonNumber) -> serde_json::Value {
    match n {
        JsonNumber::Unsigned(u) => serde_json::Value::Number(serde_json::Number::from(*u)),
        JsonNumber::Negative(i) => serde_json::Value::Number(serde_json::Number::from(*i)),
        JsonNumber::Decimal(text) => match text.parse::<serde_json::Number>() {
            Ok(number) => serde_json::Value::Number(number),
            Err(_) => serde_json::Value::Null,
        },
    }
}

/// Copies a [`Json`] into a `serde_json::Value`, member by member and item by item.
#[verifier::external_body]
fn json_into(value: &Json) -> serde_json::Value {
    match value {
        Json::Null => serde_json::Value::Null,
        Json::Bool(b) => serde_json::Value::Bool(*b),
        Json::Number(n) => number_into(n),
        Json::Text(s) => serde_json::Value::String(s.clone()),
        Json::Array(a) => serde_json::Value::Array(a.iter().map(json_into).collect()),
        Json::Object(o) => serde_json::Value::Object(
            o.iter().map(|(k, v)| (k.clone(), json_into(v))).collect(),
        ),
    }
}

/// Calls `serde_json::from_str` for a `serde_json::Value`. What it reads, or
/// the message of its error, depends on the text alone and is only named here.
#[verifier::external_body]
fn read_json(text: &str) -> (r: Result<Json, String>)
    ensures
        reading_view(r) == parsed_json(text@),
{
    match serde_json::from_str::<serde_json::Value>(text) {
        Ok(value) => Ok(json_from(&value)),
        Err(error) => Err(error.to_string()),
    }
}

/// Calls `serde_json::to_string` on the `serde_json::Value` of `value`. The
/// text depends on the value alone and is only named here.
#[verifier::external_body]
fn write_json(value: &Json) -> (text: String)
    ensures
        text@ == json_text(value@),
{
    match serde_json::to_string(&json_into(value)) {
        Ok(text) => text,
        Err(_) => String::new(),
    }
}

impl Json {
    /// Reads a JSON text.
    pub fn parse(text: &str) -> (r: Result<Json, String>)
        ensures
            reading_view(r) == parsed_json(text@),
    {
        read_json(text)
    }

    /// Writes the value as a JSON text on one line.
    pub fn to_text(&self) -> (text: String)
        ensures
            text@ == json_text(self@),
    {
        write_json(self)
    }

    /// The text of a JSON string; `None` for every other value.
    pub fn as_text(&self) -> (r: Option<&String>)
        ensures
            match self@ {
                JsonView::Text(text) => r matches Some(s) && s@ == text,
                _ => r is None,
            },
    {
        match self {
            Json::Text(text) => Some(text),
            _ => None,
        }
    }
}

} // verus!
