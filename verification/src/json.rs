//! JSON values as plain data, with a mathematical model of what they hold.

use vstd::prelude::*;

use crate::text::text_eq;

verus! {

/// The mathematical model of a JSON value.
pub enum JsonModel {
    Null,
    Bool(bool),
    Int(int),
    Number(Seq<char>),
    Str(Seq<char>),
    Array(Seq<JsonModel>),
    Object(MembersModel),
}

/// The model of the members of an object: names and values, in order.
pub type MembersModel = Seq<(Seq<char>, JsonModel)>;

/// A JSON value.
#[derive(Debug, PartialEq, Eq)]
pub enum Json {
    Null,
    Bool(bool),
    /// A number that is an integer in the range of `i64`.
    Int(i64),
    /// Any other number, kept as its literal.
    Number(String),
    Str(String),
    Array(Vec<Json>),
    /// The members of an object, in order.
    Object(Vec<(String, Json)>),
}

/// The model of a JSON value.
pub open spec fn json_model(value: Json) -> JsonModel
    decreases value,
{
    match value {
        Json::Null => JsonModel::Null,
        Json::Bool(b) => JsonModel::Bool(b),
        Json::Int(i) => JsonModel::Int(i as int),
        Json::Number(s) => JsonModel::Number(s@),
        Json::Str(s) => JsonModel::Str(s@),
        Json::Array(items) => JsonModel::Array(
            Seq::new(
                items@.len(),
                |i: int|
                    if 0 <= i < items@.len() {
                        json_model(items@[i])
                    } else {
                        JsonModel::Null
                    },
            ),
        ),
        Json::Object(members) => JsonModel::Object(
            Seq::new(
                members@.len(),
                |i: int|
                    if 0 <= i < members@.len() {
                        (members@[i].0@, json_model(members@[i].1))
                    } else {
                        (Seq::empty(), JsonModel::Null)
                    },
            ),
        ),
    }
}

impl View for Json {
    type V = JsonModel;

    open spec fn view(&self) -> JsonModel {
        json_model(*self)
    }
}

/// The value of the first member named `key` among `members[from..]`.
pub open spec fn member_from(members: MembersModel, key: Seq<char>, from: int) -> Option<JsonModel>
    decreases members.len() - from,
{
    if from < 0 || from >= members.len() {
        None
    } else if members[from].0 == key {
        Some(members[from].1)
    } else {
        member_from(members, key, from + 1)
    }
}

impl JsonModel {
    /// The value of the first member named `key`, if this is an object that has one.
    pub open spec fn get(self, key: Seq<char>) -> Option<JsonModel> {
        match self {
            JsonModel::Object(members) => member_from(members, key, 0),
            _ => None,
        }
    }

    /// The string that this value is, if it is one.
    pub open spec fn as_str(self) -> Option<Seq<char>> {
        match self {
            JsonModel::Str(s) => Some(s),
            _ => None,
        }
    }

    /// The integer that this value is, if it is one in the range of `i64`.
    pub open spec fn as_i64(self) -> Option<int> {
        match self {
            JsonModel::Int(i) => Some(i),
            _ => None,
        }
    }

    /// The items of this value, if it is an array.
    pub open spec fn as_array(self) -> Option<Seq<JsonModel>> {
        match self {
            JsonModel::Array(items) => Some(items),
            _ => None,
        }
    }
}

/// The views of the items of a sequence, in order.
pub open spec fn views<T: View>(items: Seq<T>) -> Seq<T::V> {
    Seq::new(items.len(), |i: int| items[i]@)
}

/// The models of the members of an object, in order.
pub open spec fn members_view(members: Seq<(String, Json)>) -> MembersModel {
    Seq::new(members.len(), |i: int| (members[i].0@, members[i].1@))
}

/// The model of an array holds the models of its items.
pub proof fn array_view(items: Vec<Json>)
    ensures
        Json::Array(items)@ == JsonModel::Array(views(items@)),
{
    assert(Json::Array(items)@->Array_0 =~= views(items@));
}

/// The model of an object holds the names and the models of its members.
pub proof fn object_view(members: Vec<(String, Json)>)
    ensures
        Json::Object(members)@ == JsonModel::Object(members_view(members@)),
{
    assert(Json::Object(members)@->Object_0 =~= members_view(members@));
}

/// Looks `key` up among `members`: the first member of that name.
pub fn find_member<'a>(members: &'a Vec<(String, Json)>, key: &str) -> (found: Option<&'a Json>)
    ensures
        match found {
            Some(value) => member_from(members_view(members@), key@, 0) == Some(value@),
            None => member_from(members_view(members@), key@, 0) is None,
        },
{
    let mut i: usize = 0;
    while i < members.len()
        invariant
            0 <= i <= members.len(),
            member_from(members_view(members@), key@, 0) == member_from(members_view(members@), key@, i as int),
        decreases members.len() - i,
    {
        if text_eq(members[i].0.as_str(), key) {
            return Some(&members[i].1);
        }
        i = i + 1;
    }
    None
}

impl Json {
    /// The value of the first member named `key`, if this is an object that has one.
    pub fn get(&self, key: &str) -> (found: Option<&Json>)
        ensures
            match found {
                Some(value) => self@.get(key@) == Some(value@),
                None => self@.get(key@) is None,
            },
    {
        match self {
            Json::Object(members) => {
                proof {
                    object_view(*members);
                }
                find_member(members, key)
            },
            _ => None,
        }
    }

    /// Whether this value is an object.
    pub fn is_object(&self) -> (object: bool)
        ensures
            object == (self@ is Object),
    {
        match self {
            Json::Object(_) => true,
            _ => false,
        }
    }

    /// The string that this value is, if it is one.
    pub fn as_str(&self) -> (text: Option<&str>)
        ensures
            match text {
                Some(s) => self@.as_str() == Some(s@),
                None => self@.as_str() is None,
            },
    {
        match self {
            Json::Str(s) => Some(s.as_str()),
            _ => None,
        }
    }

    /// The integer that this value is, if it is one in the range of `i64`.
    pub fn as_i64(&self) -> (number: Option<i64>)
        ensures
            match number {
                Some(i) => self@.as_i64() == Some(i as int),
                None => self@.as_i64() is None,
            },
    {
        match self {
            Json::Int(i) => Some(*i),
            _ => None,
        }
    }

    /// The items of this value, if it is an array.
    pub fn as_array(&self) -> (items: Option<&Vec<Json>>)
        ensures
            match items {
                Some(v) => self@.as_array() == Some(views(v@)),
                None => self@.as_array() is None,
            },
    {
        match self {
            Json::Array(items) => {
                proof {
                    array_view(*items);
                }
                Some(items)
            },
            _ => None,
        }
    }
}

/// The view of an optional text.
pub open spec fn text_view(text: Option<String>) -> Option<Seq<char>> {
    match text {
        Some(s) => Some(s@),
        None => None,
    }
}

/// The view of an optional integer.
pub open spec fn int_view(number: Option<i64>) -> Option<int> {
    match number {
        Some(i) => Some(i as int),
        None => None,
    }
}

/// The view of an optional JSON value.
pub open spec fn json_view(value: Option<Json>) -> Option<JsonModel> {
    match value {
        Some(json) => Some(json@),
        None => None,
    }
}

/// A member that must be there and be a string.
pub open spec fn required_text(object: JsonModel, key: Seq<char>) -> Option<Seq<char>> {
    match object.get(key) {
        Some(JsonModel::Str(s)) => Some(s),
        _ => None,
    }
}

/// A member that goes by two names: the value under `first` where the object
/// has that name, else the value under `second`; it must be a string.
pub open spec fn aliased_text(object: JsonModel, first: Seq<char>, second: Seq<char>) -> Option<Seq<char>> {
    match object.get(first) {
        Some(JsonModel::Str(s)) => Some(s),
        Some(_) => None,
        None => required_text(object, second),
    }
}

/// A member that may be missing or null, and is a string otherwise. The
/// outer `None` says that it is there and is something else.
pub open spec fn optional_text(object: JsonModel, key: Seq<char>) -> Option<Option<Seq<char>>> {
    match object.get(key) {
        None => Some(None),
        Some(JsonModel::Null) => Some(None),
        Some(JsonModel::Str(s)) => Some(Some(s)),
        Some(_) => None,
    }
}

/// A member that is the empty string where it is missing, and is a string
/// otherwise.
pub open spec fn defaulted_text(object: JsonModel, key: Seq<char>) -> Option<Seq<char>> {
    match object.get(key) {
        None => Some(Seq::empty()),
        Some(JsonModel::Str(s)) => Some(s),
        Some(_) => None,
    }
}

/// A member that may be missing or null, and is an integer otherwise.
pub open spec fn optional_int(object: JsonModel, key: Seq<char>) -> Option<Option<int>> {
    match object.get(key) {
        None => Some(None),
        Some(JsonModel::Null) => Some(None),
        Some(JsonModel::Int(i)) => Some(Some(i)),
        Some(_) => None,
    }
}

/// A member of any shape; a missing one and null both count as none.
pub open spec fn optional_value(object: JsonModel, key: Seq<char>) -> Option<JsonModel> {
    match object.get(key) {
        None => None,
        Some(JsonModel::Null) => None,
        Some(value) => Some(value),
    }
}

/// A text, or null where there is none.
pub open spec fn text_or_null(text: Option<Seq<char>>) -> JsonModel {
    match text {
        Some(s) => JsonModel::Str(s),
        None => JsonModel::Null,
    }
}

/// An integer, or null where there is none.
pub open spec fn int_or_null(number: Option<int>) -> JsonModel {
    match number {
        Some(i) => JsonModel::Int(i),
        None => JsonModel::Null,
    }
}

/// A value, or null where there is none.
pub open spec fn value_or_null(value: Option<JsonModel>) -> JsonModel {
    match value {
        Some(json) => json,
        None => JsonModel::Null,
    }
}

impl Json {
    /// The member `key`, which must be there and be a string.
    pub fn required_text(&self, key: &str) -> (text: Option<String>)
        ensures
            text_view(text) == required_text(self@, key@),
    {
        match self.get(key) {
            Some(Json::Str(s)) => Some(s.clone()),
            _ => None,
        }
    }

    /// The member that goes by two names: the one under `first` where
    /// there is one, else the one under `second`; it must be a string.
    pub fn aliased_text(&self, first: &str, second: &str) -> (text: Option<String>)
        ensures
            text_view(text) == aliased_text(self@, first@, second@),
    {
        match self.get(first) {
            Some(Json::Str(s)) => Some(s.clone()),
            Some(_) => None,
            None => self.required_text(second),
        }
    }

    /// The member `key`, which may be missing or null and is a string
    /// otherwise. The outer `None` says that it is there and is something
    /// else.
    pub fn optional_text(&self, key: &str) -> (text: Option<Option<String>>)
        ensures
            match text {
                Some(inner) => optional_text(self@, key@) == Some(text_view(inner)),
                None => optional_text(self@, key@) is None,
            },
    {
        match self.get(key) {
            None => Some(None),
            Some(Json::Null) => Some(None),
            Some(Json::Str(s)) => Some(Some(s.clone())),
            Some(_) => None,
        }
    }

    /// The member `key`, which is the empty string where it is missing and
    /// is a string otherwise.
    pub fn defaulted_text(&self, key: &str) -> (text: Option<String>)
        ensures
            text_view(text) == defaulted_text(self@, key@),
    {
        match self.get(key) {
            None => Some(String::new()),
            Some(Json::Str(s)) => Some(s.clone()),
            Some(_) => None,
        }
    }

    /// The member `key`, which may be missing or null and is an integer
    /// otherwise. The outer `None` says that it is there and is something
    /// else.
    pub fn optional_int(&self, key: &str) -> (number: Option<Option<i64>>)
        ensures
            match number {
                Some(inner) => optional_int(self@, key@) == Some(int_view(inner)),
                None => optional_int(self@, key@) is None,
            },
    {
        match self.get(key) {
            None => Some(None),
            Some(Json::Null) => Some(None),
            Some(Json::Int(i)) => Some(Some(*i)),
            Some(_) => None,
        }
    }

    /// The member `key`, of any shape; a missing one and null both count
    /// as none.
    pub fn optional_value(&self, key: &str) -> (value: Option<Json>)
        ensures
            json_view(value) == optional_value(self@, key@),
    {
        match self.get(key) {
            None => None,
            Some(Json::Null) => None,
            Some(value) => Some(value.clone()),
        }
    }

    /// A text, or null where there is none.
    pub fn text_or_null(text: &Option<String>) -> (json: Json)
        ensures
            json@ == text_or_null(text_view(*text)),
    {
        match text {
            Some(s) => Json::Str(s.clone()),
            None => Json::Null,
        }
    }

    /// An integer, or null where there is none.
    pub fn int_or_null(number: &Option<i64>) -> (json: Json)
        ensures
            json@ == int_or_null(int_view(*number)),
    {
        match number {
            Some(i) => Json::Int(*i),
            None => Json::Null,
        }
    }

    /// A value, or null where there is none.
    pub fn value_or_null(value: &Option<Json>) -> (json: Json)
        ensures
            json@ == value_or_null(json_view(*value)),
    {
        match value {
            Some(inner) => inner.clone(),
            None => Json::Null,
        }
    }
}

#[verifier::external_type_specification]
#[verifier::external_body]
pub struct ExValue(serde_json::Value);

#[verifier::external_type_specification]
#[verifier::external_body]
pub struct ExParseError(serde_json::Error);

/// What a `serde_json::Value` holds.
pub uninterp spec fn value_model(value: serde_json::Value) -> JsonModel;

/// What `serde_json::from_str` reads from a text as a `serde_json::Value`:
/// `None` where it reports an error.
pub uninterp spec fn json_text_value(text: Seq<char>) -> Option<JsonModel>;

/// Calls `serde_json::from_str` for a `serde_json::Value`. The outcome
/// depends on the text alone: a value where the text is one JSON document,
/// an error where the parser reports one.
#[verifier::external_body]
fn value_from_text(text: &str) -> (parsed: Result<serde_json::Value, serde_json::Error>)
    ensures
        match parsed {
            Ok(value) => json_text_value(text@) == Some(value_model(value)),
            Err(_) => json_text_value(text@) is None,
        },
{
    serde_json::from_str::<serde_json::Value>(text)
}

/// Copies a `serde_json::Value` into a `Json`, variant by variant. A number
/// for which `Number::as_i64` gives an integer becomes `Json::Int`; any
/// other number is kept as the literal that its `Display` writes. The
/// members of an object come in the order in which its map hands them out.
#[verifier::external_body]
fn json_from_value(value: &serde_json::Value) -> (json: Json)
    ensures
        json@ == value_model(*value),
{
    match value {
        serde_json::Value::Null => Json::Null,
        serde_json::Value::Bool(b) => Json::Bool(*b),
        serde_json::Value::Number(n) => match n.as_i64() {
            Some(i) => Json::Int(i),
            None => Json::Number(n.to_string()),
        },
        serde_json::Value::String(s) => Json::Str(s.clone()),
        serde_json::Value::Array(items) => Json::Array(items.iter().map(json_from_value).collect()),
        serde_json::Value::Object(members) => Json::Object(
            members.iter().map(|(name, member)| (name.clone(), json_from_value(member))).collect(),
        ),
    }
}

impl Json {
    /// Reads a JSON document: the value that it holds, or nothing where
    /// the text is not one JSON document.
    pub fn parse(text: &str) -> (parsed: Option<Json>)
        ensures
            match parsed {
                Some(json) => json_text_value(text@) == Some(json@),
                None => json_text_value(text@) is None,
            },
    {
        match value_from_text(text) {
            Ok(value) => Some(json_from_value(&value)),
            Err(_) => None,
        }
    }
}

impl Clone for Json {
    /// A copy that holds the same value at every level.
    #[verifier::loop_isolation(false)]
    fn clone(&self) -> (copy: Json)
        ensures
            copy@ == self@,
        decreases self,
    {
        match self {
            Json::Null => Json::Null,
            Json::Bool(b) => Json::Bool(*b),
            Json::Int(i) => Json::Int(*i),
            Json::Number(s) => Json::Number(s.clone()),
            Json::Str(s) => Json::Str(s.clone()),
            Json::Array(items) => {
                let mut copies: Vec<Json> = Vec::new();
                let mut i: usize = 0;
                while i < items.len()
                    invariant
                        0 <= i <= items.len(),
                        copies.len() == i,
                        forall|k: int| 0 <= k < i ==> copies[k]@ == items[k]@,
                    decreases items.len() - i,
                {
                    proof {
                        vstd::std_specs::vec::axiom_vec_index_decreases(*items, i as int);
                    }
                    copies.push(items[i].clone());
                    i = i + 1;
                }
                proof {
                    array_view(*items);
                    array_view(copies);
                    assert(views(copies@) =~= views(items@));
                }
                Json::Array(copies)
            },
            Json::Object(members) => {
                let mut copies: Vec<(String, Json)> = Vec::new();
                let mut i: usize = 0;
                while i < members.len()
                    invariant
                        0 <= i <= members.len(),
                        copies.len() == i,
                        forall|k: int| 0 <= k < i ==> copies[k].0@ == members[k].0@ && copies[k].1@ == members[k].1@,
                    decreases members.len() - i,
                {
                    proof {
                        vstd::std_specs::vec::axiom_vec_index_decreases(*members, i as int);
                    }
                    copies.push((members[i].0.clone(), members[i].1.clone()));
                    i = i + 1;
                }
                proof {
                    object_view(*members);
                    object_view(copies);
                    assert(members_view(copies@) =~= members_view(members@));
                }
                Json::Object(copies)
            },
        }
    }
}

} // verus!
