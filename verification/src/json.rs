use vstd::prelude::*;
use vstd::string::*;

verus! {

/// A structured value as the map's files hold it. A number is kept as the
/// text it is written with.
#[derive(Debug)]
pub enum JsonValue {
    Null,
    Bool(bool),
    Number(String),
    Text(String),
    Array(Vec<JsonValue>),
    Object(Vec<(String, JsonValue)>),
}

/// What a `JsonValue` stands for.
pub enum JsonModel {
    Null,
    Bool(bool),
    Number(Seq<char>),
    Text(Seq<char>),
    Array(Seq<JsonModel>),
    Object(Seq<(Seq<char>, JsonModel)>),
}

/// The value of the first of `members` that is named `key`.
pub open spec fn find_member(members: Seq<(Seq<char>, JsonModel)>, key: Seq<char>) -> Option<
    JsonModel,
>
    decreases members.len(),
{
    if members.len() == 0 {
        None
    } else if members[0].0 == key {
        Some(members[0].1)
    } else {
        find_member(members.drop_first(), key)
    }
}

impl JsonModel {
    /// The member of an object that is named `key`. A value that is no
    /// object has no members.
    pub open spec fn member(self, key: Seq<char>) -> Option<JsonModel> {
        match self {
            JsonModel::Object(members) => find_member(members, key),
            _ => None,
        }
    }
}

/// What a value stands for.
pub open spec fn model_of(value: JsonValue) -> JsonModel
    decreases value,
{
    match value {
        JsonValue::Null => JsonModel::Null,
        JsonValue::Bool(b) => JsonModel::Bool(b),
        JsonValue::Number(text) => JsonModel::Number(text@),
        JsonValue::Text(text) => JsonModel::Text(text@),
        JsonValue::Array(items) => JsonModel::Array(
            Seq::new(
                items.len() as nat,
                |i: int|
                    if 0 <= i < items.len() {
                        model_of(items[i])
                    } else {
                        JsonModel::Null
                    },
            ),
        ),
        JsonValue::Object(members) => JsonModel::Object(
            Seq::new(
                members.len() as nat,
                |i: int|
                    if 0 <= i < members.len() {
                        (members[i].0@, model_of(members[i].1))
                    } else {
                        (Seq::empty(), JsonModel::Null)
                    },
            ),
        ),
    }
}

impl View for JsonValue {
    type V = JsonModel;

    open spec fn view(&self) -> JsonModel {
        model_of(*self)
    }
}

/// What an optional value stands for.
pub open spec fn view_of(value: Option<JsonValue>) -> Option<JsonModel> {
    match value {
        Some(value) => Some(value@),
        None => None,
    }
}

impl JsonValue {
    /// The member of an object that is named `key`.
    pub fn get(&self, key: &str) -> (found: Option<&JsonValue>)
        ensures
            match found {
                Some(value) => self@.member(key@) == Some(value@),
                None => self@.member(key@) is None,
            },
    {
        match self {
            JsonValue::Object(members) => {
                let name = String::from_str(key);
                let ghost model = self@->Object_0;
                assert(model.subrange(0, model.len() as int) =~= model);
                let mut i: usize = 0;
                while i < members.len()
                    invariant
                        i <= members.len(),
                        name@ == key@,
                        model.len() == members@.len(),
                        forall|k: int|
                            0 <= k < members@.len() ==> #[trigger] model[k] == (
                                members@[k].0@,
                                members@[k].1@,
                            ),
                        self@.member(key@) == find_member(
                            model.subrange(i as int, model.len() as int),
                            key@,
                        ),
                    decreases members.len() - i,
                {
                    let ghost rest = model.subrange(i as int, model.len() as int);
                    assert(rest[0] == model[i as int]);
                    if members[i].0 == name {
                        return Some(&members[i].1);
                    }
                    assert(rest.drop_first() =~= model.subrange(i + 1, model.len() as int));
                    i += 1;
                }
                None
            },
            _ => None,
        }
    }

    /// The items of an array.
    pub fn as_array(&self) -> (items: Option<&Vec<JsonValue>>)
        ensures
            match items {
                Some(items) => self@ == JsonModel::Array(items@.map_values(|item: JsonValue| item@)),
                None => !(self@ is Array),
            },
    {
        match self {
            JsonValue::Array(items) => {
                assert(self@->Array_0 =~= items@.map_values(|item: JsonValue| item@));
                Some(items)
            },
            _ => None,
        }
    }

    /// The text of a number.
    pub fn as_number(&self) -> (text: Option<&String>)
        ensures
            match text {
                Some(text) => self@ == JsonModel::Number(text@),
                None => !(self@ is Number),
            },
    {
        match self {
            JsonValue::Number(text) => Some(text),
            _ => None,
        }
    }
}

/// A value of the `serde_json` crate. Nothing inside it is visible here.
#[verifier::external_type_specification]
#[verifier::external_body]
pub struct ExJsonTree(serde_json::Value);

/// The value that `serde_json::from_slice` reads from the bytes of a
/// document, or `None` where it refuses them.
pub uninterp spec fn json_parsed(data: Seq<u8>) -> Option<JsonModel>;

/// The value that `serde_json::from_str` reads from a text, or `None` where
/// it refuses the text.
pub uninterp spec fn json_text_parsed(text: Seq<char>) -> Option<JsonModel>;

/// The bytes that `serde_json::to_vec_pretty` writes for a value, or `None`
/// where it refuses the value.
pub uninterp spec fn json_rendered(value: JsonModel) -> Option<Seq<u8>>;

/// The text that `serde_json::to_string` writes for a value, or `None`
/// where it refuses the value.
pub uninterp spec fn json_text(value: JsonModel) -> Option<Seq<char>>;

/// Turns a value of `serde_json` into one of this library, part by part. A
/// number becomes the text that `serde_json` prints for it.
#[verifier::external_body]
fn from_tree(tree: serde_json::Value) -> JsonValue {
    match tree {
        serde_json::Value::Null => JsonValue::Null,
        serde_json::Value::Bool(b) => JsonValue::Bool(b),
        serde_json::Value::Number(n) => JsonValue::Number(n.to_string()),
        serde_json::Value::String(s) => JsonValue::Text(s),
        serde_json::Value::Array(items) => JsonValue::Array(
            items.into_iter().map(from_tree).collect(),
        ),
        serde_json::Value::Object(members) => JsonValue::Object(
            members.into_iter().map(|(key, value)| (key, from_tree(value))).collect(),
        ),
    }
}

/// Turns a value of this library into one of `serde_json`, part by part. A
/// number is read by `serde_json` from its text: where it refuses one, there
/// is no value.
#[verifier::external_body]
fn to_tree(value: &JsonValue) -> Option<serde_json::Value> {
    Some(match value {
        JsonValue::Null => serde_json::Value::Null,
        JsonValue::Bool(b) => serde_json::Value::Bool(*b),
        JsonValue::Number(text) => serde_json::Value::Number(serde_json::from_str(text).ok()?),
        JsonValue::Text(text) => serde_json::Value::String(text.clone()),
        JsonValue::Array(items) => serde_json::Value::Array(
            items.iter().map(to_tree).collect::<Option<_>>()?,
        ),
        JsonValue::Object(members) => serde_json::Value::Object(
            members.iter().map(|(k, v)| Some((k.clone(), to_tree(v)?))).collect::<Option<_>>()?,
        ),
    })
}

/// Reads a document with `serde_json::from_slice`.
#[verifier::external_body]
pub(crate) fn parse_document(data: &Vec<u8>) -> (document: Option<JsonValue>)
    ensures
        view_of(document) == json_parsed(data@),
{
    serde_json::from_slice::<serde_json::Value>(data.as_slice()).ok().map(from_tree)
}

/// Reads a value from its text with `serde_json::from_str`.
#[verifier::external_body]
pub(crate) fn parse_text(text: &str) -> (value: Option<JsonValue>)
    ensures
        view_of(value) == json_text_parsed(text@),
{
    serde_json::from_str::<serde_json::Value>(text).ok().map(from_tree)
}

/// Writes a document with `serde_json::to_vec_pretty`.
#[verifier::external_body]
pub(crate) fn render_document(document: &JsonValue) -> (data: Option<Vec<u8>>)
    ensures
        match data {
            Some(data) => json_rendered(document@) == Some(data@),
            None => json_rendered(document@) is None,
        },
{
    serde_json::to_vec_pretty(&to_tree(document)?).ok()
}

/// Writes a value as a text with `serde_json::to_string`.
#[verifier::external_body]
pub(crate) fn render_text(value: &JsonValue) -> (text: Option<String>)
    ensures
        match text {
            Some(text) => json_text(value@) == Some(text@),
            None => json_text(value@) is None,
        },
{
    serde_json::to_string(&to_tree(value)?).ok()
}

} // verus!
