//! JSON documents as values, read and written with `serde_json`.

use vstd::prelude::*;
use vstd::string::StringExecFns;
use serde_json::Value;

verus! {

/// A JSON value.
#[derive(Debug, PartialEq, Eq)]
pub enum JsonValue {
    Null,
    Bool(bool),
    /// A number that is a whole number in the range of `i64`.
    Integer(i64),
    /// Any other number, by its text.
    Number(String),
    String(String),
    Array(Vec<JsonValue>),
    /// An object: its members in their order.
    Object(Vec<JsonMember>),
}

/// A member of a JSON object.
#[derive(Debug, PartialEq, Eq)]
pub struct JsonMember {
    pub name: String,
    pub value: JsonValue,
}

/// A JSON value as mathematics.
pub enum JsonModel {
    Null,
    Bool(bool),
    Integer(i64),
    Number(Seq<char>),
    String(Seq<char>),
    Array(Seq<JsonModel>),
    Object(Seq<MemberModel>),
}

/// A member of a JSON object as mathematics.
pub struct MemberModel {
    pub name: Seq<char>,
    pub value: JsonModel,
}

/// The value that a `JsonValue` holds.
pub open spec fn model_of(json: JsonValue) -> JsonModel
    decreases json,
{
    match json {
        JsonValue::Null => JsonModel::Null,
        JsonValue::Bool(flag) => JsonModel::Bool(flag),
        JsonValue::Integer(number) => JsonModel::Integer(number),
        JsonValue::Number(text) => JsonModel::Number(text@),
        JsonValue::String(text) => JsonModel::String(text@),
        JsonValue::Array(items) => JsonModel::Array(
            Seq::new(
                items@.len(),
                |i: int|
                    if 0 <= i < items@.len() {
                        model_of(items@[i])
                    } else {
                        JsonModel::Null
                    },
            ),
        ),
        JsonValue::Object(members) => JsonModel::Object(
            Seq::new(
                members@.len(),
                |i: int|
                    if 0 <= i < members@.len() {
                        MemberModel {
                            name: members@[i].name@,
                            value: model_of(members@[i].value),
                        }
                    } else {
                        MemberModel { name: Seq::empty(), value: JsonModel::Null }
                    },
            ),
        ),
    }
}

impl View for JsonValue {
    type V = JsonModel;

    open spec fn view(&self) -> JsonModel {
        model_of(*self)
    }
}

impl View for JsonMember {
    type V = MemberModel;

    open spec fn view(&self) -> MemberModel {
        MemberModel { name: self.name@, value: self.value@ }
    }
}

/// The members of a list, each by its view.
pub open spec fn member_models(members: Seq<JsonMember>) -> Seq<MemberModel> {
    members.map_values(|member: JsonMember| member@)
}

/// The value of the first member of the list that has the given name.
pub open spec fn member(members: Seq<MemberModel>, name: Seq<char>) -> Option<JsonModel>
    decreases members.len(),
{
    if members.len() == 0 {
        None
    } else if members[0].name == name {
        Some(members[0].value)
    } else {
        member(members.drop_first(), name)
    }
}

/// The view of an object is the list of the views of its members.
pub proof fn lemma_object_view(members: Vec<JsonMember>)
    ensures
        JsonValue::Object(members)@ == JsonModel::Object(member_models(members@)),
{
    let written = JsonValue::Object(members).view()->Object_0;
    let models = member_models(members@);
    assert(written.len() == models.len());
    assert forall|i: int| 0 <= i < written.len() implies written[i] == models[i] by {
        assert(models[i] == members@[i]@);
    }
    assert(written =~= models);
}

/// Members that stand after a list without the name are found as if they
/// stood alone.
pub proof fn lemma_member_skips(before: Seq<MemberModel>, after: Seq<MemberModel>, name: Seq<char>)
    requires
        forall|i: int| 0 <= i < before.len() ==> (#[trigger] before[i]).name != name,
    ensures
        member(before + after, name) == member(after, name),
    decreases before.len(),
{
    if before.len() == 0 {
        assert(before + after =~= after);
    } else {
        assert((before + after).drop_first() =~= before.drop_first() + after);
        assert((before + after)[0] == before[0]);
        assert forall|i: int| 0 <= i < before.drop_first().len() implies (
        #[trigger] before.drop_first()[i]).name != name by {
            assert(before.drop_first()[i] == before[i + 1]);
        }
        lemma_member_skips(before.drop_first(), after, name);
    }
}

/// A member that is found in a list is found in any list that starts with
/// it.
pub proof fn lemma_member_found_first(
    before: Seq<MemberModel>,
    after: Seq<MemberModel>,
    name: Seq<char>,
)
    requires
        member(before, name) is Some,
    ensures
        member(before + after, name) == member(before, name),
    decreases before.len(),
{
    assert((before + after)[0] == before[0]);
    if before[0].name != name {
        assert((before + after).drop_first() =~= before.drop_first() + after);
        lemma_member_found_first(before.drop_first(), after, name);
    }
}

/// The first member of the list that has the given name.
pub fn find_member<'a>(members: &'a Vec<JsonMember>, name: &str) -> (r: Option<&'a JsonValue>)
    ensures
        r is Some <==> member(member_models(members@), name@) is Some,
        r matches Some(value) ==> member(member_models(members@), name@) == Some(value@),
{
    let wanted = String::from_str(name);
    let ghost models = member_models(members@);
    let mut i: usize = 0;
    assert(models.skip(0) =~= models);
    while i < members.len()
        invariant
            i <= members@.len(),
            wanted@ == name@,
            models == member_models(members@),
            member(models, name@) == member(models.skip(i as int), name@),
        decreases members@.len() - i,
    {
        assert(models.skip(i as int)[0] == members@[i as int]@);
        if members[i].name == wanted {
            return Some(&members[i].value);
        }
        assert(models.skip(i as int).drop_first() =~= models.skip(i + 1));
        i += 1;
    }
    None
}

/// The JSON value that `text` is a document of, as `serde_json` reads it:
/// the members of an object stand in the order of their names, each name
/// once. `None` where `text` is no JSON document.
pub uninterp spec fn json_document(text: Seq<char>) -> Option<JsonModel>;

/// The JSON text of a string value: `text` between quotes, with the
/// characters escaped that JSON wants escaped.
pub uninterp spec fn json_string(text: Seq<char>) -> Seq<char>;

#[verifier::external_type_specification]
#[verifier::external_body]
pub struct ExValue(Value);

/// Tells the variants of `serde_json::Value` apart and moves what each
/// holds into a `JsonValue`, members and items in their order.
#[verifier::external_body]
fn from_serde(value: &Value) -> (json: JsonValue) {
    match value {
        Value::Null => JsonValue::Null,
        Value::Bool(flag) => JsonValue::Bool(*flag),
        Value::Number(number) => match number.as_i64() {
            Some(whole) => JsonValue::Integer(whole),
            None => JsonValue::Number(number.to_string()),
        },
        Value::String(text) => JsonValue::String(text.clone()),
        Value::Array(items) => JsonValue::Array(items.iter().map(from_serde).collect()),
        Value::Object(members) => JsonValue::Object(
            members.iter().map(|(name, value)| JsonMember { name: name.clone(), value: from_serde(value) }).collect(),
        ),
    }
}

/// `serde_json::from_str` to a `serde_json::Value`: the value of the
/// document, or `None` where `text` is no JSON document.
#[verifier::external_body]
pub(crate) fn parse_document(text: &str) -> (r: Option<JsonValue>)
    ensures
        r is Some <==> json_document(text@) is Some,
        r matches Some(json) ==> json_document(text@) == Some(json@),
{
    match serde_json::from_str::<Value>(text) {
        Ok(value) => Some(from_serde(&value)),
        Err(_) => None,
    }
}

/// `serde_json::Value::String` through its `Display`: the JSON text of a
/// string value.
#[verifier::external_body]
pub(crate) fn string_literal(text: &str) -> (json: String)
    ensures
        json@ == json_string(text@),
{
    Value::String(text.to_owned()).to_string()
}

} // verus!
