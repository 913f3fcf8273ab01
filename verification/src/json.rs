//! What the screens read of a JSON value: which sort it is, and its text.

use crate::text::own;
use serde_json::Value;
use vstd::prelude::*;

verus! {

/// A JSON value of `serde_json`.
#[verifier::external_type_specification]
#[verifier::external_body]
pub struct ExValue(serde_json::Value);

/// The sort of a JSON value, with what the screens read of it.
#[derive(Debug)]
pub enum Json {
    Null,
    Text(String),
    Fields(Vec<(String, Value)>),
    Other,
}

/// The model of [`Json`].
pub enum JsonModel {
    Null,
    Text(Seq<char>),
    Fields(Seq<(Seq<char>, Value)>),
    Other,
}

impl View for Json {
    type V = JsonModel;

    open spec fn view(&self) -> JsonModel {
        match self {
            Json::Null => JsonModel::Null,
            Json::Text(s) => JsonModel::Text(s@),
            Json::Fields(fields) => JsonModel::Fields(
                fields@.map_values(|f: (String, Value)| (f.0@, f.1)),
            ),
            Json::Other => JsonModel::Other,
        }
    }
}

/// What a `serde_json::Value` holds: nothing, a string, the fields of an object
/// in the order of its map, or something else.
pub uninterp spec fn json_of(value: Value) -> JsonModel;

/// The variants of `serde_json::Value` told apart, with the fields of an object
/// as `serde_json::Map::iter` walks them: in an order that the value alone
/// decides.
#[verifier::external_body]
pub(crate) fn opened(value: &Value) -> (res: Json)
    ensures
        res@ == json_of(*value),
{
    match value {
        Value::Null => Json::Null,
        Value::String(s) => Json::Text(s.clone()),
        Value::Object(map) => Json::Fields(
            map.iter().map(|(k, v)| (k.clone(), v.clone())).collect(),
        ),
        _ => Json::Other,
    }
}

/// A JSON value as one compact line, as `serde_json` writes it.
pub uninterp spec fn compact_of(value: Value) -> Seq<char>;

/// `serde_json::Value`'s own `to_string`: a function of the value.
#[verifier::external_body]
pub(crate) fn compact(value: &Value) -> (res: String)
    ensures
        res@ == compact_of(*value),
{
    value.to_string()
}

/// A value as a bare text: a string without its quotes, nothing for null, and
/// the compact line for the rest.
pub open spec fn bare(json: JsonModel, line: Seq<char>) -> Seq<char> {
    match json {
        JsonModel::Text(s) => s,
        JsonModel::Null => Seq::empty(),
        _ => line,
    }
}

/// A value as a bare text, given its sort and its compact line.
pub fn bare_text(json: Json, line: String) -> (res: String)
    ensures
        res@ == bare(json@, line@),
{
    match json {
        Json::Text(s) => s,
        Json::Null => String::new(),
        _ => line,
    }
}

/// A value as a bare text.
pub open spec fn scalar_text(value: Value) -> Seq<char> {
    bare(json_of(value), compact_of(value))
}

/// A value as a bare text: a string without its quotes, containers compact.
pub fn scalar(value: &Value) -> (res: String)
    ensures
        res@ == scalar_text(*value),
{
    bare_text(opened(value), compact(value))
}

/// The labelled texts of a value: one for each field of an object, one under
/// `context` for anything else, none for null. `line` is the value as a bare
/// text.
pub open spec fn labelled(json: JsonModel, line: Seq<char>) -> Seq<(Seq<char>, Seq<char>)> {
    match json {
        JsonModel::Null => Seq::empty(),
        JsonModel::Fields(fields) => fields.map_values(
            |f: (Seq<char>, Value)| (f.0, scalar_text(f.1)),
        ),
        _ => seq![("context"@, line)],
    }
}

/// The model of a list of labelled texts.
pub open spec fn pairs(v: Seq<(String, String)>) -> Seq<(Seq<char>, Seq<char>)> {
    v.map_values(|p: (String, String)| (p.0@, p.1@))
}

/// The labelled texts of a value, given its sort and its bare text.
pub fn labels_of(json: Json, line: String) -> (res: Vec<(String, String)>)
    ensures
        pairs(res@) == labelled(json@, line@),
{
    let mut out: Vec<(String, String)> = Vec::new();
    match json {
        Json::Null => {},
        Json::Fields(fields) => {
            let ghost all = fields@;
            let mut i: usize = 0;
            while i < fields.len()
                invariant
                    i <= fields.len(),
                    fields@ == all,
                    json@ == JsonModel::Fields(
                        all.map_values(|f: (String, Value)| (f.0@, f.1)),
                    ),
                    pairs(out@) == labelled(json@, line@).take(i as int),
                decreases fields.len() - i,
            {
                let ghost whole = labelled(json@, line@);
                assert(whole[i as int] == (all[i as int].0@, scalar_text(all[i as int].1)));
                out.push((fields[i].0.clone(), scalar(&fields[i].1)));
                assert(pairs(out@) =~= whole.take(i as int).push(whole[i as int]));
                i = i + 1;
                assert(pairs(out@) =~= whole.take(i as int));
            }
        },
        _ => out.push((own("context"), line)),
    }
    assert(pairs(out@) =~= labelled(json@, line@));
    out
}

/// The labelled texts of a value.
pub open spec fn fields_text(value: Value) -> Seq<(Seq<char>, Seq<char>)> {
    labelled(json_of(value), scalar_text(value))
}

/// The labelled texts of a value.
pub fn labelled_fields(value: &Value) -> (res: Vec<(String, String)>)
    ensures
        pairs(res@) == fields_text(*value),
{
    labels_of(opened(value), scalar(value))
}

/// A value is told by its sort: a string without its quotes, nothing for null, and the
/// compact line for anything else. An object has a labelled text for each of its fields,
/// in order, and any other value but null one under `context`.
pub proof fn what_a_value_tells(line: Seq<char>, s: Seq<char>, fields: Seq<(Seq<char>, Value)>, i: int)
    ensures
        bare(JsonModel::Text(s), line) == s,
        bare(JsonModel::Null, line).len() == 0,
        bare(JsonModel::Other, line) == line,
        labelled(JsonModel::Null, line).len() == 0,
        labelled(JsonModel::Fields(fields), line).len() == fields.len(),
        0 <= i < fields.len() ==> labelled(JsonModel::Fields(fields), line)[i] == (
            fields[i].0,
            scalar_text(fields[i].1),
        ),
        labelled(JsonModel::Other, line) == seq![("context"@, line)],
        labelled(JsonModel::Text(s), line) == seq![("context"@, line)],
{
}

} // verus!
