//! The repair of a settings document: what is on disk is laid over the
//! defaults, member by member, wherever the two agree in kind.

use vstd::prelude::*;
use vstd::std_specs::vec::axiom_vec_index_decreases;
use crate::json::document_view;
use crate::json::json_document;
use crate::json::member;
use crate::json::parse_document;
use crate::json::Json;
use crate::json::JsonNumber;

verus! {

/// The view of a [`Json`] document.
pub enum JsonModel {
    Null,
    Bool(bool),
    Number(JsonNumber),
    Text(Seq<char>),
    Array(Seq<JsonModel>),
    Object(Seq<(Seq<char>, JsonModel)>),
}

/// The views of the members of an object.
pub open spec fn member_models(members: Vec<(String, Json)>) -> Seq<(Seq<char>, JsonModel)>
    decreases members,
{
    Seq::new(
        members@.len(),
        |i: int|
            if 0 <= i < members@.len() {
                (members@[i].0@, model(members@[i].1))
            } else {
                (Seq::empty(), JsonModel::Null)
            },
    )
}

/// The views of the items of an array.
pub open spec fn item_models(items: Vec<Json>) -> Seq<JsonModel>
    decreases items,
{
    Seq::new(
        items@.len(),
        |i: int|
            if 0 <= i < items@.len() {
                model(items@[i])
            } else {
                JsonModel::Null
            },
    )
}

/// The view of a document.
pub open spec fn model(document: Json) -> JsonModel
    decreases document,
{
    match document {
        Json::Null => JsonModel::Null,
        Json::Bool(b) => JsonModel::Bool(b),
        Json::Number(n) => JsonModel::Number(n),
        Json::Text(s) => JsonModel::Text(s@),
        Json::Array(items) => JsonModel::Array(item_models(items)),
        Json::Object(members) => JsonModel::Object(member_models(members)),
    }
}

/// The value of the first member named `key`.
pub open spec fn model_member(members: Seq<(Seq<char>, JsonModel)>, key: Seq<char>) -> Option<
    JsonModel,
>
    decreases members.len(),
{
    if members.len() == 0 {
        None
    } else if members[0].0 == key {
        Some(members[0].1)
    } else {
        model_member(members.skip(1), key)
    }
}

/// Whether a value from disk takes the place of a default that is not merged
/// member by member: the two are of one kind, or the default is `null`.
pub open spec fn gives_way(base: JsonModel, overlay: JsonModel) -> bool {
    base is Null || match (base, overlay) {
        (JsonModel::Bool(_), JsonModel::Bool(_)) => true,
        (JsonModel::Number(_), JsonModel::Number(_)) => true,
        (JsonModel::Text(_), JsonModel::Text(_)) => true,
        (JsonModel::Array(_), JsonModel::Array(_)) => true,
        (JsonModel::Object(_), JsonModel::Object(_)) => true,
        _ => false,
    }
}

/// The defaults `base` with the document `overlay` laid over them. Two
/// objects are merged member by member: each member of the defaults stays,
/// merged with the member of that name from disk where there is one, and a
/// member that only the disk has is dropped. Anything else from disk takes the
/// place of the default where [`gives_way`] holds, else the default stays.
pub open spec fn merged(base: JsonModel, overlay: JsonModel) -> JsonModel
    decreases base,
{
    match (base, overlay) {
        (JsonModel::Object(members), JsonModel::Object(over)) => JsonModel::Object(
            Seq::new(
                members.len(),
                |i: int|
                    if 0 <= i < members.len() {
                        (
                            members[i].0,
                            match model_member(over, members[i].0) {
                                Some(value) => merged(members[i].1, value),
                                None => members[i].1,
                            },
                        )
                    } else {
                        (Seq::empty(), JsonModel::Null)
                    },
            ),
        ),
        _ => if gives_way(base, overlay) {
            overlay
        } else {
            base
        },
    }
}

/// A member found among documents is found among their views.
pub proof fn lemma_member_model(members: Vec<(String, Json)>, from: int, key: Seq<char>)
    requires
        0 <= from <= members@.len(),
    ensures
        match member(members@.skip(from), key) {
            Some(value) => model_member(member_models(members).skip(from), key) == Some(
                model(value),
            ),
            None => model_member(member_models(members).skip(from), key) is None,
        },
    decreases members@.len() - from,
{
    let rest = members@.skip(from);
    let views = member_models(members).skip(from);
    if from < members@.len() {
        assert(rest[0] == members@[from]);
        assert(views[0] == member_models(members)[from]);
        assert(rest.skip(1) =~= members@.skip(from + 1));
        assert(views.skip(1) =~= member_models(members).skip(from + 1));
        lemma_member_model(members, from + 1, key);
    }
}

/// A copy of a document.
pub fn copy(document: &Json) -> (r: Json)
    ensures
        model(r) == model(*document),
    decreases *document,
{
    match document {
        Json::Null => Json::Null,
        Json::Bool(b) => Json::Bool(*b),
        Json::Number(JsonNumber::Unsigned(u)) => Json::Number(JsonNumber::Unsigned(*u)),
        Json::Number(JsonNumber::Signed(i)) => Json::Number(JsonNumber::Signed(*i)),
        Json::Number(JsonNumber::Real { bits }) => Json::Number(JsonNumber::Real { bits: *bits }),
        Json::Text(s) => Json::Text(s.clone()),
        Json::Array(items) => {
            let mut out: Vec<Json> = Vec::new();
            let mut i: usize = 0;
            while i < items.len()
                invariant
                    i <= items.len(),
                    *document == Json::Array(*items),
                    out@.len() == i,
                    forall|k: int| 0 <= k < i ==> model(out@[k]) == model(items@[k]),
                decreases items.len() - i,
            {
                proof {
                    axiom_vec_index_decreases(*items, i as int);
                    assert((*document)->Array_0 == *items);
                    assert(decreases_to!(*document => (*document)->Array_0));
                }
                let item = copy(&items[i]);
                out.push(item);
                i += 1;
            }
            assert(item_models(out) =~= item_models(*items));
            Json::Array(out)
        },
        Json::Object(members) => {
            let mut out: Vec<(String, Json)> = Vec::new();
            let mut i: usize = 0;
            while i < members.len()
                invariant
                    i <= members.len(),
                    *document == Json::Object(*members),
                    out@.len() == i,
                    forall|k: int|
                        0 <= k < i ==> out@[k].0@ == members@[k].0@ && model(out@[k].1) == model(
                            members@[k].1,
                        ),
                decreases members.len() - i,
            {
                proof {
                    axiom_vec_index_decreases(*members, i as int);
                    assert((*document)->Object_0 == *members);
                    assert(decreases_to!(*document => (*document)->Object_0));
                }
                let value = copy(&members[i].1);
                out.push((members[i].0.clone(), value));
                i += 1;
            }
            assert(member_models(out) =~= member_models(*members));
            Json::Object(out)
        },
    }
}

/// Whether two documents are of one kind, or the first is `null`.
fn yields(base: &Json, overlay: &Json) -> (r: bool)
    ensures
        r == gives_way(model(*base), model(*overlay)),
{
    match (base, overlay) {
        (Json::Null, _) => true,
        (Json::Bool(_), Json::Bool(_)) => true,
        (Json::Number(_), Json::Number(_)) => true,
        (Json::Text(_), Json::Text(_)) => true,
        (Json::Array(_), Json::Array(_)) => true,
        (Json::Object(_), Json::Object(_)) => true,
        _ => false,
    }
}

/// Lays a document over the defaults, by [`merged`].
pub fn tolerant_merge(base: &Json, overlay: &Json) -> (r: Json)
    ensures
        model(r) == merged(model(*base), model(*overlay)),
    decreases *base,
{
    match (base, overlay) {
        (Json::Object(members), Json::Object(over)) => {
            let mut out: Vec<(String, Json)> = Vec::new();
            let mut i: usize = 0;
            let ghost wanted = merged(model(*base), model(*overlay))->Object_0;
            while i < members.len()
                invariant
                    i <= members.len(),
                    *base == Json::Object(*members),
                    *overlay == Json::Object(*over),
                    wanted == merged(model(*base), model(*overlay))->Object_0,
                    wanted.len() == members@.len(),
                    out@.len() == i,
                    forall|k: int|
                        0 <= k < i ==> out@[k].0@ == wanted[k].0 && model(out@[k].1) == wanted[k].1,
                decreases members.len() - i,
            {
                proof {
                    axiom_vec_index_decreases(*members, i as int);
                    assert((*base)->Object_0 == *members);
                    assert(decreases_to!(*base => (*base)->Object_0));
                    lemma_member_model(*over, 0, members@[i as int].0@);
                    assert(over@.skip(0) =~= over@);
                    assert(member_models(*over).skip(0) =~= member_models(*over));
                    assert(member_models(*members)[i as int] == (
                        members@[i as int].0@,
                        model(members@[i as int].1),
                    ));
                }
                let key = members[i].0.clone();
                let value = match overlay.get(key.as_str()) {
                    Some(found) => tolerant_merge(&members[i].1, found),
                    None => copy(&members[i].1),
                };
                out.push((key, value));
                i += 1;
            }
            assert(member_models(out) =~= wanted);
            Json::Object(out)
        },
        _ => {
            if yields(base, overlay) {
                copy(overlay)
            } else {
                copy(base)
            }
        },
    }
}

/// Reads a JSON document: the result is what `serde_json` makes of the text,
/// the document or the message of its parse error.
pub fn parse(text: &str) -> (r: Result<Json, String>)
    ensures
        document_view(r) == json_document(text@),
{
    parse_document(text)
}

} // verus!
