use vstd::prelude::*;

use crate::error::Error;

verus! {

#[verifier::external_type_specification]
#[verifier::external_body]
pub struct ExValue(serde_json::Value);

/// A JSON value as a mathematical datatype. A number is seen through its
/// signed 64-bit reading, which is absent when it is no integer in range;
/// an object is its members in order, each key held once.
pub enum JsonModel {
    Null,
    Bool(bool),
    Num(Option<i64>),
    Str(Seq<char>),
    Arr(Seq<JsonModel>),
    Obj(Seq<(Seq<char>, JsonModel)>),
}

/// What a `serde_json::Value` holds, as a `JsonModel`.
pub uninterp spec fn json_model(v: serde_json::Value) -> JsonModel;

/// The JSON document written in `s`, or `None` when `s` is not one.
pub uninterp spec fn json_of_text(s: Seq<char>) -> Option<JsonModel>;

/// The member of an object under a key, first match.
pub open spec fn assoc_lookup(entries: Seq<(Seq<char>, JsonModel)>, key: Seq<char>) -> Option<
    JsonModel,
>
    decreases entries.len(),
{
    if entries.len() == 0 {
        None
    } else if entries[0].0 == key {
        Some(entries[0].1)
    } else {
        assoc_lookup(entries.skip(1), key)
    }
}

/// The member of `j` under `key`, when `j` is an object carrying it.
pub open spec fn obj_field(j: JsonModel, key: Seq<char>) -> Option<JsonModel> {
    match j {
        JsonModel::Obj(entries) => assoc_lookup(entries, key),
        _ => None,
    }
}

/// The text of `j`, when `j` is a string.
pub open spec fn as_str(j: JsonModel) -> Option<Seq<char>> {
    match j {
        JsonModel::Str(s) => Some(s),
        _ => None,
    }
}

/// The 64-bit reading of `j`, when `j` is an integer in range.
pub open spec fn as_int(j: JsonModel) -> Option<i64> {
    match j {
        JsonModel::Num(n) => n,
        _ => None,
    }
}

/// The member of `j` under `key` read as a string.
pub open spec fn str_field(j: JsonModel, key: Seq<char>) -> Option<Seq<char>> {
    match obj_field(j, key) {
        Some(x) => as_str(x),
        None => None,
    }
}

/// The member of `j` under `key` read as an integer.
pub open spec fn int_field(j: JsonModel, key: Seq<char>) -> Option<i64> {
    match obj_field(j, key) {
        Some(x) => as_int(x),
        None => None,
    }
}

/// The text of one element, empty for a non-string.
pub open spec fn str_content(j: JsonModel) -> Seq<char> {
    match j {
        JsonModel::Str(s) => s,
        _ => Seq::empty(),
    }
}

/// The texts of a list in which every element must be a string.
pub open spec fn string_items(items: Seq<JsonModel>) -> Option<Seq<Seq<char>>> {
    if forall|i: int| 0 <= i < items.len() ==> items[i] is Str {
        Some(Seq::new(items.len(), |i: int| str_content(items[i])))
    } else {
        None
    }
}

/// A string or an array of strings, normalized to a list.
pub open spec fn one_or_many(j: JsonModel) -> Option<Seq<Seq<char>>> {
    match j {
        JsonModel::Str(s) => Some(seq![s]),
        JsonModel::Arr(items) => string_items(items),
        _ => None,
    }
}

/// Relies on serde_json::from_str::<serde_json::Value>: a JSON document
/// parses, to the value its text writes; anything else is an error.
#[verifier::external_body]
pub(crate) fn json_parse(s: &str) -> (r: Result<serde_json::Value, Error>)
    ensures
        r matches Ok(v) ==> json_of_text(s@) == Some(json_model(v)),
        r is Err <==> json_of_text(s@) is None,
        r matches Err(e) ==> e is Http,
{
    serde_json::from_str::<serde_json::Value>(s).map_err(|e| Error::Http(e.to_string()))
}

/// Relies on serde_json::Value::get: the member of an object under a key,
/// absent when the value is no object or the key is not there.
#[verifier::external_body]
pub(crate) fn json_get<'a>(v: &'a serde_json::Value, key: &str) -> (r: Option<
    &'a serde_json::Value,
>)
    ensures
        r matches Some(x) ==> obj_field(json_model(*v), key@) == Some(json_model(*x)),
        r is None <==> obj_field(json_model(*v), key@) is None,
{
    v.get(key)
}

/// Relies on serde_json::Value::as_str: the text of a JSON string, owned.
#[verifier::external_body]
pub(crate) fn json_as_string(v: &serde_json::Value) -> (r: Option<String>)
    ensures
        r matches Some(s) ==> json_model(*v) == JsonModel::Str(s@),
        r is None <==> !(json_model(*v) is Str),
{
    v.as_str().map(|s| s.to_owned())
}

/// Relies on serde_json::Value::as_i64: the value of a JSON integer that
/// fits in a signed 64-bit word.
#[verifier::external_body]
pub(crate) fn json_as_i64(v: &serde_json::Value) -> (r: Option<i64>)
    ensures
        r == as_int(json_model(*v)),
        r is None <==> !(json_model(*v) matches JsonModel::Num(n) && n is Some),
{
    v.as_i64()
}

/// Relies on serde_json::Value::as_array: the elements of a JSON array,
/// copied out one for one, in order.
#[verifier::external_body]
pub(crate) fn json_as_array(v: &serde_json::Value) -> (r: Option<Vec<serde_json::Value>>)
    ensures
        r matches Some(items) ==> json_model(*v) matches JsonModel::Arr(s) && items@.len()
            == s.len() && forall|i: int| 0 <= i < s.len() ==> json_model(items@[i]) == s[i],
        r is None <==> !(json_model(*v) is Arr),
{
    v.as_array().map(|a| a.to_vec())
}

/// Relies on serde_json::Value::as_object and serde_json::Map::iter: the
/// members of a JSON object, copied out pair by pair in order; the map
/// holds each key once.
#[verifier::external_body]
pub(crate) fn json_object_entries(v: &serde_json::Value) -> (r: Option<
    Vec<(String, serde_json::Value)>,
>)
    ensures
        r matches Some(es) ==> json_model(*v) matches JsonModel::Obj(m) && es@.len() == m.len()
            && forall|i: int|
            0 <= i < m.len() ==> es@[i].0@ == m[i].0 && json_model(es@[i].1) == m[i].1,
        r matches Some(es) ==> (json_model(*v) matches JsonModel::Obj(m) && forall|i: int, j: int|
            0 <= i < j < m.len() ==> m[i].0 != m[j].0),
        r is None <==> !(json_model(*v) is Obj),
{
    v.as_object().map(|m| m.iter().map(|(k, x)| (k.clone(), x.clone())).collect())
}

/// The member of an object under a key read as a string.
pub(crate) fn get_string_field(v: &serde_json::Value, key: &str) -> (r: Option<String>)
    ensures
        r.deep_view() == str_field(json_model(*v), key@),
{
    match json_get(v, key) {
        Some(x) => json_as_string(x),
        None => None,
    }
}

/// The member of an object under a key read as an integer.
pub(crate) fn get_i64_field(v: &serde_json::Value, key: &str) -> (r: Option<i64>)
    ensures
        r == int_field(json_model(*v), key@),
{
    match json_get(v, key) {
        Some(x) => json_as_i64(x),
        None => None,
    }
}

/// The elements of a JSON array in which every element must be a string.
pub(crate) fn as_string_array(v: &serde_json::Value) -> (r: Option<Vec<String>>)
    ensures
        (json_model(*v) matches JsonModel::Arr(s) ==> r.deep_view() == string_items(s)),
        !(json_model(*v) is Arr) ==> r is None,
{
    match json_as_array(v) {
        Some(items) => {
            let ghost s = json_model(*v)->Arr_0;
            let mut out: Vec<String> = Vec::new();
            let mut i: usize = 0;
            while i < items.len()
                invariant
                    0 <= i <= items.len(),
                    json_model(*v) == JsonModel::Arr(s),
                    items@.len() == s.len(),
                    forall|j: int| 0 <= j < s.len() ==> json_model(items@[j]) == s[j],
                    out.len() == i,
                    forall|j: int| 0 <= j < i ==> s[j] is Str,
                    forall|j: int| 0 <= j < i ==> out@[j]@ == str_content(s[j]),
                decreases items.len() - i,
            {
                match json_as_string(&items[i]) {
                    Some(x) => {
                        let ghost xv = x@;
                        out.push(x);
                        proof {
                            assert(out@[i as int]@ == xv);
                            assert(json_model(items@[i as int]) == JsonModel::Str(xv));
                            assert(str_content(s[i as int]) == xv);
                        }
                    },
                    None => {
                        proof {
                            assert(!(s[i as int] is Str));
                            assert(!(forall|j: int| 0 <= j < s.len() ==> s[j] is Str)) by {
                                assert(0 <= i < s.len() && !(s[i as int] is Str));
                            }
                            assert(string_items(s) is None);
                        }
                        return None;
                    },
                }
                i += 1;
            }
            proof {
                assert forall|j: int| 0 <= j < s.len() implies out.deep_view()[j] == str_content(
                    s[j],
                ) by {
                    assert(out.deep_view()[j] == out@[j].deep_view());
                }
                assert(out.deep_view() =~= Seq::new(s.len(), |j: int| str_content(s[j])));
            }
            Some(out)
        },
        None => None,
    }
}

/// A string or an array of strings, normalized to a list; an array with a
/// non-string element yields nothing.
pub(crate) fn as_string_or_strings(v: &serde_json::Value) -> (r: Option<Vec<String>>)
    ensures
        r.deep_view() == one_or_many(json_model(*v)),
{
    if let Some(s) = json_as_string(v) {
        let mut out: Vec<String> = Vec::new();
        out.push(s);
        proof {
            assert(out.deep_view() =~= seq![s@]);
        }
        return Some(out);
    }
    let r = as_string_array(v);
    proof {
        if !(json_model(*v) is Arr) {
            assert(r is None);
        }
    }
    r
}

} // verus!
