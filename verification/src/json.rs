//! JSON text of objects whose values are strings, produced by `serde_json`.
use vstd::prelude::*;

verus! {

/// `serde_json`'s dynamically typed JSON value, carried through unchanged.
#[verifier::external_type_specification]
#[verifier::external_body]
pub struct ExJsonValue(serde_json::Value);

/// The compact text that `serde_json` prints for the object built from
/// `entries`, each value a JSON string. Entries are inserted in order into a
/// `serde_json::Map`, so a later entry replaces an earlier one with the same
/// key; how the keys are ordered and how characters are escaped is
/// `serde_json`'s and is not stated here.
pub uninterp spec fn json_object_text(entries: Seq<(Seq<char>, Seq<char>)>) -> Seq<char>;

/// The view of key/value pairs of strings.
pub open spec fn entries_view(entries: Seq<(String, String)>) -> Seq<(Seq<char>, Seq<char>)> {
    entries.map_values(|e: (String, String)| (e.0@, e.1@))
}

/// `elems` separated by commas.
pub open spec fn comma_joined(elems: Seq<Seq<char>>) -> Seq<char>
    decreases elems.len(),
{
    if elems.len() == 0 {
        Seq::empty()
    } else if elems.len() == 1 {
        elems[0]
    } else {
        comma_joined(elems.drop_last()) + seq![','] + elems.last()
    }
}

/// The compact text of a JSON array whose elements print as `elems`.
pub open spec fn json_array_text(elems: Seq<Seq<char>>) -> Seq<char> {
    seq!['['] + comma_joined(elems) + seq![']']
}

/// An array's text is its elements' texts in order between brackets, with a
/// comma before every element but the first.
pub proof fn lemma_array_text_shape(elems: Seq<Seq<char>>, e: Seq<char>)
    ensures
        json_array_text(Seq::empty()) == seq!['[', ']'],
        json_array_text(seq![e]) == seq!['['] + e + seq![']'],
        elems.len() > 0 ==> comma_joined(elems.push(e)) == comma_joined(elems) + seq![','] + e,
{
    assert(Seq::<char>::empty() + seq![']'] =~= seq![']']);
    assert(seq!['['] + Seq::<char>::empty() + seq![']'] =~= seq!['[', ']']);
    assert(elems.push(e).drop_last() =~= elems);
}

/// The texts of objects of string pairs.
pub open spec fn object_texts(objects: Seq<Vec<(String, String)>>) -> Seq<Seq<char>> {
    objects.map_values(|o: Vec<(String, String)>| json_object_text(entries_view(o@)))
}

/// Builds a `serde_json::Value::Object` from the pairs, each value a
/// `serde_json::Value::String`, and prints it with its `Display`
/// (`to_string`). Claimed: the text is `json_object_text` of the pairs.
#[verifier::external_body]
pub(crate) fn string_object_json(entries: Vec<(String, String)>) -> (text: String)
    ensures
        text@ == json_object_text(entries_view(entries@)),
{
    let object: serde_json::Map<String, serde_json::Value> =
        entries.into_iter().map(|(key, value)| (key, serde_json::Value::String(value))).collect();
    serde_json::Value::Object(object).to_string()
}

/// Builds a `serde_json::Value::Array` of such objects and prints it with its
/// `Display`. Claimed: the compact formatter writes `[`, the elements' texts
/// separated by `,`, and `]`, each element printed as it prints alone.
#[verifier::external_body]
pub(crate) fn string_objects_json_array(objects: Vec<Vec<(String, String)>>) -> (text: String)
    ensures
        text@ == json_array_text(object_texts(objects@)),
{
    let array: Vec<serde_json::Value> = objects
        .into_iter()
        .map(|o| serde_json::Value::Object(o.into_iter().map(|(k, v)| (k, serde_json::Value::String(v))).collect()))
        .collect();
    serde_json::Value::Array(array).to_string()
}

} // verus!
