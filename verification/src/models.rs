//! The cats of the Catdex: the rows it lists, the rows it adds, and how an
//! upload form becomes a new row.
use vstd::prelude::*;
use crate::json::entries_view;

verus! {

/// How many cats a listing shows at most.
pub const CAT_LIST_LIMIT: i64 = 100;

/// A stored cat.
#[derive(Debug)]
pub struct Cat {
    pub id: i32,
    pub name: String,
    pub image_path: String,
}

/// A cat to store; the database assigns its id.
#[derive(Debug)]
pub struct NewCat {
    pub name: String,
    pub image_path: String,
}

/// What the index page shows: the project's name and the listed cats.
pub struct IndexPage {
    pub project_name: String,
    pub cats: Vec<Cat>,
}

/// The value of `key` in form fields collected into a map: the last pair
/// with that key wins.
pub open spec fn field_value(pairs: Seq<(Seq<char>, Seq<char>)>, key: Seq<char>) -> Option<Seq<char>>
    decreases pairs.len(),
{
    if pairs.len() == 0 {
        None
    } else if pairs.last().0 == key {
        Some(pairs.last().1)
    } else {
        field_value(pairs.drop_last(), key)
    }
}

/// A form field is found exactly when some pair carries its key, and then its
/// value is that of the last such pair: no later pair has the key.
pub proof fn lemma_field_value_is_last_match(pairs: Seq<(Seq<char>, Seq<char>)>, key: Seq<char>)
    ensures
        (field_value(pairs, key) is None) <==> (forall|i: int| 0 <= i < pairs.len() ==> (#[trigger] pairs[i]).0 != key),
        field_value(pairs, key) is Some ==> exists|j: int|
            0 <= j < pairs.len() && (#[trigger] pairs[j]).0 == key && field_value(pairs, key) == Some(pairs[j].1)
                && forall|k: int| j < k < pairs.len() ==> (#[trigger] pairs[k]).0 != key,
    decreases pairs.len(),
{
    if pairs.len() > 0 {
        let rest = pairs.drop_last();
        lemma_field_value_is_last_match(rest, key);
        let last = pairs.len() - 1;
        if pairs.last().0 == key {
            assert(pairs[last].0 == key);
        } else {
            assert forall|i: int| 0 <= i < rest.len() implies rest[i] == #[trigger] pairs[i] by {}
            if field_value(rest, key) is Some {
                let j = choose|j: int|
                    0 <= j < rest.len() && (#[trigger] rest[j]).0 == key && field_value(rest, key) == Some(rest[j].1)
                        && forall|k: int| j < k < rest.len() ==> (#[trigger] rest[k]).0 != key;
                assert(pairs[j] == rest[j]);
                assert forall|k: int| j < k < pairs.len() implies (#[trigger] pairs[k]).0 != key by {
                    if k < rest.len() {
                        assert(rest[k] == pairs[k]);
                    }
                }
            } else {
                assert forall|i: int| 0 <= i < pairs.len() implies (#[trigger] pairs[i]).0 != key by {
                    if i < rest.len() {
                        assert(rest[i] == pairs[i]);
                    }
                }
            }
        }
    }
}

/// A form holding the single pair `(key, value)` has `value` under `key`, and
/// appending a pair with the key makes its value the field's.
pub proof fn lemma_field_value_of_appended_pair(
    pairs: Seq<(Seq<char>, Seq<char>)>,
    key: Seq<char>,
    value: Seq<char>,
)
    ensures
        field_value(pairs.push((key, value)), key) == Some(value),
        field_value(seq![(key, value)], key) == Some(value),
{
    lemma_field_value_is_last_match(pairs.push((key, value)), key);
    lemma_field_value_is_last_match(seq![(key, value)], key);
    assert(pairs.push((key, value))[pairs.len() as int] == (key, value));
    assert(seq![(key, value)][0] == (key, value));
}

/// An optional string by its view.
pub open spec fn opt_view(s: Option<String>) -> Option<Seq<char>> {
    match s {
        Some(t) => Some(t@),
        None => None,
    }
}

/// The value of the form field `key`; the last one when it was sent twice.
pub fn form_field(texts: &Vec<(String, String)>, key: &str) -> (v: Option<String>)
    ensures
        opt_view(v) == field_value(entries_view(texts@), key@),
{
    let key = String::from_str(key);
    let mut found: Option<String> = None;
    let mut i: usize = 0;
    while i < texts.len()
        invariant
            i <= texts.len(),
            opt_view(found) == field_value(entries_view(texts@.take(i as int)), key@),
        decreases texts.len() - i,
    {
        if texts[i].0 == key {
            found = Some(texts[i].1.clone());
        }
        proof {
            assert(entries_view(texts@.take(i + 1)).drop_last() =~= entries_view(texts@.take(i as int)));
        }
        i += 1;
    }
    proof {
        assert(texts@.take(texts.len() as int) =~= texts@);
    }
    found
}

/// The path of the stored upload, or the empty path when nothing was stored.
pub fn image_path_or_default(stored: Option<String>) -> (path: String)
    ensures
        path@ == match stored {
            Some(p) => p@,
            None => Seq::<char>::empty(),
        },
{
    match stored {
        Some(p) => p,
        None => String::new(),
    }
}

impl NewCat {
    /// The cat an upload form describes: its name is the form's `name` field,
    /// its image the stored upload.
    pub fn from_form(texts: &Vec<(String, String)>, image_path: String) -> (cat: NewCat)
        requires
            field_value(entries_view(texts@), "name"@) is Some,
        ensures
            cat.name@ == field_value(entries_view(texts@), "name"@)->0,
            cat.image_path == image_path,
    {
        let name = form_field(texts, "name");
        NewCat { name: name.unwrap(), image_path }
    }
}

/// The index page for the listed cats, under the project's name `Catdex`.
pub fn index_page(cats: Vec<Cat>) -> (page: IndexPage)
    ensures
        page.project_name@ == "Catdex"@,
        page.cats == cats,
{
    IndexPage { project_name: String::from_str("Catdex"), cats }
}

} // verus!
