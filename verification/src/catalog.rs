//! The serverless cat listing: what it asks the table for, and the reply it
//! builds from what the scan returned.
use vstd::prelude::*;
use crate::json::{entries_view, json_array_text, json_object_text, object_texts, string_objects_json_array};

verus! {

/// How many items a scan reads at most.
pub const CATS_SCAN_LIMIT: i64 = 100;

/// The name of the table the cats are stored in.
pub fn cats_table_name() -> (name: String)
    ensures
        name@ == "oliver_catdex"@,
{
    String::from_str("oliver_catdex")
}

/// The reply of the listing.
pub struct CatsResponse {
    pub status: u16,
    pub body: String,
    /// Whether the body is JSON.
    pub is_json: bool,
}

/// A scanned item: each attribute's name and its string value, if it has one.
pub type ScannedItem = Vec<(String, Option<String>)>;

/// Every attribute of every item holds a string.
pub open spec fn all_strings(items: Seq<ScannedItem>) -> bool {
    forall|i: int, j: int| 0 <= i < items.len() && 0 <= j < items[i]@.len() ==> (#[trigger] items[i]@[j]).1 is Some
}

/// An item whose attributes all hold strings, by the views of its pairs.
pub open spec fn item_view(item: Seq<(String, Option<String>)>) -> Seq<(Seq<char>, Seq<char>)> {
    item.map_values(|p: (String, Option<String>)| (p.0@, p.1->0@))
}

/// The JSON text of the listed items: an array of objects, one per item.
pub open spec fn listing_text(items: Seq<ScannedItem>) -> Seq<char> {
    json_array_text(items.map_values(|it: ScannedItem| json_object_text(item_view(it@))))
}

/// The listing holds one object per scanned item, in scan order, each object
/// made of that item's attribute names and string values in the item's order.
pub proof fn lemma_listing_has_every_item(items: Seq<ScannedItem>)
    ensures
        listing_text(items) == json_array_text(
            Seq::new(items.len(), |i: int| json_object_text(item_view(items[i]@))),
        ),
        forall|i: int, j: int|
            0 <= i < items.len() && 0 <= j < items[i]@.len() ==> #[trigger] item_view(items[i]@)[j] == (
                items[i]@[j].0@,
                items[i]@[j].1->0@,
            ),
        forall|i: int| 0 <= i < items.len() ==> #[trigger] item_view(items[i]@).len() == items[i]@.len(),
{
    assert(items.map_values(|it: ScannedItem| json_object_text(item_view(it@))) =~= Seq::new(
        items.len(),
        |i: int| json_object_text(item_view(items[i]@)),
    ));
}

/// The status of each outcome of the scan: 200 with the listing, 404 when
/// the scan returned no item list, 500 when it failed.
pub open spec fn cats_status(scan: Result<Option<Vec<ScannedItem>>, String>) -> u16 {
    match scan {
        Ok(Some(_)) => 200,
        Ok(None) => 404,
        Err(_) => 500,
    }
}

/// The body of each outcome: the listing, `No cat yet`, or the failure's text.
pub open spec fn cats_body(scan: Result<Option<Vec<ScannedItem>>, String>) -> Seq<char> {
    match scan {
        Ok(Some(items)) => listing_text(items@),
        Ok(None) => "No cat yet"@,
        Err(e) => e@,
    }
}

fn strings_of(item: &ScannedItem) -> (pairs: Vec<(String, String)>)
    requires
        forall|j: int| 0 <= j < item@.len() ==> (#[trigger] item@[j]).1 is Some,
    ensures
        entries_view(pairs@) == item_view(item@),
{
    let mut pairs: Vec<(String, String)> = Vec::new();
    let mut j: usize = 0;
    while j < item.len()
        invariant
            j <= item.len(),
            forall|k: int| 0 <= k < item@.len() ==> (#[trigger] item@[k]).1 is Some,
            entries_view(pairs@) =~= item_view(item@.take(j as int)),
        decreases item.len() - j,
    {
        let key = item[j].0.clone();
        let value = match &item[j].1 {
            Some(v) => v.clone(),
            None => String::new(),
        };
        assert(value@ == item@[j as int].1->0@);
        let ghost before = pairs@;
        pairs.push((key, value));
        proof {
            assert(pairs@ =~= before.push((key, value)));
            assert(entries_view(pairs@) =~= entries_view(before).push((key@, value@)));
            assert(item@.take(j + 1) =~= item@.take(j as int).push(item@[j as int]));
            assert(entries_view(pairs@) =~= item_view(item@.take(j + 1)));
        }
        j += 1;
    }
    proof {
        assert(item@.take(item.len() as int) =~= item@);
    }
    pairs
}

/// The reply to a scan of the cats table.
pub fn cats_response(scan: Result<Option<Vec<ScannedItem>>, String>) -> (r: CatsResponse)
    requires
        scan matches Ok(Some(items)) ==> all_strings(items@),
    ensures
        r.status == cats_status(scan),
        r.body@ == cats_body(scan),
        r.is_json == (scan matches Ok(Some(_))),
{
    match scan {
        Ok(Some(items)) => {
            let mut objects: Vec<Vec<(String, String)>> = Vec::new();
            let mut i: usize = 0;
            while i < items.len()
                invariant
                    i <= items.len(),
                    all_strings(items@),
                    objects@.len() == i,
                    forall|k: int| 0 <= k < i ==> entries_view(#[trigger] objects@[k]@) == item_view(items@[k]@),
                decreases items.len() - i,
            {
                let pairs = strings_of(&items[i]);
                objects.push(pairs);
                i += 1;
            }
            proof {
                assert(object_texts(objects@) =~= items@.map_values(
                    |it: ScannedItem| json_object_text(item_view(it@)),
                ));
            }
            let body = string_objects_json_array(objects);
            CatsResponse { status: 200, body, is_json: true }
        },
        Ok(None) => CatsResponse { status: 404, body: String::from_str("No cat yet"), is_json: false },
        Err(e) => CatsResponse { status: 500, body: e, is_json: false },
    }
}

} // verus!
