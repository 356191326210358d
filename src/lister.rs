//! Reading the names of all collections out of the listing document.

use vstd::prelude::*;
use crate::json::{
    array_of, field, field_of, get_array, get_field, get_str, json_view, parse_document, parse_json,
    str_of, views_of, JsonView,
};

verus! {

/// Why the listing could not be read. Either one ends the whole run.
pub enum ListError {
    /// The body is not valid JSON; the parser's reason.
    Malformed(String),
    /// The document has no array at `result.collections`.
    MissingArray,
}

/// The name that one entry of the collections array contributes, if it has a
/// string under "name".
pub open spec fn entry_name(entry: JsonView) -> Option<Seq<char>> {
    str_of(field(entry, "name"@))
}

/// The names of the entries that have one, in the order of the array.
pub open spec fn entry_names(entries: Seq<JsonView>) -> Seq<Seq<char>> {
    entries.filter_map(|e: JsonView| entry_name(e))
}

/// The names listed by a parsed listing document, or `None` where
/// `result.collections` is not an array.
pub open spec fn listed_names(doc: JsonView) -> Option<Seq<Seq<char>>> {
    match array_of(field_of(field(doc, "result"@), "collections"@)) {
        Some(entries) => Some(entry_names(entries)),
        None => None,
    }
}

pub open spec fn string_views(v: Seq<String>) -> Seq<Seq<char>> {
    v.map_values(|s: String| s@)
}

impl ListError {
    /// A sentence that describes the failure.
    pub fn message(&self) -> (r: String)
        ensures
            match self {
                ListError::Malformed(reason) => r@ == "Could not parse the collections listing: "@ + reason@,
                ListError::MissingArray => r@ == "Expected 'result.collections' to be an array"@,
            },
    {
        match self {
            ListError::Malformed(reason) => {
                let mut m = String::from_str("Could not parse the collections listing: ");
                m.append(reason.as_str());
                m
            },
            ListError::MissingArray => String::from_str("Expected 'result.collections' to be an array"),
        }
    }
}

/// The collection names of a parsed listing document, in server order;
/// entries without a string name are skipped.
pub fn names_from_document(doc: &serde_json::Value) -> (r: Option<Vec<String>>)
    ensures
        match r {
            Some(names) => listed_names(json_view(*doc)) == Some(string_views(names@)),
            None => listed_names(json_view(*doc)).is_none(),
        },
{
    let collections = match get_field(doc, "result") {
        Some(res) => get_field(res, "collections"),
        None => None,
    };
    let entries = match collections {
        Some(c) => get_array(c),
        None => None,
    };
    let entries = match entries {
        Some(e) => e,
        None => return None,
    };
    let ghost items = views_of(entries@);
    let mut names: Vec<String> = Vec::new();
    let mut i: usize = 0;
    while i < entries.len()
        invariant
            i <= entries.len(),
            items == views_of(entries@),
            string_views(names@) == entry_names(items.take(i as int)),
        decreases entries.len() - i,
    {
        let name = match get_field(&entries[i], "name") {
            Some(n) => get_str(n),
            None => None,
        };
        proof {
            items.lemma_filter_map_take_succ(|e: JsonView| entry_name(e), i as int);
        }
        match name {
            Some(n) => {
                names.push(n);
            },
            None => {},
        }
        assert(string_views(names@) =~= entry_names(items.take(i + 1)));
        i = i + 1;
    }
    assert(items.take(entries.len() as int) =~= items);
    Some(names)
}

/// The collection names that a listing response body holds, in server order.
/// Fails when the body is not valid JSON or has no array at
/// `result.collections`.
pub fn collection_names(body: &[u8]) -> (r: Result<Vec<String>, ListError>)
    ensures
        match parse_json(body@) {
            None => r matches Err(ListError::Malformed(_)),
            Some(doc) => match listed_names(doc) {
                None => r matches Err(ListError::MissingArray),
                Some(names) => r matches Ok(v) && string_views(v@) == names,
            },
        },
{
    match parse_document(body) {
        Err(reason) => Err(ListError::Malformed(reason)),
        Ok(doc) => match names_from_document(&doc) {
            Some(names) => Ok(names),
            None => Err(ListError::MissingArray),
        },
    }
}

} // verus!
