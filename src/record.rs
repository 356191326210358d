//! The per-collection record and the health rule.

use vstd::prelude::*;
use crate::json::{json_view, JsonView};

verus! {

/// What is known of one collection after its detail document was read.
pub struct CollectionInfo {
    pub name: String,
    pub status: Option<String>,
    pub vectors_count: Option<u64>,
    pub points_count: Option<u64>,
    pub indexed_vectors_count: Option<u64>,
    pub vector_config: Option<serde_json::Value>,
    pub error: Option<String>,
}

/// The content of a `CollectionInfo` as plain mathematical values.
pub struct CollectionView {
    pub name: Seq<char>,
    pub status: Option<Seq<char>>,
    pub vectors_count: Option<u64>,
    pub points_count: Option<u64>,
    pub indexed_vectors_count: Option<u64>,
    pub vector_config: Option<JsonView>,
    pub error: Option<Seq<char>>,
}

pub open spec fn opt_str_view(s: Option<String>) -> Option<Seq<char>> {
    match s {
        Some(t) => Some(t@),
        None => None,
    }
}

pub open spec fn opt_json_view(v: Option<serde_json::Value>) -> Option<JsonView> {
    match v {
        Some(x) => Some(json_view(x)),
        None => None,
    }
}

impl View for CollectionInfo {
    type V = CollectionView;

    open spec fn view(&self) -> CollectionView {
        CollectionView {
            name: self.name@,
            status: opt_str_view(self.status),
            vectors_count: self.vectors_count,
            points_count: self.points_count,
            indexed_vectors_count: self.indexed_vectors_count,
            vector_config: opt_json_view(self.vector_config),
            error: opt_str_view(self.error),
        }
    }
}

/// The record of a collection of which nothing but its name is known.
pub open spec fn blank(name: Seq<char>) -> CollectionView {
    CollectionView {
        name,
        status: None,
        vectors_count: None,
        points_count: None,
        indexed_vectors_count: None,
        vector_config: None,
        error: None,
    }
}

/// The record of a collection whose detail could not be had, with the reason.
pub open spec fn failed(name: Seq<char>, error: Seq<char>) -> CollectionView {
    CollectionView { error: Some(error), ..blank(name) }
}

/// A collection is healthy exactly when its status is "green" and no error
/// was recorded for it.
pub open spec fn healthy(c: CollectionView) -> bool {
    c.status == Some("green"@) && c.error.is_none()
}

impl CollectionInfo {
    /// A record that holds the name and nothing else.
    pub fn new(name: String) -> (r: CollectionInfo)
        ensures
            r@ == blank(name@),
    {
        CollectionInfo {
            name,
            status: None,
            vectors_count: None,
            points_count: None,
            indexed_vectors_count: None,
            vector_config: None,
            error: None,
        }
    }

    /// Whether the collection is healthy: status "green" and no error.
    pub fn is_healthy(&self) -> (r: bool)
        ensures
            r == healthy(self@),
    {
        match &self.status {
            Some(s) => {
                let green = String::from_str("green");
                s.eq(&green) && self.error.is_none()
            },
            None => false,
        }
    }
}

} // verus!
