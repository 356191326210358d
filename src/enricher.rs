//! Turning the answer to one collection's detail request into its record.
//! Every failure is kept in the record's `error`; none aborts the run.

use vstd::prelude::*;
use crate::json::{
    copy_value, field, field_of, get_field, get_str, get_u64, json_view, parse_document, parse_json,
    str_of, u64_of, JsonView,
};
use crate::record::{blank, failed, healthy, CollectionInfo, CollectionView};

verus! {

/// What came back from one collection's detail request.
pub enum DetailReply {
    /// No response arrived; the transport's reason.
    Unreachable(String),
    /// A response arrived: its status code, the status as text, and its body
    /// (or why the body could not be read).
    Answered { code: u16, status_text: String, body: Result<Vec<u8>, String> },
}

/// The error of a record whose detail request got no response.
pub open spec fn fetch_failure(reason: Seq<char>) -> Seq<char> {
    "Failed to fetch collection details: "@ + reason
}

/// The error of a record whose detail request was answered without success.
pub open spec fn status_failure(status_text: Seq<char>) -> Seq<char> {
    "Failed to get collection details (status: "@ + status_text + ")"@
}

/// The error of a record whose detail body could not be read or parsed.
pub open spec fn parse_failure(reason: Seq<char>) -> Seq<char> {
    "Error parsing collection details: "@ + reason
}

/// Whether an HTTP status code reports success (the 2xx range).
pub open spec fn success_code(code: u16) -> bool {
    200 <= code < 300
}

/// The record that a parsed detail document gives. The fields sit under
/// "result"; each is read on its own, and a missing or ill-typed one stays
/// absent. A document without "result" gives a record with only the name.
pub open spec fn document_record(name: Seq<char>, doc: JsonView) -> CollectionView {
    match field(doc, "result"@) {
        None => blank(name),
        Some(res) => CollectionView {
            name,
            status: str_of(field(res, "status"@)),
            vectors_count: u64_of(field(res, "vectors_count"@)),
            points_count: u64_of(field(res, "points_count"@)),
            indexed_vectors_count: u64_of(field(res, "indexed_vectors_count"@)),
            vector_config: field_of(field_of(field(res, "config"@), "params"@), "vectors"@),
            error: None,
        },
    }
}

/// Whether `rec` is the record of collection `name` given what its detail
/// request brought back. Where the body is not valid JSON the parser's reason
/// is not known here, only that the error says the details could not be
/// parsed.
pub open spec fn enriched(name: Seq<char>, reply: DetailReply, rec: CollectionView) -> bool {
    match reply {
        DetailReply::Unreachable(reason) => rec == failed(name, fetch_failure(reason@)),
        DetailReply::Answered { code, status_text, body } => if !success_code(code) {
            rec == failed(name, status_failure(status_text@))
        } else {
            match body {
                Err(reason) => rec == failed(name, parse_failure(reason@)),
                Ok(bytes) => match parse_json(bytes@) {
                    Some(doc) => rec == document_record(name, doc),
                    None => exists|reason: Seq<char>| rec == failed(name, parse_failure(reason)),
                },
            }
        },
    }
}

/// Whether an HTTP status code reports success (the 2xx range).
pub fn is_success_status(code: u16) -> (r: bool)
    ensures
        r == success_code(code),
{
    200 <= code && code < 300
}

fn message(prefix: &str, reason: &str, suffix: &str) -> (r: String)
    ensures
        r@ == prefix@ + reason@ + suffix@,
{
    let mut m = String::from_str(prefix);
    m.append(reason);
    m.append(suffix);
    m
}

fn read_u64_field(res: &serde_json::Value, key: &str) -> (r: Option<u64>)
    ensures
        r == u64_of(field(json_view(*res), key@)),
{
    match get_field(res, key) {
        Some(v) => get_u64(v),
        None => None,
    }
}

/// The record of collection `name` read from its parsed detail document.
pub fn record_from_document(name: String, doc: &serde_json::Value) -> (r: CollectionInfo)
    ensures
        r@ == document_record(name@, json_view(*doc)),
{
    let mut info = CollectionInfo::new(name);
    match get_field(doc, "result") {
        None => {},
        Some(res) => {
            info.status = match get_field(res, "status") {
                Some(s) => get_str(s),
                None => None,
            };
            info.vectors_count = read_u64_field(res, "vectors_count");
            info.points_count = read_u64_field(res, "points_count");
            info.indexed_vectors_count = read_u64_field(res, "indexed_vectors_count");
            if let Some(config) = get_field(res, "config") {
                if let Some(params) = get_field(config, "params") {
                    info.vector_config = match get_field(params, "vectors") {
                        Some(v) => Some(copy_value(v)),
                        None => None,
                    };
                }
            }
        },
    }
    info
}

/// The record of collection `name` given what its detail request brought
/// back: a transport failure, a status other than success, an unreadable or
/// invalid body each give a record with only the name and an error; a valid
/// document gives the record that `document_record` describes.
pub fn enrich(name: String, reply: DetailReply) -> (r: CollectionInfo)
    ensures
        enriched(name@, reply, r@),
{
    match reply {
        DetailReply::Unreachable(reason) => {
            let mut info = CollectionInfo::new(name);
            info.error = Some(message("Failed to fetch collection details: ", reason.as_str(), ""));
            proof { reveal_strlit(""); }
            assert(info@.error == Some(fetch_failure(reason@)));
            info
        },
        DetailReply::Answered { code, status_text, body } => {
            let mut info = CollectionInfo::new(name);
            if !is_success_status(code) {
                info.error = Some(message("Failed to get collection details (status: ", status_text.as_str(), ")"));
                return info;
            }
            match body {
                Err(reason) => {
                    info.error = Some(message("Error parsing collection details: ", reason.as_str(), ""));
                    proof { reveal_strlit(""); }
                    assert(info@.error == Some(parse_failure(reason@)));
                    info
                },
                Ok(bytes) => match parse_document(bytes.as_slice()) {
                    Ok(doc) => record_from_document(info.name, &doc),
                    Err(reason) => {
                        info.error = Some(message("Error parsing collection details: ", reason.as_str(), ""));
                        proof { reveal_strlit(""); }
                        assert(info@ == failed(name@, parse_failure(reason@)));
                        info
                    },
                },
            }
        },
    }
}

/// A detail request answered with a status other than success gives a record
/// with an error, no status, and so an unhealthy one.
pub proof fn lemma_rejected_detail_unhealthy(
    name: Seq<char>,
    code: u16,
    status_text: String,
    body: Result<Vec<u8>, String>,
    rec: CollectionView,
)
    requires
        !success_code(code),
        enriched(name, DetailReply::Answered { code, status_text, body }, rec),
    ensures
        rec.error.is_some(),
        rec.status.is_none(),
        !healthy(rec),
{
}

/// A detail document whose result has status "green" gives a healthy record,
/// whatever the counts hold.
pub proof fn lemma_green_detail_healthy(
    name: Seq<char>,
    code: u16,
    status_text: String,
    bytes: Vec<u8>,
    rec: CollectionView,
)
    requires
        success_code(code),
        enriched(name, DetailReply::Answered { code, status_text, body: Ok(bytes) }, rec),
        parse_json(bytes@) matches Some(doc) && str_of(field_of(field(doc, "result"@), "status"@))
            == Some("green"@),
    ensures
        healthy(rec),
{
}

} // verus!
