use qdrant_collections::enricher::{enrich, is_success_status, record_from_document, DetailReply};
use qdrant_collections::endpoints::{detail_url, COLLECTIONS_URL};
use qdrant_collections::filter::{filter_records, parse_health_filter, HealthFilter};
use qdrant_collections::lister::{collection_names, names_from_document, ListError};
use qdrant_collections::record::CollectionInfo;
use qdrant_collections::report::build_report;

fn record(name: &str, status: Option<&str>, error: Option<&str>) -> CollectionInfo {
    let mut c = CollectionInfo::new(name.to_string());
    c.status = status.map(|s| s.to_string());
    c.error = error.map(|e| e.to_string());
    c
}

fn answered(code: u16, text: &str, body: &str) -> DetailReply {
    DetailReply::Answered {
        code,
        status_text: text.to_string(),
        body: Ok(body.as_bytes().to_vec()),
    }
}

fn names_of(records: &[CollectionInfo]) -> Vec<String> {
    records.iter().map(|c| c.name.clone()).collect()
}

#[test]
fn new_record_holds_only_the_name() {
    let c = CollectionInfo::new("a".to_string());
    assert_eq!(c.name, "a");
    assert!(c.status.is_none());
    assert!(c.vectors_count.is_none());
    assert!(c.points_count.is_none());
    assert!(c.indexed_vectors_count.is_none());
    assert!(c.vector_config.is_none());
    assert!(c.error.is_none());
    assert!(!c.is_healthy());
}

#[test]
fn healthy_needs_green_and_no_error() {
    assert!(record("a", Some("green"), None).is_healthy());
    assert!(!record("a", Some("green"), Some("boom")).is_healthy());
    assert!(!record("a", Some("yellow"), None).is_healthy());
    assert!(!record("a", Some("red"), None).is_healthy());
    assert!(!record("a", Some("Green"), None).is_healthy());
    assert!(!record("a", None, None).is_healthy());
    assert!(!record("a", None, Some("boom")).is_healthy());
}

#[test]
fn filter_names_are_parsed() {
    assert_eq!(parse_health_filter("healthy").ok(), Some(HealthFilter::Healthy));
    assert_eq!(parse_health_filter("unhealthy").ok(), Some(HealthFilter::Unhealthy));
}

#[test]
fn unknown_filter_is_rejected() {
    let e = parse_health_filter("broken").err().unwrap();
    assert_eq!(e.value, "broken");
    assert_eq!(
        e.message(),
        "Invalid value for --only: 'broken'. Must be 'healthy' or 'unhealthy'"
    );
    assert!(parse_health_filter("").is_err());
    assert!(parse_health_filter("Healthy").is_err());
}

fn sample() -> Vec<CollectionInfo> {
    vec![
        record("a", Some("green"), None),
        record("b", Some("yellow"), None),
        record("c", None, Some("Failed to fetch collection details: refused")),
        record("d", Some("green"), None),
        record("e", Some("green"), Some("late")),
    ]
}

#[test]
fn filtering_keeps_order() {
    assert_eq!(names_of(&filter_records(sample(), None)), vec!["a", "b", "c", "d", "e"]);
    assert_eq!(names_of(&filter_records(sample(), Some(HealthFilter::Healthy))), vec!["a", "d"]);
    assert_eq!(
        names_of(&filter_records(sample(), Some(HealthFilter::Unhealthy))),
        vec!["b", "c", "e"]
    );
}

#[test]
fn healthy_and_unhealthy_partition_the_records() {
    let healthy = names_of(&filter_records(sample(), Some(HealthFilter::Healthy)));
    let unhealthy = names_of(&filter_records(sample(), Some(HealthFilter::Unhealthy)));
    assert_eq!(healthy.len() + unhealthy.len(), sample().len());
    for n in &healthy {
        assert!(!unhealthy.contains(n));
    }
    let mut all: Vec<String> = healthy.into_iter().chain(unhealthy).collect();
    all.sort();
    assert_eq!(all, vec!["a", "b", "c", "d", "e"]);
}

#[test]
fn filtering_nothing_gives_nothing() {
    assert!(filter_records(Vec::new(), None).is_empty());
    assert!(filter_records(Vec::new(), Some(HealthFilter::Healthy)).is_empty());
}

#[test]
fn success_is_the_2xx_range() {
    assert!(is_success_status(200));
    assert!(is_success_status(204));
    assert!(is_success_status(299));
    assert!(!is_success_status(199));
    assert!(!is_success_status(300));
    assert!(!is_success_status(404));
    assert!(!is_success_status(500));
}

#[test]
fn detail_url_appends_the_name() {
    assert_eq!(COLLECTIONS_URL, "http://localhost:6333/collections");
    assert_eq!(detail_url("movies"), "http://localhost:6333/collections/movies");
    assert_eq!(detail_url(""), "http://localhost:6333/collections/");
}

#[test]
fn unreachable_detail_is_recorded() {
    let c = enrich("a".to_string(), DetailReply::Unreachable("connection refused".to_string()));
    assert_eq!(c.name, "a");
    assert_eq!(c.error.as_deref(), Some("Failed to fetch collection details: connection refused"));
    assert!(c.status.is_none());
    assert!(!c.is_healthy());
}

#[test]
fn rejected_detail_is_unhealthy() {
    let c = enrich("X".to_string(), answered(404, "404 Not Found", "{\"result\":{\"status\":\"green\"}}"));
    assert_eq!(c.name, "X");
    assert_eq!(
        c.error.as_deref(),
        Some("Failed to get collection details (status: 404 Not Found)")
    );
    assert!(c.status.is_none());
    assert!(c.points_count.is_none());
    assert!(!c.is_healthy());
}

#[test]
fn unreadable_body_is_recorded() {
    let reply = DetailReply::Answered {
        code: 200,
        status_text: "200 OK".to_string(),
        body: Err("connection reset".to_string()),
    };
    let c = enrich("a".to_string(), reply);
    assert_eq!(c.error.as_deref(), Some("Error parsing collection details: connection reset"));
    assert!(c.status.is_none());
}

#[test]
fn invalid_json_body_is_recorded() {
    let c = enrich("a".to_string(), answered(200, "200 OK", "not json"));
    let e = c.error.unwrap();
    assert!(e.starts_with("Error parsing collection details: "));
    assert!(e.len() > "Error parsing collection details: ".len());
    assert!(c.status.is_none());
}

#[test]
fn green_without_counts_is_healthy() {
    let c = enrich("a".to_string(), answered(200, "200 OK", "{\"result\":{\"status\":\"green\"}}"));
    assert_eq!(c.status.as_deref(), Some("green"));
    assert!(c.vectors_count.is_none());
    assert!(c.points_count.is_none());
    assert!(c.indexed_vectors_count.is_none());
    assert!(c.vector_config.is_none());
    assert!(c.error.is_none());
    assert!(c.is_healthy());
}

#[test]
fn full_detail_document_is_read() {
    let body = "{\"result\":{\"status\":\"yellow\",\"vectors_count\":10,\"points_count\":7,\
                \"indexed_vectors_count\":3,\"config\":{\"params\":{\"vectors\":{\"size\":4,\
                \"distance\":\"Cosine\"}}}},\"time\":0.001}";
    let c = enrich("docs".to_string(), answered(200, "200 OK", body));
    assert_eq!(c.name, "docs");
    assert_eq!(c.status.as_deref(), Some("yellow"));
    assert_eq!(c.vectors_count, Some(10));
    assert_eq!(c.points_count, Some(7));
    assert_eq!(c.indexed_vectors_count, Some(3));
    let expected: serde_json::Value = serde_json::from_str("{\"size\":4,\"distance\":\"Cosine\"}").unwrap();
    assert_eq!(c.vector_config, Some(expected));
    assert!(c.error.is_none());
    assert!(!c.is_healthy());
}

#[test]
fn ill_typed_fields_stay_absent() {
    let doc: serde_json::Value = serde_json::from_str(
        "{\"result\":{\"status\":7,\"vectors_count\":-1,\"points_count\":2.5,\
         \"indexed_vectors_count\":\"3\",\"config\":{\"params\":5}}}",
    )
    .unwrap();
    let c = record_from_document("a".to_string(), &doc);
    assert!(c.status.is_none());
    assert!(c.vectors_count.is_none());
    assert!(c.points_count.is_none());
    assert!(c.indexed_vectors_count.is_none());
    assert!(c.vector_config.is_none());
    assert!(c.error.is_none());
}

#[test]
fn document_without_result_gives_name_only() {
    let doc: serde_json::Value = serde_json::from_str("{\"status\":\"green\"}").unwrap();
    let c = record_from_document("a".to_string(), &doc);
    assert_eq!(c.name, "a");
    assert!(c.status.is_none());
    assert!(c.error.is_none());
    assert!(!c.is_healthy());
}

#[test]
fn large_count_is_kept() {
    let doc: serde_json::Value =
        serde_json::from_str("{\"result\":{\"points_count\":18446744073709551615}}").unwrap();
    let c = record_from_document("a".to_string(), &doc);
    assert_eq!(c.points_count, Some(u64::MAX));
}

#[test]
fn listing_names_in_server_order() {
    let body = b"{\"result\":{\"collections\":[{\"name\":\"zeta\"},{\"name\":\"alpha\"},\
                 {\"other\":1},{\"name\":3},{\"name\":\"mid\"}]},\"status\":\"ok\"}";
    let names = collection_names(body).ok().unwrap();
    assert_eq!(names, vec!["zeta", "alpha", "mid"]);
}

#[test]
fn empty_listing_gives_no_names() {
    let names = collection_names(b"{\"result\":{\"collections\":[]}}").ok().unwrap();
    assert!(names.is_empty());
}

#[test]
fn listing_without_array_fails() {
    let r = collection_names(b"{\"result\":{\"collections\":{}}}");
    assert!(matches!(r, Err(ListError::MissingArray)));
    let r = collection_names(b"{\"result\":{}}");
    assert!(matches!(r, Err(ListError::MissingArray)));
    let r = collection_names(b"[]");
    assert!(matches!(r, Err(ListError::MissingArray)));
    assert_eq!(
        ListError::MissingArray.message(),
        "Expected 'result.collections' to be an array"
    );
}

#[test]
fn malformed_listing_fails() {
    let r = collection_names(b"{\"result\":");
    match r {
        Err(ListError::Malformed(reason)) => {
            assert!(!reason.is_empty());
            let m = ListError::Malformed(reason.clone()).message();
            assert_eq!(m, format!("Could not parse the collections listing: {}", reason));
        }
        _ => panic!("expected a parse failure"),
    }
}

#[test]
fn names_from_parsed_document() {
    let doc: serde_json::Value =
        serde_json::from_str("{\"result\":{\"collections\":[{\"name\":\"a\"},{\"name\":\"b\"}]}}").unwrap();
    assert_eq!(names_from_document(&doc), Some(vec!["a".to_string(), "b".to_string()]));
    let doc: serde_json::Value = serde_json::from_str("{\"result\":null}").unwrap();
    assert_eq!(names_from_document(&doc), None);
}

#[test]
fn no_collections_give_an_empty_report() {
    assert!(build_report(Vec::new(), Vec::new(), None).is_empty());
    assert!(build_report(Vec::new(), Vec::new(), Some(HealthFilter::Healthy)).is_empty());
    assert!(build_report(Vec::new(), Vec::new(), Some(HealthFilter::Unhealthy)).is_empty());
}

#[test]
fn report_follows_listing_order_and_filter() {
    let names = || vec!["a".to_string(), "b".to_string(), "c".to_string()];
    let replies = || {
        vec![
            answered(200, "200 OK", "{\"result\":{\"status\":\"green\",\"points_count\":1}}"),
            answered(500, "500 Internal Server Error", ""),
            DetailReply::Unreachable("timed out".to_string()),
        ]
    };
    let all = build_report(names(), replies(), None);
    assert_eq!(names_of(&all), vec!["a", "b", "c"]);
    assert_eq!(all[0].points_count, Some(1));
    assert_eq!(
        all[1].error.as_deref(),
        Some("Failed to get collection details (status: 500 Internal Server Error)")
    );
    assert_eq!(names_of(&build_report(names(), replies(), Some(HealthFilter::Healthy))), vec!["a"]);
    assert_eq!(
        names_of(&build_report(names(), replies(), Some(HealthFilter::Unhealthy))),
        vec!["b", "c"]
    );
}
