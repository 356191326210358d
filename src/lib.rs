//! Inspection of a vector database's collections: the listing and detail
//! documents the server returns are read into per-collection records, each
//! record is classified healthy or unhealthy, and the records are filtered
//! into a report.

pub mod json;
pub mod endpoints;
pub mod record;
pub mod lister;
pub mod enricher;
pub mod filter;
pub mod report;
