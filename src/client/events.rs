//! Events: ingestion, amendment, deprecation and search.
use vstd::prelude::*;
use crate::request::{bool_query_value, bool_text, plain_request, with_query_spec, ApiRequest, Method};

verus! {

/// How the API answers an ingestion request.
#[derive(Debug, Clone, Copy, PartialEq, Eq, Structural)]
pub enum IngestionMode {
    /// Enable debugging information.
    Debug,
    /// Disable debugging information for improved performance.
    Production,
}

impl ApiRequest {
    /// Searches events; the body is the search filter.
    pub fn search_events() -> (r: ApiRequest)
        ensures
            r@ =~= plain_request(Method::Post, seq!["events"@, "search"@]),
    {
        ApiRequest::new(Method::Post).segment("events").segment("search")
    }

    /// Ingests events; the body holds the events.
    pub fn ingest_events(mode: IngestionMode) -> (r: ApiRequest)
        ensures
            r@ =~= with_query_spec(
                plain_request(Method::Post, seq!["ingest"@]),
                "debug"@,
                bool_text(mode == IngestionMode::Debug),
            ),
    {
        let debug = match mode {
            IngestionMode::Debug => true,
            IngestionMode::Production => false,
        };
        ApiRequest::new(Method::Post).segment("ingest").with_query("debug", bool_query_value(debug))
    }

    /// Amends an event by ID; the body is the amended event.
    pub fn amend_event(id: &str) -> (r: ApiRequest)
        ensures
            r@ =~= plain_request(Method::Put, seq!["events"@, id@]),
    {
        ApiRequest::new(Method::Put).segment("events").segment(id)
    }

    /// Deprecates an event by ID.
    pub fn deprecate_event(id: &str) -> (r: ApiRequest)
        ensures
            r@ =~= plain_request(Method::Put, seq!["events"@, id@, "deprecate"@]),
    {
        ApiRequest::new(Method::Put).segment("events").segment(id).segment("deprecate")
    }
}

} // verus!
