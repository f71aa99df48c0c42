//! Stored events and trace summaries as the event store hands them back.

use vstd::prelude::*;
use crate::timestamp::Timestamp;

verus! {

/// One stored event of a trace.
#[derive(Clone, Debug)]
pub struct TraceEventView {
    pub id: i64,
    pub trace_id: String,
    pub idempotency_key: Option<String>,
    pub event_type: String,
    pub event_timestamp: Timestamp,
    pub service: String,
    pub operation: Option<String>,
    pub span_id: Option<String>,
    pub parent_span_id: Option<String>,
    pub method: Option<String>,
    pub path: Option<String>,
    pub status: Option<i32>,
    pub duration_ms: Option<i64>,
    pub success: Option<bool>,
    pub attempt: Option<i32>,
    pub error_code: Option<String>,
    pub error_type: Option<String>,
    pub error_message: Option<String>,
}

/// One stored event that carries a given idempotency key.
#[derive(Clone, Debug)]
pub struct IdempotencyEventView {
    pub id: i64,
    pub trace_id: String,
    pub idempotency_key: String,
    pub event_type: String,
    pub event_timestamp: Timestamp,
    pub service: String,
    pub operation: Option<String>,
    pub span_id: Option<String>,
    pub parent_span_id: Option<String>,
    pub method: Option<String>,
    pub path: Option<String>,
    pub status: Option<i32>,
    pub duration_ms: Option<i64>,
    pub success: Option<bool>,
    pub attempt: Option<i32>,
    pub error_code: Option<String>,
    pub error_type: Option<String>,
    pub error_message: Option<String>,
}

/// One stored event of a filtered event list.
#[derive(Clone, Debug)]
pub struct EventListItemView {
    pub id: i64,
    pub trace_id: String,
    pub idempotency_key: Option<String>,
    pub event_type: String,
    pub event_timestamp: Timestamp,
    pub service: String,
    pub operation: Option<String>,
    pub span_id: Option<String>,
    pub parent_span_id: Option<String>,
    pub method: Option<String>,
    pub path: Option<String>,
    pub status: Option<i32>,
    pub duration_ms: Option<i64>,
    pub success: Option<bool>,
    pub attempt: Option<i32>,
    pub error_code: Option<String>,
    pub error_type: Option<String>,
    pub error_message: Option<String>,
}

/// A summary of one trace.
#[derive(Clone, Debug)]
pub struct TraceListItemView {
    pub trace_id: String,
    pub event_count: i64,
    pub started_at: Timestamp,
    pub finished_at: Timestamp,
    pub services: Vec<String>,
    pub has_error: bool,
}

} // verus!
