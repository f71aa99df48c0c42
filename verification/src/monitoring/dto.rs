//! The shapes the monitoring service answers with, built from stored events.

use vstd::prelude::*;
use vstd::string::*;
use crate::text::{
    insert_sorted_unique, opt_text, strictly_ascending, texts,
};
use crate::timestamp::{format_rfc3339, timestamp_text, whole_millis, Timestamp};
use crate::monitoring::event::MonitoringEvent;
use crate::monitoring::views::{
    EventListItemView, IdempotencyEventView, TraceEventView, TraceListItemView,
};

verus! {

/// The answer of the health endpoints.
#[derive(Clone, Debug)]
pub struct HealthResponse {
    pub status: &'static str,
    pub service: String,
}

impl HealthResponse {
    /// A healthy answer for the named service.
    pub fn ok(service: String) -> (r: HealthResponse)
        ensures
            r.status@ == "OK"@,
            r.service == service,
    {
        HealthResponse { status: "OK", service }
    }
}

/// The error part of a stored event.
#[derive(Clone, Debug)]
pub struct TraceErrorResponse {
    pub code: Option<String>,
    pub error_type: Option<String>,
    pub message: Option<String>,
}

/// The error part of an event: present when any of its columns is.
pub open spec fn error_part(
    code: Option<String>,
    error_type: Option<String>,
    message: Option<String>,
) -> Option<TraceErrorResponse> {
    if code is Some || error_type is Some || message is Some {
        Some(TraceErrorResponse { code, error_type, message })
    } else {
        None
    }
}

/// An event's error part is absent exactly when all three error columns
/// are, and when present it carries each column as stored.
pub proof fn lemma_error_part_columns(
    code: Option<String>,
    error_type: Option<String>,
    message: Option<String>,
)
    ensures
        error_part(code, error_type, message) is None <==> (code is None && error_type is None
            && message is None),
        error_part(code, error_type, message) matches Some(p) ==> p.code == code && p.error_type
            == error_type && p.message == message,
{
}

fn make_error_part(
    code: Option<String>,
    error_type: Option<String>,
    message: Option<String>,
) -> (r: Option<TraceErrorResponse>)
    ensures
        r == error_part(code, error_type, message),
{
    if code.is_some() || error_type.is_some() || message.is_some() {
        Some(TraceErrorResponse { code, error_type, message })
    } else {
        None
    }
}

/// One event of a trace as answered.
#[derive(Clone, Debug)]
pub struct TraceEventResponse {
    pub id: i64,
    pub trace_id: String,
    pub idempotency_key: Option<String>,
    pub timestamp: String,
    pub service: String,
    pub operation: Option<String>,
    pub event_type: String,
    pub span_id: Option<String>,
    pub parent_span_id: Option<String>,
    pub method: Option<String>,
    pub path: Option<String>,
    pub status: Option<i32>,
    pub duration_ms: Option<i64>,
    pub success: Option<bool>,
    pub attempt: Option<i32>,
    pub error: Option<TraceErrorResponse>,
}

/// `r` answers the stored event `v`: every column carried over, the
/// timestamp rendered as text, and the error columns grouped.
pub open spec fn answers_trace_event(r: TraceEventResponse, v: TraceEventView) -> bool {
    &&& r.id == v.id
    &&& r.trace_id == v.trace_id
    &&& r.idempotency_key == v.idempotency_key
    &&& r.timestamp@ == timestamp_text(v.event_timestamp@)
    &&& r.service == v.service
    &&& r.operation == v.operation
    &&& r.event_type == v.event_type
    &&& r.span_id == v.span_id
    &&& r.parent_span_id == v.parent_span_id
    &&& r.method == v.method
    &&& r.path == v.path
    &&& r.status == v.status
    &&& r.duration_ms == v.duration_ms
    &&& r.success == v.success
    &&& r.attempt == v.attempt
    &&& r.error == error_part(v.error_code, v.error_type, v.error_message)
}

impl TraceEventResponse {
    /// The answer for one stored event of a trace.
    pub fn from_view(value: TraceEventView) -> (r: TraceEventResponse)
        ensures
            answers_trace_event(r, value),
    {
        let timestamp = format_rfc3339(&value.event_timestamp);
        TraceEventResponse {
            id: value.id,
            trace_id: value.trace_id,
            idempotency_key: value.idempotency_key,
            timestamp,
            service: value.service,
            operation: value.operation,
            event_type: value.event_type,
            span_id: value.span_id,
            parent_span_id: value.parent_span_id,
            method: value.method,
            path: value.path,
            status: value.status,
            duration_ms: value.duration_ms,
            success: value.success,
            attempt: value.attempt,
            error: make_error_part(value.error_code, value.error_type, value.error_message),
        }
    }
}

/// A whole trace as answered.
#[derive(Clone, Debug)]
pub struct TraceResponse {
    pub trace_id: String,
    pub event_count: usize,
    pub started_at: Option<String>,
    pub finished_at: Option<String>,
    pub duration_ms: Option<i64>,
    pub events: Vec<TraceEventResponse>,
}

/// The span of a trace in whole milliseconds, from its first event to its
/// last, where the trace has events and the span fits an `i64`.
pub open spec fn trace_duration(events: Seq<TraceEventView>) -> Option<i64> {
    if events.len() > 0 {
        let d = whole_millis(
            events[events.len() - 1].event_timestamp@.0 - events[0].event_timestamp@.0,
        );
        if i64::MIN <= d <= i64::MAX {
            Some(d as i64)
        } else {
            None
        }
    } else {
        None
    }
}

fn format_optional(t: Option<Timestamp>) -> (r: Option<String>)
    ensures
        opt_text(r) == (match t {
            Some(t) => Some(timestamp_text(t@)),
            None => None,
        }),
{
    match t {
        Some(t) => Some(format_rfc3339(&t)),
        None => None,
    }
}

impl TraceResponse {
    /// The answer for a trace from its stored events, in the order given; the
    /// first event gives the start and the last the finish.
    pub fn from_trace_events(trace_id: String, events: Vec<TraceEventView>) -> (r: TraceResponse)
        ensures
            r.trace_id == trace_id,
            r.event_count == events.len(),
            opt_text(r.started_at) == (if events.len() > 0 {
                Some(timestamp_text(events@[0].event_timestamp@))
            } else {
                None
            }),
            opt_text(r.finished_at) == (if events.len() > 0 {
                Some(timestamp_text(events@[events.len() - 1].event_timestamp@))
            } else {
                None
            }),
            r.duration_ms == trace_duration(events@),
            r.events.len() == events.len(),
            forall|i: int| 0 <= i < events.len() ==> answers_trace_event(#[trigger] r.events@[i], events@[i]),
    {
        let event_count = events.len();
        let started_at_raw = if event_count > 0 {
            Some(events[0].event_timestamp)
        } else {
            None
        };
        let finished_at_raw = if event_count > 0 {
            Some(events[event_count - 1].event_timestamp)
        } else {
            None
        };
        let duration_ms = match (started_at_raw, finished_at_raw) {
            (Some(start), Some(finish)) => {
                let diff = start.whole_millis_until(&finish);
                if i64::MIN as i128 <= diff && diff <= i64::MAX as i128 {
                    Some(diff as i64)
                } else {
                    None
                }
            },
            _ => None,
        };
        let ghost given = events@;
        let mut rest = events;
        let mut mapped: Vec<TraceEventResponse> = Vec::new();
        while rest.len() > 0
            invariant
                mapped.len() + rest.len() == given.len(),
                rest@ == given.subrange(mapped.len() as int, given.len() as int),
                forall|i: int| 0 <= i < mapped.len() ==> answers_trace_event(#[trigger] mapped@[i], given[i]),
            decreases rest.len(),
        {
            let ev = rest.remove(0);
            let resp = TraceEventResponse::from_view(ev);
            mapped.push(resp);
        }
        TraceResponse {
            trace_id,
            event_count,
            started_at: format_optional(started_at_raw),
            finished_at: format_optional(finished_at_raw),
            duration_ms,
            events: mapped,
        }
    }
}

/// One event carrying an idempotency key, as answered.
#[derive(Clone, Debug)]
pub struct IdempotencyEventResponse {
    pub id: i64,
    pub trace_id: String,
    pub idempotency_key: String,
    pub timestamp: String,
    pub service: String,
    pub operation: Option<String>,
    pub event_type: String,
    pub span_id: Option<String>,
    pub parent_span_id: Option<String>,
    pub method: Option<String>,
    pub path: Option<String>,
    pub status: Option<i32>,
    pub duration_ms: Option<i64>,
    pub success: Option<bool>,
    pub attempt: Option<i32>,
    pub error: Option<TraceErrorResponse>,
}

/// `r` answers the stored event `v` (as `answers_trace_event` does).
pub open spec fn answers_idempotency_event(r: IdempotencyEventResponse, v: IdempotencyEventView) -> bool {
    &&& r.id == v.id
    &&& r.trace_id == v.trace_id
    &&& r.idempotency_key == v.idempotency_key
    &&& r.timestamp@ == timestamp_text(v.event_timestamp@)
    &&& r.service == v.service
    &&& r.operation == v.operation
    &&& r.event_type == v.event_type
    &&& r.span_id == v.span_id
    &&& r.parent_span_id == v.parent_span_id
    &&& r.method == v.method
    &&& r.path == v.path
    &&& r.status == v.status
    &&& r.duration_ms == v.duration_ms
    &&& r.success == v.success
    &&& r.attempt == v.attempt
    &&& r.error == error_part(v.error_code, v.error_type, v.error_message)
}

impl IdempotencyEventResponse {
    /// The answer for one stored event carrying an idempotency key.
    pub fn from_view(value: IdempotencyEventView) -> (r: IdempotencyEventResponse)
        ensures
            answers_idempotency_event(r, value),
    {
        let timestamp = format_rfc3339(&value.event_timestamp);
        IdempotencyEventResponse {
            id: value.id,
            trace_id: value.trace_id,
            idempotency_key: value.idempotency_key,
            timestamp,
            service: value.service,
            operation: value.operation,
            event_type: value.event_type,
            span_id: value.span_id,
            parent_span_id: value.parent_span_id,
            method: value.method,
            path: value.path,
            status: value.status,
            duration_ms: value.duration_ms,
            success: value.success,
            attempt: value.attempt,
            error: make_error_part(value.error_code, value.error_type, value.error_message),
        }
    }
}

/// Everything recorded under one idempotency key, as answered.
#[derive(Clone, Debug)]
pub struct IdempotencyResponse {
    pub idempotency_key: String,
    pub event_count: usize,
    /// The distinct trace ids, ascending. A vector kept sorted and free of
    /// repeats stands for a set of strings here: vstd describes `BTreeSet` only
    /// for keys shown to obey its ordering laws, which it shows for integers but
    /// not for `String`.
    pub trace_ids: Vec<String>,
    pub events: Vec<IdempotencyEventResponse>,
}

/// The trace ids of a sequence of events, in order.
pub open spec fn event_trace_ids(events: Seq<IdempotencyEventView>) -> Seq<Seq<char>> {
    events.map_values(|e: IdempotencyEventView| e.trace_id@)
}

impl IdempotencyResponse {
    /// The answer for an idempotency key from its stored events: the events in
    /// the order given, and the distinct trace ids among them in ascending
    /// order.
    pub fn from_events(idempotency_key: String, events: Vec<IdempotencyEventView>) -> (r:
        IdempotencyResponse)
        ensures
            r.idempotency_key == idempotency_key,
            r.event_count == events.len(),
            strictly_ascending(texts(r.trace_ids@)),
            texts(r.trace_ids@).to_set() == event_trace_ids(events@).to_set(),
            r.events.len() == events.len(),
            forall|i: int| 0 <= i < events.len() ==> answers_idempotency_event(#[trigger] r.events@[i], events@[i]),
    {
        let event_count = events.len();
        let mut trace_ids: Vec<String> = Vec::new();
        let mut i: usize = 0;
        assert(texts(trace_ids@).to_set() =~= event_trace_ids(events@).take(0).to_set());
        while i < event_count
            invariant
                event_count == events.len(),
                i <= event_count,
                strictly_ascending(texts(trace_ids@)),
                texts(trace_ids@).to_set() == event_trace_ids(events@).take(i as int).to_set(),
            decreases event_count - i,
        {
            let id = events[i].trace_id.clone();
            let ghost before = event_trace_ids(events@).take(i as int);
            insert_sorted_unique(&mut trace_ids, id);
            proof {
                let after = event_trace_ids(events@).take(i + 1);
                assert(after =~= before.push(events@[i as int].trace_id@));
                assert(after.to_set() =~= before.to_set().insert(events@[i as int].trace_id@)) by {
                    assert forall|t: Seq<char>| after.to_set().contains(t) implies before.to_set().insert(
                        events@[i as int].trace_id@,
                    ).contains(t) by {
                        let k = choose|k: int| 0 <= k < after.len() && after[k] == t;
                        if k < i {
                            assert(before[k] == t);
                        }
                    }
                    assert forall|t: Seq<char>| before.to_set().insert(events@[i as int].trace_id@).contains(t)
                        implies after.to_set().contains(t) by {
                        if t == events@[i as int].trace_id@ {
                            assert(after[i as int] == t);
                        } else {
                            let k = choose|k: int| 0 <= k < before.len() && before[k] == t;
                            assert(after[k] == t);
                        }
                    }
                }
            }
            i = i + 1;
        }
        assert(event_trace_ids(events@).take(event_count as int) =~= event_trace_ids(events@));
        let ghost given = events@;
        let mut rest = events;
        let mut mapped: Vec<IdempotencyEventResponse> = Vec::new();
        while rest.len() > 0
            invariant
                mapped.len() + rest.len() == given.len(),
                rest@ == given.subrange(mapped.len() as int, given.len() as int),
                forall|i: int| 0 <= i < mapped.len() ==> answers_idempotency_event(#[trigger] mapped@[i], given[i]),
            decreases rest.len(),
        {
            let ev = rest.remove(0);
            let resp = IdempotencyEventResponse::from_view(ev);
            mapped.push(resp);
        }
        IdempotencyResponse { idempotency_key, event_count, trace_ids, events: mapped }
    }
}

/// One event of a filtered event list, as answered.
#[derive(Clone, Debug)]
pub struct EventListItemResponse {
    pub id: i64,
    pub trace_id: String,
    pub idempotency_key: Option<String>,
    pub timestamp: String,
    pub service: String,
    pub operation: Option<String>,
    pub event_type: String,
    pub span_id: Option<String>,
    pub parent_span_id: Option<String>,
    pub method: Option<String>,
    pub path: Option<String>,
    pub status: Option<i32>,
    pub duration_ms: Option<i64>,
    pub success: Option<bool>,
    pub attempt: Option<i32>,
    pub error: Option<TraceErrorResponse>,
}

/// `r` answers the stored event `v` (as `answers_trace_event` does).
pub open spec fn answers_list_event(r: EventListItemResponse, v: EventListItemView) -> bool {
    &&& r.id == v.id
    &&& r.trace_id == v.trace_id
    &&& r.idempotency_key == v.idempotency_key
    &&& r.timestamp@ == timestamp_text(v.event_timestamp@)
    &&& r.service == v.service
    &&& r.operation == v.operation
    &&& r.event_type == v.event_type
    &&& r.span_id == v.span_id
    &&& r.parent_span_id == v.parent_span_id
    &&& r.method == v.method
    &&& r.path == v.path
    &&& r.status == v.status
    &&& r.duration_ms == v.duration_ms
    &&& r.success == v.success
    &&& r.attempt == v.attempt
    &&& r.error == error_part(v.error_code, v.error_type, v.error_message)
}

impl EventListItemResponse {
    /// The answer for one event of a filtered event list.
    pub fn from_view(value: EventListItemView) -> (r: EventListItemResponse)
        ensures
            answers_list_event(r, value),
    {
        let timestamp = format_rfc3339(&value.event_timestamp);
        EventListItemResponse {
            id: value.id,
            trace_id: value.trace_id,
            idempotency_key: value.idempotency_key,
            timestamp,
            service: value.service,
            operation: value.operation,
            event_type: value.event_type,
            span_id: value.span_id,
            parent_span_id: value.parent_span_id,
            method: value.method,
            path: value.path,
            status: value.status,
            duration_ms: value.duration_ms,
            success: value.success,
            attempt: value.attempt,
            error: make_error_part(value.error_code, value.error_type, value.error_message),
        }
    }
}

/// A page of a filtered event list, as answered.
#[derive(Clone, Debug)]
pub struct EventListResponse {
    pub items: Vec<EventListItemResponse>,
    pub limit: i64,
    pub offset: i64,
}

/// One trace summary, as answered.
#[derive(Clone, Debug)]
pub struct TraceListItemResponse {
    pub trace_id: String,
    pub event_count: i64,
    pub started_at: String,
    pub finished_at: String,
    pub duration_ms: i64,
    pub services: Vec<String>,
    pub has_error: bool,
}

/// The span of a trace summary in whole milliseconds, or 0 where it does
/// not fit an `i64`.
pub open spec fn summary_duration(v: TraceListItemView) -> i64 {
    let d = whole_millis(v.finished_at@.0 - v.started_at@.0);
    if i64::MIN <= d <= i64::MAX {
        d as i64
    } else {
        0
    }
}

/// `r` answers the trace summary `v`.
pub open spec fn answers_trace_summary(r: TraceListItemResponse, v: TraceListItemView) -> bool {
    &&& r.trace_id == v.trace_id
    &&& r.event_count == v.event_count
    &&& r.started_at@ == timestamp_text(v.started_at@)
    &&& r.finished_at@ == timestamp_text(v.finished_at@)
    &&& r.duration_ms == summary_duration(v)
    &&& r.services == v.services
    &&& r.has_error == v.has_error
}

impl TraceListItemResponse {
    /// The answer for one trace summary.
    pub fn from_view(value: TraceListItemView) -> (r: TraceListItemResponse)
        ensures
            answers_trace_summary(r, value),
    {
        let diff = value.started_at.whole_millis_until(&value.finished_at);
        let duration_ms = if i64::MIN as i128 <= diff && diff <= i64::MAX as i128 {
            diff as i64
        } else {
            0
        };
        TraceListItemResponse {
            trace_id: value.trace_id,
            event_count: value.event_count,
            started_at: format_rfc3339(&value.started_at),
            finished_at: format_rfc3339(&value.finished_at),
            duration_ms,
            services: value.services,
            has_error: value.has_error,
        }
    }
}

/// A page of trace summaries, as answered.
#[derive(Clone, Debug)]
pub struct TraceListResponse {
    pub items: Vec<TraceListItemResponse>,
}

impl TraceListResponse {
    /// The answer for a page of trace summaries, in the order given.
    pub fn from_views(items: Vec<TraceListItemView>) -> (r: TraceListResponse)
        ensures
            r.items.len() == items.len(),
            forall|i: int| 0 <= i < items.len() ==> answers_trace_summary(#[trigger] r.items@[i], items@[i]),
    {
        let ghost given = items@;
        let mut rest = items;
        let mut mapped: Vec<TraceListItemResponse> = Vec::new();
        while rest.len() > 0
            invariant
                mapped.len() + rest.len() == given.len(),
                rest@ == given.subrange(mapped.len() as int, given.len() as int),
                forall|i: int| 0 <= i < mapped.len() ==> answers_trace_summary(#[trigger] mapped@[i], given[i]),
            decreases rest.len(),
        {
            let item = rest.remove(0);
            mapped.push(TraceListItemResponse::from_view(item));
        }
        TraceListResponse { items: mapped }
    }
}

/// A batch of events sent for ingestion.
#[derive(Clone, Debug)]
pub struct IngestEventsBatchRequest {
    pub events: Vec<MonitoringEvent>,
}

/// Why one event of a batch was refused.
#[derive(Clone, Debug)]
pub struct BatchItemErrorResponse {
    pub index: usize,
    pub message: String,
}

/// The outcome of a batch ingestion.
#[derive(Clone, Debug)]
pub struct IngestEventsBatchResponse {
    pub accepted_count: usize,
    pub rejected_count: usize,
    pub errors: Vec<BatchItemErrorResponse>,
}

} // verus!
