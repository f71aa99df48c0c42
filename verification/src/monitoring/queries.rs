//! The checks and normalisation that precede each read of stored events.

use vstd::prelude::*;
use vstd::string::*;
use crate::text::{
    is_blank, is_blank_text, lemma_trim_idempotent, lemma_trimmed_empty_iff_blank, lowercase,
    opt_text, text_eq, to_lower, to_upper, trim, trimmed, uppercase,
};
use crate::timestamp::Timestamp;
use crate::monitoring::error::{AppError, AppResult, app_error_message};

verus! {

/// Page size used when none is asked for.
pub const DEFAULT_LIMIT: i64 = 50i64;

/// Largest page size served.
pub const MAX_LIMIT: i64 = 200i64;

/// The error is a validation error with the given message.
pub open spec fn is_validation_error(e: AppError, message: Seq<char>) -> bool {
    e is Validation && app_error_message(e) == message
}

/// An optional filter as it is applied: trimmed, and dropped when blank.
pub open spec fn normalized(v: Option<Seq<char>>) -> Option<Seq<char>> {
    match v {
        Some(s) => if trimmed(s).len() == 0 {
            None
        } else {
            Some(trimmed(s))
        },
        None => None,
    }
}

/// A transport filter as it is applied: trimmed and upper-cased, dropped when
/// empty, and refused (`Err`) unless it is HTTP or WS.
pub open spec fn normalized_transport(v: Option<Seq<char>>) -> Result<Option<Seq<char>>, ()> {
    match v {
        Some(s) => transport_from_upper(uppercase(trimmed(s))),
        None => Ok(None),
    }
}

/// The transport filter an upper-cased, trimmed value gives: none when it is
/// empty, itself when it is HTTP or WS, refused otherwise.
pub open spec fn transport_from_upper(n: Seq<char>) -> Result<Option<Seq<char>>, ()> {
    if n.len() == 0 {
        Ok(None)
    } else if n == "HTTP"@ || n == "WS"@ {
        Ok(Some(n))
    } else {
        Err(())
    }
}

/// A transport filter that is applied is HTTP or WS.
pub proof fn lemma_transport_values(v: Option<Seq<char>>)
    ensures
        normalized_transport(v) matches Ok(Some(n)) ==> (n == "HTTP"@ || n == "WS"@),
{
}

/// An applied transport filter normalises to itself, wherever case mapping
/// leaves "HTTP" and "WS" as they are.
pub proof fn lemma_transport_normalises_to_itself(v: Option<Seq<char>>)
    ensures
        (uppercase("HTTP"@) == "HTTP"@ && uppercase("WS"@) == "WS"@) ==> (normalized_transport(v) matches Ok(
            Some(n),
        ) ==> normalized_transport(Some(n)) == Ok::<Option<Seq<char>>, ()>(Some(n))),
{
    reveal_strlit("HTTP");
    reveal_strlit("WS");
    assert(trimmed("HTTP"@) == "HTTP"@);
    assert(trimmed("WS"@) == "WS"@);
}

/// Trims a filter and drops it when it is blank.
pub fn normalize(value: Option<String>) -> (r: Option<String>)
    ensures
        opt_text(r) == normalized(opt_text(value)),
{
    match value {
        Some(x) => {
            let t = trim(x.as_str());
            if t.unicode_len() == 0 {
                None
            } else {
                Some(t.to_owned())
            }
        },
        None => None,
    }
}

/// Normalises a transport filter to HTTP or WS; blank means no filter.
pub fn normalize_transport(value: Option<String>) -> (r: AppResult<Option<String>>)
    ensures
        match r {
            Ok(o) => normalized_transport(opt_text(value)) == Ok::<Option<Seq<char>>, ()>(
                opt_text(o),
            ),
            Err(e) => normalized_transport(opt_text(value)) is Err && is_validation_error(
                e,
                "transport must be HTTP or WS"@,
            ),
        },
{
    let value = match value {
        Some(v) => v,
        None => return Ok(None),
    };
    transport_filter(to_upper(trim(value.as_str())))
}

/// The transport filter of a trimmed, upper-cased value: an empty value means
/// no filter, HTTP and WS are kept, anything else is refused.
pub fn transport_filter(upper: String) -> (r: AppResult<Option<String>>)
    ensures
        match r {
            Ok(o) => transport_from_upper(upper@) == Ok::<Option<Seq<char>>, ()>(opt_text(o)),
            Err(e) => transport_from_upper(upper@) is Err && is_validation_error(
                e,
                "transport must be HTTP or WS"@,
            ),
        },
{
    if upper.as_str().unicode_len() == 0 {
        return Ok(None);
    }
    if !text_eq(upper.as_str(), "HTTP") && !text_eq(upper.as_str(), "WS") {
        return Err(AppError::validation(String::from_str("transport must be HTTP or WS")));
    }
    Ok(Some(upper))
}

/// Normalising a filter twice changes nothing more than normalising it once.
pub proof fn lemma_normalize_idempotent(v: Option<Seq<char>>)
    ensures
        normalized(normalized(v)) == normalized(v),
{
    if let Some(s) = v {
        lemma_trim_idempotent(s);
    }
}

/// A normalised filter is never blank.
pub proof fn lemma_normalized_not_blank(v: Option<Seq<char>>)
    ensures
        normalized(v) matches Some(s) ==> !is_blank(s),
{
    if let Some(s) = v {
        lemma_trim_idempotent(s);
        lemma_trimmed_empty_iff_blank(trimmed(s));
    }
}

/// Why a page request is refused, if it is.
pub open spec fn page_failure(limit: i64, offset: i64) -> Option<Seq<char>> {
    if limit <= 0 {
        Some("limit must be > 0"@)
    } else if limit > MAX_LIMIT {
        Some("limit must be <= 200"@)
    } else if offset < 0 {
        Some("offset must be >= 0"@)
    } else {
        None
    }
}

/// A page that passes the checks asks for 1 to 200 items from an offset of
/// at least 0.
pub proof fn lemma_accepted_page_bounds(limit: i64, offset: i64)
    requires
        page_failure(limit, offset) is None,
    ensures
        1 <= limit <= MAX_LIMIT,
        offset >= 0,
{
}

/// A page request is accepted exactly when it asks for 1 to 200 items from
/// an offset of at least 0, whatever the offset is relative to the limit.
pub proof fn lemma_page_accepted_iff_in_bounds(limit: i64, offset: i64)
    ensures
        page_failure(limit, offset) is None <==> (1 <= limit <= 200 && offset >= 0),
{
}

/// The page size asked for, or the default.
pub open spec fn limit_or_default(limit: Option<i64>) -> i64 {
    match limit {
        Some(l) => l,
        None => DEFAULT_LIMIT,
    }
}

/// The offset asked for, or zero.
pub open spec fn offset_or_default(offset: Option<i64>) -> i64 {
    match offset {
        Some(o) => o,
        None => 0,
    }
}

/// Checks a page request; the result is the page size and offset to read.
fn check_page(limit: i64, offset: i64) -> (r: AppResult<()>)
    ensures
        match r {
            Ok(_) => page_failure(limit, offset) is None,
            Err(e) => page_failure(limit, offset) matches Some(m) && is_validation_error(e, m),
        },
{
    if limit <= 0 {
        return Err(AppError::validation(String::from_str("limit must be > 0")));
    }
    if limit > MAX_LIMIT {
        return Err(AppError::validation(String::from_str("limit must be <= 200")));
    }
    if offset < 0 {
        return Err(AppError::validation(String::from_str("offset must be >= 0")));
    }
    Ok(())
}

/// Resolves the page of the trace list: defaults of 50 and 0, a page size of
/// 1 to 200, and an offset of at least 0.
pub fn prepare_trace_list_page(limit: Option<i64>, offset: Option<i64>) -> (r: AppResult<
    (i64, i64),
>)
    ensures
        match r {
            Ok(p) => page_failure(limit_or_default(limit), offset_or_default(offset)) is None
                && p == (limit_or_default(limit), offset_or_default(offset)),
            Err(e) => page_failure(limit_or_default(limit), offset_or_default(offset)) matches Some(
                m,
            ) && is_validation_error(e, m),
        },
{
    let limit = match limit {
        Some(l) => l,
        None => DEFAULT_LIMIT,
    };
    let offset = match offset {
        Some(o) => o,
        None => 0,
    };
    check_page(limit, offset)?;
    Ok((limit, offset))
}

/// The query parameters of the trace list.
#[derive(Clone, Debug)]
pub struct TraceListQueryParams {
    pub limit: Option<i64>,
    pub offset: Option<i64>,
}

/// Checks the trace id of a trace lookup.
pub fn check_trace_id(trace_id: &str) -> (r: AppResult<()>)
    ensures
        match r {
            Ok(_) => !is_blank(trace_id@),
            Err(e) => is_blank(trace_id@) && is_validation_error(e, "trace_id is empty"@),
        },
{
    if is_blank_text(trace_id) {
        return Err(AppError::validation(String::from_str("trace_id is empty")));
    }
    Ok(())
}

/// Checks the key of an idempotency lookup.
pub fn check_idempotency_key(idempotency_key: &str) -> (r: AppResult<()>)
    ensures
        match r {
            Ok(_) => !is_blank(idempotency_key@),
            Err(e) => is_blank(idempotency_key@) && is_validation_error(
                e,
                "idempotencyKey is empty"@,
            ),
        },
{
    if is_blank_text(idempotency_key) {
        return Err(AppError::validation(String::from_str("idempotencyKey is empty")));
    }
    Ok(())
}

/// A time window is inverted: both ends given and the start after the end.
pub open spec fn inverted_window(from: Option<Timestamp>, to: Option<Timestamp>) -> bool {
    from matches Some(f) && to matches Some(t) && f@.0 > t@.0
}

/// A window with an open end is never inverted; a closed window is inverted
/// exactly when its start is a later instant than its end.
pub proof fn lemma_window_inversion(from: Option<Timestamp>, to: Option<Timestamp>)
    ensures
        to is None ==> !inverted_window(from, to),
        from is None ==> !inverted_window(from, to),
        from matches Some(f) ==> (to matches Some(t) ==> (inverted_window(from, to) <==> f@.0
            > t@.0)),
{
}

fn window_inverted(from: &Option<Timestamp>, to: &Option<Timestamp>) -> (r: bool)
    ensures
        r == inverted_window(*from, *to),
{
    match (from, to) {
        (Some(f), Some(t)) => f.is_after(t),
        _ => false,
    }
}

/// The filters of an event list request as they arrive.
#[derive(Clone, Debug)]
pub struct GetEventListInput {
    pub service: Option<String>,
    pub event_type: Option<String>,
    pub trace_id: Option<String>,
    pub idempotency_key: Option<String>,
    pub operation: Option<String>,
    pub transport: Option<String>,
    pub from: Option<Timestamp>,
    pub to: Option<Timestamp>,
    pub limit: Option<i64>,
    pub offset: Option<i64>,
}

/// The filters of an event list read as they are applied.
#[derive(Clone, Debug)]
pub struct EventListQuery {
    pub service: Option<String>,
    pub event_type: Option<String>,
    pub trace_id: Option<String>,
    pub idempotency_key: Option<String>,
    pub operation: Option<String>,
    pub transport: Option<String>,
    pub from: Option<Timestamp>,
    pub to: Option<Timestamp>,
    pub limit: i64,
    pub offset: i64,
}

/// Why an event list request is refused, if it is.
pub open spec fn event_list_failure(input: GetEventListInput) -> Option<Seq<char>> {
    let limit = limit_or_default(input.limit);
    let offset = offset_or_default(input.offset);
    if page_failure(limit, offset) is Some {
        page_failure(limit, offset)
    } else if inverted_window(input.from, input.to) {
        Some("from must be <= to"@)
    } else if normalized_transport(opt_text(input.transport)) is Err {
        Some("transport must be HTTP or WS"@)
    } else {
        None
    }
}

/// Checks and normalises an event list request into the query to run.
pub fn prepare_event_list_query(input: GetEventListInput) -> (r: AppResult<EventListQuery>)
    ensures
        match r {
            Ok(q) => {
                &&& event_list_failure(input) is None
                &&& opt_text(q.service) == normalized(opt_text(input.service))
                &&& opt_text(q.event_type) == normalized(opt_text(input.event_type))
                &&& opt_text(q.trace_id) == normalized(opt_text(input.trace_id))
                &&& opt_text(q.idempotency_key) == normalized(opt_text(input.idempotency_key))
                &&& opt_text(q.operation) == normalized(opt_text(input.operation))
                &&& normalized_transport(opt_text(input.transport)) == Ok::<
                    Option<Seq<char>>,
                    (),
                >(opt_text(q.transport))
                &&& q.from == input.from
                &&& q.to == input.to
                &&& q.limit == limit_or_default(input.limit)
                &&& q.offset == offset_or_default(input.offset)
            },
            Err(e) => event_list_failure(input) matches Some(m) && is_validation_error(e, m),
        },
{
    let limit = match input.limit {
        Some(l) => l,
        None => DEFAULT_LIMIT,
    };
    let offset = match input.offset {
        Some(o) => o,
        None => 0,
    };
    check_page(limit, offset)?;
    if window_inverted(&input.from, &input.to) {
        return Err(AppError::validation(String::from_str("from must be <= to")));
    }
    let service = normalize(input.service);
    let event_type = normalize(input.event_type);
    let trace_id = normalize(input.trace_id);
    let idempotency_key = normalize(input.idempotency_key);
    let operation = normalize(input.operation);
    let transport = normalize_transport(input.transport)?;
    Ok(
        EventListQuery {
            service,
            event_type,
            trace_id,
            idempotency_key,
            operation,
            transport,
            from: input.from,
            to: input.to,
            limit,
            offset,
        },
    )
}

/// The width of the buckets of a metrics time series.
#[derive(Clone, Copy, Debug, PartialEq, Eq, Structural)]
pub enum MetricsBucket {
    Minute,
    Hour,
}

/// A metrics time series request as it arrives.
#[derive(Clone, Debug)]
pub struct GetMetricsTimeseriesInput {
    pub bucket: Option<String>,
    pub from: Option<Timestamp>,
    pub to: Option<Timestamp>,
}

/// A metrics time series read as it is run.
#[derive(Clone, Debug)]
pub struct MetricsTimeseriesQuery {
    pub bucket: MetricsBucket,
    pub from: Option<Timestamp>,
    pub to: Option<Timestamp>,
}

/// The bucket named by a request: "minute" when none is named, matched after
/// trimming and lower-casing.
pub open spec fn requested_bucket(bucket: Option<Seq<char>>) -> Option<MetricsBucket> {
    match bucket {
        Some(b) => bucket_from_lower(lowercase(trimmed(b))),
        None => bucket_from_lower(lowercase(trimmed("minute"@))),
    }
}

/// The bucket a trimmed, lower-cased name denotes: "minute" or "hour".
pub open spec fn bucket_from_lower(name: Seq<char>) -> Option<MetricsBucket> {
    if name == "minute"@ {
        Some(MetricsBucket::Minute)
    } else if name == "hour"@ {
        Some(MetricsBucket::Hour)
    } else {
        None
    }
}

/// The bucket a trimmed, lower-cased name denotes, if any.
pub fn bucket_from_name(name: &str) -> (r: Option<MetricsBucket>)
    ensures
        r == bucket_from_lower(name@),
{
    if text_eq(name, "minute") {
        Some(MetricsBucket::Minute)
    } else if text_eq(name, "hour") {
        Some(MetricsBucket::Hour)
    } else {
        None
    }
}

/// Checks a metrics time series request and resolves its bucket.
pub fn prepare_metrics_timeseries_query(input: GetMetricsTimeseriesInput) -> (r: AppResult<
    MetricsTimeseriesQuery,
>)
    ensures
        match r {
            Ok(q) => !inverted_window(input.from, input.to) && requested_bucket(
                opt_text(input.bucket),
            ) == Some(q.bucket) && q.from == input.from && q.to == input.to,
            Err(e) => if inverted_window(input.from, input.to) {
                is_validation_error(e, "from must be <= to"@)
            } else {
                requested_bucket(opt_text(input.bucket)) is None && is_validation_error(
                    e,
                    "bucket must be minute or hour"@,
                )
            },
        },
{
    if window_inverted(&input.from, &input.to) {
        return Err(AppError::validation(String::from_str("from must be <= to")));
    }
    let raw = match input.bucket {
        Some(b) => b,
        None => String::from_str("minute"),
    };
    let name = to_lower(trim(raw.as_str()));
    let bucket = match bucket_from_name(name.as_str()) {
        Some(b) => b,
        None => {
            return Err(AppError::validation(String::from_str("bucket must be minute or hour")));
        },
    };
    Ok(MetricsTimeseriesQuery { bucket, from: input.from, to: input.to })
}

} // verus!
