//! Monitoring events as producers publish them, and their validation.

use vstd::prelude::*;
use vstd::string::*;
use crate::text::{is_blank, is_blank_text, opt_text, text_eq, to_upper, uppercase};
use crate::timestamp::Timestamp;

verus! {

/// The kind of a monitoring event.
#[derive(Clone, Copy, Debug, PartialEq, Eq, Structural)]
pub enum MonitoringEventType {
    Request,
    Response,
    Error,
    Retry,
    CircuitBreakerOpen,
    CircuitBreakerClose,
    IdempotencyReplay,
    IdempotencyInProgress,
    IdempotencyConflict,
}

/// The value an event type is stored as.
pub open spec fn event_type_text(t: MonitoringEventType) -> Seq<char> {
    match t {
        MonitoringEventType::Request => "REQUEST"@,
        MonitoringEventType::Response => "RESPONSE"@,
        MonitoringEventType::Error => "ERROR"@,
        MonitoringEventType::Retry => "RETRY"@,
        MonitoringEventType::CircuitBreakerOpen => "CIRCUIT_BREAKER_OPEN"@,
        MonitoringEventType::CircuitBreakerClose => "CIRCUIT_BREAKER_CLOSE"@,
        MonitoringEventType::IdempotencyReplay => "IDEMPOTENCY_REPLAY"@,
        MonitoringEventType::IdempotencyInProgress => "IDEMPOTENCY_IN_PROGRESS"@,
        MonitoringEventType::IdempotencyConflict => "IDEMPOTENCY_CONFLICT"@,
    }
}

impl MonitoringEventType {
    /// The value this event type is stored as.
    pub fn as_db_value(&self) -> (r: &'static str)
        ensures
            r@ == event_type_text(*self),
    {
        match self {
            MonitoringEventType::Request => "REQUEST",
            MonitoringEventType::Response => "RESPONSE",
            MonitoringEventType::Error => "ERROR",
            MonitoringEventType::Retry => "RETRY",
            MonitoringEventType::CircuitBreakerOpen => "CIRCUIT_BREAKER_OPEN",
            MonitoringEventType::CircuitBreakerClose => "CIRCUIT_BREAKER_CLOSE",
            MonitoringEventType::IdempotencyReplay => "IDEMPOTENCY_REPLAY",
            MonitoringEventType::IdempotencyInProgress => "IDEMPOTENCY_IN_PROGRESS",
            MonitoringEventType::IdempotencyConflict => "IDEMPOTENCY_CONFLICT",
        }
    }
}

/// Distinct event types are stored as distinct values.
pub proof fn lemma_event_type_text_injective(a: MonitoringEventType, b: MonitoringEventType)
    requires
        event_type_text(a) == event_type_text(b),
    ensures
        a == b,
{
    reveal_strlit("REQUEST");
    reveal_strlit("RESPONSE");
    reveal_strlit("ERROR");
    reveal_strlit("RETRY");
    reveal_strlit("CIRCUIT_BREAKER_OPEN");
    reveal_strlit("CIRCUIT_BREAKER_CLOSE");
    reveal_strlit("IDEMPOTENCY_REPLAY");
    reveal_strlit("IDEMPOTENCY_IN_PROGRESS");
    reveal_strlit("IDEMPOTENCY_CONFLICT");
    let ta = event_type_text(a);
    let tb = event_type_text(b);
    assert(ta.len() == tb.len() && ta[0] == tb[0]);
    match a {
        MonitoringEventType::Request => {
            assert(ta.len() == 7 && ta[0] == 'R');
        },
        MonitoringEventType::Response => {
            assert(ta.len() == 8 && ta[0] == 'R');
        },
        MonitoringEventType::Error => {
            assert(ta.len() == 5 && ta[0] == 'E');
        },
        MonitoringEventType::Retry => {
            assert(ta.len() == 5 && ta[0] == 'R');
        },
        MonitoringEventType::CircuitBreakerOpen => {
            assert(ta.len() == 20 && ta[0] == 'C');
        },
        MonitoringEventType::CircuitBreakerClose => {
            assert(ta.len() == 21 && ta[0] == 'C');
        },
        MonitoringEventType::IdempotencyReplay => {
            assert(ta.len() == 18 && ta[0] == 'I');
        },
        MonitoringEventType::IdempotencyInProgress => {
            assert(ta.len() == 23 && ta[0] == 'I');
        },
        MonitoringEventType::IdempotencyConflict => {
            assert(ta.len() == 20 && ta[0] == 'I');
        },
    }
    match b {
        MonitoringEventType::Request => {
            assert(tb.len() == 7 && tb[0] == 'R');
        },
        MonitoringEventType::Response => {
            assert(tb.len() == 8 && tb[0] == 'R');
        },
        MonitoringEventType::Error => {
            assert(tb.len() == 5 && tb[0] == 'E');
        },
        MonitoringEventType::Retry => {
            assert(tb.len() == 5 && tb[0] == 'R');
        },
        MonitoringEventType::CircuitBreakerOpen => {
            assert(tb.len() == 20 && tb[0] == 'C');
        },
        MonitoringEventType::CircuitBreakerClose => {
            assert(tb.len() == 21 && tb[0] == 'C');
        },
        MonitoringEventType::IdempotencyReplay => {
            assert(tb.len() == 18 && tb[0] == 'I');
        },
        MonitoringEventType::IdempotencyInProgress => {
            assert(tb.len() == 23 && tb[0] == 'I');
        },
        MonitoringEventType::IdempotencyConflict => {
            assert(tb.len() == 20 && tb[0] == 'I');
        },
    }
}

/// The error an event reports, when it reports one.
#[derive(Clone, Debug)]
pub struct MonitoringError {
    pub code: Option<String>,
    pub error_type: Option<String>,
    pub message: Option<String>,
}

/// One monitoring event.
#[derive(Clone, Debug)]
pub struct MonitoringEvent {
    pub trace_id: String,
    pub idempotency_key: Option<String>,
    pub event_type: MonitoringEventType,
    pub timestamp: Timestamp,
    pub service: String,
    pub operation: Option<String>,
    pub span_id: Option<String>,
    pub parent_span_id: Option<String>,
    pub method: Option<String>,
    pub path: Option<String>,
    pub status: Option<i32>,
    pub duration_ms: Option<i64>,
    pub success: Option<bool>,
    pub attempt: Option<i32>,
    pub error: Option<MonitoringError>,
}

/// Event types that concern an idempotency key.
pub open spec fn is_idempotency_type(t: MonitoringEventType) -> bool {
    ||| t == MonitoringEventType::IdempotencyReplay
    ||| t == MonitoringEventType::IdempotencyInProgress
    ||| t == MonitoringEventType::IdempotencyConflict
}

/// A method is write-like when its upper-case form is POST, PUT, PATCH or DELETE.
pub open spec fn is_write_like(method: Seq<char>) -> bool {
    is_write_method(uppercase(method))
}

/// Whether an upper-cased method is POST, PUT, PATCH or DELETE.
pub open spec fn is_write_method(upper: Seq<char>) -> bool {
    ||| upper == "POST"@
    ||| upper == "PUT"@
    ||| upper == "PATCH"@
    ||| upper == "DELETE"@
}

/// An idempotency key is present and not blank.
pub open spec fn has_idempotency_key(key: Option<Seq<char>>) -> bool {
    key matches Some(k) && !is_blank(k)
}

/// The first rule an event breaks, as the message that reports it; `None`
/// for a valid event.
pub open spec fn validation_failure(e: MonitoringEvent) -> Option<Seq<char>> {
    if is_blank(e.trace_id@) {
        Some("traceId is empty"@)
    } else if is_blank(e.service@) {
        Some("service is empty"@)
    } else if e.operation matches Some(op) && is_blank(op@) {
        Some("operation must not be blank"@)
    } else if e.duration_ms matches Some(d) && d < 0 {
        Some("durationMs must be >= 0"@)
    } else if e.attempt matches Some(a) && a <= 0 {
        Some("attempt must be > 0"@)
    } else if is_idempotency_type(e.event_type) && !has_idempotency_key(
        opt_text(e.idempotency_key),
    ) {
        Some("idempotencyKey is required for idempotency events"@)
    } else if e.event_type == MonitoringEventType::Retry && (e.method matches Some(m)
        && is_write_like(m@)) && !has_idempotency_key(opt_text(e.idempotency_key)) {
        Some("idempotencyKey is required for RETRY of write-like requests"@)
    } else {
        None
    }
}

/// The event's own fields are well formed: non-blank trace id and service,
/// no blank operation, no negative duration and no attempt below one.
pub open spec fn fields_well_formed(e: MonitoringEvent) -> bool {
    &&& !is_blank(e.trace_id@)
    &&& !is_blank(e.service@)
    &&& (e.operation matches Some(op) ==> !is_blank(op@))
    &&& (e.duration_ms matches Some(d) ==> d >= 0)
    &&& (e.attempt matches Some(a) ==> a > 0)
}

/// An event whose fields are well formed and whose type is neither RETRY nor
/// one of the idempotency types is accepted, whatever its method and
/// idempotency key.
pub proof fn lemma_plain_event_accepted(e: MonitoringEvent)
    requires
        fields_well_formed(e),
        e.event_type == MonitoringEventType::Request || e.event_type
            == MonitoringEventType::Response || e.event_type == MonitoringEventType::Error
            || e.event_type == MonitoringEventType::CircuitBreakerOpen || e.event_type
            == MonitoringEventType::CircuitBreakerClose,
    ensures
        validation_failure(e) is None,
{
}

/// An event whose fields are well formed and which carries a non-blank
/// idempotency key is accepted, whatever its type and method.
pub proof fn lemma_keyed_event_accepted(e: MonitoringEvent)
    requires
        fields_well_formed(e),
        e.idempotency_key matches Some(k) && !is_blank(k@),
    ensures
        validation_failure(e) is None,
{
}

/// A RETRY event of a write-like request with well-formed fields is refused
/// exactly when it has no non-blank idempotency key; a RETRY of any other
/// request is accepted.
pub proof fn lemma_retry_key_rule(e: MonitoringEvent)
    requires
        fields_well_formed(e),
        e.event_type == MonitoringEventType::Retry,
    ensures
        (e.method matches Some(m) && is_write_like(m@)) ==> (validation_failure(e) is None
            <==> (e.idempotency_key matches Some(k) && !is_blank(k@))),
        !(e.method matches Some(m) && is_write_like(m@)) ==> validation_failure(e) is None,
{
}

/// An idempotency event with well-formed fields is refused exactly when it
/// has no non-blank idempotency key.
pub proof fn lemma_idempotency_event_key_rule(e: MonitoringEvent)
    requires
        fields_well_formed(e),
        e.event_type == MonitoringEventType::IdempotencyReplay || e.event_type
            == MonitoringEventType::IdempotencyInProgress || e.event_type
            == MonitoringEventType::IdempotencyConflict,
    ensures
        validation_failure(e) is None <==> (e.idempotency_key matches Some(k) && !is_blank(k@)),
{
}

/// An event whose fields are not well formed is refused.
pub proof fn lemma_malformed_event_refused(e: MonitoringEvent)
    requires
        !fields_well_formed(e),
    ensures
        validation_failure(e) is Some,
{
}

/// Whether an optional key is present and not blank.
fn key_present(key: &Option<String>) -> (r: bool)
    ensures
        r == has_idempotency_key(opt_text(*key)),
{
    match key {
        Some(k) => !is_blank_text(k.as_str()),
        None => false,
    }
}

/// Whether an upper-cased method is one of the write methods.
pub fn upper_method_is_write(upper: &str) -> (r: bool)
    ensures
        r == is_write_method(upper@),
{
    text_eq(upper, "POST") || text_eq(upper, "PUT") || text_eq(upper, "PATCH") || text_eq(
        upper,
        "DELETE",
    )
}

/// Whether a method is write-like: its upper-cased form is a write method.
pub fn method_is_write_like(method: &str) -> (r: bool)
    ensures
        r == is_write_like(method@),
{
    let upper = to_upper(method);
    upper_method_is_write(upper.as_str())
}

impl MonitoringEvent {
    /// Checks the event against the ingestion rules; the error is the message
    /// for the first rule broken.
    pub fn validate(&self) -> (r: Result<(), String>)
        ensures
            match r {
                Ok(_) => validation_failure(*self) is None,
                Err(m) => validation_failure(*self) == Some(m@),
            },
    {
        if is_blank_text(self.trace_id.as_str()) {
            return Err(String::from_str("traceId is empty"));
        }
        if is_blank_text(self.service.as_str()) {
            return Err(String::from_str("service is empty"));
        }
        if let Some(operation) = &self.operation {
            if is_blank_text(operation.as_str()) {
                return Err(String::from_str("operation must not be blank"));
            }
        }
        if let Some(duration_ms) = self.duration_ms {
            if duration_ms < 0 {
                return Err(String::from_str("durationMs must be >= 0"));
            }
        }
        if let Some(attempt) = self.attempt {
            if attempt <= 0 {
                return Err(String::from_str("attempt must be > 0"));
            }
        }
        match self.event_type {
            MonitoringEventType::IdempotencyReplay
            | MonitoringEventType::IdempotencyInProgress
            | MonitoringEventType::IdempotencyConflict => {
                if !key_present(&self.idempotency_key) {
                    return Err(
                        String::from_str("idempotencyKey is required for idempotency events"),
                    );
                }
            },
            MonitoringEventType::Retry => {
                if let Some(method) = &self.method {
                    if method_is_write_like(method.as_str()) {
                        if !key_present(&self.idempotency_key) {
                            return Err(
                                String::from_str(
                                    "idempotencyKey is required for RETRY of write-like requests",
                                ),
                            );
                        }
                    }
                }
            },
            _ => {},
        }
        Ok(())
    }

    /// The error columns stored with the event: code, type and message of its
    /// error, each absent when the event reports no error.
    pub fn error_columns(&self) -> (r: (Option<String>, Option<String>, Option<String>))
        ensures
            r.0 == (match self.error {
                Some(e) => e.code,
                None => None,
            }),
            r.1 == (match self.error {
                Some(e) => e.error_type,
                None => None,
            }),
            r.2 == (match self.error {
                Some(e) => e.message,
                None => None,
            }),
    {
        match &self.error {
            Some(e) => (e.code.clone(), e.error_type.clone(), e.message.clone()),
            None => (None, None, None),
        }
    }
}

} // verus!
