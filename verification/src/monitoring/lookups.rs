//! Answers to lookups of one trace or one idempotency key: a lookup that finds
//! nothing is answered as not found.

use vstd::prelude::*;
use vstd::string::*;
use crate::monitoring::error::{AppError, AppResult, app_error_message};
use crate::monitoring::views::{IdempotencyEventView, TraceEventView};
use crate::monitoring::dto::{
    answers_idempotency_event, answers_trace_event, event_trace_ids, trace_duration,
    IdempotencyResponse, TraceResponse,
};
use crate::text::{opt_text, strictly_ascending, texts};
use crate::timestamp::timestamp_text;

verus! {

/// The answer to a trace lookup: not found when the trace has no events,
/// else the trace built from its events.
pub fn trace_response_or_not_found(trace_id: String, events: Vec<TraceEventView>) -> (r: AppResult<
    TraceResponse,
>)
    ensures
        match r {
            Ok(t) => {
                &&& events.len() > 0
                &&& t.trace_id == trace_id
                &&& t.event_count == events.len()
                &&& opt_text(t.started_at) == Some(timestamp_text(events@[0].event_timestamp@))
                &&& opt_text(t.finished_at) == Some(
                    timestamp_text(events@[events.len() - 1].event_timestamp@),
                )
                &&& t.duration_ms == trace_duration(events@)
                &&& t.events.len() == events.len()
                &&& forall|i: int|
                    0 <= i < events.len() ==> answers_trace_event(#[trigger] t.events@[i], events@[i])
            },
            Err(e) => events.len() == 0 && e is NotFound && app_error_message(e) == "trace '"@
                + trace_id@ + "' not found"@,
        },
{
    if events.len() == 0 {
        let mut message = String::from_str("trace '");
        message.append(trace_id.as_str());
        message.append("' not found");
        return Err(AppError::not_found(message));
    }
    Ok(TraceResponse::from_trace_events(trace_id, events))
}

/// The answer to an idempotency lookup: not found when no event carries the
/// key, else the events and the traces they belong to.
pub fn idempotency_response_or_not_found(
    idempotency_key: String,
    events: Vec<IdempotencyEventView>,
) -> (r: AppResult<IdempotencyResponse>)
    ensures
        match r {
            Ok(t) => {
                &&& events.len() > 0
                &&& t.idempotency_key == idempotency_key
                &&& t.event_count == events.len()
                &&& strictly_ascending(texts(t.trace_ids@))
                &&& texts(t.trace_ids@).to_set() == event_trace_ids(events@).to_set()
                &&& t.events.len() == events.len()
                &&& forall|i: int|
                    0 <= i < events.len() ==> answers_idempotency_event(
                        #[trigger] t.events@[i],
                        events@[i],
                    )
            },
            Err(e) => events.len() == 0 && e is NotFound && app_error_message(e)
                == "idempotency key '"@ + idempotency_key@ + "' not found"@,
        },
{
    if events.len() == 0 {
        let mut message = String::from_str("idempotency key '");
        message.append(idempotency_key.as_str());
        message.append("' not found");
        return Err(AppError::not_found(message));
    }
    Ok(IdempotencyResponse::from_events(idempotency_key, events))
}

} // verus!
