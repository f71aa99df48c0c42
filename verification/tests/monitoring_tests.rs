use backend_core::monitoring::config::{AppConfig, AppConfigSource, CorsPolicy};
use backend_core::monitoring::consumer::{
    classify_ingest_error, decode_payload, delivery_action, topology_plan, DeliveryAction, MessageProcessingError,
    TopologyStep,
};
use backend_core::monitoring::dto::{
    HealthResponse, IdempotencyResponse, IngestEventsBatchRequest, TraceEventResponse,
    TraceListItemResponse, TraceListResponse, TraceResponse,
};
use backend_core::monitoring::error::AppError;
use backend_core::monitoring::event::{
    method_is_write_like, upper_method_is_write, MonitoringError, MonitoringEvent, MonitoringEventType,
};
use backend_core::monitoring::ingest::{
    check_batch_not_empty, check_event_for_ingest, BatchIngestion, BatchItemOutcome,
};
use backend_core::monitoring::lookups::{
    idempotency_response_or_not_found, trace_response_or_not_found,
};
use backend_core::monitoring::queries::{
    bucket_from_name, check_idempotency_key, check_trace_id, normalize, normalize_transport,
    transport_filter,
    prepare_event_list_query, prepare_metrics_timeseries_query, prepare_trace_list_page,
    GetEventListInput, GetMetricsTimeseriesInput, MetricsBucket,
};
use backend_core::monitoring::views::{IdempotencyEventView, TraceEventView, TraceListItemView};
use backend_core::timestamp::{format_rfc3339, render_timestamp, Timestamp};

fn ts(nanos: i128) -> Timestamp {
    Timestamp::new(nanos, 0).unwrap()
}

fn event(event_type: MonitoringEventType) -> MonitoringEvent {
    MonitoringEvent {
        trace_id: "trace-1".to_string(),
        idempotency_key: None,
        event_type,
        timestamp: ts(0),
        service: "orders".to_string(),
        operation: None,
        span_id: None,
        parent_span_id: None,
        method: None,
        path: None,
        status: None,
        duration_ms: None,
        success: None,
        attempt: None,
        error: None,
    }
}

fn validation_message(e: &AppError) -> String {
    match e {
        AppError::Validation(m) => m.clone(),
        other => panic!("expected a validation error, got {:?}", other),
    }
}

#[test]
fn event_type_db_values() {
    assert_eq!(MonitoringEventType::Request.as_db_value(), "REQUEST");
    assert_eq!(MonitoringEventType::Response.as_db_value(), "RESPONSE");
    assert_eq!(MonitoringEventType::Error.as_db_value(), "ERROR");
    assert_eq!(MonitoringEventType::Retry.as_db_value(), "RETRY");
    assert_eq!(MonitoringEventType::CircuitBreakerOpen.as_db_value(), "CIRCUIT_BREAKER_OPEN");
    assert_eq!(MonitoringEventType::CircuitBreakerClose.as_db_value(), "CIRCUIT_BREAKER_CLOSE");
    assert_eq!(MonitoringEventType::IdempotencyReplay.as_db_value(), "IDEMPOTENCY_REPLAY");
    assert_eq!(
        MonitoringEventType::IdempotencyInProgress.as_db_value(),
        "IDEMPOTENCY_IN_PROGRESS"
    );
    assert_eq!(MonitoringEventType::IdempotencyConflict.as_db_value(), "IDEMPOTENCY_CONFLICT");
}

#[test]
fn valid_event_passes() {
    assert_eq!(event(MonitoringEventType::Request).validate(), Ok(()));
}

#[test]
fn blank_trace_id_is_refused_first() {
    let mut e = event(MonitoringEventType::Request);
    e.trace_id = " \t ".to_string();
    e.service = "".to_string();
    assert_eq!(e.validate(), Err("traceId is empty".to_string()));
}

#[test]
fn blank_service_is_refused() {
    let mut e = event(MonitoringEventType::Request);
    e.service = "\n".to_string();
    assert_eq!(e.validate(), Err("service is empty".to_string()));
}

#[test]
fn blank_operation_is_refused() {
    let mut e = event(MonitoringEventType::Request);
    e.operation = Some("  ".to_string());
    assert_eq!(e.validate(), Err("operation must not be blank".to_string()));
    e.operation = Some("create".to_string());
    assert_eq!(e.validate(), Ok(()));
}

#[test]
fn negative_duration_is_refused() {
    let mut e = event(MonitoringEventType::Response);
    e.duration_ms = Some(-1);
    assert_eq!(e.validate(), Err("durationMs must be >= 0".to_string()));
    e.duration_ms = Some(0);
    assert_eq!(e.validate(), Ok(()));
}

#[test]
fn non_positive_attempt_is_refused() {
    let mut e = event(MonitoringEventType::Retry);
    e.attempt = Some(0);
    assert_eq!(e.validate(), Err("attempt must be > 0".to_string()));
    e.attempt = Some(1);
    assert_eq!(e.validate(), Ok(()));
}

#[test]
fn idempotency_events_need_a_key() {
    for t in [
        MonitoringEventType::IdempotencyReplay,
        MonitoringEventType::IdempotencyInProgress,
        MonitoringEventType::IdempotencyConflict,
    ] {
        let mut e = event(t);
        assert_eq!(
            e.validate(),
            Err("idempotencyKey is required for idempotency events".to_string())
        );
        e.idempotency_key = Some(" ".to_string());
        assert!(e.validate().is_err());
        e.idempotency_key = Some("key-1".to_string());
        assert_eq!(e.validate(), Ok(()));
    }
}

#[test]
fn retry_of_write_needs_a_key() {
    let mut e = event(MonitoringEventType::Retry);
    e.method = Some("post".to_string());
    assert_eq!(
        e.validate(),
        Err("idempotencyKey is required for RETRY of write-like requests".to_string())
    );
    e.method = Some("GET".to_string());
    assert_eq!(e.validate(), Ok(()));
    e.method = Some("Delete".to_string());
    e.idempotency_key = Some("k".to_string());
    assert_eq!(e.validate(), Ok(()));
}

#[test]
fn write_like_methods_follow_unicode_upper_case() {
    assert!(method_is_write_like("put"));
    assert!(method_is_write_like("PATCH"));
    assert!(!method_is_write_like("get"));
    assert!(!method_is_write_like(" post"));
    // U+017F LATIN SMALL LETTER LONG S upper-cases to 'S'.
    assert!(method_is_write_like("po\u{17f}t"));
}

#[test]
fn ingest_check_wraps_the_rule_message() {
    let mut e = event(MonitoringEventType::Request);
    assert!(check_event_for_ingest(&e).is_ok());
    e.service = String::new();
    let err = check_event_for_ingest(&e).unwrap_err();
    assert_eq!(validation_message(&err), "service is empty");
}

#[test]
fn error_columns_follow_the_error() {
    let mut e = event(MonitoringEventType::Error);
    assert_eq!(e.error_columns(), (None, None, None));
    e.error = Some(MonitoringError {
        code: Some("E1".to_string()),
        error_type: None,
        message: Some("boom".to_string()),
    });
    assert_eq!(e.error_columns(), (Some("E1".to_string()), None, Some("boom".to_string())));
}

#[test]
fn app_error_texts_and_answers() {
    let v = AppError::validation("bad".to_string());
    assert_eq!(v.to_string(), "validation error: bad");
    assert_eq!(AppError::not_found("x".to_string()).to_string(), "not found: x");
    assert_eq!(AppError::Conflict("c".to_string()).to_string(), "conflict: c");
    assert_eq!(AppError::infrastructure("db".to_string()).to_string(), "infrastructure error: db");
    assert_eq!(AppError::internal("oops".to_string()).to_string(), "internal error: oops");
    let a = v.into_answer();
    assert_eq!(a.status, 400);
    assert_eq!(a.body.error, "validation_error");
    assert_eq!(a.body.message, "bad");
    assert!(!a.server_side);
    let a = AppError::not_found("t".to_string()).into_answer();
    assert_eq!((a.status, a.body.error.as_str(), a.server_side), (404, "not_found", false));
    let a = AppError::Conflict("t".to_string()).into_answer();
    assert_eq!((a.status, a.body.error.as_str(), a.server_side), (409, "conflict", false));
    let a = AppError::infrastructure("t".to_string()).into_answer();
    assert_eq!((a.status, a.body.error.as_str(), a.server_side), (503, "infrastructure_error", true));
    let a = AppError::internal("t".to_string()).into_answer();
    assert_eq!((a.status, a.body.error.as_str(), a.server_side), (500, "internal_error", true));
}

#[test]
fn normalize_trims_and_drops_blank() {
    assert_eq!(normalize(Some("  orders \n".to_string())), Some("orders".to_string()));
    assert_eq!(normalize(Some(" \t".to_string())), None);
    assert_eq!(normalize(None), None);
    let once = normalize(Some("  a b  ".to_string()));
    assert_eq!(normalize(once.clone()), once);
}

#[test]
fn transport_is_http_or_ws() {
    assert_eq!(normalize_transport(Some(" http ".to_string())).unwrap(), Some("HTTP".to_string()));
    assert_eq!(normalize_transport(Some("Ws".to_string())).unwrap(), Some("WS".to_string()));
    assert_eq!(normalize_transport(Some("   ".to_string())).unwrap(), None);
    assert_eq!(normalize_transport(None).unwrap(), None);
    let err = normalize_transport(Some("tcp".to_string())).unwrap_err();
    assert_eq!(validation_message(&err), "transport must be HTTP or WS");
}

#[test]
fn trace_list_page_defaults_and_bounds() {
    assert_eq!(prepare_trace_list_page(None, None).unwrap(), (50, 0));
    assert_eq!(prepare_trace_list_page(Some(200), Some(7)).unwrap(), (200, 7));
    assert_eq!(prepare_trace_list_page(Some(1), None).unwrap(), (1, 0));
    assert_eq!(
        validation_message(&prepare_trace_list_page(Some(0), None).unwrap_err()),
        "limit must be > 0"
    );
    assert_eq!(
        validation_message(&prepare_trace_list_page(Some(201), None).unwrap_err()),
        "limit must be <= 200"
    );
    assert_eq!(
        validation_message(&prepare_trace_list_page(None, Some(-1)).unwrap_err()),
        "offset must be >= 0"
    );
}

fn list_input() -> GetEventListInput {
    GetEventListInput {
        service: Some(" orders ".to_string()),
        event_type: Some("".to_string()),
        trace_id: None,
        idempotency_key: Some("k".to_string()),
        operation: None,
        transport: Some("ws".to_string()),
        from: Some(ts(1_000)),
        to: Some(ts(2_000)),
        limit: None,
        offset: Some(10),
    }
}

#[test]
fn event_list_query_is_normalised() {
    let q = prepare_event_list_query(list_input()).unwrap();
    assert_eq!(q.service, Some("orders".to_string()));
    assert_eq!(q.event_type, None);
    assert_eq!(q.trace_id, None);
    assert_eq!(q.idempotency_key, Some("k".to_string()));
    assert_eq!(q.transport, Some("WS".to_string()));
    assert_eq!(q.limit, 50);
    assert_eq!(q.offset, 10);
    assert_eq!(q.from.unwrap().unix_nanos(), 1_000);
}

#[test]
fn event_list_query_refusals() {
    let mut input = list_input();
    input.from = Some(ts(3_000));
    assert_eq!(
        validation_message(&prepare_event_list_query(input).unwrap_err()),
        "from must be <= to"
    );
    let mut input = list_input();
    input.limit = Some(500);
    input.from = Some(ts(3_000));
    assert_eq!(
        validation_message(&prepare_event_list_query(input).unwrap_err()),
        "limit must be <= 200"
    );
    let mut input = list_input();
    input.transport = Some("grpc".to_string());
    assert_eq!(
        validation_message(&prepare_event_list_query(input).unwrap_err()),
        "transport must be HTTP or WS"
    );
    let mut input = list_input();
    input.from = Some(ts(2_000));
    assert!(prepare_event_list_query(input).is_ok());
}

#[test]
fn timeseries_bucket_resolution() {
    let q = prepare_metrics_timeseries_query(GetMetricsTimeseriesInput {
        bucket: None,
        from: None,
        to: None,
    })
    .unwrap();
    assert_eq!(q.bucket, MetricsBucket::Minute);
    let q = prepare_metrics_timeseries_query(GetMetricsTimeseriesInput {
        bucket: Some(" HOUR ".to_string()),
        from: None,
        to: Some(ts(5)),
    })
    .unwrap();
    assert_eq!(q.bucket, MetricsBucket::Hour);
    let err = prepare_metrics_timeseries_query(GetMetricsTimeseriesInput {
        bucket: Some("day".to_string()),
        from: None,
        to: None,
    })
    .unwrap_err();
    assert_eq!(validation_message(&err), "bucket must be minute or hour");
    let err = prepare_metrics_timeseries_query(GetMetricsTimeseriesInput {
        bucket: Some("day".to_string()),
        from: Some(ts(10)),
        to: Some(ts(5)),
    })
    .unwrap_err();
    assert_eq!(validation_message(&err), "from must be <= to");
}

#[test]
fn lookup_keys_must_not_be_blank() {
    assert!(check_trace_id("abc").is_ok());
    assert_eq!(validation_message(&check_trace_id("  ").unwrap_err()), "trace_id is empty");
    assert!(check_idempotency_key("k").is_ok());
    assert_eq!(
        validation_message(&check_idempotency_key("").unwrap_err()),
        "idempotencyKey is empty"
    );
}

#[test]
fn timestamps_render_as_rfc3339() {
    assert_eq!(format_rfc3339(&ts(0)), "1970-01-01T00:00:00Z");
    assert_eq!(format_rfc3339(&ts(1_500_000_000)), "1970-01-01T00:00:01.5Z");
    let plus_one = Timestamp::new(0, 3600).unwrap();
    assert_eq!(format_rfc3339(&plus_one), "1970-01-01T01:00:00+01:00");
}

#[test]
fn timestamps_rfc3339_cannot_express_fall_back_to_display() {
    // An offset with seconds is outside RFC 3339.
    let odd = Timestamp::new(0, 30).unwrap();
    let text = format_rfc3339(&odd);
    assert!(text.starts_with("1970-01-01 0:00:30"), "{text}");
}

#[test]
fn timestamp_range_is_enforced() {
    assert!(Timestamp::new(253_402_300_799_999_999_999, 0).is_some());
    assert!(Timestamp::new(253_402_300_800_000_000_000, 0).is_none());
    assert!(Timestamp::new(253_402_300_799_999_999_999, 1).is_none());
    assert!(Timestamp::new(0, 93_600).is_none());
    assert!(Timestamp::new(0, -93_599).is_some());
    let earliest = Timestamp::new(-377_705_116_800_000_000_000, 0).unwrap();
    assert!(format_rfc3339(&earliest).starts_with("-9999-01-01"));
    assert!(Timestamp::new(-377_705_116_800_000_000_001, 0).is_none());
    assert!(Timestamp::new(-377_705_116_800_000_000_000, -1).is_none());
    let latest = Timestamp::new(253_402_300_799_999_999_999, 0).unwrap();
    assert_eq!(format_rfc3339(&latest), "9999-12-31T23:59:59.999999999Z");
}

#[test]
fn whole_millis_truncate_toward_zero() {
    assert_eq!(ts(0).whole_millis_until(&ts(1_999_999)), 1);
    assert_eq!(ts(1_999_999).whole_millis_until(&ts(0)), -1);
    assert_eq!(ts(5).whole_millis_until(&ts(5)), 0);
    assert!(ts(2).is_after(&ts(1)));
    assert!(!ts(1).is_after(&ts(1)));
}

fn trace_view(id: i64, trace: &str, nanos: i128) -> TraceEventView {
    TraceEventView {
        id,
        trace_id: trace.to_string(),
        idempotency_key: None,
        event_type: "REQUEST".to_string(),
        event_timestamp: ts(nanos),
        service: "orders".to_string(),
        operation: None,
        span_id: None,
        parent_span_id: None,
        method: Some("GET".to_string()),
        path: None,
        status: Some(200),
        duration_ms: Some(3),
        success: Some(true),
        attempt: None,
        error_code: None,
        error_type: None,
        error_message: None,
    }
}

#[test]
fn trace_event_response_groups_error_columns() {
    let mut v = trace_view(1, "t", 0);
    let r = TraceEventResponse::from_view(v.clone());
    assert!(r.error.is_none());
    assert_eq!(r.timestamp, "1970-01-01T00:00:00Z");
    assert_eq!(r.status, Some(200));
    v.error_type = Some("Timeout".to_string());
    let r = TraceEventResponse::from_view(v);
    let err = r.error.unwrap();
    assert_eq!(err.error_type, Some("Timeout".to_string()));
    assert_eq!(err.code, None);
    assert_eq!(err.message, None);
}

#[test]
fn trace_response_spans_first_to_last() {
    let events = vec![
        trace_view(1, "t", 0),
        trace_view(2, "t", 1_000_000),
        trace_view(3, "t", 2_500_000_000),
    ];
    let r = TraceResponse::from_trace_events("t".to_string(), events);
    assert_eq!(r.event_count, 3);
    assert_eq!(r.started_at, Some("1970-01-01T00:00:00Z".to_string()));
    assert_eq!(r.finished_at, Some("1970-01-01T00:00:02.5Z".to_string()));
    assert_eq!(r.duration_ms, Some(2500));
    assert_eq!(r.events.iter().map(|e| e.id).collect::<Vec<_>>(), vec![1, 2, 3]);
}

#[test]
fn empty_trace_response() {
    let r = TraceResponse::from_trace_events("t".to_string(), Vec::new());
    assert_eq!(r.event_count, 0);
    assert_eq!(r.started_at, None);
    assert_eq!(r.finished_at, None);
    assert_eq!(r.duration_ms, None);
}

#[test]
fn trace_lookup_not_found() {
    let err = trace_response_or_not_found("abc".to_string(), Vec::new()).unwrap_err();
    match err {
        AppError::NotFound(m) => assert_eq!(m, "trace 'abc' not found"),
        other => panic!("unexpected {:?}", other),
    }
    let ok = trace_response_or_not_found("t".to_string(), vec![trace_view(1, "t", 0)]).unwrap();
    assert_eq!(ok.event_count, 1);
}

fn idem_view(id: i64, trace: &str) -> IdempotencyEventView {
    IdempotencyEventView {
        id,
        trace_id: trace.to_string(),
        idempotency_key: "k".to_string(),
        event_type: "IDEMPOTENCY_REPLAY".to_string(),
        event_timestamp: ts(0),
        service: "orders".to_string(),
        operation: None,
        span_id: None,
        parent_span_id: None,
        method: None,
        path: None,
        status: None,
        duration_ms: None,
        success: None,
        attempt: None,
        error_code: Some("C".to_string()),
        error_type: None,
        error_message: None,
    }
}

#[test]
fn idempotency_trace_ids_are_sorted_and_distinct() {
    let events = vec![idem_view(1, "b"), idem_view(2, "a"), idem_view(3, "b"), idem_view(4, "ab")];
    let r = IdempotencyResponse::from_events("k".to_string(), events);
    assert_eq!(r.event_count, 4);
    assert_eq!(r.trace_ids, vec!["a".to_string(), "ab".to_string(), "b".to_string()]);
    assert_eq!(r.events.iter().map(|e| e.id).collect::<Vec<_>>(), vec![1, 2, 3, 4]);
    assert_eq!(r.events[0].error.as_ref().unwrap().code, Some("C".to_string()));
}

#[test]
fn idempotency_trace_ids_order_by_scalar_value() {
    let events = vec![idem_view(1, "\u{e9}"), idem_view(2, "z"), idem_view(3, "Z")];
    let r = IdempotencyResponse::from_events("k".to_string(), events);
    let mut expected = vec!["\u{e9}".to_string(), "z".to_string(), "Z".to_string()];
    expected.sort();
    assert_eq!(r.trace_ids, expected);
}

#[test]
fn idempotency_lookup_not_found() {
    let err = idempotency_response_or_not_found("k1".to_string(), Vec::new()).unwrap_err();
    match err {
        AppError::NotFound(m) => assert_eq!(m, "idempotency key 'k1' not found"),
        other => panic!("unexpected {:?}", other),
    }
}

#[test]
fn trace_summary_duration() {
    let v = TraceListItemView {
        trace_id: "t".to_string(),
        event_count: 2,
        started_at: ts(0),
        finished_at: ts(42_000_000),
        services: vec!["a".to_string()],
        has_error: true,
    };
    let r = TraceListItemResponse::from_view(v.clone());
    assert_eq!(r.duration_ms, 42);
    assert_eq!(r.finished_at, "1970-01-01T00:00:00.042Z");
    let list = TraceListResponse::from_views(vec![v]);
    assert_eq!(list.items.len(), 1);
    assert!(list.items[0].has_error);
}

#[test]
fn health_response_is_ok() {
    let h = HealthResponse::ok("monitoring-service".to_string());
    assert_eq!(h.status, "OK");
    assert_eq!(h.service, "monitoring-service");
}

#[test]
fn batch_tally_counts_every_event() {
    assert!(check_batch_not_empty(&IngestEventsBatchRequest { events: vec![] }).is_err());
    assert!(check_batch_not_empty(&IngestEventsBatchRequest {
        events: vec![event(MonitoringEventType::Request)]
    })
    .is_ok());
    let mut tally = BatchIngestion::new();
    tally.record(BatchItemOutcome::Accepted);
    tally.record(BatchItemOutcome::Rejected(AppError::validation("service is empty".to_string())));
    tally.record(BatchItemOutcome::Accepted);
    tally.record(BatchItemOutcome::SerializationFailed("bad float".to_string()));
    let r = tally.finish();
    assert_eq!(r.accepted_count, 2);
    assert_eq!(r.rejected_count, 2);
    assert_eq!(r.errors[0].index, 1);
    assert_eq!(r.errors[0].message, "validation error: service is empty");
    assert_eq!(r.errors[1].index, 3);
    assert_eq!(r.errors[1].message, "failed to serialize event to raw payload: bad float");
}

#[test]
fn ingest_failures_are_routed() {
    match classify_ingest_error(AppError::validation("bad".to_string())) {
        MessageProcessingError::InvalidMessage(m) => assert_eq!(m, "bad"),
        _ => panic!("validation errors make the message invalid"),
    }
    let temp = classify_ingest_error(AppError::infrastructure("db down".to_string()));
    assert!(matches!(temp, MessageProcessingError::TemporaryFailure(_)));
    assert_eq!(delivery_action(&Ok(())), DeliveryAction::Ack);
    assert_eq!(delivery_action(&Err(temp)), DeliveryAction::Requeue);
    let invalid = MessageProcessingError::invalid_json("EOF");
    match &invalid {
        MessageProcessingError::InvalidMessage(m) => assert_eq!(m, "invalid json: EOF"),
        _ => panic!(),
    }
    assert_eq!(delivery_action(&Err(invalid)), DeliveryAction::DeadLetterThenAck);
    match MessageProcessingError::invalid_schema("missing field") {
        MessageProcessingError::InvalidMessage(m) => assert_eq!(m, "invalid schema: missing field"),
        _ => panic!(),
    }
}

fn source() -> AppConfigSource {
    AppConfigSource {
        app_name: None,
        http_addr: None,
        cors_allow_origin: None,
        postgres_url: Some("postgres://db".to_string()),
        rabbitmq_url: Some("amqp://mq".to_string()),
        rabbitmq_exchange: None,
        rabbitmq_queue: Some("q".to_string()),
        rabbitmq_dlx: None,
        rabbitmq_dlq: None,
        rabbitmq_routing_key: None,
        rabbitmq_dlq_routing_key: None,
        consumer_tag: None,
    }
}

#[test]
fn config_defaults() {
    let c = AppConfig::from_sources(source());
    assert_eq!(c.app_name, "monitoring-service");
    assert_eq!(c.http_addr, "0.0.0.0:8080");
    assert_eq!(c.cors_allow_origin, "*");
    assert_eq!(c.postgres_url, "postgres://db");
    assert_eq!(c.rabbitmq_url, "amqp://mq");
    assert_eq!(c.rabbitmq_exchange, "monitoring.exchange");
    assert_eq!(c.rabbitmq_queue, "q");
    assert_eq!(c.rabbitmq_dlx, "monitoring.dlx");
    assert_eq!(c.rabbitmq_dlq, "monitoring.queue.dlq");
    assert_eq!(c.rabbitmq_routing_key, "monitoring.event");
    assert_eq!(c.rabbitmq_dlq_routing_key, "monitoring.dead");
    assert_eq!(c.consumer_tag, "monitoring-service-consumer");
    assert!(matches!(CorsPolicy::for_config(&c), CorsPolicy::AnyOrigin));
    let mut s = source();
    s.cors_allow_origin = Some("https://ui.example".to_string());
    match CorsPolicy::for_config(&AppConfig::from_sources(s)) {
        CorsPolicy::Origin(o) => assert_eq!(o, "https://ui.example"),
        CorsPolicy::AnyOrigin => panic!(),
    }
}

#[test]
fn topology_declares_queue_with_dead_lettering() {
    let c = AppConfig::from_sources(source());
    let plan = topology_plan(&c);
    assert_eq!(plan.len(), 6);
    match &plan[0] {
        TopologyStep::DeclareDirectExchange { name } => assert_eq!(name, "monitoring.exchange"),
        _ => panic!(),
    }
    match &plan[2] {
        TopologyStep::DeclareQueue { name, dead_letter } => {
            assert_eq!(name, "q");
            let dl = dead_letter.as_ref().unwrap();
            assert_eq!(dl.exchange, "monitoring.dlx");
            assert_eq!(dl.routing_key, "monitoring.dead");
        }
        _ => panic!(),
    }
    match &plan[5] {
        TopologyStep::BindQueue { queue, exchange, routing_key } => {
            assert_eq!(queue, "monitoring.queue.dlq");
            assert_eq!(exchange, "monitoring.dlx");
            assert_eq!(routing_key, "monitoring.dead");
        }
        _ => panic!(),
    }
}

#[test]
fn payloads_that_are_not_json_are_invalid() {
    assert!(decode_payload(br#"{"traceId":"t"}"#).is_ok());
    match decode_payload(b"{not json") {
        Err(MessageProcessingError::InvalidMessage(m)) => {
            assert!(m.starts_with("invalid json: "), "{m}");
            assert!(m.len() > "invalid json: ".len());
        }
        _ => panic!("a payload that is not JSON is invalid"),
    }
}

#[test]
fn applied_transport_normalises_to_itself() {
    for raw in [" http ", "Ws", "HTTP", "\u{3000}ws\t"] {
        let once = normalize_transport(Some(raw.to_string())).unwrap();
        assert_eq!(normalize_transport(once.clone()).unwrap(), once);
    }
}

#[test]
fn transport_filter_on_upper_cased_values() {
    assert_eq!(transport_filter("HTTP".to_string()).unwrap(), Some("HTTP".to_string()));
    assert_eq!(transport_filter("WS".to_string()).unwrap(), Some("WS".to_string()));
    assert_eq!(transport_filter(String::new()).unwrap(), None);
    assert!(transport_filter("http".to_string()).is_err());
    assert!(transport_filter("GRPC".to_string()).is_err());
}

#[test]
fn write_methods_after_upper_casing() {
    for m in ["POST", "PUT", "PATCH", "DELETE"] {
        assert!(upper_method_is_write(m));
    }
    assert!(!upper_method_is_write("GET"));
    assert!(!upper_method_is_write("post"));
}

#[test]
fn bucket_names_after_lower_casing() {
    assert_eq!(bucket_from_name("minute"), Some(MetricsBucket::Minute));
    assert_eq!(bucket_from_name("hour"), Some(MetricsBucket::Hour));
    assert_eq!(bucket_from_name("Hour"), None);
    assert_eq!(bucket_from_name("day"), None);
}

#[test]
fn rendering_uses_formatted_text_or_display() {
    assert_eq!(render_timestamp(Some("given".to_string()), &ts(0)), "given");
    assert_eq!(render_timestamp(None, &ts(0)), time::OffsetDateTime::UNIX_EPOCH.to_string());
}
