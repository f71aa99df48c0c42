//! Decisions of the message consumer: how an ingestion failure is classed,
//! what is done with each delivery, and the broker topology it relies on.

use vstd::prelude::*;
use vstd::string::*;
use crate::monitoring::error::AppError;
use crate::monitoring::config::AppConfig;

verus! {

/// Why a message could not be processed.
#[derive(Clone, Debug)]
pub enum MessageProcessingError {
    /// The message can never be processed; the text says why.
    InvalidMessage(String),
    /// Processing may succeed later.
    TemporaryFailure(AppError),
}

/// The class of an ingestion failure: validation errors make the message
/// invalid, every other error is temporary.
pub open spec fn classified(error: AppError) -> MessageProcessingError {
    match error {
        AppError::Validation(m) => MessageProcessingError::InvalidMessage(m),
        other => MessageProcessingError::TemporaryFailure(other),
    }
}

/// Classes an ingestion failure.
pub fn classify_ingest_error(error: AppError) -> (r: MessageProcessingError)
    ensures
        r == classified(error),
{
    match error {
        AppError::Validation(message) => MessageProcessingError::InvalidMessage(message),
        other => MessageProcessingError::TemporaryFailure(other),
    }
}

impl MessageProcessingError {
    /// A message whose payload is not JSON; `detail` is the parser's account.
    pub fn invalid_json(detail: &str) -> (r: MessageProcessingError)
        ensures
            r matches MessageProcessingError::InvalidMessage(m) && m@ == "invalid json: "@
                + detail@,
    {
        let mut m = String::from_str("invalid json: ");
        m.append(detail);
        MessageProcessingError::InvalidMessage(m)
    }

    /// A message whose JSON is not a monitoring event; `detail` is the
    /// parser's account.
    pub fn invalid_schema(detail: &str) -> (r: MessageProcessingError)
        ensures
            r matches MessageProcessingError::InvalidMessage(m) && m@ == "invalid schema: "@
                + detail@,
    {
        let mut m = String::from_str("invalid schema: ");
        m.append(detail);
        MessageProcessingError::InvalidMessage(m)
    }
}

#[verifier::external_type_specification]
#[verifier::external_body]
pub struct ExJsonValue(serde_json::Value);

/// The message `serde_json` gives for bytes that are not a JSON document, or
/// `None` for bytes that are one.
pub uninterp spec fn json_syntax_error(bytes: Seq<u8>) -> Option<Seq<char>>;

/// Calls `serde_json::from_slice` into a `serde_json::Value`, turning its
/// error into the error's text; whether the bytes parse, and that text, are
/// named `json_syntax_error`, a function of the bytes alone.
#[verifier::external_body]
fn json_from_slice(payload: &[u8]) -> (r: Result<serde_json::Value, String>)
    ensures
        match r {
            Ok(_) => json_syntax_error(payload@) is None,
            Err(m) => json_syntax_error(payload@) == Some(m@),
        },
{
    serde_json::from_slice::<serde_json::Value>(payload).map_err(|e| e.to_string())
}

/// Reads the payload of a delivery as a JSON document; a payload that is not
/// JSON makes the message invalid.
pub fn decode_payload(payload: &[u8]) -> (r: Result<serde_json::Value, MessageProcessingError>)
    ensures
        match r {
            Ok(_) => json_syntax_error(payload@) is None,
            Err(e) => json_syntax_error(payload@) matches Some(d) && e matches MessageProcessingError::InvalidMessage(
                m,
            ) && m@ == "invalid json: "@ + d,
        },
{
    match json_from_slice(payload) {
        Ok(value) => Ok(value),
        Err(detail) => Err(MessageProcessingError::invalid_json(detail.as_str())),
    }
}

/// What is done with a delivery once it has been processed.
#[derive(Clone, Copy, Debug, PartialEq, Eq, Structural)]
pub enum DeliveryAction {
    /// Acknowledge it.
    Ack,
    /// Publish its payload to the dead-letter exchange, then acknowledge it.
    DeadLetterThenAck,
    /// Reject it and have the broker deliver it again.
    Requeue,
}

/// The action for a processing result.
pub open spec fn action_for(result: Result<(), MessageProcessingError>) -> DeliveryAction {
    match result {
        Ok(_) => DeliveryAction::Ack,
        Err(MessageProcessingError::InvalidMessage(_)) => DeliveryAction::DeadLetterThenAck,
        Err(MessageProcessingError::TemporaryFailure(_)) => DeliveryAction::Requeue,
    }
}

/// Decides what is done with a processed delivery.
pub fn delivery_action(result: &Result<(), MessageProcessingError>) -> (r: DeliveryAction)
    ensures
        r == action_for(*result),
{
    match result {
        Ok(()) => DeliveryAction::Ack,
        Err(MessageProcessingError::InvalidMessage(_)) => DeliveryAction::DeadLetterThenAck,
        Err(MessageProcessingError::TemporaryFailure(_)) => DeliveryAction::Requeue,
    }
}

/// A message whose ingestion fails goes to the dead-letter queue exactly when
/// the failure is a validation error; every other failure is requeued.
pub proof fn lemma_failed_ingestion_routing(error: AppError)
    ensures
        action_for(Err(classified(error))) == DeliveryAction::DeadLetterThenAck <==> error is Validation,
        action_for(Err(classified(error))) == DeliveryAction::Requeue <==> !(error is Validation),
{
}

/// Where dead-lettered messages of a queue go.
#[derive(Clone, Debug)]
pub struct DeadLetterTarget {
    pub exchange: String,
    pub routing_key: String,
}

/// One declaration the consumer makes on the broker before consuming.
#[derive(Clone, Debug)]
pub enum TopologyStep {
    /// Declare a direct exchange.
    DeclareDirectExchange { name: String },
    /// Declare a queue, optionally dead-lettering to a target.
    DeclareQueue { name: String, dead_letter: Option<DeadLetterTarget> },
    /// Bind a queue to an exchange under a routing key.
    BindQueue { queue: String, exchange: String, routing_key: String },
}

/// The declarations, in order, that set up the event exchange and queue and
/// their dead-letter exchange and queue.
pub open spec fn planned_topology(config: AppConfig) -> Seq<TopologyStep> {
    seq![
        TopologyStep::DeclareDirectExchange { name: config.rabbitmq_exchange },
        TopologyStep::DeclareDirectExchange { name: config.rabbitmq_dlx },
        TopologyStep::DeclareQueue {
            name: config.rabbitmq_queue,
            dead_letter: Some(
                DeadLetterTarget {
                    exchange: config.rabbitmq_dlx,
                    routing_key: config.rabbitmq_dlq_routing_key,
                },
            ),
        },
        TopologyStep::DeclareQueue { name: config.rabbitmq_dlq, dead_letter: None },
        TopologyStep::BindQueue {
            queue: config.rabbitmq_queue,
            exchange: config.rabbitmq_exchange,
            routing_key: config.rabbitmq_routing_key,
        },
        TopologyStep::BindQueue {
            queue: config.rabbitmq_dlq,
            exchange: config.rabbitmq_dlx,
            routing_key: config.rabbitmq_dlq_routing_key,
        },
    ]
}

/// The broker topology for the settings.
pub fn topology_plan(config: &AppConfig) -> (r: Vec<TopologyStep>)
    ensures
        r@ == planned_topology(*config),
{
    let mut steps: Vec<TopologyStep> = Vec::new();
    steps.push(TopologyStep::DeclareDirectExchange { name: config.rabbitmq_exchange.clone() });
    steps.push(TopologyStep::DeclareDirectExchange { name: config.rabbitmq_dlx.clone() });
    steps.push(
        TopologyStep::DeclareQueue {
            name: config.rabbitmq_queue.clone(),
            dead_letter: Some(
                DeadLetterTarget {
                    exchange: config.rabbitmq_dlx.clone(),
                    routing_key: config.rabbitmq_dlq_routing_key.clone(),
                },
            ),
        },
    );
    steps.push(TopologyStep::DeclareQueue { name: config.rabbitmq_dlq.clone(), dead_letter: None });
    steps.push(
        TopologyStep::BindQueue {
            queue: config.rabbitmq_queue.clone(),
            exchange: config.rabbitmq_exchange.clone(),
            routing_key: config.rabbitmq_routing_key.clone(),
        },
    );
    steps.push(
        TopologyStep::BindQueue {
            queue: config.rabbitmq_dlq.clone(),
            exchange: config.rabbitmq_dlx.clone(),
            routing_key: config.rabbitmq_dlq_routing_key.clone(),
        },
    );
    assert(steps@ =~= planned_topology(*config));
    steps
}

} // verus!
