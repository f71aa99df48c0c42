//! Settings of the monitoring service, resolved from the values the
//! environment provides.

use vstd::prelude::*;
use vstd::string::*;
use crate::text::text_eq;

verus! {

/// The settings of the monitoring service.
#[derive(Clone, Debug)]
pub struct AppConfig {
    pub app_name: String,
    pub http_addr: String,
    pub cors_allow_origin: String,
    pub postgres_url: String,
    pub rabbitmq_url: String,
    pub rabbitmq_exchange: String,
    pub rabbitmq_queue: String,
    pub rabbitmq_dlx: String,
    pub rabbitmq_dlq: String,
    pub rabbitmq_routing_key: String,
    pub rabbitmq_dlq_routing_key: String,
    pub consumer_tag: String,
}

/// The values the environment provides for each setting (`None` when a
/// variable is unset).
#[derive(Clone, Debug)]
pub struct AppConfigSource {
    pub app_name: Option<String>,
    pub http_addr: Option<String>,
    pub cors_allow_origin: Option<String>,
    pub postgres_url: Option<String>,
    pub rabbitmq_url: Option<String>,
    pub rabbitmq_exchange: Option<String>,
    pub rabbitmq_queue: Option<String>,
    pub rabbitmq_dlx: Option<String>,
    pub rabbitmq_dlq: Option<String>,
    pub rabbitmq_routing_key: Option<String>,
    pub rabbitmq_dlq_routing_key: Option<String>,
    pub consumer_tag: Option<String>,
}

/// A provided value, or the default text.
pub open spec fn text_or(value: Option<String>, default: Seq<char>) -> Seq<char> {
    match value {
        Some(v) => v@,
        None => default,
    }
}

fn value_or(value: Option<String>, default: &str) -> (r: String)
    ensures
        r@ == text_or(value, default@),
{
    match value {
        Some(v) => v,
        None => String::from_str(default),
    }
}

impl AppConfig {
    /// The settings from the provided values, with a default for each
    /// optional setting; the database and broker URLs must be provided.
    pub fn from_sources(source: AppConfigSource) -> (r: AppConfig)
        requires
            source.postgres_url is Some,
            source.rabbitmq_url is Some,
        ensures
            r.app_name@ == text_or(source.app_name, "monitoring-service"@),
            r.http_addr@ == text_or(source.http_addr, "0.0.0.0:8080"@),
            r.cors_allow_origin@ == text_or(source.cors_allow_origin, "*"@),
            Some(r.postgres_url) == source.postgres_url,
            Some(r.rabbitmq_url) == source.rabbitmq_url,
            r.rabbitmq_exchange@ == text_or(source.rabbitmq_exchange, "monitoring.exchange"@),
            r.rabbitmq_queue@ == text_or(source.rabbitmq_queue, "monitoring.queue"@),
            r.rabbitmq_dlx@ == text_or(source.rabbitmq_dlx, "monitoring.dlx"@),
            r.rabbitmq_dlq@ == text_or(source.rabbitmq_dlq, "monitoring.queue.dlq"@),
            r.rabbitmq_routing_key@ == text_or(source.rabbitmq_routing_key, "monitoring.event"@),
            r.rabbitmq_dlq_routing_key@ == text_or(
                source.rabbitmq_dlq_routing_key,
                "monitoring.dead"@,
            ),
            r.consumer_tag@ == text_or(source.consumer_tag, "monitoring-service-consumer"@),
    {
        let postgres_url = match source.postgres_url {
            Some(v) => v,
            None => String::new(),
        };
        let rabbitmq_url = match source.rabbitmq_url {
            Some(v) => v,
            None => String::new(),
        };
        AppConfig {
            app_name: value_or(source.app_name, "monitoring-service"),
            http_addr: value_or(source.http_addr, "0.0.0.0:8080"),
            cors_allow_origin: value_or(source.cors_allow_origin, "*"),
            postgres_url,
            rabbitmq_url,
            rabbitmq_exchange: value_or(source.rabbitmq_exchange, "monitoring.exchange"),
            rabbitmq_queue: value_or(source.rabbitmq_queue, "monitoring.queue"),
            rabbitmq_dlx: value_or(source.rabbitmq_dlx, "monitoring.dlx"),
            rabbitmq_dlq: value_or(source.rabbitmq_dlq, "monitoring.queue.dlq"),
            rabbitmq_routing_key: value_or(source.rabbitmq_routing_key, "monitoring.event"),
            rabbitmq_dlq_routing_key: value_or(source.rabbitmq_dlq_routing_key, "monitoring.dead"),
            consumer_tag: value_or(source.consumer_tag, "monitoring-service-consumer"),
        }
    }
}

/// Which origins the HTTP API admits.
#[derive(Clone, Debug)]
pub enum CorsPolicy {
    /// Any origin, method and header ("*").
    AnyOrigin,
    /// Exactly this origin.
    Origin(String),
}

impl CorsPolicy {
    /// The policy the settings ask for: "*" admits any origin, anything else
    /// names the one origin admitted.
    pub fn for_config(config: &AppConfig) -> (r: CorsPolicy)
        ensures
            config.cors_allow_origin@ == "*"@ ==> r is AnyOrigin,
            config.cors_allow_origin@ != "*"@ ==> r == CorsPolicy::Origin(config.cors_allow_origin),
    {
        if text_eq(config.cors_allow_origin.as_str(), "*") {
            CorsPolicy::AnyOrigin
        } else {
            CorsPolicy::Origin(config.cors_allow_origin.clone())
        }
    }
}

} // verus!
