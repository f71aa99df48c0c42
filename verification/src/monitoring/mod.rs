//! The monitoring service: events, their validation, queries over stored
//! events, response shaping, and the decisions of the message consumer.

pub mod event;
pub mod error;
pub mod queries;
pub mod views;
pub mod dto;
pub mod ingest;
pub mod lookups;
pub mod config;
pub mod consumer;
