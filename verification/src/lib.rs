//! Verified core of the monitoring and settings services: validation of
//! monitoring events and queries, response shaping, message-handling
//! decisions, and the settings domain rules.

pub mod text;
pub mod timestamp;
pub mod monitoring;
pub mod settings;
