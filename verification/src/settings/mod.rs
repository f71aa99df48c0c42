//! The settings service: per-user, per-application preferences, hidden
//! accounts, and the rules for who may touch them.

pub mod enums;
pub mod errors;
pub mod model;
pub mod dto;
pub mod service;
pub mod auth;
pub mod http;
pub mod config;
