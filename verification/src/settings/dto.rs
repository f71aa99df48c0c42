//! Requests and answers of the settings API.

use vstd::prelude::*;
use crate::settings::enums::{AppKind, Theme};

verus! {

/// A request to change the theme.
#[derive(Clone, Debug)]
pub struct UpdateThemeRequest {
    pub theme: Theme,
}

/// A request to change the locale.
#[derive(Clone, Debug)]
pub struct UpdateLocaleRequest {
    pub locale: String,
}

/// The settings of a user in one application.
#[derive(Clone, Debug)]
pub struct SettingsResponse {
    pub app_kind: AppKind,
    pub theme: Theme,
    pub locale: String,
    pub hidden_account_ids: Vec<String>,
}

/// The accounts a user has hidden in one application.
#[derive(Clone, Debug)]
pub struct HiddenAccountsResponse {
    pub account_ids: Vec<String>,
}

} // verus!
