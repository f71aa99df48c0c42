//! Stored settings and hidden accounts.

use vstd::prelude::*;
use crate::timestamp::Timestamp;
use crate::settings::enums::{AppKind, Theme};

verus! {

/// The stored settings of one user in one application; the user id is the
/// 128-bit value of the user's UUID.
#[derive(Clone, Debug)]
pub struct UserSettings {
    pub user_id: u128,
    pub app_kind: AppKind,
    pub theme: Theme,
    pub locale: String,
    pub version: i64,
    pub created_at: Timestamp,
    pub updated_at: Timestamp,
}

/// An account a user has hidden in one application.
#[derive(Clone, Debug)]
pub struct HiddenAccount {
    pub user_id: u128,
    pub app_kind: AppKind,
    pub account_id: String,
    pub created_at: Timestamp,
}

} // verus!
