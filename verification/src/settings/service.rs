//! The decisions of the settings service: what is checked before a write,
//! what an update keeps, and what is answered.

use vstd::prelude::*;
use vstd::string::*;
use crate::text::{is_blank, is_blank_text};
use crate::settings::enums::{AppKind, Theme};
use crate::settings::errors::ApplicationError;
use crate::settings::model::UserSettings;
use crate::settings::dto::SettingsResponse;

verus! {

/// Longest locale accepted, in bytes of UTF-8.
pub const MAX_LOCALE_BYTES: usize = 16usize;

/// Longest account id accepted, in bytes of UTF-8.
pub const MAX_ACCOUNT_ID_BYTES: usize = 128usize;

/// A locale is acceptable when it is not blank and fits 16 bytes.
pub open spec fn locale_acceptable(locale: &str) -> bool {
    !is_blank(locale@) && locale.len() <= MAX_LOCALE_BYTES
}

/// An account id is acceptable when it is not blank and fits 128 bytes.
pub open spec fn account_id_acceptable(account_id: &str) -> bool {
    !is_blank(account_id@) && account_id.len() <= MAX_ACCOUNT_ID_BYTES
}

/// Checks a locale before it is stored.
pub fn validate_locale(locale: &str) -> (r: Result<(), ApplicationError>)
    ensures
        r is Ok <==> locale_acceptable(locale),
        r matches Err(e) ==> e is InvalidLocale,
{
    if is_blank_text(locale) || locale.len() > MAX_LOCALE_BYTES {
        return Err(ApplicationError::InvalidLocale);
    }
    Ok(())
}

/// Checks an account id before it is hidden or shown again.
pub fn validate_account_id(account_id: &str) -> (r: Result<(), ApplicationError>)
    ensures
        r is Ok <==> account_id_acceptable(account_id),
        r matches Err(e) ==> e is InvalidAccountId,
{
    if is_blank_text(account_id) || account_id.len() > MAX_ACCOUNT_ID_BYTES {
        return Err(ApplicationError::InvalidAccountId);
    }
    Ok(())
}

/// The theme in force: the stored one, or the system theme.
pub open spec fn theme_in_force(stored: Option<UserSettings>) -> Theme {
    match stored {
        Some(s) => s.theme,
        None => Theme::System,
    }
}

/// The locale in force: the stored one, or the service's default.
pub open spec fn locale_in_force(stored: Option<UserSettings>, default_locale: Seq<char>) -> Seq<
    char,
> {
    match stored {
        Some(s) => s.locale@,
        None => default_locale,
    }
}

/// The answer to a settings read: the stored theme and locale, or the system
/// theme and the default locale when nothing is stored, with the hidden
/// accounts.
pub fn settings_response(
    app_kind: AppKind,
    stored: Option<UserSettings>,
    hidden_account_ids: Vec<String>,
    default_locale: &String,
) -> (r: SettingsResponse)
    ensures
        r.app_kind == app_kind,
        r.theme == theme_in_force(stored),
        r.locale@ == locale_in_force(stored, default_locale@),
        r.hidden_account_ids == hidden_account_ids,
{
    match stored {
        Some(settings) => SettingsResponse {
            app_kind,
            theme: settings.theme,
            locale: settings.locale,
            hidden_account_ids,
        },
        None => SettingsResponse {
            app_kind,
            theme: Theme::System,
            locale: default_locale.clone(),
            hidden_account_ids,
        },
    }
}

/// The locale written along with a new theme: the one in force, so that a
/// theme change keeps the locale.
pub fn locale_for_theme_update(stored: &Option<UserSettings>, default_locale: &String) -> (r:
    String)
    ensures
        r@ == locale_in_force(*stored, default_locale@),
{
    match stored {
        Some(s) => s.locale.clone(),
        None => default_locale.clone(),
    }
}

/// The theme written along with a new locale: the one in force, so that a
/// locale change keeps the theme.
pub fn theme_for_locale_update(stored: &Option<UserSettings>) -> (r: Theme)
    ensures
        r == theme_in_force(*stored),
{
    match stored {
        Some(s) => s.theme,
        None => Theme::System,
    }
}

/// The answer to an update: the settings as the store wrote them, with the
/// hidden accounts.
pub fn updated_settings_response(
    app_kind: AppKind,
    updated: UserSettings,
    hidden_account_ids: Vec<String>,
) -> (r: SettingsResponse)
    ensures
        r.app_kind == app_kind,
        r.theme == updated.theme,
        r.locale == updated.locale,
        r.hidden_account_ids == hidden_account_ids,
{
    SettingsResponse {
        app_kind,
        theme: updated.theme,
        locale: updated.locale,
        hidden_account_ids,
    }
}

/// A theme update, once stored as written, reads back with the new theme and
/// the locale that was in force before it.
pub proof fn lemma_theme_update_reads_back(
    stored: Option<UserSettings>,
    theme: Theme,
    written: UserSettings,
    default_locale: Seq<char>,
)
    requires
        written.theme == theme,
        written.locale@ == locale_in_force(stored, default_locale),
    ensures
        theme_in_force(Some(written)) == theme,
        locale_in_force(Some(written), default_locale) == locale_in_force(stored, default_locale),
{
}

/// A locale update, once stored as written, reads back with the new locale
/// and the theme that was in force before it.
pub proof fn lemma_locale_update_reads_back(
    stored: Option<UserSettings>,
    locale: Seq<char>,
    written: UserSettings,
    default_locale: Seq<char>,
)
    requires
        written.theme == theme_in_force(stored),
        written.locale@ == locale,
    ensures
        theme_in_force(Some(written)) == theme_in_force(stored),
        locale_in_force(Some(written), default_locale) == locale,
{
}

} // verus!
